//! The draw-list walk: the decision core of the render loop. A draw list is
//! a tree of draw calls, each either deferring to a sub-list or drawing a
//! batch of instances with one compiled shader. Walking it yields the exact
//! ordered sequence of draw operations, with the instance count of each call
//! computed from the compiled shader's instance stride; the platform layer
//! performs them against its graphics API.

use vstd::prelude::*;
use crate::cx::Cx;
use crate::layout::CompiledShader;

verus! {

/// Per-draw-list graphics resources; the platform layer fills this in.
#[derive(Clone, Copy, PartialEq, Eq, Structural, Debug, Default)]
pub struct DrawListResources {
}

/// Per-draw-call graphics resource identifiers: which shader the vertex
/// array object was built for, and the buffer ids backing it.
#[derive(Clone, Copy, PartialEq, Eq, Structural, Debug, Default)]
pub struct DrawCallResources {
    pub resource_shader_id: usize,
    pub vao_id: usize,
    pub inst_vb_id: usize,
}

/// One recorded draw call: either a deferral to a sub-list (nonzero
/// `sub_list_id`) or a batch draw of `instance_len` packed floats with one
/// shader.
#[derive(Clone, Copy, PartialEq, Eq, Structural, Debug)]
pub struct DrawCall {
    pub sub_list_id: usize,
    pub shader_id: usize,
    pub instance_len: usize,
    pub instance_dirty: bool,
    pub uniforms_dirty: bool,
    pub resources: DrawCallResources,
}

/// One draw list: its draw calls in recorded order.
#[derive(Debug)]
pub struct DrawList {
    pub draw_calls: Vec<DrawCall>,
    pub draw_calls_len: usize,
    pub resources: DrawListResources,
}

/// One decided draw operation, in execution order.
#[derive(Clone, Copy, PartialEq, Eq, Structural, Debug)]
pub struct DrawOp {
    pub draw_list_id: usize,
    pub draw_call_id: usize,
    pub shader_id: usize,
    pub instances: usize,
    pub update_instances: bool,
    pub update_uniforms: bool,
}

/// Draw-list forest well-formedness: every recorded length is in range,
/// every sub-list reference points forward (lists are created after their
/// parents), and every drawing call names a compiled shader with a nonzero
/// instance stride.
pub open spec fn draw_wf(lists: Seq<DrawList>, compiled: Seq<CompiledShader>) -> bool {
    forall|i: int|
        0 <= i < lists.len() ==> {
            &&& (#[trigger] lists[i]).draw_calls_len <= lists[i].draw_calls@.len()
            &&& forall|j: int|
                0 <= j < lists[i].draw_calls_len ==> {
                    &&& ((#[trigger] lists[i].draw_calls@[j]).sub_list_id == 0 || (i
                        < lists[i].draw_calls@[j].sub_list_id
                        && lists[i].draw_calls@[j].sub_list_id < lists.len()))
                    &&& (lists[i].draw_calls@[j].sub_list_id == 0 ==> lists[i].draw_calls@[j].shader_id
                        < compiled.len() && compiled[lists[i].draw_calls@[j].shader_id as int].mapping.instance_slots
                        > 0)
                }
        }
}

/// The operations of one draw call: a deferral walks the sub-list, a drawing
/// call is one operation whose instance count is its packed length divided
/// by the shader's instance stride.
pub open spec fn sp_draw_calls(
    lists: Seq<DrawList>,
    compiled: Seq<CompiledShader>,
    id: int,
    j: int,
) -> Seq<DrawOp>
    decreases lists.len() - id, 1nat, j,
    when 0 <= id < lists.len() && 0 <= j <= lists[id].draw_calls_len && draw_wf(lists, compiled)
{
    if j <= 0 {
        Seq::empty()
    } else {
        let call = lists[id].draw_calls@[j - 1];
        sp_draw_calls(lists, compiled, id, j - 1) + (if call.sub_list_id != 0 {
            sp_draw_list(lists, compiled, call.sub_list_id as int)
        } else {
            seq![
                DrawOp {
                    draw_list_id: id as usize,
                    draw_call_id: (j - 1) as usize,
                    shader_id: call.shader_id,
                    instances: (call.instance_len as int / compiled[call.shader_id as int].mapping.instance_slots as int) as usize,
                    update_instances: call.instance_dirty,
                    update_uniforms: call.uniforms_dirty,
                },
            ]
        })
    }
}

/// The operations of one whole draw list, in recorded order.
pub open spec fn sp_draw_list(lists: Seq<DrawList>, compiled: Seq<CompiledShader>, id: int) -> Seq<
    DrawOp,
>
    decreases lists.len() - id, 2nat, 0nat,
    when 0 <= id < lists.len() && draw_wf(lists, compiled)
{
    sp_draw_calls(lists, compiled, id, lists[id].draw_calls_len as int)
}

impl Cx {
    /// Walks one draw list depth-first and appends the decided draw
    /// operations, in execution order.
    #[verifier::rlimit(60)]
    pub fn exec_draw_list(&self, draw_list_id: usize, out: &mut Vec<DrawOp>)
        requires
            draw_wf(self.draw_lists@, self.compiled_shaders@),
            draw_list_id < self.draw_lists@.len(),
        ensures
            final(out)@ == old(out)@ + sp_draw_list(
                self.draw_lists@,
                self.compiled_shaders@,
                draw_list_id as int,
            ),
        decreases self.draw_lists@.len() - draw_list_id,
    {
        let ghost base = old(out)@;
        let ghost lists = self.draw_lists@;
        let ghost compiled = self.compiled_shaders@;
        let draw_calls_len = self.draw_lists[draw_list_id].draw_calls_len;
        proof {
            assert(out@ =~= base + sp_draw_calls(lists, compiled, draw_list_id as int, 0));
        }
        let mut j: usize = 0;
        while j < draw_calls_len
            invariant
                j <= draw_calls_len,
                out@ == base + sp_draw_calls(lists, compiled, draw_list_id as int, j as int),
            decreases draw_calls_len - j,
        {
            let call = self.draw_lists[draw_list_id].draw_calls[j];
            if call.sub_list_id != 0 {
                self.exec_draw_list(call.sub_list_id, out);
            } else {
                let slots = self.compiled_shaders[call.shader_id].mapping.instance_slots;
                let instances = call.instance_len / slots;
                out.push(
                    DrawOp {
                        draw_list_id,
                        draw_call_id: j,
                        shader_id: call.shader_id,
                        instances,
                        update_instances: call.instance_dirty,
                        update_uniforms: call.uniforms_dirty,
                    },
                );
            }
            proof {
                assert(out@ =~= base + sp_draw_calls(
                    lists,
                    compiled,
                    draw_list_id as int,
                    j + 1 as int,
                ));
            }
            j = j + 1;
        }
    }
}

} // verus!
