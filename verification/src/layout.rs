//! The layout assembler: per-member `(name, slot width, offset)` tables for
//! the geometry and instance vertex streams, the name-to-offset table for
//! draw-call-tier uniforms, and recognition of the conventional rect quad
//! (`x`, `y`, `w`, `h`) among instance members. Offsets are positional: they
//! follow declaration order and the fixed per-type slot widths, so host-side
//! buffer packing and the generated struct layout can never disagree.

use vstd::prelude::*;
use crate::types::{ShTy, ShVar, slot_count, str_eq, ty_slots};
use crate::catalog::{MAX_CATALOG_LEN, slots_of};

verus! {

/// One flattened member: its name, type, slot width, and slot offset from
/// the start of its stream.
#[derive(Debug)]
pub struct NamedProp {
    pub name: String,
    pub ty: ShTy,
    pub slots: usize,
    pub offset: usize,
}

impl Clone for NamedProp {
    fn clone(&self) -> (r: Self)
        ensures
            r == *self,
    {
        NamedProp { name: self.name.clone(), ty: self.ty, slots: self.slots, offset: self.offset }
    }
}

/// The flattened members of one stream, in declaration order, with the total
/// slot count of the stream.
#[derive(Debug)]
pub struct NamedProps {
    pub props: Vec<NamedProp>,
    pub total_slots: usize,
}

/// The offset table `props` is exactly the positional layout of `vars`: one
/// entry per variable, in order, each offset the sum of the widths before it.
pub open spec fn props_match_vars(props: Seq<NamedProp>, vars: Seq<ShVar>) -> bool {
    &&& props.len() == vars.len()
    &&& forall|i: int|
        0 <= i < vars.len() ==> {
            &&& (#[trigger] props[i]).name@ == vars[i].name@
            &&& props[i].ty == vars[i].ty
            &&& props[i].slots == ty_slots(vars[i].ty)
            &&& props[i].offset == slots_of(vars.take(i))
        }
}

/// The slot offset of the first variable of `vs` named `n`, if any.
pub open spec fn named_offset(vs: Seq<ShVar>, n: Seq<char>) -> Option<int>
    decreases vs.len(),
{
    if vs.len() == 0 {
        None
    } else if vs[0].name@ == n {
        Some(0int)
    } else {
        match named_offset(vs.drop_first(), n) {
            Some(o) => Some(o + ty_slots(vs[0].ty)),
            None => None,
        }
    }
}

impl NamedProps {
    /// Builds the positional offset table of a flattened variable list.
    #[verifier::loop_isolation(false)]
    pub fn construct(vars: &Vec<ShVar>) -> (r: NamedProps)
        requires
            vars@.len() <= MAX_CATALOG_LEN,
        ensures
            props_match_vars(r.props@, vars@),
            r.total_slots == slots_of(vars@),
    {
        let mut props: Vec<NamedProp> = Vec::new();
        let mut off: usize = 0;
        let mut i: usize = 0;
        while i < vars.len()
            invariant
                i <= vars@.len(),
                off == slots_of(vars@.take(i as int)),
                off <= i * 16,
                props_match_vars(props@, vars@.take(i as int)),
            decreases vars@.len() - i,
        {
            proof {
                assert(vars@.take(i + 1 as int).drop_last() =~= vars@.take(i as int));
                assert(vars@.take(i + 1 as int).last() == vars@[i as int]);
            }
            let v = &vars[i];
            let w = slot_count(v.ty);
            props.push(NamedProp { name: v.name.clone(), ty: v.ty, slots: w, offset: off });
            proof {
                assert forall|k: int| 0 <= k < i + 1 implies {
                    &&& (#[trigger] props@[k]).name@ == vars@.take(i + 1 as int)[k].name@
                    &&& props@[k].ty == vars@.take(i + 1 as int)[k].ty
                    &&& props@[k].slots == ty_slots(vars@.take(i + 1 as int)[k].ty)
                    &&& props@[k].offset == slots_of(vars@.take(i + 1 as int).take(k))
                } by {
                    assert(vars@.take(i + 1 as int).take(k) =~= vars@.take(i as int).take(k));
                    assert(vars@.take(i + 1 as int)[k] == vars@[k]);
                    if k < i {
                        assert(vars@.take(i as int)[k] == vars@[k]);
                    } else {
                        assert(vars@.take(i + 1 as int).take(k) =~= vars@.take(i as int));
                    }
                }
            }
            off = off + w;
            i = i + 1;
        }
        proof {
            assert(vars@.take(vars@.len() as int) =~= vars@);
        }
        NamedProps { props, total_slots: off }
    }

    /// An empty table, for placeholder records.
    pub fn empty() -> (r: NamedProps)
        ensures
            r.props@.len() == 0,
            r.total_slots == 0,
    {
        NamedProps { props: Vec::new(), total_slots: 0 }
    }

    /// The slot offset of the draw-call-tier uniform conventionally used for
    /// depth biasing, so callers can push it without a hardcoded position.
    pub fn find_zbias_uniform_prop(&self) -> (r: Option<usize>)
        ensures
            match r {
                Some(off) => exists|i: int|
                    0 <= i < self.props@.len() && (#[trigger] self.props@[i]).name@ == "zbias"@
                        && self.props@[i].offset == off,
                None => forall|i: int|
                    0 <= i < self.props@.len() ==> (#[trigger] self.props@[i]).name@ != "zbias"@,
            },
    {
        let mut i: usize = 0;
        while i < self.props.len()
            invariant
                i <= self.props@.len(),
                forall|j: int| 0 <= j < i ==> (#[trigger] self.props@[j]).name@ != "zbias"@,
            decreases self.props@.len() - i,
        {
            if str_eq(self.props[i].name.as_str(), "zbias") {
                return Some(self.props[i].offset);
            }
            i = i + 1;
        }
        None
    }
}

/// The slot offset of the first variable of `vs` named `n`, executable form.
#[verifier::loop_isolation(false)]
pub fn find_var_offset(vs: &Vec<ShVar>, name: &str) -> (r: Option<usize>)
    requires
        vs@.len() <= MAX_CATALOG_LEN,
    ensures
        match r {
            Some(off) => named_offset(vs@, name@) == Some(off as int),
            None => named_offset(vs@, name@) is None,
        },
{
    let mut off: usize = 0;
    let mut i: usize = 0;
    proof {
        assert(vs@.skip(0) =~= vs@);
    }
    while i < vs.len()
        invariant
            i <= vs@.len(),
            off == slots_of(vs@.take(i as int)),
            off <= i * 16,
            named_offset(vs@, name@) == match named_offset(vs@.skip(i as int), name@) {
                Some(o) => Some(o + off),
                None => None::<int>,
            },
        decreases vs@.len() - i,
    {
        let ghost rest = vs@.skip(i as int);
        proof {
            assert(rest[0] == vs@[i as int]);
            assert(rest.drop_first() =~= vs@.skip(i + 1 as int));
            assert(vs@.take(i + 1 as int).drop_last() =~= vs@.take(i as int));
            assert(vs@.take(i + 1 as int).last() == vs@[i as int]);
        }
        if str_eq(vs[i].name.as_str(), name) {
            return Some(off);
        }
        off = off + slot_count(vs[i].ty);
        i = i + 1;
    }
    proof {
        assert(vs@.skip(vs@.len() as int) =~= Seq::<ShVar>::empty());
    }
    None
}

/// The conventional rect quad among instance members: slot offsets of the
/// `x`, `y`, `w`, `h` instance variables, where declared.
#[derive(Debug)]
pub struct RectInstanceProps {
    pub x: Option<usize>,
    pub y: Option<usize>,
    pub w: Option<usize>,
    pub h: Option<usize>,
}

impl Clone for RectInstanceProps {
    fn clone(&self) -> (r: Self)
        ensures
            r == *self,
    {
        RectInstanceProps { x: self.x, y: self.y, w: self.w, h: self.h }
    }
}

/// What each rect field must be: the offset of the instance member of that
/// name, or absent when no member has the name.
pub open spec fn rect_field_matches(r: Option<usize>, vs: Seq<ShVar>, n: Seq<char>) -> bool {
    match r {
        Some(off) => named_offset(vs, n) == Some(off as int),
        None => named_offset(vs, n) is None,
    }
}

impl RectInstanceProps {
    /// Recognizes the conventional rect quad among the instance members.
    pub fn construct(instances: &Vec<ShVar>) -> (r: RectInstanceProps)
        requires
            instances@.len() <= MAX_CATALOG_LEN,
        ensures
            rect_field_matches(r.x, instances@, "x"@),
            rect_field_matches(r.y, instances@, "y"@),
            rect_field_matches(r.w, instances@, "w"@),
            rect_field_matches(r.h, instances@, "h"@),
    {
        RectInstanceProps {
            x: find_var_offset(instances, "x"),
            y: find_var_offset(instances, "y"),
            w: find_var_offset(instances, "w"),
            h: find_var_offset(instances, "h"),
        }
    }

    /// All four fields absent, for placeholder records.
    pub fn empty() -> (r: RectInstanceProps)
        ensures
            r.x is None,
            r.y is None,
            r.w is None,
            r.h is None,
    {
        RectInstanceProps { x: None, y: None, w: None, h: None }
    }
}

/// The binding-layout half of one compiled shader: the flattened streams,
/// their slot counts, the named-offset tables, and the rect-quad accessor.
/// Host-side buffer packing reads exactly these.
#[derive(Debug)]
pub struct CxShaderMapping {
    pub zbias_uniform_prop: Option<usize>,
    pub rect_instance_props: RectInstanceProps,
    pub named_instance_props: NamedProps,
    pub named_uniform_props: NamedProps,
    pub geometries: Vec<ShVar>,
    pub instances: Vec<ShVar>,
    pub geometry_slots: usize,
    pub instance_slots: usize,
    pub uniforms_dr: Vec<ShVar>,
    pub uniforms_vw: Vec<ShVar>,
    pub uniforms_cx: Vec<ShVar>,
    pub texture_slots: Vec<ShVar>,
}

/// The mapping is exactly the positional layout of the catalog: every table
/// is the declaration-ordered flattening of its storage class, every slot
/// count its width sum, every offset table positional, and the rect and
/// depth-bias accessors the offsets of the conventional member names.
pub open spec fn mapping_matches(m: CxShaderMapping, sg: crate::catalog::ShaderGen) -> bool {
    &&& m.geometries@ == crate::catalog::filter_store(sg.vars@, crate::types::ShVarStore::Geometry)
    &&& m.instances@ == crate::catalog::filter_store(sg.vars@, crate::types::ShVarStore::Instance)
    &&& m.uniforms_dr@ == crate::catalog::filter_store(sg.vars@, crate::types::ShVarStore::Uniform)
    &&& m.uniforms_vw@ == crate::catalog::filter_store(
        sg.vars@,
        crate::types::ShVarStore::UniformVw,
    )
    &&& m.uniforms_cx@ == crate::catalog::filter_store(
        sg.vars@,
        crate::types::ShVarStore::UniformCx,
    )
    &&& m.texture_slots@ == crate::catalog::filter_store(
        sg.vars@,
        crate::types::ShVarStore::Texture,
    )
    &&& m.geometry_slots == slots_of(m.geometries@)
    &&& m.instance_slots == slots_of(m.instances@)
    &&& props_match_vars(m.named_instance_props.props@, m.instances@)
    &&& m.named_instance_props.total_slots == slots_of(m.instances@)
    &&& props_match_vars(m.named_uniform_props.props@, m.uniforms_dr@)
    &&& m.named_uniform_props.total_slots == slots_of(m.uniforms_dr@)
    &&& rect_field_matches(m.rect_instance_props.x, m.instances@, "x"@)
    &&& rect_field_matches(m.rect_instance_props.y, m.instances@, "y"@)
    &&& rect_field_matches(m.rect_instance_props.w, m.instances@, "w"@)
    &&& rect_field_matches(m.rect_instance_props.h, m.instances@, "h"@)
    &&& match m.zbias_uniform_prop {
        Some(off) => exists|i: int|
            0 <= i < m.named_uniform_props.props@.len() && (
            #[trigger] m.named_uniform_props.props@[i]).name@ == "zbias"@
                && m.named_uniform_props.props@[i].offset == off,
        None => forall|i: int|
            0 <= i < m.named_uniform_props.props@.len() ==> (
            #[trigger] m.named_uniform_props.props@[i]).name@ != "zbias"@,
    }
}

impl CxShaderMapping {
    /// Builds the whole layout half from the catalog.
    pub fn construct(sg: &crate::catalog::ShaderGen) -> (r: CxShaderMapping)
        requires
            sg.wf(),
        ensures
            mapping_matches(r, *sg),
    {
        proof {
            crate::catalog::lemma_filter_store(sg.vars@, crate::types::ShVarStore::Geometry);
            crate::catalog::lemma_filter_store(sg.vars@, crate::types::ShVarStore::Instance);
            crate::catalog::lemma_filter_store(sg.vars@, crate::types::ShVarStore::Uniform);
        }
        let geometries = sg.flat_vars(crate::types::ShVarStore::Geometry);
        let instances = sg.flat_vars(crate::types::ShVarStore::Instance);
        let uniforms_dr = sg.flat_vars(crate::types::ShVarStore::Uniform);
        let uniforms_vw = sg.flat_vars(crate::types::ShVarStore::UniformVw);
        let uniforms_cx = sg.flat_vars(crate::types::ShVarStore::UniformCx);
        let texture_slots = sg.flat_vars(crate::types::ShVarStore::Texture);
        let geometry_slots = sg.compute_slot_total(&geometries);
        let instance_slots = sg.compute_slot_total(&instances);
        let named_instance_props = NamedProps::construct(&instances);
        let named_uniform_props = NamedProps::construct(&uniforms_dr);
        let rect_instance_props = RectInstanceProps::construct(&instances);
        let zbias_uniform_prop = named_uniform_props.find_zbias_uniform_prop();
        CxShaderMapping {
            zbias_uniform_prop,
            rect_instance_props,
            named_instance_props,
            named_uniform_props,
            geometries,
            instances,
            geometry_slots,
            instance_slots,
            uniforms_dr,
            uniforms_vw,
            uniforms_cx,
            texture_slots,
        }
    }

    /// An empty mapping, for placeholder records.
    pub fn empty() -> (r: CxShaderMapping)
        ensures
            empty_mapping(r),
    {
        CxShaderMapping {
            zbias_uniform_prop: None,
            rect_instance_props: RectInstanceProps::empty(),
            named_instance_props: NamedProps::empty(),
            named_uniform_props: NamedProps::empty(),
            geometries: Vec::new(),
            instances: Vec::new(),
            geometry_slots: 0,
            instance_slots: 0,
            uniforms_dr: Vec::new(),
            uniforms_vw: Vec::new(),
            uniforms_cx: Vec::new(),
            texture_slots: Vec::new(),
        }
    }
}

/// A mapping with nothing in it: every table empty, every slot count zero,
/// every accessor absent.
pub open spec fn empty_mapping(m: CxShaderMapping) -> bool {
    &&& m.zbias_uniform_prop is None
    &&& m.rect_instance_props.x is None
    &&& m.rect_instance_props.y is None
    &&& m.rect_instance_props.w is None
    &&& m.rect_instance_props.h is None
    &&& m.named_instance_props.props@.len() == 0
    &&& m.named_instance_props.total_slots == 0
    &&& m.named_uniform_props.props@.len() == 0
    &&& m.named_uniform_props.total_slots == 0
    &&& m.geometries@.len() == 0
    &&& m.instances@.len() == 0
    &&& m.geometry_slots == 0
    &&& m.instance_slots == 0
    &&& m.uniforms_dr@.len() == 0
    &&& m.uniforms_vw@.len() == 0
    &&& m.uniforms_cx@.len() == 0
    &&& m.texture_slots@.len() == 0
}

/// The record a failed compile leaves in the set: empty source and an empty
/// mapping, so the draw pipeline skips it rather than drawing garbage.
pub open spec fn placeholder_record(r: CompiledShader) -> bool {
    &&& r.shader_id == 0
    &&& r.source@ == Seq::<char>::empty()
    &&& empty_mapping(r.mapping)
}

/// One compiled shader record: the generated source text and the layout
/// metadata, created once per description and backend, immutable thereafter.
/// A failed compile leaves a placeholder record with empty source so the
/// rest of the shader set still draws.
#[derive(Debug)]
pub struct CompiledShader {
    pub shader_id: usize,
    pub source: String,
    pub mapping: CxShaderMapping,
}

impl Default for CompiledShader {
    /// The placeholder record.
    fn default() -> (r: Self)
        ensures
            placeholder_record(r),
    {
        CompiledShader { shader_id: 0, source: String::new(), mapping: CxShaderMapping::empty() }
    }
}

} // verus!
