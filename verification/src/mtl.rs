//! The Apple Metal Shading Language backend: byte-packed vertex and uniform
//! structs, the texture argument struct, the constants block, the resolved
//! function bodies of both stages, and the two stage wrappers with Metal's
//! buffer and attribute bindings. Every byte of the output is pinned by
//! `sp_mtl_shader`.

use vstd::prelude::*;
use vstd::string::StringExecFns;
use crate::types::{ShTy, ShVar, ShVarStore, ShaderCompileError};
use crate::catalog::{ShaderGen, filter_store};
use crate::cx::Cx;
use crate::gen::{
    Backend, EmitErr, GenEnv, RState, SlCx, SlTarget, auto_copy_lines, append_auto_copies,
    const_env, dec_text, deps_view, env_of, metal_packed_type_str, metal_packed_type_text,
    metal_type_str, metal_type_text, rst_of, rwf, sp_consts_text, sp_resolve_list, usize_to_string,
};
use crate::layout::{CompiledShader, CxShaderMapping, mapping_matches};

verus! {

/// One line of a Metal struct block, packed or unpacked.
pub open spec fn mtl_struct_line(v: ShVar, packed: bool) -> Seq<char> {
    "  "@ + (if packed {
        metal_packed_type_text(v.ty)
    } else {
        metal_type_text(v.ty)
    }) + " "@ + v.name@ + ";\n"@
}

pub open spec fn mtl_struct_lines(vars: Seq<ShVar>, packed: bool) -> Seq<char>
    decreases vars.len(),
{
    if vars.len() == 0 {
        Seq::<char>::empty()
    } else {
        mtl_struct_lines(vars.drop_last(), packed) + mtl_struct_line(vars.last(), packed)
    }
}

/// One Metal struct block. The vertex-stream and uniform structs are packed
/// so their layout is exactly the positional host layout.
pub open spec fn mtl_struct_text(
    name: Seq<char>,
    vars: Seq<ShVar>,
    packed: bool,
    field: Seq<char>,
) -> Seq<char> {
    "struct "@ + name + "{\n"@ + field + mtl_struct_lines(vars, packed) + "};\n\n"@
}

/// One texture member of the `_Tex` argument struct, bound by position.
pub open spec fn mtl_texture_line(v: ShVar, i: int) -> Seq<char> {
    "texture2d<float> "@ + v.name@ + " [[texture("@ + dec_text(i) + ")]];\n"@
}

pub open spec fn mtl_texture_lines(textures: Seq<ShVar>) -> Seq<char>
    decreases textures.len(),
{
    if textures.len() == 0 {
        Seq::<char>::empty()
    } else {
        mtl_texture_lines(textures.drop_last()) + mtl_texture_line(
            textures.last(),
            textures.len() - 1,
        )
    }
}

/// The `_Tex` argument struct.
pub open spec fn mtl_texture_text(textures: Seq<ShVar>) -> Seq<char> {
    "struct _Tex{\n"@ + mtl_texture_lines(textures) + "};\n\n"@
}

/// The per-stage environment of the Metal backend.
pub open spec fn mtl_env(sg: ShaderGen, tgt: SlTarget) -> GenEnv {
    GenEnv {
        vars: sg.vars@,
        consts: crate::ir::consts_view(sg.consts@),
        fns: crate::ir::fns_view(sg.fns@),
        backend: Backend::Metal,
        target: tgt,
        prefix: "_"@,
        defargs_fn: if tgt == SlTarget::Vertex {
            "_Tex _tex, thread _Loc &_loc, thread _Vary &_vary, thread _Geom &_geom, thread _Inst &_inst, device _UniCx &_uni_cx, device _UniVw &_uni_vw, device _UniDr &_uni_dr"@
        } else {
            "_Tex _tex, thread _Loc &_loc, thread _Vary &_vary, device _UniCx &_uni_cx, device _UniVw &_uni_vw, device _UniDr &_uni_dr"@
        },
        defargs_call: if tgt == SlTarget::Vertex {
            "_tex, _loc, _vary, _geom, _inst, _uni_cx, _uni_vw, _uni_dr"@
        } else {
            "_tex, _loc, _vary, _uni_cx, _uni_vw, _uni_dr"@
        },
    }
}

/// The Metal vertex-stage wrapper: fetch the per-vertex and per-instance
/// records, call the generated vertex entry, copy every auto-promoted
/// varying out of its source struct, and return the varyings.
pub open spec fn mtl_vertex_wrapper(autos: Seq<ShVar>) -> Seq<char> {
    "vertex _Vary _vertex_shader(_Tex _tex, device _Geom *in_geometries [[buffer(0)]], device _Inst *in_instances [[buffer(1)]],\n"@
        + "  device _UniCx &_uni_cx [[buffer(2)]], device _UniVw &_uni_vw [[buffer(3)]], device _UniDr &_uni_dr [[buffer(4)]],\n"@
        + "  uint vtx_id [[vertex_id]], uint inst_id [[instance_id]]){\n"@
        + "  _Loc _loc;\n  _Vary _vary;\n  _Geom _geom = in_geometries[vtx_id];\n  _Inst _inst = in_instances[inst_id];\n"@
        + "  _vary.mtl_position = _vertex("@
        + "_tex, _loc, _vary, _geom, _inst, _uni_cx, _uni_vw, _uni_dr"@ + ");\n\n"@
        + auto_copy_lines(autos) + "       return _vary;\n};\n"@
}

/// The Metal fragment-stage wrapper.
pub open spec fn mtl_pixel_wrapper() -> Seq<char> {
    "fragment float4 _fragment_shader(_Vary _vary[[stage_in]],_Tex _tex,\n"@
        + "  device _UniCx &_uni_cx [[buffer(0)]], device _UniVw &_uni_vw [[buffer(1)]], device _UniDr &_uni_dr [[buffer(2)]]){\n"@
        + "  _Loc _loc;\n  return _pixel("@ + "_tex, _loc, _vary, _uni_cx, _uni_vw, _uni_dr"@
        + ");\n};\n"@
}

/// What the Metal backend emits for one description: the standard-library
/// header, the packed vertex-stream structs, the three uniform tiers, the
/// locals struct, the texture argument struct, the constants, the varyings
/// struct extended with the pixel stage's promotions, both stages' function
/// bodies resolved callee-before-caller with shared deduplication, and the
/// two stage wrappers.
pub open spec fn sp_mtl_shader(sg: ShaderGen) -> Result<crate::hlsl::AssembledOut, EmitErr> {
    let texture_slots = filter_store(sg.vars@, ShVarStore::Texture);
    let geometries = filter_store(sg.vars@, ShVarStore::Geometry);
    let instances = filter_store(sg.vars@, ShVarStore::Instance);
    let varyings = filter_store(sg.vars@, ShVarStore::Varying);
    let locals = filter_store(sg.vars@, ShVarStore::Local);
    let uniforms_cx = filter_store(sg.vars@, ShVarStore::UniformCx);
    let uniforms_vw = filter_store(sg.vars@, ShVarStore::UniformVw);
    let uniforms_dr = filter_store(sg.vars@, ShVarStore::Uniform);
    match sp_consts_text(crate::ir::consts_view(sg.consts@), const_env(sg, Backend::Metal)) {
        Err(e) => Err(e),
        Ok(consts_text) => {
            let fuel = crate::ir::fns_view(sg.fns@).len();
            match sp_resolve_list(
                seq!["vertex"@],
                mtl_env(sg, SlTarget::Vertex),
                RState { done: Seq::empty(), auto_vary: Seq::empty(), out: Seq::empty() },
                fuel,
            ) {
                Err(e) => Err(e),
                Ok(vst) => match sp_resolve_list(
                    seq!["pixel"@],
                    mtl_env(sg, SlTarget::Pixel),
                    RState { done: vst.done, auto_vary: Seq::empty(), out: Seq::empty() },
                    (fuel - vst.done.len()) as nat,
                ) {
                    Err(e) => Err(e),
                    Ok(pst) => {
                        let varyings_full = varyings + pst.auto_vary;
                        Ok(
                            crate::hlsl::AssembledOut {
                                text: "#include <metal_stdlib>\nusing namespace metal;\n"@
                                    + mtl_struct_text("_Geom"@, geometries, true, Seq::empty())
                                    + mtl_struct_text("_Inst"@, instances, true, Seq::empty())
                                    + mtl_struct_text("_UniCx"@, uniforms_cx, true, Seq::empty())
                                    + mtl_struct_text("_UniVw"@, uniforms_vw, true, Seq::empty())
                                    + mtl_struct_text("_UniDr"@, uniforms_dr, true, Seq::empty())
                                    + mtl_struct_text("_Loc"@, locals, false, Seq::empty())
                                    + mtl_texture_text(texture_slots) + consts_text
                                    + mtl_struct_text(
                                    "_Vary"@,
                                    varyings_full,
                                    false,
                                    "  float4 mtl_position [[position]];\n"@,
                                ) + "//Vertex shader\n"@ + vst.out + "//Pixel shader\n"@ + pst.out
                                    + mtl_vertex_wrapper(pst.auto_vary) + mtl_pixel_wrapper(),
                                autos: pst.auto_vary,
                            },
                        )
                    },
                },
            }
        },
    }
}

impl Cx {
    /// The Metal spelling of an abstract type.
    pub fn type_to_metal(ty: ShTy) -> (r: String)
        ensures
            r@ == metal_type_text(ty),
    {
        metal_type_str(ty).to_string()
    }

    /// The packed Metal spelling of an abstract type.
    pub fn type_to_packed_metal(ty: ShTy) -> (r: String)
        ensures
            r@ == metal_packed_type_text(ty),
    {
        metal_packed_type_str(ty).to_string()
    }

    /// One Metal struct block.
    pub fn assemble_struct(name: &str, vars: &Vec<ShVar>, packed: bool, field: &str) -> (r: String)
        ensures
            r@ == mtl_struct_text(name@, vars@, packed, field@),
    {
        let mut out = String::new();
        out.append("struct ");
        out.append(name);
        out.append("{\n");
        out.append(field);
        proof {
            assert(vars@.take(0) =~= Seq::<ShVar>::empty());
        }
        let mut i: usize = 0;
        while i < vars.len()
            invariant
                i <= vars@.len(),
                out@ == "struct "@ + name@ + "{\n"@ + field@ + mtl_struct_lines(
                    vars@.take(i as int),
                    packed,
                ),
            decreases vars@.len() - i,
        {
            proof {
                assert(vars@.take(i + 1 as int).drop_last() =~= vars@.take(i as int));
                assert(vars@.take(i + 1 as int).last() == vars@[i as int]);
            }
            let v = &vars[i];
            out.append("  ");
            if packed {
                out.append(metal_packed_type_str(v.ty));
            } else {
                out.append(metal_type_str(v.ty));
            }
            out.append(" ");
            out.append(v.name.as_str());
            out.append(";\n");
            i = i + 1;
        }
        proof {
            assert(vars@.take(vars@.len() as int) =~= vars@);
        }
        out.append("};\n\n");
        out
    }

    /// The `_Tex` argument struct, one texture member per slot in order.
    pub fn assemble_texture_slots(textures: &Vec<ShVar>) -> (r: String)
        ensures
            r@ == mtl_texture_text(textures@),
    {
        let mut out = String::new();
        out.append("struct _Tex{\n");
        proof {
            assert(textures@.take(0) =~= Seq::<ShVar>::empty());
        }
        let mut i: usize = 0;
        while i < textures.len()
            invariant
                i <= textures@.len(),
                out@ == "struct _Tex{\n"@ + mtl_texture_lines(textures@.take(i as int)),
            decreases textures@.len() - i,
        {
            proof {
                assert(textures@.take(i + 1 as int).drop_last() =~= textures@.take(i as int));
                assert(textures@.take(i + 1 as int).last() == textures@[i as int]);
            }
            out.append("texture2d<float> ");
            out.append(textures[i].name.as_str());
            out.append(" [[texture(");
            let num = usize_to_string(i);
            out.append(num.as_str());
            out.append(")]];\n");
            i = i + 1;
        }
        proof {
            assert(textures@.take(textures@.len() as int) =~= textures@);
        }
        out.append("};\n\n");
        out
    }

    /// Assembles the whole Metal source of one description, together with
    /// the layout mapping host code packs buffers by.
    #[verifier::rlimit(100)]
    pub fn assemble_shader(sg: &ShaderGen) -> (r: Result<
        (String, CxShaderMapping),
        ShaderCompileError,
    >)
        requires
            sg.wf(),
        ensures
            match sp_mtl_shader(*sg) {
                Ok(o) => r matches Ok(p) && p.0@ == o.text && mapping_matches(p.1, *sg),
                Err(er) => r matches Err(e2) && e2.message@ == er.message && e2.construct@
                    == er.construct,
            },
    {
        let texture_slots = sg.flat_vars(ShVarStore::Texture);
        let geometries = sg.flat_vars(ShVarStore::Geometry);
        let instances = sg.flat_vars(ShVarStore::Instance);
        let varyings = sg.flat_vars(ShVarStore::Varying);
        let locals = sg.flat_vars(ShVarStore::Local);
        let uniforms_cx = sg.flat_vars(ShVarStore::UniformCx);
        let uniforms_vw = sg.flat_vars(ShVarStore::UniformVw);
        let uniforms_dr = sg.flat_vars(ShVarStore::Uniform);

        let consts_text = match crate::gen::emit_consts_block(sg, Backend::Metal) {
            Ok(t) => t,
            Err(e2) => {
                return Err(e2);
            },
        };

        let mut vtx_cx = SlCx {
            target: SlTarget::Vertex,
            backend: Backend::Metal,
            defargs_fn:
                "_Tex _tex, thread _Loc &_loc, thread _Vary &_vary, thread _Geom &_geom, thread _Inst &_inst, device _UniCx &_uni_cx, device _UniVw &_uni_vw, device _UniDr &_uni_dr"
                .to_string(),
            defargs_call: "_tex, _loc, _vary, _geom, _inst, _uni_cx, _uni_vw, _uni_dr".to_string(),
            call_prefix: "_".to_string(),
            scope: Vec::new(),
            fn_deps: Vec::new(),
            fn_done: Vec::new(),
            auto_vary: Vec::new(),
        };
        vtx_cx.fn_deps.push("vertex".to_string());
        let ghost venv = mtl_env(*sg, SlTarget::Vertex);
        let ghost rst0 = RState {
            done: Seq::<Seq<char>>::empty(),
            auto_vary: Seq::empty(),
            out: Seq::empty(),
        };
        let ghost nfns = crate::ir::fns_view(sg.fns@).len();
        proof {
            assert(env_of(*sg, vtx_cx) =~= venv);
            assert(deps_view(vtx_cx.fn_done@) =~= Seq::<Seq<char>>::empty());
            assert(deps_view(vtx_cx.fn_deps@) =~= seq!["vertex"@]);
            assert(rst_of(vtx_cx, Seq::empty()) =~= rst0);
            assert(rwf(crate::ir::fns_view(sg.fns@), deps_view(vtx_cx.fn_done@)));
        }
        let vtx_fns = match crate::gen::assemble_fn_and_deps(sg, &mut vtx_cx) {
            Ok(t) => t,
            Err(e2) => {
                return Err(e2);
            },
        };
        let ghost vst = sp_resolve_list(seq!["vertex"@], venv, rst0, nfns)->Ok_0;
        proof {
            crate::gen::lemma_resolve_list_props(seq!["vertex"@], venv, rst0, nfns);
        }

        let mut pix_cx = SlCx {
            target: SlTarget::Pixel,
            backend: Backend::Metal,
            defargs_fn:
                "_Tex _tex, thread _Loc &_loc, thread _Vary &_vary, device _UniCx &_uni_cx, device _UniVw &_uni_vw, device _UniDr &_uni_dr"
                .to_string(),
            defargs_call: "_tex, _loc, _vary, _uni_cx, _uni_vw, _uni_dr".to_string(),
            call_prefix: "_".to_string(),
            scope: Vec::new(),
            fn_deps: Vec::new(),
            fn_done: vtx_cx.fn_done,
            auto_vary: Vec::new(),
        };
        pix_cx.fn_deps.push("pixel".to_string());
        let ghost penv = mtl_env(*sg, SlTarget::Pixel);
        let ghost prst0 = RState { done: vst.done, auto_vary: Seq::empty(), out: Seq::empty() };
        proof {
            assert(env_of(*sg, pix_cx) =~= penv);
            assert(deps_view(pix_cx.fn_deps@) =~= seq!["pixel"@]);
            assert(rst_of(pix_cx, Seq::empty()) =~= prst0);
        }
        let pix_fns = match crate::gen::assemble_fn_and_deps(sg, &mut pix_cx) {
            Ok(t) => t,
            Err(e2) => {
                return Err(e2);
            },
        };
        let ghost pst = sp_resolve_list(
            seq!["pixel"@],
            penv,
            prst0,
            (nfns - vst.done.len()) as nat,
        )->Ok_0;

        // The varyings struct gains every auto-promoted member, in promotion
        // order, after both stages have resolved.
        let mut varyings_full = varyings;
        let ghost vary_base = varyings_full@;
        proof {
            assert(pix_cx.auto_vary@.take(0) =~= Seq::<ShVar>::empty());
            assert(varyings_full@ =~= vary_base + pix_cx.auto_vary@.take(0));
        }
        let mut i: usize = 0;
        while i < pix_cx.auto_vary.len()
            invariant
                i <= pix_cx.auto_vary@.len(),
                varyings_full@ == vary_base + pix_cx.auto_vary@.take(i as int),
            decreases pix_cx.auto_vary@.len() - i,
        {
            proof {
                assert(pix_cx.auto_vary@.take(i + 1 as int) =~= pix_cx.auto_vary@.take(
                    i as int,
                ).push(pix_cx.auto_vary@[i as int]));
            }
            varyings_full.push(pix_cx.auto_vary[i].clone());
            i = i + 1;
        }
        proof {
            assert(pix_cx.auto_vary@.take(pix_cx.auto_vary@.len() as int) =~= pix_cx.auto_vary@);
            assert(varyings_full@ == vary_base + pst.auto_vary);
        }

        let mut mtl_out = "#include <metal_stdlib>\nusing namespace metal;\n".to_string();
        let t = Self::assemble_struct("_Geom", &geometries, true, "");
        mtl_out.append(t.as_str());
        let t = Self::assemble_struct("_Inst", &instances, true, "");
        mtl_out.append(t.as_str());
        let t = Self::assemble_struct("_UniCx", &uniforms_cx, true, "");
        mtl_out.append(t.as_str());
        let t = Self::assemble_struct("_UniVw", &uniforms_vw, true, "");
        mtl_out.append(t.as_str());
        let t = Self::assemble_struct("_UniDr", &uniforms_dr, true, "");
        mtl_out.append(t.as_str());
        let t = Self::assemble_struct("_Loc", &locals, false, "");
        mtl_out.append(t.as_str());
        let t = Self::assemble_texture_slots(&texture_slots);
        mtl_out.append(t.as_str());
        mtl_out.append(consts_text.as_str());
        let t = Self::assemble_struct(
            "_Vary",
            &varyings_full,
            false,
            "  float4 mtl_position [[position]];\n",
        );
        mtl_out.append(t.as_str());
        mtl_out.append("//Vertex shader\n");
        mtl_out.append(vtx_fns.as_str());
        mtl_out.append("//Pixel shader\n");
        mtl_out.append(pix_fns.as_str());

        mtl_out.append("vertex _Vary _vertex_shader(_Tex _tex, device _Geom *in_geometries [[buffer(0)]], device _Inst *in_instances [[buffer(1)]],\n");
        mtl_out.append("  device _UniCx &_uni_cx [[buffer(2)]], device _UniVw &_uni_vw [[buffer(3)]], device _UniDr &_uni_dr [[buffer(4)]],\n");
        mtl_out.append("  uint vtx_id [[vertex_id]], uint inst_id [[instance_id]]){\n");
        mtl_out.append("  _Loc _loc;\n  _Vary _vary;\n  _Geom _geom = in_geometries[vtx_id];\n  _Inst _inst = in_instances[inst_id];\n");
        mtl_out.append("  _vary.mtl_position = _vertex(");
        mtl_out.append("_tex, _loc, _vary, _geom, _inst, _uni_cx, _uni_vw, _uni_dr");
        mtl_out.append(");\n\n");
        append_auto_copies(&mut mtl_out, &pix_cx.auto_vary);
        mtl_out.append("       return _vary;\n};\n");

        mtl_out.append("fragment float4 _fragment_shader(_Vary _vary[[stage_in]],_Tex _tex,\n");
        mtl_out.append("  device _UniCx &_uni_cx [[buffer(0)]], device _UniVw &_uni_vw [[buffer(1)]], device _UniDr &_uni_dr [[buffer(2)]]){\n");
        mtl_out.append("  _Loc _loc;\n  return _pixel(");
        mtl_out.append("_tex, _loc, _vary, _uni_cx, _uni_vw, _uni_dr");
        mtl_out.append(");\n};\n");

        let mapping = CxShaderMapping::construct(sg);
        proof {
            reveal_strlit("");
            assert(""@ =~= Seq::<char>::empty());
            assert(mtl_out@ =~= sp_mtl_shader(*sg)->Ok_0.text);
        }
        Ok((mtl_out, mapping))
    }

    /// Compiles every registered description to a Metal record. A failing
    /// description gets a placeholder record with empty source and its error
    /// is reported with its shader identifier; the rest of the set still
    /// compiles.
    #[verifier::rlimit(60)]
    pub fn mtl_compile_all_shaders(&mut self) -> (errs: Vec<(usize, ShaderCompileError)>)
        requires
            forall|i: int| 0 <= i < old(self).shaders@.len() ==> (#[trigger] old(
                self,
            ).shaders@[i]).wf(),
        ensures
            final(self).shaders@ == old(self).shaders@,
            final(self).compiled_shaders@.len() == old(self).shaders@.len(),
            forall|i: int|
                0 <= i < old(self).shaders@.len() ==> match sp_mtl_shader(old(self).shaders@[i]) {
                    Ok(o) => (#[trigger] final(self).compiled_shaders@[i]).source@ == o.text
                        && final(self).compiled_shaders@[i].shader_id == i && mapping_matches(
                        final(self).compiled_shaders@[i].mapping,
                        old(self).shaders@[i],
                    ),
                    Err(er) => crate::layout::placeholder_record(
                        #[trigger] final(self).compiled_shaders@[i],
                    ),
                },
            forall|j: int|
                0 <= j < errs@.len() ==> {
                    &&& (#[trigger] errs@[j]).0 < old(self).shaders@.len()
                    &&& sp_mtl_shader(old(self).shaders@[errs@[j].0 as int]) matches Err(er)
                        && errs@[j].1.message@ == er.message && errs@[j].1.construct@
                        == er.construct
                },
            forall|i: int|
                0 <= i < old(self).shaders@.len() && #[trigger] sp_mtl_shader(
                    old(self).shaders@[i],
                ) is Err ==> exists|j: int|
                    0 <= j < errs@.len() && (#[trigger] errs@[j]).0 == i,
    {
        let mut compiled: Vec<CompiledShader> = Vec::new();
        let mut errs: Vec<(usize, ShaderCompileError)> = Vec::new();
        let mut i: usize = 0;
        while i < self.shaders.len()
            invariant
                i <= self.shaders@.len(),
                *self == *old(self),
                compiled@.len() == i,
                forall|k: int|
                    0 <= k < i ==> match sp_mtl_shader(self.shaders@[k]) {
                        Ok(o) => (#[trigger] compiled@[k]).source@ == o.text
                            && compiled@[k].shader_id == k && mapping_matches(
                            compiled@[k].mapping,
                            self.shaders@[k],
                        ),
                        Err(er) => crate::layout::placeholder_record(#[trigger] compiled@[k]),
                    },
                forall|j: int|
                    0 <= j < errs@.len() ==> {
                        &&& (#[trigger] errs@[j]).0 < i
                        &&& sp_mtl_shader(self.shaders@[errs@[j].0 as int]) matches Err(er)
                            && errs@[j].1.message@ == er.message && errs@[j].1.construct@
                            == er.construct
                    },
                forall|k: int|
                    0 <= k < i && #[trigger] sp_mtl_shader(self.shaders@[k]) is Err ==> exists|j: int|
                        0 <= j < errs@.len() && (#[trigger] errs@[j]).0 == k,
            decreases self.shaders@.len() - i,
        {
            match Self::assemble_shader(&self.shaders[i]) {
                Ok((source, mapping)) => {
                    compiled.push(CompiledShader { shader_id: i, source, mapping });
                },
                Err(e2) => {
                    compiled.push(CompiledShader::default());
                    let ghost errs0 = errs@;
                    errs.push((i, e2));
                    proof {
                        assert(forall|j: int| 0 <= j < errs0.len() ==> errs@[j] == errs0[j]);
                        assert((errs@[errs0.len() as int]).0 == i);
                    }
                },
            }
            i = i + 1;
        }
        self.compiled_shaders = compiled;
        errs
    }
}

} // verus!
