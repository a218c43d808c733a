//! The Direct3D HLSL backend: struct and cbuffer blocks with semantic names
//! and fixed register tiers, texture slot declarations, the constants block,
//! the resolved function bodies of both stages, and the two stage wrappers.
//! Every byte of the output is pinned by `sp_hlsl_shader`.

use vstd::prelude::*;
use vstd::string::StringExecFns;
use crate::types::{ShTy, ShVar, ShVarStore, ShaderCompileError};
use crate::catalog::{ShaderGen, filter_store};
use crate::cx::Cx;
use crate::gen::{
    Backend, EmitErr, GenEnv, RState, SlCx, SlTarget, auto_copy_lines, append_auto_copies,
    const_env, dec_text, deps_view, env_of, hlsl_type_str, hlsl_type_text, rst_of, rwf,
    sp_consts_text, sp_resolve_list, usize_to_string,
};
use crate::layout::{CompiledShader, CxShaderMapping, mapping_matches};

verus! {

/// One line of an HLSL struct or cbuffer block; a nonempty semantic prefix
/// appends `: PREFIXNAME` for the vertex-attribute names, the member name
/// uppercased.
pub open spec fn hlsl_struct_line(v: ShVar, semantic: Seq<char>) -> Seq<char> {
    "  "@ + hlsl_type_text(v.ty) + " "@ + v.name@ + (if semantic.len() > 0 {
        ": "@ + semantic + crate::gen::upper_text(v.name@)
    } else {
        Seq::<char>::empty()
    }) + ";\n"@
}

pub open spec fn hlsl_struct_lines(vars: Seq<ShVar>, semantic: Seq<char>) -> Seq<char>
    decreases vars.len(),
{
    if vars.len() == 0 {
        Seq::<char>::empty()
    } else {
        hlsl_struct_lines(vars.drop_last(), semantic) + hlsl_struct_line(vars.last(), semantic)
    }
}

/// One HLSL struct or cbuffer block.
pub open spec fn hlsl_struct_text(
    lead: Seq<char>,
    name: Seq<char>,
    vars: Seq<ShVar>,
    semantic: Seq<char>,
    field: Seq<char>,
    post: Seq<char>,
) -> Seq<char> {
    lead + " "@ + name + post + "{\n"@ + field + hlsl_struct_lines(vars, semantic) + "};\n\n"@
}

/// The zero initializer of one member in an HLSL struct initializer list.
pub open spec fn hlsl_init_item(v: ShVar) -> Seq<char> {
    (match v.ty {
        ShTy::Float => "0.0"@,
        ShTy::Vec2 => "float2(0.0,0.0)"@,
        ShTy::Vec3 => "float3(0.0,0.0,0.0)"@,
        ShTy::Vec4 => "float4(0.0,0.0,0.0,0.0)"@,
        _ => Seq::<char>::empty(),
    }) + ","@
}

pub open spec fn hlsl_init_items(vars: Seq<ShVar>) -> Seq<char>
    decreases vars.len(),
{
    if vars.len() == 0 {
        Seq::<char>::empty()
    } else {
        hlsl_init_items(vars.drop_last()) + hlsl_init_item(vars.last())
    }
}

/// An HLSL struct zero-initializer list.
pub open spec fn hlsl_init_text(vars: Seq<ShVar>, field: Seq<char>) -> Seq<char> {
    "{\n"@ + field + hlsl_init_items(vars) + "}"@
}

/// One texture slot declaration, bound to its register by position.
pub open spec fn hlsl_texture_line(v: ShVar, i: int) -> Seq<char> {
    "Texture2D "@ + v.name@ + ": register(t"@ + dec_text(i) + ");\n"@
}

pub open spec fn hlsl_texture_lines(textures: Seq<ShVar>) -> Seq<char>
    decreases textures.len(),
{
    if textures.len() == 0 {
        Seq::<char>::empty()
    } else {
        hlsl_texture_lines(textures.drop_last()) + hlsl_texture_line(
            textures.last(),
            textures.len() - 1,
        )
    }
}

/// The per-stage environment of the HLSL backend: which struct references
/// every generated function is given.
pub open spec fn hlsl_env(sg: ShaderGen, tgt: SlTarget) -> GenEnv {
    GenEnv {
        vars: sg.vars@,
        consts: crate::ir::consts_view(sg.consts@),
        fns: crate::ir::fns_view(sg.fns@),
        backend: Backend::Hlsl,
        target: tgt,
        prefix: "_"@,
        defargs_fn: if tgt == SlTarget::Vertex {
            "inout _Loc _loc, inout _Vary _vary, in _Geom _geom, in _Inst _inst"@
        } else {
            "inout _Loc _loc, inout _Vary _vary"@
        },
        defargs_call: if tgt == SlTarget::Vertex {
            "_loc, _vary, _geom, _inst"@
        } else {
            "_loc, _vary"@
        },
    }
}

/// The HLSL vertex-stage wrapper: zero-initialize the locals and varyings,
/// call the generated vertex entry, copy every auto-promoted varying out of
/// its source struct, and return the varyings.
pub open spec fn hlsl_vertex_wrapper(
    locals: Seq<ShVar>,
    varyings_full: Seq<ShVar>,
    autos: Seq<ShVar>,
) -> Seq<char> {
    "_Vary _vertex_shader(_Geom _geom, _Inst _inst, uint inst_id: SV_InstanceID){\n"@ + "  _Loc _loc = "@
        + hlsl_init_text(locals, Seq::empty()) + ";\n"@ + "  _Vary _vary = "@ + hlsl_init_text(
        varyings_full,
        "float4(0.0,0.0,0.0,0.0),"@,
    ) + ";\n"@ + "  _vary.hlsl_position = _vertex("@ + hlsl_env_defargs_call_vertex() + ");\n\n"@
        + auto_copy_lines(autos) + "       return _vary;\n};\n"@
}

pub open spec fn hlsl_env_defargs_call_vertex() -> Seq<char> {
    "_loc, _vary, _geom, _inst"@
}

/// The HLSL pixel-stage wrapper.
pub open spec fn hlsl_pixel_wrapper(locals: Seq<ShVar>) -> Seq<char> {
    "float4 _pixel_shader(_Vary _vary) : SV_TARGET{\n"@ + "  _Loc _loc = "@ + hlsl_init_text(
        locals,
        Seq::empty(),
    ) + ";\n"@ + "  return _pixel("@ + "_loc, _vary"@ + ");\n};\n"@
}

/// Ghost result of assembling one backend's source: the full text and the
/// auto-promoted varyings collected from the pixel stage.
#[verifier::ext_equal]
pub ghost struct AssembledOut {
    pub text: Seq<char>,
    pub autos: Seq<ShVar>,
}

/// What the HLSL backend emits for one description: the sampler header, the
/// texture slots, the vertex-stream structs, the three uniform tiers at
/// fixed registers, the locals struct, the constants, the varyings struct
/// extended with the pixel stage's promotions, both stages' function bodies
/// resolved callee-before-caller with shared deduplication, and the two
/// stage wrappers.
pub open spec fn sp_hlsl_shader(sg: ShaderGen) -> Result<AssembledOut, EmitErr> {
    let texture_slots = filter_store(sg.vars@, ShVarStore::Texture);
    let geometries = filter_store(sg.vars@, ShVarStore::Geometry);
    let instances = filter_store(sg.vars@, ShVarStore::Instance);
    let varyings = filter_store(sg.vars@, ShVarStore::Varying);
    let locals = filter_store(sg.vars@, ShVarStore::Local);
    let uniforms_cx = filter_store(sg.vars@, ShVarStore::UniformCx);
    let uniforms_vw = filter_store(sg.vars@, ShVarStore::UniformVw);
    let uniforms_dr = filter_store(sg.vars@, ShVarStore::Uniform);
    match sp_consts_text(crate::ir::consts_view(sg.consts@), const_env(sg, Backend::Hlsl)) {
        Err(e) => Err(e),
        Ok(consts_text) => {
            let fuel = crate::ir::fns_view(sg.fns@).len();
            match sp_resolve_list(
                seq!["vertex"@],
                hlsl_env(sg, SlTarget::Vertex),
                RState { done: Seq::empty(), auto_vary: Seq::empty(), out: Seq::empty() },
                fuel,
            ) {
                Err(e) => Err(e),
                Ok(vst) => match sp_resolve_list(
                    seq!["pixel"@],
                    hlsl_env(sg, SlTarget::Pixel),
                    RState { done: vst.done, auto_vary: Seq::empty(), out: Seq::empty() },
                    (fuel - vst.done.len()) as nat,
                ) {
                    Err(e) => Err(e),
                    Ok(pst) => {
                        let varyings_full = varyings + pst.auto_vary;
                        Ok(
                            AssembledOut {
                                text:
                                    "SamplerState DefaultTextureSampler{Filter = MIN_MAG_MIP_LINEAR;AddressU = Wrap;AddressV=Wrap;};\n"@
                                    + hlsl_texture_lines(texture_slots) + hlsl_struct_text(
                                    "struct"@,
                                    "_Geom"@,
                                    geometries,
                                    "GEOM_"@,
                                    Seq::empty(),
                                    Seq::empty(),
                                ) + hlsl_struct_text(
                                    "struct"@,
                                    "_Inst"@,
                                    instances,
                                    "INST_"@,
                                    Seq::empty(),
                                    Seq::empty(),
                                ) + hlsl_struct_text(
                                    "cbuffer"@,
                                    "_Uni_Cx"@,
                                    uniforms_cx,
                                    Seq::empty(),
                                    Seq::empty(),
                                    ": register(b0)"@,
                                ) + hlsl_struct_text(
                                    "cbuffer"@,
                                    "_Uni_Vw"@,
                                    uniforms_vw,
                                    Seq::empty(),
                                    Seq::empty(),
                                    ": register(b1)"@,
                                ) + hlsl_struct_text(
                                    "cbuffer"@,
                                    "_Uni_Dr"@,
                                    uniforms_dr,
                                    Seq::empty(),
                                    Seq::empty(),
                                    ": register(b2)"@,
                                ) + hlsl_struct_text(
                                    "struct"@,
                                    "_Loc"@,
                                    locals,
                                    Seq::empty(),
                                    Seq::empty(),
                                    Seq::empty(),
                                ) + consts_text + hlsl_struct_text(
                                    "struct"@,
                                    "_Vary"@,
                                    varyings_full,
                                    "VARY_"@,
                                    "  float4 hlsl_position : SV_POSITION;\n"@,
                                    Seq::empty(),
                                ) + "//Vertex shader\n"@ + vst.out + "//Pixel shader\n"@ + pst.out
                                    + hlsl_vertex_wrapper(locals, varyings_full, pst.auto_vary)
                                    + hlsl_pixel_wrapper(locals),
                                autos: pst.auto_vary,
                            },
                        )
                    },
                },
            }
        },
    }
}

impl Cx {
    /// The HLSL spelling of an abstract type.
    pub fn hlsl_type(ty: ShTy) -> (r: String)
        ensures
            r@ == hlsl_type_text(ty),
    {
        hlsl_type_str(ty).to_string()
    }

    /// One HLSL struct or cbuffer block.
    #[verifier::rlimit(100)]
    pub fn hlsl_assemble_struct(
        lead: &str,
        name: &str,
        vars: &Vec<ShVar>,
        semantic: &str,
        field: &str,
        post: &str,
    ) -> (r: String)
        ensures
            r@ == hlsl_struct_text(lead@, name@, vars@, semantic@, field@, post@),
    {
        let mut out = String::new();
        out.append(lead);
        out.append(" ");
        out.append(name);
        out.append(post);
        out.append("{\n");
        out.append(field);
        let semantic_len = semantic.unicode_len();
        proof {
            assert(vars@.take(0) =~= Seq::<ShVar>::empty());
        }
        let mut i: usize = 0;
        while i < vars.len()
            invariant
                i <= vars@.len(),
                semantic_len == semantic@.len(),
                out@ == lead@ + " "@ + name@ + post@ + "{\n"@ + field@ + hlsl_struct_lines(
                    vars@.take(i as int),
                    semantic@,
                ),
            decreases vars@.len() - i,
        {
            proof {
                assert(vars@.take(i + 1 as int).drop_last() =~= vars@.take(i as int));
                assert(vars@.take(i + 1 as int).last() == vars@[i as int]);
            }
            let v = &vars[i];
            out.append("  ");
            out.append(hlsl_type_str(v.ty));
            out.append(" ");
            out.append(v.name.as_str());
            if semantic_len > 0 {
                out.append(": ");
                out.append(semantic);
                let un = crate::gen::to_upper(v.name.as_str());
                out.append(un.as_str());
            } else {
                proof {
                    assert((if semantic@.len() > 0 {
                        ": "@ + semantic@ + crate::gen::upper_text(vars@[i as int].name@)
                    } else {
                        Seq::<char>::empty()
                    }) =~= Seq::<char>::empty());
                }
            }
            out.append(";\n");
            i = i + 1;
        }
        proof {
            assert(vars@.take(vars@.len() as int) =~= vars@);
        }
        out.append("};\n\n");
        out
    }

    /// An HLSL struct zero-initializer list.
    pub fn hlsl_init_struct(vars: &Vec<ShVar>, field: &str) -> (r: String)
        ensures
            r@ == hlsl_init_text(vars@, field@),
    {
        let mut out = String::new();
        out.append("{\n");
        out.append(field);
        proof {
            assert(vars@.take(0) =~= Seq::<ShVar>::empty());
        }
        let mut i: usize = 0;
        while i < vars.len()
            invariant
                i <= vars@.len(),
                out@ == "{\n"@ + field@ + hlsl_init_items(vars@.take(i as int)),
            decreases vars@.len() - i,
        {
            proof {
                assert(vars@.take(i + 1 as int).drop_last() =~= vars@.take(i as int));
                assert(vars@.take(i + 1 as int).last() == vars@[i as int]);
            }
            match vars[i].ty {
                ShTy::Float => out.append("0.0"),
                ShTy::Vec2 => out.append("float2(0.0,0.0)"),
                ShTy::Vec3 => out.append("float3(0.0,0.0,0.0)"),
                ShTy::Vec4 => out.append("float4(0.0,0.0,0.0,0.0)"),
                _ => {
                    proof {
                        assert((match vars@[i as int].ty {
                            ShTy::Float => "0.0"@,
                            ShTy::Vec2 => "float2(0.0,0.0)"@,
                            ShTy::Vec3 => "float3(0.0,0.0,0.0)"@,
                            ShTy::Vec4 => "float4(0.0,0.0,0.0,0.0)"@,
                            _ => Seq::<char>::empty(),
                        }) =~= Seq::<char>::empty());
                    }
                },
            }
            out.append(",");
            i = i + 1;
        }
        proof {
            assert(vars@.take(vars@.len() as int) =~= vars@);
        }
        out.append("}");
        out
    }

    /// The texture slot declarations, one register per texture in order.
    pub fn hlsl_assemble_texture_slots(textures: &Vec<ShVar>) -> (r: String)
        ensures
            r@ == hlsl_texture_lines(textures@),
    {
        let mut out = String::new();
        proof {
            assert(textures@.take(0) =~= Seq::<ShVar>::empty());
        }
        let mut i: usize = 0;
        while i < textures.len()
            invariant
                i <= textures@.len(),
                out@ == hlsl_texture_lines(textures@.take(i as int)),
            decreases textures@.len() - i,
        {
            proof {
                assert(textures@.take(i + 1 as int).drop_last() =~= textures@.take(i as int));
                assert(textures@.take(i + 1 as int).last() == textures@[i as int]);
            }
            out.append("Texture2D ");
            out.append(textures[i].name.as_str());
            out.append(": register(t");
            let num = usize_to_string(i);
            out.append(num.as_str());
            out.append(");\n");
            i = i + 1;
        }
        proof {
            assert(textures@.take(textures@.len() as int) =~= textures@);
        }
        out
    }

    /// Assembles the whole HLSL source of one description, together with the
    /// layout mapping host code packs buffers by.
    #[verifier::rlimit(100)]
    pub fn hlsl_assemble_shader(sg: &ShaderGen) -> (r: Result<
        (String, CxShaderMapping),
        ShaderCompileError,
    >)
        requires
            sg.wf(),
        ensures
            match sp_hlsl_shader(*sg) {
                Ok(o) => r matches Ok(p) && p.0@ == o.text && mapping_matches(p.1, *sg),
                Err(er) => r matches Err(e2) && e2.message@ == er.message && e2.construct@
                    == er.construct,
            },
    {
        let texture_slots = sg.flat_vars(ShVarStore::Texture);
        let geometries = sg.flat_vars(ShVarStore::Geometry);
        let instances = sg.flat_vars(ShVarStore::Instance);
        let varyings = sg.flat_vars(ShVarStore::Varying);
        let locals = sg.flat_vars(ShVarStore::Local);
        let uniforms_cx = sg.flat_vars(ShVarStore::UniformCx);
        let uniforms_vw = sg.flat_vars(ShVarStore::UniformVw);
        let uniforms_dr = sg.flat_vars(ShVarStore::Uniform);

        let consts_text = match crate::gen::emit_consts_block(sg, Backend::Hlsl) {
            Ok(t) => t,
            Err(e2) => {
                return Err(e2);
            },
        };

        let mut vtx_cx = SlCx {
            target: SlTarget::Vertex,
            backend: Backend::Hlsl,
            defargs_fn: "inout _Loc _loc, inout _Vary _vary, in _Geom _geom, in _Inst _inst"
                .to_string(),
            defargs_call: "_loc, _vary, _geom, _inst".to_string(),
            call_prefix: "_".to_string(),
            scope: Vec::new(),
            fn_deps: Vec::new(),
            fn_done: Vec::new(),
            auto_vary: Vec::new(),
        };
        vtx_cx.fn_deps.push("vertex".to_string());
        let ghost venv = hlsl_env(*sg, SlTarget::Vertex);
        let ghost rst0 = RState {
            done: Seq::<Seq<char>>::empty(),
            auto_vary: Seq::empty(),
            out: Seq::empty(),
        };
        let ghost nfns = crate::ir::fns_view(sg.fns@).len();
        proof {
            assert(env_of(*sg, vtx_cx) =~= venv);
            assert(deps_view(vtx_cx.fn_done@) =~= Seq::<Seq<char>>::empty());
            assert(deps_view(vtx_cx.fn_deps@) =~= seq!["vertex"@]);
            assert(rst_of(vtx_cx, Seq::empty()) =~= rst0);
            assert(rwf(crate::ir::fns_view(sg.fns@), deps_view(vtx_cx.fn_done@)));
        }
        let vtx_fns = match crate::gen::assemble_fn_and_deps(sg, &mut vtx_cx) {
            Ok(t) => t,
            Err(e2) => {
                return Err(e2);
            },
        };
        let ghost vst = sp_resolve_list(seq!["vertex"@], venv, rst0, nfns)->Ok_0;
        proof {
            crate::gen::lemma_resolve_list_props(seq!["vertex"@], venv, rst0, nfns);
        }

        let mut pix_cx = SlCx {
            target: SlTarget::Pixel,
            backend: Backend::Hlsl,
            defargs_fn: "inout _Loc _loc, inout _Vary _vary".to_string(),
            defargs_call: "_loc, _vary".to_string(),
            call_prefix: "_".to_string(),
            scope: Vec::new(),
            fn_deps: Vec::new(),
            fn_done: vtx_cx.fn_done,
            auto_vary: Vec::new(),
        };
        pix_cx.fn_deps.push("pixel".to_string());
        let ghost penv = hlsl_env(*sg, SlTarget::Pixel);
        let ghost prst0 = RState { done: vst.done, auto_vary: Seq::empty(), out: Seq::empty() };
        proof {
            assert(env_of(*sg, pix_cx) =~= penv);
            assert(deps_view(pix_cx.fn_deps@) =~= seq!["pixel"@]);
            assert(rst_of(pix_cx, Seq::empty()) =~= prst0);
        }
        let pix_fns = match crate::gen::assemble_fn_and_deps(sg, &mut pix_cx) {
            Ok(t) => t,
            Err(e2) => {
                return Err(e2);
            },
        };
        let ghost pst = sp_resolve_list(
            seq!["pixel"@],
            penv,
            prst0,
            (nfns - vst.done.len()) as nat,
        )->Ok_0;

        // The varyings struct gains every auto-promoted member, in promotion
        // order, after both stages have resolved.
        let mut varyings_full = varyings;
        let ghost vary_base = varyings_full@;
        proof {
            assert(pix_cx.auto_vary@.take(0) =~= Seq::<ShVar>::empty());
            assert(varyings_full@ =~= vary_base + pix_cx.auto_vary@.take(0));
        }
        let mut i: usize = 0;
        while i < pix_cx.auto_vary.len()
            invariant
                i <= pix_cx.auto_vary@.len(),
                varyings_full@ == vary_base + pix_cx.auto_vary@.take(i as int),
            decreases pix_cx.auto_vary@.len() - i,
        {
            proof {
                assert(pix_cx.auto_vary@.take(i + 1 as int) =~= pix_cx.auto_vary@.take(
                    i as int,
                ).push(pix_cx.auto_vary@[i as int]));
            }
            varyings_full.push(pix_cx.auto_vary[i].clone());
            i = i + 1;
        }
        proof {
            assert(pix_cx.auto_vary@.take(pix_cx.auto_vary@.len() as int) =~= pix_cx.auto_vary@);
            assert(varyings_full@ == vary_base + pst.auto_vary);
        }

        let mut hlsl_out =
            "SamplerState DefaultTextureSampler{Filter = MIN_MAG_MIP_LINEAR;AddressU = Wrap;AddressV=Wrap;};\n".to_string();
        let t = Self::hlsl_assemble_texture_slots(&texture_slots);
        hlsl_out.append(t.as_str());
        let t = Self::hlsl_assemble_struct("struct", "_Geom", &geometries, "GEOM_", "", "");
        hlsl_out.append(t.as_str());
        let t = Self::hlsl_assemble_struct("struct", "_Inst", &instances, "INST_", "", "");
        hlsl_out.append(t.as_str());
        let t = Self::hlsl_assemble_struct(
            "cbuffer",
            "_Uni_Cx",
            &uniforms_cx,
            "",
            "",
            ": register(b0)",
        );
        hlsl_out.append(t.as_str());
        let t = Self::hlsl_assemble_struct(
            "cbuffer",
            "_Uni_Vw",
            &uniforms_vw,
            "",
            "",
            ": register(b1)",
        );
        hlsl_out.append(t.as_str());
        let t = Self::hlsl_assemble_struct(
            "cbuffer",
            "_Uni_Dr",
            &uniforms_dr,
            "",
            "",
            ": register(b2)",
        );
        hlsl_out.append(t.as_str());
        let t = Self::hlsl_assemble_struct("struct", "_Loc", &locals, "", "", "");
        hlsl_out.append(t.as_str());
        hlsl_out.append(consts_text.as_str());
        let t = Self::hlsl_assemble_struct(
            "struct",
            "_Vary",
            &varyings_full,
            "VARY_",
            "  float4 hlsl_position : SV_POSITION;\n",
            "",
        );
        hlsl_out.append(t.as_str());
        hlsl_out.append("//Vertex shader\n");
        hlsl_out.append(vtx_fns.as_str());
        hlsl_out.append("//Pixel shader\n");
        hlsl_out.append(pix_fns.as_str());

        // Both stage wrappers are assembled on their own, so each matches its
        // wrapper text as one piece.
        let mut vtx_wrap =
            "_Vary _vertex_shader(_Geom _geom, _Inst _inst, uint inst_id: SV_InstanceID){\n".to_string();
        vtx_wrap.append("  _Loc _loc = ");
        let t = Self::hlsl_init_struct(&locals, "");
        vtx_wrap.append(t.as_str());
        vtx_wrap.append(";\n");
        vtx_wrap.append("  _Vary _vary = ");
        let t = Self::hlsl_init_struct(&varyings_full, "float4(0.0,0.0,0.0,0.0),");
        vtx_wrap.append(t.as_str());
        vtx_wrap.append(";\n");
        vtx_wrap.append("  _vary.hlsl_position = _vertex(");
        vtx_wrap.append("_loc, _vary, _geom, _inst");
        vtx_wrap.append(");\n\n");
        append_auto_copies(&mut vtx_wrap, &pix_cx.auto_vary);
        vtx_wrap.append("       return _vary;\n};\n");
        proof {
            reveal_strlit("");
            assert(vtx_wrap@ =~= hlsl_vertex_wrapper(
                filter_store(sg.vars@, ShVarStore::Local),
                varyings_full@,
                pst.auto_vary,
            )) by {
                assert(""@ =~= Seq::<char>::empty());
            }
        }
        hlsl_out.append(vtx_wrap.as_str());

        let mut pix_wrap = "float4 _pixel_shader(_Vary _vary) : SV_TARGET{\n".to_string();
        pix_wrap.append("  _Loc _loc = ");
        let t = Self::hlsl_init_struct(&locals, "");
        pix_wrap.append(t.as_str());
        pix_wrap.append(";\n");
        pix_wrap.append("  return _pixel(");
        pix_wrap.append("_loc, _vary");
        pix_wrap.append(");\n};\n");
        proof {
            reveal_strlit("");
            assert(pix_wrap@ =~= hlsl_pixel_wrapper(filter_store(sg.vars@, ShVarStore::Local)))
                by {
                assert(""@ =~= Seq::<char>::empty());
            }
        }
        hlsl_out.append(pix_wrap.as_str());

        let mapping = CxShaderMapping::construct(sg);
        proof {
            assert(hlsl_out@ =~= sp_hlsl_shader(*sg)->Ok_0.text);
        }
        Ok((hlsl_out, mapping))
    }

    /// Compiles every registered description to an HLSL record. A failing
    /// description gets a placeholder record with empty source and its error
    /// is reported with its shader identifier; the rest of the set still
    /// compiles.
    #[verifier::rlimit(60)]
    pub fn hlsl_compile_all_shaders(&mut self) -> (errs: Vec<(usize, ShaderCompileError)>)
        requires
            forall|i: int| 0 <= i < old(self).shaders@.len() ==> (#[trigger] old(
                self,
            ).shaders@[i]).wf(),
        ensures
            final(self).shaders@ == old(self).shaders@,
            final(self).compiled_shaders@.len() == old(self).shaders@.len(),
            forall|i: int|
                0 <= i < old(self).shaders@.len() ==> match sp_hlsl_shader(
                    old(self).shaders@[i],
                ) {
                    Ok(o) => (#[trigger] final(self).compiled_shaders@[i]).source@ == o.text
                        && final(self).compiled_shaders@[i].shader_id == i && mapping_matches(
                        final(self).compiled_shaders@[i].mapping,
                        old(self).shaders@[i],
                    ),
                    Err(er) => crate::layout::placeholder_record(
                        #[trigger] final(self).compiled_shaders@[i],
                    ),
                },
            forall|j: int|
                0 <= j < errs@.len() ==> {
                    &&& (#[trigger] errs@[j]).0 < old(self).shaders@.len()
                    &&& sp_hlsl_shader(old(self).shaders@[errs@[j].0 as int]) matches Err(er)
                        && errs@[j].1.message@ == er.message && errs@[j].1.construct@
                        == er.construct
                },
            forall|i: int|
                0 <= i < old(self).shaders@.len() && #[trigger] sp_hlsl_shader(
                    old(self).shaders@[i],
                ) is Err ==> exists|j: int|
                    0 <= j < errs@.len() && (#[trigger] errs@[j]).0 == i,
    {
        let mut compiled: Vec<CompiledShader> = Vec::new();
        let mut errs: Vec<(usize, ShaderCompileError)> = Vec::new();
        let mut i: usize = 0;
        while i < self.shaders.len()
            invariant
                i <= self.shaders@.len(),
                *self == *old(self),
                compiled@.len() == i,
                forall|k: int|
                    0 <= k < i ==> match sp_hlsl_shader(self.shaders@[k]) {
                        Ok(o) => (#[trigger] compiled@[k]).source@ == o.text
                            && compiled@[k].shader_id == k && mapping_matches(
                            compiled@[k].mapping,
                            self.shaders@[k],
                        ),
                        Err(er) => crate::layout::placeholder_record(#[trigger] compiled@[k]),
                    },
                forall|j: int|
                    0 <= j < errs@.len() ==> {
                        &&& (#[trigger] errs@[j]).0 < i
                        &&& sp_hlsl_shader(self.shaders@[errs@[j].0 as int]) matches Err(er)
                            && errs@[j].1.message@ == er.message && errs@[j].1.construct@
                            == er.construct
                    },
                forall|k: int|
                    0 <= k < i && #[trigger] sp_hlsl_shader(self.shaders@[k]) is Err ==> exists|j: int|
                        0 <= j < errs@.len() && (#[trigger] errs@[j]).0 == k,
            decreases self.shaders@.len() - i,
        {
            match Self::hlsl_assemble_shader(&self.shaders[i]) {
                Ok((source, mapping)) => {
                    compiled.push(CompiledShader { shader_id: i, source, mapping });
                },
                Err(e2) => {
                    compiled.push(CompiledShader::default());
                    let ghost errs0 = errs@;
                    errs.push((i, e2));
                    proof {
                        assert(forall|j: int| 0 <= j < errs0.len() ==> errs@[j] == errs0[j]);
                        assert((errs@[errs0.len() as int]).0 == i);
                    }
                },
            }
            i = i + 1;
        }
        self.compiled_shaders = compiled;
        errs
    }
}

} // verus!
