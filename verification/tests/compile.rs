//! End-to-end compiles of small shader descriptions on both backends.

use shadergen::catalog::{ShFragment, ShaderGen};
use shadergen::cx::Cx;
use shadergen::ir::{Expr, ShConst, ShFnArg, ShFnDef, Stmt};
use shadergen::types::{ShTy, ShVar, ShVarStore};

fn v(name: &str, ty: ShTy, store: ShVarStore) -> ShVar {
    ShVar { name: name.to_string(), ty, store }
}

fn lit(text: &str) -> Expr {
    Expr::Lit { text: text.to_string() }
}

fn var(name: &str) -> Expr {
    Expr::Var { name: name.to_string() }
}

fn call(name: &str, args: Vec<Expr>) -> Expr {
    Expr::Call { name: name.to_string(), args }
}

fn ret(e: Expr) -> Stmt {
    Stmt::Return { expr: e }
}

fn fndef(name: &str, args: Vec<ShFnArg>, ret_ty: ShTy, body: Vec<Stmt>) -> ShFnDef {
    ShFnDef { name: name.to_string(), args, ret: ret_ty, body }
}

fn vec4_of(e: Expr) -> Expr {
    call("vec4", vec![e, lit("0.0"), lit("0.0"), lit("1.0")])
}

/// The scenario description: instance members x, y, w, h, a vertex entry
/// returning a constant position, and a pixel entry reading `x`.
fn rect_shader() -> ShaderGen {
    let mut sg = ShaderGen::new();
    let frag = ShFragment {
        vars: vec![
            v("x", ShTy::Float, ShVarStore::Instance),
            v("y", ShTy::Float, ShVarStore::Instance),
            v("w", ShTy::Float, ShVarStore::Instance),
            v("h", ShTy::Float, ShVarStore::Instance),
        ],
        consts: vec![],
        fns: vec![
            fndef("vertex", vec![], ShTy::Vec4, vec![ret(vec4_of(lit("0.5")))]),
            fndef("pixel", vec![], ShTy::Vec4, vec![ret(vec4_of(var("x")))]),
        ],
    };
    sg.compose(&frag).unwrap();
    sg
}

#[test]
fn scenario_rect_instance_flatten() {
    let sg = rect_shader();
    let (_, mapping) = Cx::hlsl_assemble_shader(&sg).unwrap();
    let props = &mapping.named_instance_props.props;
    assert_eq!(props.len(), 4);
    let expected = [("x", 1, 0), ("y", 1, 1), ("w", 1, 2), ("h", 1, 3)];
    for (p, (name, slots, offset)) in props.iter().zip(expected.iter()) {
        assert_eq!(p.name.as_str(), *name);
        assert_eq!(p.slots, *slots);
        assert_eq!(p.offset, *offset);
    }
    assert_eq!(mapping.instance_slots, 4);
    assert_eq!(mapping.geometry_slots, 0);
}

#[test]
fn scenario_rect_auto_vary_copy() {
    let sg = rect_shader();
    let (hlsl, _) = Cx::hlsl_assemble_shader(&sg).unwrap();
    let (mtl, _) = Cx::assemble_shader(&sg).unwrap();
    // The pixel stage reads `x`, so both vertex wrappers copy it into the
    // varying struct exactly once.
    assert_eq!(hlsl.matches("_vary.x = _inst.x;").count(), 1);
    assert_eq!(mtl.matches("_vary.x = _inst.x;").count(), 1);
    // The varying struct gained the member; semantic suffixes uppercase the
    // member name.
    assert!(hlsl.contains("float x: VARY_X;"));
    assert!(hlsl.contains("float x: INST_X;"));
    assert!(hlsl.contains("float h: INST_H;"));
    // The pixel read goes through the varying, never the instance struct.
    assert!(hlsl.contains("return float4(_vary.x,0.0,0.0,1.0);"));
}

#[test]
fn scenario_rect_props() {
    let sg = rect_shader();
    let (_, mapping) = Cx::hlsl_assemble_shader(&sg).unwrap();
    assert_eq!(mapping.rect_instance_props.x, Some(0));
    assert_eq!(mapping.rect_instance_props.y, Some(1));
    assert_eq!(mapping.rect_instance_props.w, Some(2));
    assert_eq!(mapping.rect_instance_props.h, Some(3));
}

#[test]
fn backends_agree_on_layout() {
    let sg = rect_shader();
    let (_, mh) = Cx::hlsl_assemble_shader(&sg).unwrap();
    let (_, mm) = Cx::assemble_shader(&sg).unwrap();
    assert_eq!(mh.instance_slots, mm.instance_slots);
    assert_eq!(mh.geometry_slots, mm.geometry_slots);
    assert_eq!(mh.instances.len(), mm.instances.len());
    for (a, b) in mh
        .named_instance_props
        .props
        .iter()
        .zip(mm.named_instance_props.props.iter())
    {
        assert_eq!(a.name, b.name);
        assert_eq!(a.slots, b.slots);
        assert_eq!(a.offset, b.offset);
    }
}

#[test]
fn round_trip_is_byte_identical() {
    let sg1 = rect_shader();
    let sg2 = rect_shader();
    let (h1, _) = Cx::hlsl_assemble_shader(&sg1).unwrap();
    let (h2, _) = Cx::hlsl_assemble_shader(&sg2).unwrap();
    assert_eq!(h1, h2);
    let (m1, _) = Cx::assemble_shader(&sg1).unwrap();
    let (m2, _) = Cx::assemble_shader(&sg2).unwrap();
    assert_eq!(m1, m2);
}

#[test]
fn shared_helper_emitted_once_before_callers() {
    let mut sg = ShaderGen::new();
    let helper = fndef(
        "lum",
        vec![ShFnArg { name: "c".to_string(), ty: ShTy::Float }],
        ShTy::Float,
        vec![ret(Expr::Binary {
            bin_op: shadergen::ir::BinOp::Mul,
            left: Box::new(var("c")),
            right: Box::new(lit("0.5")),
        })],
    );
    let frag = ShFragment {
        vars: vec![v("x", ShTy::Float, ShVarStore::Instance)],
        consts: vec![],
        fns: vec![
            helper,
            fndef(
                "vertex",
                vec![],
                ShTy::Vec4,
                vec![ret(vec4_of(call("lum", vec![lit("1.0")])))],
            ),
            fndef(
                "pixel",
                vec![],
                ShTy::Vec4,
                vec![ret(vec4_of(call("lum", vec![var("x")])))],
            ),
        ],
    };
    sg.compose(&frag).unwrap();
    let (hlsl, _) = Cx::hlsl_assemble_shader(&sg).unwrap();
    // Emitted exactly once, before both call sites' definitions.
    assert_eq!(hlsl.matches("float _lum(").count(), 1);
    let at_helper = hlsl.find("float _lum(").unwrap();
    let at_vertex = hlsl.find("float4 _vertex(").unwrap();
    let at_pixel = hlsl.find("float4 _pixel(").unwrap();
    assert!(at_helper < at_vertex);
    assert!(at_helper < at_pixel);
    // Both stages call it.
    assert!(hlsl.matches("_lum(").count() >= 3);
}

#[test]
fn unmapped_builtin_is_a_hard_error() {
    let mut sg = ShaderGen::new();
    let frag = ShFragment {
        vars: vec![],
        consts: vec![],
        fns: vec![
            fndef("vertex", vec![], ShTy::Vec4, vec![ret(vec4_of(lit("0.0")))]),
            fndef(
                "pixel",
                vec![],
                ShTy::Vec4,
                vec![ret(vec4_of(call("frobnicate", vec![lit("1.0")])))],
            ),
        ],
    };
    sg.compose(&frag).unwrap();
    let err = Cx::hlsl_assemble_shader(&sg).unwrap_err();
    assert_eq!(err.construct.as_str(), "frobnicate");
    assert_eq!(err.message.as_str(), "unmapped built-in call");
    let err = Cx::assemble_shader(&sg).unwrap_err();
    assert_eq!(err.construct.as_str(), "frobnicate");
}

#[test]
fn color_literal_rewrites_exactly() {
    let mut sg = ShaderGen::new();
    let frag = ShFragment {
        vars: vec![],
        consts: vec![],
        fns: vec![
            fndef("vertex", vec![], ShTy::Vec4, vec![ret(vec4_of(lit("0.0")))]),
            fndef(
                "pixel",
                vec![],
                ShTy::Vec4,
                vec![ret(call("color", vec![lit("#f00")]))],
            ),
        ],
    };
    sg.compose(&frag).unwrap();
    let (hlsl, _) = Cx::hlsl_assemble_shader(&sg).unwrap();
    assert!(hlsl.contains("float4(255.0/255.0,0.0/255.0,0.0/255.0,1.0)"));
    let mut sg2 = ShaderGen::new();
    let frag2 = ShFragment {
        vars: vec![],
        consts: vec![],
        fns: vec![
            fndef("vertex", vec![], ShTy::Vec4, vec![ret(vec4_of(lit("0.0")))]),
            fndef(
                "pixel",
                vec![],
                ShTy::Vec4,
                vec![ret(call("color", vec![lit("#102030")]))],
            ),
        ],
    };
    sg2.compose(&frag2).unwrap();
    let (hlsl2, _) = Cx::hlsl_assemble_shader(&sg2).unwrap();
    assert!(hlsl2.contains("float4(16.0/255.0,32.0/255.0,48.0/255.0,1.0)"));
}

#[test]
fn constants_become_defines() {
    let mut sg = ShaderGen::new();
    let frag = ShFragment {
        vars: vec![],
        consts: vec![ShConst {
            name: "TAU".to_string(),
            ty: ShTy::Float,
            value: lit("6.28318"),
        }],
        fns: vec![
            fndef("vertex", vec![], ShTy::Vec4, vec![ret(vec4_of(var("TAU")))]),
            fndef("pixel", vec![], ShTy::Vec4, vec![ret(vec4_of(lit("0.0")))]),
        ],
    };
    sg.compose(&frag).unwrap();
    let (hlsl, _) = Cx::hlsl_assemble_shader(&sg).unwrap();
    assert!(hlsl.contains("#define TAU (6.28318)"));
    // The use site keeps the macro name.
    assert!(hlsl.contains("return float4(TAU,0.0,0.0,1.0);"));
}

#[test]
fn compile_all_substitutes_placeholder_on_failure() {
    let mut cx = Cx::new();
    cx.add_shader(rect_shader());
    // A second, broken description: the pixel entry is missing.
    let mut broken = ShaderGen::new();
    let frag = ShFragment {
        vars: vec![],
        consts: vec![],
        fns: vec![fndef("vertex", vec![], ShTy::Vec4, vec![ret(vec4_of(lit("0.0")))])],
    };
    broken.compose(&frag).unwrap();
    cx.add_shader(broken);
    let errs = cx.hlsl_compile_all_shaders();
    assert_eq!(cx.compiled_shaders.len(), 2);
    assert!(!cx.compiled_shaders[0].source.is_empty());
    assert_eq!(cx.compiled_shaders[0].shader_id, 0);
    assert!(cx.compiled_shaders[1].source.is_empty());
    assert_eq!(errs.len(), 1);
    assert_eq!(errs[0].0, 1);
    assert_eq!(errs[0].1.construct.as_str(), "pixel");
    assert_eq!(errs[0].1.message.as_str(), "undefined function");
}

#[test]
fn metal_compile_all_matches_hlsl_layout() {
    let mut cx = Cx::new();
    cx.add_shader(rect_shader());
    let errs = cx.mtl_compile_all_shaders();
    assert!(errs.is_empty());
    assert_eq!(cx.compiled_shaders.len(), 1);
    let mm = &cx.compiled_shaders[0].mapping;
    assert_eq!(mm.instance_slots, 4);
    assert!(cx.compiled_shaders[0].source.contains("#include <metal_stdlib>"));
    assert!(cx.compiled_shaders[0]
        .source
        .contains("struct _Inst{\n  float x;\n  float y;\n  float w;\n  float h;\n};"));
}

#[test]
fn texture_slots_are_positional() {
    let mut sg = ShaderGen::new();
    let frag = ShFragment {
        vars: vec![
            v("atlas", ShTy::Texture2D, ShVarStore::Texture),
            v("mask", ShTy::Texture2D, ShVarStore::Texture),
            v("uv", ShTy::Vec2, ShVarStore::Varying),
        ],
        consts: vec![],
        fns: vec![
            fndef("vertex", vec![], ShTy::Vec4, vec![ret(vec4_of(lit("0.0")))]),
            fndef(
                "pixel",
                vec![],
                ShTy::Vec4,
                vec![ret(call("sample2d", vec![var("mask"), var("uv")]))],
            ),
        ],
    };
    sg.compose(&frag).unwrap();
    let (hlsl, mapping) = Cx::hlsl_assemble_shader(&sg).unwrap();
    assert!(hlsl.contains("Texture2D atlas: register(t0);"));
    assert!(hlsl.contains("Texture2D mask: register(t1);"));
    assert!(hlsl.contains("mask.Sample(DefaultTextureSampler,_vary.uv)"));
    assert_eq!(mapping.texture_slots.len(), 2);
    let (mtl, _) = Cx::assemble_shader(&sg).unwrap();
    assert!(mtl.contains("texture2d<float> atlas [[texture(0)]];"));
    assert!(mtl.contains("texture2d<float> mask [[texture(1)]];"));
    assert!(mtl.contains("_tex.mask.sample(sampler(mag_filter::linear,min_filter::linear),_vary.uv)"));
}

#[test]
fn matrix_multiply_is_remapped_per_backend() {
    let mut sg = ShaderGen::new();
    let frag = ShFragment {
        vars: vec![v("camera_projection", ShTy::Mat4, ShVarStore::UniformVw)],
        consts: vec![],
        fns: vec![
            fndef(
                "vertex",
                vec![],
                ShTy::Vec4,
                vec![ret(Expr::Binary {
                    bin_op: shadergen::ir::BinOp::Mul,
                    left: Box::new(var("camera_projection")),
                    right: Box::new(vec4_of(lit("0.0"))),
                })],
            ),
            fndef("pixel", vec![], ShTy::Vec4, vec![ret(vec4_of(lit("0.0")))]),
        ],
    };
    sg.compose(&frag).unwrap();
    let (hlsl, _) = Cx::hlsl_assemble_shader(&sg).unwrap();
    assert!(hlsl.contains("return mul(camera_projection,float4(0.0,0.0,0.0,1.0));"));
    let (mtl, _) = Cx::assemble_shader(&sg).unwrap();
    assert!(mtl.contains(
        "return (float4x4(_uni_vw.camera_projection)*float4(0.0,0.0,0.0,1.0));"
    ));
}
