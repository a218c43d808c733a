//! Stage generation details: lexical scoping across branches, boolean
//! conditions, and the shared base fragment.

use shadergen::catalog::{base_fragment, ShFragment, ShaderGen};
use shadergen::cx::Cx;
use shadergen::ir::{BinOp, Expr, ShFnDef, Stmt};
use shadergen::types::{ShTy, ShVar, ShVarStore};

fn v(name: &str, ty: ShTy, store: ShVarStore) -> ShVar {
    ShVar { name: name.to_string(), ty, store }
}

fn lit(text: &str) -> Expr {
    Expr::Lit { text: text.to_string() }
}

fn var(name: &str) -> Expr {
    Expr::Var { name: name.to_string() }
}

fn call(name: &str, args: Vec<Expr>) -> Expr {
    Expr::Call { name: name.to_string(), args }
}

fn bin(op: BinOp, l: Expr, r: Expr) -> Expr {
    Expr::Binary { bin_op: op, left: Box::new(l), right: Box::new(r) }
}

fn vec4_of(e: Expr) -> Expr {
    call("vec4", vec![e, lit("0.0"), lit("0.0"), lit("1.0")])
}

fn shader(vars: Vec<ShVar>, pixel_body: Vec<Stmt>) -> ShaderGen {
    let mut sg = ShaderGen::new();
    let frag = ShFragment {
        vars,
        consts: vec![],
        fns: vec![
            ShFnDef {
                name: "vertex".to_string(),
                args: vec![],
                ret: ShTy::Vec4,
                body: vec![Stmt::Return { expr: vec4_of(lit("0.0")) }],
            },
            ShFnDef { name: "pixel".to_string(), args: vec![], ret: ShTy::Vec4, body: pixel_body },
        ],
    };
    sg.compose(&frag).unwrap();
    sg
}

#[test]
fn branch_scope_is_restored() {
    // A local declared inside a branch goes out of scope with the branch, so
    // the same name can be declared again afterwards.
    let cond = bin(BinOp::Lt, lit("1.0"), lit("2.0"));
    let sg = shader(
        vec![],
        vec![
            Stmt::If {
                cond,
                then_branch: vec![Stmt::Let {
                    name: "t".to_string(),
                    ty: ShTy::Float,
                    init: lit("1.0"),
                }],
                else_branch: vec![Stmt::Let {
                    name: "t".to_string(),
                    ty: ShTy::Float,
                    init: lit("2.0"),
                }],
            },
            Stmt::Let { name: "t".to_string(), ty: ShTy::Float, init: lit("3.0") },
            Stmt::Return { expr: vec4_of(var("t")) },
        ],
    );
    let (hlsl, _) = Cx::hlsl_assemble_shader(&sg).unwrap();
    assert!(hlsl.contains("if((1.0<2.0)){"));
    assert!(hlsl.contains("float t = 1.0;"));
    assert!(hlsl.contains("float t = 2.0;"));
    assert!(hlsl.contains("float t = 3.0;"));
}

#[test]
fn comparison_yields_boolean_condition() {
    let sg = shader(
        vec![v("x", ShTy::Float, ShVarStore::Instance)],
        vec![
            Stmt::If {
                cond: bin(BinOp::Ge, var("x"), lit("0.5")),
                then_branch: vec![Stmt::Return { expr: vec4_of(lit("1.0")) }],
                else_branch: vec![],
            },
            Stmt::Return { expr: vec4_of(lit("0.0")) },
        ],
    );
    let (hlsl, _) = Cx::hlsl_assemble_shader(&sg).unwrap();
    assert!(hlsl.contains("if((_vary.x>=0.5)){"));
    assert!(hlsl.contains("_vary.x = _inst.x;"));
}

#[test]
fn base_fragment_supplies_view_uniforms() {
    let mut sg = ShaderGen::new();
    sg.compose(&base_fragment()).unwrap();
    let frag = ShFragment {
        vars: vec![v("geom", ShTy::Vec2, ShVarStore::Geometry)],
        consts: vec![],
        fns: vec![
            ShFnDef {
                name: "vertex".to_string(),
                args: vec![],
                ret: ShTy::Vec4,
                body: vec![Stmt::Return {
                    expr: bin(BinOp::Mul, var("camera_projection"), vec4_of(lit("0.0"))),
                }],
            },
            ShFnDef {
                name: "pixel".to_string(),
                args: vec![],
                ret: ShTy::Vec4,
                body: vec![Stmt::Return { expr: vec4_of(lit("0.0")) }],
            },
        ],
    };
    sg.compose(&frag).unwrap();
    let (hlsl, mapping) = Cx::hlsl_assemble_shader(&sg).unwrap();
    // The view-tier cbuffer holds the three shared uniforms at register b1.
    assert!(hlsl.contains("cbuffer _Uni_Vw: register(b1){"));
    assert!(hlsl.contains("float4x4 camera_projection;"));
    assert!(hlsl.contains("float2 view_scroll;"));
    assert!(hlsl.contains("float4 view_clip;"));
    assert_eq!(mapping.uniforms_vw.len(), 3);
    assert_eq!(mapping.geometry_slots, 2);
}

#[test]
fn promotions_copy_in_read_order() {
    // The pixel stage reads `b` before `a`: the varying struct and the
    // wrapper copies follow that promotion order, once each.
    let sg = shader(
        vec![
            v("a", ShTy::Float, ShVarStore::Instance),
            v("b", ShTy::Float, ShVarStore::Geometry),
        ],
        vec![Stmt::Return {
            expr: vec4_of(bin(BinOp::Add, var("b"), bin(BinOp::Add, var("a"), var("b")))),
        }],
    );
    let (hlsl, _) = Cx::hlsl_assemble_shader(&sg).unwrap();
    assert_eq!(hlsl.matches("_vary.b = _geom.b;").count(), 1);
    assert_eq!(hlsl.matches("_vary.a = _inst.a;").count(), 1);
    let at_b = hlsl.find("_vary.b = _geom.b;").unwrap();
    let at_a = hlsl.find("_vary.a = _inst.a;").unwrap();
    assert!(at_b < at_a);
    let (mtl, _) = Cx::assemble_shader(&sg).unwrap();
    assert_eq!(mtl.matches("_vary.b = _geom.b;").count(), 1);
    assert_eq!(mtl.matches("_vary.a = _inst.a;").count(), 1);
}
