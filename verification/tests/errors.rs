//! Every compile-error variant, each from an input that provokes it.

use shadergen::catalog::{ShFragment, ShaderGen};
use shadergen::cx::Cx;
use shadergen::ir::{BinOp, Expr, ShConst, ShFnDef, Stmt};
use shadergen::types::{ShTy, ShVar, ShVarStore};

fn v(name: &str, ty: ShTy, store: ShVarStore) -> ShVar {
    ShVar { name: name.to_string(), ty, store }
}

fn lit(text: &str) -> Expr {
    Expr::Lit { text: text.to_string() }
}

fn var(name: &str) -> Expr {
    Expr::Var { name: name.to_string() }
}

fn call(name: &str, args: Vec<Expr>) -> Expr {
    Expr::Call { name: name.to_string(), args }
}

fn vec4_of(e: Expr) -> Expr {
    call("vec4", vec![e, lit("0.0"), lit("0.0"), lit("1.0")])
}

fn shader_with_pixel_body(vars: Vec<ShVar>, consts: Vec<ShConst>, body: Vec<Stmt>) -> ShaderGen {
    let mut sg = ShaderGen::new();
    let frag = ShFragment {
        vars,
        consts,
        fns: vec![
            ShFnDef {
                name: "vertex".to_string(),
                args: vec![],
                ret: ShTy::Vec4,
                body: vec![Stmt::Return { expr: vec4_of(lit("0.0")) }],
            },
            ShFnDef { name: "pixel".to_string(), args: vec![], ret: ShTy::Vec4, body },
        ],
    };
    sg.compose(&frag).unwrap();
    sg
}

fn pixel_err(vars: Vec<ShVar>, body: Vec<Stmt>) -> shadergen::types::ShaderCompileError {
    Cx::hlsl_assemble_shader(&shader_with_pixel_body(vars, vec![], body)).unwrap_err()
}

#[test]
fn undefined_variable() {
    let err = pixel_err(vec![], vec![Stmt::Return { expr: vec4_of(var("nope")) }]);
    assert_eq!(err.message.as_str(), "undefined variable");
    assert_eq!(err.construct.as_str(), "nope");
}

#[test]
fn undefined_function_entry() {
    let mut sg = ShaderGen::new();
    let frag = ShFragment { vars: vec![], consts: vec![], fns: vec![] };
    sg.compose(&frag).unwrap();
    let err = Cx::hlsl_assemble_shader(&sg).unwrap_err();
    assert_eq!(err.message.as_str(), "undefined function");
    assert_eq!(err.construct.as_str(), "vertex");
}

#[test]
fn undefined_helper_call() {
    let err = pixel_err(
        vec![],
        vec![Stmt::Return { expr: vec4_of(call("nosuch", vec![lit("1.0")])) }],
    );
    // An unknown call that is no catalog function falls to the built-in
    // table, which refuses it by name.
    assert_eq!(err.message.as_str(), "unmapped built-in call");
    assert_eq!(err.construct.as_str(), "nosuch");
}

#[test]
fn variable_in_constant_initializer() {
    let sg = shader_with_pixel_body(
        vec![v("x", ShTy::Float, ShVarStore::Instance)],
        vec![ShConst { name: "K".to_string(), ty: ShTy::Float, value: var("x") }],
        vec![Stmt::Return { expr: vec4_of(lit("0.0")) }],
    );
    let err = Cx::hlsl_assemble_shader(&sg).unwrap_err();
    assert_eq!(err.message.as_str(), "variable reference in constant expression");
    assert_eq!(err.construct.as_str(), "x");
}

#[test]
fn function_call_in_constant_initializer() {
    let mut sg = ShaderGen::new();
    let frag = ShFragment {
        vars: vec![],
        consts: vec![ShConst {
            name: "K".to_string(),
            ty: ShTy::Float,
            value: call("helper", vec![]),
        }],
        fns: vec![
            ShFnDef {
                name: "helper".to_string(),
                args: vec![],
                ret: ShTy::Float,
                body: vec![Stmt::Return { expr: lit("1.0") }],
            },
            ShFnDef {
                name: "vertex".to_string(),
                args: vec![],
                ret: ShTy::Vec4,
                body: vec![Stmt::Return { expr: vec4_of(lit("0.0")) }],
            },
            ShFnDef {
                name: "pixel".to_string(),
                args: vec![],
                ret: ShTy::Vec4,
                body: vec![Stmt::Return { expr: vec4_of(lit("0.0")) }],
            },
        ],
    };
    sg.compose(&frag).unwrap();
    let err = Cx::hlsl_assemble_shader(&sg).unwrap_err();
    assert_eq!(err.message.as_str(), "function call in constant expression");
    assert_eq!(err.construct.as_str(), "helper");
}

#[test]
fn duplicate_local_declaration() {
    let err = pixel_err(
        vec![],
        vec![
            Stmt::Let { name: "t".to_string(), ty: ShTy::Float, init: lit("1.0") },
            Stmt::Let { name: "t".to_string(), ty: ShTy::Float, init: lit("2.0") },
            Stmt::Return { expr: vec4_of(var("t")) },
        ],
    );
    assert_eq!(err.message.as_str(), "duplicate local declaration");
    assert_eq!(err.construct.as_str(), "t");
}

#[test]
fn declaration_type_mismatch() {
    let err = pixel_err(
        vec![],
        vec![
            Stmt::Let { name: "t".to_string(), ty: ShTy::Vec2, init: lit("1.0") },
            Stmt::Return { expr: vec4_of(lit("0.0")) },
        ],
    );
    assert_eq!(err.message.as_str(), "declaration type mismatch");
    assert_eq!(err.construct.as_str(), "t");
}

#[test]
fn assignment_type_mismatch() {
    let err = pixel_err(
        vec![v("tc", ShTy::Vec2, ShVarStore::Varying)],
        vec![
            Stmt::Assign {
                target: var("tc"),
                value: call("vec3", vec![lit("0.0"), lit("0.0"), lit("0.0")]),
            },
            Stmt::Return { expr: vec4_of(lit("0.0")) },
        ],
    );
    assert_eq!(err.message.as_str(), "assignment type mismatch");
    assert_eq!(err.construct.as_str(), "=");
}

#[test]
fn condition_must_be_boolean() {
    let err = pixel_err(
        vec![],
        vec![
            Stmt::If { cond: lit("1.0"), then_branch: vec![], else_branch: vec![] },
            Stmt::Return { expr: vec4_of(lit("0.0")) },
        ],
    );
    assert_eq!(err.message.as_str(), "condition is not boolean");
    assert_eq!(err.construct.as_str(), "if");
}

#[test]
fn operand_types_must_combine() {
    let err = pixel_err(
        vec![],
        vec![Stmt::Return {
            expr: vec4_of(Expr::Binary {
                bin_op: BinOp::Add,
                left: Box::new(call("vec2", vec![lit("0.0"), lit("0.0")])),
                right: Box::new(call("vec3", vec![lit("0.0"), lit("0.0"), lit("0.0")])),
            }),
        }],
    );
    assert_eq!(err.message.as_str(), "operand types do not match");
    assert_eq!(err.construct.as_str(), "+");
}

#[test]
fn unknown_swizzle() {
    let err = pixel_err(
        vec![v("tc", ShTy::Vec2, ShVarStore::Varying)],
        vec![Stmt::Return {
            expr: vec4_of(Expr::Field { base: Box::new(var("tc")), member: "q".to_string() }),
        }],
    );
    assert_eq!(err.message.as_str(), "unknown field or swizzle");
    assert_eq!(err.construct.as_str(), "q");
}

#[test]
fn swizzle_on_scalar_is_refused() {
    let err = pixel_err(
        vec![v("a", ShTy::Float, ShVarStore::Varying)],
        vec![Stmt::Return {
            expr: vec4_of(Expr::Field { base: Box::new(var("a")), member: "x".to_string() }),
        }],
    );
    assert_eq!(err.message.as_str(), "unknown field or swizzle");
}

#[test]
fn sample2d_needs_two_arguments() {
    let err = pixel_err(
        vec![v("tex", ShTy::Texture2D, ShVarStore::Texture)],
        vec![Stmt::Return { expr: call("sample2d", vec![var("tex")]) }],
    );
    assert_eq!(err.message.as_str(), "unmapped built-in call");
    assert_eq!(err.construct.as_str(), "sample2d");
}

#[test]
fn sample2d_uses_the_first_two_arguments() {
    let sg = shader_with_pixel_body(
        vec![
            v("tex", ShTy::Texture2D, ShVarStore::Texture),
            v("tc", ShTy::Vec2, ShVarStore::Varying),
        ],
        vec![],
        vec![Stmt::Return {
            expr: call("sample2d", vec![var("tex"), var("tc"), lit("1.0")]),
        }],
    );
    let (hlsl, _) = Cx::hlsl_assemble_shader(&sg).unwrap();
    assert!(hlsl.contains("return tex.Sample(DefaultTextureSampler,_vary.tc);"));
}

#[test]
fn malformed_color_literal_is_refused() {
    let err = pixel_err(
        vec![],
        vec![Stmt::Return { expr: call("color", vec![lit("#zz")]) }],
    );
    assert_eq!(err.message.as_str(), "unmapped built-in call");
    assert_eq!(err.construct.as_str(), "color");
}
