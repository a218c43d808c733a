//! Fragment composition, flattening and the layout tables.

use shadergen::catalog::{ShFragment, ShaderGen};
use shadergen::cx::Cx;
use shadergen::ir::{Expr, ShFnDef, Stmt};
use shadergen::layout::{NamedProps, RectInstanceProps};
use shadergen::types::{ShTy, ShVar, ShVarStore, slot_count};

fn v(name: &str, ty: ShTy, store: ShVarStore) -> ShVar {
    ShVar { name: name.to_string(), ty, store }
}

fn lit(text: &str) -> Expr {
    Expr::Lit { text: text.to_string() }
}

fn entry(name: &str) -> ShFnDef {
    ShFnDef {
        name: name.to_string(),
        args: vec![],
        ret: ShTy::Vec4,
        body: vec![Stmt::Return {
            expr: Expr::Call {
                name: "vec4".to_string(),
                args: vec![lit("0.0"), lit("0.0"), lit("0.0"), lit("1.0")],
            },
        }],
    }
}

#[test]
fn slot_widths() {
    assert_eq!(slot_count(ShTy::Float), 1);
    assert_eq!(slot_count(ShTy::Vec2), 2);
    assert_eq!(slot_count(ShTy::Vec3), 3);
    assert_eq!(slot_count(ShTy::Vec4), 4);
    assert_eq!(slot_count(ShTy::Mat2), 4);
    assert_eq!(slot_count(ShTy::Mat3), 9);
    assert_eq!(slot_count(ShTy::Mat4), 16);
    assert_eq!(slot_count(ShTy::Texture2D), 0);
}

#[test]
fn flatten_keeps_declaration_order_and_offsets() {
    let mut sg = ShaderGen::new();
    let frag = ShFragment {
        vars: vec![
            v("pos", ShTy::Vec2, ShVarStore::Geometry),
            v("norm", ShTy::Vec3, ShVarStore::Geometry),
            v("zbias", ShTy::Float, ShVarStore::Uniform),
        ],
        consts: vec![],
        fns: vec![],
    };
    sg.compose(&frag).unwrap();
    let geoms = sg.flat_vars(ShVarStore::Geometry);
    assert_eq!(geoms.len(), 2);
    assert_eq!(geoms[0].name.as_str(), "pos");
    assert_eq!(geoms[1].name.as_str(), "norm");
    assert_eq!(sg.compute_slot_total(&geoms), 5);
    let props = NamedProps::construct(&geoms);
    assert_eq!(props.total_slots, 5);
    assert_eq!(props.props[0].offset, 0);
    assert_eq!(props.props[1].offset, 2);
    assert_eq!(props.props[1].slots, 3);
}

#[test]
fn matching_redeclaration_is_deduplicated() {
    // Scenario: two fragments both declare `uniform float zbias` with the
    // same type; composition succeeds and the table maps it to one offset.
    let mut sg = ShaderGen::new();
    let base = ShFragment {
        vars: vec![
            v("alpha", ShTy::Float, ShVarStore::Uniform),
            v("zbias", ShTy::Float, ShVarStore::Uniform),
        ],
        consts: vec![],
        fns: vec![entry("vertex"), entry("pixel")],
    };
    let caller = ShFragment {
        vars: vec![v("zbias", ShTy::Float, ShVarStore::Uniform)],
        consts: vec![],
        fns: vec![],
    };
    sg.compose(&base).unwrap();
    sg.compose(&caller).unwrap();
    let uniforms = sg.flat_vars(ShVarStore::Uniform);
    assert_eq!(uniforms.len(), 2);
    let (_, mapping) = Cx::hlsl_assemble_shader(&sg).unwrap();
    assert_eq!(mapping.zbias_uniform_prop, Some(1));
    assert_eq!(mapping.named_uniform_props.props.len(), 2);
}

#[test]
fn conflicting_redeclaration_fails_at_assembly() {
    let mut sg = ShaderGen::new();
    let a = ShFragment {
        vars: vec![v("x", ShTy::Float, ShVarStore::Instance)],
        consts: vec![],
        fns: vec![],
    };
    let b = ShFragment {
        vars: vec![v("x", ShTy::Vec2, ShVarStore::Instance)],
        consts: vec![],
        fns: vec![],
    };
    sg.compose(&a).unwrap();
    let err = sg.compose(&b).unwrap_err();
    assert_eq!(err.construct.as_str(), "x");
    assert_eq!(err.message.as_str(), "incompatible redeclaration across fragments");
    // The catalog is left as it was.
    assert_eq!(sg.vars.len(), 1);
    assert!(matches!(sg.vars[0].ty, ShTy::Float));
}

#[test]
fn store_conflict_also_fails() {
    let mut sg = ShaderGen::new();
    let a = ShFragment {
        vars: vec![v("x", ShTy::Float, ShVarStore::Instance)],
        consts: vec![],
        fns: vec![],
    };
    let b = ShFragment {
        vars: vec![v("x", ShTy::Float, ShVarStore::Geometry)],
        consts: vec![],
        fns: vec![],
    };
    sg.compose(&a).unwrap();
    assert!(sg.compose(&b).is_err());
}

#[test]
fn duplicate_constant_fails() {
    let mut sg = ShaderGen::new();
    let a = ShFragment {
        vars: vec![],
        consts: vec![shadergen::ir::ShConst {
            name: "K".to_string(),
            ty: ShTy::Float,
            value: lit("1.0"),
        }],
        fns: vec![],
    };
    let b = ShFragment {
        vars: vec![],
        consts: vec![shadergen::ir::ShConst {
            name: "K".to_string(),
            ty: ShTy::Float,
            value: lit("2.0"),
        }],
        fns: vec![],
    };
    sg.compose(&a).unwrap();
    let err = sg.compose(&b).unwrap_err();
    assert_eq!(err.construct.as_str(), "K");
    assert_eq!(err.message.as_str(), "duplicate constant definition");
}

#[test]
fn duplicate_function_fails() {
    let mut sg = ShaderGen::new();
    let a = ShFragment { vars: vec![], consts: vec![], fns: vec![entry("vertex")] };
    let b = ShFragment { vars: vec![], consts: vec![], fns: vec![entry("vertex")] };
    sg.compose(&a).unwrap();
    let err = sg.compose(&b).unwrap_err();
    assert_eq!(err.construct.as_str(), "vertex");
    assert_eq!(err.message.as_str(), "duplicate function definition");
}

#[test]
fn rect_props_absent_without_the_convention() {
    let instances = vec![v("size", ShTy::Vec2, ShVarStore::Instance)];
    let props = RectInstanceProps::construct(&instances);
    assert_eq!(props.x, None);
    assert_eq!(props.y, None);
    assert_eq!(props.w, None);
    assert_eq!(props.h, None);
}

#[test]
fn zbias_absent_without_the_uniform() {
    let uniforms = vec![v("alpha", ShTy::Float, ShVarStore::Uniform)];
    let props = NamedProps::construct(&uniforms);
    assert_eq!(props.find_zbias_uniform_prop(), None);
}

#[test]
fn rect_offsets_follow_widths() {
    let instances = vec![
        v("color", ShTy::Vec4, ShVarStore::Instance),
        v("x", ShTy::Float, ShVarStore::Instance),
        v("y", ShTy::Float, ShVarStore::Instance),
        v("w", ShTy::Float, ShVarStore::Instance),
        v("h", ShTy::Float, ShVarStore::Instance),
    ];
    let props = RectInstanceProps::construct(&instances);
    assert_eq!(props.x, Some(4));
    assert_eq!(props.y, Some(5));
    assert_eq!(props.w, Some(6));
    assert_eq!(props.h, Some(7));
}

#[test]
fn type_names_per_backend() {
    assert_eq!(Cx::hlsl_type(ShTy::Vec4).as_str(), "float4");
    assert_eq!(Cx::hlsl_type(ShTy::Mat3).as_str(), "float3x3");
    assert_eq!(Cx::hlsl_type(ShTy::Texture2D).as_str(), "Texture2D");
    assert_eq!(Cx::type_to_metal(ShTy::Vec3).as_str(), "float3");
    assert_eq!(Cx::type_to_metal(ShTy::Texture2D).as_str(), "texture2d<float>");
    assert_eq!(Cx::type_to_packed_metal(ShTy::Vec3).as_str(), "packed_float3");
    assert_eq!(Cx::type_to_packed_metal(ShTy::Mat4).as_str(), "float4x4");
}
