//! The per-backend call and variable mapping tables, and the draw-list walk.

use shadergen::cx::Cx;
use shadergen::drawing::{DrawCall, DrawCallResources, DrawList, DrawListResources, DrawOp};
use shadergen::gen::{Backend, MapCallResult, Sl, SlCx, SlTarget};
use shadergen::layout::{CompiledShader, CxShaderMapping};
use shadergen::types::{ShTy, ShVar, ShVarStore};

fn cx_for(backend: Backend, target: SlTarget) -> SlCx {
    SlCx {
        target,
        backend,
        defargs_fn: String::new(),
        defargs_call: String::new(),
        call_prefix: "_".to_string(),
        scope: Vec::new(),
        fn_deps: Vec::new(),
        fn_done: Vec::new(),
        auto_vary: Vec::new(),
    }
}

fn sl(text: &str, ty: ShTy) -> Sl {
    Sl { sl: text.to_string(), ty }
}

#[test]
fn map_call_renames_per_backend() {
    let h = cx_for(Backend::Hlsl, SlTarget::Pixel);
    let m = cx_for(Backend::Metal, SlTarget::Pixel);
    let args = vec![sl("a", ShTy::Float), sl("b", ShTy::Float), sl("t", ShTy::Float)];
    match h.map_call("mix", &args) {
        MapCallResult::Rename(n) => assert_eq!(n.as_str(), "lerp"),
        _ => panic!("hlsl mix must rename"),
    }
    match m.map_call("mix", &args) {
        MapCallResult::Rename(n) => assert_eq!(n.as_str(), "mix"),
        _ => panic!("metal mix stays"),
    }
    match h.map_call("atan", &args) {
        MapCallResult::Rename(n) => assert_eq!(n.as_str(), "atan2"),
        _ => panic!("hlsl atan must rename"),
    }
    match h.map_call("dfdx", &args) {
        MapCallResult::Rename(n) => assert_eq!(n.as_str(), "ddx"),
        _ => panic!("hlsl dfdx must rename"),
    }
    match h.map_call("fract", &args) {
        MapCallResult::Rename(n) => assert_eq!(n.as_str(), "frac"),
        _ => panic!("hlsl fract must rename"),
    }
    assert!(matches!(h.map_call("frobnicate", &args), MapCallResult::Unhandled));
    assert!(matches!(m.map_call("frobnicate", &args), MapCallResult::Unhandled));
}

#[test]
fn map_call_rewrites_sampling() {
    let h = cx_for(Backend::Hlsl, SlTarget::Pixel);
    let args = vec![sl("tex", ShTy::Texture2D), sl("_vary.tc", ShTy::Vec2)];
    match h.map_call("sample2d", &args) {
        MapCallResult::Rewrite(t, ty) => {
            assert_eq!(t.as_str(), "tex.Sample(DefaultTextureSampler,_vary.tc)");
            assert!(matches!(ty, ShTy::Vec4));
        },
        _ => panic!("sample2d must rewrite"),
    }
}

#[test]
fn semantic_names_uppercase() {
    assert_eq!(shadergen::gen::to_upper("ab_C1z").as_str(), "AB_C1Z");
    assert_eq!(shadergen::gen::to_upper("zbias").as_str(), "ZBIAS");
    assert_eq!(shadergen::gen::to_upper("").as_str(), "");
}

#[test]
fn mat_mul_spelling() {
    let h = cx_for(Backend::Hlsl, SlTarget::Vertex);
    let m = cx_for(Backend::Metal, SlTarget::Vertex);
    assert_eq!(h.mat_mul("a", "b").as_str(), "mul(a,b)");
    assert_eq!(m.mat_mul("a", "b").as_str(), "(a*b)");
}

#[test]
fn map_type_spelling() {
    let h = cx_for(Backend::Hlsl, SlTarget::Vertex);
    let m = cx_for(Backend::Metal, SlTarget::Vertex);
    assert_eq!(h.map_type(ShTy::Vec2).as_str(), "float2");
    assert_eq!(m.map_type(ShTy::Texture2D).as_str(), "texture2d<float>");
}

#[test]
fn map_var_redirects_pixel_reads() {
    let mut pix = cx_for(Backend::Hlsl, SlTarget::Pixel);
    let x = ShVar { name: "x".to_string(), ty: ShTy::Float, store: ShVarStore::Instance };
    assert_eq!(pix.map_var(&x).as_str(), "_vary.x");
    assert_eq!(pix.auto_vary.len(), 1);
    assert_eq!(pix.auto_vary[0].name.as_str(), "x");
    // A second read records nothing new.
    assert_eq!(pix.map_var(&x).as_str(), "_vary.x");
    assert_eq!(pix.auto_vary.len(), 1);

    let mut vtx = cx_for(Backend::Hlsl, SlTarget::Vertex);
    assert_eq!(vtx.map_var(&x).as_str(), "_inst.x");
    assert_eq!(vtx.auto_vary.len(), 0);

    let mut mtl_vtx = cx_for(Backend::Metal, SlTarget::Vertex);
    assert_eq!(mtl_vtx.map_var(&x).as_str(), "float(_inst.x)");
    let u = ShVar { name: "alpha".to_string(), ty: ShTy::Float, store: ShVarStore::Uniform };
    assert_eq!(mtl_vtx.map_var(&u).as_str(), "float(_uni_dr.alpha)");
    let mut hlsl_vtx = cx_for(Backend::Hlsl, SlTarget::Vertex);
    assert_eq!(hlsl_vtx.map_var(&u).as_str(), "alpha");
}

fn compiled_with_slots(instance_slots: usize) -> CompiledShader {
    let mut c = CompiledShader::default();
    let mut m = CxShaderMapping::empty();
    m.instance_slots = instance_slots;
    c.mapping = m;
    c
}

#[test]
fn draw_list_walk_orders_depth_first() {
    let mut cx = Cx::new();
    cx.compiled_shaders.push(compiled_with_slots(4));
    cx.compiled_shaders.push(compiled_with_slots(2));
    let leaf = |shader_id: usize, instance_len: usize| DrawCall {
        sub_list_id: 0,
        shader_id,
        instance_len,
        instance_dirty: true,
        uniforms_dirty: false,
        resources: DrawCallResources::default(),
    };
    // List 0: draw with shader 0, defer to list 1, draw with shader 1.
    cx.draw_lists.push(DrawList {
        draw_calls: vec![
            leaf(0, 8),
            DrawCall {
                sub_list_id: 1,
                shader_id: 0,
                instance_len: 0,
                instance_dirty: false,
                uniforms_dirty: false,
                resources: DrawCallResources::default(),
            },
            leaf(1, 6),
        ],
        draw_calls_len: 3,
        resources: DrawListResources::default(),
    });
    // List 1: one draw with shader 1.
    cx.draw_lists.push(DrawList {
        draw_calls: vec![leaf(1, 4)],
        draw_calls_len: 1,
        resources: DrawListResources::default(),
    });
    let mut ops: Vec<DrawOp> = Vec::new();
    cx.exec_draw_list(0, &mut ops);
    assert_eq!(ops.len(), 3);
    assert_eq!(ops[0].shader_id, 0);
    assert_eq!(ops[0].instances, 2);
    assert_eq!(ops[0].draw_list_id, 0);
    assert!(ops[0].update_instances);
    // The deferred list's draw comes between its neighbours.
    assert_eq!(ops[1].draw_list_id, 1);
    assert_eq!(ops[1].shader_id, 1);
    assert_eq!(ops[1].instances, 2);
    assert_eq!(ops[2].draw_list_id, 0);
    assert_eq!(ops[2].draw_call_id, 2);
    assert_eq!(ops[2].instances, 3);
}

#[test]
fn draw_list_respects_recorded_length() {
    let mut cx = Cx::new();
    cx.compiled_shaders.push(compiled_with_slots(1));
    cx.draw_lists.push(DrawList {
        draw_calls: vec![
            DrawCall {
                sub_list_id: 0,
                shader_id: 0,
                instance_len: 5,
                instance_dirty: false,
                uniforms_dirty: true,
                resources: DrawCallResources::default(),
            },
            DrawCall {
                sub_list_id: 0,
                shader_id: 0,
                instance_len: 9,
                instance_dirty: false,
                uniforms_dirty: false,
                resources: DrawCallResources::default(),
            },
        ],
        draw_calls_len: 1,
        resources: DrawListResources::default(),
    });
    let mut ops: Vec<DrawOp> = Vec::new();
    cx.exec_draw_list(0, &mut ops);
    assert_eq!(ops.len(), 1);
    assert_eq!(ops[0].instances, 5);
    assert!(ops[0].update_uniforms);
}
