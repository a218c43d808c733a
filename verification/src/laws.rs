//! The cross-cutting guarantees of the compiler, stated once and proved from
//! the backends' own contracts.

use vstd::prelude::*;
use crate::catalog::{ShaderGen, distinct_var_names, filter_store, has_fn_v, var_named};
use crate::gen::{
    GenEnv, GenState, RState, SlV, auto_copy_line, auto_copy_lines, autos_wf, color_lit_consts,
    color_lit_fns, env_agree, lemma_consts_text_agree, lemma_resolve_list_agree,
    lemma_resolve_list_autos, lemma_resolve_list_props, map_call_spec, rwf, sp_call,
    sp_consts_text, sp_resolve_list,
};
use crate::hlsl::{hlsl_struct_line, hlsl_struct_lines};
use crate::types::ShVar;
use crate::hlsl::sp_hlsl_shader;
use crate::ir::{consts_view, fns_view};
use crate::layout::{CxShaderMapping, mapping_matches};
use crate::mtl::sp_mtl_shader;
use crate::types::ShVarStore;

verus! {

/// For one description compiled to two backends, the flattened Geometry and
/// Instance member order and per-member slot widths are identical across
/// backends: both mappings are the same declaration-ordered flattening of
/// the one catalog, member for member, offset for offset.
pub proof fn lemma_backend_layout_agree(sg: ShaderGen, a: CxShaderMapping, b: CxShaderMapping)
    requires
        mapping_matches(a, sg),
        mapping_matches(b, sg),
    ensures
        a.geometries@ == b.geometries@,
        a.instances@ == b.instances@,
        a.geometry_slots == b.geometry_slots,
        a.instance_slots == b.instance_slots,
        a.named_instance_props.props@.len() == b.named_instance_props.props@.len(),
        forall|i: int|
            0 <= i < a.named_instance_props.props@.len() ==> {
                &&& (#[trigger] a.named_instance_props.props@[i]).name@
                    == b.named_instance_props.props@[i].name@
                &&& a.named_instance_props.props@[i].slots == b.named_instance_props.props@[i].slots
                &&& a.named_instance_props.props@[i].offset
                    == b.named_instance_props.props@[i].offset
            },
{
}

/// Auto-varying promotion is exhaustive and non-duplicating. After a
/// successful compile, each promoted variable has a distinct name, is a
/// Geometry- or Instance-class variable of the catalog exactly as declared
/// there, and the generated varying struct (the declared varyings followed
/// by the promotions) repeats no name, so each promoted member appears in it
/// exactly once, with exactly one vertex-wrapper copy assignment generated
/// per member. Together with `lemma_pixel_read_promotes` and the
/// prefix-extension lemmas, a Geometry or Instance variable read anywhere in
/// the pixel-reachable call graph is in this list.
pub proof fn lemma_auto_vary_exhaustive(sg: ShaderGen, env: GenEnv, done0: Seq<Seq<char>>)
    requires
        sg.wf(),
        env.vars == sg.vars@,
        env.fns == fns_view(sg.fns@),
        rwf(env.fns, done0),
        sp_resolve_list(
            seq!["pixel"@],
            env,
            RState { done: done0, auto_vary: Seq::empty(), out: Seq::empty() },
            (fns_view(sg.fns@).len() - done0.len()) as nat,
        ) is Ok,
    ensures
        ({
            let autos = sp_resolve_list(
                seq!["pixel"@],
                env,
                RState { done: done0, auto_vary: Seq::empty(), out: Seq::empty() },
                (fns_view(sg.fns@).len() - done0.len()) as nat,
            )->Ok_0.auto_vary;
            &&& autos_wf(autos, sg.vars@)
            &&& distinct_var_names(filter_store(sg.vars@, ShVarStore::Varying) + autos)
        }),
{
    let st0 = RState { done: done0, auto_vary: Seq::empty(), out: Seq::empty() };
    let fuel = (fns_view(sg.fns@).len() - done0.len()) as nat;
    assert(autos_wf(Seq::empty(), sg.vars@));
    lemma_resolve_list_autos(seq!["pixel"@], env, st0, fuel);
    let autos = sp_resolve_list(seq!["pixel"@], env, st0, fuel)->Ok_0.auto_vary;
    let varyings = filter_store(sg.vars@, ShVarStore::Varying);
    crate::catalog::lemma_filter_store(sg.vars@, ShVarStore::Varying);
    crate::catalog::lemma_filter_store_distinct(sg.vars@, ShVarStore::Varying);
    let both = varyings + autos;
    assert forall|i: int, j: int| 0 <= i < j < both.len() implies both[i].name@
        != both[j].name@ by {
        if i < varyings.len() && j >= varyings.len() {
            let v = both[i];
            let a = both[j];
            assert(a == autos[j - varyings.len()]);
            assert(v == varyings[i]);
            if v.name@ == a.name@ {
                let k = choose|k: int| 0 <= k < sg.vars@.len() && sg.vars@[k] == v;
                assert(crate::catalog::has_var(sg.vars@, a.name@));
                assert(var_named(sg.vars@, a.name@) == a);
                let m = choose|m: int|
                    0 <= m < sg.vars@.len() && sg.vars@[m].name@ == a.name@ && sg.vars@[m] == a;
                assert(sg.vars@[k].name@ == sg.vars@[m].name@);
                assert(k == m);
                assert(v == a);
                assert(v.store == ShVarStore::Varying);
                assert(a.store != ShVarStore::Varying);
            }
        } else if i >= varyings.len() {
            assert(both[i] == autos[i - varyings.len()]);
            assert(both[j] == autos[j - varyings.len()]);
        } else {
            assert(both[i] == varyings[i]);
            assert(both[j] == varyings[j]);
        }
    }
}

/// Call-graph resolution deduplicates: across both stages of one compile,
/// the emitted set is duplicate-free, so a helper called from both the
/// vertex and the pixel function is emitted exactly once. Ordering by
/// dependency is the definition of `sp_resolve_fn` itself: a function's text
/// is appended only after the resolution of everything it calls.
pub proof fn lemma_resolve_dedup(env: GenEnv, st: RState, deps: Seq<Seq<char>>, fuel: nat)
    requires
        crate::catalog::distinct_fn_names(env.fns),
        rwf(env.fns, st.done),
        fuel >= env.fns.len() - st.done.len(),
        sp_resolve_list(deps, env, st, fuel) is Ok,
    ensures
        sp_resolve_list(deps, env, st, fuel)->Ok_0.done.no_duplicates(),
{
    lemma_resolve_list_props(deps, env, st, fuel);
}

/// Round-trip stability: two descriptions whose catalogs agree (same
/// variables, same constants, same functions) compile to byte-identical
/// source and layout tables, on either backend. In particular, compiling an
/// unchanged description twice yields byte-identical output.
pub proof fn lemma_round_trip(sg1: ShaderGen, sg2: ShaderGen)
    requires
        sg1.vars@ == sg2.vars@,
        consts_view(sg1.consts@) == consts_view(sg2.consts@),
        fns_view(sg1.fns@) == fns_view(sg2.fns@),
    ensures
        sp_hlsl_shader(sg1) == sp_hlsl_shader(sg2),
        sp_mtl_shader(sg1) == sp_mtl_shader(sg2),
{
    assert(crate::gen::const_env(sg1, crate::gen::Backend::Hlsl) =~= crate::gen::const_env(
        sg2,
        crate::gen::Backend::Hlsl,
    ));
    assert(crate::gen::const_env(sg1, crate::gen::Backend::Metal) =~= crate::gen::const_env(
        sg2,
        crate::gen::Backend::Metal,
    ));
    assert(crate::hlsl::hlsl_env(sg1, crate::gen::SlTarget::Vertex) =~= crate::hlsl::hlsl_env(
        sg2,
        crate::gen::SlTarget::Vertex,
    ));
    assert(crate::hlsl::hlsl_env(sg1, crate::gen::SlTarget::Pixel) =~= crate::hlsl::hlsl_env(
        sg2,
        crate::gen::SlTarget::Pixel,
    ));
    assert(crate::mtl::mtl_env(sg1, crate::gen::SlTarget::Vertex) =~= crate::mtl::mtl_env(
        sg2,
        crate::gen::SlTarget::Vertex,
    ));
    assert(crate::mtl::mtl_env(sg1, crate::gen::SlTarget::Pixel) =~= crate::mtl::mtl_env(
        sg2,
        crate::gen::SlTarget::Pixel,
    ));
}

/// An unmapped built-in call is a hard compile error naming that call. The
/// emission model returns no text for it, so no partial or pass-through
/// output can reach the caller: assembly of the whole shader fails instead.
pub proof fn lemma_unmapped_builtin(name: Seq<char>, args: Seq<SlV>, env: GenEnv, st: GenState)
    requires
        !has_fn_v(env.fns, name),
        map_call_spec(env.backend, name, args) is Unhandled,
    ensures
        sp_call(name, args, env, st) matches Err(e) && e.construct == name && e.message
            == "unmapped built-in call"@,
{
}

/// The promotion guarantee, specialized to a whole HLSL compile: the
/// promoted varyings of a successful compile are distinct Geometry or
/// Instance catalog variables, and extending the varying struct with them
/// repeats no member.
pub proof fn lemma_hlsl_auto_vary_exhaustive(sg: ShaderGen)
    requires
        sg.wf(),
        sp_hlsl_shader(sg) is Ok,
    ensures
        autos_wf(sp_hlsl_shader(sg)->Ok_0.autos, sg.vars@),
        distinct_var_names(
            filter_store(sg.vars@, ShVarStore::Varying) + sp_hlsl_shader(sg)->Ok_0.autos,
        ),
{
    let venv = crate::hlsl::hlsl_env(sg, crate::gen::SlTarget::Vertex);
    let rst0 = RState { done: Seq::empty(), auto_vary: Seq::empty(), out: Seq::empty() };
    let nfns = fns_view(sg.fns@).len();
    lemma_resolve_list_props(seq!["vertex"@], venv, rst0, nfns);
    let vst = sp_resolve_list(seq!["vertex"@], venv, rst0, nfns)->Ok_0;
    lemma_auto_vary_exhaustive(sg, crate::hlsl::hlsl_env(sg, crate::gen::SlTarget::Pixel), vst.done);
}

/// The promotion guarantee, specialized to a whole Metal compile.
pub proof fn lemma_mtl_auto_vary_exhaustive(sg: ShaderGen)
    requires
        sg.wf(),
        sp_mtl_shader(sg) is Ok,
    ensures
        autos_wf(sp_mtl_shader(sg)->Ok_0.autos, sg.vars@),
        distinct_var_names(
            filter_store(sg.vars@, ShVarStore::Varying) + sp_mtl_shader(sg)->Ok_0.autos,
        ),
{
    let venv = crate::mtl::mtl_env(sg, crate::gen::SlTarget::Vertex);
    let rst0 = RState { done: Seq::empty(), auto_vary: Seq::empty(), out: Seq::empty() };
    let nfns = fns_view(sg.fns@).len();
    lemma_resolve_list_props(seq!["vertex"@], venv, rst0, nfns);
    let vst = sp_resolve_list(seq!["vertex"@], venv, rst0, nfns)->Ok_0;
    lemma_auto_vary_exhaustive(sg, crate::mtl::mtl_env(sg, crate::gen::SlTarget::Pixel), vst.done);
}

/// Auto-varying promotion happens identically for every backend: it is a
/// shader-model semantic, not a backend detail. Under the color-literal
/// discipline (every `color` call takes one literal argument — the one
/// built-in whose mapping reads emitted text), compiling one description for
/// HLSL and for Metal either fails with the same error on both, or succeeds
/// on both with the same promoted varyings, member for member, in the same
/// order.
pub proof fn lemma_promotion_backend_identical(sg: ShaderGen)
    requires
        sg.wf(),
        color_lit_fns(fns_view(sg.fns@)),
        color_lit_consts(consts_view(sg.consts@)),
    ensures
        match (sp_hlsl_shader(sg), sp_mtl_shader(sg)) {
            (Ok(a), Ok(b)) => a.autos == b.autos,
            (Err(x), Err(y)) => x == y,
            _ => false,
        },
{
    let hconst = crate::gen::const_env(sg, crate::gen::Backend::Hlsl);
    let mconst = crate::gen::const_env(sg, crate::gen::Backend::Metal);
    lemma_consts_text_agree(consts_view(sg.consts@), hconst, mconst);
    if sp_consts_text(consts_view(sg.consts@), hconst) is Ok {
        let hv = crate::hlsl::hlsl_env(sg, crate::gen::SlTarget::Vertex);
        let mv = crate::mtl::mtl_env(sg, crate::gen::SlTarget::Vertex);
        let rst0 = RState { done: Seq::empty(), auto_vary: Seq::empty(), out: Seq::empty() };
        let nfns = fns_view(sg.fns@).len();
        lemma_resolve_list_agree(seq!["vertex"@], hv, mv, rst0, rst0, nfns);
        if sp_resolve_list(seq!["vertex"@], hv, rst0, nfns) is Ok {
            let hvst = sp_resolve_list(seq!["vertex"@], hv, rst0, nfns)->Ok_0;
            let mvst = sp_resolve_list(seq!["vertex"@], mv, rst0, nfns)->Ok_0;
            let hp = crate::hlsl::hlsl_env(sg, crate::gen::SlTarget::Pixel);
            let mp = crate::mtl::mtl_env(sg, crate::gen::SlTarget::Pixel);
            lemma_resolve_list_agree(
                seq!["pixel"@],
                hp,
                mp,
                RState { done: hvst.done, auto_vary: Seq::empty(), out: Seq::empty() },
                RState { done: mvst.done, auto_vary: Seq::empty(), out: Seq::empty() },
                (nfns - hvst.done.len()) as nat,
            );
        }
    }
}

/// Each promoted variable contributes exactly one vertex-wrapper copy
/// assignment, at its own position in promotion order: the copy block both
/// backends embed between the vertex call and the return splits, around any
/// member, into the lines before it, its one line, and the lines after it.
pub proof fn lemma_one_copy_per_promotion(autos: Seq<ShVar>, k: int)
    requires
        0 <= k < autos.len(),
    ensures
        auto_copy_lines(autos) == auto_copy_lines(autos.take(k)) + auto_copy_line(autos[k])
            + auto_copy_lines(autos.skip(k + 1)),
    decreases autos.len(),
{
    if k == autos.len() - 1 {
        assert(autos.drop_last() =~= autos.take(k));
        assert(autos.skip(k + 1) =~= Seq::<ShVar>::empty());
        assert(auto_copy_lines(autos.take(k)) + auto_copy_line(autos[k]) + Seq::<char>::empty()
            =~= auto_copy_lines(autos.take(k)) + auto_copy_line(autos[k]));
    } else {
        lemma_one_copy_per_promotion(autos.drop_last(), k);
        assert(autos.drop_last().take(k) =~= autos.take(k));
        assert(autos.drop_last()[k] == autos[k]);
        assert(autos.drop_last().skip(k + 1) =~= autos.skip(k + 1).drop_last());
        assert(autos.skip(k + 1).last() == autos.last());
        assert(auto_copy_lines(autos.take(k)) + auto_copy_line(autos[k]) + auto_copy_lines(
            autos.skip(k + 1),
        ) =~= auto_copy_lines(autos.take(k)) + auto_copy_line(autos[k]) + auto_copy_lines(
            autos.drop_last().skip(k + 1),
        ) + auto_copy_line(autos.last()));
    }
}

/// Each member of an HLSL struct block contributes exactly one line, at its
/// own position: the block's member lines split, around any member, into the
/// lines before it, its one line, and the lines after it. Applied to the
/// varying struct, each promoted member appears in it exactly once.
pub proof fn lemma_one_line_per_member(vars: Seq<ShVar>, semantic: Seq<char>, k: int)
    requires
        0 <= k < vars.len(),
    ensures
        hlsl_struct_lines(vars, semantic) == hlsl_struct_lines(vars.take(k), semantic)
            + hlsl_struct_line(vars[k], semantic) + hlsl_struct_lines(vars.skip(k + 1), semantic),
    decreases vars.len(),
{
    if k == vars.len() - 1 {
        assert(vars.drop_last() =~= vars.take(k));
        assert(vars.skip(k + 1) =~= Seq::<ShVar>::empty());
        assert(hlsl_struct_lines(vars.take(k), semantic) + hlsl_struct_line(vars[k], semantic)
            + Seq::<char>::empty() =~= hlsl_struct_lines(vars.take(k), semantic)
            + hlsl_struct_line(vars[k], semantic));
    } else {
        lemma_one_line_per_member(vars.drop_last(), semantic, k);
        assert(vars.drop_last().take(k) =~= vars.take(k));
        assert(vars.drop_last()[k] == vars[k]);
        assert(vars.drop_last().skip(k + 1) =~= vars.skip(k + 1).drop_last());
        assert(vars.skip(k + 1).last() == vars.last());
        assert(hlsl_struct_lines(vars.take(k), semantic) + hlsl_struct_line(vars[k], semantic)
            + hlsl_struct_lines(vars.skip(k + 1), semantic) =~= hlsl_struct_lines(
            vars.take(k),
            semantic,
        ) + hlsl_struct_line(vars[k], semantic) + hlsl_struct_lines(
            vars.drop_last().skip(k + 1),
            semantic,
        ) + hlsl_struct_line(vars.last(), semantic));
    }
}

} // verus!
