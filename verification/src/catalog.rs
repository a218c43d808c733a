//! The variable/constant catalog: flat tables of typed variables partitioned
//! by storage class, plus named constants and function definitions,
//! accumulated from composable fragments. Composition is concatenation;
//! later fragments may add members, and may repeat a variable only with an
//! identical type and storage class. Conflicts fail here, at assembly time,
//! before any backend compile.

use vstd::prelude::*;
use crate::types::{ShTy, ShVar, ShVarStore, ShaderCompileError, str_eq, ty_slots};
use crate::ir::{ShConst, ShConstV, ShFnDef, ShFnDefV, consts_view, fns_view};

verus! {

/// Largest number of variables, constants or functions one catalog accepts;
/// keeps every slot total far below `usize::MAX`.
pub const MAX_CATALOG_LEN: usize = 0x0100_0000;

/// One composable bundle of declarations: variables, named constants and
/// function definitions.
pub struct ShFragment {
    pub vars: Vec<ShVar>,
    pub consts: Vec<ShConst>,
    pub fns: Vec<ShFnDef>,
}

/// Whether some variable of `vs` is named `n`.
pub open spec fn has_var(vs: Seq<ShVar>, n: Seq<char>) -> bool {
    exists|i: int| 0 <= i < vs.len() && vs[i].name@ == n
}

/// The variable of `vs` named `n`; meaningful when names are distinct.
pub open spec fn var_named(vs: Seq<ShVar>, n: Seq<char>) -> ShVar {
    vs[choose|i: int| 0 <= i < vs.len() && vs[i].name@ == n]
}

pub open spec fn distinct_var_names(vs: Seq<ShVar>) -> bool {
    forall|i: int, j: int| 0 <= i < j < vs.len() ==> vs[i].name@ != vs[j].name@
}

pub open spec fn has_const_v(cs: Seq<ShConstV>, n: Seq<char>) -> bool {
    exists|i: int| 0 <= i < cs.len() && cs[i].name == n
}

pub open spec fn distinct_const_names(cs: Seq<ShConstV>) -> bool {
    forall|i: int, j: int| 0 <= i < j < cs.len() ==> cs[i].name != cs[j].name
}

pub open spec fn has_fn_v(fs: Seq<ShFnDefV>, n: Seq<char>) -> bool {
    exists|i: int| 0 <= i < fs.len() && fs[i].name == n
}

pub open spec fn distinct_fn_names(fs: Seq<ShFnDefV>) -> bool {
    forall|i: int, j: int| 0 <= i < j < fs.len() ==> fs[i].name != fs[j].name
}

/// Folding a fragment's variables into a catalog: a repeated name with the
/// same type and storage class is dropped, a repeated name with a different
/// type or storage class is the conflicting variable returned as the error.
pub open spec fn compose_vars(base: Seq<ShVar>, add: Seq<ShVar>) -> Result<Seq<ShVar>, ShVar>
    decreases add.len(),
{
    if add.len() == 0 {
        Ok(base)
    } else {
        let v = add[0];
        if has_var(base, v.name@) {
            if var_named(base, v.name@).ty == v.ty && var_named(base, v.name@).store == v.store {
                compose_vars(base, add.drop_first())
            } else {
                Err(v)
            }
        } else {
            compose_vars(base.push(v), add.drop_first())
        }
    }
}

/// Folding a fragment's constants into a catalog: any repeated name is the
/// error (later fragments may add, not redefine).
pub open spec fn compose_consts(base: Seq<ShConstV>, add: Seq<ShConstV>) -> Result<
    Seq<ShConstV>,
    Seq<char>,
>
    decreases add.len(),
{
    if add.len() == 0 {
        Ok(base)
    } else {
        let c = add[0];
        if has_const_v(base, c.name) {
            Err(c.name)
        } else {
            compose_consts(base.push(c), add.drop_first())
        }
    }
}

/// Folding a fragment's functions into a catalog: any repeated name is the
/// error (later fragments may add, not redefine).
pub open spec fn compose_fns(base: Seq<ShFnDefV>, add: Seq<ShFnDefV>) -> Result<
    Seq<ShFnDefV>,
    Seq<char>,
>
    decreases add.len(),
{
    if add.len() == 0 {
        Ok(base)
    } else {
        let f = add[0];
        if has_fn_v(base, f.name) {
            Err(f.name)
        } else {
            compose_fns(base.push(f), add.drop_first())
        }
    }
}

/// The variables of `vs` with storage class `store`, in declaration order.
pub open spec fn filter_store(vs: Seq<ShVar>, store: ShVarStore) -> Seq<ShVar>
    decreases vs.len(),
{
    if vs.len() == 0 {
        Seq::empty()
    } else {
        let pre = filter_store(vs.drop_last(), store);
        if vs.last().store == store {
            pre.push(vs.last())
        } else {
            pre
        }
    }
}

pub proof fn lemma_filter_store(vs: Seq<ShVar>, store: ShVarStore)
    ensures
        filter_store(vs, store).len() <= vs.len(),
        forall|i: int|
            0 <= i < filter_store(vs, store).len() ==> (#[trigger] filter_store(vs, store)[i]).store
                == store,
        forall|i: int|
            0 <= i < filter_store(vs, store).len() ==> exists|j: int|
                0 <= j < vs.len() && vs[j] == #[trigger] filter_store(vs, store)[i],
        forall|j: int|
            0 <= j < vs.len() && (#[trigger] vs[j]).store == store ==> exists|i: int|
                0 <= i < filter_store(vs, store).len() && filter_store(vs, store)[i] == vs[j],
    decreases vs.len(),
{
    if vs.len() > 0 {
        lemma_filter_store(vs.drop_last(), store);
        assert forall|j: int| 0 <= j < vs.len() && (#[trigger] vs[j]).store == store implies exists|
            i: int,
        | 0 <= i < filter_store(vs, store).len() && filter_store(vs, store)[i] == vs[j] by {
            if j < vs.len() - 1 {
                assert(vs.drop_last()[j] == vs[j]);
                let i0 = choose|i0: int|
                    0 <= i0 < filter_store(vs.drop_last(), store).len() && filter_store(
                        vs.drop_last(),
                        store,
                    )[i0] == vs[j];
                assert(filter_store(vs, store)[i0] == vs[j]);
            } else {
                let pre = filter_store(vs.drop_last(), store);
                assert(filter_store(vs, store) == pre.push(vs.last()));
                assert(filter_store(vs, store)[pre.len() as int] == vs[j]);
            }
        }
    }
}

pub proof fn lemma_filter_store_distinct(vs: Seq<ShVar>, store: ShVarStore)
    requires
        distinct_var_names(vs),
    ensures
        distinct_var_names(filter_store(vs, store)),
    decreases vs.len(),
{
    if vs.len() > 0 {
        assert(forall|i: int, j: int|
            0 <= i < j < vs.drop_last().len() ==> vs.drop_last()[i].name@
                != vs.drop_last()[j].name@);
        lemma_filter_store_distinct(vs.drop_last(), store);
        lemma_filter_store(vs.drop_last(), store);
    }
}

/// Sum of the slot widths of `vs`, the packed float count of one vertex or
/// uniform record.
pub open spec fn slots_of(vs: Seq<ShVar>) -> nat
    decreases vs.len(),
{
    if vs.len() == 0 {
        0
    } else {
        slots_of(vs.drop_last()) + ty_slots(vs.last().ty)
    }
}

/// The assembled shader description: one catalog of variables, constants and
/// functions, built once by fragment composition and read-only thereafter.
pub struct ShaderGen {
    pub vars: Vec<ShVar>,
    pub consts: Vec<ShConst>,
    pub fns: Vec<ShFnDef>,
}

impl ShaderGen {
    /// Catalog well-formedness: names are distinct within each table and the
    /// tables are small enough that every slot count fits comfortably.
    pub open spec fn wf(self) -> bool {
        &&& distinct_var_names(self.vars@)
        &&& distinct_const_names(consts_view(self.consts@))
        &&& distinct_fn_names(fns_view(self.fns@))
        &&& self.vars@.len() <= MAX_CATALOG_LEN
        &&& self.consts@.len() <= MAX_CATALOG_LEN
        &&& self.fns@.len() <= MAX_CATALOG_LEN
    }

    /// An empty catalog.
    pub fn new() -> (r: ShaderGen)
        ensures
            r.wf(),
            r.vars@ == Seq::<ShVar>::empty(),
            r.consts@ == Seq::<ShConst>::empty(),
            r.fns@ == Seq::<ShFnDef>::empty(),
    {
        ShaderGen { vars: Vec::new(), consts: Vec::new(), fns: Vec::new() }
    }

    /// Index of the first variable named `name`, if any.
    pub fn find_var(vs: &Vec<ShVar>, name: &str) -> (r: Option<usize>)
        ensures
            match r {
                Some(i) => i < vs@.len() && vs@[i as int].name@ == name@,
                None => !has_var(vs@, name@),
            },
    {
        let mut i: usize = 0;
        while i < vs.len()
            invariant
                i <= vs@.len(),
                forall|j: int| 0 <= j < i ==> vs@[j].name@ != name@,
            decreases vs@.len() - i,
        {
            if str_eq(vs[i].name.as_str(), name) {
                return Some(i);
            }
            i = i + 1;
        }
        None
    }

    /// Adds one fragment to the catalog. On any conflict the catalog is left
    /// unchanged and the error names the conflicting member.
    #[verifier::loop_isolation(false)]
    pub fn compose(&mut self, frag: &ShFragment) -> (r: Result<(), ShaderCompileError>)
        requires
            old(self).wf(),
            old(self).vars@.len() + frag.vars@.len() <= MAX_CATALOG_LEN,
            old(self).consts@.len() + frag.consts@.len() <= MAX_CATALOG_LEN,
            old(self).fns@.len() + frag.fns@.len() <= MAX_CATALOG_LEN,
        ensures
            final(self).wf(),
            match r {
                Ok(_) => {
                    &&& compose_vars(old(self).vars@, frag.vars@) is Ok
                    &&& final(self).vars@ == compose_vars(old(self).vars@, frag.vars@)->Ok_0
                    &&& compose_consts(
                        consts_view(old(self).consts@),
                        consts_view(frag.consts@),
                    ) is Ok
                    &&& consts_view(final(self).consts@) == compose_consts(
                        consts_view(old(self).consts@),
                        consts_view(frag.consts@),
                    )->Ok_0
                    &&& compose_fns(fns_view(old(self).fns@), fns_view(frag.fns@)) is Ok
                    &&& fns_view(final(self).fns@) == compose_fns(
                        fns_view(old(self).fns@),
                        fns_view(frag.fns@),
                    )->Ok_0
                },
                Err(e) => {
                    &&& *final(self) == *old(self)
                    &&& {
                        ||| (compose_vars(old(self).vars@, frag.vars@) matches Err(v)
                            && e.construct@ == v.name@ && e.message@
                            == "incompatible redeclaration across fragments"@)
                        ||| (compose_consts(
                            consts_view(old(self).consts@),
                            consts_view(frag.consts@),
                        ) matches Err(n) && e.construct@ == n && e.message@
                            == "duplicate constant definition"@)
                        ||| (compose_fns(fns_view(old(self).fns@), fns_view(frag.fns@)) matches Err(
                            n,
                        ) && e.construct@ == n && e.message@ == "duplicate function definition"@)
                    }
                },
            },
    {
        let ghost orig_vars = self.vars@;
        let ghost orig_consts = consts_view(self.consts@);
        let ghost orig_fns = fns_view(self.fns@);

        // Fold the fragment's variables into a working copy.
        let mut new_vars: Vec<ShVar> = Vec::new();
        let mut i: usize = 0;
        while i < self.vars.len()
            invariant
                i <= self.vars@.len(),
                new_vars@ == self.vars@.take(i as int),
            decreases self.vars@.len() - i,
        {
            new_vars.push(self.vars[i].clone());
            proof {
                assert(self.vars@.take(i + 1 as int)
                    =~= self.vars@.take(i as int).push(self.vars@[i as int]));
            }
            i = i + 1;
        }
        proof {
            assert(self.vars@.take(self.vars@.len() as int) =~= self.vars@);
            assert(frag.vars@.skip(0) =~= frag.vars@);
        }

        let mut i: usize = 0;
        while i < frag.vars.len()
            invariant
                i <= frag.vars@.len(),
                distinct_var_names(new_vars@),
                new_vars@.len() <= orig_vars.len() + i,
                orig_vars.len() + frag.vars@.len() <= MAX_CATALOG_LEN,
                compose_vars(orig_vars, frag.vars@) == compose_vars(
                    new_vars@,
                    frag.vars@.skip(i as int),
                ),
            decreases frag.vars@.len() - i,
        {
            let ghost rest = frag.vars@.skip(i as int);
            proof {
                assert(rest[0] == frag.vars@[i as int]);
                assert(rest.drop_first() =~= frag.vars@.skip(i + 1 as int));
            }
            let v = &frag.vars[i];
            match Self::find_var(&new_vars, v.name.as_str()) {
                Some(j) => {
                    proof {
                        assert(new_vars@[j as int].name@ == v.name@);
                        assert(has_var(new_vars@, v.name@));
                        assert(var_named(new_vars@, v.name@) == new_vars@[j as int]);
                    }
                    let existing = &new_vars[j];
                    if !(existing.ty == v.ty && existing.store == v.store) {
                        proof {
                            assert(rest[0] == *v);
                            assert(compose_vars(new_vars@, rest) == Err::<Seq<ShVar>, ShVar>(*v));
                        }
                        return Err(
                            ShaderCompileError {
                                message: "incompatible redeclaration across fragments".to_string(),
                                construct: v.name.clone(),
                            },
                        );
                    }
                },
                None => {
                    proof {
                        assert(forall|k: int|
                            0 <= k < new_vars@.len() ==> new_vars@[k].name@ != v.name@);
                        assert(distinct_var_names(new_vars@.push(*v)));
                    }
                    new_vars.push(v.clone());
                },
            }
            i = i + 1;
        }
        proof {
            assert(frag.vars@.skip(frag.vars@.len() as int) =~= Seq::<ShVar>::empty());
        }

        // Fold the fragment's constants into a working copy.
        let mut new_consts: Vec<ShConst> = Vec::new();
        let mut i: usize = 0;
        while i < self.consts.len()
            invariant
                i <= self.consts@.len(),
                consts_view(new_consts@) == consts_view(self.consts@).take(i as int),
                new_consts@.len() == i,
            decreases self.consts@.len() - i,
        {
            let ghost c0 = consts_view(new_consts@);
            new_consts.push(self.consts[i].clone());
            proof {
                assert(consts_view(new_consts@) =~= c0.push(const_view_of(self.consts@[i as int])));
                assert(consts_view(self.consts@).take(i + 1 as int)
                    =~= consts_view(self.consts@).take(i as int).push(
                    consts_view(self.consts@)[i as int],
                ));
            }
            i = i + 1;
        }
        proof {
            assert(consts_view(self.consts@).take(self.consts@.len() as int)
                =~= consts_view(self.consts@));
            assert(consts_view(frag.consts@).skip(0) =~= consts_view(frag.consts@));
        }

        let mut i: usize = 0;
        while i < frag.consts.len()
            invariant
                i <= frag.consts@.len(),
                distinct_const_names(consts_view(new_consts@)),
                consts_view(new_consts@).len() <= orig_consts.len() + i,
                new_consts@.len() == consts_view(new_consts@).len(),
                orig_consts.len() + frag.consts@.len() <= MAX_CATALOG_LEN,
                compose_consts(orig_consts, consts_view(frag.consts@)) == compose_consts(
                    consts_view(new_consts@),
                    consts_view(frag.consts@).skip(i as int),
                ),
            decreases frag.consts@.len() - i,
        {
            let ghost rest = consts_view(frag.consts@).skip(i as int);
            proof {
                assert(rest[0] == consts_view(frag.consts@)[i as int]);
                assert(rest.drop_first() =~= consts_view(frag.consts@).skip(i + 1 as int));
            }
            let c = &frag.consts[i];
            proof {
                assert(rest[0] == const_view_of(frag.consts@[i as int]));
                assert(rest[0].name == c.name@);
            }
            if Self::find_const(&new_consts, c.name.as_str()).is_some() {
                proof {
                    assert(compose_consts(consts_view(new_consts@), rest)
                        == Err::<Seq<ShConstV>, Seq<char>>(rest[0].name));
                }
                return Err(
                    ShaderCompileError {
                        message: "duplicate constant definition".to_string(),
                        construct: c.name.clone(),
                    },
                );
            }
            proof {
                assert(distinct_const_names(consts_view(new_consts@).push(rest[0])));
            }
            let ghost c0 = consts_view(new_consts@);
            new_consts.push(c.clone());
            proof {
                assert(consts_view(new_consts@) =~= c0.push(const_view_of(frag.consts@[i as int])));
            }
            i = i + 1;
        }
        proof {
            assert(consts_view(frag.consts@).skip(consts_view(frag.consts@).len() as int)
                =~= Seq::<ShConstV>::empty());
        }

        // Fold the fragment's functions into a working copy.
        let mut new_fns: Vec<ShFnDef> = Vec::new();
        let mut i: usize = 0;
        while i < self.fns.len()
            invariant
                i <= self.fns@.len(),
                fns_view(new_fns@) == fns_view(self.fns@).take(i as int),
                new_fns@.len() == i,
            decreases self.fns@.len() - i,
        {
            let ghost f0 = fns_view(new_fns@);
            new_fns.push(self.fns[i].clone());
            proof {
                assert(fns_view(new_fns@) =~= f0.push(fn_view_of(self.fns@[i as int])));
                assert(fns_view(self.fns@).take(i + 1 as int)
                    =~= fns_view(self.fns@).take(i as int).push(fns_view(self.fns@)[i as int]));
            }
            i = i + 1;
        }
        proof {
            assert(fns_view(self.fns@).take(self.fns@.len() as int) =~= fns_view(self.fns@));
            assert(fns_view(frag.fns@).skip(0) =~= fns_view(frag.fns@));
        }

        let mut i: usize = 0;
        while i < frag.fns.len()
            invariant
                i <= frag.fns@.len(),
                distinct_fn_names(fns_view(new_fns@)),
                fns_view(new_fns@).len() <= orig_fns.len() + i,
                new_fns@.len() == fns_view(new_fns@).len(),
                orig_fns.len() + frag.fns@.len() <= MAX_CATALOG_LEN,
                compose_fns(orig_fns, fns_view(frag.fns@)) == compose_fns(
                    fns_view(new_fns@),
                    fns_view(frag.fns@).skip(i as int),
                ),
            decreases frag.fns@.len() - i,
        {
            let ghost rest = fns_view(frag.fns@).skip(i as int);
            proof {
                assert(rest[0] == fns_view(frag.fns@)[i as int]);
                assert(rest.drop_first() =~= fns_view(frag.fns@).skip(i + 1 as int));
            }
            let f = &frag.fns[i];
            proof {
                assert(rest[0] == fn_view_of(frag.fns@[i as int]));
                assert(rest[0].name == f.name@);
            }
            if Self::find_fn(&new_fns, f.name.as_str()).is_some() {
                proof {
                    assert(compose_fns(fns_view(new_fns@), rest)
                        == Err::<Seq<ShFnDefV>, Seq<char>>(rest[0].name));
                }
                return Err(
                    ShaderCompileError {
                        message: "duplicate function definition".to_string(),
                        construct: f.name.clone(),
                    },
                );
            }
            proof {
                assert(distinct_fn_names(fns_view(new_fns@).push(rest[0])));
            }
            let ghost f0 = fns_view(new_fns@);
            new_fns.push(f.clone());
            proof {
                assert(fns_view(new_fns@) =~= f0.push(fn_view_of(frag.fns@[i as int])));
            }
            i = i + 1;
        }
        proof {
            assert(fns_view(frag.fns@).skip(fns_view(frag.fns@).len() as int)
                =~= Seq::<ShFnDefV>::empty());
        }

        self.vars = new_vars;
        self.consts = new_consts;
        self.fns = new_fns;
        Ok(())
    }

    /// Index of the first constant named `name`, if any.
    pub fn find_const(cs: &Vec<ShConst>, name: &str) -> (r: Option<usize>)
        ensures
            match r {
                Some(i) => i < cs@.len() && cs@[i as int].name@ == name@ && has_const_v(
                    consts_view(cs@),
                    name@,
                ),
                None => !has_const_v(consts_view(cs@), name@),
            },
    {
        let mut i: usize = 0;
        while i < cs.len()
            invariant
                i <= cs@.len(),
                forall|j: int| 0 <= j < i ==> cs@[j].name@ != name@,
            decreases cs@.len() - i,
        {
            if str_eq(cs[i].name.as_str(), name) {
                proof {
                    assert(consts_view(cs@)[i as int] == const_view_of(cs@[i as int]));
                    assert(has_const_v(consts_view(cs@), name@));
                }
                return Some(i);
            }
            i = i + 1;
        }
        proof {
            assert forall|j: int| 0 <= j < consts_view(cs@).len() implies consts_view(cs@)[j].name
                != name@ by {
                assert(consts_view(cs@)[j] == const_view_of(cs@[j]));
            }
        }
        None
    }

    /// Index of the first function definition named `name`, if any.
    pub fn find_fn(fs: &Vec<ShFnDef>, name: &str) -> (r: Option<usize>)
        ensures
            match r {
                Some(i) => i < fs@.len() && fs@[i as int].name@ == name@ && has_fn_v(
                    fns_view(fs@),
                    name@,
                ),
                None => !has_fn_v(fns_view(fs@), name@),
            },
    {
        let mut i: usize = 0;
        while i < fs.len()
            invariant
                i <= fs@.len(),
                forall|j: int| 0 <= j < i ==> fs@[j].name@ != name@,
            decreases fs@.len() - i,
        {
            if str_eq(fs[i].name.as_str(), name) {
                proof {
                    assert(fns_view(fs@)[i as int] == fn_view_of(fs@[i as int]));
                    assert(has_fn_v(fns_view(fs@), name@));
                }
                return Some(i);
            }
            i = i + 1;
        }
        proof {
            assert forall|j: int| 0 <= j < fns_view(fs@).len() implies fns_view(fs@)[j].name
                != name@ by {
                assert(fns_view(fs@)[j] == fn_view_of(fs@[j]));
            }
        }
        None
    }

    /// The catalog's variables of one storage class, in declaration order.
    /// This order, with the per-member slot widths, is the single source of
    /// truth for generated struct layout and host-side buffer packing alike.
    pub fn flat_vars(&self, store: ShVarStore) -> (r: Vec<ShVar>)
        ensures
            r@ == filter_store(self.vars@, store),
    {
        let mut r: Vec<ShVar> = Vec::new();
        let mut i: usize = 0;
        while i < self.vars.len()
            invariant
                i <= self.vars@.len(),
                r@ == filter_store(self.vars@.take(i as int), store),
            decreases self.vars@.len() - i,
        {
            proof {
                assert(self.vars@.take(i + 1 as int).drop_last() =~= self.vars@.take(i as int));
                assert(self.vars@.take(i + 1 as int).last() == self.vars@[i as int]);
            }
            let v = &self.vars[i];
            if store_eq(v.store, store) {
                r.push(v.clone());
            }
            i = i + 1;
        }
        proof {
            assert(self.vars@.take(self.vars@.len() as int) =~= self.vars@);
        }
        r
    }

    /// Total packed slot width of a flattened variable list.
    pub fn compute_slot_total(&self, vars: &Vec<ShVar>) -> (n: usize)
        requires
            vars@.len() <= MAX_CATALOG_LEN,
        ensures
            n == slots_of(vars@),
    {
        let mut n: usize = 0;
        let mut i: usize = 0;
        while i < vars.len()
            invariant
                i <= vars@.len(),
                vars@.len() <= MAX_CATALOG_LEN,
                n == slots_of(vars@.take(i as int)),
                n <= i * 16,
            decreases vars@.len() - i,
        {
            proof {
                assert(vars@.take(i + 1 as int).drop_last() =~= vars@.take(i as int));
                assert(vars@.take(i + 1 as int).last() == vars@[i as int]);
            }
            n = n + crate::types::slot_count(vars[i].ty);
            i = i + 1;
        }
        proof {
            assert(vars@.take(vars@.len() as int) =~= vars@);
        }
        n
    }

    /// The catalog's named constants, in declaration order.
    pub fn flat_consts(&self) -> (r: Vec<ShConst>)
        ensures
            consts_view(r@) == consts_view(self.consts@),
    {
        let mut r: Vec<ShConst> = Vec::new();
        let mut i: usize = 0;
        while i < self.consts.len()
            invariant
                i <= self.consts@.len(),
                consts_view(r@) == consts_view(self.consts@).take(i as int),
            decreases self.consts@.len() - i,
        {
            let ghost c0 = consts_view(r@);
            r.push(self.consts[i].clone());
            proof {
                assert(consts_view(r@) =~= c0.push(const_view_of(self.consts@[i as int])));
                assert(consts_view(self.consts@).take(i + 1 as int)
                    =~= consts_view(self.consts@).take(i as int).push(
                    consts_view(self.consts@)[i as int],
                ));
            }
            i = i + 1;
        }
        proof {
            assert(consts_view(self.consts@).take(self.consts@.len() as int)
                =~= consts_view(self.consts@));
        }
        r
    }
}

/// View of one constant, used to restate `consts_view` elementwise.
pub open spec fn const_view_of(c: ShConst) -> ShConstV {
    crate::ir::const_view(c)
}

/// View of one function definition, used to restate `fns_view` elementwise.
pub open spec fn fn_view_of(f: ShFnDef) -> ShFnDefV {
    crate::ir::fn_view(f)
}

/// The base fragment every shader description composes first: the shared
/// camera projection, view scroll and view clip uniforms, all in the
/// per-view tier, that the engine updates once per view.
pub fn base_fragment() -> (r: ShFragment)
    ensures
        r.vars@.len() == 3,
        r.vars@[0].name@ == "camera_projection"@ && r.vars@[0].ty == ShTy::Mat4
            && r.vars@[0].store == ShVarStore::UniformVw,
        r.vars@[1].name@ == "view_scroll"@ && r.vars@[1].ty == ShTy::Vec2 && r.vars@[1].store
            == ShVarStore::UniformVw,
        r.vars@[2].name@ == "view_clip"@ && r.vars@[2].ty == ShTy::Vec4 && r.vars@[2].store
            == ShVarStore::UniformVw,
        r.consts@.len() == 0,
        r.fns@.len() == 0,
{
    let mut vars: Vec<ShVar> = Vec::new();
    vars.push(
        ShVar {
            name: "camera_projection".to_string(),
            ty: ShTy::Mat4,
            store: ShVarStore::UniformVw,
        },
    );
    vars.push(ShVar { name: "view_scroll".to_string(), ty: ShTy::Vec2, store: ShVarStore::UniformVw });
    vars.push(ShVar { name: "view_clip".to_string(), ty: ShTy::Vec4, store: ShVarStore::UniformVw });
    ShFragment { vars, consts: Vec::new(), fns: Vec::new() }
}

/// Whether two storage classes are the same.
pub fn store_eq(a: ShVarStore, b: ShVarStore) -> (r: bool)
    ensures
        r == (a == b),
{
    a == b
}

} // verus!
