//! The shader intermediate representation: a small tagged expression and
//! statement tree, built once per shader description and shared read-only by
//! every backend compile. Ghost mirror types carry the same tree with string
//! contents as character sequences; every contract about the tree is stated
//! over that mirror.

use vstd::prelude::*;
use crate::types::ShTy;

verus! {

broadcast use vstd::std_specs::vec::axiom_vec_index_decreases;

/// Binary operators of the shader language.
#[derive(Clone, Copy, PartialEq, Eq, Structural, Debug)]
pub enum BinOp {
    Add,
    Sub,
    Mul,
    Div,
    Lt,
    Gt,
    Le,
    Ge,
    EqEq,
    Ne,
}

/// Unary operators of the shader language.
#[derive(Clone, Copy, PartialEq, Eq, Structural, Debug)]
pub enum UnOp {
    Neg,
    Not,
}

/// An expression of the shader language. `Lit` carries the literal's source
/// text; `Var` is resolved against the lexical scope and the variable
/// catalog; `Field` covers both member access and vector swizzles.
#[derive(Debug)]
pub enum Expr {
    Lit { text: String },
    Var { name: String },
    Unary { un_op: UnOp, expr: Box<Expr> },
    Binary { bin_op: BinOp, left: Box<Expr>, right: Box<Expr> },
    Call { name: String, args: Vec<Expr> },
    Field { base: Box<Expr>, member: String },
}

/// A statement of the shader language.
#[derive(Debug)]
pub enum Stmt {
    Let { name: String, ty: ShTy, init: Expr },
    Assign { target: Expr, value: Expr },
    If { cond: Expr, then_branch: Vec<Stmt>, else_branch: Vec<Stmt> },
    Return { expr: Expr },
}

/// One parameter of a shader function definition.
#[derive(Debug)]
pub struct ShFnArg {
    pub name: String,
    pub ty: ShTy,
}

/// A shader function definition: the vertex and pixel entry points and any
/// helper reachable from them.
#[derive(Debug)]
pub struct ShFnDef {
    pub name: String,
    pub args: Vec<ShFnArg>,
    pub ret: ShTy,
    pub body: Vec<Stmt>,
}

/// A named constant with its initializer expression; it is resolved once per
/// target compile as a textual macro substitution, not a runtime value.
#[derive(Debug)]
pub struct ShConst {
    pub name: String,
    pub ty: ShTy,
    pub value: Expr,
}

/// Ghost mirror of `Expr`.
pub ghost enum ExprV {
    Lit { text: Seq<char> },
    Var { name: Seq<char> },
    Unary { un_op: UnOp, expr: Box<ExprV> },
    Binary { bin_op: BinOp, left: Box<ExprV>, right: Box<ExprV> },
    Call { name: Seq<char>, args: Seq<ExprV> },
    Field { base: Box<ExprV>, member: Seq<char> },
}

/// Ghost mirror of `Stmt`.
pub ghost enum StmtV {
    Let { name: Seq<char>, ty: ShTy, init: ExprV },
    Assign { target: ExprV, value: ExprV },
    If { cond: ExprV, then_branch: Seq<StmtV>, else_branch: Seq<StmtV> },
    Return { expr: ExprV },
}

/// Ghost mirror of `ShFnArg`.
pub ghost struct ShFnArgV {
    pub name: Seq<char>,
    pub ty: ShTy,
}

/// Ghost mirror of `ShFnDef`.
pub ghost struct ShFnDefV {
    pub name: Seq<char>,
    pub args: Seq<ShFnArgV>,
    pub ret: ShTy,
    pub body: Seq<StmtV>,
}

/// Ghost mirror of `ShConst`.
pub ghost struct ShConstV {
    pub name: Seq<char>,
    pub ty: ShTy,
    pub value: ExprV,
}

pub open spec fn expr_view(e: Expr) -> ExprV
    decreases e,
{
    match e {
        Expr::Lit { text } => ExprV::Lit { text: text@ },
        Expr::Var { name } => ExprV::Var { name: name@ },
        Expr::Unary { un_op, expr } => ExprV::Unary { un_op, expr: Box::new(expr_view(*expr)) },
        Expr::Binary { bin_op, left, right } => ExprV::Binary {
            bin_op,
            left: Box::new(expr_view(*left)),
            right: Box::new(expr_view(*right)),
        },
        Expr::Call { name, args } => ExprV::Call { name: name@, args: exprs_view(args@) },
        Expr::Field { base, member } => ExprV::Field {
            base: Box::new(expr_view(*base)),
            member: member@,
        },
    }
}

pub open spec fn exprs_view(s: Seq<Expr>) -> Seq<ExprV>
    decreases s,
{
    if s.len() == 0 {
        Seq::empty()
    } else {
        exprs_view(s.drop_last()).push(expr_view(s.last()))
    }
}

pub open spec fn stmt_view(s: Stmt) -> StmtV
    decreases s,
{
    match s {
        Stmt::Let { name, ty, init } => StmtV::Let { name: name@, ty, init: expr_view(init) },
        Stmt::Assign { target, value } => StmtV::Assign {
            target: expr_view(target),
            value: expr_view(value),
        },
        Stmt::If { cond, then_branch, else_branch } => StmtV::If {
            cond: expr_view(cond),
            then_branch: stmts_view(then_branch@),
            else_branch: stmts_view(else_branch@),
        },
        Stmt::Return { expr } => StmtV::Return { expr: expr_view(expr) },
    }
}

pub open spec fn stmts_view(s: Seq<Stmt>) -> Seq<StmtV>
    decreases s,
{
    if s.len() == 0 {
        Seq::empty()
    } else {
        stmts_view(s.drop_last()).push(stmt_view(s.last()))
    }
}

pub open spec fn arg_view(a: ShFnArg) -> ShFnArgV {
    ShFnArgV { name: a.name@, ty: a.ty }
}

pub open spec fn args_view(s: Seq<ShFnArg>) -> Seq<ShFnArgV> {
    s.map_values(|a: ShFnArg| arg_view(a))
}

pub open spec fn fn_view(f: ShFnDef) -> ShFnDefV {
    ShFnDefV { name: f.name@, args: args_view(f.args@), ret: f.ret, body: stmts_view(f.body@) }
}

pub open spec fn fns_view(s: Seq<ShFnDef>) -> Seq<ShFnDefV> {
    s.map_values(|f: ShFnDef| fn_view(f))
}

pub open spec fn const_view(c: ShConst) -> ShConstV {
    ShConstV { name: c.name@, ty: c.ty, value: expr_view(c.value) }
}

pub open spec fn consts_view(s: Seq<ShConst>) -> Seq<ShConstV> {
    s.map_values(|c: ShConst| const_view(c))
}

pub broadcast proof fn lemma_exprs_view(s: Seq<Expr>)
    ensures
        #[trigger] exprs_view(s).len() == s.len(),
        forall|i: int| 0 <= i < s.len() ==> exprs_view(s)[i] == expr_view(s[i]),
    decreases s,
{
    if s.len() > 0 {
        lemma_exprs_view(s.drop_last());
    }
}

pub broadcast proof fn lemma_stmts_view(s: Seq<Stmt>)
    ensures
        #[trigger] stmts_view(s).len() == s.len(),
        forall|i: int| 0 <= i < s.len() ==> stmts_view(s)[i] == stmt_view(s[i]),
    decreases s,
{
    if s.len() > 0 {
        lemma_stmts_view(s.drop_last());
    }
}

pub fn clone_expr(e: &Expr) -> (r: Expr)
    ensures
        expr_view(r) == expr_view(*e),
    decreases *e,
{
    match e {
        Expr::Lit { text } => Expr::Lit { text: text.clone() },
        Expr::Var { name } => Expr::Var { name: name.clone() },
        Expr::Unary { un_op, expr } => Expr::Unary {
            un_op: *un_op,
            expr: Box::new(clone_expr(expr)),
        },
        Expr::Binary { bin_op, left, right } => Expr::Binary {
            bin_op: *bin_op,
            left: Box::new(clone_expr(left)),
            right: Box::new(clone_expr(right)),
        },
        Expr::Call { name, args } => Expr::Call { name: name.clone(), args: clone_exprs(args) },
        Expr::Field { base, member } => Expr::Field {
            base: Box::new(clone_expr(base)),
            member: member.clone(),
        },
    }
}

pub fn clone_exprs(v: &Vec<Expr>) -> (r: Vec<Expr>)
    ensures
        exprs_view(r@) == exprs_view(v@),
    decreases *v,
{
    let mut r: Vec<Expr> = Vec::new();
    let mut i: usize = 0;
    while i < v.len()
        invariant
            i <= v.len(),
            exprs_view(r@) == exprs_view(v@.take(i as int)),
        decreases v.len() - i,
    {
        let ghost r0 = r@;
        let x = clone_expr(&v[i]);
        let ghost gx = x;
        r.push(x);
        proof {
            assert(v@.take(i + 1 as int).drop_last() =~= v@.take(i as int));
            assert(v@.take(i + 1 as int).last() == v@[i as int]);
            assert(r@.drop_last() =~= r0);
            assert(r@.last() == gx);
        }
        i = i + 1;
    }
    proof {
        assert(v@.take(v@.len() as int) =~= v@);
    }
    r
}

pub fn clone_stmt(s: &Stmt) -> (r: Stmt)
    ensures
        stmt_view(r) == stmt_view(*s),
    decreases *s,
{
    match s {
        Stmt::Let { name, ty, init } => Stmt::Let {
            name: name.clone(),
            ty: *ty,
            init: clone_expr(init),
        },
        Stmt::Assign { target, value } => Stmt::Assign {
            target: clone_expr(target),
            value: clone_expr(value),
        },
        Stmt::If { cond, then_branch, else_branch } => Stmt::If {
            cond: clone_expr(cond),
            then_branch: clone_stmts(then_branch),
            else_branch: clone_stmts(else_branch),
        },
        Stmt::Return { expr } => Stmt::Return { expr: clone_expr(expr) },
    }
}

pub fn clone_stmts(v: &Vec<Stmt>) -> (r: Vec<Stmt>)
    ensures
        stmts_view(r@) == stmts_view(v@),
    decreases *v,
{
    let mut r: Vec<Stmt> = Vec::new();
    let mut i: usize = 0;
    while i < v.len()
        invariant
            i <= v.len(),
            stmts_view(r@) == stmts_view(v@.take(i as int)),
        decreases v.len() - i,
    {
        let ghost r0 = r@;
        let x = clone_stmt(&v[i]);
        let ghost gx = x;
        r.push(x);
        proof {
            assert(v@.take(i + 1 as int).drop_last() =~= v@.take(i as int));
            assert(v@.take(i + 1 as int).last() == v@[i as int]);
            assert(r@.drop_last() =~= r0);
            assert(r@.last() == gx);
        }
        i = i + 1;
    }
    proof {
        assert(v@.take(v@.len() as int) =~= v@);
    }
    r
}

impl Clone for ShFnArg {
    fn clone(&self) -> (r: Self)
        ensures
            r == *self,
    {
        ShFnArg { name: self.name.clone(), ty: self.ty }
    }
}

impl Clone for ShFnDef {
    fn clone(&self) -> (r: Self)
        ensures
            fn_view(r) == fn_view(*self),
    {
        let mut args: Vec<ShFnArg> = Vec::new();
        let mut i: usize = 0;
        while i < self.args.len()
            invariant
                i <= self.args.len(),
                args@ == self.args@.take(i as int),
            decreases self.args.len() - i,
        {
            args.push(self.args[i].clone());
            proof {
                assert(self.args@.take(i + 1 as int)
                    =~= self.args@.take(i as int).push(self.args@[i as int]));
            }
            i = i + 1;
        }
        proof {
            assert(self.args@.take(self.args@.len() as int) =~= self.args@);
        }
        ShFnDef { name: self.name.clone(), args, ret: self.ret, body: clone_stmts(&self.body) }
    }
}

impl Clone for ShConst {
    fn clone(&self) -> (r: Self)
        ensures
            const_view(r) == const_view(*self),
    {
        ShConst { name: self.name.clone(), ty: self.ty, value: clone_expr(&self.value) }
    }
}

} // verus!
