//! The closed type universe of the shader language, the storage classes that
//! partition the variable catalog, and the error type every compile stage
//! reports through.

use vstd::prelude::*;

verus! {

/// The abstract types a shader value can have. The set is closed: every
/// backend must map each of these to a native spelling, and an unmapped type
/// can never arise.
#[derive(Clone, Copy, PartialEq, Eq, Structural, Debug)]
pub enum ShTy {
    Bool,
    Float,
    Vec2,
    Vec3,
    Vec4,
    Mat2,
    Mat3,
    Mat4,
    Texture2D,
}

/// How many float slots a value of this type occupies in a packed vertex or
/// uniform stream. Declaration order plus these widths are the single source
/// of truth for both the generated struct layout and host-side buffer packing.
pub open spec fn ty_slots(t: ShTy) -> nat {
    match t {
        ShTy::Bool => 1,
        ShTy::Float => 1,
        ShTy::Vec2 => 2,
        ShTy::Vec3 => 3,
        ShTy::Vec4 => 4,
        ShTy::Mat2 => 4,
        ShTy::Mat3 => 9,
        ShTy::Mat4 => 16,
        ShTy::Texture2D => 0,
    }
}

/// Executable slot width of a type.
pub fn slot_count(t: ShTy) -> (n: usize)
    ensures
        n == ty_slots(t),
{
    match t {
        ShTy::Bool => 1,
        ShTy::Float => 1,
        ShTy::Vec2 => 2,
        ShTy::Vec3 => 3,
        ShTy::Vec4 => 4,
        ShTy::Mat2 => 4,
        ShTy::Mat3 => 9,
        ShTy::Mat4 => 16,
        ShTy::Texture2D => 0,
    }
}

/// Storage class of a catalog variable: where its value lives and at what
/// frequency it changes. `Uniform` is the per-draw-call tier, `UniformVw` the
/// per-view tier, and `UniformCx` the per-engine tier.
#[derive(Clone, Copy, PartialEq, Eq, Structural, Debug)]
pub enum ShVarStore {
    Geometry,
    Instance,
    Varying,
    Uniform,
    UniformVw,
    UniformCx,
    Texture,
    Local,
}

/// One typed variable of the catalog. Immutable once added.
#[derive(Debug)]
pub struct ShVar {
    pub name: String,
    pub ty: ShTy,
    pub store: ShVarStore,
}

impl Clone for ShVar {
    fn clone(&self) -> (r: Self)
        ensures
            r == *self,
    {
        ShVar { name: self.name.clone(), ty: self.ty, store: self.store }
    }
}

/// The error every compile stage reports: a message and the name of the
/// offending construct, so an unmapped call or a conflicting redeclaration is
/// pinned to its source-level name.
#[derive(Debug)]
pub struct ShaderCompileError {
    pub message: String,
    pub construct: String,
}

impl Clone for ShaderCompileError {
    fn clone(&self) -> (r: Self)
        ensures
            r == *self,
    {
        ShaderCompileError { message: self.message.clone(), construct: self.construct.clone() }
    }
}

/// Compares two string slices by contents.
pub fn str_eq(a: &str, b: &str) -> (r: bool)
    ensures
        r == (a@ == b@),
{
    let sa: String = a.to_string();
    let sb: String = b.to_string();
    sa == sb
}

} // verus!
