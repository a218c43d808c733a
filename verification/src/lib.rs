//! A shader cross-compiler: one portable shader description, expressed as a
//! typed expression/statement tree over a catalog of storage-classed
//! variables, is translated into source text for native shading languages
//! (HLSL and Metal), together with the binding layout that host code uses to
//! pack vertex and uniform buffers.

#[verifier::loop_isolation(false)]
pub mod catalog;
#[verifier::loop_isolation(false)]
pub mod cx;
#[verifier::loop_isolation(false)]
pub mod drawing;
#[verifier::loop_isolation(false)]
pub mod gen;
#[verifier::loop_isolation(false)]
pub mod hlsl;
#[verifier::loop_isolation(false)]
pub mod ir;
#[verifier::loop_isolation(false)]
pub mod laws;
#[verifier::loop_isolation(false)]
pub mod layout;
#[verifier::loop_isolation(false)]
pub mod mtl;
#[verifier::loop_isolation(false)]
pub mod types;
