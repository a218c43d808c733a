//! The shader-set context: the shader descriptions registered by the
//! application and the compiled records each backend produced from them.

use vstd::prelude::*;
use crate::catalog::ShaderGen;
use crate::drawing::DrawList;
use crate::layout::CompiledShader;

verus! {

/// The compile-side context: every registered shader description and, after
/// a backend compile, one record per description.
pub struct Cx {
    pub shaders: Vec<ShaderGen>,
    pub compiled_shaders: Vec<CompiledShader>,
    pub draw_lists: Vec<DrawList>,
}

impl Cx {
    /// A context with no shaders.
    pub fn new() -> (r: Cx)
        ensures
            r.shaders@.len() == 0,
            r.compiled_shaders@.len() == 0,
            r.draw_lists@.len() == 0,
    {
        Cx { shaders: Vec::new(), compiled_shaders: Vec::new(), draw_lists: Vec::new() }
    }

    /// Registers one shader description and returns its identifier.
    pub fn add_shader(&mut self, sg: ShaderGen) -> (id: usize)
        ensures
            final(self).shaders@ == old(self).shaders@.push(sg),
            final(self).compiled_shaders@ == old(self).compiled_shaders@,
            final(self).draw_lists@ == old(self).draw_lists@,
            id == old(self).shaders@.len(),
    {
        let id = self.shaders.len();
        self.shaders.push(sg);
        id
    }
}

} // verus!
