//! Interface data handed to the upload layer by drawable geometry types.
//!
//! A drawable type supplies GLSL source text for the two vertex-shader
//! variants (interleaved "compat" layout and storage-buffer layout) plus a
//! fragment shader; the upload layer only ever selects one of the variants.

use vstd::prelude::*;

verus! {

/// Shader source text for one drawable type.
pub struct ShaderSource {
    pub vertex_compat: &'static str,
    pub vertex_ssbo: &'static str,
    pub fragment: &'static str,
}

impl ShaderSource {
    /// The vertex-shader variant matching the chosen buffer combination:
    /// the storage-buffer source when `use_ssbo` holds, the interleaved
    /// source otherwise.
    pub fn vertex_source(&self, use_ssbo: bool) -> (r: &'static str)
        ensures
            use_ssbo ==> r == self.vertex_ssbo,
            !use_ssbo ==> r == self.vertex_compat,
    {
        if use_ssbo {
            self.vertex_ssbo
        } else {
            self.vertex_compat
        }
    }
}

} // verus!
