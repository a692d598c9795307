//! A thin OpenGL rendering toolkit: a verified CPU-side staging and upload
//! layer for GPU vertex/index/storage buffers, together with the pure
//! decision logic of its shader-wrapper collaborators.
//!
//! Every call into the graphics driver is an unsafe foreign call and so lives
//! outside this crate; the functions here compute, for each step of the
//! write / flush / bind / draw cycle, exactly which device operations must be
//! performed, and track a faithful model of the device-side state.

use vstd::prelude::*;

pub mod drawable;
pub mod preprocessor;
pub mod shader;
pub mod upload;

pub use drawable::ShaderSource;
pub use preprocessor::{LineId, PreprocError, PreprocErrorType, SourceSpan};
pub use shader::{Shader, ShaderCompileError, ShaderLinkError, ShaderProgram, ShaderType};

verus! {

/// Device capabilities relevant to buffer-strategy selection, probed once
/// from the active context by the caller that owns the context.
#[derive(Clone, Copy, PartialEq, Eq, Structural, Debug)]
pub struct GlExtensions {
    pub arb_buffer_storage: bool,
}

impl GlExtensions {
    /// Record whether the device advertises persistent-mapped buffer storage.
    pub fn new(arb_buffer_storage: bool) -> (r: GlExtensions)
        ensures
            r.arb_buffer_storage == arb_buffer_storage,
    {
        GlExtensions { arb_buffer_storage }
    }

    /// Read the capabilities off the extension list the driver reported:
    /// persistent-mapped buffer storage is available exactly when
    /// `GL_ARB_buffer_storage` is among the names.
    pub fn from_extension_names(names: &Vec<String>) -> (r: GlExtensions)
        ensures
            r.arb_buffer_storage == exists|j: int|
                0 <= j < names@.len() && names@[j]@ == "GL_ARB_buffer_storage"@,
    {
        let target: String = "GL_ARB_buffer_storage".to_owned();
        let mut found = false;
        let mut i: usize = 0;
        while i < names.len()
            invariant
                i <= names@.len(),
                target@ == "GL_ARB_buffer_storage"@,
                found == exists|j: int|
                    0 <= j < i && names@[j]@ == "GL_ARB_buffer_storage"@,
            decreases names@.len() - i,
        {
            if names[i] == target {
                found = true;
            }
            i = i + 1;
        }
        GlExtensions { arb_buffer_storage: found }
    }
}

} // verus!
