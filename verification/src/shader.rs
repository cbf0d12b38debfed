//! Compiled shaders as the canvas sees them, and the shader-identity key
//! that selects a render pipeline.

use vstd::prelude::*;

verus! {

/// A compiled shader: an identity, plus optional handles to its vertex and
/// fragment modules. Either module may be absent; a pipeline built from such
/// a shader inherits the missing module from the canvas's default shader.
///
/// Compilation happens outside this crate; the driver hands the canvas one
/// `Shader` value per compiled shader, with a distinct `id` for each.
#[derive(Clone, Copy, PartialEq, Eq, Debug)]
pub struct Shader {
    pub id: u64,
    pub vs_module: Option<u64>,
    pub fs_module: Option<u64>,
}

impl Shader {
    /// A shader that supplies both of its modules.
    pub open spec fn complete(self) -> bool {
        self.vs_module is Some && self.fs_module is Some
    }
}

/// The draw state a pipeline is keyed by: the identity of the shader that
/// was current when the pipeline was built.
#[derive(Clone, Copy, PartialEq, Eq, Debug)]
pub struct DrawState3d {
    pub shader: Shader,
}

/// Two draw states select the same pipeline exactly when they carry the
/// same shader identity.
pub open spec fn state_eq(a: DrawState3d, b: DrawState3d) -> bool {
    a.shader.id == b.shader.id
}

/// Compare two draw states by shader identity.
pub fn state_matches(a: &DrawState3d, b: &DrawState3d) -> (r: bool)
    ensures
        r == state_eq(*a, *b),
{
    a.shader.id == b.shader.id
}

} // verus!
