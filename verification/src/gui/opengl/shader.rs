//! Shader kinds.
use vstd::prelude::*;

verus! {

/// `glow::VERTEX_SHADER`, which the `glow` source defines as `0x8B31`.
#[verifier::external_body]
fn gl_vertex_shader() -> (v: u32)
    ensures v == 0x8B31,
{
    glow::VERTEX_SHADER
}

/// `glow::FRAGMENT_SHADER`, which the `glow` source defines as `0x8B30`.
#[verifier::external_body]
fn gl_fragment_shader() -> (v: u32)
    ensures v == 0x8B30,
{
    glow::FRAGMENT_SHADER
}

/// The kind of a shader.
#[derive(Debug, Clone, Copy, PartialEq, Eq, Structural, Hash)]
pub enum ShaderType {
    /// A vertex shader.
    Vertex,
    /// A fragment shader.
    Fragment,
}

impl ShaderType {
    /// The OpenGL constant of the kind.
    pub open spec fn spec_glow_type(self) -> u32 {
        match self {
            ShaderType::Vertex => 0x8B31,
            ShaderType::Fragment => 0x8B30,
        }
    }

    /// The `glow` constant of the kind.
    pub fn glow_type(self) -> (v: u32)
        ensures v == self.spec_glow_type(),
    {
        match self {
            ShaderType::Vertex => gl_vertex_shader(),
            ShaderType::Fragment => gl_fragment_shader(),
        }
    }
}

} // verus!
