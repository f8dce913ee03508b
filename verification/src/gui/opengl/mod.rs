//! OpenGL descriptions: shader and texture kinds with their `glow`
//! constants, and the helpers' namespace.
pub mod helpers;
pub mod shader;
pub mod texture;
