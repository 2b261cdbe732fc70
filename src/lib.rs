//! GPU resource lifecycle over a graphics driver: textures, framebuffers
//! that render into them, and linked shader programs.
//!
//! The driver is any implementation of [`Gl`]; its observable object
//! namespace and binding state are modelled by [`GlState`], and every
//! operation of this crate is specified against that model. [`MockGl`]
//! is a driver that tracks objects without rendering.
use vstd::prelude::*;

pub mod gl;
pub mod mock;
pub mod shader;
pub mod texture;

pub use gl::{GLenum, GLint, GLuint, Gl, GlState};
pub use mock::MockGl;
pub use shader::{
    FragmentShaderCompileError, GlShader, GlShaderCompileError, GlShaderCreateError,
    GlShaderLinkError, VertexShaderCompileError,
};
pub use texture::{FrameBuffer, FrameBufferIncompleteError, Texture, VertexBuffer};
