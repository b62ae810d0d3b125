//! A small graphics library over OpenGL: meshes, shaders, textures,
//! framebuffers and the per-frame input state of a window.
//!
//! The library describes every piece of GPU work as a list of [`GlCall`]s,
//! computed from plain values and proved against its contract; a host runs
//! those calls on a live OpenGL context and feeds back what the driver
//! returns (object names, status words).

pub mod command;
pub mod glenum;
pub mod mesh;
pub mod shader;
pub mod texture;
pub mod window;

pub use crate::command::GlCall;
pub use crate::mesh::Mesh;
pub use crate::shader::{Shader, ShaderBuilder};
pub use crate::texture::{Framebuffer, Texture, TextureBuilder, TextureFilter, TextureWrap};
pub use crate::window::{Action, Event, Input};
