//! Draws a single triangle with WebGL: finds a canvas and its context,
//! compiles and links a pair of shaders, uploads the vertices and issues the
//! draw. The decisions are verified; the calls into the browser go through
//! the wrappers in `host`.
pub mod error;
mod host;
pub mod program;
pub mod shader;
pub mod triangle;
pub mod vertices;

pub use error::GlError;
pub use program::setup_shaders;
pub use shader::create_shader;
pub use triangle::{draw_triangle, init_webgl_context};
pub use vertices::setup_vertices;
