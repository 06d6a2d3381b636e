//! What is built on the GPU before anything can be drawn: shaders, programs
//! and textures.
pub mod program;
pub mod shader;
pub mod texture;
