//! The resource-management and drawing core of a small real-time renderer.
//!
//! Nothing in this crate talks to the graphics driver. Every operation that
//! needs the GPU is planned here as a list of driver calls, each with all of
//! its arguments decided; whoever owns the graphics context performs the calls
//! in order and hands the driver's answers back.
//!
//! - [`driver`]: the calls, the answers, and the steps of an operation.
//! - [`ffi_utils`]: byte buffers and text that cross over to the driver.
//! - [`obj`]: vertex records and their layouts, shapes, and objects.
//! - [`render`]: shaders, programs and textures.
//! - [`resources`]: where assets lie and what is made of them.
pub mod driver;
pub mod ffi_utils;
pub mod obj;
pub mod render;
pub mod resources;
