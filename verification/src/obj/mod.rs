//! Geometry: vertex records, shapes made of them, and placed instances of
//! shapes.
pub mod shape;
pub mod vertex;
