//! The byte-level framebuffer a renderer writes into, and its color type.

pub mod color;
pub mod film;
