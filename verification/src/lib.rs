//! A small verified 3D geometric kernel for ray casting.
//!
//! The kernel provides vector / point / normal algebra, row-major 4x4
//! transform matrices, rays, and a `World` of intersectable primitives
//! (spheres and planes) resolved by a nearest-hit scan.  All coordinates
//! are exact signed integers, so every operation carries a contract that
//! pins its result down to the last component; lengths and square roots
//! are floor square roots with an exact characterisation, and division
//! truncates toward zero as Rust's does.
//!
//! A byte-level framebuffer (`image`) rounds the kernel out: a renderer
//! maps each pixel to a ray, asks the `World` for the nearest hit, and
//! writes a color into the frame buffer.

pub mod error;
pub mod image;
pub mod math;
pub mod scene;
