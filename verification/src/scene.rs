//! Intersectable shapes and the world that owns them: spheres, planes,
//! the closed primitive capability, and nearest-hit resolution.

pub mod plane;
pub mod primitive;
pub mod sphere;
pub mod world;
