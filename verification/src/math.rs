//! Linear and affine algebra: the integer model, vectors, points, surface
//! normals, rays and 4x4 transform matrices.

pub mod matrix;
pub mod model;
pub mod normal;
pub mod number;
pub mod point;
pub mod ray;
pub mod traits;
pub mod vector;
