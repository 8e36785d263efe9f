use crate::math::model::{
    fits_i64, in_range, lemma_mul_bound, lemma_norm_sq_nonneg, norm_sq, vadd, vsub, vzero, Vec3,
    COORD_LIMIT,
};
use crate::math::number::{isqrt, sqrt_floor};
use crate::math::vector::Vector;
use vstd::prelude::*;

verus! {

/// A 3-dimensional affine position; implicitly the homogeneous column
/// vector `(x, y, z, 1)`, so translations move it.
#[derive(Clone, Copy, Debug, PartialEq, Eq, Structural)]
pub struct Point {
    pub x: i64,
    pub y: i64,
    pub z: i64,
}

impl View for Point {
    type V = Vec3;

    open spec fn view(&self) -> Vec3 {
        Vec3 { x: self.x as int, y: self.y as int, z: self.z as int }
    }
}

impl Default for Point {
    /// The origin.
    fn default() -> (r: Point)
        ensures
            r@ == vzero(),
    {
        Point { x: 0, y: 0, z: 0 }
    }
}

impl Point {
    /// The origin.
    pub fn zero() -> (p: Point)
        ensures
            p.x == 0 && p.y == 0 && p.z == 0,
    {
        Point { x: 0, y: 0, z: 0 }
    }

    /// Construct a point from its `(x, y, z)` coordinates.
    pub fn new(x: i64, y: i64, z: i64) -> (p: Point)
        ensures
            p.x == x && p.y == y && p.z == z,
    {
        Point { x, y, z }
    }

    /// Translate the point by a vector.
    pub fn add_vector(self, v: Vector) -> (r: Point)
        requires
            fits_i64(self@.x + v@.x),
            fits_i64(self@.y + v@.y),
            fits_i64(self@.z + v@.z),
        ensures
            r@ == vadd(self@, v@),
    {
        Point { x: self.x + v.x, y: self.y + v.y, z: self.z + v.z }
    }

    /// Translate the point backwards by a vector.
    pub fn sub_vector(self, v: Vector) -> (r: Point)
        requires
            fits_i64(self@.x - v@.x),
            fits_i64(self@.y - v@.y),
            fits_i64(self@.z - v@.z),
        ensures
            r@ == vsub(self@, v@),
    {
        Point { x: self.x - v.x, y: self.y - v.y, z: self.z - v.z }
    }

    /// The displacement vector from `p` to `self`.
    pub fn sub(self, p: Point) -> (r: Vector)
        requires
            fits_i64(self@.x - p@.x),
            fits_i64(self@.y - p@.y),
            fits_i64(self@.z - p@.z),
        ensures
            r@ == vsub(self@, p@),
    {
        Vector { x: self.x - p.x, y: self.y - p.y, z: self.z - p.z }
    }

    /// The squared distance to another point: the squared length of the
    /// displacement vector between them.  Prefer this over `distance`
    /// when only comparing distances.
    pub fn distance_sq(self, p: Point) -> (r: i64)
        requires
            in_range(self@),
            in_range(p@),
        ensures
            r == norm_sq(vsub(self@, p@)),
    {
        let dx = self.x - p.x;
        let dy = self.y - p.y;
        let dz = self.z - p.z;
        proof {
            lemma_mul_bound(dx as int, dx as int, 2 * COORD_LIMIT as int);
            lemma_mul_bound(dy as int, dy as int, 2 * COORD_LIMIT as int);
            lemma_mul_bound(dz as int, dz as int, 2 * COORD_LIMIT as int);
        }
        dx * dx + dy * dy + dz * dz
    }

    /// The distance to another point, as a floor square root.
    pub fn distance(self, p: Point) -> (r: i64)
        requires
            in_range(self@),
            in_range(p@),
        ensures
            r == sqrt_floor(norm_sq(vsub(self@, p@))),
    {
        proof {
            lemma_norm_sq_nonneg(vsub(self@, p@));
        }
        let sq = self.distance_sq(p);
        let root = isqrt(sq as u64);
        proof {
            assert(root <= 0xffff_ffffu64) by (nonlinear_arith)
                requires root * root <= sq as u64, sq as u64 <= i64::MAX as u64;
        }
        root as i64
    }
}

} // verus!
