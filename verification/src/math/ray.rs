use crate::math::model::{in_range, vadd, vscale, Vec3, COORD_LIMIT};
use crate::math::point::Point;
use crate::math::vector::Vector;
use vstd::prelude::*;

verus! {

/// The mathematical model of a ray: origin and direction triples.
pub ghost struct Ray3 {
    pub o: Vec3,
    pub d: Vec3,
}

/// A directed half-line: the points `o + d*t` for `t >= 0`.
#[derive(Clone, Copy, Debug, PartialEq, Eq, Structural)]
pub struct Ray {
    /// The origin of the ray.
    pub o: Point,
    /// The direction of the ray.
    pub d: Vector,
}

impl View for Ray {
    type V = Ray3;

    open spec fn view(&self) -> Ray3 {
        Ray3 { o: self.o@, d: self.d@ }
    }
}

impl Ray {
    /// Construct a ray from an origin point and a direction vector.
    pub fn new(o: &Point, d: &Vector) -> (r: Ray)
        ensures
            r.o == *o,
            r.d == *d,
    {
        Ray { o: *o, d: *d }
    }

    /// The point `o + d*t` on the ray at parameter `t`.
    pub fn at(&self, t: i64) -> (p: Point)
        requires
            in_range(self@.o),
            in_range(self@.d),
            -COORD_LIMIT <= t <= COORD_LIMIT,
        ensures
            p@ == vadd(self@.o, vscale(self@.d, t as int)),
    {
        proof {
            crate::math::model::lemma_mul_bound(self@.d.x, t as int, COORD_LIMIT as int);
            crate::math::model::lemma_mul_bound(self@.d.y, t as int, COORD_LIMIT as int);
            crate::math::model::lemma_mul_bound(self@.d.z, t as int, COORD_LIMIT as int);
        }
        self.o.add_vector(self.d.scale(t))
    }
}

} // verus!
