use crate::math::model::{
    dot3, in_range, lemma_mul_bound2, vadd, vscale, vsub, COORD_LIMIT,
};
use crate::math::normal::Normal;
use crate::math::number::{div_trunc, div_trunc_i64};
use crate::math::point::Point;
use crate::math::ray::{Ray, Ray3};
use crate::math::traits::Dot;
use crate::scene::primitive::{Hit, Hit3};
use vstd::prelude::*;

verus! {

/// An infinite plane, given by a point on it and its normal.
#[derive(Clone, Copy, Debug)]
pub struct Plane {
    /// A point on the plane.
    pub point: Point,
    /// The plane's normal.
    pub normal: Normal,
}

impl Plane {
    /// A well-formed plane has its point and normal within the
    /// coordinate range.
    pub open spec fn wf(self) -> bool {
        &&& in_range(self.point@)
        &&& in_range(self.normal@)
    }

    /// Construct a plane from a point on it and its normal.
    pub fn new(p: &Point, n: &Normal) -> (r: Plane)
        requires
            in_range(p@),
            in_range(n@),
        ensures
            r.point == *p,
            r.normal == *n,
            r.wf(),
    {
        Plane { point: *p, normal: *n }
    }

    /// The model of the intersection: the parameter solves
    /// `t = dot(point - o, normal) / dot(d, normal)`, truncated toward
    /// zero.  A zero denominator — the ray parallel to the plane — is an
    /// explicit miss, never a division; a parameter at or behind the
    /// origin (`t <= 0`) is a miss too, so a ray starting on the plane
    /// does not intersect itself.  The normal at the hit point is the
    /// plane's own normal.
    pub open spec fn hit_model(self, r: Ray3) -> Option<Hit3> {
        let den = dot3(r.d, self.normal@);
        if den == 0 {
            None
        } else {
            let t = div_trunc(dot3(vsub(self.point@, r.o), self.normal@), den);
            if t <= 0 {
                None
            } else {
                Some(
                    Hit3 {
                        t,
                        point: vadd(r.o, vscale(r.d, t)),
                        normal: self.normal@,
                    },
                )
            }
        }
    }

    /// The nearest positive-parameter intersection with the ray.
    pub fn hit(&self, ray: &Ray) -> (h: Option<Hit>)
        requires
            self.wf(),
            in_range(ray@.o),
            in_range(ray@.d),
        ensures
            h is Some <==> self.hit_model(ray@) is Some,
            h matches Some(hh) ==> self.hit_model(ray@) == Some(hh@),
    {
        let lim: i64 = COORD_LIMIT;
        let den = ray.d.dot(self.normal);
        if den == 0 {
            return None;
        }
        let ex = self.point.x - ray.o.x;
        let ey = self.point.y - ray.o.y;
        let ez = self.point.z - ray.o.z;
        proof {
            lemma_mul_bound2(ex as int, self.normal@.x, 2 * lim as int, lim as int);
            lemma_mul_bound2(ey as int, self.normal@.y, 2 * lim as int, lim as int);
            lemma_mul_bound2(ez as int, self.normal@.z, 2 * lim as int, lim as int);
        }
        let num = ex * self.normal.x + ey * self.normal.y + ez * self.normal.z;
        proof {
            crate::math::number::lemma_div_trunc_magnitude(num as int, den as int);
        }
        let t = div_trunc_i64(num, den);
        if t <= 0 {
            return None;
        }
        proof {
            lemma_mul_bound2(ray@.d.x, t as int, lim as int, 6 * lim as int * lim as int);
            lemma_mul_bound2(ray@.d.y, t as int, lim as int, 6 * lim as int * lim as int);
            lemma_mul_bound2(ray@.d.z, t as int, lim as int, 6 * lim as int * lim as int);
        }
        let point = Point {
            x: ray.o.x + ray.d.x * t,
            y: ray.o.y + ray.d.y * t,
            z: ray.o.z + ray.d.z * t,
        };
        Some(Hit { t, point, normal: self.normal })
    }
}

} // verus!
