use crate::error::KernelError;
use crate::math::model::{
    dot3, in_range, lemma_mul_bound, lemma_mul_bound2, lemma_unit_components, norm_sq, vadd,
    vscale, vsub, COORD_LIMIT,
};
use crate::math::number::isqrt;
use crate::math::point::Point;
use crate::math::ray::{Ray, Ray3};
use crate::scene::primitive::{ray_ok, Hit, Hit3};
use vstd::prelude::*;

verus! {

/// A sphere, given by its center and radius.
#[derive(Clone, Copy, Debug)]
pub struct Sphere {
    /// The radius; always positive.
    pub radius: i64,
    /// The center of the sphere.
    pub center: Point,
}

impl Sphere {
    /// A well-formed sphere has a positive radius and its center within
    /// the coordinate range.
    pub open spec fn wf(self) -> bool {
        &&& 1 <= self.radius <= COORD_LIMIT
        &&& in_range(self.center@)
    }

    /// Construct a sphere with the given radius and center.  The radius
    /// must be positive: a sphere is never constructed with a degenerate
    /// radius, so the invariant holds from construction on.
    pub fn new(radius: i64, center: Point) -> (s: Sphere)
        requires
            1 <= radius <= COORD_LIMIT,
            in_range(center@),
        ensures
            s.radius == radius,
            s.center == center,
            s.wf(),
    {
        Sphere { radius, center }
    }

    /// Construct a sphere after checking the invariant at the boundary:
    /// a degenerate radius, or a radius or center outside the coordinate
    /// range, is rejected with `InvalidConstruction` instead of
    /// corrupting a world with a malformed shape.
    pub fn new_checked(radius: i64, center: Point) -> (r: Result<Sphere, KernelError>)
        ensures
            1 <= radius <= COORD_LIMIT && in_range(center@) ==> (r matches Ok(s) && s.radius
                == radius && s.center == center && s.wf()),
            !(1 <= radius <= COORD_LIMIT && in_range(center@)) ==> r == Err::<
                Sphere,
                KernelError,
            >(KernelError::InvalidConstruction),
    {
        let lim: i64 = COORD_LIMIT;
        if radius < 1 || radius > lim || center.x < -lim || center.x > lim || center.y < -lim
            || center.y > lim || center.z < -lim || center.z > lim {
            Err(KernelError::InvalidConstruction)
        } else {
            Ok(Sphere { radius, center })
        }
    }

    /// The model of the intersection: with `m = o - center`,
    /// `b = dot(m, d)` and `c = dot(m, m) - radius^2`, the ray misses
    /// when it starts outside pointing away (`c > 0 && b > 0`) or when
    /// the discriminant `b^2 - c` is negative; otherwise it hits at
    /// `t = -b - sqrt(b^2 - c)`, clamped to 0 when the origin is inside
    /// the sphere.  This form of the quadratic requires a unit-length
    /// direction (see `ray_ok`).  The normal at the hit point is the
    /// radius vector from the center.
    pub open spec fn hit_model(self, r: Ray3) -> Option<Hit3> {
        let m = vsub(r.o, self.center@);
        let b = dot3(m, r.d);
        let c = norm_sq(m) - self.radius * self.radius;
        if c > 0 && b > 0 {
            None
        } else if b * b - c < 0 {
            None
        } else {
            let s = crate::math::number::sqrt_floor(b * b - c);
            let t = if -b - s < 0 {
                0
            } else {
                -b - s
            };
            let p = vadd(r.o, vscale(r.d, t));
            Some(Hit3 { t, point: p, normal: vsub(p, self.center@) })
        }
    }

    /// The nearest non-negative-parameter intersection with the ray.
    pub fn hit(&self, ray: &Ray) -> (h: Option<Hit>)
        requires
            self.wf(),
            ray_ok(ray@),
        ensures
            h is Some <==> self.hit_model(ray@) is Some,
            h matches Some(hh) ==> self.hit_model(ray@) == Some(hh@),
    {
        let lim: i64 = COORD_LIMIT;
        let mx = ray.o.x - self.center.x;
        let my = ray.o.y - self.center.y;
        let mz = ray.o.z - self.center.z;
        proof {
            lemma_unit_components(ray@.d);
            lemma_mul_bound2(mx as int, ray@.d.x, 2 * lim as int, 1);
            lemma_mul_bound2(my as int, ray@.d.y, 2 * lim as int, 1);
            lemma_mul_bound2(mz as int, ray@.d.z, 2 * lim as int, 1);
            lemma_mul_bound(mx as int, mx as int, 2 * lim as int);
            lemma_mul_bound(my as int, my as int, 2 * lim as int);
            lemma_mul_bound(mz as int, mz as int, 2 * lim as int);
            lemma_mul_bound(self.radius as int, self.radius as int, lim as int);
        }
        let b = mx * ray.d.x + my * ray.d.y + mz * ray.d.z;
        let c = mx * mx + my * my + mz * mz - self.radius * self.radius;
        if c > 0 && b > 0 {
            return None;
        }
        proof {
            lemma_mul_bound(b as int, b as int, 6 * lim as int);
        }
        let disc = b * b - c;
        if disc < 0 {
            return None;
        }
        let s64 = isqrt(disc as u64);
        proof {
            assert(s64 <= 7 * lim as u64) by (nonlinear_arith)
                requires
                    s64 * s64 <= disc as u64,
                    disc as u64 <= 49 * (lim as u64) * (lim as u64),
                    lim as u64 >= 1,
            ;
        }
        let s = s64 as i64;
        let mut t = -b - s;
        if t < 0 {
            t = 0;
        }
        proof {
            lemma_mul_bound2(ray@.d.x, t as int, 1, 13 * lim as int);
            lemma_mul_bound2(ray@.d.y, t as int, 1, 13 * lim as int);
            lemma_mul_bound2(ray@.d.z, t as int, 1, 13 * lim as int);
        }
        let point = Point {
            x: ray.o.x + ray.d.x * t,
            y: ray.o.y + ray.d.y * t,
            z: ray.o.z + ray.d.z * t,
        };
        let normal = crate::math::normal::Normal {
            x: point.x - self.center.x,
            y: point.y - self.center.y,
            z: point.z - self.center.z,
        };
        Some(Hit { t, point, normal })
    }
}

} // verus!
