use crate::math::model::{in_range, norm_sq, Vec3};
use crate::math::normal::Normal;
use crate::math::point::Point;
use crate::math::ray::{Ray, Ray3};
use crate::scene::plane::Plane;
use crate::scene::sphere::Sphere;
use vstd::prelude::*;

verus! {

/// The mathematical model of an intersection record.
pub ghost struct Hit3 {
    pub t: int,
    pub point: Vec3,
    pub normal: Vec3,
}

/// A successful ray–primitive intersection: the ray parameter, the
/// intersection point `o + d*t`, and the surface normal there.
#[derive(Clone, Copy, Debug, PartialEq, Eq, Structural)]
pub struct Hit {
    /// The ray parameter at the intersection.
    pub t: i64,
    /// The intersection point.
    pub point: Point,
    /// The surface normal at the intersection point.
    pub normal: Normal,
}

impl View for Hit {
    type V = Hit3;

    open spec fn view(&self) -> Hit3 {
        Hit3 { t: self.t as int, point: self.point@, normal: self.normal@ }
    }
}

/// A ray the intersection routines accept: origin and direction within
/// the coordinate range and the direction of unit squared length.  The
/// sphere formula is unit-direction-sensitive, so unit length is enforced
/// here rather than assumed silently.
pub open spec fn ray_ok(r: Ray3) -> bool {
    &&& in_range(r.o)
    &&& in_range(r.d)
    &&& norm_sq(r.d) == 1
}

/// A shape that can report the nearest positive-parameter intersection
/// with a ray: a closed set of variants, matched explicitly.
#[derive(Clone, Copy, Debug)]
pub enum Primitive {
    Sphere(Sphere),
    Plane(Plane),
}

impl Primitive {
    /// The shape's own well-formedness condition.
    pub open spec fn wf(self) -> bool {
        match self {
            Primitive::Sphere(s) => s.wf(),
            Primitive::Plane(p) => p.wf(),
        }
    }

    /// The model of the intersection this primitive reports for `r`.
    pub open spec fn hit_model(self, r: Ray3) -> Option<Hit3> {
        match self {
            Primitive::Sphere(s) => s.hit_model(r),
            Primitive::Plane(p) => p.hit_model(r),
        }
    }

    /// The nearest positive-parameter intersection of the ray with this
    /// primitive, if any.
    pub fn hit(&self, ray: &Ray) -> (h: Option<Hit>)
        requires
            self.wf(),
            ray_ok(ray@),
        ensures
            h is Some <==> self.hit_model(ray@) is Some,
            h matches Some(hh) ==> self.hit_model(ray@) == Some(hh@),
    {
        match self {
            Primitive::Sphere(s) => s.hit(ray),
            Primitive::Plane(p) => p.hit(ray),
        }
    }
}

} // verus!
