use crate::error::KernelError;
use crate::math::model::{cross3, dot3, in_range, norm_sq, vscale, vzero, Vec3};
use crate::math::number::{gcd3, sqrt_floor};
use vstd::prelude::*;

verus! {

/// The floor of the Euclidean length.
pub trait Len: View<V = Vec3> {
    fn len(&self) -> (r: i64)
        requires
            in_range(self.view()),
        ensures
            r == sqrt_floor(norm_sq(self.view())),
    ;
}

/// The squared Euclidean length, exactly.
pub trait LenSq: View<V = Vec3> {
    fn len_sq(&self) -> (r: i64)
        requires
            in_range(self.view()),
        ensures
            r == norm_sq(self.view()),
    ;
}

/// The inner product with another 3-component value, exactly.
pub trait Dot<Rhs: View<V = Vec3>>: View<V = Vec3> {
    fn dot(&self, rhs: Rhs) -> (r: i64)
        requires
            in_range(self.view()),
            in_range(rhs.view()),
        ensures
            r == dot3(self.view(), rhs.view()),
    ;
}

/// The right-handed cross product with another 3-component value, exactly.
pub trait Cross<Rhs: View<V = Vec3>>: View<V = Vec3> {
    type Output: View<V = Vec3>;

    fn cross(&self, rhs: Rhs) -> (r: Self::Output)
        requires
            in_range(self.view()),
            in_range(rhs.view()),
        ensures
            r.view() == cross3(self.view(), rhs.view()),
    ;
}

/// Reduction of a value to its canonical primitive direction.
///
/// Exact integer coordinates admit no unit vector along an arbitrary
/// direction, so normalization divides the components by their greatest
/// common divisor: the result is the shortest integer value pointing the
/// same way.  Normalizing zero fails with `DivisionByZero`; it never
/// silently returns a zero value.
pub trait Normalize: View<V = Vec3> {
    type Output: View<V = Vec3>;

    fn normalize(&self) -> (r: Result<Self::Output, KernelError>)
        requires
            in_range(self.view()),
        ensures
            r is Err <==> self.view() == vzero(),
            r matches Err(e) ==> e == KernelError::DivisionByZero,
            r matches Ok(u) ==> vscale(u.view(), gcd3(self.view()) as int) == self.view()
                && in_range(u.view()),
    ;
}

} // verus!
