use crate::error::KernelError;
use crate::math::model::{
    cross3, dot3, fits_i64, in_range, lemma_mul_bound, lemma_norm_sq_nonneg, norm_sq, vadd, vneg,
    vscale, vsub, vzero, Vec3, COORD_LIMIT,
};
use crate::math::normal::Normal;
use crate::math::number::{div_exact_i64, gcd_u64, isqrt, lemma_gcd3_divides};
use crate::math::traits::{Cross, Dot, Len, LenSq, Normalize};
use vstd::math::abs;
use vstd::prelude::*;

verus! {

/// A free 3-dimensional direction; implicitly the homogeneous column
/// vector `(x, y, z, 0)`, so translations never move it.
#[derive(Clone, Copy, Debug, PartialEq, Eq, Structural)]
pub struct Vector {
    pub x: i64,
    pub y: i64,
    pub z: i64,
}

impl View for Vector {
    type V = Vec3;

    open spec fn view(&self) -> Vec3 {
        Vec3 { x: self.x as int, y: self.y as int, z: self.z as int }
    }
}

impl Default for Vector {
    /// The zero vector.
    fn default() -> (r: Vector)
        ensures
            r@ == vzero(),
    {
        Vector { x: 0, y: 0, z: 0 }
    }
}

impl Vector {
    /// The zero vector.
    pub fn zero() -> (v: Vector)
        ensures
            v.x == 0 && v.y == 0 && v.z == 0,
    {
        Vector { x: 0, y: 0, z: 0 }
    }

    /// The unit vector along the x axis.
    pub fn x_axis() -> (v: Vector)
        ensures
            v.x == 1 && v.y == 0 && v.z == 0,
    {
        Vector { x: 1, y: 0, z: 0 }
    }

    /// The unit vector along the y axis.
    pub fn y_axis() -> (v: Vector)
        ensures
            v.x == 0 && v.y == 1 && v.z == 0,
    {
        Vector { x: 0, y: 1, z: 0 }
    }

    /// The unit vector along the z axis.
    pub fn z_axis() -> (v: Vector)
        ensures
            v.x == 0 && v.y == 0 && v.z == 1,
    {
        Vector { x: 0, y: 0, z: 1 }
    }

    /// Construct a vector from its `(x, y, z)` coordinates.
    pub fn new(x: i64, y: i64, z: i64) -> (v: Vector)
        ensures
            v.x == x && v.y == y && v.z == z,
    {
        Vector { x, y, z }
    }

    /// Component-wise sum of two vectors.
    pub fn add(self, v: Vector) -> (r: Vector)
        requires
            fits_i64(self@.x + v@.x),
            fits_i64(self@.y + v@.y),
            fits_i64(self@.z + v@.z),
        ensures
            r@ == vadd(self@, v@),
    {
        Vector { x: self.x + v.x, y: self.y + v.y, z: self.z + v.z }
    }

    /// Sum of a vector and a normal, as a vector.
    pub fn add_normal(self, n: Normal) -> (r: Vector)
        requires
            fits_i64(self@.x + n@.x),
            fits_i64(self@.y + n@.y),
            fits_i64(self@.z + n@.z),
        ensures
            r@ == vadd(self@, n@),
    {
        Vector { x: self.x + n.x, y: self.y + n.y, z: self.z + n.z }
    }

    /// Component-wise difference of two vectors.
    pub fn sub(self, v: Vector) -> (r: Vector)
        requires
            fits_i64(self@.x - v@.x),
            fits_i64(self@.y - v@.y),
            fits_i64(self@.z - v@.z),
        ensures
            r@ == vsub(self@, v@),
    {
        Vector { x: self.x - v.x, y: self.y - v.y, z: self.z - v.z }
    }

    /// The opposite vector.
    pub fn neg(self) -> (r: Vector)
        requires
            fits_i64(-self@.x),
            fits_i64(-self@.y),
            fits_i64(-self@.z),
        ensures
            r@ == vneg(self@),
    {
        Vector { x: -self.x, y: -self.y, z: -self.z }
    }

    /// The vector scaled by an integer factor.
    pub fn scale(self, factor: i64) -> (r: Vector)
        requires
            in_range(self@),
            -COORD_LIMIT <= factor <= COORD_LIMIT,
        ensures
            r@ == vscale(self@, factor as int),
    {
        proof {
            lemma_mul_bound(self@.x, factor as int, COORD_LIMIT as int);
            lemma_mul_bound(self@.y, factor as int, COORD_LIMIT as int);
            lemma_mul_bound(self@.z, factor as int, COORD_LIMIT as int);
        }
        Vector { x: self.x * factor, y: self.y * factor, z: self.z * factor }
    }
}

impl Dot<Vector> for Vector {
    /// The dot product `x1*x2 + y1*y2 + z1*z2` of two vectors.
    fn dot(&self, rhs: Vector) -> (r: i64) {
        proof {
            lemma_mul_bound(self@.x, rhs@.x, COORD_LIMIT as int);
            lemma_mul_bound(self@.y, rhs@.y, COORD_LIMIT as int);
            lemma_mul_bound(self@.z, rhs@.z, COORD_LIMIT as int);
        }
        self.x * rhs.x + self.y * rhs.y + self.z * rhs.z
    }
}

impl Dot<Normal> for Vector {
    /// The dot product of a vector and a normal.
    fn dot(&self, rhs: Normal) -> (r: i64) {
        proof {
            lemma_mul_bound(self@.x, rhs@.x, COORD_LIMIT as int);
            lemma_mul_bound(self@.y, rhs@.y, COORD_LIMIT as int);
            lemma_mul_bound(self@.z, rhs@.z, COORD_LIMIT as int);
        }
        self.x * rhs.x + self.y * rhs.y + self.z * rhs.z
    }
}

impl Cross<Vector> for Vector {
    type Output = Vector;

    /// The right-handed cross product of two vectors.
    fn cross(&self, rhs: Vector) -> (r: Vector) {
        proof {
            lemma_mul_bound(self@.x, rhs@.y, COORD_LIMIT as int);
            lemma_mul_bound(self@.x, rhs@.z, COORD_LIMIT as int);
            lemma_mul_bound(self@.y, rhs@.x, COORD_LIMIT as int);
            lemma_mul_bound(self@.y, rhs@.z, COORD_LIMIT as int);
            lemma_mul_bound(self@.z, rhs@.x, COORD_LIMIT as int);
            lemma_mul_bound(self@.z, rhs@.y, COORD_LIMIT as int);
        }
        Vector {
            x: self.y * rhs.z - self.z * rhs.y,
            y: self.z * rhs.x - self.x * rhs.z,
            z: self.x * rhs.y - self.y * rhs.x,
        }
    }
}

impl LenSq for Vector {
    /// The squared length `x*x + y*y + z*z`.
    fn len_sq(&self) -> (r: i64) {
        proof {
            lemma_mul_bound(self@.x, self@.x, COORD_LIMIT as int);
            lemma_mul_bound(self@.y, self@.y, COORD_LIMIT as int);
            lemma_mul_bound(self@.z, self@.z, COORD_LIMIT as int);
        }
        self.x * self.x + self.y * self.y + self.z * self.z
    }
}

impl Len for Vector {
    /// The floor of the Euclidean length.
    fn len(&self) -> (r: i64) {
        proof {
            lemma_norm_sq_nonneg(self@);
        }
        let sq = self.len_sq();
        let root = isqrt(sq as u64);
        proof {
            assert(root <= 0xffff_ffffu64) by (nonlinear_arith)
                requires root * root <= sq as u64, sq as u64 <= i64::MAX as u64;
        }
        root as i64
    }
}

impl Normalize for Vector {
    type Output = Vector;

    /// Reduce the vector to its canonical primitive direction by dividing
    /// out the greatest common divisor of the component magnitudes.
    fn normalize(&self) -> (r: Result<Vector, KernelError>) {
        if self.x == 0 && self.y == 0 && self.z == 0 {
            Err(KernelError::DivisionByZero)
        } else {
            proof {
                lemma_gcd3_divides(self@);
            }
            let ax: u64 = if self.x < 0 { (-self.x) as u64 } else { self.x as u64 };
            let ay: u64 = if self.y < 0 { (-self.y) as u64 } else { self.y as u64 };
            let az: u64 = if self.z < 0 { (-self.z) as u64 } else { self.z as u64 };
            proof {
                assert(ax as nat == abs(self@.x));
                assert(ay as nat == abs(self@.y));
                assert(az as nat == abs(self@.z));
            }
            let g64 = gcd_u64(gcd_u64(ax, ay), az);
            proof {
                assert(g64 as nat == crate::math::number::gcd3(self@));
                assert(g64 <= COORD_LIMIT as u64);
            }
            let g = g64 as i64;
            let u = Vector {
                x: div_exact_i64(self.x, g),
                y: div_exact_i64(self.y, g),
                z: div_exact_i64(self.z, g),
            };
            Ok(u)
        }
    }
}

} // verus!
