use crate::error::KernelError;
use crate::math::model::{
    fits_i64, in_range, lemma_mul_bound, lemma_norm_sq_nonneg, vadd, vneg, vscale, vzero, Vec3,
    COORD_LIMIT,
};
use crate::math::number::{div_exact_i64, gcd_u64, isqrt, lemma_gcd3_divides};
use crate::math::traits::{Dot, Len, LenSq, Normalize};
use crate::math::vector::Vector;
use vstd::math::abs;
use vstd::prelude::*;

verus! {

/// A surface-orientation direction; implicitly the homogeneous column
/// vector `(x, y, z, 0)`.
///
/// A normal is kept distinct from a `Vector` because it transforms
/// differently: the geometrically correct transform of a normal uses the
/// inverse transpose of the matrix applied to vectors.
#[derive(Clone, Copy, Debug, PartialEq, Eq, Structural)]
pub struct Normal {
    pub x: i64,
    pub y: i64,
    pub z: i64,
}

impl View for Normal {
    type V = Vec3;

    open spec fn view(&self) -> Vec3 {
        Vec3 { x: self.x as int, y: self.y as int, z: self.z as int }
    }
}

impl Normal {
    /// Construct a normal from its `(x, y, z)` coordinates.
    pub fn new(x: i64, y: i64, z: i64) -> (n: Normal)
        ensures
            n.x == x && n.y == y && n.z == z,
    {
        Normal { x, y, z }
    }

    /// Component-wise sum of two normals.
    pub fn add(self, n: Normal) -> (r: Normal)
        requires
            fits_i64(self@.x + n@.x),
            fits_i64(self@.y + n@.y),
            fits_i64(self@.z + n@.z),
        ensures
            r@ == vadd(self@, n@),
    {
        Normal { x: self.x + n.x, y: self.y + n.y, z: self.z + n.z }
    }

    /// Sum of a normal and a vector, as a vector.
    pub fn add_vector(self, v: Vector) -> (r: Vector)
        requires
            fits_i64(self@.x + v@.x),
            fits_i64(self@.y + v@.y),
            fits_i64(self@.z + v@.z),
        ensures
            r@ == vadd(self@, v@),
    {
        Vector { x: self.x + v.x, y: self.y + v.y, z: self.z + v.z }
    }

    /// The opposite normal.
    pub fn neg(self) -> (r: Normal)
        requires
            fits_i64(-self@.x),
            fits_i64(-self@.y),
            fits_i64(-self@.z),
        ensures
            r@ == vneg(self@),
    {
        Normal { x: -self.x, y: -self.y, z: -self.z }
    }

    /// The normal scaled by an integer factor.
    pub fn scale(self, factor: i64) -> (r: Normal)
        requires
            in_range(self@),
            -COORD_LIMIT <= factor <= COORD_LIMIT,
        ensures
            r@ == vscale(self@, factor as int),
    {
        proof {
            lemma_mul_bound(self@.x, factor as int, COORD_LIMIT as int);
            lemma_mul_bound(self@.y, factor as int, COORD_LIMIT as int);
            lemma_mul_bound(self@.z, factor as int, COORD_LIMIT as int);
        }
        Normal { x: self.x * factor, y: self.y * factor, z: self.z * factor }
    }
}

impl Dot<Vector> for Normal {
    /// The dot product of a normal and a vector.
    fn dot(&self, rhs: Vector) -> (r: i64) {
        proof {
            lemma_mul_bound(self@.x, rhs@.x, COORD_LIMIT as int);
            lemma_mul_bound(self@.y, rhs@.y, COORD_LIMIT as int);
            lemma_mul_bound(self@.z, rhs@.z, COORD_LIMIT as int);
        }
        self.x * rhs.x + self.y * rhs.y + self.z * rhs.z
    }
}

impl LenSq for Normal {
    /// The squared length `x*x + y*y + z*z`.
    fn len_sq(&self) -> (r: i64) {
        proof {
            lemma_mul_bound(self@.x, self@.x, COORD_LIMIT as int);
            lemma_mul_bound(self@.y, self@.y, COORD_LIMIT as int);
            lemma_mul_bound(self@.z, self@.z, COORD_LIMIT as int);
        }
        self.x * self.x + self.y * self.y + self.z * self.z
    }
}

impl Len for Normal {
    /// The floor of the Euclidean length.
    fn len(&self) -> (r: i64) {
        proof {
            lemma_norm_sq_nonneg(self@);
        }
        let sq = self.len_sq();
        let root = isqrt(sq as u64);
        proof {
            assert(root <= 0xffff_ffffu64) by (nonlinear_arith)
                requires root * root <= sq as u64, sq as u64 <= i64::MAX as u64;
        }
        root as i64
    }
}

impl Normalize for Normal {
    type Output = Normal;

    /// Reduce the normal to its canonical primitive direction by dividing
    /// out the greatest common divisor of the component magnitudes.
    fn normalize(&self) -> (r: Result<Normal, KernelError>) {
        if self.x == 0 && self.y == 0 && self.z == 0 {
            Err(KernelError::DivisionByZero)
        } else {
            proof {
                lemma_gcd3_divides(self@);
            }
            let ax: u64 = if self.x < 0 { (-self.x) as u64 } else { self.x as u64 };
            let ay: u64 = if self.y < 0 { (-self.y) as u64 } else { self.y as u64 };
            let az: u64 = if self.z < 0 { (-self.z) as u64 } else { self.z as u64 };
            proof {
                assert(ax as nat == abs(self@.x));
                assert(ay as nat == abs(self@.y));
                assert(az as nat == abs(self@.z));
            }
            let g64 = gcd_u64(gcd_u64(ax, ay), az);
            proof {
                assert(g64 as nat == crate::math::number::gcd3(self@));
                assert(g64 <= COORD_LIMIT as u64);
            }
            let g = g64 as i64;
            let u = Normal {
                x: div_exact_i64(self.x, g),
                y: div_exact_i64(self.y, g),
                z: div_exact_i64(self.z, g),
            };
            Ok(u)
        }
    }
}

} // verus!
