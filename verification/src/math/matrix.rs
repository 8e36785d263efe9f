use crate::error::KernelError;
use crate::math::model::{
    dot3, in_range, lemma_dot_symmetric, lemma_mul_bound, Vec3, COORD_LIMIT,
};
use crate::math::normal::Normal;
use crate::math::number::{div_trunc, div_trunc_i64};
use crate::math::point::Point;
use crate::math::ray::Ray;
use crate::math::traits::Dot;
use crate::math::vector::Vector;
use vstd::prelude::*;

verus! {

/// The matrix model: a row-major sequence of 16 unbounded integers.
/// Element `(i, j)` of the model `m` is `m[i*4 + j]`.
pub open spec fn ment(m: Seq<int>, i: int, j: int) -> int {
    m[i * 4 + j]
}

/// The model of the multiplicative identity: ones on the diagonal
/// (row-major offsets 0, 5, 10 and 15), zeroes elsewhere.
pub open spec fn mat_identity() -> Seq<int> {
    Seq::new(16, |k: int| if k == 0 || k == 5 || k == 10 || k == 15 { 1 } else { 0 })
}

/// The standard row-by-column product of two 4x4 matrices.
pub open spec fn mat_mul(a: Seq<int>, b: Seq<int>) -> Seq<int> {
    Seq::new(
        16,
        |k: int|
            ment(a, k / 4, 0) * ment(b, 0, k % 4) + ment(a, k / 4, 1) * ment(b, 1, k % 4) + ment(
                a,
                k / 4,
                2,
            ) * ment(b, 2, k % 4) + ment(a, k / 4, 3) * ment(b, 3, k % 4),
    )
}

/// The transpose: element `(i, j)` becomes element `(j, i)`.
pub open spec fn mat_transpose(a: Seq<int>) -> Seq<int> {
    Seq::new(16, |k: int| ment(a, k % 4, k / 4))
}

/// Every entry scaled by `s`: a uniform scale of the matrix's entries,
/// distinct from a geometric scale transform.
pub open spec fn mat_scale(a: Seq<int>, s: int) -> Seq<int> {
    Seq::new(16, |k: int| a[k] * s)
}

/// Row `i` of the model with its fourth column dropped, for directional use.
pub open spec fn mat_row_vec(a: Seq<int>, i: int) -> Vec3 {
    Vec3 { x: a[i * 4], y: a[i * 4 + 1], z: a[i * 4 + 2] }
}

/// The upper-left 3x3 block applied to a direction; the translation
/// column is ignored because a direction has homogeneous weight 0.
pub open spec fn mat_apply_vec(a: Seq<int>, v: Vec3) -> Vec3 {
    Vec3 {
        x: dot3(mat_row_vec(a, 0), v),
        y: dot3(mat_row_vec(a, 1), v),
        z: dot3(mat_row_vec(a, 2), v),
    }
}

/// Row `i` of the full homogeneous transform applied to the point `p`
/// taken with weight 1: the 3x3 block times `p` plus the translation entry.
pub open spec fn mat_apply_point_row(a: Seq<int>, p: Vec3, i: int) -> int {
    dot3(mat_row_vec(a, i), p) + a[i * 4 + 3]
}

/// Whether the model is a 4x4 matrix with every entry within `COORD_LIMIT`.
pub open spec fn mat_in_range(a: Seq<int>) -> bool {
    a.len() == 16 && forall|k: int| 0 <= k < 16 ==> -(COORD_LIMIT as int) <= #[trigger] a[k] <= (
    COORD_LIMIT as int)
}

/// The identity is a left identity of matrix multiplication.
pub proof fn lemma_identity_left(m: Seq<int>)
    requires
        m.len() == 16,
    ensures
        mat_mul(mat_identity(), m) == m,
{
    let p = mat_mul(mat_identity(), m);
    assert forall|k: int| 0 <= k < 16 implies p[k] == m[k] by {
        vstd::arithmetic::div_mod::lemma_fundamental_div_mod(k, 4);
    }
    assert(mat_mul(mat_identity(), m) =~= m);
}

/// The identity is a right identity of matrix multiplication.
pub proof fn lemma_identity_right(m: Seq<int>)
    requires
        m.len() == 16,
    ensures
        mat_mul(m, mat_identity()) == m,
{
    let p = mat_mul(m, mat_identity());
    assert forall|k: int| 0 <= k < 16 implies p[k] == m[k] by {
        vstd::arithmetic::div_mod::lemma_fundamental_div_mod(k, 4);
    }
    assert(mat_mul(m, mat_identity()) =~= m);
}

/// Transposing twice gives the original matrix back.
pub proof fn lemma_transpose_involution(m: Seq<int>)
    requires
        m.len() == 16,
    ensures
        mat_transpose(mat_transpose(m)) == m,
{
    assert(mat_transpose(mat_transpose(m)) =~= m);
}

/// A row-major 4x4 transform matrix.
///
/// Composition convention: `a.multiply(&b)` is the matrix product `A*B`,
/// and matrices apply to column values from the left, so in the composite
/// `A*B` the transform `B` is applied first.  Every apply-to-X operation
/// below uses this same convention.
#[derive(Clone, Copy, Debug)]
pub struct Matrix {
    pub m: [i64; 16],
}

impl View for Matrix {
    type V = Seq<int>;

    open spec fn view(&self) -> Seq<int> {
        Seq::new(16, |k: int| self.m@[k] as int)
    }
}

impl Matrix {
    /// A new matrix, initialized to the identity.
    pub fn new() -> (r: Matrix)
        ensures
            r@ == mat_identity(),
    {
        let r = Matrix { m: [1, 0, 0, 0, 0, 1, 0, 0, 0, 0, 1, 0, 0, 0, 0, 1] };
        proof {
            assert(r@ =~= mat_identity());
        }
        r
    }

    /// The multiplicative identity for composition.
    pub fn identity() -> (r: Matrix)
        ensures
            r@ == mat_identity(),
    {
        Matrix::new()
    }

    /// Element `(row i, column j)`, bounds-checked: any access outside
    /// `[0, 4) x [0, 4)` fails with `IndexOutOfRange`.
    pub fn at(&self, i: usize, j: usize) -> (r: Result<i64, KernelError>)
        ensures
            i < 4 && j < 4 ==> r == Ok::<i64, KernelError>(self.m@[i * 4 + j]),
            !(i < 4 && j < 4) ==> r == Err::<i64, KernelError>(KernelError::IndexOutOfRange),
    {
        if i < 4 && j < 4 {
            Ok(self.m[i * 4 + j])
        } else {
            Err(KernelError::IndexOutOfRange)
        }
    }

    /// Overwrite the whole matrix, one 4-tuple per row, in row order.
    pub fn set(
        &mut self,
        row1: (i64, i64, i64, i64),
        row2: (i64, i64, i64, i64),
        row3: (i64, i64, i64, i64),
        row4: (i64, i64, i64, i64),
    )
        ensures
            final (self)@ =~= seq![
                row1.0 as int, row1.1 as int, row1.2 as int, row1.3 as int,
                row2.0 as int, row2.1 as int, row2.2 as int, row2.3 as int,
                row3.0 as int, row3.1 as int, row3.2 as int, row3.3 as int,
                row4.0 as int, row4.1 as int, row4.2 as int, row4.3 as int,
            ],
    {
        self.m = [
            row1.0, row1.1, row1.2, row1.3,
            row2.0, row2.1, row2.2, row2.3,
            row3.0, row3.1, row3.2, row3.3,
            row4.0, row4.1, row4.2, row4.3,
        ];
    }

    /// Row `i` as a 4-tuple.
    pub fn get_row(&self, i: usize) -> (r: (i64, i64, i64, i64))
        requires
            i < 4,
        ensures
            r.0 == self.m@[i * 4],
            r.1 == self.m@[i * 4 + 1],
            r.2 == self.m@[i * 4 + 2],
            r.3 == self.m@[i * 4 + 3],
    {
        (self.m[i * 4], self.m[i * 4 + 1], self.m[i * 4 + 2], self.m[i * 4 + 3])
    }

    /// Row `i` as a 3-dimensional vector: the fourth column is dropped,
    /// as when a direction with homogeneous weight 0 is transformed.
    pub fn get_row_as_vector(&self, i: usize) -> (r: Vector)
        requires
            i < 4,
        ensures
            r@ == mat_row_vec(self@, i as int),
    {
        Vector { x: self.m[i * 4], y: self.m[i * 4 + 1], z: self.m[i * 4 + 2] }
    }

    /// The transpose: entry `(i, j)` swapped with entry `(j, i)`.
    pub fn transpose(&self) -> (r: Matrix)
        ensures
            r@ == mat_transpose(self@),
    {
        let r = Matrix {
            m: [
                self.m[0], self.m[4], self.m[8], self.m[12],
                self.m[1], self.m[5], self.m[9], self.m[13],
                self.m[2], self.m[6], self.m[10], self.m[14],
                self.m[3], self.m[7], self.m[11], self.m[15],
            ],
        };
        proof {
            assert(r@ =~= mat_transpose(self@));
        }
        r
    }

    /// One row-by-column entry of the product of two matrices.
    fn product_entry(&self, other: &Matrix, i: usize, j: usize) -> (r: i64)
        requires
            mat_in_range(self@),
            mat_in_range(other@),
            i < 4,
            j < 4,
        ensures
            r == ment(self@, i as int, 0) * ment(other@, 0, j as int) + ment(self@, i as int, 1)
                * ment(other@, 1, j as int) + ment(self@, i as int, 2) * ment(other@, 2, j as int)
                + ment(self@, i as int, 3) * ment(other@, 3, j as int),
    {
        proof {
            lemma_mul_bound(self@[i * 4], other@[j as int], COORD_LIMIT as int);
            lemma_mul_bound(self@[i * 4 + 1], other@[4 + j], COORD_LIMIT as int);
            lemma_mul_bound(self@[i * 4 + 2], other@[8 + j], COORD_LIMIT as int);
            lemma_mul_bound(self@[i * 4 + 3], other@[12 + j], COORD_LIMIT as int);
        }
        self.m[i * 4] * other.m[j] + self.m[i * 4 + 1] * other.m[4 + j] + self.m[i * 4 + 2]
            * other.m[8 + j] + self.m[i * 4 + 3] * other.m[12 + j]
    }

    /// The standard 4x4 row-by-column product `self * other`.
    /// Composition is non-commutative; `other`'s transform applies first.
    pub fn multiply(&self, other: &Matrix) -> (r: Matrix)
        requires
            mat_in_range(self@),
            mat_in_range(other@),
        ensures
            r@ == mat_mul(self@, other@),
    {
        let r = Matrix {
            m: [
                self.product_entry(other, 0, 0),
                self.product_entry(other, 0, 1),
                self.product_entry(other, 0, 2),
                self.product_entry(other, 0, 3),
                self.product_entry(other, 1, 0),
                self.product_entry(other, 1, 1),
                self.product_entry(other, 1, 2),
                self.product_entry(other, 1, 3),
                self.product_entry(other, 2, 0),
                self.product_entry(other, 2, 1),
                self.product_entry(other, 2, 2),
                self.product_entry(other, 2, 3),
                self.product_entry(other, 3, 0),
                self.product_entry(other, 3, 1),
                self.product_entry(other, 3, 2),
                self.product_entry(other, 3, 3),
            ],
        };
        proof {
            assert(r@ =~= mat_mul(self@, other@));
        }
        r
    }

    /// Every entry multiplied by the scalar `k`.
    pub fn scale_by_scalar(&self, k: i64) -> (r: Matrix)
        requires
            mat_in_range(self@),
            -COORD_LIMIT <= k <= COORD_LIMIT,
        ensures
            r@ == mat_scale(self@, k as int),
    {
        let mut m: [i64; 16] = [0; 16];
        let mut idx: usize = 0;
        while idx < 16
            invariant
                idx <= 16,
                mat_in_range(self@),
                -COORD_LIMIT <= k <= COORD_LIMIT,
                m@.len() == 16,
                forall|n: int| 0 <= n < idx ==> m@[n] as int == #[trigger] (self@[n] * k as int),
            decreases 16 - idx,
        {
            proof {
                lemma_mul_bound(self@[idx as int], k as int, COORD_LIMIT as int);
            }
            m[idx] = self.m[idx] * k;
            idx = idx + 1;
        }
        let r = Matrix { m };
        proof {
            assert(r@ =~= mat_scale(self@, k as int));
        }
        r
    }

    /// Transform a direction: the upper-left 3x3 block times `v`, the
    /// translation column ignored (homogeneous weight 0).
    pub fn apply_to_vector(&self, v: Vector) -> (r: Vector)
        requires
            mat_in_range(self@),
            in_range(v@),
        ensures
            r@ == mat_apply_vec(self@, v@),
    {
        proof {
            lemma_dot_symmetric(v@, mat_row_vec(self@, 0));
            lemma_dot_symmetric(v@, mat_row_vec(self@, 1));
            lemma_dot_symmetric(v@, mat_row_vec(self@, 2));
        }
        Vector {
            x: v.dot(self.get_row_as_vector(0)),
            y: v.dot(self.get_row_as_vector(1)),
            z: v.dot(self.get_row_as_vector(2)),
        }
    }

    /// Transform a normal co-variantly, the geometrically correct way:
    /// `self` must be the inverse of the matrix that transforms points
    /// and vectors, and the normal is multiplied by its transpose.  No
    /// integer matrix has an integer inverse in general, so the inverse
    /// is supplied by the caller, who usually composed the transform
    /// from pieces whose inverses are known.
    pub fn apply_inverse_to_normal(&self, n: Normal) -> (r: Normal)
        requires
            mat_in_range(self@),
            in_range(n@),
        ensures
            r@ == mat_apply_vec(mat_transpose(self@), n@),
    {
        proof {
            assert forall|k: int| 0 <= k < 16 implies -(COORD_LIMIT as int)
                <= #[trigger] mat_transpose(self@)[k] <= COORD_LIMIT as int by {
                assert(0 <= (k % 4) * 4 + k / 4 < 16);
            }
        }
        self.transpose().apply_to_normal_forward(n)
    }

    /// Transform a normal with the forward matrix, exactly as vectors are
    /// transformed.  This is a compatibility path: the geometrically
    /// correct normal transform uses the inverse transpose, as
    /// `apply_inverse_to_normal` does.
    pub fn apply_to_normal_forward(&self, n: Normal) -> (r: Normal)
        requires
            mat_in_range(self@),
            in_range(n@),
        ensures
            r@ == mat_apply_vec(self@, n@),
    {
        proof {
            lemma_dot_symmetric(n@, mat_row_vec(self@, 0));
            lemma_dot_symmetric(n@, mat_row_vec(self@, 1));
            lemma_dot_symmetric(n@, mat_row_vec(self@, 2));
        }
        Normal {
            x: n.dot(self.get_row_as_vector(0)),
            y: n.dot(self.get_row_as_vector(1)),
            z: n.dot(self.get_row_as_vector(2)),
        }
    }

    /// Transform an affine position: the full homogeneous transform of
    /// `(p.x, p.y, p.z, 1)` followed by the perspective divide by the
    /// resulting weight `w`.  A zero `w` is rejected with
    /// `DivisionByZero`; the divide truncates toward zero.
    pub fn apply_to_point(&self, p: Point) -> (r: Result<Point, KernelError>)
        requires
            mat_in_range(self@),
            in_range(p@),
        ensures
            mat_apply_point_row(self@, p@, 3) == 0 ==> r == Err::<Point, KernelError>(
                KernelError::DivisionByZero,
            ),
            mat_apply_point_row(self@, p@, 3) != 0 ==> (r matches Ok(q) && q@ == Vec3 {
                x: div_trunc(
                    mat_apply_point_row(self@, p@, 0),
                    mat_apply_point_row(self@, p@, 3),
                ),
                y: div_trunc(
                    mat_apply_point_row(self@, p@, 1),
                    mat_apply_point_row(self@, p@, 3),
                ),
                z: div_trunc(
                    mat_apply_point_row(self@, p@, 2),
                    mat_apply_point_row(self@, p@, 3),
                ),
            }),
    {
        let x = self.point_row(p, 0);
        let y = self.point_row(p, 1);
        let z = self.point_row(p, 2);
        let w = self.point_row(p, 3);
        if w == 0 {
            Err(KernelError::DivisionByZero)
        } else {
            Ok(
                Point {
                    x: div_trunc_i64(x, w),
                    y: div_trunc_i64(y, w),
                    z: div_trunc_i64(z, w),
                },
            )
        }
    }

    /// One row of the homogeneous transform of a weight-1 point.
    fn point_row(&self, p: Point, i: usize) -> (r: i64)
        requires
            mat_in_range(self@),
            in_range(p@),
            i < 4,
        ensures
            r == mat_apply_point_row(self@, p@, i as int),
            -(3 * COORD_LIMIT as int * COORD_LIMIT as int + COORD_LIMIT as int) <= r
                <= 3 * COORD_LIMIT as int * COORD_LIMIT as int + COORD_LIMIT as int,
    {
        let a0 = self.m[i * 4];
        let a1 = self.m[i * 4 + 1];
        let a2 = self.m[i * 4 + 2];
        let a3 = self.m[i * 4 + 3];
        proof {
            assert(a0 as int == self@[i * 4]);
            assert(a1 as int == self@[i * 4 + 1]);
            assert(a2 as int == self@[i * 4 + 2]);
            assert(a3 as int == self@[i * 4 + 3]);
            lemma_mul_bound(a0 as int, p@.x, COORD_LIMIT as int);
            lemma_mul_bound(a1 as int, p@.y, COORD_LIMIT as int);
            lemma_mul_bound(a2 as int, p@.z, COORD_LIMIT as int);
        }
        a0 * p.x + a1 * p.y + a2 * p.z + a3
    }

    /// Transform a ray: the origin as a point, the direction as a vector,
    /// independently.  Fails with `DivisionByZero` exactly when the
    /// transformed origin's homogeneous weight is zero.
    pub fn apply_to_ray(&self, r: Ray) -> (t: Result<Ray, KernelError>)
        requires
            mat_in_range(self@),
            in_range(r@.o),
            in_range(r@.d),
        ensures
            mat_apply_point_row(self@, r@.o, 3) == 0 ==> t == Err::<Ray, KernelError>(
                KernelError::DivisionByZero,
            ),
            mat_apply_point_row(self@, r@.o, 3) != 0 ==> (t matches Ok(q) && q.d@ == mat_apply_vec(
                self@,
                r@.d,
            ) && q.o@ == Vec3 {
                x: div_trunc(
                    mat_apply_point_row(self@, r@.o, 0),
                    mat_apply_point_row(self@, r@.o, 3),
                ),
                y: div_trunc(
                    mat_apply_point_row(self@, r@.o, 1),
                    mat_apply_point_row(self@, r@.o, 3),
                ),
                z: div_trunc(
                    mat_apply_point_row(self@, r@.o, 2),
                    mat_apply_point_row(self@, r@.o, 3),
                ),
            }),
    {
        match self.apply_to_point(r.o) {
            Ok(o) => Ok(Ray { o, d: self.apply_to_vector(r.d) }),
            Err(e) => Err(e),
        }
    }
}

} // verus!
