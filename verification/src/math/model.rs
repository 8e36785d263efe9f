use vstd::prelude::*;

verus! {

/// The mathematical model of every 3-component quantity in the kernel:
/// a triple of unbounded integers.  Executable vectors, points and
/// normals all view to a `Vec3`, and every contract is stated over it.
pub ghost struct Vec3 {
    pub x: int,
    pub y: int,
    pub z: int,
}

/// Executable coordinates are kept within this bound before any
/// multiplicative operation, so that dot products, cross products and
/// matrix entries provably fit in an `i64`.
pub const COORD_LIMIT: i64 = 0x10_0000;

/// Whether every component of `v` lies within `COORD_LIMIT`.
pub open spec fn in_range(v: Vec3) -> bool {
    &&& -(COORD_LIMIT as int) <= v.x <= COORD_LIMIT as int
    &&& -(COORD_LIMIT as int) <= v.y <= COORD_LIMIT as int
    &&& -(COORD_LIMIT as int) <= v.z <= COORD_LIMIT as int
}

/// Whether an unbounded integer fits in the executable scalar type.
pub open spec fn fits_i64(n: int) -> bool {
    i64::MIN <= n <= i64::MAX
}

pub open spec fn vzero() -> Vec3 {
    Vec3 { x: 0, y: 0, z: 0 }
}

pub open spec fn vadd(a: Vec3, b: Vec3) -> Vec3 {
    Vec3 { x: a.x + b.x, y: a.y + b.y, z: a.z + b.z }
}

pub open spec fn vsub(a: Vec3, b: Vec3) -> Vec3 {
    Vec3 { x: a.x - b.x, y: a.y - b.y, z: a.z - b.z }
}

pub open spec fn vneg(a: Vec3) -> Vec3 {
    Vec3 { x: -a.x, y: -a.y, z: -a.z }
}

pub open spec fn vscale(a: Vec3, k: int) -> Vec3 {
    Vec3 { x: a.x * k, y: a.y * k, z: a.z * k }
}

/// The inner product `x1*x2 + y1*y2 + z1*z2`.
pub open spec fn dot3(a: Vec3, b: Vec3) -> int {
    a.x * b.x + a.y * b.y + a.z * b.z
}

/// The right-handed cross product.
pub open spec fn cross3(a: Vec3, b: Vec3) -> Vec3 {
    Vec3 {
        x: a.y * b.z - a.z * b.y,
        y: a.z * b.x - a.x * b.z,
        z: a.x * b.y - a.y * b.x,
    }
}

/// The squared Euclidean length.
pub open spec fn norm_sq(a: Vec3) -> int {
    dot3(a, a)
}

/// `|a*b| <= m*m` whenever both factors are within `m`.
pub proof fn lemma_mul_bound(a: int, b: int, m: int)
    requires
        0 <= m,
        -m <= a <= m,
        -m <= b <= m,
    ensures
        -(m * m) <= a * b <= m * m,
{
    assert(-(m * m) <= a * b <= m * m) by (nonlinear_arith)
        requires 0 <= m, -m <= a <= m, -m <= b <= m;
}

/// `|a*b| <= ma*mb` whenever `|a| <= ma` and `|b| <= mb`.
pub proof fn lemma_mul_bound2(a: int, b: int, ma: int, mb: int)
    requires
        0 <= ma,
        0 <= mb,
        -ma <= a <= ma,
        -mb <= b <= mb,
    ensures
        -(ma * mb) <= a * b <= ma * mb,
{
    assert(-(ma * mb) <= a * b <= ma * mb) by (nonlinear_arith)
        requires 0 <= ma, 0 <= mb, -ma <= a <= ma, -mb <= b <= mb;
}

/// An integer direction of unit squared length lies along one axis:
/// exactly one component is `1` or `-1` and the other two are zero.
pub proof fn lemma_unit_components(d: Vec3)
    requires
        norm_sq(d) == 1,
    ensures
        -1 <= d.x <= 1,
        -1 <= d.y <= 1,
        -1 <= d.z <= 1,
        d.x != 0 ==> d.y == 0 && d.z == 0,
        d.y != 0 ==> d.x == 0 && d.z == 0,
        d.z != 0 ==> d.x == 0 && d.y == 0,
        !(d.x == 0 && d.y == 0 && d.z == 0),
{
    assert(d.x * d.x >= 0 && d.y * d.y >= 0 && d.z * d.z >= 0) by (nonlinear_arith);
    assert(-1 <= d.x <= 1) by (nonlinear_arith)
        requires d.x * d.x <= 1;
    assert(-1 <= d.y <= 1) by (nonlinear_arith)
        requires d.y * d.y <= 1;
    assert(-1 <= d.z <= 1) by (nonlinear_arith)
        requires d.z * d.z <= 1;
    assert(d.x != 0 ==> d.x * d.x >= 1) by (nonlinear_arith);
    assert(d.y != 0 ==> d.y * d.y >= 1) by (nonlinear_arith);
    assert(d.z != 0 ==> d.z * d.z >= 1) by (nonlinear_arith);
    assert(d.x == 0 ==> d.x * d.x == 0) by (nonlinear_arith);
    assert(d.y == 0 ==> d.y * d.y == 0) by (nonlinear_arith);
    assert(d.z == 0 ==> d.z * d.z == 0) by (nonlinear_arith);
}

/// A squared length is never negative.
pub proof fn lemma_norm_sq_nonneg(a: Vec3)
    ensures
        norm_sq(a) >= 0,
{
    assert(a.x * a.x >= 0) by (nonlinear_arith);
    assert(a.y * a.y >= 0) by (nonlinear_arith);
    assert(a.z * a.z >= 0) by (nonlinear_arith);
}

/// The dot product is symmetric: `dot(a, b) == dot(b, a)`.
pub proof fn lemma_dot_symmetric(a: Vec3, b: Vec3)
    ensures
        dot3(a, b) == dot3(b, a),
{
}

/// The dot product is additive in its first argument; together with
/// `lemma_dot_scale` and `lemma_dot_symmetric` this makes it bilinear.
pub proof fn lemma_dot_additive(a: Vec3, b: Vec3, c: Vec3)
    ensures
        dot3(vadd(a, b), c) == dot3(a, c) + dot3(b, c),
{
    assert((a.x + b.x) * c.x == a.x * c.x + b.x * c.x) by (nonlinear_arith);
    assert((a.y + b.y) * c.y == a.y * c.y + b.y * c.y) by (nonlinear_arith);
    assert((a.z + b.z) * c.z == a.z * c.z + b.z * c.z) by (nonlinear_arith);
}

/// The dot product is homogeneous in its first argument.
pub proof fn lemma_dot_scale(a: Vec3, b: Vec3, k: int)
    ensures
        dot3(vscale(a, k), b) == k * dot3(a, b),
{
    assert((a.x * k) * b.x == k * (a.x * b.x)) by (nonlinear_arith);
    assert((a.y * k) * b.y == k * (a.y * b.y)) by (nonlinear_arith);
    assert((a.z * k) * b.z == k * (a.z * b.z)) by (nonlinear_arith);
    assert(k * (a.x * b.x) + k * (a.y * b.y) + k * (a.z * b.z)
        == k * (a.x * b.x + a.y * b.y + a.z * b.z)) by (nonlinear_arith);
}

/// The cross product is anti-commutative: `cross(a, b) == -cross(b, a)`.
pub proof fn lemma_cross_anticommutative(a: Vec3, b: Vec3)
    ensures
        cross3(a, b) == vneg(cross3(b, a)),
{
}

/// The cross product of a vector with itself vanishes.
pub proof fn lemma_cross_self_zero(a: Vec3)
    ensures
        cross3(a, a) == vzero(),
{
}

/// The cross product of parallel vectors vanishes: if `v == u * k`
/// then `cross(u, v) == 0`.
pub proof fn lemma_cross_parallel_zero(u: Vec3, k: int)
    ensures
        cross3(u, vscale(u, k)) == vzero(),
{
    assert(u.y * (u.z * k) - u.z * (u.y * k) == 0) by (nonlinear_arith);
    assert(u.z * (u.x * k) - u.x * (u.z * k) == 0) by (nonlinear_arith);
    assert(u.x * (u.y * k) - u.y * (u.x * k) == 0) by (nonlinear_arith);
}

/// A normalized value is parallel to the value it came from: whenever
/// `u` scaled by `g` gives back `v` — which `normalize` ensures with
/// `g == gcd3(v)` — the cross product of `u` and `v` vanishes.
pub proof fn lemma_normalize_parallel(u: Vec3, v: Vec3, g: int)
    requires
        vscale(u, g) == v,
    ensures
        cross3(u, v) == vzero(),
{
    lemma_cross_parallel_zero(u, g);
}

} // verus!
