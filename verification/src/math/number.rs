use crate::math::model::{vzero, Vec3};
use vstd::arithmetic::div_mod::{
    lemma_div_multiples_vanish, lemma_div_nonincreasing, lemma_div_pos_is_pos,
    lemma_fundamental_div_mod, lemma_mod_multiples_basic,
};
use vstd::math::abs;
use vstd::prelude::*;

verus! {

/// The floor of the square root of `n` (meaningful for `n >= 0`).
pub open spec fn sqrt_floor(n: int) -> int {
    choose|r: int| 0 <= r && #[trigger] (r * r) <= n && n < (r + 1) * (r + 1)
}

/// A floor square root exists for every non-negative integer.
pub proof fn lemma_sqrt_floor_exists(n: int)
    requires
        0 <= n,
    ensures
        0 <= sqrt_floor(n),
        sqrt_floor(n) * sqrt_floor(n) <= n,
        n < (sqrt_floor(n) + 1) * (sqrt_floor(n) + 1),
    decreases n,
{
    if n == 0 {
        assert(0 * 0 <= 0 < (0 + 1) * (0 + 1));
    } else {
        lemma_sqrt_floor_exists(n - 1);
        let r = sqrt_floor(n - 1);
        if (r + 1) * (r + 1) <= n {
            // n - 1 < (r+1)*(r+1) <= n forces n == (r+1)*(r+1).
            assert((r + 1 + 1) * (r + 1 + 1) > (r + 1) * (r + 1)) by (nonlinear_arith)
                requires 0 <= r;
            assert(0 <= r + 1 && (r + 1) * (r + 1) <= n && n < (r + 1 + 1) * (r + 1 + 1));
        } else {
            assert(0 <= r && r * r <= n && n < (r + 1) * (r + 1));
        }
        assert(exists|s: int| 0 <= s && #[trigger] (s * s) <= n && n < (s + 1) * (s + 1));
    }
}

/// The floor square root is the unique value with its defining property.
pub proof fn lemma_sqrt_floor_unique(n: int, r: int)
    requires
        0 <= r,
        r * r <= n,
        n < (r + 1) * (r + 1),
    ensures
        r == sqrt_floor(n),
{
    lemma_sqrt_floor_exists(n);
    let s = sqrt_floor(n);
    if r < s {
        assert((r + 1) * (r + 1) <= s * s) by (nonlinear_arith)
            requires 0 <= r, r + 1 <= s;
    }
    if s < r {
        assert((s + 1) * (s + 1) <= r * r) by (nonlinear_arith)
            requires 0 <= s, s + 1 <= r;
    }
}

/// The floor square root of `n`, by binary search.
pub fn isqrt(n: u64) -> (r: u64)
    ensures
        r * r <= n < (r + 1) * (r + 1),
        r == sqrt_floor(n as int),
{
    let mut lo: u64 = 0;
    let mut hi: u64 = 0x1_0000_0000;
    assert(n < hi * hi) by (nonlinear_arith)
        requires n <= u64::MAX, hi == 0x1_0000_0000u64;
    while lo + 1 < hi
        invariant
            lo < hi <= 0x1_0000_0000,
            lo * lo <= n,
            n < hi * hi,
        decreases hi - lo,
    {
        let mid = lo + (hi - lo) / 2;
        assert(mid * mid <= 0xffff_ffffu64 * 0xffff_ffffu64) by (nonlinear_arith)
            requires mid <= 0xffff_ffffu64;
        if mid * mid <= n {
            lo = mid;
        } else {
            hi = mid;
        }
    }
    proof {
        lemma_sqrt_floor_unique(n as int, lo as int);
    }
    lo
}

/// The greatest common divisor, by Euclid's algorithm.
pub open spec fn gcd(a: nat, b: nat) -> nat
    decreases b,
{
    if b == 0 {
        a
    } else {
        gcd(b, a % b)
    }
}

/// `gcd(a, b)` is positive and divides both arguments whenever one of
/// them is positive.
pub proof fn lemma_gcd_divides(a: nat, b: nat)
    requires
        a > 0 || b > 0,
    ensures
        gcd(a, b) > 0,
        a % gcd(a, b) == 0,
        b % gcd(a, b) == 0,
    decreases b,
{
    let g = gcd(a, b) as int;
    if b == 0 {
        lemma_mod_multiples_basic(1, a as int);
        assert(a % a == 0);
        assert(b as int % g == 0);
    } else {
        lemma_gcd_divides(b, a % b);
        // a == b * (a / b) + a % b, and g divides both b and a % b.
        lemma_fundamental_div_mod(a as int, b as int);
        lemma_fundamental_div_mod(b as int, g);
        lemma_fundamental_div_mod((a % b) as int, g);
        let qb = b as int / g;
        let qr = (a % b) as int / g;
        assert(b == g * qb && (a % b) as int == g * qr);
        assert(a == (g * qb) * (a as int / b as int) + g * qr);
        assert((g * qb) * (a as int / b as int) + g * qr
            == (qb * (a as int / b as int) + qr) * g) by (nonlinear_arith);
        lemma_mod_multiples_basic(qb * (a as int / b as int) + qr, g);
    }
}

/// The greatest common divisor, by Euclid's algorithm.
pub fn gcd_u64(a: u64, b: u64) -> (g: u64)
    ensures
        g == gcd(a as nat, b as nat),
{
    let mut x = a;
    let mut y = b;
    while y != 0
        invariant
            gcd(x as nat, y as nat) == gcd(a as nat, b as nat),
        decreases y,
    {
        let r = x % y;
        x = y;
        y = r;
    }
    x
}

/// The greatest common divisor of a triple's component magnitudes.
pub open spec fn gcd3(v: Vec3) -> nat {
    gcd(gcd(abs(v.x), abs(v.y)), abs(v.z))
}

/// Divisibility is transitive: `d | m` and `m | x` imply `d | x`.
pub proof fn lemma_divides_transitive(x: int, m: int, d: int)
    requires
        m > 0,
        d > 0,
        x % m == 0,
        m % d == 0,
    ensures
        x % d == 0,
{
    lemma_fundamental_div_mod(x, m);
    lemma_fundamental_div_mod(m, d);
    assert(x == (d * (m / d)) * (x / m));
    assert((d * (m / d)) * (x / m) == ((m / d) * (x / m)) * d) by (nonlinear_arith);
    lemma_mod_multiples_basic((m / d) * (x / m), d);
}

/// A positive divisor of a positive value is no larger than that value.
pub proof fn lemma_divisor_le(x: int, d: int)
    requires
        x > 0,
        d > 0,
        x % d == 0,
    ensures
        d <= x,
{
    lemma_fundamental_div_mod(x, d);
    let q = x / d;
    assert(q >= 1 ==> d * q >= d) by (nonlinear_arith)
        requires d > 0;
    assert(q <= 0 ==> d * q <= 0) by (nonlinear_arith)
        requires d > 0;
}

/// `gcd3` of a non-zero triple is positive and divides the magnitude of
/// every component; it is bounded by each non-zero component magnitude.
pub proof fn lemma_gcd3_divides(v: Vec3)
    requires
        v != vzero(),
    ensures
        gcd3(v) > 0,
        abs(v.x) % gcd3(v) == 0,
        abs(v.y) % gcd3(v) == 0,
        abs(v.z) % gcd3(v) == 0,
        abs(v.x) > 0 ==> gcd3(v) <= abs(v.x),
        abs(v.y) > 0 ==> gcd3(v) <= abs(v.y),
        abs(v.z) > 0 ==> gcd3(v) <= abs(v.z),
{
    let gxy = gcd(abs(v.x), abs(v.y));
    let g = gcd3(v);
    if abs(v.x) > 0 || abs(v.y) > 0 {
        lemma_gcd_divides(abs(v.x), abs(v.y));
        lemma_gcd_divides(gxy, abs(v.z));
        lemma_divides_transitive(abs(v.x) as int, gxy as int, g as int);
        lemma_divides_transitive(abs(v.y) as int, gxy as int, g as int);
    } else {
        // Both x and y vanish, so z does not and gcd3(v) == abs(v.z).
        assert(gxy == 0);
        assert(abs(v.z) > 0);
        lemma_gcd_divides(gxy, abs(v.z));
        assert(abs(v.x) as int % (g as int) == 0);
        assert(abs(v.y) as int % (g as int) == 0);
    }
    if abs(v.x) > 0 {
        lemma_divisor_le(abs(v.x) as int, g as int);
    }
    if abs(v.y) > 0 {
        lemma_divisor_le(abs(v.y) as int, g as int);
    }
    if abs(v.z) > 0 {
        lemma_divisor_le(abs(v.z) as int, g as int);
    }
}

/// Truncating signed division, the rounding Rust's `/` performs.
pub open spec fn div_trunc(x: int, d: int) -> int {
    if x == 0 {
        0
    } else if x > 0 && d > 0 {
        x / d
    } else if x < 0 && d < 0 {
        (x * -1) / (d * -1)
    } else if x < 0 {
        ((x * -1) / d) * -1
    } else {
        (x / (d * -1)) * -1
    }
}

/// Truncating signed division of bounded operands.
pub fn div_trunc_i64(x: i64, d: i64) -> (r: i64)
    requires
        d != 0,
        -(i64::MAX as int) <= x,
    ensures
        r == div_trunc(x as int, d as int),
{
    proof {
        lemma_div_trunc_magnitude(x as int, d as int);
    }
    match x.checked_div(d) {
        Some(q) => q,
        None => 0,
    }
}

/// Truncating division never grows the magnitude of the dividend.
pub proof fn lemma_div_trunc_magnitude(x: int, d: int)
    requires
        d != 0,
    ensures
        x >= 0 ==> -x <= div_trunc(x, d) <= x,
        x < 0 ==> x <= div_trunc(x, d) <= -x,
{
    if x > 0 && d > 0 {
        lemma_div_pos_is_pos(x, d);
        lemma_div_nonincreasing(x, d);
    } else if x > 0 {
        lemma_div_pos_is_pos(x, d * -1);
        lemma_div_nonincreasing(x, d * -1);
    } else if x < 0 && d < 0 {
        lemma_div_pos_is_pos(x * -1, d * -1);
        lemma_div_nonincreasing(x * -1, d * -1);
    } else if x < 0 {
        lemma_div_pos_is_pos(x * -1, d);
        lemma_div_nonincreasing(x * -1, d);
    }
}

/// Exact division of a signed value by a positive divisor of its magnitude.
pub fn div_exact_i64(x: i64, g: i64) -> (r: i64)
    requires
        g > 0,
        -(i64::MAX as int) <= x,
        abs(x as int) % (g as nat) == 0,
    ensures
        r * g == x,
        x >= 0 ==> 0 <= r <= x,
        x < 0 ==> x <= r <= 0,
{
    proof {
        lemma_fundamental_div_mod(abs(x as int) as int, g as int);
        let q = abs(x as int) as int / g as int;
        if x >= 0 {
            lemma_div_trunc_exact(x as int, g as int, q);
        } else {
            assert(x as int == g * (q * -1)) by (nonlinear_arith)
                requires x < 0, x as int * -1 == g * q;
            lemma_div_trunc_exact(x as int, g as int, q * -1);
        }
        assert(x as int == g * div_trunc(x as int, g as int));
        lemma_div_trunc_magnitude(x as int, g as int);
        assert(div_trunc(x as int, g as int) * g == x) by (nonlinear_arith)
            requires x as int == g * div_trunc(x as int, g as int);
    }
    div_trunc_i64(x, g)
}

/// When `d` exactly divides `x`, truncating division inverts the product:
/// `(x / d) * d == x`.
pub proof fn lemma_div_trunc_exact(x: int, d: int, q: int)
    requires
        d > 0,
        x == d * q,
    ensures
        div_trunc(x, d) == q,
{
    if x == 0 {
        assert(q == 0) by (nonlinear_arith)
            requires d > 0, 0 == d * q;
    } else if x > 0 {
        lemma_div_multiples_vanish(q, d);
    } else {
        assert(x * -1 == d * (q * -1)) by (nonlinear_arith)
            requires x == d * q;
        lemma_div_multiples_vanish(q * -1, d);
    }
}

} // verus!
