//! Integer arithmetic kernel: division with explicit rounding direction,
//! clamping, and a floor integer square root, each with an exact contract.

use vstd::prelude::*;

verus! {

/// Quotient of `a / b` rounded toward zero, for `b > 0`.
pub open spec fn tdiv(a: int, b: int) -> int {
    if a >= 0 {
        a / b
    } else {
        -((-a) / b)
    }
}

/// Quotient of `a / b` rounded away from zero, for `b > 0`.
pub open spec fn daway(a: int, b: int) -> int {
    if a >= 0 {
        (a + b - 1) / b
    } else {
        -((-a + b - 1) / b)
    }
}

/// `v` clamped into `[lo, hi]`.
pub open spec fn clamp_spec(v: int, lo: int, hi: int) -> int {
    if v < lo {
        lo
    } else if v > hi {
        hi
    } else {
        v
    }
}

/// Floor of the real square root of `n` (meaningful for `n >= 0`).
pub open spec fn sqrt_floor(n: int) -> int {
    choose|r: int| 0 <= r && #[trigger] (r * r) <= n < (r + 1) * (r + 1)
}

/// The magnitude of a quotient rounded toward zero is bounded by any `c`
/// with `|a| <= c * b`.
pub proof fn lemma_tdiv_bound(a: int, b: int, c: int)
    by (nonlinear_arith)
    requires
        b > 0,
        c >= 0,
        -(c * b) <= a <= c * b,
    ensures
        -c <= tdiv(a, b) <= c,
{
}

/// Rounding toward zero never increases the scaled magnitude: the quotient
/// times the divisor stays within `|a|`.
pub proof fn lemma_tdiv_mul_bound(a: int, b: int)
    by (nonlinear_arith)
    requires
        b > 0,
    ensures
        a >= 0 ==> 0 <= tdiv(a, b) * b <= a,
        a < 0 ==> a <= tdiv(a, b) * b <= 0,
{
}

/// Rounding away from zero never decreases the scaled magnitude, and
/// overshoots by less than one divisor.
pub proof fn lemma_daway_mag(a: int, b: int)
    by (nonlinear_arith)
    requires
        b > 0,
    ensures
        a >= 0 ==> a <= daway(a, b) * b < a + b,
        a < 0 ==> a - b < daway(a, b) * b <= a,
        a >= 0 ==> daway(a, b) >= 0,
        a < 0 ==> daway(a, b) <= 0,
{
}

/// Rounding away from zero by a positive divisor never exceeds the
/// dividend's magnitude.
pub proof fn lemma_daway_le(a: int, b: int)
    by (nonlinear_arith)
    requires
        b >= 1,
    ensures
        a >= 0 ==> 0 <= daway(a, b) <= a,
        a < 0 ==> a <= daway(a, b) <= 0,
{
}

/// Every nonnegative integer has a floor square root.
pub proof fn lemma_sqrt_exists(n: int)
    requires
        n >= 0,
    ensures
        exists|r: int| 0 <= r && #[trigger] (r * r) <= n < (r + 1) * (r + 1),
    decreases n,
{
    if n == 0 {
        let z: int = 0;
        assert(z * z == 0 && (z + 1) * (z + 1) == 1) by (nonlinear_arith)
            requires
                z == 0,
        ;
        assert(0 <= z && z * z <= n && n < (z + 1) * (z + 1));
    } else {
        lemma_sqrt_exists(n - 1);
        let r = choose|r: int| 0 <= r && #[trigger] (r * r) <= n - 1 < (r + 1) * (r + 1);
        if (r + 1) * (r + 1) <= n {
            assert(n < (r + 2) * (r + 2)) by (nonlinear_arith)
                requires
                    0 <= r,
                    n - 1 < (r + 1) * (r + 1),
            ;
            assert((r + 1) * (r + 1) <= n < (r + 2) * (r + 2));
        } else {
            assert(r * r <= n < (r + 1) * (r + 1));
        }
    }
}

/// Any `r` whose square brackets `n` is the floor square root of `n`.
pub proof fn lemma_sqrt_floor_is(n: int, r: int)
    requires
        0 <= r,
        r * r <= n,
        n < (r + 1) * (r + 1),
    ensures
        sqrt_floor(n) == r,
{
    assert(0 <= r && r * r <= n < (r + 1) * (r + 1));
    let s = sqrt_floor(n);
    assert(0 <= s && s * s <= n < (s + 1) * (s + 1));
    assert(s == r) by (nonlinear_arith)
        requires
            0 <= r,
            0 <= s,
            r * r <= n < (r + 1) * (r + 1),
            s * s <= n < (s + 1) * (s + 1),
    ;
}

/// Basic properties of `sqrt_floor` on a nonnegative argument.
pub proof fn lemma_sqrt_floor_props(n: int)
    requires
        n >= 0,
    ensures
        0 <= sqrt_floor(n),
        sqrt_floor(n) * sqrt_floor(n) <= n,
        n < (sqrt_floor(n) + 1) * (sqrt_floor(n) + 1),
{
    lemma_sqrt_exists(n);
    let r = choose|r: int| 0 <= r && #[trigger] (r * r) <= n < (r + 1) * (r + 1);
    lemma_sqrt_floor_is(n, r);
}

/// `sqrt_floor` is monotone with respect to squared bounds.
pub proof fn lemma_sqrt_floor_le(n: int, b: int)
    requires
        0 <= n,
        0 <= b,
        n <= b * b,
    ensures
        sqrt_floor(n) <= b,
{
    lemma_sqrt_floor_props(n);
    let s = sqrt_floor(n);
    assert(s <= b) by (nonlinear_arith)
        requires
            0 <= s,
            0 <= b,
            s * s <= n,
            n <= b * b,
    ;
}

/// A lower bound on the square yields a lower bound on `sqrt_floor`.
pub proof fn lemma_sqrt_floor_ge(n: int, c: int)
    requires
        0 <= c,
        c * c <= n,
    ensures
        c <= sqrt_floor(n),
{
    lemma_sqrt_floor_props(n);
    let s = sqrt_floor(n);
    assert(c <= s) by (nonlinear_arith)
        requires
            0 <= c,
            0 <= s,
            c * c <= n,
            n < (s + 1) * (s + 1),
    ;
}

/// Division of `a` by `b > 0`, rounded toward zero.
pub fn div_trunc(a: i128, b: i128) -> (r: i128)
    requires
        b >= 1,
        a > i128::MIN,
    ensures
        r == tdiv(a as int, b as int),
{
    if a >= 0 {
        let au: u128 = a as u128;
        let q: u128 = au / (b as u128);
        q as i128
    } else {
        let au: u128 = (-a) as u128;
        let q: u128 = au / (b as u128);
        -(q as i128)
    }
}

/// Division of `a` by `b > 0`, rounded away from zero.
pub fn div_away(a: i128, b: i128) -> (r: i128)
    requires
        b >= 1,
        b <= i64::MAX,
        -(i64::MAX as i128) * (i64::MAX as i128) <= a <= (i64::MAX as i128) * (i64::MAX as i128),
    ensures
        r == daway(a as int, b as int),
{
    if a >= 0 {
        let au: u128 = a as u128;
        let q: u128 = (au + (b as u128) - 1) / (b as u128);
        q as i128
    } else {
        let au: u128 = (-a) as u128;
        let q: u128 = (au + (b as u128) - 1) / (b as u128);
        -(q as i128)
    }
}

/// `v` clamped into the symmetric interval `[-lim, lim]`.
pub fn clamp_mag(v: i128, lim: i64) -> (r: i64)
    requires
        lim >= 0,
    ensures
        r == clamp_spec(v as int, -(lim as int), lim as int),
{
    if v < -(lim as i128) {
        -lim
    } else if v > lim as i128 {
        lim
    } else {
        v as i64
    }
}

/// Floor integer square root by bisection.
pub fn isqrt(n: u128) -> (r: u128)
    ensures
        r == sqrt_floor(n as int),
        r * r <= n,
        n < (r + 1) * (r + 1),
{
    let mut lo: u128 = 0;
    let mut hi: u128 = if n < 0x1_0000_0000_0000_0000u128 {
        n + 1
    } else {
        0x1_0000_0000_0000_0000u128
    };
    proof {
        assert((n as int) < (hi as int) * (hi as int)) by (nonlinear_arith)
            requires
                hi == if (n as int) < 0x1_0000_0000_0000_0000int {
                    n as int + 1
                } else {
                    0x1_0000_0000_0000_0000int
                },
                0 <= n < 0x1_0000_0000_0000_0000_0000_0000_0000_0000int,
        ;
    }
    while lo + 1 < hi
        invariant
            0 <= lo < hi <= 0x1_0000_0000_0000_0000u128,
            (lo as int) * (lo as int) <= n as int,
            (n as int) < (hi as int) * (hi as int),
        decreases hi - lo,
    {
        let mid: u128 = lo + (hi - lo) / 2;
        proof {
            assert((mid as int) * (mid as int) < 0x1_0000_0000_0000_0000_0000_0000_0000_0000int)
                by (nonlinear_arith)
                requires
                    0 <= mid < 0x1_0000_0000_0000_0000int,
            ;
        }
        if mid * mid <= n {
            lo = mid;
        } else {
            hi = mid;
        }
    }
    proof {
        lemma_sqrt_floor_is(n as int, lo as int);
        assert((n as int) < ((lo + 1) as int) * ((lo + 1) as int));
    }
    lo
}

} // verus!
