//! Fixed-point arithmetic in millionths.

use vstd::prelude::*;

verus! {

/// The number of fixed-point units in 1.0.
pub const SCALE: i64 = 1_000_000;

/// `x` limited to the closed interval from -1.0 to 1.0.
pub open spec fn clamp_unit(x: int) -> int {
    if x < -SCALE {
        -SCALE as int
    } else if x > SCALE {
        SCALE as int
    } else {
        x
    }
}

/// The quotient of `a` by a positive `d`, rounded toward zero.
pub open spec fn trunc_div(a: int, d: int) -> int {
    if a >= 0 {
        a / d
    } else {
        -((-a) / d)
    }
}

/// `r` is the square root of `n`, rounded down.
pub open spec fn is_floor_sqrt(n: nat, r: nat) -> bool {
    r * r <= n < (r + 1) * (r + 1)
}

/// The square root of `n`, rounded down.
pub open spec fn floor_sqrt(n: nat) -> nat {
    choose|r: nat| is_floor_sqrt(n, r)
}

/// A number has at most one rounded-down square root.
pub proof fn lemma_floor_sqrt_unique(n: nat, a: nat, b: nat)
    requires
        is_floor_sqrt(n, a),
        is_floor_sqrt(n, b),
    ensures
        a == b,
{
    if a < b {
        assert((a + 1) * (a + 1) <= b * b) by (nonlinear_arith)
            requires
                a + 1 <= b,
        ;
    } else if b < a {
        assert((b + 1) * (b + 1) <= a * a) by (nonlinear_arith)
            requires
                b + 1 <= a,
        ;
    }
}

/// A number that squares to at most `n`, while the next one squares to
/// more, is the rounded-down square root of `n`.
pub proof fn lemma_floor_sqrt_is(n: nat, r: nat)
    requires
        is_floor_sqrt(n, r),
    ensures
        floor_sqrt(n) == r,
{
    lemma_floor_sqrt_unique(n, r, floor_sqrt(n));
}

/// The bounds of a product follow from the bounds of its factors.
pub proof fn lemma_product_bound(a: int, b: int, bound_a: int, bound_b: int)
    by (nonlinear_arith)
    requires
        -bound_a <= a <= bound_a,
        -bound_b <= b <= bound_b,
    ensures
        -(bound_a * bound_b) <= a * b <= bound_a * bound_b,
{
}

/// Rounding toward zero never moves a quotient away from zero, and keeps
/// it within the magnitude of the dividend.
pub proof fn lemma_trunc_div_bound(a: int, d: int, bound: int)
    by (nonlinear_arith)
    requires
        d >= 1,
        -bound <= a <= bound,
    ensures
        -bound <= trunc_div(a, d) <= bound,
{
}

/// Limits `x` to the closed interval from -1.0 to 1.0.
pub fn clamp_to_unit(x: i128) -> (r: i64)
    ensures
        r == clamp_unit(x as int),
        -SCALE <= r <= SCALE,
{
    if x < -1_000_000 {
        -1_000_000
    } else if x > 1_000_000 {
        1_000_000
    } else {
        x as i64
    }
}

/// Divides `a` by a positive `d`, rounding toward zero.
pub fn div_toward_zero(a: i128, d: i128) -> (q: i128)
    requires
        d > 0,
        a > i128::MIN,
    ensures
        q == trunc_div(a as int, d as int),
{
    if a >= 0 {
        a / d
    } else {
        let magnitude: i128 = -a;
        let q: i128 = magnitude / d;
        assert(0 <= q <= magnitude) by (nonlinear_arith)
            requires
                q == magnitude as int / d as int,
                magnitude >= 0,
                d > 0,
        ;
        -q
    }
}

/// Computes the square root of `n`, rounded down.
pub fn isqrt(n: u64) -> (r: u64)
    ensures
        is_floor_sqrt(n as nat, r as nat),
        r == floor_sqrt(n as nat),
        r < 0x1_0000_0000,
{
    let mut lo: u64 = 0;
    let mut hi: u64 = 0x1_0000_0000;
    assert(n < hi * hi) by (nonlinear_arith)
        requires
            hi == 0x1_0000_0000u64,
            n <= u64::MAX,
    ;
    while hi - lo > 1
        invariant
            lo < hi <= 0x1_0000_0000,
            lo * lo <= n < hi * hi,
        decreases hi - lo,
    {
        let mid: u64 = lo + (hi - lo) / 2;
        assert(mid * mid < 0x1_0000_0000_0000_0000) by (nonlinear_arith)
            requires
                mid < 0x1_0000_0000u64,
        ;
        let square: u128 = (mid as u128) * (mid as u128);
        if square <= n as u128 {
            lo = mid;
        } else {
            hi = mid;
        }
    }
    proof {
        assert(hi == lo + 1);
        lemma_floor_sqrt_is(n as nat, lo as nat);
    }
    lo
}

} // verus!
