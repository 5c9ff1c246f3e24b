//! The 16.16 fixed-point scalar: an `i32` holding the real value times 65536.
//!
//! Every operation states its exact result: products and quotients are scaled
//! back with rounding toward negative infinity (toward zero for quotients),
//! and every result is clamped into the `i32` range instead of wrapping.

use vstd::prelude::*;
use vstd::arithmetic::div_mod::{
    lemma_fundamental_div_mod, lemma_fundamental_div_mod_converse_div,
    lemma_mod_division_less_than_divisor,
};

verus! {

/// One, in 16.16 fixed point.
pub const FX_ONE: i32 = 65536;

/// Clamp an unbounded integer into the `i32` range.
pub open spec fn fx_sat(x: int) -> int {
    if x < i32::MIN as int {
        i32::MIN as int
    } else if x > i32::MAX as int {
        i32::MAX as int
    } else {
        x
    }
}

/// Scale a doubly-scaled value (such as the raw product of two scalars) back
/// down to 16.16: divide by 65536 rounding toward negative infinity, then
/// clamp into the scalar range.
pub open spec fn fx_rescale(x: int) -> int {
    fx_sat(x / 65536)
}

/// The product of two fixed-point scalars.
pub open spec fn fx_mul_spec(a: int, b: int) -> int {
    fx_rescale(a * b)
}

/// The magnitude of an integer.
pub open spec fn sabs(x: int) -> int {
    if x < 0 {
        -x
    } else {
        x
    }
}

/// The quotient of two fixed-point scalars: the magnitude of `a / b` scaled
/// up to 16.16 and rounded toward zero, with the sign of the exact quotient,
/// clamped into the scalar range.
pub open spec fn fx_div_spec(a: int, b: int) -> int {
    let q = sabs(a) * 65536 / sabs(b);
    if (a < 0) == (b < 0) {
        fx_sat(q)
    } else {
        fx_sat(-q)
    }
}

/// Dividing a negative number rounds the same way as negating the ceiling of
/// the magnitude's quotient.
proof fn lemma_neg_div_floor(m: int)
    requires
        m > 0,
    ensures
        (-m) / 65536 == -((m + 65535) / 65536),
{
    let q = (m + 65535) / 65536;
    let r = (m + 65535) % 65536;
    lemma_fundamental_div_mod(m + 65535, 65536);
    lemma_mod_division_less_than_divisor(m + 65535, 65536);
    assert(-m == (-q) * 65536 + (65535 - r)) by {
        assert(m + 65535 == 65536 * q + r);
    }
    lemma_fundamental_div_mod_converse_div(-m, 65536, -q, 65535 - r);
}

/// The raw product of two scalars stays comfortably inside the range that
/// `fx_rescale_i128` accepts, even after a few are summed.
pub(crate) proof fn lemma_mul_i32_bound(a: int, b: int)
    requires
        -0x80000000 <= a <= 0x7fffffff,
        -0x80000000 <= b <= 0x7fffffff,
    ensures
        -0x4000000000000000 <= a * b <= 0x4000000000000000,
{
    assert(-0x4000000000000000 <= a * b <= 0x4000000000000000) by (nonlinear_arith)
        requires
            -0x80000000 <= a <= 0x7fffffff,
            -0x80000000 <= b <= 0x7fffffff,
    ;
}

/// Scaling up by one fixed-point unit and back down is the identity.
pub proof fn lemma_scaled_div(a: int)
    ensures
        (65536 * a) / 65536 == a,
{
    lemma_fundamental_div_mod_converse_div(65536 * a, 65536, a, 0);
}

/// A square of a scalar is nonnegative and bounded.
pub(crate) proof fn lemma_sq_i32_bound(a: int)
    requires
        -0x80000000 <= a <= 0x7fffffff,
    ensures
        0 <= a * a <= 0x4000000000000000,
{
    assert(0 <= a * a <= 0x4000000000000000) by (nonlinear_arith)
        requires
            -0x80000000 <= a <= 0x7fffffff,
    ;
}

/// Clamp a wide intermediate value into the scalar range.
pub(crate) fn fx_sat32(x: i64) -> (r: i32)
    ensures
        r as int == fx_sat(x as int),
{
    if x > 0x7fffffffi64 {
        i32::MAX
    } else if x < -0x80000000i64 {
        i32::MIN
    } else {
        x as i32
    }
}

/// Scale a doubly-scaled accumulator back down to a 16.16 scalar, rounding
/// toward negative infinity and clamping.
pub(crate) fn fx_rescale_i128(sum: i128) -> (r: i32)
    requires
        -0x10000000000000000000int <= sum <= 0x10000000000000000000int,
    ensures
        r as int == fx_rescale(sum as int),
{
    if sum >= 0 {
        let q: u128 = (sum as u128) / 65536;
        if q > 0x7fffffffu128 {
            i32::MAX
        } else {
            q as i32
        }
    } else {
        let m: u128 = (-sum) as u128;
        let qc: u128 = (m + 65535) / 65536;
        proof {
            lemma_neg_div_floor(m as int);
        }
        if qc > 0x80000000u128 {
            i32::MIN
        } else {
            (-(qc as i64)) as i32
        }
    }
}

/// The fixed-point product, exactly as `fx_mul_spec` states it.
pub fn fx_mul(a: i32, b: i32) -> (r: i32)
    ensures
        r as int == fx_mul_spec(a as int, b as int),
{
    assert(-0x10000000000000000000int <= (a as int) * (b as int) <= 0x10000000000000000000int)
        by (nonlinear_arith)
        requires
            -0x80000000 <= a as int <= 0x7fffffff,
            -0x80000000 <= b as int <= 0x7fffffff,
    ;
    let p: i128 = (a as i128) * (b as i128);
    fx_rescale_i128(p)
}

/// The saturating fixed-point sum.
pub fn fx_add(a: i32, b: i32) -> (r: i32)
    ensures
        r as int == fx_sat(a + b),
{
    fx_sat32(a as i64 + b as i64)
}

/// The saturating fixed-point difference.
pub fn fx_sub(a: i32, b: i32) -> (r: i32)
    ensures
        r as int == fx_sat(a - b),
{
    fx_sat32(a as i64 - b as i64)
}

/// The saturating fixed-point negation.
pub fn fx_neg(a: i32) -> (r: i32)
    ensures
        r as int == fx_sat(-a),
{
    fx_sat32(-(a as i64))
}

/// The fixed-point quotient, exactly as `fx_div_spec` states it.
pub fn fx_div(a: i32, b: i32) -> (r: i32)
    requires
        b != 0,
    ensures
        r as int == fx_div_spec(a as int, b as int),
{
    let na: u64 = if a < 0 {
        (-(a as i64)) as u64
    } else {
        a as u64
    };
    let nb: u64 = if b < 0 {
        (-(b as i64)) as u64
    } else {
        b as u64
    };
    let q: u64 = (na * 65536) / nb;
    if (a < 0) == (b < 0) {
        fx_sat32(q as i64)
    } else {
        fx_sat32(-(q as i64))
    }
}

/// The integer square root: the greatest `r` whose square is at most `n`.
pub fn isqrt64(n: u64) -> (r: u64)
    ensures
        r * r <= n,
        n < (r + 1) * (r + 1),
{
    let mut lo: u64 = 0;
    let mut hi: u64 = 0x100000000;
    assert((hi as int) * (hi as int) > n as int) by (nonlinear_arith)
        requires
            hi as int == 0x100000000,
            (n as int) < 0x10000000000000000int,
    ;
    while lo + 1 < hi
        invariant
            lo < hi <= 0x100000000,
            (lo as int) * (lo as int) <= n as int,
            (n as int) < (hi as int) * (hi as int),
        decreases hi - lo,
    {
        let mid: u64 = lo + (hi - lo) / 2;
        assert((mid as int) * (mid as int) <= 0x10000000000000000int) by (nonlinear_arith)
            requires
                0 <= mid as int <= 0x100000000,
        ;
        let sq: u128 = (mid as u128) * (mid as u128);
        if sq <= n as u128 {
            lo = mid;
        } else {
            hi = mid;
        }
    }
    lo
}

} // verus!
