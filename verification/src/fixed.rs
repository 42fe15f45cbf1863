//! Fixed-point arithmetic on millionths.
//!
//! Prices, sizes, amounts and ratios are all held as unsigned 64-bit counts of
//! millionths. Products and quotients are computed exactly in 128 bits, rounded
//! down, and pinned to the 64-bit range when they do not fit.

use vstd::prelude::*;

verus! {

/// One whole unit (a dollar, a token, a ratio of 1.0) in millionths.
pub const SCALE: u64 = 1_000_000;

/// `x` pinned to the range of an unsigned 64-bit quantity.
pub open spec fn clamp_u64(x: int) -> int {
    if x < 0 {
        0
    } else if x > u64::MAX as int {
        u64::MAX as int
    } else {
        x
    }
}

/// `x` pinned to the range of a signed 64-bit quantity.
pub open spec fn clamp_i64(x: int) -> int {
    if x < i64::MIN as int {
        i64::MIN as int
    } else if x > i64::MAX as int {
        i64::MAX as int
    } else {
        x
    }
}

/// The distance between two quantities.
pub open spec fn distance(a: int, b: int) -> int {
    if a >= b {
        a - b
    } else {
        b - a
    }
}

/// Fixed-point product: `a * b / SCALE`, rounded down and pinned to 64 bits.
pub open spec fn scaled_product(a: int, b: int) -> int {
    clamp_u64(a * b / (SCALE as int))
}

/// Fixed-point quotient: `n * SCALE / d`, rounded down and pinned to 64 bits.
/// Nothing over nothing is no deviation at all; anything else over nothing is
/// pinned to the top of the range.
pub open spec fn scaled_ratio(n: int, d: int) -> int {
    if d == 0 {
        if n == 0 {
            0
        } else {
            u64::MAX as int
        }
    } else {
        clamp_u64(n * (SCALE as int) / d)
    }
}

/// `base` moved by `delta` upwards or downwards, pinned to 64 bits.
pub open spec fn shifted(base: int, delta: int, upward: bool) -> int {
    if upward {
        clamp_u64(base + delta)
    } else {
        clamp_u64(base - delta)
    }
}

/// The product of two 64-bit quantities fits in 128 bits.
pub proof fn lemma_product_fits(a: u64, b: u64)
    ensures
        0 <= (a as int) * (b as int) <= 0xFFFF_FFFF_FFFF_FFFE_0000_0000_0000_0001,
{
    assert(0 <= (a as int) * (b as int) <= 0xFFFF_FFFF_FFFF_FFFF * 0xFFFF_FFFF_FFFF_FFFF)
        by (nonlinear_arith)
        requires
            0 <= a as int <= 0xFFFF_FFFF_FFFF_FFFF,
            0 <= b as int <= 0xFFFF_FFFF_FFFF_FFFF,
    ;
}

/// The distance between `a` and `b`.
pub fn abs_diff(a: u64, b: u64) -> (r: u64)
    ensures
        r as int == distance(a as int, b as int),
{
    if a >= b {
        a - b
    } else {
        b - a
    }
}

/// Multiplies two fixed-point quantities.
pub fn mul_scaled(a: u64, b: u64) -> (r: u64)
    ensures
        r as int == scaled_product(a as int, b as int),
{
    proof {
        lemma_product_fits(a, b);
    }
    let wide: u128 = (a as u128) * (b as u128);
    let q: u128 = wide / (SCALE as u128);
    if q > u64::MAX as u128 {
        u64::MAX
    } else {
        q as u64
    }
}

/// Divides one fixed-point quantity by another.
pub fn div_scaled(n: u64, d: u64) -> (r: u64)
    ensures
        r as int == scaled_ratio(n as int, d as int),
{
    if d == 0 {
        if n == 0 {
            0
        } else {
            u64::MAX
        }
    } else {
        proof {
            lemma_product_fits(n, SCALE);
        }
        let wide: u128 = (n as u128) * (SCALE as u128);
        let q: u128 = wide / (d as u128);
        if q > u64::MAX as u128 {
            u64::MAX
        } else {
            q as u64
        }
    }
}

/// Moves `base` by `delta`, upwards or downwards, stopping at the ends of the
/// 64-bit range.
pub fn shift(base: u64, delta: u64, upward: bool) -> (r: u64)
    ensures
        r as int == shifted(base as int, delta as int, upward),
{
    if upward {
        if delta > u64::MAX - base {
            u64::MAX
        } else {
            base + delta
        }
    } else {
        if delta > base {
            0
        } else {
            base - delta
        }
    }
}

/// A signed amount pinned to 64 bits.
pub fn narrow_i64(x: i128) -> (r: i64)
    ensures
        r as int == clamp_i64(x as int),
{
    if x < i64::MIN as i128 {
        i64::MIN
    } else if x > i64::MAX as i128 {
        i64::MAX
    } else {
        x as i64
    }
}

} // verus!
