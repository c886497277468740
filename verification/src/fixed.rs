//! Fixed-point scalars.
//!
//! A coordinate holds ten-thousandths of a world unit (`SCALE` per unit).
//! Every operation truncates its quotient toward zero and saturates at
//! `COORD_LIMIT`, so all scalar arithmetic is total: no input can make it
//! overflow or panic.

use vstd::prelude::*;

verus! {

/// Fixed-point units per world unit: a coordinate of one is `SCALE`.
pub const SCALE: i64 = 10_000;

/// Largest magnitude a fixed-point scalar may take; arithmetic saturates here.
pub const COORD_LIMIT: i64 = 1_000_000_000_000_000_000;

/// Saturate an unbounded value into `[-COORD_LIMIT, COORD_LIMIT]`.
pub open spec fn clamp_fx(x: int) -> int {
    if x > COORD_LIMIT as int {
        COORD_LIMIT as int
    } else if x < -(COORD_LIMIT as int) {
        -(COORD_LIMIT as int)
    } else {
        x
    }
}

/// Divide by `SCALE`, truncating toward zero (the rounding of hardware division).
pub open spec fn tdiv_scale(x: int) -> int {
    if x >= 0 {
        x / (SCALE as int)
    } else {
        -((-x) / (SCALE as int))
    }
}

/// Saturating fixed-point sum.
pub open spec fn spec_fp_add(a: int, b: int) -> int {
    clamp_fx(a + b)
}

/// Saturating fixed-point difference.
pub open spec fn spec_fp_sub(a: int, b: int) -> int {
    clamp_fx(a - b)
}

/// Saturating fixed-point product: rescaled by `SCALE`, truncated toward zero.
pub open spec fn spec_fp_mul(a: int, b: int) -> int {
    clamp_fx(tdiv_scale(a * b))
}

/// Saturating fixed-point sum of two scalars.
pub fn fp_add(a: i64, b: i64) -> (r: i64)
    ensures
        r as int == spec_fp_add(a as int, b as int),
{
    let s: i128 = a as i128 + b as i128;
    if s > COORD_LIMIT as i128 {
        COORD_LIMIT
    } else if s < -(COORD_LIMIT as i128) {
        -COORD_LIMIT
    } else {
        s as i64
    }
}

/// Saturating fixed-point difference of two scalars.
pub fn fp_sub(a: i64, b: i64) -> (r: i64)
    ensures
        r as int == spec_fp_sub(a as int, b as int),
{
    let s: i128 = a as i128 - b as i128;
    if s > COORD_LIMIT as i128 {
        COORD_LIMIT
    } else if s < -(COORD_LIMIT as i128) {
        -COORD_LIMIT
    } else {
        s as i64
    }
}

/// A product's magnitude is bounded by the product of the factors' bounds.
pub proof fn lemma_mul_magnitude(a: int, b: int, c: int, d: int)
    requires
        -c <= a <= c,
        -d <= b <= d,
        0 <= c,
        0 <= d,
    ensures
        -(c * d) <= a * b <= c * d,
{
    assert(-(c * d) <= a * b <= c * d) by (nonlinear_arith)
        requires
            -c <= a <= c,
            -d <= b <= d,
            0 <= c,
            0 <= d,
    ;
}

/// Saturating fixed-point product of two scalars.
pub fn fp_mul(a: i64, b: i64) -> (r: i64)
    ensures
        r as int == spec_fp_mul(a as int, b as int),
{
    proof {
        lemma_mul_magnitude(
            a as int,
            b as int,
            0x8000_0000_0000_0000,
            0x8000_0000_0000_0000,
        );
    }
    let p: i128 = (a as i128) * (b as i128);
    let neg: bool = p < 0;
    let mag: u128 = if neg {
        (-p) as u128
    } else {
        p as u128
    };
    let q: u128 = mag / (SCALE as u128);
    if neg {
        if q > COORD_LIMIT as u128 {
            -COORD_LIMIT
        } else {
            -(q as i64)
        }
    } else {
        if q > COORD_LIMIT as u128 {
            COORD_LIMIT
        } else {
            q as i64
        }
    }
}

} // verus!
