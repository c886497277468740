//! Angles and fixed-point trigonometry.
//!
//! An angle holds thousandths of a degree, so a full turn is exactly
//! `TURN` units and quarter turns are exact. Sine and cosine return
//! fixed-point scalars in `[-SCALE, SCALE]`; they are exact at every
//! multiple of a quarter turn and follow a rational approximation in
//! between. Both are periodic in `TURN` by construction, which makes
//! a full turn return every rotation matrix to its starting value.

use vstd::prelude::*;
use vstd::arithmetic::div_mod::{
    lemma_fundamental_div_mod, lemma_fundamental_div_mod_converse_mod, lemma_add_mod_noop,
    lemma_mod_multiples_vanish, lemma_small_mod, lemma_div_is_ordered, lemma_div_pos_is_pos,
    lemma_div_multiples_vanish,
};
use crate::fixed::SCALE;

verus! {

/// Angle units in a full turn (thousandths of a degree).
pub const TURN: i64 = 360_000;

/// Angle units in a half turn.
pub const HALF_TURN: i64 = 180_000;

/// Angle units in a quarter turn.
pub const QUARTER_TURN: i64 = 90_000;

/// An angle reduced into `[0, TURN)`, Euclidean style.
pub open spec fn norm_angle(a: int) -> int {
    a % (TURN as int)
}

/// Sine on the first quadrant, `x` in `[0, QUARTER_TURN]`, scaled by `SCALE`.
/// A rational approximation that is exact at zero, at thirty degrees and
/// at a quarter turn.
pub open spec fn sin_quarter(x: int) -> int {
    (4 * x * (HALF_TURN as int - x) * (SCALE as int)) / (
    40_500_000_000 - x * (HALF_TURN as int - x))
}

/// Sine of any angle, scaled by `SCALE`: the first-quadrant curve unfolded
/// by the usual symmetries of the circle.
pub open spec fn spec_sin(a: int) -> int {
    let n = norm_angle(a);
    if n <= QUARTER_TURN as int {
        sin_quarter(n)
    } else if n <= HALF_TURN as int {
        sin_quarter(HALF_TURN as int - n)
    } else if n <= 270_000 {
        -sin_quarter(n - HALF_TURN as int)
    } else {
        -sin_quarter(TURN as int - n)
    }
}

/// Cosine of any angle, scaled by `SCALE`: sine shifted by a quarter turn.
pub open spec fn spec_cos(a: int) -> int {
    spec_sin(a + QUARTER_TURN as int)
}

/// Reduce an angle into `[0, TURN)`.
pub fn norm_angle_fx(a: i64) -> (r: i64)
    ensures
        r as int == norm_angle(a as int),
        0 <= r < TURN,
{
    let t: u128 = TURN as u128;
    if a >= 0 {
        let m: u128 = (a as u128) % t;
        m as i64
    } else {
        let b: i128 = a as i128;
        let m: u128 = ((-b) as u128) % t;
        proof {
            let ai = a as int;
            let ti = TURN as int;
            lemma_fundamental_div_mod(-ai, ti);
            let q = (-ai) / ti;
            // -a == q * t + m, so a == (-q) * t + (t - m) when m != 0, else (-q) * t.
            if m as int == 0 {
                assert(ai == (-q) * ti + 0) by (nonlinear_arith)
                    requires -ai == q * ti + 0,
                ;
                lemma_fundamental_div_mod_converse_mod(ai, ti, -q, 0);
            } else {
                assert(ai == (-q - 1) * ti + (ti - m as int)) by (nonlinear_arith)
                    requires -ai == q * ti + m as int,
                ;
                lemma_fundamental_div_mod_converse_mod(ai, ti, -q - 1, ti - m as int);
            }
        }
        if m == 0 {
            0
        } else {
            (t - m) as i64
        }
    }
}

/// Bound on the quadratic `x * (HALF_TURN - x)` over the first quadrant.
proof fn lemma_quadrant_product_bound(x: int)
    requires
        0 <= x <= QUARTER_TURN as int,
    ensures
        0 <= x * (HALF_TURN as int - x) <= 8_100_000_000,
{
    assert(0 <= x * (180_000 - x) <= 8_100_000_000) by (nonlinear_arith)
        requires 0 <= x <= 90_000,
    ;
}

/// The first-quadrant sine stays within `[0, SCALE]`.
pub proof fn lemma_sin_quarter_range(x: int)
    requires
        0 <= x <= QUARTER_TURN as int,
    ensures
        0 <= sin_quarter(x) <= SCALE as int,
{
    lemma_quadrant_product_bound(x);
    let w = x * (HALF_TURN as int - x);
    let ni = 4 * w * (SCALE as int);
    let di = 40_500_000_000 - w;
    assert(4 * w * (SCALE as int) == 4 * x * (HALF_TURN as int - x) * (SCALE as int))
        by (nonlinear_arith)
        requires w == x * (HALF_TURN as int - x),
    ;
    assert(0 <= ni <= (SCALE as int) * di);
    lemma_div_pos_is_pos(ni, di);
    lemma_div_is_ordered(ni, (SCALE as int) * di, di);
    lemma_div_multiples_vanish(SCALE as int, di);
    assert((di * (SCALE as int)) / di == SCALE as int);
    assert((SCALE as int) * di == di * (SCALE as int)) by (nonlinear_arith);
}

/// Sine on the first quadrant, exec form.
fn sin_quarter_fx(x: i64) -> (r: i64)
    requires
        0 <= x <= QUARTER_TURN,
    ensures
        r as int == sin_quarter(x as int),
        0 <= r <= SCALE,
{
    proof {
        lemma_quadrant_product_bound(x as int);
        lemma_sin_quarter_range(x as int);
    }
    let xu: u64 = x as u64;
    let w: u64 = xu * (HALF_TURN as u64 - xu);
    let num: u64 = 4 * w * (SCALE as u64);
    let den: u64 = 40_500_000_000 - w;
    let q: u64 = num / den;
    proof {
        assert(num as int == 4 * (x as int) * (HALF_TURN as int - x as int) * (SCALE as int))
            by (nonlinear_arith)
            requires
                w as int == (x as int) * (HALF_TURN as int - x as int),
                num as int == 4 * (w as int) * (SCALE as int),
        ;
    }
    q as i64
}

/// Sine of any angle, exec form.
pub fn sin_fx(a: i64) -> (r: i64)
    ensures
        r as int == spec_sin(a as int),
        -SCALE <= r <= SCALE,
{
    let n = norm_angle_fx(a);
    if n <= QUARTER_TURN {
        sin_quarter_fx(n)
    } else if n <= HALF_TURN {
        sin_quarter_fx(HALF_TURN - n)
    } else if n <= 270_000 {
        -sin_quarter_fx(n - HALF_TURN)
    } else {
        -sin_quarter_fx(TURN - n)
    }
}

/// Cosine of any angle, exec form.
pub fn cos_fx(a: i64) -> (r: i64)
    ensures
        r as int == spec_cos(a as int),
        -SCALE <= r <= SCALE,
{
    let n = norm_angle_fx(a);
    proof {
        let ai = a as int;
        let ti = TURN as int;
        let qi = QUARTER_TURN as int;
        // norm(a + q) == norm(norm(a) + q), so sine of the shifted reduced
        // angle is the cosine of the unshifted one.
        lemma_add_mod_noop(ai, qi, ti);
        lemma_add_mod_noop(n as int, qi, ti);
        lemma_small_mod(n as nat, ti as nat);
        lemma_small_mod(qi as nat, ti as nat);
        assert(norm_angle(ai + qi) == norm_angle(n as int + qi));
    }
    sin_fx(n + QUARTER_TURN)
}

/// Sine and cosine are unchanged by a full extra turn.
pub proof fn lemma_trig_period(a: int)
    ensures
        spec_sin(a + TURN as int) == spec_sin(a),
        spec_cos(a + TURN as int) == spec_cos(a),
{
    let ti = TURN as int;
    lemma_mod_multiples_vanish(1, a, ti);
    assert(ti * 1 + a == a + ti);
    lemma_mod_multiples_vanish(1, a + QUARTER_TURN as int, ti);
    assert(ti * 1 + (a + QUARTER_TURN as int) == a + ti + QUARTER_TURN as int);
}

/// Exact values at the four quarter-turn marks.
pub proof fn lemma_trig_exact()
    ensures
        spec_sin(0) == 0,
        spec_sin(QUARTER_TURN as int) == SCALE as int,
        spec_sin(HALF_TURN as int) == 0,
        spec_sin(270_000) == -(SCALE as int),
        spec_cos(0) == SCALE as int,
        spec_cos(QUARTER_TURN as int) == 0,
        spec_cos(HALF_TURN as int) == -(SCALE as int),
        spec_cos(270_000) == 0,
{
    let ti = TURN as int;
    lemma_small_mod(0, ti as nat);
    lemma_small_mod(QUARTER_TURN as nat, ti as nat);
    lemma_small_mod(HALF_TURN as nat, ti as nat);
    lemma_small_mod(270_000 as nat, ti as nat);
    lemma_mod_multiples_vanish(1, 0, ti);
    assert(ti * 1 + 0 == 360_000);
    assert(norm_angle(360_000) == 0);
    // The quarter-turn value: the numerator is SCALE times the denominator.
    lemma_div_multiples_vanish(SCALE as int, 32_400_000_000);
    assert(32_400_000_000 * (SCALE as int) == 324_000_000_000_000) by (nonlinear_arith);
    assert(4 * 90_000 * (180_000 - 90_000) * (SCALE as int) == 324_000_000_000_000)
        by (nonlinear_arith);
    assert(40_500_000_000 - 90_000 * (180_000 - 90_000) == 32_400_000_000) by (nonlinear_arith);
    assert(sin_quarter(QUARTER_TURN as int) == SCALE as int);
}

} // verus!
