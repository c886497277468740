//! Fixed-point 4x4 transform matrices and 3-component vectors.
//!
//! Entries are fixed-point scalars (`SCALE` per unit), row-major, with
//! translation in the last column. Multiplication rescales each entry by
//! `SCALE`, truncating toward zero and saturating at `COORD_LIMIT`, so a
//! product of bounded matrices is always defined and bounded.

use vstd::prelude::*;
use crate::fixed::{SCALE, COORD_LIMIT, clamp_fx, tdiv_scale, lemma_mul_magnitude};
use crate::angle::{spec_sin, spec_cos, sin_fx, cos_fx, lemma_trig_period, TURN};
use vstd::arithmetic::div_mod::lemma_div_multiples_vanish;

verus! {

/// A point or offset in model space, in fixed-point world units.
#[derive(Clone, Copy, PartialEq, Eq, Structural, Debug)]
pub struct Vec3 {
    pub x: i64,
    pub y: i64,
    pub z: i64,
}

impl Vec3 {
    /// The zero vector.
    pub fn zero() -> (r: Vec3)
        ensures
            r == (Vec3 { x: 0, y: 0, z: 0 }),
    {
        Vec3 { x: 0, y: 0, z: 0 }
    }

    /// A vector from its three components.
    pub fn new(x: i64, y: i64, z: i64) -> (r: Vec3)
        ensures
            r == (Vec3 { x, y, z }),
    {
        Vec3 { x, y, z }
    }
}

/// A row-major 4x4 matrix of fixed-point scalars.
#[derive(Clone, Copy, PartialEq, Eq, Structural, Debug)]
pub struct Mat4 {
    pub m00: i64, pub m01: i64, pub m02: i64, pub m03: i64,
    pub m10: i64, pub m11: i64, pub m12: i64, pub m13: i64,
    pub m20: i64, pub m21: i64, pub m22: i64, pub m23: i64,
    pub m30: i64, pub m31: i64, pub m32: i64, pub m33: i64,
}

/// All sixteen entries lie within the saturation range.
pub open spec fn mat_bounded(m: Mat4) -> bool {
    &&& -COORD_LIMIT <= m.m00 <= COORD_LIMIT
    &&& -COORD_LIMIT <= m.m01 <= COORD_LIMIT
    &&& -COORD_LIMIT <= m.m02 <= COORD_LIMIT
    &&& -COORD_LIMIT <= m.m03 <= COORD_LIMIT
    &&& -COORD_LIMIT <= m.m10 <= COORD_LIMIT
    &&& -COORD_LIMIT <= m.m11 <= COORD_LIMIT
    &&& -COORD_LIMIT <= m.m12 <= COORD_LIMIT
    &&& -COORD_LIMIT <= m.m13 <= COORD_LIMIT
    &&& -COORD_LIMIT <= m.m20 <= COORD_LIMIT
    &&& -COORD_LIMIT <= m.m21 <= COORD_LIMIT
    &&& -COORD_LIMIT <= m.m22 <= COORD_LIMIT
    &&& -COORD_LIMIT <= m.m23 <= COORD_LIMIT
    &&& -COORD_LIMIT <= m.m30 <= COORD_LIMIT
    &&& -COORD_LIMIT <= m.m31 <= COORD_LIMIT
    &&& -COORD_LIMIT <= m.m32 <= COORD_LIMIT
    &&& -COORD_LIMIT <= m.m33 <= COORD_LIMIT
}

/// One entry of a matrix product: a four-term dot product, rescaled by
/// `SCALE` (truncating toward zero) and saturated.
#[verifier::opaque]
pub open spec fn spec_dot4(
    a0: int, a1: int, a2: int, a3: int,
    b0: int, b1: int, b2: int, b3: int,
) -> int {
    clamp_fx(tdiv_scale(a0 * b0 + a1 * b1 + a2 * b2 + a3 * b3))
}

/// The matrix product, row by column.
pub open spec fn spec_mat_mul(a: Mat4, b: Mat4) -> Mat4 {
    Mat4 {
        m00: spec_dot4(a.m00 as int, a.m01 as int, a.m02 as int, a.m03 as int,
                       b.m00 as int, b.m10 as int, b.m20 as int, b.m30 as int) as i64,
        m01: spec_dot4(a.m00 as int, a.m01 as int, a.m02 as int, a.m03 as int,
                       b.m01 as int, b.m11 as int, b.m21 as int, b.m31 as int) as i64,
        m02: spec_dot4(a.m00 as int, a.m01 as int, a.m02 as int, a.m03 as int,
                       b.m02 as int, b.m12 as int, b.m22 as int, b.m32 as int) as i64,
        m03: spec_dot4(a.m00 as int, a.m01 as int, a.m02 as int, a.m03 as int,
                       b.m03 as int, b.m13 as int, b.m23 as int, b.m33 as int) as i64,
        m10: spec_dot4(a.m10 as int, a.m11 as int, a.m12 as int, a.m13 as int,
                       b.m00 as int, b.m10 as int, b.m20 as int, b.m30 as int) as i64,
        m11: spec_dot4(a.m10 as int, a.m11 as int, a.m12 as int, a.m13 as int,
                       b.m01 as int, b.m11 as int, b.m21 as int, b.m31 as int) as i64,
        m12: spec_dot4(a.m10 as int, a.m11 as int, a.m12 as int, a.m13 as int,
                       b.m02 as int, b.m12 as int, b.m22 as int, b.m32 as int) as i64,
        m13: spec_dot4(a.m10 as int, a.m11 as int, a.m12 as int, a.m13 as int,
                       b.m03 as int, b.m13 as int, b.m23 as int, b.m33 as int) as i64,
        m20: spec_dot4(a.m20 as int, a.m21 as int, a.m22 as int, a.m23 as int,
                       b.m00 as int, b.m10 as int, b.m20 as int, b.m30 as int) as i64,
        m21: spec_dot4(a.m20 as int, a.m21 as int, a.m22 as int, a.m23 as int,
                       b.m01 as int, b.m11 as int, b.m21 as int, b.m31 as int) as i64,
        m22: spec_dot4(a.m20 as int, a.m21 as int, a.m22 as int, a.m23 as int,
                       b.m02 as int, b.m12 as int, b.m22 as int, b.m32 as int) as i64,
        m23: spec_dot4(a.m20 as int, a.m21 as int, a.m22 as int, a.m23 as int,
                       b.m03 as int, b.m13 as int, b.m23 as int, b.m33 as int) as i64,
        m30: spec_dot4(a.m30 as int, a.m31 as int, a.m32 as int, a.m33 as int,
                       b.m00 as int, b.m10 as int, b.m20 as int, b.m30 as int) as i64,
        m31: spec_dot4(a.m30 as int, a.m31 as int, a.m32 as int, a.m33 as int,
                       b.m01 as int, b.m11 as int, b.m21 as int, b.m31 as int) as i64,
        m32: spec_dot4(a.m30 as int, a.m31 as int, a.m32 as int, a.m33 as int,
                       b.m02 as int, b.m12 as int, b.m22 as int, b.m32 as int) as i64,
        m33: spec_dot4(a.m30 as int, a.m31 as int, a.m32 as int, a.m33 as int,
                       b.m03 as int, b.m13 as int, b.m23 as int, b.m33 as int) as i64,
    }
}

/// The identity transform.
pub open spec fn spec_identity() -> Mat4 {
    Mat4 {
        m00: SCALE, m01: 0, m02: 0, m03: 0,
        m10: 0, m11: SCALE, m12: 0, m13: 0,
        m20: 0, m21: 0, m22: SCALE, m23: 0,
        m30: 0, m31: 0, m32: 0, m33: SCALE,
    }
}

/// Translation by `v`, saturated into the representable range.
pub open spec fn spec_translation(v: Vec3) -> Mat4 {
    Mat4 {
        m00: SCALE, m01: 0, m02: 0, m03: clamp_fx(v.x as int) as i64,
        m10: 0, m11: SCALE, m12: 0, m13: clamp_fx(v.y as int) as i64,
        m20: 0, m21: 0, m22: SCALE, m23: clamp_fx(v.z as int) as i64,
        m30: 0, m31: 0, m32: 0, m33: SCALE,
    }
}

/// Rotation about the x axis by `a` angle units.
pub open spec fn spec_rotation_x(a: int) -> Mat4 {
    let c = spec_cos(a) as i64;
    let s = spec_sin(a) as i64;
    Mat4 {
        m00: SCALE, m01: 0, m02: 0, m03: 0,
        m10: 0, m11: c, m12: (-spec_sin(a)) as i64, m13: 0,
        m20: 0, m21: s, m22: c, m23: 0,
        m30: 0, m31: 0, m32: 0, m33: SCALE,
    }
}

/// Rotation about the y axis by `a` angle units.
pub open spec fn spec_rotation_y(a: int) -> Mat4 {
    let c = spec_cos(a) as i64;
    let s = spec_sin(a) as i64;
    Mat4 {
        m00: c, m01: 0, m02: s, m03: 0,
        m10: 0, m11: SCALE, m12: 0, m13: 0,
        m20: (-spec_sin(a)) as i64, m21: 0, m22: c, m23: 0,
        m30: 0, m31: 0, m32: 0, m33: SCALE,
    }
}

/// Rotation about the z axis by `a` angle units.
pub open spec fn spec_rotation_z(a: int) -> Mat4 {
    let c = spec_cos(a) as i64;
    let s = spec_sin(a) as i64;
    Mat4 {
        m00: c, m01: (-spec_sin(a)) as i64, m02: 0, m03: 0,
        m10: s, m11: c, m12: 0, m13: 0,
        m20: 0, m21: 0, m22: SCALE, m23: 0,
        m30: 0, m31: 0, m32: 0, m33: SCALE,
    }
}

/// Dividing a `SCALE` multiple by `SCALE` recovers the factor exactly.
pub proof fn lemma_tdiv_scale_exact(k: int)
    ensures
        tdiv_scale(k * (SCALE as int)) == k,
{
    if k >= 0 {
        lemma_div_multiples_vanish(k, SCALE as int);
    } else {
        lemma_div_multiples_vanish(-k, SCALE as int);
    }
}

/// Multiplying a bounded matrix by the identity, on either side, is exact.
pub proof fn lemma_identity_mul(a: Mat4)
    requires
        mat_bounded(a),
    ensures
        spec_mat_mul(a, spec_identity()) == a,
        spec_mat_mul(spec_identity(), a) == a,
{
    reveal(spec_dot4);
    lemma_tdiv_scale_exact(a.m00 as int);
    lemma_tdiv_scale_exact(a.m01 as int);
    lemma_tdiv_scale_exact(a.m02 as int);
    lemma_tdiv_scale_exact(a.m03 as int);
    lemma_tdiv_scale_exact(a.m10 as int);
    lemma_tdiv_scale_exact(a.m11 as int);
    lemma_tdiv_scale_exact(a.m12 as int);
    lemma_tdiv_scale_exact(a.m13 as int);
    lemma_tdiv_scale_exact(a.m20 as int);
    lemma_tdiv_scale_exact(a.m21 as int);
    lemma_tdiv_scale_exact(a.m22 as int);
    lemma_tdiv_scale_exact(a.m23 as int);
    lemma_tdiv_scale_exact(a.m30 as int);
    lemma_tdiv_scale_exact(a.m31 as int);
    lemma_tdiv_scale_exact(a.m32 as int);
    lemma_tdiv_scale_exact(a.m33 as int);
}

/// Every product is bounded, because each entry saturates.
pub proof fn lemma_mul_bounded(a: Mat4, b: Mat4)
    ensures
        mat_bounded(spec_mat_mul(a, b)),
{
    reveal(spec_dot4);
}

/// A full extra turn leaves every axis rotation unchanged.
pub proof fn lemma_rotation_period(a: int)
    ensures
        spec_rotation_x(a + TURN as int) == spec_rotation_x(a),
        spec_rotation_y(a + TURN as int) == spec_rotation_y(a),
        spec_rotation_z(a + TURN as int) == spec_rotation_z(a),
{
    lemma_trig_period(a);
}

/// One entry of a matrix product, exec form.
fn fxdot4(
    a0: i64, a1: i64, a2: i64, a3: i64,
    b0: i64, b1: i64, b2: i64, b3: i64,
) -> (r: i64)
    requires
        -COORD_LIMIT <= a0 <= COORD_LIMIT,
        -COORD_LIMIT <= a1 <= COORD_LIMIT,
        -COORD_LIMIT <= a2 <= COORD_LIMIT,
        -COORD_LIMIT <= a3 <= COORD_LIMIT,
        -COORD_LIMIT <= b0 <= COORD_LIMIT,
        -COORD_LIMIT <= b1 <= COORD_LIMIT,
        -COORD_LIMIT <= b2 <= COORD_LIMIT,
        -COORD_LIMIT <= b3 <= COORD_LIMIT,
    ensures
        r as int == spec_dot4(a0 as int, a1 as int, a2 as int, a3 as int,
                              b0 as int, b1 as int, b2 as int, b3 as int),
        -COORD_LIMIT <= r <= COORD_LIMIT,
{
    proof {
        reveal(spec_dot4);
        lemma_mul_magnitude(a0 as int, b0 as int, COORD_LIMIT as int, COORD_LIMIT as int);
        lemma_mul_magnitude(a1 as int, b1 as int, COORD_LIMIT as int, COORD_LIMIT as int);
        lemma_mul_magnitude(a2 as int, b2 as int, COORD_LIMIT as int, COORD_LIMIT as int);
        lemma_mul_magnitude(a3 as int, b3 as int, COORD_LIMIT as int, COORD_LIMIT as int);
    }
    let p0: i128 = (a0 as i128) * (b0 as i128);
    let p1: i128 = (a1 as i128) * (b1 as i128);
    let p2: i128 = (a2 as i128) * (b2 as i128);
    let p3: i128 = (a3 as i128) * (b3 as i128);
    let s: i128 = p0 + p1 + p2 + p3;
    let neg: bool = s < 0;
    let mag: u128 = if neg {
        (-s) as u128
    } else {
        s as u128
    };
    let q: u128 = mag / (SCALE as u128);
    if neg {
        if q > COORD_LIMIT as u128 {
            -COORD_LIMIT
        } else {
            -(q as i64)
        }
    } else {
        if q > COORD_LIMIT as u128 {
            COORD_LIMIT
        } else {
            q as i64
        }
    }
}

impl Mat4 {
    /// The identity transform.
    pub fn identity() -> (r: Mat4)
        ensures
            r == spec_identity(),
            mat_bounded(r),
    {
        Mat4 {
            m00: SCALE, m01: 0, m02: 0, m03: 0,
            m10: 0, m11: SCALE, m12: 0, m13: 0,
            m20: 0, m21: 0, m22: SCALE, m23: 0,
            m30: 0, m31: 0, m32: 0, m33: SCALE,
        }
    }

    /// Whether every entry lies within the saturation range; the bound
    /// that the multiplication routines expect of their operands.
    pub fn is_bounded(&self) -> (r: bool)
        ensures
            r == mat_bounded(*self),
    {
        -COORD_LIMIT <= self.m00 && self.m00 <= COORD_LIMIT
            && -COORD_LIMIT <= self.m01 && self.m01 <= COORD_LIMIT
            && -COORD_LIMIT <= self.m02 && self.m02 <= COORD_LIMIT
            && -COORD_LIMIT <= self.m03 && self.m03 <= COORD_LIMIT
            && -COORD_LIMIT <= self.m10 && self.m10 <= COORD_LIMIT
            && -COORD_LIMIT <= self.m11 && self.m11 <= COORD_LIMIT
            && -COORD_LIMIT <= self.m12 && self.m12 <= COORD_LIMIT
            && -COORD_LIMIT <= self.m13 && self.m13 <= COORD_LIMIT
            && -COORD_LIMIT <= self.m20 && self.m20 <= COORD_LIMIT
            && -COORD_LIMIT <= self.m21 && self.m21 <= COORD_LIMIT
            && -COORD_LIMIT <= self.m22 && self.m22 <= COORD_LIMIT
            && -COORD_LIMIT <= self.m23 && self.m23 <= COORD_LIMIT
            && -COORD_LIMIT <= self.m30 && self.m30 <= COORD_LIMIT
            && -COORD_LIMIT <= self.m31 && self.m31 <= COORD_LIMIT
            && -COORD_LIMIT <= self.m32 && self.m32 <= COORD_LIMIT
            && -COORD_LIMIT <= self.m33 && self.m33 <= COORD_LIMIT
    }
}

/// The matrix product of two bounded matrices.
pub fn mat_mul(a: &Mat4, b: &Mat4) -> (r: Mat4)
    requires
        mat_bounded(*a),
        mat_bounded(*b),
    ensures
        r == spec_mat_mul(*a, *b),
        mat_bounded(r),
{
    Mat4 {
        m00: fxdot4(a.m00, a.m01, a.m02, a.m03, b.m00, b.m10, b.m20, b.m30),
        m01: fxdot4(a.m00, a.m01, a.m02, a.m03, b.m01, b.m11, b.m21, b.m31),
        m02: fxdot4(a.m00, a.m01, a.m02, a.m03, b.m02, b.m12, b.m22, b.m32),
        m03: fxdot4(a.m00, a.m01, a.m02, a.m03, b.m03, b.m13, b.m23, b.m33),
        m10: fxdot4(a.m10, a.m11, a.m12, a.m13, b.m00, b.m10, b.m20, b.m30),
        m11: fxdot4(a.m10, a.m11, a.m12, a.m13, b.m01, b.m11, b.m21, b.m31),
        m12: fxdot4(a.m10, a.m11, a.m12, a.m13, b.m02, b.m12, b.m22, b.m32),
        m13: fxdot4(a.m10, a.m11, a.m12, a.m13, b.m03, b.m13, b.m23, b.m33),
        m20: fxdot4(a.m20, a.m21, a.m22, a.m23, b.m00, b.m10, b.m20, b.m30),
        m21: fxdot4(a.m20, a.m21, a.m22, a.m23, b.m01, b.m11, b.m21, b.m31),
        m22: fxdot4(a.m20, a.m21, a.m22, a.m23, b.m02, b.m12, b.m22, b.m32),
        m23: fxdot4(a.m20, a.m21, a.m22, a.m23, b.m03, b.m13, b.m23, b.m33),
        m30: fxdot4(a.m30, a.m31, a.m32, a.m33, b.m00, b.m10, b.m20, b.m30),
        m31: fxdot4(a.m30, a.m31, a.m32, a.m33, b.m01, b.m11, b.m21, b.m31),
        m32: fxdot4(a.m30, a.m31, a.m32, a.m33, b.m02, b.m12, b.m22, b.m32),
        m33: fxdot4(a.m30, a.m31, a.m32, a.m33, b.m03, b.m13, b.m23, b.m33),
    }
}

/// Saturate one coordinate into the representable range.
fn clamp_coord(x: i64) -> (r: i64)
    ensures
        r as int == clamp_fx(x as int),
{
    if x > COORD_LIMIT {
        COORD_LIMIT
    } else if x < -COORD_LIMIT {
        -COORD_LIMIT
    } else {
        x
    }
}

/// Translation by `v`.
pub fn translation(v: &Vec3) -> (r: Mat4)
    ensures
        r == spec_translation(*v),
        mat_bounded(r),
{
    Mat4 {
        m00: SCALE, m01: 0, m02: 0, m03: clamp_coord(v.x),
        m10: 0, m11: SCALE, m12: 0, m13: clamp_coord(v.y),
        m20: 0, m21: 0, m22: SCALE, m23: clamp_coord(v.z),
        m30: 0, m31: 0, m32: 0, m33: SCALE,
    }
}

/// Rotation about the x axis by `angle` units.
pub fn rotation_x(angle: i64) -> (r: Mat4)
    ensures
        r == spec_rotation_x(angle as int),
        mat_bounded(r),
{
    let c = cos_fx(angle);
    let s = sin_fx(angle);
    Mat4 {
        m00: SCALE, m01: 0, m02: 0, m03: 0,
        m10: 0, m11: c, m12: -s, m13: 0,
        m20: 0, m21: s, m22: c, m23: 0,
        m30: 0, m31: 0, m32: 0, m33: SCALE,
    }
}

/// Rotation about the y axis by `angle` units.
pub fn rotation_y(angle: i64) -> (r: Mat4)
    ensures
        r == spec_rotation_y(angle as int),
        mat_bounded(r),
{
    let c = cos_fx(angle);
    let s = sin_fx(angle);
    Mat4 {
        m00: c, m01: 0, m02: s, m03: 0,
        m10: 0, m11: SCALE, m12: 0, m13: 0,
        m20: -s, m21: 0, m22: c, m23: 0,
        m30: 0, m31: 0, m32: 0, m33: SCALE,
    }
}

/// Rotation about the z axis by `angle` units.
pub fn rotation_z(angle: i64) -> (r: Mat4)
    ensures
        r == spec_rotation_z(angle as int),
        mat_bounded(r),
{
    let c = cos_fx(angle);
    let s = sin_fx(angle);
    Mat4 {
        m00: c, m01: -s, m02: 0, m03: 0,
        m10: s, m11: c, m12: 0, m13: 0,
        m20: 0, m21: 0, m22: SCALE, m23: 0,
        m30: 0, m31: 0, m32: 0, m33: SCALE,
    }
}

} // verus!
