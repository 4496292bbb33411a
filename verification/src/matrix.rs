//! Fixed-point 3x3 rotation matrices and their composition.
//!
//! Every entry is the real value scaled by `FP_ONE`, and every operation
//! has an exact contract: a multiplication's result is pinned entry by
//! entry to a truncated scaled dot product. Angles enter as scaled sine
//! and cosine pairs, so the composition logic is verified while the
//! trigonometric evaluation stays with the caller.

use vstd::prelude::*;
use crate::math::{lemma_mul_abs_bound, lemma_div_bounds};

verus! {

/// The fixed-point unit: entries are real values scaled by this factor.
pub const FP_ONE: i64 = 1_000_000_000_000_000;

/// A 3x3 matrix with fixed-point entries, row major.
#[derive(Debug, Clone, Copy, PartialEq, Eq, Structural)]
pub struct Mat3 {
    pub m00: i64, pub m01: i64, pub m02: i64,
    pub m10: i64, pub m11: i64, pub m12: i64,
    pub m20: i64, pub m21: i64, pub m22: i64,
}

/// A 3-vector with integer entries; the unit is the caller's choice.
#[derive(Debug, Clone, Copy, PartialEq, Eq, Structural)]
pub struct Vec3 {
    pub x: i64,
    pub y: i64,
    pub z: i64,
}

/// An angle given by its sine and cosine, both scaled by `FP_ONE`.
#[derive(Debug, Clone, Copy, PartialEq, Eq, Structural)]
pub struct RotAngle {
    pub sin: i64,
    pub cos: i64,
}

/// Sine and cosine magnitudes at most one.
pub open spec fn angle_wf(a: RotAngle) -> bool {
    &&& -FP_ONE <= a.sin <= FP_ONE
    &&& -FP_ONE <= a.cos <= FP_ONE
}

/// Every entry bounded in magnitude by `b`.
pub open spec fn entries_bounded(m: Mat3, b: int) -> bool {
    &&& -b <= m.m00 <= b && -b <= m.m01 <= b && -b <= m.m02 <= b
    &&& -b <= m.m10 <= b && -b <= m.m11 <= b && -b <= m.m12 <= b
    &&& -b <= m.m20 <= b && -b <= m.m21 <= b && -b <= m.m22 <= b
}

/// Division by the fixed-point unit, rounded toward zero.
pub open spec fn fp_scale(x: int) -> int {
    if x >= 0 {
        x / (FP_ONE as int)
    } else {
        -((-x) / (FP_ONE as int))
    }
}

/// The fixed-point dot product of two triples: the scaled products summed,
/// then brought back to scale.
pub open spec fn dot3(a0: int, a1: int, a2: int, b0: int, b1: int, b2: int) -> int {
    fp_scale(a0 * b0 + a1 * b1 + a2 * b2)
}

/// The fixed-point matrix product.
pub open spec fn mat_mul_spec(a: Mat3, b: Mat3) -> Mat3 {
    Mat3 {
        m00: dot3(a.m00 as int, a.m01 as int, a.m02 as int, b.m00 as int, b.m10 as int, b.m20 as int) as i64,
        m01: dot3(a.m00 as int, a.m01 as int, a.m02 as int, b.m01 as int, b.m11 as int, b.m21 as int) as i64,
        m02: dot3(a.m00 as int, a.m01 as int, a.m02 as int, b.m02 as int, b.m12 as int, b.m22 as int) as i64,
        m10: dot3(a.m10 as int, a.m11 as int, a.m12 as int, b.m00 as int, b.m10 as int, b.m20 as int) as i64,
        m11: dot3(a.m10 as int, a.m11 as int, a.m12 as int, b.m01 as int, b.m11 as int, b.m21 as int) as i64,
        m12: dot3(a.m10 as int, a.m11 as int, a.m12 as int, b.m02 as int, b.m12 as int, b.m22 as int) as i64,
        m20: dot3(a.m20 as int, a.m21 as int, a.m22 as int, b.m00 as int, b.m10 as int, b.m20 as int) as i64,
        m21: dot3(a.m20 as int, a.m21 as int, a.m22 as int, b.m01 as int, b.m11 as int, b.m21 as int) as i64,
        m22: dot3(a.m20 as int, a.m21 as int, a.m22 as int, b.m02 as int, b.m12 as int, b.m22 as int) as i64,
    }
}

/// The fixed-point product of a matrix and a column vector.
pub open spec fn mat_vec_spec(m: Mat3, v: Vec3) -> Vec3 {
    Vec3 {
        x: dot3(m.m00 as int, m.m01 as int, m.m02 as int, v.x as int, v.y as int, v.z as int) as i64,
        y: dot3(m.m10 as int, m.m11 as int, m.m12 as int, v.x as int, v.y as int, v.z as int) as i64,
        z: dot3(m.m20 as int, m.m21 as int, m.m22 as int, v.x as int, v.y as int, v.z as int) as i64,
    }
}

/// The transpose.
pub open spec fn transpose_spec(m: Mat3) -> Mat3 {
    Mat3 {
        m00: m.m00, m01: m.m10, m02: m.m20,
        m10: m.m01, m11: m.m11, m12: m.m21,
        m20: m.m02, m21: m.m12, m22: m.m22,
    }
}

/// The identity at fixed-point scale.
pub open spec fn identity_spec() -> Mat3 {
    Mat3 {
        m00: FP_ONE, m01: 0, m02: 0,
        m10: 0, m11: FP_ONE, m12: 0,
        m20: 0, m21: 0, m22: FP_ONE,
    }
}

/// Rotation about the z axis by the angle `a`, in the frame-rotation sign
/// convention: row one is `(cos, sin, 0)`.
pub open spec fn rz_spec(a: RotAngle) -> Mat3 {
    Mat3 {
        m00: a.cos, m01: a.sin, m02: 0,
        m10: (-a.sin) as i64, m11: a.cos, m12: 0,
        m20: 0, m21: 0, m22: FP_ONE,
    }
}

/// Rotation about the x axis by the angle `a`, frame-rotation convention.
pub open spec fn rx_spec(a: RotAngle) -> Mat3 {
    Mat3 {
        m00: FP_ONE, m01: 0, m02: 0,
        m10: 0, m11: a.cos, m12: a.sin,
        m20: 0, m21: (-a.sin) as i64, m22: a.cos,
    }
}

/// Rotation about the y axis by the angle `a`, frame-rotation convention.
pub open spec fn ry_spec(a: RotAngle) -> Mat3 {
    Mat3 {
        m00: a.cos, m01: 0, m02: (-a.sin) as i64,
        m10: 0, m11: FP_ONE, m12: 0,
        m20: a.sin, m21: 0, m22: a.cos,
    }
}

/// The same angle turned the other way.
pub open spec fn neg_spec(a: RotAngle) -> RotAngle {
    RotAngle { sin: (-a.sin) as i64, cos: a.cos }
}

/// Truncated division of a bounded sum by the fixed-point unit.
fn fp_scale_exec(x: i128) -> (r: i64)
    requires
        -9_000_000_000_000_000_000_000_000_000_000_000 <= x
            <= 9_000_000_000_000_000_000_000_000_000_000_000,
    ensures
        r == fp_scale(x as int),
{
    proof {
        lemma_div_bounds(
            if x >= 0 { x as int } else { -x as int },
            FP_ONE as int,
            9_000_000_000_000_000_000_000_000_000_000_000int,
        );
        assert(9_000_000_000_000_000_000_000_000_000_000_000int / (FP_ONE as int)
            == 9_000_000_000_000_000_000int) by (nonlinear_arith);
    }
    if x >= 0 {
        ((x as u128) / (FP_ONE as u128)) as i64
    } else {
        -((((-x) as u128) / (FP_ONE as u128)) as i64)
    }
}

/// The fixed-point dot product, with magnitude bounds threaded through.
fn dot3_exec(
    a0: i64, a1: i64, a2: i64,
    b0: i64, b1: i64, b2: i64,
    Ghost(ba): Ghost<int>,
    Ghost(bb): Ghost<int>,
) -> (r: i64)
    requires
        0 <= ba,
        0 <= bb,
        -ba <= a0 <= ba && -ba <= a1 <= ba && -ba <= a2 <= ba,
        -bb <= b0 <= bb && -bb <= b1 <= bb && -bb <= b2 <= bb,
        3 * (ba * bb) <= 9_000_000_000_000_000_000_000_000_000_000_000,
    ensures
        r == dot3(a0 as int, a1 as int, a2 as int, b0 as int, b1 as int, b2 as int),
        -(3 * (ba * bb) / (FP_ONE as int)) <= r <= 3 * (ba * bb) / (FP_ONE as int),
{
    proof {
        lemma_mul_abs_bound(a0 as int, b0 as int, ba, bb);
        lemma_mul_abs_bound(a1 as int, b1 as int, ba, bb);
        lemma_mul_abs_bound(a2 as int, b2 as int, ba, bb);
    }
    let s: i128 = (a0 as i128) * (b0 as i128) + (a1 as i128) * (b1 as i128)
        + (a2 as i128) * (b2 as i128);
    let r = fp_scale_exec(s);
    proof {
        let one = FP_ONE as int;
        let m = if s >= 0 { s as int } else { -s as int };
        lemma_div_bounds(m, one, 3 * (ba * bb));
    }
    r
}

/// The fixed-point matrix product. The bound parameters cap the entry
/// magnitudes so the scaled result fits its word.
pub fn mat_mul(a: &Mat3, b: &Mat3, Ghost(ba): Ghost<int>, Ghost(bb): Ghost<int>) -> (r: Mat3)
    requires
        0 <= ba,
        0 <= bb,
        entries_bounded(*a, ba),
        entries_bounded(*b, bb),
        3 * (ba * bb) <= 9_000_000_000_000_000_000_000_000_000_000_000,
    ensures
        r == mat_mul_spec(*a, *b),
        entries_bounded(r, 3 * (ba * bb) / (FP_ONE as int)),
{
    let g = Ghost(ba);
    let h = Ghost(bb);
    Mat3 {
        m00: dot3_exec(a.m00, a.m01, a.m02, b.m00, b.m10, b.m20, g, h),
        m01: dot3_exec(a.m00, a.m01, a.m02, b.m01, b.m11, b.m21, g, h),
        m02: dot3_exec(a.m00, a.m01, a.m02, b.m02, b.m12, b.m22, g, h),
        m10: dot3_exec(a.m10, a.m11, a.m12, b.m00, b.m10, b.m20, g, h),
        m11: dot3_exec(a.m10, a.m11, a.m12, b.m01, b.m11, b.m21, g, h),
        m12: dot3_exec(a.m10, a.m11, a.m12, b.m02, b.m12, b.m22, g, h),
        m20: dot3_exec(a.m20, a.m21, a.m22, b.m00, b.m10, b.m20, g, h),
        m21: dot3_exec(a.m20, a.m21, a.m22, b.m01, b.m11, b.m21, g, h),
        m22: dot3_exec(a.m20, a.m21, a.m22, b.m02, b.m12, b.m22, g, h),
    }
}

/// The fixed-point product of a matrix and a column vector.
pub fn mat_vec(m: &Mat3, v: &Vec3, Ghost(bm): Ghost<int>, Ghost(bv): Ghost<int>) -> (r: Vec3)
    requires
        0 <= bm,
        0 <= bv,
        entries_bounded(*m, bm),
        -bv <= v.x <= bv && -bv <= v.y <= bv && -bv <= v.z <= bv,
        3 * (bm * bv) <= 9_000_000_000_000_000_000_000_000_000_000_000,
    ensures
        r == mat_vec_spec(*m, *v),
        -(3 * (bm * bv) / (FP_ONE as int)) <= r.x <= 3 * (bm * bv) / (FP_ONE as int),
        -(3 * (bm * bv) / (FP_ONE as int)) <= r.y <= 3 * (bm * bv) / (FP_ONE as int),
        -(3 * (bm * bv) / (FP_ONE as int)) <= r.z <= 3 * (bm * bv) / (FP_ONE as int),
{
    let g = Ghost(bm);
    let h = Ghost(bv);
    Vec3 {
        x: dot3_exec(m.m00, m.m01, m.m02, v.x, v.y, v.z, g, h),
        y: dot3_exec(m.m10, m.m11, m.m12, v.x, v.y, v.z, g, h),
        z: dot3_exec(m.m20, m.m21, m.m22, v.x, v.y, v.z, g, h),
    }
}

/// The transpose.
pub fn transpose(m: &Mat3) -> (r: Mat3)
    ensures
        r == transpose_spec(*m),
{
    Mat3 {
        m00: m.m00, m01: m.m10, m02: m.m20,
        m10: m.m01, m11: m.m11, m12: m.m21,
        m20: m.m02, m21: m.m12, m22: m.m22,
    }
}

/// The identity matrix.
pub fn identity() -> (r: Mat3)
    ensures
        r == identity_spec(),
        entries_bounded(r, FP_ONE as int),
{
    Mat3 {
        m00: FP_ONE, m01: 0, m02: 0,
        m10: 0, m11: FP_ONE, m12: 0,
        m20: 0, m21: 0, m22: FP_ONE,
    }
}

/// Rotation about the z axis.
pub fn rz(a: RotAngle) -> (r: Mat3)
    requires
        angle_wf(a),
    ensures
        r == rz_spec(a),
        entries_bounded(r, FP_ONE as int),
{
    Mat3 {
        m00: a.cos, m01: a.sin, m02: 0,
        m10: -a.sin, m11: a.cos, m12: 0,
        m20: 0, m21: 0, m22: FP_ONE,
    }
}

/// Rotation about the x axis.
pub fn rx(a: RotAngle) -> (r: Mat3)
    requires
        angle_wf(a),
    ensures
        r == rx_spec(a),
        entries_bounded(r, FP_ONE as int),
{
    Mat3 {
        m00: FP_ONE, m01: 0, m02: 0,
        m10: 0, m11: a.cos, m12: a.sin,
        m20: 0, m21: -a.sin, m22: a.cos,
    }
}

/// Rotation about the y axis.
pub fn ry(a: RotAngle) -> (r: Mat3)
    requires
        angle_wf(a),
    ensures
        r == ry_spec(a),
        entries_bounded(r, FP_ONE as int),
{
    Mat3 {
        m00: a.cos, m01: 0, m02: -a.sin,
        m10: 0, m11: FP_ONE, m12: 0,
        m20: a.sin, m21: 0, m22: a.cos,
    }
}

/// The same angle turned the other way.
pub fn neg_angle(a: RotAngle) -> (r: RotAngle)
    requires
        angle_wf(a),
    ensures
        r == neg_spec(a),
        angle_wf(r),
{
    RotAngle { sin: -a.sin, cos: a.cos }
}

} // verus!
