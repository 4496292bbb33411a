//! Reference frames and the celestial-to-terrestrial transformation
//! pipelines.
//!
//! Positions are tagged by frame so an untagged vector can never cross a
//! frame boundary without a transform. The primary pipeline composes the
//! GCRS-to-CIRS matrix, the Earth rotation, and polar motion; the legacy
//! path composes the 1982 sidereal-time rotation with polar motion, without
//! the terrestrial-origin refinement. The trigonometric primitives stay
//! with the caller: angles arrive as scaled sine and cosine pairs, and
//! every composition is pinned to the fixed-point matrix algebra of
//! `crate::matrix`.

use vstd::prelude::*;
use crate::matrix::{
    Mat3, Vec3, RotAngle, FP_ONE, angle_wf, entries_bounded, mat_mul, mat_mul_spec, mat_vec,
    mat_vec_spec, rz, rx, ry, rz_spec, rx_spec, ry_spec, neg_angle, neg_spec, transpose_spec,
    identity_spec, fp_scale,
};
use crate::math::{lemma_mul_abs_bound, lemma_div_bounds};

verus! {

/// A position in the Barycentric Celestial Reference System.
#[derive(Debug, Clone, Copy, PartialEq, Eq, Structural)]
pub struct BCRS(pub Vec3);

/// A position in the International Celestial Reference System.
#[derive(Debug, Clone, Copy, PartialEq, Eq, Structural)]
pub struct ICRS(pub Vec3);

/// A position in the Geocentric Celestial Reference System.
#[derive(Debug, Clone, Copy, PartialEq, Eq, Structural)]
pub struct GCRS(pub Vec3);

/// A position in the International Terrestrial Reference System.
#[derive(Debug, Clone, Copy, PartialEq, Eq, Structural)]
pub struct ITRS(pub Vec3);

/// A position in the True-Equator-Mean-Equinox frame of the simplified
/// orbital propagators.
#[derive(Debug, Clone, Copy, PartialEq, Eq, Structural)]
pub struct TEME(pub Vec3);

/// The angle whose sine is zero and cosine one.
pub open spec fn zero_angle_spec() -> RotAngle {
    RotAngle { sin: 0, cos: FP_ONE }
}

/// The polar-motion matrix: rotations by the terrestrial-origin locator
/// about z, then by the polar-motion angles about y and x.
pub open spec fn pom_spec(xp: RotAngle, yp: RotAngle, sp: RotAngle) -> Mat3 {
    mat_mul_spec(rx_spec(neg_spec(yp)), mat_mul_spec(ry_spec(neg_spec(xp)), rz_spec(sp)))
}

/// Builds the polar-motion (TIRS to ITRS) matrix from the polar-motion
/// angles and the terrestrial-origin locator. For exactly unit angles,
/// `crate::ortho::lemma_pom_orthonormal` bounds the result's Gram
/// deviation.
pub fn pom_matrix(xp: RotAngle, yp: RotAngle, sp: RotAngle) -> (r: Mat3)
    requires
        angle_wf(xp),
        angle_wf(yp),
        angle_wf(sp),
    ensures
        r == pom_spec(xp, yp, sp),
        entries_bounded(r, 9 * FP_ONE),
{
    proof {
        lemma_rotation_bound_products();
    }
    let inner = mat_mul(
        &ry(neg_angle(xp)), &rz(sp), Ghost(FP_ONE as int), Ghost(FP_ONE as int));
    mat_mul(
        &rx(neg_angle(yp)), &inner, Ghost(FP_ONE as int), Ghost(3 * FP_ONE as int))
}

/// Ground facts about products of the fixed-point unit, shared by the
/// pipeline bounds.
proof fn lemma_rotation_bound_products()
    ensures
        (FP_ONE as int) * (FP_ONE as int) == 1_000_000_000_000_000_000_000_000_000_000,
        3 * ((FP_ONE as int) * (FP_ONE as int)) / (FP_ONE as int) == 3 * (FP_ONE as int),
        (FP_ONE as int) * (3 * FP_ONE as int) == 3_000_000_000_000_000_000_000_000_000_000,
        3 * ((FP_ONE as int) * (3 * FP_ONE as int)) / (FP_ONE as int) == 9 * (FP_ONE as int),
        (FP_ONE as int) * (2 * FP_ONE as int) == 2_000_000_000_000_000_000_000_000_000_000,
        3 * ((FP_ONE as int) * (2 * FP_ONE as int)) / (FP_ONE as int) == 6 * (FP_ONE as int),
        (9 * FP_ONE as int) * (6 * FP_ONE as int) == 54_000_000_000_000_000_000_000_000_000_000,
        (9 * FP_ONE as int) * (FP_ONE as int) == 9_000_000_000_000_000_000_000_000_000_000,
{
    assert((FP_ONE as int) * (FP_ONE as int) == 1_000_000_000_000_000_000_000_000_000_000
        && 3_000_000_000_000_000_000_000_000_000_000int / (FP_ONE as int)
            == 3 * (FP_ONE as int)
        && (FP_ONE as int) * (3 * FP_ONE as int) == 3_000_000_000_000_000_000_000_000_000_000
        && 9_000_000_000_000_000_000_000_000_000_000int / (FP_ONE as int)
            == 9 * (FP_ONE as int)
        && (FP_ONE as int) * (2 * FP_ONE as int) == 2_000_000_000_000_000_000_000_000_000_000
        && 6_000_000_000_000_000_000_000_000_000_000int / (FP_ONE as int)
            == 6 * (FP_ONE as int)
        && (9 * FP_ONE as int) * (6 * FP_ONE as int)
            == 54_000_000_000_000_000_000_000_000_000_000
        && (9 * FP_ONE as int) * (FP_ONE as int)
            == 9_000_000_000_000_000_000_000_000_000_000) by (nonlinear_arith);
}

/// The GCRS-to-ITRS rotation: polar motion, after the Earth rotation,
/// after the celestial-to-intermediate matrix. `rc2i` is the GCRS-to-CIRS
/// matrix; `era` the Earth rotation angle; `xp`, `yp` the polar-motion
/// angles; `sp` the terrestrial-origin locator. For exactly unit angles
/// and a near-orthonormal `rc2i`,
/// `crate::ortho::lemma_gcrs_matrix_orthonormal` bounds the result's Gram
/// deviation.
pub fn gcrs_to_itrs(rc2i: &Mat3, era: RotAngle, xp: RotAngle, yp: RotAngle, sp: RotAngle) -> (r:
    Mat3)
    requires
        entries_bounded(*rc2i, 2 * FP_ONE),
        angle_wf(era),
        angle_wf(xp),
        angle_wf(yp),
        angle_wf(sp),
    ensures
        r == mat_mul_spec(pom_spec(xp, yp, sp), mat_mul_spec(rz_spec(era), *rc2i)),
        entries_bounded(r, 162 * FP_ONE),
{
    proof {
        lemma_rotation_bound_products();
        assert(3 * ((9 * FP_ONE as int) * (6 * FP_ONE as int)) / (FP_ONE as int)
            == 162 * (FP_ONE as int)) by (nonlinear_arith);
    }
    let rc2ti = mat_mul(&rz(era), rc2i, Ghost(FP_ONE as int), Ghost(2 * FP_ONE as int));
    let rpom = pom_matrix(xp, yp, sp);
    mat_mul(&rpom, &rc2ti, Ghost(9 * FP_ONE as int), Ghost(6 * FP_ONE as int))
}

impl TEME {
    /// The TEME-to-ITRS rotation of the legacy path: polar motion after
    /// the 1982 sidereal-time rotation, without the terrestrial-origin
    /// locator. For exactly unit angles,
    /// `crate::ortho::lemma_legacy_matrix_orthonormal` bounds the
    /// result's Gram deviation.
    pub fn teme_to_itrs_mat(gmst: RotAngle, xp: RotAngle, yp: RotAngle) -> (r: Mat3)
        requires
            angle_wf(gmst),
            angle_wf(xp),
            angle_wf(yp),
        ensures
            r == mat_mul_spec(pom_spec(xp, yp, zero_angle_spec()), rz_spec(gmst)),
            entries_bounded(r, 27 * FP_ONE),
    {
        proof {
            lemma_rotation_bound_products();
            assert(3 * ((9 * FP_ONE as int) * (FP_ONE as int)) / (FP_ONE as int)
                == 27 * (FP_ONE as int)) by (nonlinear_arith);
        }
        let rpom = pom_matrix(xp, yp, RotAngle { sin: 0, cos: FP_ONE });
        mat_mul(&rpom, &rz(gmst), Ghost(9 * FP_ONE as int), Ghost(FP_ONE as int))
    }

    /// The legacy transform applied directly to this position: the
    /// TEME-to-ITRS rotation of `teme_to_itrs_mat` taken to the position
    /// vector.
    pub fn into_itrs_r(self, gmst: RotAngle, xp: RotAngle, yp: RotAngle) -> (r: ITRS)
        requires
            angle_wf(gmst),
            angle_wf(xp),
            angle_wf(yp),
            -90_000_000_000_000_000 <= self.0.x <= 90_000_000_000_000_000,
            -90_000_000_000_000_000 <= self.0.y <= 90_000_000_000_000_000,
            -90_000_000_000_000_000 <= self.0.z <= 90_000_000_000_000_000,
        ensures
            r.0 == mat_vec_spec(
                mat_mul_spec(pom_spec(xp, yp, zero_angle_spec()), rz_spec(gmst)),
                self.0,
            ),
    {
        proof {
            assert((27 * FP_ONE as int) * 90_000_000_000_000_000int
                == 2_430_000_000_000_000_000_000_000_000_000_000int) by (nonlinear_arith);
        }
        let m = Self::teme_to_itrs_mat(gmst, xp, yp);
        ITRS(mat_vec(
            &m, &self.0, Ghost(27 * FP_ONE as int), Ghost(90_000_000_000_000_000int)))
    }
}

/// Applies a composed rotation to a position vector: entries of the
/// matrix within thirty units, entries of the vector within the range of
/// an Earth-scale coordinate.
pub fn mat_apply(m: &Mat3, v: &Vec3) -> (r: Vec3)
    requires
        entries_bounded(*m, 30 * FP_ONE),
        -90_000_000_000_000_000 <= v.x <= 90_000_000_000_000_000,
        -90_000_000_000_000_000 <= v.y <= 90_000_000_000_000_000,
        -90_000_000_000_000_000 <= v.z <= 90_000_000_000_000_000,
    ensures
        r == mat_vec_spec(*m, *v),
{
    proof {
        assert((30 * FP_ONE as int) * 90_000_000_000_000_000int
            == 2_700_000_000_000_000_000_000_000_000_000_000int) by (nonlinear_arith);
    }
    mat_vec(m, v, Ghost(30 * FP_ONE as int), Ghost(90_000_000_000_000_000int))
}

/// The transpose of an axis rotation is the rotation by the opposite
/// angle: transposing undoes the turn.
pub proof fn lemma_rotation_transpose_negates(a: RotAngle)
    requires
        angle_wf(a),
    ensures
        transpose_spec(rz_spec(a)) == rz_spec(neg_spec(a)),
        transpose_spec(rx_spec(a)) == rx_spec(neg_spec(a)),
        transpose_spec(ry_spec(a)) == ry_spec(neg_spec(a)),
{
}

/// An exactly unit angle makes the z rotation exactly orthonormal: its
/// transpose composed with it is the identity, with no rounding residue.
pub proof fn lemma_rz_orthonormal(a: RotAngle)
    requires
        angle_wf(a),
        a.sin * a.sin + a.cos * a.cos == (FP_ONE as int) * (FP_ONE as int),
    ensures
        mat_mul_spec(transpose_spec(rz_spec(a)), rz_spec(a)) == identity_spec(),
{
    let s = a.sin as int;
    let c = a.cos as int;
    let one = FP_ONE as int;
    assert(c * c + (-s) * (-s) == one * one && c * s + (-s) * c == 0 && s * c + c * (-s) == 0)
        by (nonlinear_arith)
        requires
            s * s + c * c == one * one,
    ;
    assert((FP_ONE as int) * (FP_ONE as int) == 1_000_000_000_000_000_000_000_000_000_000int
        && 1_000_000_000_000_000_000_000_000_000_000int / (FP_ONE as int) == FP_ONE as int
        && 0int / (FP_ONE as int) == 0) by (nonlinear_arith);
    assert(fp_scale(one * one) == one && fp_scale(0) == 0);
}

/// An exactly unit angle makes the x rotation exactly orthonormal.
pub proof fn lemma_rx_orthonormal(a: RotAngle)
    requires
        angle_wf(a),
        a.sin * a.sin + a.cos * a.cos == (FP_ONE as int) * (FP_ONE as int),
    ensures
        mat_mul_spec(transpose_spec(rx_spec(a)), rx_spec(a)) == identity_spec(),
{
    let s = a.sin as int;
    let c = a.cos as int;
    let one = FP_ONE as int;
    assert(c * c + (-s) * (-s) == one * one && c * s + (-s) * c == 0 && s * c + c * (-s) == 0)
        by (nonlinear_arith)
        requires
            s * s + c * c == one * one,
    ;
    assert((FP_ONE as int) * (FP_ONE as int) == 1_000_000_000_000_000_000_000_000_000_000int
        && 1_000_000_000_000_000_000_000_000_000_000int / (FP_ONE as int) == FP_ONE as int
        && 0int / (FP_ONE as int) == 0) by (nonlinear_arith);
    assert(fp_scale(one * one) == one && fp_scale(0) == 0);
}

/// An exactly unit angle makes the y rotation exactly orthonormal.
pub proof fn lemma_ry_orthonormal(a: RotAngle)
    requires
        angle_wf(a),
        a.sin * a.sin + a.cos * a.cos == (FP_ONE as int) * (FP_ONE as int),
    ensures
        mat_mul_spec(transpose_spec(ry_spec(a)), ry_spec(a)) == identity_spec(),
{
    let s = a.sin as int;
    let c = a.cos as int;
    let one = FP_ONE as int;
    assert(c * c + (-s) * (-s) == one * one && c * s + (-s) * c == 0 && s * c + c * (-s) == 0)
        by (nonlinear_arith)
        requires
            s * s + c * c == one * one,
    ;
    assert((FP_ONE as int) * (FP_ONE as int) == 1_000_000_000_000_000_000_000_000_000_000int
        && 1_000_000_000_000_000_000_000_000_000_000int / (FP_ONE as int) == FP_ONE as int
        && 0int / (FP_ONE as int) == 0) by (nonlinear_arith);
    assert(fp_scale(one * one) == one && fp_scale(0) == 0);
}

/// The magnitude of an integer.
pub open spec fn abs_int(x: int) -> int {
    if x >= 0 {
        x
    } else {
        -x
    }
}

/// The largest deviation of the matrix's Gram products from those of an
/// orthonormal matrix, at squared fixed-point scale: how far the columns
/// are from unit length and mutual orthogonality.
pub open spec fn gram_defect(m: Mat3) -> int {
    let one2 = (FP_ONE as int) * (FP_ONE as int);
    let g00 = m.m00 * m.m00 + m.m10 * m.m10 + m.m20 * m.m20;
    let g11 = m.m01 * m.m01 + m.m11 * m.m11 + m.m21 * m.m21;
    let g22 = m.m02 * m.m02 + m.m12 * m.m12 + m.m22 * m.m22;
    let g01 = m.m00 * m.m01 + m.m10 * m.m11 + m.m20 * m.m21;
    let g02 = m.m00 * m.m02 + m.m10 * m.m12 + m.m20 * m.m22;
    let g12 = m.m01 * m.m02 + m.m11 * m.m12 + m.m21 * m.m22;
    max_int(
        max_int(abs_int(g00 - one2), abs_int(g11 - one2)),
        max_int(
            abs_int(g22 - one2),
            max_int(abs_int(g01), max_int(abs_int(g02), abs_int(g12))),
        ),
    )
}

/// The larger of two integers.
pub open spec fn max_int(a: int, b: int) -> int {
    if a >= b {
        a
    } else {
        b
    }
}

/// The fixed-point determinant: cofactor expansion along the first row,
/// each minor brought back to scale before the final scaling.
pub open spec fn det_fp(m: Mat3) -> int {
    fp_scale(
        m.m00 * fp_scale(m.m11 * m.m22 - m.m12 * m.m21)
            - m.m01 * fp_scale(m.m10 * m.m22 - m.m12 * m.m20)
            + m.m02 * fp_scale(m.m10 * m.m21 - m.m11 * m.m20),
    )
}

/// Wide truncated division by the fixed-point unit.
fn fp_scale_wide(x: i128, Ghost(bx): Ghost<int>) -> (r: i128)
    requires
        0 <= bx <= 50_000_000_000_000_000_000_000_000_000_000_000_000,
        -bx <= x <= bx,
    ensures
        r == fp_scale(x as int),
        -(bx / (FP_ONE as int)) <= r <= bx / (FP_ONE as int),
{
    proof {
        let m = if x >= 0 { x as int } else { -x as int };
        lemma_div_bounds(m, FP_ONE as int, bx);
        vstd::arithmetic::div_mod::lemma_div_pos_is_pos(bx, FP_ONE as int);
    }
    if x >= 0 {
        ((x as u128) / (FP_ONE as u128)) as i128
    } else {
        -(((-x) as u128 / (FP_ONE as u128)) as i128)
    }
}

/// Computes the fixed-point determinant exactly. A caller can hold the
/// result against any tolerance around the fixed-point unit to check for
/// a proper rotation.
pub fn determinant_fp(m: &Mat3) -> (r: i128)
    requires
        entries_bounded(*m, 200_000_000_000_000_000),
    ensures
        r == det_fp(*m),
{
    let ghost b = 200_000_000_000_000_000int;
    proof {
        lemma_mul_abs_bound(m.m11 as int, m.m22 as int, b, b);
        lemma_mul_abs_bound(m.m12 as int, m.m21 as int, b, b);
        lemma_mul_abs_bound(m.m10 as int, m.m22 as int, b, b);
        lemma_mul_abs_bound(m.m12 as int, m.m20 as int, b, b);
        lemma_mul_abs_bound(m.m10 as int, m.m21 as int, b, b);
        lemma_mul_abs_bound(m.m11 as int, m.m20 as int, b, b);
        assert(200_000_000_000_000_000int * 200_000_000_000_000_000int
            == 40_000_000_000_000_000_000_000_000_000_000_000int
            && 80_000_000_000_000_000_000_000_000_000_000_000int / (FP_ONE as int)
                == 80_000_000_000_000_000_000int) by (nonlinear_arith);
    }
    let minor0 = fp_scale_wide(
        (m.m11 as i128) * (m.m22 as i128) - (m.m12 as i128) * (m.m21 as i128),
        Ghost(80_000_000_000_000_000_000_000_000_000_000_000int),
    );
    let minor1 = fp_scale_wide(
        (m.m10 as i128) * (m.m22 as i128) - (m.m12 as i128) * (m.m20 as i128),
        Ghost(80_000_000_000_000_000_000_000_000_000_000_000int),
    );
    let minor2 = fp_scale_wide(
        (m.m10 as i128) * (m.m21 as i128) - (m.m11 as i128) * (m.m20 as i128),
        Ghost(80_000_000_000_000_000_000_000_000_000_000_000int),
    );
    proof {
        let bm = 80_000_000_000_000_000_000int;
        lemma_mul_abs_bound(m.m00 as int, minor0 as int, b, bm);
        lemma_mul_abs_bound(m.m01 as int, minor1 as int, b, bm);
        lemma_mul_abs_bound(m.m02 as int, minor2 as int, b, bm);
        assert(200_000_000_000_000_000int * 80_000_000_000_000_000_000int
            == 16_000_000_000_000_000_000_000_000_000_000_000_000int) by (nonlinear_arith);
    }
    fp_scale_wide(
        (m.m00 as i128) * minor0 - (m.m01 as i128) * minor1 + (m.m02 as i128) * minor2,
        Ghost(48_000_000_000_000_000_000_000_000_000_000_000_000int),
    )
}

/// An exact multiple of the unit scales back to its factor.
proof fn lemma_fp_scale_multiple(k: int)
    requires
        -1_000_000_000_000_000_000 <= k <= 1_000_000_000_000_000_000,
    ensures
        fp_scale(k * (FP_ONE as int)) == k,
{
    let one = FP_ONE as int;
    if k >= 0 {
        vstd::arithmetic::div_mod::lemma_div_by_multiple(k, one);
    } else {
        vstd::arithmetic::div_mod::lemma_div_by_multiple(-k, one);
        vstd::arithmetic::mul::lemma_mul_unary_negation(k, one);
    }
}

/// An exactly unit angle makes each elementary rotation a proper
/// rotation: its fixed-point determinant is exactly the unit.
pub proof fn lemma_rotation_proper(a: RotAngle)
    requires
        angle_wf(a),
        a.sin * a.sin + a.cos * a.cos == (FP_ONE as int) * (FP_ONE as int),
    ensures
        det_fp(rz_spec(a)) == FP_ONE,
        det_fp(rx_spec(a)) == FP_ONE,
        det_fp(ry_spec(a)) == FP_ONE,
{
    let s = a.sin as int;
    let c = a.cos as int;
    let one = FP_ONE as int;
    lemma_fp_scale_multiple(c);
    lemma_fp_scale_multiple(s);
    lemma_fp_scale_multiple(-s);
    lemma_fp_scale_multiple(0);
    lemma_fp_scale_multiple(one);
    assert(c * one == one * c && (-s) * one == one * -s && s * one == one * s
        && c * 0 == 0 && s * 0 == 0 && (-s) * 0 == 0 && 0 * c == 0 && 0 * s == 0
        && 0 * (-s) == 0 && 0 * 0 == 0 && 0 * one == 0 && one * one - 0 * 0 == one * one
        && c * c - s * (-s) == one * one && c * c - (-s) * s == one * one
        && c * c + s * s == one * one && (-s) * (-s) == s * s
        && 0 * 0 - one * s == (-s) * one && c * c - 0 * 0 + (-s) * (-s) == one * one)
        by (nonlinear_arith)
        requires
            s * s + c * c == one * one,
    ;
    assert(fp_scale(one * one) == one) by {
        lemma_fp_scale_multiple(one);
        vstd::arithmetic::mul::lemma_mul_is_commutative(one, one);
    }
}

/// One raw dot product of two entry triples, at squared scale.
fn raw_dot(a0: i64, a1: i64, a2: i64, b0: i64, b1: i64, b2: i64) -> (r: i128)
    requires
        -1_000_000_000_000_000_000 <= a0 <= 1_000_000_000_000_000_000,
        -1_000_000_000_000_000_000 <= a1 <= 1_000_000_000_000_000_000,
        -1_000_000_000_000_000_000 <= a2 <= 1_000_000_000_000_000_000,
        -1_000_000_000_000_000_000 <= b0 <= 1_000_000_000_000_000_000,
        -1_000_000_000_000_000_000 <= b1 <= 1_000_000_000_000_000_000,
        -1_000_000_000_000_000_000 <= b2 <= 1_000_000_000_000_000_000,
    ensures
        r == a0 * b0 + a1 * b1 + a2 * b2,
        -3_000_000_000_000_000_000_000_000_000_000_000_000 <= r
            <= 3_000_000_000_000_000_000_000_000_000_000_000_000,
{
    proof {
        let b = 1_000_000_000_000_000_000int;
        lemma_mul_abs_bound(a0 as int, b0 as int, b, b);
        lemma_mul_abs_bound(a1 as int, b1 as int, b, b);
        lemma_mul_abs_bound(a2 as int, b2 as int, b, b);
        assert(1_000_000_000_000_000_000int * 1_000_000_000_000_000_000int
            == 1_000_000_000_000_000_000_000_000_000_000_000_000int)
            by (nonlinear_arith);
    }
    (a0 as i128) * (b0 as i128) + (a1 as i128) * (b1 as i128) + (a2 as i128) * (b2 as i128)
}

/// The magnitude of an `i128` within bounds.
fn abs_exec(x: i128) -> (r: i128)
    requires
        -100_000_000_000_000_000_000_000_000_000_000_000_000 <= x
            <= 100_000_000_000_000_000_000_000_000_000_000_000_000,
    ensures
        r == abs_int(x as int),
{
    if x >= 0 {
        x
    } else {
        -x
    }
}

/// The larger of two `i128` values.
fn max_exec(a: i128, b: i128) -> (r: i128)
    ensures
        r == max_int(a as int, b as int),
{
    if a >= b {
        a
    } else {
        b
    }
}

/// Computes the orthonormality defect of a matrix exactly. A caller can
/// hold the returned deviation against any tolerance at squared
/// fixed-point scale.
pub fn orthonormality_defect(m: &Mat3) -> (r: i128)
    requires
        entries_bounded(*m, 1_000_000_000_000_000_000),
    ensures
        r == gram_defect(*m),
{
    let one2: i128 = (FP_ONE as i128) * (FP_ONE as i128);
    let g00 = raw_dot(m.m00, m.m10, m.m20, m.m00, m.m10, m.m20);
    let g11 = raw_dot(m.m01, m.m11, m.m21, m.m01, m.m11, m.m21);
    let g22 = raw_dot(m.m02, m.m12, m.m22, m.m02, m.m12, m.m22);
    let g01 = raw_dot(m.m00, m.m10, m.m20, m.m01, m.m11, m.m21);
    let g02 = raw_dot(m.m00, m.m10, m.m20, m.m02, m.m12, m.m22);
    let g12 = raw_dot(m.m01, m.m11, m.m21, m.m02, m.m12, m.m22);
    max_exec(
        max_exec(abs_exec(g00 - one2), abs_exec(g11 - one2)),
        max_exec(
            abs_exec(g22 - one2),
            max_exec(abs_exec(g01), max_exec(abs_exec(g02), abs_exec(g12))),
        ),
    )
}

} // verus!
