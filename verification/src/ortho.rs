//! Orthonormality of the composed frame matrices.
//!
//! The fixed-point compositions truncate every entry, so the composed
//! rotations are not exactly orthonormal; these lemmas bound how far the
//! column Gram products can drift. The core is a conjugation identity for
//! the Gram of a product, proved monomial by monomial; on top of it, one
//! step for an exactly orthonormal left factor, one for an exactly
//! orthonormal right factor, and one general step carry a deviation bound
//! through the polar-motion build-up, the legacy TEME-to-ITRS matrix and
//! the full GCRS-to-ITRS rotation.

use vstd::prelude::*;
use crate::matrix::{Mat3, RotAngle, mat_mul_spec, entries_bounded};
use crate::frames::gram_defect;

verus! {

/// Regrouping of a product of two scaled terms.
proof fn lemma_regroup(a: int, b: int, c: int, d: int)
    ensures
        (a * b) * (c * d) == (a * c) * (b * d),
{
    assert((a * b) * (c * d) == (a * c) * (b * d)) by (nonlinear_arith);
}

/// The inner product of two images under a matrix, written over the
/// matrix's column Gram products: the quadratic form of the conjugation
/// identity, row by row and monomial by monomial.
pub proof fn lemma_gram_conjugation(
    a00: int, a01: int, a02: int,
    a10: int, a11: int, a12: int,
    a20: int, a21: int, a22: int,
    u0: int, u1: int, u2: int,
    v0: int, v1: int, v2: int,
)
    ensures
        (a00 * u0 + a01 * u1 + a02 * u2) * (a00 * v0 + a01 * v1 + a02 * v2)
            + (a10 * u0 + a11 * u1 + a12 * u2) * (a10 * v0 + a11 * v1 + a12 * v2)
            + (a20 * u0 + a21 * u1 + a22 * u2) * (a20 * v0 + a21 * v1 + a22 * v2)
        == (a00 * a00 + a10 * a10 + a20 * a20) * (u0 * v0)
            + (a01 * a01 + a11 * a11 + a21 * a21) * (u1 * v1)
            + (a02 * a02 + a12 * a12 + a22 * a22) * (u2 * v2)
            + (a00 * a01 + a10 * a11 + a20 * a21) * (u0 * v1 + u1 * v0)
            + (a00 * a02 + a10 * a12 + a20 * a22) * (u0 * v2 + u2 * v0)
            + (a01 * a02 + a11 * a12 + a21 * a22) * (u1 * v2 + u2 * v1),
{
    // Row 0 of the product, expanded.
    assert((a00 * u0 + a01 * u1 + a02 * u2) * (a00 * v0 + a01 * v1 + a02 * v2)
        == (a00 * a00) * (u0 * v0) + (a00 * a01) * (u0 * v1) + (a00 * a02) * (u0 * v2) + (a01 * a00) * (u1 * v0) + (a01 * a01) * (u1 * v1) + (a01 * a02) * (u1 * v2) + (a02 * a00) * (u2 * v0) + (a02 * a01) * (u2 * v1) + (a02 * a02) * (u2 * v2)) by {
        let x = a00 * u0 + a01 * u1 + a02 * u2;
        vstd::arithmetic::mul::lemma_mul_is_distributive_add(x, a00 * v0 + a01 * v1, a02 * v2);
        vstd::arithmetic::mul::lemma_mul_is_distributive_add(x, a00 * v0, a01 * v1);
        vstd::arithmetic::mul::lemma_mul_is_distributive_add_other_way(a00 * v0, a00 * u0 + a01 * u1, a02 * u2);
        vstd::arithmetic::mul::lemma_mul_is_distributive_add_other_way(a00 * v0, a00 * u0, a01 * u1);
        vstd::arithmetic::mul::lemma_mul_is_distributive_add_other_way(a01 * v1, a00 * u0 + a01 * u1, a02 * u2);
        vstd::arithmetic::mul::lemma_mul_is_distributive_add_other_way(a01 * v1, a00 * u0, a01 * u1);
        vstd::arithmetic::mul::lemma_mul_is_distributive_add_other_way(a02 * v2, a00 * u0 + a01 * u1, a02 * u2);
        vstd::arithmetic::mul::lemma_mul_is_distributive_add_other_way(a02 * v2, a00 * u0, a01 * u1);
        lemma_regroup(a00, u0, a00, v0);
        lemma_regroup(a00, u0, a01, v1);
        lemma_regroup(a00, u0, a02, v2);
        lemma_regroup(a01, u1, a00, v0);
        lemma_regroup(a01, u1, a01, v1);
        lemma_regroup(a01, u1, a02, v2);
        lemma_regroup(a02, u2, a00, v0);
        lemma_regroup(a02, u2, a01, v1);
        lemma_regroup(a02, u2, a02, v2);
    }
    // Row 1 of the product, expanded.
    assert((a10 * u0 + a11 * u1 + a12 * u2) * (a10 * v0 + a11 * v1 + a12 * v2)
        == (a10 * a10) * (u0 * v0) + (a10 * a11) * (u0 * v1) + (a10 * a12) * (u0 * v2) + (a11 * a10) * (u1 * v0) + (a11 * a11) * (u1 * v1) + (a11 * a12) * (u1 * v2) + (a12 * a10) * (u2 * v0) + (a12 * a11) * (u2 * v1) + (a12 * a12) * (u2 * v2)) by {
        let x = a10 * u0 + a11 * u1 + a12 * u2;
        vstd::arithmetic::mul::lemma_mul_is_distributive_add(x, a10 * v0 + a11 * v1, a12 * v2);
        vstd::arithmetic::mul::lemma_mul_is_distributive_add(x, a10 * v0, a11 * v1);
        vstd::arithmetic::mul::lemma_mul_is_distributive_add_other_way(a10 * v0, a10 * u0 + a11 * u1, a12 * u2);
        vstd::arithmetic::mul::lemma_mul_is_distributive_add_other_way(a10 * v0, a10 * u0, a11 * u1);
        vstd::arithmetic::mul::lemma_mul_is_distributive_add_other_way(a11 * v1, a10 * u0 + a11 * u1, a12 * u2);
        vstd::arithmetic::mul::lemma_mul_is_distributive_add_other_way(a11 * v1, a10 * u0, a11 * u1);
        vstd::arithmetic::mul::lemma_mul_is_distributive_add_other_way(a12 * v2, a10 * u0 + a11 * u1, a12 * u2);
        vstd::arithmetic::mul::lemma_mul_is_distributive_add_other_way(a12 * v2, a10 * u0, a11 * u1);
        lemma_regroup(a10, u0, a10, v0);
        lemma_regroup(a10, u0, a11, v1);
        lemma_regroup(a10, u0, a12, v2);
        lemma_regroup(a11, u1, a10, v0);
        lemma_regroup(a11, u1, a11, v1);
        lemma_regroup(a11, u1, a12, v2);
        lemma_regroup(a12, u2, a10, v0);
        lemma_regroup(a12, u2, a11, v1);
        lemma_regroup(a12, u2, a12, v2);
    }
    // Row 2 of the product, expanded.
    assert((a20 * u0 + a21 * u1 + a22 * u2) * (a20 * v0 + a21 * v1 + a22 * v2)
        == (a20 * a20) * (u0 * v0) + (a20 * a21) * (u0 * v1) + (a20 * a22) * (u0 * v2) + (a21 * a20) * (u1 * v0) + (a21 * a21) * (u1 * v1) + (a21 * a22) * (u1 * v2) + (a22 * a20) * (u2 * v0) + (a22 * a21) * (u2 * v1) + (a22 * a22) * (u2 * v2)) by {
        let x = a20 * u0 + a21 * u1 + a22 * u2;
        vstd::arithmetic::mul::lemma_mul_is_distributive_add(x, a20 * v0 + a21 * v1, a22 * v2);
        vstd::arithmetic::mul::lemma_mul_is_distributive_add(x, a20 * v0, a21 * v1);
        vstd::arithmetic::mul::lemma_mul_is_distributive_add_other_way(a20 * v0, a20 * u0 + a21 * u1, a22 * u2);
        vstd::arithmetic::mul::lemma_mul_is_distributive_add_other_way(a20 * v0, a20 * u0, a21 * u1);
        vstd::arithmetic::mul::lemma_mul_is_distributive_add_other_way(a21 * v1, a20 * u0 + a21 * u1, a22 * u2);
        vstd::arithmetic::mul::lemma_mul_is_distributive_add_other_way(a21 * v1, a20 * u0, a21 * u1);
        vstd::arithmetic::mul::lemma_mul_is_distributive_add_other_way(a22 * v2, a20 * u0 + a21 * u1, a22 * u2);
        vstd::arithmetic::mul::lemma_mul_is_distributive_add_other_way(a22 * v2, a20 * u0, a21 * u1);
        lemma_regroup(a20, u0, a20, v0);
        lemma_regroup(a20, u0, a21, v1);
        lemma_regroup(a20, u0, a22, v2);
        lemma_regroup(a21, u1, a20, v0);
        lemma_regroup(a21, u1, a21, v1);
        lemma_regroup(a21, u1, a22, v2);
        lemma_regroup(a22, u2, a20, v0);
        lemma_regroup(a22, u2, a21, v1);
        lemma_regroup(a22, u2, a22, v2);
    }
    assert((a00 * a00) * (u0 * v0) + (a10 * a10) * (u0 * v0) + (a20 * a20) * (u0 * v0) == (a00 * a00 + a10 * a10 + a20 * a20) * (u0 * v0)) by {
        vstd::arithmetic::mul::lemma_mul_is_distributive_add_other_way(u0 * v0, a00 * a00 + a10 * a10, a20 * a20);
        vstd::arithmetic::mul::lemma_mul_is_distributive_add_other_way(u0 * v0, a00 * a00, a10 * a10);
    }
    assert((a00 * a01) * (u0 * v1) + (a10 * a11) * (u0 * v1) + (a20 * a21) * (u0 * v1) == (a00 * a01 + a10 * a11 + a20 * a21) * (u0 * v1)) by {
        vstd::arithmetic::mul::lemma_mul_is_distributive_add_other_way(u0 * v1, a00 * a01 + a10 * a11, a20 * a21);
        vstd::arithmetic::mul::lemma_mul_is_distributive_add_other_way(u0 * v1, a00 * a01, a10 * a11);
    }
    assert((a00 * a02) * (u0 * v2) + (a10 * a12) * (u0 * v2) + (a20 * a22) * (u0 * v2) == (a00 * a02 + a10 * a12 + a20 * a22) * (u0 * v2)) by {
        vstd::arithmetic::mul::lemma_mul_is_distributive_add_other_way(u0 * v2, a00 * a02 + a10 * a12, a20 * a22);
        vstd::arithmetic::mul::lemma_mul_is_distributive_add_other_way(u0 * v2, a00 * a02, a10 * a12);
    }
    assert((a01 * a00) * (u1 * v0) + (a11 * a10) * (u1 * v0) + (a21 * a20) * (u1 * v0) == (a01 * a00 + a11 * a10 + a21 * a20) * (u1 * v0)) by {
        vstd::arithmetic::mul::lemma_mul_is_distributive_add_other_way(u1 * v0, a01 * a00 + a11 * a10, a21 * a20);
        vstd::arithmetic::mul::lemma_mul_is_distributive_add_other_way(u1 * v0, a01 * a00, a11 * a10);
    }
    assert((a01 * a01) * (u1 * v1) + (a11 * a11) * (u1 * v1) + (a21 * a21) * (u1 * v1) == (a01 * a01 + a11 * a11 + a21 * a21) * (u1 * v1)) by {
        vstd::arithmetic::mul::lemma_mul_is_distributive_add_other_way(u1 * v1, a01 * a01 + a11 * a11, a21 * a21);
        vstd::arithmetic::mul::lemma_mul_is_distributive_add_other_way(u1 * v1, a01 * a01, a11 * a11);
    }
    assert((a01 * a02) * (u1 * v2) + (a11 * a12) * (u1 * v2) + (a21 * a22) * (u1 * v2) == (a01 * a02 + a11 * a12 + a21 * a22) * (u1 * v2)) by {
        vstd::arithmetic::mul::lemma_mul_is_distributive_add_other_way(u1 * v2, a01 * a02 + a11 * a12, a21 * a22);
        vstd::arithmetic::mul::lemma_mul_is_distributive_add_other_way(u1 * v2, a01 * a02, a11 * a12);
    }
    assert((a02 * a00) * (u2 * v0) + (a12 * a10) * (u2 * v0) + (a22 * a20) * (u2 * v0) == (a02 * a00 + a12 * a10 + a22 * a20) * (u2 * v0)) by {
        vstd::arithmetic::mul::lemma_mul_is_distributive_add_other_way(u2 * v0, a02 * a00 + a12 * a10, a22 * a20);
        vstd::arithmetic::mul::lemma_mul_is_distributive_add_other_way(u2 * v0, a02 * a00, a12 * a10);
    }
    assert((a02 * a01) * (u2 * v1) + (a12 * a11) * (u2 * v1) + (a22 * a21) * (u2 * v1) == (a02 * a01 + a12 * a11 + a22 * a21) * (u2 * v1)) by {
        vstd::arithmetic::mul::lemma_mul_is_distributive_add_other_way(u2 * v1, a02 * a01 + a12 * a11, a22 * a21);
        vstd::arithmetic::mul::lemma_mul_is_distributive_add_other_way(u2 * v1, a02 * a01, a12 * a11);
    }
    assert((a02 * a02) * (u2 * v2) + (a12 * a12) * (u2 * v2) + (a22 * a22) * (u2 * v2) == (a02 * a02 + a12 * a12 + a22 * a22) * (u2 * v2)) by {
        vstd::arithmetic::mul::lemma_mul_is_distributive_add_other_way(u2 * v2, a02 * a02 + a12 * a12, a22 * a22);
        vstd::arithmetic::mul::lemma_mul_is_distributive_add_other_way(u2 * v2, a02 * a02, a12 * a12);
    }
    assert(a01 * a00 + a11 * a10 + a21 * a20 == a00 * a01 + a10 * a11 + a20 * a21) by {
        vstd::arithmetic::mul::lemma_mul_is_commutative(a01, a00);
        vstd::arithmetic::mul::lemma_mul_is_commutative(a11, a10);
        vstd::arithmetic::mul::lemma_mul_is_commutative(a21, a20);
    }
    vstd::arithmetic::mul::lemma_mul_is_distributive_add(a00 * a01 + a10 * a11 + a20 * a21, u0 * v1, u1 * v0);
    assert(a02 * a00 + a12 * a10 + a22 * a20 == a00 * a02 + a10 * a12 + a20 * a22) by {
        vstd::arithmetic::mul::lemma_mul_is_commutative(a02, a00);
        vstd::arithmetic::mul::lemma_mul_is_commutative(a12, a10);
        vstd::arithmetic::mul::lemma_mul_is_commutative(a22, a20);
    }
    vstd::arithmetic::mul::lemma_mul_is_distributive_add(a00 * a02 + a10 * a12 + a20 * a22, u0 * v2, u2 * v0);
    assert(a02 * a01 + a12 * a11 + a22 * a21 == a01 * a02 + a11 * a12 + a21 * a22) by {
        vstd::arithmetic::mul::lemma_mul_is_commutative(a02, a01);
        vstd::arithmetic::mul::lemma_mul_is_commutative(a12, a11);
        vstd::arithmetic::mul::lemma_mul_is_commutative(a22, a21);
    }
    vstd::arithmetic::mul::lemma_mul_is_distributive_add(a01 * a02 + a11 * a12 + a21 * a22, u1 * v2, u2 * v1);
}

/// The remainder a truncated scaling leaves behind: less than one unit in
/// magnitude.
proof fn lemma_fp_scale_rem(x: int)
    ensures
        -(crate::matrix::FP_ONE - 1) <= x - (crate::matrix::FP_ONE as int) * crate::matrix::fp_scale(x)
            <= crate::matrix::FP_ONE - 1,
{
    let one = crate::matrix::FP_ONE as int;
    if x >= 0 {
        vstd::arithmetic::div_mod::lemma_fundamental_div_mod(x, one);
        vstd::arithmetic::div_mod::lemma_mod_bound(x, one);
    } else {
        vstd::arithmetic::div_mod::lemma_fundamental_div_mod(-x, one);
        vstd::arithmetic::div_mod::lemma_mod_bound(-x, one);
        assert(one * -((-x) / one) == -(one * ((-x) / one))) by (nonlinear_arith);
    }
}

/// One Gram entry of a truncated product pair, held within the cross and
/// rounding terms of the exact conjugated quadratic form.
pub proof fn lemma_truncated_gram_entry(
    a00: int, a01: int, a02: int,
    a10: int, a11: int, a12: int,
    a20: int, a21: int, a22: int,
    u0: int, u1: int, u2: int,
    v0: int, v1: int, v2: int,
    ba: int, bb: int,
)
    requires
        0 <= ba,
        0 <= bb,
        -ba <= a00 <= ba && -ba <= a01 <= ba && -ba <= a02 <= ba,
        -ba <= a10 <= ba && -ba <= a11 <= ba && -ba <= a12 <= ba,
        -ba <= a20 <= ba && -ba <= a21 <= ba && -ba <= a22 <= ba,
        -bb <= u0 <= bb && -bb <= u1 <= bb && -bb <= u2 <= bb,
        -bb <= v0 <= bb && -bb <= v1 <= bb && -bb <= v2 <= bb,
    ensures
        ({
            let one = crate::matrix::FP_ONE as int;
            let gram = crate::matrix::fp_scale(a00 * u0 + a01 * u1 + a02 * u2)
                    * crate::matrix::fp_scale(a00 * v0 + a01 * v1 + a02 * v2)
                + crate::matrix::fp_scale(a10 * u0 + a11 * u1 + a12 * u2)
                    * crate::matrix::fp_scale(a10 * v0 + a11 * v1 + a12 * v2)
                + crate::matrix::fp_scale(a20 * u0 + a21 * u1 + a22 * u2)
                    * crate::matrix::fp_scale(a20 * v0 + a21 * v1 + a22 * v2);
            let conj = (a00 * a00 + a10 * a10 + a20 * a20) * (u0 * v0)
                + (a01 * a01 + a11 * a11 + a21 * a21) * (u1 * v1)
                + (a02 * a02 + a12 * a12 + a22 * a22) * (u2 * v2)
                + (a00 * a01 + a10 * a11 + a20 * a21) * (u0 * v1 + u1 * v0)
                + (a00 * a02 + a10 * a12 + a20 * a22) * (u0 * v2 + u2 * v0)
                + (a01 * a02 + a11 * a12 + a21 * a22) * (u1 * v2 + u2 * v1);
            -(18 * ((ba * bb) * one) + 3 * (one * one)) <= one * one * gram - conj
                <= 18 * ((ba * bb) * one) + 3 * (one * one)
        }),
{
    let one = crate::matrix::FP_ONE as int;
    let p0 = a00 * u0 + a01 * u1 + a02 * u2;
    let p1 = a10 * u0 + a11 * u1 + a12 * u2;
    let p2 = a20 * u0 + a21 * u1 + a22 * u2;
    let q0 = a00 * v0 + a01 * v1 + a02 * v2;
    let q1 = a10 * v0 + a11 * v1 + a12 * v2;
    let q2 = a20 * v0 + a21 * v1 + a22 * v2;
    crate::math::lemma_mul_abs_bound(a00, u0, ba, bb);
    crate::math::lemma_mul_abs_bound(a01, u1, ba, bb);
    crate::math::lemma_mul_abs_bound(a02, u2, ba, bb);
    crate::math::lemma_mul_abs_bound(a10, u0, ba, bb);
    crate::math::lemma_mul_abs_bound(a11, u1, ba, bb);
    crate::math::lemma_mul_abs_bound(a12, u2, ba, bb);
    crate::math::lemma_mul_abs_bound(a20, u0, ba, bb);
    crate::math::lemma_mul_abs_bound(a21, u1, ba, bb);
    crate::math::lemma_mul_abs_bound(a22, u2, ba, bb);
    crate::math::lemma_mul_abs_bound(a00, v0, ba, bb);
    crate::math::lemma_mul_abs_bound(a01, v1, ba, bb);
    crate::math::lemma_mul_abs_bound(a02, v2, ba, bb);
    crate::math::lemma_mul_abs_bound(a10, v0, ba, bb);
    crate::math::lemma_mul_abs_bound(a11, v1, ba, bb);
    crate::math::lemma_mul_abs_bound(a12, v2, ba, bb);
    crate::math::lemma_mul_abs_bound(a20, v0, ba, bb);
    crate::math::lemma_mul_abs_bound(a21, v1, ba, bb);
    crate::math::lemma_mul_abs_bound(a22, v2, ba, bb);
    assert(-(3 * (ba * bb)) <= p0 && p0 <= 3 * (ba * bb));
    assert(-(3 * (ba * bb)) <= p1 && p1 <= 3 * (ba * bb));
    assert(-(3 * (ba * bb)) <= p2 && p2 <= 3 * (ba * bb));
    assert(-(3 * (ba * bb)) <= q0 && q0 <= 3 * (ba * bb));
    assert(-(3 * (ba * bb)) <= q1 && q1 <= 3 * (ba * bb));
    assert(-(3 * (ba * bb)) <= q2 && q2 <= 3 * (ba * bb));
    lemma_entry_cross(p0, q0, ba, bb);
    lemma_entry_cross(p1, q1, ba, bb);
    lemma_entry_cross(p2, q2, ba, bb);
    lemma_gram_conjugation(
        a00, a01, a02, a10, a11, a12, a20, a21, a22, u0, u1, u2, v0, v1, v2);
    let m0 = crate::matrix::fp_scale(p0);
    let m1 = crate::matrix::fp_scale(p1);
    let m2 = crate::matrix::fp_scale(p2);
    let n0 = crate::matrix::fp_scale(q0);
    let n1 = crate::matrix::fp_scale(q1);
    let n2 = crate::matrix::fp_scale(q2);
    assert(one * one * (m0 * n0 + m1 * n1 + m2 * n2)
        == one * one * (m0 * n0) + one * one * (m1 * n1) + one * one * (m2 * n2)) by {
        vstd::arithmetic::mul::lemma_mul_is_distributive_add(
            one * one, m0 * n0 + m1 * n1, m2 * n2);
        vstd::arithmetic::mul::lemma_mul_is_distributive_add(
            one * one, m0 * n0, m1 * n1);
    }
}

/// One truncated pair against its raw product: the error is the cross and
/// rounding term, bounded by the operands' sizes.
proof fn lemma_entry_cross(p: int, q: int, ba: int, bb: int)
    requires
        0 <= ba,
        0 <= bb,
        -(3 * (ba * bb)) <= p && p <= 3 * (ba * bb),
        -(3 * (ba * bb)) <= q && q <= 3 * (ba * bb),
    ensures
        ({
            let one = crate::matrix::FP_ONE as int;
            -(6 * ((ba * bb) * one) + one * one) <= one * one
                * (crate::matrix::fp_scale(p) * crate::matrix::fp_scale(q)) - p * q
                <= 6 * ((ba * bb) * one) + one * one
        }),
{
    let one = crate::matrix::FP_ONE as int;
    let m = crate::matrix::fp_scale(p);
    let n = crate::matrix::fp_scale(q);
    let r = p - one * m;
    let s = q - one * n;
    lemma_fp_scale_rem(p);
    lemma_fp_scale_rem(q);
    assert((one * m) * (one * n) == one * one * (m * n)) by (nonlinear_arith);
    assert((p - r) * (q - s) == p * q - (p * s + r * q - r * s)) by (nonlinear_arith);
    crate::math::lemma_mul_abs_bound(p, s, 3 * (ba * bb), one);
    crate::math::lemma_mul_abs_bound(r, q, one, 3 * (ba * bb));
    crate::math::lemma_mul_abs_bound(r, s, one, one);
    assert(3 * (ba * bb) * one == (ba * bb) * one * 3
        && one * (3 * (ba * bb)) == (ba * bb) * one * 3
        && (ba * bb) * one * 3 + (ba * bb) * one * 3 == 6 * ((ba * bb) * one))
        by (nonlinear_arith);
}


/// A truncated scaling is bounded by the scaled bound of its argument.
proof fn lemma_fp_scale_bound(x: int, bx: int)
    requires
        0 <= bx,
        -bx <= x <= bx,
    ensures
        -(bx / (crate::matrix::FP_ONE as int)) <= crate::matrix::fp_scale(x)
            <= bx / (crate::matrix::FP_ONE as int),
{
    let one = crate::matrix::FP_ONE as int;
    vstd::arithmetic::div_mod::lemma_div_pos_is_pos(bx, one);
    if x >= 0 {
        vstd::arithmetic::div_mod::lemma_div_is_ordered(x, bx, one);
        vstd::arithmetic::div_mod::lemma_div_pos_is_pos(x, one);
    } else {
        vstd::arithmetic::div_mod::lemma_div_is_ordered(-x, bx, one);
        vstd::arithmetic::div_mod::lemma_div_pos_is_pos(-x, one);
    }
}

/// Entries of a fixed-point product are bounded by the scaled product
/// of the factors' bounds.
pub proof fn lemma_mat_mul_spec_bounded(a: Mat3, b: Mat3, ba: int, bb: int)
    requires
        0 <= ba,
        0 <= bb,
        entries_bounded(a, ba),
        entries_bounded(b, bb),
    ensures
        entries_bounded(mat_mul_spec(a, b), 3 * (ba * bb) / (crate::matrix::FP_ONE as int)),
{
    crate::math::lemma_mul_abs_bound(a.m00 as int, b.m00 as int, ba, bb);
    crate::math::lemma_mul_abs_bound(a.m01 as int, b.m10 as int, ba, bb);
    crate::math::lemma_mul_abs_bound(a.m02 as int, b.m20 as int, ba, bb);
    lemma_fp_scale_bound(a.m00 * b.m00 + a.m01 * b.m10 + a.m02 * b.m20, 3 * (ba * bb));
    crate::math::lemma_mul_abs_bound(a.m00 as int, b.m01 as int, ba, bb);
    crate::math::lemma_mul_abs_bound(a.m01 as int, b.m11 as int, ba, bb);
    crate::math::lemma_mul_abs_bound(a.m02 as int, b.m21 as int, ba, bb);
    lemma_fp_scale_bound(a.m00 * b.m01 + a.m01 * b.m11 + a.m02 * b.m21, 3 * (ba * bb));
    crate::math::lemma_mul_abs_bound(a.m00 as int, b.m02 as int, ba, bb);
    crate::math::lemma_mul_abs_bound(a.m01 as int, b.m12 as int, ba, bb);
    crate::math::lemma_mul_abs_bound(a.m02 as int, b.m22 as int, ba, bb);
    lemma_fp_scale_bound(a.m00 * b.m02 + a.m01 * b.m12 + a.m02 * b.m22, 3 * (ba * bb));
    crate::math::lemma_mul_abs_bound(a.m10 as int, b.m00 as int, ba, bb);
    crate::math::lemma_mul_abs_bound(a.m11 as int, b.m10 as int, ba, bb);
    crate::math::lemma_mul_abs_bound(a.m12 as int, b.m20 as int, ba, bb);
    lemma_fp_scale_bound(a.m10 * b.m00 + a.m11 * b.m10 + a.m12 * b.m20, 3 * (ba * bb));
    crate::math::lemma_mul_abs_bound(a.m10 as int, b.m01 as int, ba, bb);
    crate::math::lemma_mul_abs_bound(a.m11 as int, b.m11 as int, ba, bb);
    crate::math::lemma_mul_abs_bound(a.m12 as int, b.m21 as int, ba, bb);
    lemma_fp_scale_bound(a.m10 * b.m01 + a.m11 * b.m11 + a.m12 * b.m21, 3 * (ba * bb));
    crate::math::lemma_mul_abs_bound(a.m10 as int, b.m02 as int, ba, bb);
    crate::math::lemma_mul_abs_bound(a.m11 as int, b.m12 as int, ba, bb);
    crate::math::lemma_mul_abs_bound(a.m12 as int, b.m22 as int, ba, bb);
    lemma_fp_scale_bound(a.m10 * b.m02 + a.m11 * b.m12 + a.m12 * b.m22, 3 * (ba * bb));
    crate::math::lemma_mul_abs_bound(a.m20 as int, b.m00 as int, ba, bb);
    crate::math::lemma_mul_abs_bound(a.m21 as int, b.m10 as int, ba, bb);
    crate::math::lemma_mul_abs_bound(a.m22 as int, b.m20 as int, ba, bb);
    lemma_fp_scale_bound(a.m20 * b.m00 + a.m21 * b.m10 + a.m22 * b.m20, 3 * (ba * bb));
    crate::math::lemma_mul_abs_bound(a.m20 as int, b.m01 as int, ba, bb);
    crate::math::lemma_mul_abs_bound(a.m21 as int, b.m11 as int, ba, bb);
    crate::math::lemma_mul_abs_bound(a.m22 as int, b.m21 as int, ba, bb);
    lemma_fp_scale_bound(a.m20 * b.m01 + a.m21 * b.m11 + a.m22 * b.m21, 3 * (ba * bb));
    crate::math::lemma_mul_abs_bound(a.m20 as int, b.m02 as int, ba, bb);
    crate::math::lemma_mul_abs_bound(a.m21 as int, b.m12 as int, ba, bb);
    crate::math::lemma_mul_abs_bound(a.m22 as int, b.m22 as int, ba, bb);
    lemma_fp_scale_bound(a.m20 * b.m02 + a.m21 * b.m12 + a.m22 * b.m22, 3 * (ba * bb));
}

/// With both factors bounded, each product entry is the truncated dot
/// without any wrap: the stored word equals the mathematical value.
proof fn lemma_product_entries_exact(a: Mat3, b: Mat3, bb: int)
    requires
        0 <= bb <= 1_000_000_000_000_000_000,
        entries_bounded(a, crate::matrix::FP_ONE as int),
        entries_bounded(b, bb),
    ensures
        entries_bounded(mat_mul_spec(a, b), 3 * bb),
        mat_mul_spec(a, b).m00 == crate::matrix::fp_scale(a.m00 * b.m00 + a.m01 * b.m10 + a.m02 * b.m20),
        mat_mul_spec(a, b).m01 == crate::matrix::fp_scale(a.m00 * b.m01 + a.m01 * b.m11 + a.m02 * b.m21),
        mat_mul_spec(a, b).m02 == crate::matrix::fp_scale(a.m00 * b.m02 + a.m01 * b.m12 + a.m02 * b.m22),
        mat_mul_spec(a, b).m10 == crate::matrix::fp_scale(a.m10 * b.m00 + a.m11 * b.m10 + a.m12 * b.m20),
        mat_mul_spec(a, b).m11 == crate::matrix::fp_scale(a.m10 * b.m01 + a.m11 * b.m11 + a.m12 * b.m21),
        mat_mul_spec(a, b).m12 == crate::matrix::fp_scale(a.m10 * b.m02 + a.m11 * b.m12 + a.m12 * b.m22),
        mat_mul_spec(a, b).m20 == crate::matrix::fp_scale(a.m20 * b.m00 + a.m21 * b.m10 + a.m22 * b.m20),
        mat_mul_spec(a, b).m21 == crate::matrix::fp_scale(a.m20 * b.m01 + a.m21 * b.m11 + a.m22 * b.m21),
        mat_mul_spec(a, b).m22 == crate::matrix::fp_scale(a.m20 * b.m02 + a.m21 * b.m12 + a.m22 * b.m22),
{
    let one = crate::matrix::FP_ONE as int;
    assert(3 * (one * bb) == (3 * bb) * one) by (nonlinear_arith);
    vstd::arithmetic::div_mod::lemma_div_by_multiple(3 * bb, one);
    crate::math::lemma_mul_abs_bound(a.m00 as int, b.m00 as int, one, bb);
    crate::math::lemma_mul_abs_bound(a.m01 as int, b.m10 as int, one, bb);
    crate::math::lemma_mul_abs_bound(a.m02 as int, b.m20 as int, one, bb);
    lemma_fp_scale_bound(a.m00 * b.m00 + a.m01 * b.m10 + a.m02 * b.m20, 3 * (one * bb));
    crate::math::lemma_mul_abs_bound(a.m00 as int, b.m01 as int, one, bb);
    crate::math::lemma_mul_abs_bound(a.m01 as int, b.m11 as int, one, bb);
    crate::math::lemma_mul_abs_bound(a.m02 as int, b.m21 as int, one, bb);
    lemma_fp_scale_bound(a.m00 * b.m01 + a.m01 * b.m11 + a.m02 * b.m21, 3 * (one * bb));
    crate::math::lemma_mul_abs_bound(a.m00 as int, b.m02 as int, one, bb);
    crate::math::lemma_mul_abs_bound(a.m01 as int, b.m12 as int, one, bb);
    crate::math::lemma_mul_abs_bound(a.m02 as int, b.m22 as int, one, bb);
    lemma_fp_scale_bound(a.m00 * b.m02 + a.m01 * b.m12 + a.m02 * b.m22, 3 * (one * bb));
    crate::math::lemma_mul_abs_bound(a.m10 as int, b.m00 as int, one, bb);
    crate::math::lemma_mul_abs_bound(a.m11 as int, b.m10 as int, one, bb);
    crate::math::lemma_mul_abs_bound(a.m12 as int, b.m20 as int, one, bb);
    lemma_fp_scale_bound(a.m10 * b.m00 + a.m11 * b.m10 + a.m12 * b.m20, 3 * (one * bb));
    crate::math::lemma_mul_abs_bound(a.m10 as int, b.m01 as int, one, bb);
    crate::math::lemma_mul_abs_bound(a.m11 as int, b.m11 as int, one, bb);
    crate::math::lemma_mul_abs_bound(a.m12 as int, b.m21 as int, one, bb);
    lemma_fp_scale_bound(a.m10 * b.m01 + a.m11 * b.m11 + a.m12 * b.m21, 3 * (one * bb));
    crate::math::lemma_mul_abs_bound(a.m10 as int, b.m02 as int, one, bb);
    crate::math::lemma_mul_abs_bound(a.m11 as int, b.m12 as int, one, bb);
    crate::math::lemma_mul_abs_bound(a.m12 as int, b.m22 as int, one, bb);
    lemma_fp_scale_bound(a.m10 * b.m02 + a.m11 * b.m12 + a.m12 * b.m22, 3 * (one * bb));
    crate::math::lemma_mul_abs_bound(a.m20 as int, b.m00 as int, one, bb);
    crate::math::lemma_mul_abs_bound(a.m21 as int, b.m10 as int, one, bb);
    crate::math::lemma_mul_abs_bound(a.m22 as int, b.m20 as int, one, bb);
    lemma_fp_scale_bound(a.m20 * b.m00 + a.m21 * b.m10 + a.m22 * b.m20, 3 * (one * bb));
    crate::math::lemma_mul_abs_bound(a.m20 as int, b.m01 as int, one, bb);
    crate::math::lemma_mul_abs_bound(a.m21 as int, b.m11 as int, one, bb);
    crate::math::lemma_mul_abs_bound(a.m22 as int, b.m21 as int, one, bb);
    lemma_fp_scale_bound(a.m20 * b.m01 + a.m21 * b.m11 + a.m22 * b.m21, 3 * (one * bb));
    crate::math::lemma_mul_abs_bound(a.m20 as int, b.m02 as int, one, bb);
    crate::math::lemma_mul_abs_bound(a.m21 as int, b.m12 as int, one, bb);
    crate::math::lemma_mul_abs_bound(a.m22 as int, b.m22 as int, one, bb);
    lemma_fp_scale_bound(a.m20 * b.m02 + a.m21 * b.m12 + a.m22 * b.m22, 3 * (one * bb));
}
/// Multiplying on the left by an exactly orthonormal matrix moves a
/// matrix's Gram deviation only by the rounding of the product: the
/// deviation grows by at most `18 * bb + 3`.
pub proof fn lemma_left_orthonormal_defect(a: Mat3, b: Mat3, bb: int)
    requires
        0 <= bb <= 1_000_000_000_000_000_000,
        entries_bounded(a, crate::matrix::FP_ONE as int),
        entries_bounded(b, bb),
        a.m00 * a.m00 + a.m10 * a.m10 + a.m20 * a.m20
            == (crate::matrix::FP_ONE as int) * (crate::matrix::FP_ONE as int),
        a.m01 * a.m01 + a.m11 * a.m11 + a.m21 * a.m21
            == (crate::matrix::FP_ONE as int) * (crate::matrix::FP_ONE as int),
        a.m02 * a.m02 + a.m12 * a.m12 + a.m22 * a.m22
            == (crate::matrix::FP_ONE as int) * (crate::matrix::FP_ONE as int),
        a.m00 * a.m01 + a.m10 * a.m11 + a.m20 * a.m21 == 0,
        a.m00 * a.m02 + a.m10 * a.m12 + a.m20 * a.m22 == 0,
        a.m01 * a.m02 + a.m11 * a.m12 + a.m21 * a.m22 == 0,
    ensures
        gram_defect(mat_mul_spec(a, b)) <= gram_defect(b) + 18 * bb + 3,
{
    let one = crate::matrix::FP_ONE as int;
    let m = mat_mul_spec(a, b);
    lemma_product_entries_exact(a, b, bb);
    // Column pair (0, 0).
    lemma_truncated_gram_entry(
        a.m00 as int, a.m01 as int, a.m02 as int,
        a.m10 as int, a.m11 as int, a.m12 as int,
        a.m20 as int, a.m21 as int, a.m22 as int,
        b.m00 as int, b.m10 as int, b.m20 as int, b.m00 as int, b.m10 as int, b.m20 as int, one, bb);
    assert(one * one * (b.m00 * b.m00 + b.m10 * b.m10 + b.m20 * b.m20)
        == (one * one) * (b.m00 * b.m00) + (one * one) * (b.m10 * b.m10)
            + (one * one) * (b.m20 * b.m20)
        && 0int * (b.m00 * b.m10 + b.m10 * b.m00) == 0
        && 0int * (b.m00 * b.m20 + b.m20 * b.m00) == 0
        && 0int * (b.m10 * b.m20 + b.m20 * b.m10) == 0) by {
        vstd::arithmetic::mul::lemma_mul_is_distributive_add(
            one * one, b.m00 * b.m00 + b.m10 * b.m10, b.m20 * b.m20);
        vstd::arithmetic::mul::lemma_mul_is_distributive_add(
            one * one, b.m00 * b.m00, b.m10 * b.m10);
        vstd::arithmetic::mul::lemma_mul_basics_1(b.m00 * b.m10 + b.m10 * b.m00);
        vstd::arithmetic::mul::lemma_mul_basics_1(b.m00 * b.m20 + b.m20 * b.m00);
        vstd::arithmetic::mul::lemma_mul_basics_1(b.m10 * b.m20 + b.m20 * b.m10);
    }
    assert((m.m00 * m.m00 + m.m10 * m.m10 + m.m20 * m.m20) - (b.m00 * b.m00 + b.m10 * b.m10 + b.m20 * b.m20) <= 18 * bb + 3
        && -(18 * bb + 3) <= (m.m00 * m.m00 + m.m10 * m.m10 + m.m20 * m.m20) - (b.m00 * b.m00 + b.m10 * b.m10 + b.m20 * b.m20)) by {
        let d = (m.m00 * m.m00 + m.m10 * m.m10 + m.m20 * m.m20) - (b.m00 * b.m00 + b.m10 * b.m10 + b.m20 * b.m20);
        assert(one * one * d == one * one * (m.m00 * m.m00 + m.m10 * m.m10 + m.m20 * m.m20) - one * one * (b.m00 * b.m00 + b.m10 * b.m10 + b.m20 * b.m20)) by {
            vstd::arithmetic::mul::lemma_mul_is_distributive_sub(
                one * one, m.m00 * m.m00 + m.m10 * m.m10 + m.m20 * m.m20, b.m00 * b.m00 + b.m10 * b.m10 + b.m20 * b.m20);
        }
        assert((18 * bb + 3) * (one * one) == 18 * ((one * bb) * one) + 3 * (one * one))
            by (nonlinear_arith);
        vstd::arithmetic::mul::lemma_mul_strictly_positive(one, one);
        if d >= 18 * bb + 3 + 1 {
            vstd::arithmetic::mul::lemma_mul_inequality(18 * bb + 3 + 1, d, one * one);
            vstd::arithmetic::mul::lemma_mul_is_commutative(d, one * one);
            vstd::arithmetic::mul::lemma_mul_strict_inequality(
                18 * bb + 3, 18 * bb + 3 + 1, one * one);
        }
        if d <= -(18 * bb + 3) - 1 {
            vstd::arithmetic::mul::lemma_mul_inequality(d, -(18 * bb + 3) - 1, one * one);
            vstd::arithmetic::mul::lemma_mul_is_commutative(d, one * one);
            vstd::arithmetic::mul::lemma_mul_strict_inequality(
                18 * bb + 3, 18 * bb + 3 + 1, one * one);
            assert((-(18 * bb + 3) - 1) * (one * one) == -((18 * bb + 3 + 1) * (one * one))) by {
                vstd::arithmetic::mul::lemma_mul_unary_negation(18 * bb + 3 + 1, one * one);
            }
        }
    }
    // Column pair (1, 1).
    lemma_truncated_gram_entry(
        a.m00 as int, a.m01 as int, a.m02 as int,
        a.m10 as int, a.m11 as int, a.m12 as int,
        a.m20 as int, a.m21 as int, a.m22 as int,
        b.m01 as int, b.m11 as int, b.m21 as int, b.m01 as int, b.m11 as int, b.m21 as int, one, bb);
    assert(one * one * (b.m01 * b.m01 + b.m11 * b.m11 + b.m21 * b.m21)
        == (one * one) * (b.m01 * b.m01) + (one * one) * (b.m11 * b.m11)
            + (one * one) * (b.m21 * b.m21)
        && 0int * (b.m01 * b.m11 + b.m11 * b.m01) == 0
        && 0int * (b.m01 * b.m21 + b.m21 * b.m01) == 0
        && 0int * (b.m11 * b.m21 + b.m21 * b.m11) == 0) by {
        vstd::arithmetic::mul::lemma_mul_is_distributive_add(
            one * one, b.m01 * b.m01 + b.m11 * b.m11, b.m21 * b.m21);
        vstd::arithmetic::mul::lemma_mul_is_distributive_add(
            one * one, b.m01 * b.m01, b.m11 * b.m11);
        vstd::arithmetic::mul::lemma_mul_basics_1(b.m01 * b.m11 + b.m11 * b.m01);
        vstd::arithmetic::mul::lemma_mul_basics_1(b.m01 * b.m21 + b.m21 * b.m01);
        vstd::arithmetic::mul::lemma_mul_basics_1(b.m11 * b.m21 + b.m21 * b.m11);
    }
    assert((m.m01 * m.m01 + m.m11 * m.m11 + m.m21 * m.m21) - (b.m01 * b.m01 + b.m11 * b.m11 + b.m21 * b.m21) <= 18 * bb + 3
        && -(18 * bb + 3) <= (m.m01 * m.m01 + m.m11 * m.m11 + m.m21 * m.m21) - (b.m01 * b.m01 + b.m11 * b.m11 + b.m21 * b.m21)) by {
        let d = (m.m01 * m.m01 + m.m11 * m.m11 + m.m21 * m.m21) - (b.m01 * b.m01 + b.m11 * b.m11 + b.m21 * b.m21);
        assert(one * one * d == one * one * (m.m01 * m.m01 + m.m11 * m.m11 + m.m21 * m.m21) - one * one * (b.m01 * b.m01 + b.m11 * b.m11 + b.m21 * b.m21)) by {
            vstd::arithmetic::mul::lemma_mul_is_distributive_sub(
                one * one, m.m01 * m.m01 + m.m11 * m.m11 + m.m21 * m.m21, b.m01 * b.m01 + b.m11 * b.m11 + b.m21 * b.m21);
        }
        assert((18 * bb + 3) * (one * one) == 18 * ((one * bb) * one) + 3 * (one * one))
            by (nonlinear_arith);
        vstd::arithmetic::mul::lemma_mul_strictly_positive(one, one);
        if d >= 18 * bb + 3 + 1 {
            vstd::arithmetic::mul::lemma_mul_inequality(18 * bb + 3 + 1, d, one * one);
            vstd::arithmetic::mul::lemma_mul_is_commutative(d, one * one);
            vstd::arithmetic::mul::lemma_mul_strict_inequality(
                18 * bb + 3, 18 * bb + 3 + 1, one * one);
        }
        if d <= -(18 * bb + 3) - 1 {
            vstd::arithmetic::mul::lemma_mul_inequality(d, -(18 * bb + 3) - 1, one * one);
            vstd::arithmetic::mul::lemma_mul_is_commutative(d, one * one);
            vstd::arithmetic::mul::lemma_mul_strict_inequality(
                18 * bb + 3, 18 * bb + 3 + 1, one * one);
            assert((-(18 * bb + 3) - 1) * (one * one) == -((18 * bb + 3 + 1) * (one * one))) by {
                vstd::arithmetic::mul::lemma_mul_unary_negation(18 * bb + 3 + 1, one * one);
            }
        }
    }
    // Column pair (2, 2).
    lemma_truncated_gram_entry(
        a.m00 as int, a.m01 as int, a.m02 as int,
        a.m10 as int, a.m11 as int, a.m12 as int,
        a.m20 as int, a.m21 as int, a.m22 as int,
        b.m02 as int, b.m12 as int, b.m22 as int, b.m02 as int, b.m12 as int, b.m22 as int, one, bb);
    assert(one * one * (b.m02 * b.m02 + b.m12 * b.m12 + b.m22 * b.m22)
        == (one * one) * (b.m02 * b.m02) + (one * one) * (b.m12 * b.m12)
            + (one * one) * (b.m22 * b.m22)
        && 0int * (b.m02 * b.m12 + b.m12 * b.m02) == 0
        && 0int * (b.m02 * b.m22 + b.m22 * b.m02) == 0
        && 0int * (b.m12 * b.m22 + b.m22 * b.m12) == 0) by {
        vstd::arithmetic::mul::lemma_mul_is_distributive_add(
            one * one, b.m02 * b.m02 + b.m12 * b.m12, b.m22 * b.m22);
        vstd::arithmetic::mul::lemma_mul_is_distributive_add(
            one * one, b.m02 * b.m02, b.m12 * b.m12);
        vstd::arithmetic::mul::lemma_mul_basics_1(b.m02 * b.m12 + b.m12 * b.m02);
        vstd::arithmetic::mul::lemma_mul_basics_1(b.m02 * b.m22 + b.m22 * b.m02);
        vstd::arithmetic::mul::lemma_mul_basics_1(b.m12 * b.m22 + b.m22 * b.m12);
    }
    assert((m.m02 * m.m02 + m.m12 * m.m12 + m.m22 * m.m22) - (b.m02 * b.m02 + b.m12 * b.m12 + b.m22 * b.m22) <= 18 * bb + 3
        && -(18 * bb + 3) <= (m.m02 * m.m02 + m.m12 * m.m12 + m.m22 * m.m22) - (b.m02 * b.m02 + b.m12 * b.m12 + b.m22 * b.m22)) by {
        let d = (m.m02 * m.m02 + m.m12 * m.m12 + m.m22 * m.m22) - (b.m02 * b.m02 + b.m12 * b.m12 + b.m22 * b.m22);
        assert(one * one * d == one * one * (m.m02 * m.m02 + m.m12 * m.m12 + m.m22 * m.m22) - one * one * (b.m02 * b.m02 + b.m12 * b.m12 + b.m22 * b.m22)) by {
            vstd::arithmetic::mul::lemma_mul_is_distributive_sub(
                one * one, m.m02 * m.m02 + m.m12 * m.m12 + m.m22 * m.m22, b.m02 * b.m02 + b.m12 * b.m12 + b.m22 * b.m22);
        }
        assert((18 * bb + 3) * (one * one) == 18 * ((one * bb) * one) + 3 * (one * one))
            by (nonlinear_arith);
        vstd::arithmetic::mul::lemma_mul_strictly_positive(one, one);
        if d >= 18 * bb + 3 + 1 {
            vstd::arithmetic::mul::lemma_mul_inequality(18 * bb + 3 + 1, d, one * one);
            vstd::arithmetic::mul::lemma_mul_is_commutative(d, one * one);
            vstd::arithmetic::mul::lemma_mul_strict_inequality(
                18 * bb + 3, 18 * bb + 3 + 1, one * one);
        }
        if d <= -(18 * bb + 3) - 1 {
            vstd::arithmetic::mul::lemma_mul_inequality(d, -(18 * bb + 3) - 1, one * one);
            vstd::arithmetic::mul::lemma_mul_is_commutative(d, one * one);
            vstd::arithmetic::mul::lemma_mul_strict_inequality(
                18 * bb + 3, 18 * bb + 3 + 1, one * one);
            assert((-(18 * bb + 3) - 1) * (one * one) == -((18 * bb + 3 + 1) * (one * one))) by {
                vstd::arithmetic::mul::lemma_mul_unary_negation(18 * bb + 3 + 1, one * one);
            }
        }
    }
    // Column pair (0, 1).
    lemma_truncated_gram_entry(
        a.m00 as int, a.m01 as int, a.m02 as int,
        a.m10 as int, a.m11 as int, a.m12 as int,
        a.m20 as int, a.m21 as int, a.m22 as int,
        b.m00 as int, b.m10 as int, b.m20 as int, b.m01 as int, b.m11 as int, b.m21 as int, one, bb);
    assert(one * one * (b.m00 * b.m01 + b.m10 * b.m11 + b.m20 * b.m21)
        == (one * one) * (b.m00 * b.m01) + (one * one) * (b.m10 * b.m11)
            + (one * one) * (b.m20 * b.m21)
        && 0int * (b.m00 * b.m11 + b.m10 * b.m01) == 0
        && 0int * (b.m00 * b.m21 + b.m20 * b.m01) == 0
        && 0int * (b.m10 * b.m21 + b.m20 * b.m11) == 0) by {
        vstd::arithmetic::mul::lemma_mul_is_distributive_add(
            one * one, b.m00 * b.m01 + b.m10 * b.m11, b.m20 * b.m21);
        vstd::arithmetic::mul::lemma_mul_is_distributive_add(
            one * one, b.m00 * b.m01, b.m10 * b.m11);
        vstd::arithmetic::mul::lemma_mul_basics_1(b.m00 * b.m11 + b.m10 * b.m01);
        vstd::arithmetic::mul::lemma_mul_basics_1(b.m00 * b.m21 + b.m20 * b.m01);
        vstd::arithmetic::mul::lemma_mul_basics_1(b.m10 * b.m21 + b.m20 * b.m11);
    }
    assert((m.m00 * m.m01 + m.m10 * m.m11 + m.m20 * m.m21) - (b.m00 * b.m01 + b.m10 * b.m11 + b.m20 * b.m21) <= 18 * bb + 3
        && -(18 * bb + 3) <= (m.m00 * m.m01 + m.m10 * m.m11 + m.m20 * m.m21) - (b.m00 * b.m01 + b.m10 * b.m11 + b.m20 * b.m21)) by {
        let d = (m.m00 * m.m01 + m.m10 * m.m11 + m.m20 * m.m21) - (b.m00 * b.m01 + b.m10 * b.m11 + b.m20 * b.m21);
        assert(one * one * d == one * one * (m.m00 * m.m01 + m.m10 * m.m11 + m.m20 * m.m21) - one * one * (b.m00 * b.m01 + b.m10 * b.m11 + b.m20 * b.m21)) by {
            vstd::arithmetic::mul::lemma_mul_is_distributive_sub(
                one * one, m.m00 * m.m01 + m.m10 * m.m11 + m.m20 * m.m21, b.m00 * b.m01 + b.m10 * b.m11 + b.m20 * b.m21);
        }
        assert((18 * bb + 3) * (one * one) == 18 * ((one * bb) * one) + 3 * (one * one))
            by (nonlinear_arith);
        vstd::arithmetic::mul::lemma_mul_strictly_positive(one, one);
        if d >= 18 * bb + 3 + 1 {
            vstd::arithmetic::mul::lemma_mul_inequality(18 * bb + 3 + 1, d, one * one);
            vstd::arithmetic::mul::lemma_mul_is_commutative(d, one * one);
            vstd::arithmetic::mul::lemma_mul_strict_inequality(
                18 * bb + 3, 18 * bb + 3 + 1, one * one);
        }
        if d <= -(18 * bb + 3) - 1 {
            vstd::arithmetic::mul::lemma_mul_inequality(d, -(18 * bb + 3) - 1, one * one);
            vstd::arithmetic::mul::lemma_mul_is_commutative(d, one * one);
            vstd::arithmetic::mul::lemma_mul_strict_inequality(
                18 * bb + 3, 18 * bb + 3 + 1, one * one);
            assert((-(18 * bb + 3) - 1) * (one * one) == -((18 * bb + 3 + 1) * (one * one))) by {
                vstd::arithmetic::mul::lemma_mul_unary_negation(18 * bb + 3 + 1, one * one);
            }
        }
    }
    // Column pair (0, 2).
    lemma_truncated_gram_entry(
        a.m00 as int, a.m01 as int, a.m02 as int,
        a.m10 as int, a.m11 as int, a.m12 as int,
        a.m20 as int, a.m21 as int, a.m22 as int,
        b.m00 as int, b.m10 as int, b.m20 as int, b.m02 as int, b.m12 as int, b.m22 as int, one, bb);
    assert(one * one * (b.m00 * b.m02 + b.m10 * b.m12 + b.m20 * b.m22)
        == (one * one) * (b.m00 * b.m02) + (one * one) * (b.m10 * b.m12)
            + (one * one) * (b.m20 * b.m22)
        && 0int * (b.m00 * b.m12 + b.m10 * b.m02) == 0
        && 0int * (b.m00 * b.m22 + b.m20 * b.m02) == 0
        && 0int * (b.m10 * b.m22 + b.m20 * b.m12) == 0) by {
        vstd::arithmetic::mul::lemma_mul_is_distributive_add(
            one * one, b.m00 * b.m02 + b.m10 * b.m12, b.m20 * b.m22);
        vstd::arithmetic::mul::lemma_mul_is_distributive_add(
            one * one, b.m00 * b.m02, b.m10 * b.m12);
        vstd::arithmetic::mul::lemma_mul_basics_1(b.m00 * b.m12 + b.m10 * b.m02);
        vstd::arithmetic::mul::lemma_mul_basics_1(b.m00 * b.m22 + b.m20 * b.m02);
        vstd::arithmetic::mul::lemma_mul_basics_1(b.m10 * b.m22 + b.m20 * b.m12);
    }
    assert((m.m00 * m.m02 + m.m10 * m.m12 + m.m20 * m.m22) - (b.m00 * b.m02 + b.m10 * b.m12 + b.m20 * b.m22) <= 18 * bb + 3
        && -(18 * bb + 3) <= (m.m00 * m.m02 + m.m10 * m.m12 + m.m20 * m.m22) - (b.m00 * b.m02 + b.m10 * b.m12 + b.m20 * b.m22)) by {
        let d = (m.m00 * m.m02 + m.m10 * m.m12 + m.m20 * m.m22) - (b.m00 * b.m02 + b.m10 * b.m12 + b.m20 * b.m22);
        assert(one * one * d == one * one * (m.m00 * m.m02 + m.m10 * m.m12 + m.m20 * m.m22) - one * one * (b.m00 * b.m02 + b.m10 * b.m12 + b.m20 * b.m22)) by {
            vstd::arithmetic::mul::lemma_mul_is_distributive_sub(
                one * one, m.m00 * m.m02 + m.m10 * m.m12 + m.m20 * m.m22, b.m00 * b.m02 + b.m10 * b.m12 + b.m20 * b.m22);
        }
        assert((18 * bb + 3) * (one * one) == 18 * ((one * bb) * one) + 3 * (one * one))
            by (nonlinear_arith);
        vstd::arithmetic::mul::lemma_mul_strictly_positive(one, one);
        if d >= 18 * bb + 3 + 1 {
            vstd::arithmetic::mul::lemma_mul_inequality(18 * bb + 3 + 1, d, one * one);
            vstd::arithmetic::mul::lemma_mul_is_commutative(d, one * one);
            vstd::arithmetic::mul::lemma_mul_strict_inequality(
                18 * bb + 3, 18 * bb + 3 + 1, one * one);
        }
        if d <= -(18 * bb + 3) - 1 {
            vstd::arithmetic::mul::lemma_mul_inequality(d, -(18 * bb + 3) - 1, one * one);
            vstd::arithmetic::mul::lemma_mul_is_commutative(d, one * one);
            vstd::arithmetic::mul::lemma_mul_strict_inequality(
                18 * bb + 3, 18 * bb + 3 + 1, one * one);
            assert((-(18 * bb + 3) - 1) * (one * one) == -((18 * bb + 3 + 1) * (one * one))) by {
                vstd::arithmetic::mul::lemma_mul_unary_negation(18 * bb + 3 + 1, one * one);
            }
        }
    }
    // Column pair (1, 2).
    lemma_truncated_gram_entry(
        a.m00 as int, a.m01 as int, a.m02 as int,
        a.m10 as int, a.m11 as int, a.m12 as int,
        a.m20 as int, a.m21 as int, a.m22 as int,
        b.m01 as int, b.m11 as int, b.m21 as int, b.m02 as int, b.m12 as int, b.m22 as int, one, bb);
    assert(one * one * (b.m01 * b.m02 + b.m11 * b.m12 + b.m21 * b.m22)
        == (one * one) * (b.m01 * b.m02) + (one * one) * (b.m11 * b.m12)
            + (one * one) * (b.m21 * b.m22)
        && 0int * (b.m01 * b.m12 + b.m11 * b.m02) == 0
        && 0int * (b.m01 * b.m22 + b.m21 * b.m02) == 0
        && 0int * (b.m11 * b.m22 + b.m21 * b.m12) == 0) by {
        vstd::arithmetic::mul::lemma_mul_is_distributive_add(
            one * one, b.m01 * b.m02 + b.m11 * b.m12, b.m21 * b.m22);
        vstd::arithmetic::mul::lemma_mul_is_distributive_add(
            one * one, b.m01 * b.m02, b.m11 * b.m12);
        vstd::arithmetic::mul::lemma_mul_basics_1(b.m01 * b.m12 + b.m11 * b.m02);
        vstd::arithmetic::mul::lemma_mul_basics_1(b.m01 * b.m22 + b.m21 * b.m02);
        vstd::arithmetic::mul::lemma_mul_basics_1(b.m11 * b.m22 + b.m21 * b.m12);
    }
    assert((m.m01 * m.m02 + m.m11 * m.m12 + m.m21 * m.m22) - (b.m01 * b.m02 + b.m11 * b.m12 + b.m21 * b.m22) <= 18 * bb + 3
        && -(18 * bb + 3) <= (m.m01 * m.m02 + m.m11 * m.m12 + m.m21 * m.m22) - (b.m01 * b.m02 + b.m11 * b.m12 + b.m21 * b.m22)) by {
        let d = (m.m01 * m.m02 + m.m11 * m.m12 + m.m21 * m.m22) - (b.m01 * b.m02 + b.m11 * b.m12 + b.m21 * b.m22);
        assert(one * one * d == one * one * (m.m01 * m.m02 + m.m11 * m.m12 + m.m21 * m.m22) - one * one * (b.m01 * b.m02 + b.m11 * b.m12 + b.m21 * b.m22)) by {
            vstd::arithmetic::mul::lemma_mul_is_distributive_sub(
                one * one, m.m01 * m.m02 + m.m11 * m.m12 + m.m21 * m.m22, b.m01 * b.m02 + b.m11 * b.m12 + b.m21 * b.m22);
        }
        assert((18 * bb + 3) * (one * one) == 18 * ((one * bb) * one) + 3 * (one * one))
            by (nonlinear_arith);
        vstd::arithmetic::mul::lemma_mul_strictly_positive(one, one);
        if d >= 18 * bb + 3 + 1 {
            vstd::arithmetic::mul::lemma_mul_inequality(18 * bb + 3 + 1, d, one * one);
            vstd::arithmetic::mul::lemma_mul_is_commutative(d, one * one);
            vstd::arithmetic::mul::lemma_mul_strict_inequality(
                18 * bb + 3, 18 * bb + 3 + 1, one * one);
        }
        if d <= -(18 * bb + 3) - 1 {
            vstd::arithmetic::mul::lemma_mul_inequality(d, -(18 * bb + 3) - 1, one * one);
            vstd::arithmetic::mul::lemma_mul_is_commutative(d, one * one);
            vstd::arithmetic::mul::lemma_mul_strict_inequality(
                18 * bb + 3, 18 * bb + 3 + 1, one * one);
            assert((-(18 * bb + 3) - 1) * (one * one) == -((18 * bb + 3 + 1) * (one * one))) by {
                vstd::arithmetic::mul::lemma_mul_unary_negation(18 * bb + 3 + 1, one * one);
            }
        }
    }
}

/// An exactly unit angle gives each elementary rotation exactly
/// orthonormal columns: unit length, mutually orthogonal, with no Gram
/// deviation at all.
pub proof fn lemma_elementary_gram_exact(a: RotAngle)
    requires
        crate::matrix::angle_wf(a),
        a.sin * a.sin + a.cos * a.cos == (crate::matrix::FP_ONE as int) * (crate::matrix::FP_ONE as int),
    ensures
        gram_defect(crate::matrix::rz_spec(a)) == 0,
        gram_defect(crate::matrix::rx_spec(a)) == 0,
        gram_defect(crate::matrix::ry_spec(a)) == 0,
        ({
            let m = crate::matrix::rz_spec(a);
            let one = crate::matrix::FP_ONE as int;
            m.m00 * m.m00 + m.m10 * m.m10 + m.m20 * m.m20 == one * one
                && m.m01 * m.m01 + m.m11 * m.m11 + m.m21 * m.m21 == one * one
                && m.m02 * m.m02 + m.m12 * m.m12 + m.m22 * m.m22 == one * one
                && m.m00 * m.m01 + m.m10 * m.m11 + m.m20 * m.m21 == 0
                && m.m00 * m.m02 + m.m10 * m.m12 + m.m20 * m.m22 == 0
                && m.m01 * m.m02 + m.m11 * m.m12 + m.m21 * m.m22 == 0
        }),
        ({
            let m = crate::matrix::rx_spec(a);
            let one = crate::matrix::FP_ONE as int;
            m.m00 * m.m00 + m.m10 * m.m10 + m.m20 * m.m20 == one * one
                && m.m01 * m.m01 + m.m11 * m.m11 + m.m21 * m.m21 == one * one
                && m.m02 * m.m02 + m.m12 * m.m12 + m.m22 * m.m22 == one * one
                && m.m00 * m.m01 + m.m10 * m.m11 + m.m20 * m.m21 == 0
                && m.m00 * m.m02 + m.m10 * m.m12 + m.m20 * m.m22 == 0
                && m.m01 * m.m02 + m.m11 * m.m12 + m.m21 * m.m22 == 0
        }),
        ({
            let m = crate::matrix::ry_spec(a);
            let one = crate::matrix::FP_ONE as int;
            m.m00 * m.m00 + m.m10 * m.m10 + m.m20 * m.m20 == one * one
                && m.m01 * m.m01 + m.m11 * m.m11 + m.m21 * m.m21 == one * one
                && m.m02 * m.m02 + m.m12 * m.m12 + m.m22 * m.m22 == one * one
                && m.m00 * m.m01 + m.m10 * m.m11 + m.m20 * m.m21 == 0
                && m.m00 * m.m02 + m.m10 * m.m12 + m.m20 * m.m22 == 0
                && m.m01 * m.m02 + m.m11 * m.m12 + m.m21 * m.m22 == 0
        }),
{
    let s = a.sin as int;
    let c = a.cos as int;
    let one = crate::matrix::FP_ONE as int;
    assert(c * c + (-s) * (-s) == one * one && (-s) * (-s) + c * c == one * one
        && s * s + c * c == one * one && c * c + s * s == one * one
        && c * s + (-s) * c == 0 && s * c + c * (-s) == 0
        && c * 0 == 0 && s * 0 == 0 && (-s) * 0 == 0 && 0 * c == 0 && 0 * s == 0
        && 0 * (-s) == 0 && 0 * 0 == 0 && 0 * one == 0 && one * 0 == 0)
        by (nonlinear_arith)
        requires
            s * s + c * c == one * one,
    ;
}

/// With exactly unit polar-motion angles and locator, the polar-motion
/// matrix has orthonormal columns to within the rounding of its two
/// compositions: the Gram deviation stays below 73 fixed-point units, far
/// inside any working tolerance.
pub proof fn lemma_pom_orthonormal(xp: RotAngle, yp: RotAngle, sp: RotAngle)
    requires
        crate::matrix::angle_wf(xp),
        crate::matrix::angle_wf(yp),
        crate::matrix::angle_wf(sp),
        xp.sin * xp.sin + xp.cos * xp.cos == (crate::matrix::FP_ONE as int) * (crate::matrix::FP_ONE as int),
        yp.sin * yp.sin + yp.cos * yp.cos == (crate::matrix::FP_ONE as int) * (crate::matrix::FP_ONE as int),
        sp.sin * sp.sin + sp.cos * sp.cos == (crate::matrix::FP_ONE as int) * (crate::matrix::FP_ONE as int),
    ensures
        gram_defect(crate::frames::pom_spec(xp, yp, sp)) <= 72 * (crate::matrix::FP_ONE as int) + 6,
{
    let one = crate::matrix::FP_ONE as int;
    let nxp = crate::matrix::neg_spec(xp);
    let nyp = crate::matrix::neg_spec(yp);
    assert(nxp.sin * nxp.sin + nxp.cos * nxp.cos == one * one
        && nyp.sin * nyp.sin + nyp.cos * nyp.cos == one * one) by (nonlinear_arith)
        requires
            nxp.sin == -xp.sin && nxp.cos == xp.cos && nyp.sin == -yp.sin
                && nyp.cos == yp.cos && xp.sin * xp.sin + xp.cos * xp.cos == one * one
                && yp.sin * yp.sin + yp.cos * yp.cos == one * one,
    ;
    lemma_elementary_gram_exact(nxp);
    lemma_elementary_gram_exact(nyp);
    lemma_elementary_gram_exact(sp);
    let ry = crate::matrix::ry_spec(nxp);
    let rz = crate::matrix::rz_spec(sp);
    let rx = crate::matrix::rx_spec(nyp);
    let inner = mat_mul_spec(ry, rz);
    lemma_left_orthonormal_defect(ry, rz, one);
    lemma_product_entries_exact(ry, rz, one);
    lemma_left_orthonormal_defect(rx, inner, 3 * one);
}


/// Multiplying on the right by an exactly orthonormal matrix conjugates
/// a matrix's Gram: the deviation grows ninefold at most, plus the
/// rounding of the product.
pub proof fn lemma_right_orthonormal_defect(a: Mat3, b: Mat3, da: int, ba: int)
    requires
        0 <= da,
        0 <= ba <= 1_000_000_000_000_000_000,
        entries_bounded(a, ba),
        entries_bounded(b, crate::matrix::FP_ONE as int),
        gram_defect(a) <= da,
        b.m00 * b.m00 + b.m10 * b.m10 + b.m20 * b.m20
            == (crate::matrix::FP_ONE as int) * (crate::matrix::FP_ONE as int),
        b.m01 * b.m01 + b.m11 * b.m11 + b.m21 * b.m21
            == (crate::matrix::FP_ONE as int) * (crate::matrix::FP_ONE as int),
        b.m02 * b.m02 + b.m12 * b.m12 + b.m22 * b.m22
            == (crate::matrix::FP_ONE as int) * (crate::matrix::FP_ONE as int),
        b.m00 * b.m01 + b.m10 * b.m11 + b.m20 * b.m21 == 0,
        b.m00 * b.m02 + b.m10 * b.m12 + b.m20 * b.m22 == 0,
        b.m01 * b.m02 + b.m11 * b.m12 + b.m21 * b.m22 == 0,
    ensures
        gram_defect(mat_mul_spec(a, b)) <= 9 * da + 18 * ba + 3,
{
    let one = crate::matrix::FP_ONE as int;
    let m = mat_mul_spec(a, b);
    lemma_product_entries_exact_wide(a, b, ba);
    let g00 = a.m00 * a.m00 + a.m10 * a.m10 + a.m20 * a.m20;
    let g11 = a.m01 * a.m01 + a.m11 * a.m11 + a.m21 * a.m21;
    let g22 = a.m02 * a.m02 + a.m12 * a.m12 + a.m22 * a.m22;
    let g01 = a.m00 * a.m01 + a.m10 * a.m11 + a.m20 * a.m21;
    let g02 = a.m00 * a.m02 + a.m10 * a.m12 + a.m20 * a.m22;
    let g12 = a.m01 * a.m02 + a.m11 * a.m12 + a.m21 * a.m22;
    // Column pair (0, 0).
    lemma_truncated_gram_entry(
        a.m00 as int, a.m01 as int, a.m02 as int,
        a.m10 as int, a.m11 as int, a.m12 as int,
        a.m20 as int, a.m21 as int, a.m22 as int,
        b.m00 as int, b.m10 as int, b.m20 as int, b.m00 as int, b.m10 as int, b.m20 as int, ba, one);
    crate::math::lemma_mul_abs_bound(b.m00 as int, b.m00 as int, one, one);
    crate::math::lemma_mul_abs_bound(b.m10 as int, b.m10 as int, one, one);
    crate::math::lemma_mul_abs_bound(b.m20 as int, b.m20 as int, one, one);
    crate::math::lemma_mul_abs_bound(b.m00 as int, b.m10 as int, one, one);
    crate::math::lemma_mul_abs_bound(b.m10 as int, b.m00 as int, one, one);
    crate::math::lemma_mul_abs_bound(b.m00 as int, b.m20 as int, one, one);
    crate::math::lemma_mul_abs_bound(b.m20 as int, b.m00 as int, one, one);
    crate::math::lemma_mul_abs_bound(b.m10 as int, b.m20 as int, one, one);
    crate::math::lemma_mul_abs_bound(b.m20 as int, b.m10 as int, one, one);
    assert(g00 * (b.m00 * b.m00) == (one * one) * (b.m00 * b.m00) + (g00 - (one * one)) * (b.m00 * b.m00)) by {
        vstd::arithmetic::mul::lemma_mul_is_distributive_add_other_way(
            b.m00 * b.m00, one * one, g00 - (one * one));
    }
    crate::math::lemma_mul_abs_bound(g00 - (one * one), b.m00 * b.m00, da, one * one);
    assert(g11 * (b.m10 * b.m10) == (one * one) * (b.m10 * b.m10) + (g11 - (one * one)) * (b.m10 * b.m10)) by {
        vstd::arithmetic::mul::lemma_mul_is_distributive_add_other_way(
            b.m10 * b.m10, one * one, g11 - (one * one));
    }
    crate::math::lemma_mul_abs_bound(g11 - (one * one), b.m10 * b.m10, da, one * one);
    assert(g22 * (b.m20 * b.m20) == (one * one) * (b.m20 * b.m20) + (g22 - (one * one)) * (b.m20 * b.m20)) by {
        vstd::arithmetic::mul::lemma_mul_is_distributive_add_other_way(
            b.m20 * b.m20, one * one, g22 - (one * one));
    }
    crate::math::lemma_mul_abs_bound(g22 - (one * one), b.m20 * b.m20, da, one * one);
    assert(g01 * (b.m00 * b.m10 + b.m10 * b.m00) == (0) * (b.m00 * b.m10 + b.m10 * b.m00) + (g01 - (0)) * (b.m00 * b.m10 + b.m10 * b.m00)) by {
        vstd::arithmetic::mul::lemma_mul_is_distributive_add_other_way(
            b.m00 * b.m10 + b.m10 * b.m00, 0, g01 - (0));
    }
    crate::math::lemma_mul_abs_bound(g01 - (0), b.m00 * b.m10 + b.m10 * b.m00, da, 2 * (one * one));
    assert(g02 * (b.m00 * b.m20 + b.m20 * b.m00) == (0) * (b.m00 * b.m20 + b.m20 * b.m00) + (g02 - (0)) * (b.m00 * b.m20 + b.m20 * b.m00)) by {
        vstd::arithmetic::mul::lemma_mul_is_distributive_add_other_way(
            b.m00 * b.m20 + b.m20 * b.m00, 0, g02 - (0));
    }
    crate::math::lemma_mul_abs_bound(g02 - (0), b.m00 * b.m20 + b.m20 * b.m00, da, 2 * (one * one));
    assert(g12 * (b.m10 * b.m20 + b.m20 * b.m10) == (0) * (b.m10 * b.m20 + b.m20 * b.m10) + (g12 - (0)) * (b.m10 * b.m20 + b.m20 * b.m10)) by {
        vstd::arithmetic::mul::lemma_mul_is_distributive_add_other_way(
            b.m10 * b.m20 + b.m20 * b.m10, 0, g12 - (0));
    }
    crate::math::lemma_mul_abs_bound(g12 - (0), b.m10 * b.m20 + b.m20 * b.m10, da, 2 * (one * one));
    assert((one * one) * (b.m00 * b.m00 + b.m10 * b.m10 + b.m20 * b.m20)
        == (one * one) * (b.m00 * b.m00) + (one * one) * (b.m10 * b.m10) + (one * one) * (b.m20 * b.m20)) by {
        vstd::arithmetic::mul::lemma_mul_is_distributive_add(
            one * one, b.m00 * b.m00 + b.m10 * b.m10, b.m20 * b.m20);
        vstd::arithmetic::mul::lemma_mul_is_distributive_add(
            one * one, b.m00 * b.m00, b.m10 * b.m10);
    }
    assert(0int * (b.m00 * b.m10 + b.m10 * b.m00) == 0 && 0int * (b.m00 * b.m20 + b.m20 * b.m00) == 0 && 0int * (b.m10 * b.m20 + b.m20 * b.m10) == 0) by {
        vstd::arithmetic::mul::lemma_mul_basics_1(b.m00 * b.m10 + b.m10 * b.m00);
        vstd::arithmetic::mul::lemma_mul_basics_1(b.m00 * b.m20 + b.m20 * b.m00);
        vstd::arithmetic::mul::lemma_mul_basics_1(b.m10 * b.m20 + b.m20 * b.m10);
    }
    assert(da * (2 * (one * one)) == 2 * (da * (one * one))) by (nonlinear_arith);
    assert((m.m00 * m.m00 + m.m10 * m.m10 + m.m20 * m.m20) - (one * one) <= 9 * da + 18 * ba + 3
        && -(9 * da + 18 * ba + 3) <= (m.m00 * m.m00 + m.m10 * m.m10 + m.m20 * m.m20) - (one * one)) by {
        let d = (m.m00 * m.m00 + m.m10 * m.m10 + m.m20 * m.m20) - (one * one);
        assert(one * one * d == one * one * (m.m00 * m.m00 + m.m10 * m.m10 + m.m20 * m.m20) - one * one * (one * one)) by {
            vstd::arithmetic::mul::lemma_mul_is_distributive_sub(
                one * one, m.m00 * m.m00 + m.m10 * m.m10 + m.m20 * m.m20, one * one);
        }
        assert(18 * ((ba * one) * one) == 18 * (ba * (one * one))
            && (9 * da + 18 * ba + 3) * (one * one)
                == 9 * (da * (one * one)) + 18 * (ba * (one * one)) + 3 * (one * one))
            by (nonlinear_arith);
        vstd::arithmetic::mul::lemma_mul_strictly_positive(one, one);
        if d >= 9 * da + 18 * ba + 3 + 1 {
            vstd::arithmetic::mul::lemma_mul_inequality(9 * da + 18 * ba + 3 + 1, d, one * one);
            vstd::arithmetic::mul::lemma_mul_is_commutative(d, one * one);
            vstd::arithmetic::mul::lemma_mul_strict_inequality(
                9 * da + 18 * ba + 3, 9 * da + 18 * ba + 3 + 1, one * one);
        }
        if d <= -(9 * da + 18 * ba + 3) - 1 {
            vstd::arithmetic::mul::lemma_mul_inequality(d, -(9 * da + 18 * ba + 3) - 1, one * one);
            vstd::arithmetic::mul::lemma_mul_is_commutative(d, one * one);
            vstd::arithmetic::mul::lemma_mul_strict_inequality(
                9 * da + 18 * ba + 3, 9 * da + 18 * ba + 3 + 1, one * one);
            assert((-(9 * da + 18 * ba + 3) - 1) * (one * one)
                == -((9 * da + 18 * ba + 3 + 1) * (one * one))) by {
                vstd::arithmetic::mul::lemma_mul_unary_negation(
                    9 * da + 18 * ba + 3 + 1, one * one);
            }
        }
    }
    // Column pair (1, 1).
    lemma_truncated_gram_entry(
        a.m00 as int, a.m01 as int, a.m02 as int,
        a.m10 as int, a.m11 as int, a.m12 as int,
        a.m20 as int, a.m21 as int, a.m22 as int,
        b.m01 as int, b.m11 as int, b.m21 as int, b.m01 as int, b.m11 as int, b.m21 as int, ba, one);
    crate::math::lemma_mul_abs_bound(b.m01 as int, b.m01 as int, one, one);
    crate::math::lemma_mul_abs_bound(b.m11 as int, b.m11 as int, one, one);
    crate::math::lemma_mul_abs_bound(b.m21 as int, b.m21 as int, one, one);
    crate::math::lemma_mul_abs_bound(b.m01 as int, b.m11 as int, one, one);
    crate::math::lemma_mul_abs_bound(b.m11 as int, b.m01 as int, one, one);
    crate::math::lemma_mul_abs_bound(b.m01 as int, b.m21 as int, one, one);
    crate::math::lemma_mul_abs_bound(b.m21 as int, b.m01 as int, one, one);
    crate::math::lemma_mul_abs_bound(b.m11 as int, b.m21 as int, one, one);
    crate::math::lemma_mul_abs_bound(b.m21 as int, b.m11 as int, one, one);
    assert(g00 * (b.m01 * b.m01) == (one * one) * (b.m01 * b.m01) + (g00 - (one * one)) * (b.m01 * b.m01)) by {
        vstd::arithmetic::mul::lemma_mul_is_distributive_add_other_way(
            b.m01 * b.m01, one * one, g00 - (one * one));
    }
    crate::math::lemma_mul_abs_bound(g00 - (one * one), b.m01 * b.m01, da, one * one);
    assert(g11 * (b.m11 * b.m11) == (one * one) * (b.m11 * b.m11) + (g11 - (one * one)) * (b.m11 * b.m11)) by {
        vstd::arithmetic::mul::lemma_mul_is_distributive_add_other_way(
            b.m11 * b.m11, one * one, g11 - (one * one));
    }
    crate::math::lemma_mul_abs_bound(g11 - (one * one), b.m11 * b.m11, da, one * one);
    assert(g22 * (b.m21 * b.m21) == (one * one) * (b.m21 * b.m21) + (g22 - (one * one)) * (b.m21 * b.m21)) by {
        vstd::arithmetic::mul::lemma_mul_is_distributive_add_other_way(
            b.m21 * b.m21, one * one, g22 - (one * one));
    }
    crate::math::lemma_mul_abs_bound(g22 - (one * one), b.m21 * b.m21, da, one * one);
    assert(g01 * (b.m01 * b.m11 + b.m11 * b.m01) == (0) * (b.m01 * b.m11 + b.m11 * b.m01) + (g01 - (0)) * (b.m01 * b.m11 + b.m11 * b.m01)) by {
        vstd::arithmetic::mul::lemma_mul_is_distributive_add_other_way(
            b.m01 * b.m11 + b.m11 * b.m01, 0, g01 - (0));
    }
    crate::math::lemma_mul_abs_bound(g01 - (0), b.m01 * b.m11 + b.m11 * b.m01, da, 2 * (one * one));
    assert(g02 * (b.m01 * b.m21 + b.m21 * b.m01) == (0) * (b.m01 * b.m21 + b.m21 * b.m01) + (g02 - (0)) * (b.m01 * b.m21 + b.m21 * b.m01)) by {
        vstd::arithmetic::mul::lemma_mul_is_distributive_add_other_way(
            b.m01 * b.m21 + b.m21 * b.m01, 0, g02 - (0));
    }
    crate::math::lemma_mul_abs_bound(g02 - (0), b.m01 * b.m21 + b.m21 * b.m01, da, 2 * (one * one));
    assert(g12 * (b.m11 * b.m21 + b.m21 * b.m11) == (0) * (b.m11 * b.m21 + b.m21 * b.m11) + (g12 - (0)) * (b.m11 * b.m21 + b.m21 * b.m11)) by {
        vstd::arithmetic::mul::lemma_mul_is_distributive_add_other_way(
            b.m11 * b.m21 + b.m21 * b.m11, 0, g12 - (0));
    }
    crate::math::lemma_mul_abs_bound(g12 - (0), b.m11 * b.m21 + b.m21 * b.m11, da, 2 * (one * one));
    assert((one * one) * (b.m01 * b.m01 + b.m11 * b.m11 + b.m21 * b.m21)
        == (one * one) * (b.m01 * b.m01) + (one * one) * (b.m11 * b.m11) + (one * one) * (b.m21 * b.m21)) by {
        vstd::arithmetic::mul::lemma_mul_is_distributive_add(
            one * one, b.m01 * b.m01 + b.m11 * b.m11, b.m21 * b.m21);
        vstd::arithmetic::mul::lemma_mul_is_distributive_add(
            one * one, b.m01 * b.m01, b.m11 * b.m11);
    }
    assert(0int * (b.m01 * b.m11 + b.m11 * b.m01) == 0 && 0int * (b.m01 * b.m21 + b.m21 * b.m01) == 0 && 0int * (b.m11 * b.m21 + b.m21 * b.m11) == 0) by {
        vstd::arithmetic::mul::lemma_mul_basics_1(b.m01 * b.m11 + b.m11 * b.m01);
        vstd::arithmetic::mul::lemma_mul_basics_1(b.m01 * b.m21 + b.m21 * b.m01);
        vstd::arithmetic::mul::lemma_mul_basics_1(b.m11 * b.m21 + b.m21 * b.m11);
    }
    assert(da * (2 * (one * one)) == 2 * (da * (one * one))) by (nonlinear_arith);
    assert((m.m01 * m.m01 + m.m11 * m.m11 + m.m21 * m.m21) - (one * one) <= 9 * da + 18 * ba + 3
        && -(9 * da + 18 * ba + 3) <= (m.m01 * m.m01 + m.m11 * m.m11 + m.m21 * m.m21) - (one * one)) by {
        let d = (m.m01 * m.m01 + m.m11 * m.m11 + m.m21 * m.m21) - (one * one);
        assert(one * one * d == one * one * (m.m01 * m.m01 + m.m11 * m.m11 + m.m21 * m.m21) - one * one * (one * one)) by {
            vstd::arithmetic::mul::lemma_mul_is_distributive_sub(
                one * one, m.m01 * m.m01 + m.m11 * m.m11 + m.m21 * m.m21, one * one);
        }
        assert(18 * ((ba * one) * one) == 18 * (ba * (one * one))
            && (9 * da + 18 * ba + 3) * (one * one)
                == 9 * (da * (one * one)) + 18 * (ba * (one * one)) + 3 * (one * one))
            by (nonlinear_arith);
        vstd::arithmetic::mul::lemma_mul_strictly_positive(one, one);
        if d >= 9 * da + 18 * ba + 3 + 1 {
            vstd::arithmetic::mul::lemma_mul_inequality(9 * da + 18 * ba + 3 + 1, d, one * one);
            vstd::arithmetic::mul::lemma_mul_is_commutative(d, one * one);
            vstd::arithmetic::mul::lemma_mul_strict_inequality(
                9 * da + 18 * ba + 3, 9 * da + 18 * ba + 3 + 1, one * one);
        }
        if d <= -(9 * da + 18 * ba + 3) - 1 {
            vstd::arithmetic::mul::lemma_mul_inequality(d, -(9 * da + 18 * ba + 3) - 1, one * one);
            vstd::arithmetic::mul::lemma_mul_is_commutative(d, one * one);
            vstd::arithmetic::mul::lemma_mul_strict_inequality(
                9 * da + 18 * ba + 3, 9 * da + 18 * ba + 3 + 1, one * one);
            assert((-(9 * da + 18 * ba + 3) - 1) * (one * one)
                == -((9 * da + 18 * ba + 3 + 1) * (one * one))) by {
                vstd::arithmetic::mul::lemma_mul_unary_negation(
                    9 * da + 18 * ba + 3 + 1, one * one);
            }
        }
    }
    // Column pair (2, 2).
    lemma_truncated_gram_entry(
        a.m00 as int, a.m01 as int, a.m02 as int,
        a.m10 as int, a.m11 as int, a.m12 as int,
        a.m20 as int, a.m21 as int, a.m22 as int,
        b.m02 as int, b.m12 as int, b.m22 as int, b.m02 as int, b.m12 as int, b.m22 as int, ba, one);
    crate::math::lemma_mul_abs_bound(b.m02 as int, b.m02 as int, one, one);
    crate::math::lemma_mul_abs_bound(b.m12 as int, b.m12 as int, one, one);
    crate::math::lemma_mul_abs_bound(b.m22 as int, b.m22 as int, one, one);
    crate::math::lemma_mul_abs_bound(b.m02 as int, b.m12 as int, one, one);
    crate::math::lemma_mul_abs_bound(b.m12 as int, b.m02 as int, one, one);
    crate::math::lemma_mul_abs_bound(b.m02 as int, b.m22 as int, one, one);
    crate::math::lemma_mul_abs_bound(b.m22 as int, b.m02 as int, one, one);
    crate::math::lemma_mul_abs_bound(b.m12 as int, b.m22 as int, one, one);
    crate::math::lemma_mul_abs_bound(b.m22 as int, b.m12 as int, one, one);
    assert(g00 * (b.m02 * b.m02) == (one * one) * (b.m02 * b.m02) + (g00 - (one * one)) * (b.m02 * b.m02)) by {
        vstd::arithmetic::mul::lemma_mul_is_distributive_add_other_way(
            b.m02 * b.m02, one * one, g00 - (one * one));
    }
    crate::math::lemma_mul_abs_bound(g00 - (one * one), b.m02 * b.m02, da, one * one);
    assert(g11 * (b.m12 * b.m12) == (one * one) * (b.m12 * b.m12) + (g11 - (one * one)) * (b.m12 * b.m12)) by {
        vstd::arithmetic::mul::lemma_mul_is_distributive_add_other_way(
            b.m12 * b.m12, one * one, g11 - (one * one));
    }
    crate::math::lemma_mul_abs_bound(g11 - (one * one), b.m12 * b.m12, da, one * one);
    assert(g22 * (b.m22 * b.m22) == (one * one) * (b.m22 * b.m22) + (g22 - (one * one)) * (b.m22 * b.m22)) by {
        vstd::arithmetic::mul::lemma_mul_is_distributive_add_other_way(
            b.m22 * b.m22, one * one, g22 - (one * one));
    }
    crate::math::lemma_mul_abs_bound(g22 - (one * one), b.m22 * b.m22, da, one * one);
    assert(g01 * (b.m02 * b.m12 + b.m12 * b.m02) == (0) * (b.m02 * b.m12 + b.m12 * b.m02) + (g01 - (0)) * (b.m02 * b.m12 + b.m12 * b.m02)) by {
        vstd::arithmetic::mul::lemma_mul_is_distributive_add_other_way(
            b.m02 * b.m12 + b.m12 * b.m02, 0, g01 - (0));
    }
    crate::math::lemma_mul_abs_bound(g01 - (0), b.m02 * b.m12 + b.m12 * b.m02, da, 2 * (one * one));
    assert(g02 * (b.m02 * b.m22 + b.m22 * b.m02) == (0) * (b.m02 * b.m22 + b.m22 * b.m02) + (g02 - (0)) * (b.m02 * b.m22 + b.m22 * b.m02)) by {
        vstd::arithmetic::mul::lemma_mul_is_distributive_add_other_way(
            b.m02 * b.m22 + b.m22 * b.m02, 0, g02 - (0));
    }
    crate::math::lemma_mul_abs_bound(g02 - (0), b.m02 * b.m22 + b.m22 * b.m02, da, 2 * (one * one));
    assert(g12 * (b.m12 * b.m22 + b.m22 * b.m12) == (0) * (b.m12 * b.m22 + b.m22 * b.m12) + (g12 - (0)) * (b.m12 * b.m22 + b.m22 * b.m12)) by {
        vstd::arithmetic::mul::lemma_mul_is_distributive_add_other_way(
            b.m12 * b.m22 + b.m22 * b.m12, 0, g12 - (0));
    }
    crate::math::lemma_mul_abs_bound(g12 - (0), b.m12 * b.m22 + b.m22 * b.m12, da, 2 * (one * one));
    assert((one * one) * (b.m02 * b.m02 + b.m12 * b.m12 + b.m22 * b.m22)
        == (one * one) * (b.m02 * b.m02) + (one * one) * (b.m12 * b.m12) + (one * one) * (b.m22 * b.m22)) by {
        vstd::arithmetic::mul::lemma_mul_is_distributive_add(
            one * one, b.m02 * b.m02 + b.m12 * b.m12, b.m22 * b.m22);
        vstd::arithmetic::mul::lemma_mul_is_distributive_add(
            one * one, b.m02 * b.m02, b.m12 * b.m12);
    }
    assert(0int * (b.m02 * b.m12 + b.m12 * b.m02) == 0 && 0int * (b.m02 * b.m22 + b.m22 * b.m02) == 0 && 0int * (b.m12 * b.m22 + b.m22 * b.m12) == 0) by {
        vstd::arithmetic::mul::lemma_mul_basics_1(b.m02 * b.m12 + b.m12 * b.m02);
        vstd::arithmetic::mul::lemma_mul_basics_1(b.m02 * b.m22 + b.m22 * b.m02);
        vstd::arithmetic::mul::lemma_mul_basics_1(b.m12 * b.m22 + b.m22 * b.m12);
    }
    assert(da * (2 * (one * one)) == 2 * (da * (one * one))) by (nonlinear_arith);
    assert((m.m02 * m.m02 + m.m12 * m.m12 + m.m22 * m.m22) - (one * one) <= 9 * da + 18 * ba + 3
        && -(9 * da + 18 * ba + 3) <= (m.m02 * m.m02 + m.m12 * m.m12 + m.m22 * m.m22) - (one * one)) by {
        let d = (m.m02 * m.m02 + m.m12 * m.m12 + m.m22 * m.m22) - (one * one);
        assert(one * one * d == one * one * (m.m02 * m.m02 + m.m12 * m.m12 + m.m22 * m.m22) - one * one * (one * one)) by {
            vstd::arithmetic::mul::lemma_mul_is_distributive_sub(
                one * one, m.m02 * m.m02 + m.m12 * m.m12 + m.m22 * m.m22, one * one);
        }
        assert(18 * ((ba * one) * one) == 18 * (ba * (one * one))
            && (9 * da + 18 * ba + 3) * (one * one)
                == 9 * (da * (one * one)) + 18 * (ba * (one * one)) + 3 * (one * one))
            by (nonlinear_arith);
        vstd::arithmetic::mul::lemma_mul_strictly_positive(one, one);
        if d >= 9 * da + 18 * ba + 3 + 1 {
            vstd::arithmetic::mul::lemma_mul_inequality(9 * da + 18 * ba + 3 + 1, d, one * one);
            vstd::arithmetic::mul::lemma_mul_is_commutative(d, one * one);
            vstd::arithmetic::mul::lemma_mul_strict_inequality(
                9 * da + 18 * ba + 3, 9 * da + 18 * ba + 3 + 1, one * one);
        }
        if d <= -(9 * da + 18 * ba + 3) - 1 {
            vstd::arithmetic::mul::lemma_mul_inequality(d, -(9 * da + 18 * ba + 3) - 1, one * one);
            vstd::arithmetic::mul::lemma_mul_is_commutative(d, one * one);
            vstd::arithmetic::mul::lemma_mul_strict_inequality(
                9 * da + 18 * ba + 3, 9 * da + 18 * ba + 3 + 1, one * one);
            assert((-(9 * da + 18 * ba + 3) - 1) * (one * one)
                == -((9 * da + 18 * ba + 3 + 1) * (one * one))) by {
                vstd::arithmetic::mul::lemma_mul_unary_negation(
                    9 * da + 18 * ba + 3 + 1, one * one);
            }
        }
    }
    // Column pair (0, 1).
    lemma_truncated_gram_entry(
        a.m00 as int, a.m01 as int, a.m02 as int,
        a.m10 as int, a.m11 as int, a.m12 as int,
        a.m20 as int, a.m21 as int, a.m22 as int,
        b.m00 as int, b.m10 as int, b.m20 as int, b.m01 as int, b.m11 as int, b.m21 as int, ba, one);
    crate::math::lemma_mul_abs_bound(b.m00 as int, b.m01 as int, one, one);
    crate::math::lemma_mul_abs_bound(b.m10 as int, b.m11 as int, one, one);
    crate::math::lemma_mul_abs_bound(b.m20 as int, b.m21 as int, one, one);
    crate::math::lemma_mul_abs_bound(b.m00 as int, b.m11 as int, one, one);
    crate::math::lemma_mul_abs_bound(b.m10 as int, b.m01 as int, one, one);
    crate::math::lemma_mul_abs_bound(b.m00 as int, b.m21 as int, one, one);
    crate::math::lemma_mul_abs_bound(b.m20 as int, b.m01 as int, one, one);
    crate::math::lemma_mul_abs_bound(b.m10 as int, b.m21 as int, one, one);
    crate::math::lemma_mul_abs_bound(b.m20 as int, b.m11 as int, one, one);
    assert(g00 * (b.m00 * b.m01) == (one * one) * (b.m00 * b.m01) + (g00 - (one * one)) * (b.m00 * b.m01)) by {
        vstd::arithmetic::mul::lemma_mul_is_distributive_add_other_way(
            b.m00 * b.m01, one * one, g00 - (one * one));
    }
    crate::math::lemma_mul_abs_bound(g00 - (one * one), b.m00 * b.m01, da, one * one);
    assert(g11 * (b.m10 * b.m11) == (one * one) * (b.m10 * b.m11) + (g11 - (one * one)) * (b.m10 * b.m11)) by {
        vstd::arithmetic::mul::lemma_mul_is_distributive_add_other_way(
            b.m10 * b.m11, one * one, g11 - (one * one));
    }
    crate::math::lemma_mul_abs_bound(g11 - (one * one), b.m10 * b.m11, da, one * one);
    assert(g22 * (b.m20 * b.m21) == (one * one) * (b.m20 * b.m21) + (g22 - (one * one)) * (b.m20 * b.m21)) by {
        vstd::arithmetic::mul::lemma_mul_is_distributive_add_other_way(
            b.m20 * b.m21, one * one, g22 - (one * one));
    }
    crate::math::lemma_mul_abs_bound(g22 - (one * one), b.m20 * b.m21, da, one * one);
    assert(g01 * (b.m00 * b.m11 + b.m10 * b.m01) == (0) * (b.m00 * b.m11 + b.m10 * b.m01) + (g01 - (0)) * (b.m00 * b.m11 + b.m10 * b.m01)) by {
        vstd::arithmetic::mul::lemma_mul_is_distributive_add_other_way(
            b.m00 * b.m11 + b.m10 * b.m01, 0, g01 - (0));
    }
    crate::math::lemma_mul_abs_bound(g01 - (0), b.m00 * b.m11 + b.m10 * b.m01, da, 2 * (one * one));
    assert(g02 * (b.m00 * b.m21 + b.m20 * b.m01) == (0) * (b.m00 * b.m21 + b.m20 * b.m01) + (g02 - (0)) * (b.m00 * b.m21 + b.m20 * b.m01)) by {
        vstd::arithmetic::mul::lemma_mul_is_distributive_add_other_way(
            b.m00 * b.m21 + b.m20 * b.m01, 0, g02 - (0));
    }
    crate::math::lemma_mul_abs_bound(g02 - (0), b.m00 * b.m21 + b.m20 * b.m01, da, 2 * (one * one));
    assert(g12 * (b.m10 * b.m21 + b.m20 * b.m11) == (0) * (b.m10 * b.m21 + b.m20 * b.m11) + (g12 - (0)) * (b.m10 * b.m21 + b.m20 * b.m11)) by {
        vstd::arithmetic::mul::lemma_mul_is_distributive_add_other_way(
            b.m10 * b.m21 + b.m20 * b.m11, 0, g12 - (0));
    }
    crate::math::lemma_mul_abs_bound(g12 - (0), b.m10 * b.m21 + b.m20 * b.m11, da, 2 * (one * one));
    assert((one * one) * (b.m00 * b.m01 + b.m10 * b.m11 + b.m20 * b.m21)
        == (one * one) * (b.m00 * b.m01) + (one * one) * (b.m10 * b.m11) + (one * one) * (b.m20 * b.m21)) by {
        vstd::arithmetic::mul::lemma_mul_is_distributive_add(
            one * one, b.m00 * b.m01 + b.m10 * b.m11, b.m20 * b.m21);
        vstd::arithmetic::mul::lemma_mul_is_distributive_add(
            one * one, b.m00 * b.m01, b.m10 * b.m11);
    }
    assert(0int * (b.m00 * b.m11 + b.m10 * b.m01) == 0 && 0int * (b.m00 * b.m21 + b.m20 * b.m01) == 0 && 0int * (b.m10 * b.m21 + b.m20 * b.m11) == 0) by {
        vstd::arithmetic::mul::lemma_mul_basics_1(b.m00 * b.m11 + b.m10 * b.m01);
        vstd::arithmetic::mul::lemma_mul_basics_1(b.m00 * b.m21 + b.m20 * b.m01);
        vstd::arithmetic::mul::lemma_mul_basics_1(b.m10 * b.m21 + b.m20 * b.m11);
    }
    assert(da * (2 * (one * one)) == 2 * (da * (one * one))) by (nonlinear_arith);
    assert((m.m00 * m.m01 + m.m10 * m.m11 + m.m20 * m.m21) - (0) <= 9 * da + 18 * ba + 3
        && -(9 * da + 18 * ba + 3) <= (m.m00 * m.m01 + m.m10 * m.m11 + m.m20 * m.m21) - (0)) by {
        let d = (m.m00 * m.m01 + m.m10 * m.m11 + m.m20 * m.m21) - (0);
        assert(one * one * d == one * one * (m.m00 * m.m01 + m.m10 * m.m11 + m.m20 * m.m21) - one * one * (0)) by {
            vstd::arithmetic::mul::lemma_mul_is_distributive_sub(
                one * one, m.m00 * m.m01 + m.m10 * m.m11 + m.m20 * m.m21, 0);
        }
        assert(18 * ((ba * one) * one) == 18 * (ba * (one * one))
            && (9 * da + 18 * ba + 3) * (one * one)
                == 9 * (da * (one * one)) + 18 * (ba * (one * one)) + 3 * (one * one))
            by (nonlinear_arith);
        vstd::arithmetic::mul::lemma_mul_strictly_positive(one, one);
        if d >= 9 * da + 18 * ba + 3 + 1 {
            vstd::arithmetic::mul::lemma_mul_inequality(9 * da + 18 * ba + 3 + 1, d, one * one);
            vstd::arithmetic::mul::lemma_mul_is_commutative(d, one * one);
            vstd::arithmetic::mul::lemma_mul_strict_inequality(
                9 * da + 18 * ba + 3, 9 * da + 18 * ba + 3 + 1, one * one);
        }
        if d <= -(9 * da + 18 * ba + 3) - 1 {
            vstd::arithmetic::mul::lemma_mul_inequality(d, -(9 * da + 18 * ba + 3) - 1, one * one);
            vstd::arithmetic::mul::lemma_mul_is_commutative(d, one * one);
            vstd::arithmetic::mul::lemma_mul_strict_inequality(
                9 * da + 18 * ba + 3, 9 * da + 18 * ba + 3 + 1, one * one);
            assert((-(9 * da + 18 * ba + 3) - 1) * (one * one)
                == -((9 * da + 18 * ba + 3 + 1) * (one * one))) by {
                vstd::arithmetic::mul::lemma_mul_unary_negation(
                    9 * da + 18 * ba + 3 + 1, one * one);
            }
        }
    }
    // Column pair (0, 2).
    lemma_truncated_gram_entry(
        a.m00 as int, a.m01 as int, a.m02 as int,
        a.m10 as int, a.m11 as int, a.m12 as int,
        a.m20 as int, a.m21 as int, a.m22 as int,
        b.m00 as int, b.m10 as int, b.m20 as int, b.m02 as int, b.m12 as int, b.m22 as int, ba, one);
    crate::math::lemma_mul_abs_bound(b.m00 as int, b.m02 as int, one, one);
    crate::math::lemma_mul_abs_bound(b.m10 as int, b.m12 as int, one, one);
    crate::math::lemma_mul_abs_bound(b.m20 as int, b.m22 as int, one, one);
    crate::math::lemma_mul_abs_bound(b.m00 as int, b.m12 as int, one, one);
    crate::math::lemma_mul_abs_bound(b.m10 as int, b.m02 as int, one, one);
    crate::math::lemma_mul_abs_bound(b.m00 as int, b.m22 as int, one, one);
    crate::math::lemma_mul_abs_bound(b.m20 as int, b.m02 as int, one, one);
    crate::math::lemma_mul_abs_bound(b.m10 as int, b.m22 as int, one, one);
    crate::math::lemma_mul_abs_bound(b.m20 as int, b.m12 as int, one, one);
    assert(g00 * (b.m00 * b.m02) == (one * one) * (b.m00 * b.m02) + (g00 - (one * one)) * (b.m00 * b.m02)) by {
        vstd::arithmetic::mul::lemma_mul_is_distributive_add_other_way(
            b.m00 * b.m02, one * one, g00 - (one * one));
    }
    crate::math::lemma_mul_abs_bound(g00 - (one * one), b.m00 * b.m02, da, one * one);
    assert(g11 * (b.m10 * b.m12) == (one * one) * (b.m10 * b.m12) + (g11 - (one * one)) * (b.m10 * b.m12)) by {
        vstd::arithmetic::mul::lemma_mul_is_distributive_add_other_way(
            b.m10 * b.m12, one * one, g11 - (one * one));
    }
    crate::math::lemma_mul_abs_bound(g11 - (one * one), b.m10 * b.m12, da, one * one);
    assert(g22 * (b.m20 * b.m22) == (one * one) * (b.m20 * b.m22) + (g22 - (one * one)) * (b.m20 * b.m22)) by {
        vstd::arithmetic::mul::lemma_mul_is_distributive_add_other_way(
            b.m20 * b.m22, one * one, g22 - (one * one));
    }
    crate::math::lemma_mul_abs_bound(g22 - (one * one), b.m20 * b.m22, da, one * one);
    assert(g01 * (b.m00 * b.m12 + b.m10 * b.m02) == (0) * (b.m00 * b.m12 + b.m10 * b.m02) + (g01 - (0)) * (b.m00 * b.m12 + b.m10 * b.m02)) by {
        vstd::arithmetic::mul::lemma_mul_is_distributive_add_other_way(
            b.m00 * b.m12 + b.m10 * b.m02, 0, g01 - (0));
    }
    crate::math::lemma_mul_abs_bound(g01 - (0), b.m00 * b.m12 + b.m10 * b.m02, da, 2 * (one * one));
    assert(g02 * (b.m00 * b.m22 + b.m20 * b.m02) == (0) * (b.m00 * b.m22 + b.m20 * b.m02) + (g02 - (0)) * (b.m00 * b.m22 + b.m20 * b.m02)) by {
        vstd::arithmetic::mul::lemma_mul_is_distributive_add_other_way(
            b.m00 * b.m22 + b.m20 * b.m02, 0, g02 - (0));
    }
    crate::math::lemma_mul_abs_bound(g02 - (0), b.m00 * b.m22 + b.m20 * b.m02, da, 2 * (one * one));
    assert(g12 * (b.m10 * b.m22 + b.m20 * b.m12) == (0) * (b.m10 * b.m22 + b.m20 * b.m12) + (g12 - (0)) * (b.m10 * b.m22 + b.m20 * b.m12)) by {
        vstd::arithmetic::mul::lemma_mul_is_distributive_add_other_way(
            b.m10 * b.m22 + b.m20 * b.m12, 0, g12 - (0));
    }
    crate::math::lemma_mul_abs_bound(g12 - (0), b.m10 * b.m22 + b.m20 * b.m12, da, 2 * (one * one));
    assert((one * one) * (b.m00 * b.m02 + b.m10 * b.m12 + b.m20 * b.m22)
        == (one * one) * (b.m00 * b.m02) + (one * one) * (b.m10 * b.m12) + (one * one) * (b.m20 * b.m22)) by {
        vstd::arithmetic::mul::lemma_mul_is_distributive_add(
            one * one, b.m00 * b.m02 + b.m10 * b.m12, b.m20 * b.m22);
        vstd::arithmetic::mul::lemma_mul_is_distributive_add(
            one * one, b.m00 * b.m02, b.m10 * b.m12);
    }
    assert(0int * (b.m00 * b.m12 + b.m10 * b.m02) == 0 && 0int * (b.m00 * b.m22 + b.m20 * b.m02) == 0 && 0int * (b.m10 * b.m22 + b.m20 * b.m12) == 0) by {
        vstd::arithmetic::mul::lemma_mul_basics_1(b.m00 * b.m12 + b.m10 * b.m02);
        vstd::arithmetic::mul::lemma_mul_basics_1(b.m00 * b.m22 + b.m20 * b.m02);
        vstd::arithmetic::mul::lemma_mul_basics_1(b.m10 * b.m22 + b.m20 * b.m12);
    }
    assert(da * (2 * (one * one)) == 2 * (da * (one * one))) by (nonlinear_arith);
    assert((m.m00 * m.m02 + m.m10 * m.m12 + m.m20 * m.m22) - (0) <= 9 * da + 18 * ba + 3
        && -(9 * da + 18 * ba + 3) <= (m.m00 * m.m02 + m.m10 * m.m12 + m.m20 * m.m22) - (0)) by {
        let d = (m.m00 * m.m02 + m.m10 * m.m12 + m.m20 * m.m22) - (0);
        assert(one * one * d == one * one * (m.m00 * m.m02 + m.m10 * m.m12 + m.m20 * m.m22) - one * one * (0)) by {
            vstd::arithmetic::mul::lemma_mul_is_distributive_sub(
                one * one, m.m00 * m.m02 + m.m10 * m.m12 + m.m20 * m.m22, 0);
        }
        assert(18 * ((ba * one) * one) == 18 * (ba * (one * one))
            && (9 * da + 18 * ba + 3) * (one * one)
                == 9 * (da * (one * one)) + 18 * (ba * (one * one)) + 3 * (one * one))
            by (nonlinear_arith);
        vstd::arithmetic::mul::lemma_mul_strictly_positive(one, one);
        if d >= 9 * da + 18 * ba + 3 + 1 {
            vstd::arithmetic::mul::lemma_mul_inequality(9 * da + 18 * ba + 3 + 1, d, one * one);
            vstd::arithmetic::mul::lemma_mul_is_commutative(d, one * one);
            vstd::arithmetic::mul::lemma_mul_strict_inequality(
                9 * da + 18 * ba + 3, 9 * da + 18 * ba + 3 + 1, one * one);
        }
        if d <= -(9 * da + 18 * ba + 3) - 1 {
            vstd::arithmetic::mul::lemma_mul_inequality(d, -(9 * da + 18 * ba + 3) - 1, one * one);
            vstd::arithmetic::mul::lemma_mul_is_commutative(d, one * one);
            vstd::arithmetic::mul::lemma_mul_strict_inequality(
                9 * da + 18 * ba + 3, 9 * da + 18 * ba + 3 + 1, one * one);
            assert((-(9 * da + 18 * ba + 3) - 1) * (one * one)
                == -((9 * da + 18 * ba + 3 + 1) * (one * one))) by {
                vstd::arithmetic::mul::lemma_mul_unary_negation(
                    9 * da + 18 * ba + 3 + 1, one * one);
            }
        }
    }
    // Column pair (1, 2).
    lemma_truncated_gram_entry(
        a.m00 as int, a.m01 as int, a.m02 as int,
        a.m10 as int, a.m11 as int, a.m12 as int,
        a.m20 as int, a.m21 as int, a.m22 as int,
        b.m01 as int, b.m11 as int, b.m21 as int, b.m02 as int, b.m12 as int, b.m22 as int, ba, one);
    crate::math::lemma_mul_abs_bound(b.m01 as int, b.m02 as int, one, one);
    crate::math::lemma_mul_abs_bound(b.m11 as int, b.m12 as int, one, one);
    crate::math::lemma_mul_abs_bound(b.m21 as int, b.m22 as int, one, one);
    crate::math::lemma_mul_abs_bound(b.m01 as int, b.m12 as int, one, one);
    crate::math::lemma_mul_abs_bound(b.m11 as int, b.m02 as int, one, one);
    crate::math::lemma_mul_abs_bound(b.m01 as int, b.m22 as int, one, one);
    crate::math::lemma_mul_abs_bound(b.m21 as int, b.m02 as int, one, one);
    crate::math::lemma_mul_abs_bound(b.m11 as int, b.m22 as int, one, one);
    crate::math::lemma_mul_abs_bound(b.m21 as int, b.m12 as int, one, one);
    assert(g00 * (b.m01 * b.m02) == (one * one) * (b.m01 * b.m02) + (g00 - (one * one)) * (b.m01 * b.m02)) by {
        vstd::arithmetic::mul::lemma_mul_is_distributive_add_other_way(
            b.m01 * b.m02, one * one, g00 - (one * one));
    }
    crate::math::lemma_mul_abs_bound(g00 - (one * one), b.m01 * b.m02, da, one * one);
    assert(g11 * (b.m11 * b.m12) == (one * one) * (b.m11 * b.m12) + (g11 - (one * one)) * (b.m11 * b.m12)) by {
        vstd::arithmetic::mul::lemma_mul_is_distributive_add_other_way(
            b.m11 * b.m12, one * one, g11 - (one * one));
    }
    crate::math::lemma_mul_abs_bound(g11 - (one * one), b.m11 * b.m12, da, one * one);
    assert(g22 * (b.m21 * b.m22) == (one * one) * (b.m21 * b.m22) + (g22 - (one * one)) * (b.m21 * b.m22)) by {
        vstd::arithmetic::mul::lemma_mul_is_distributive_add_other_way(
            b.m21 * b.m22, one * one, g22 - (one * one));
    }
    crate::math::lemma_mul_abs_bound(g22 - (one * one), b.m21 * b.m22, da, one * one);
    assert(g01 * (b.m01 * b.m12 + b.m11 * b.m02) == (0) * (b.m01 * b.m12 + b.m11 * b.m02) + (g01 - (0)) * (b.m01 * b.m12 + b.m11 * b.m02)) by {
        vstd::arithmetic::mul::lemma_mul_is_distributive_add_other_way(
            b.m01 * b.m12 + b.m11 * b.m02, 0, g01 - (0));
    }
    crate::math::lemma_mul_abs_bound(g01 - (0), b.m01 * b.m12 + b.m11 * b.m02, da, 2 * (one * one));
    assert(g02 * (b.m01 * b.m22 + b.m21 * b.m02) == (0) * (b.m01 * b.m22 + b.m21 * b.m02) + (g02 - (0)) * (b.m01 * b.m22 + b.m21 * b.m02)) by {
        vstd::arithmetic::mul::lemma_mul_is_distributive_add_other_way(
            b.m01 * b.m22 + b.m21 * b.m02, 0, g02 - (0));
    }
    crate::math::lemma_mul_abs_bound(g02 - (0), b.m01 * b.m22 + b.m21 * b.m02, da, 2 * (one * one));
    assert(g12 * (b.m11 * b.m22 + b.m21 * b.m12) == (0) * (b.m11 * b.m22 + b.m21 * b.m12) + (g12 - (0)) * (b.m11 * b.m22 + b.m21 * b.m12)) by {
        vstd::arithmetic::mul::lemma_mul_is_distributive_add_other_way(
            b.m11 * b.m22 + b.m21 * b.m12, 0, g12 - (0));
    }
    crate::math::lemma_mul_abs_bound(g12 - (0), b.m11 * b.m22 + b.m21 * b.m12, da, 2 * (one * one));
    assert((one * one) * (b.m01 * b.m02 + b.m11 * b.m12 + b.m21 * b.m22)
        == (one * one) * (b.m01 * b.m02) + (one * one) * (b.m11 * b.m12) + (one * one) * (b.m21 * b.m22)) by {
        vstd::arithmetic::mul::lemma_mul_is_distributive_add(
            one * one, b.m01 * b.m02 + b.m11 * b.m12, b.m21 * b.m22);
        vstd::arithmetic::mul::lemma_mul_is_distributive_add(
            one * one, b.m01 * b.m02, b.m11 * b.m12);
    }
    assert(0int * (b.m01 * b.m12 + b.m11 * b.m02) == 0 && 0int * (b.m01 * b.m22 + b.m21 * b.m02) == 0 && 0int * (b.m11 * b.m22 + b.m21 * b.m12) == 0) by {
        vstd::arithmetic::mul::lemma_mul_basics_1(b.m01 * b.m12 + b.m11 * b.m02);
        vstd::arithmetic::mul::lemma_mul_basics_1(b.m01 * b.m22 + b.m21 * b.m02);
        vstd::arithmetic::mul::lemma_mul_basics_1(b.m11 * b.m22 + b.m21 * b.m12);
    }
    assert(da * (2 * (one * one)) == 2 * (da * (one * one))) by (nonlinear_arith);
    assert((m.m01 * m.m02 + m.m11 * m.m12 + m.m21 * m.m22) - (0) <= 9 * da + 18 * ba + 3
        && -(9 * da + 18 * ba + 3) <= (m.m01 * m.m02 + m.m11 * m.m12 + m.m21 * m.m22) - (0)) by {
        let d = (m.m01 * m.m02 + m.m11 * m.m12 + m.m21 * m.m22) - (0);
        assert(one * one * d == one * one * (m.m01 * m.m02 + m.m11 * m.m12 + m.m21 * m.m22) - one * one * (0)) by {
            vstd::arithmetic::mul::lemma_mul_is_distributive_sub(
                one * one, m.m01 * m.m02 + m.m11 * m.m12 + m.m21 * m.m22, 0);
        }
        assert(18 * ((ba * one) * one) == 18 * (ba * (one * one))
            && (9 * da + 18 * ba + 3) * (one * one)
                == 9 * (da * (one * one)) + 18 * (ba * (one * one)) + 3 * (one * one))
            by (nonlinear_arith);
        vstd::arithmetic::mul::lemma_mul_strictly_positive(one, one);
        if d >= 9 * da + 18 * ba + 3 + 1 {
            vstd::arithmetic::mul::lemma_mul_inequality(9 * da + 18 * ba + 3 + 1, d, one * one);
            vstd::arithmetic::mul::lemma_mul_is_commutative(d, one * one);
            vstd::arithmetic::mul::lemma_mul_strict_inequality(
                9 * da + 18 * ba + 3, 9 * da + 18 * ba + 3 + 1, one * one);
        }
        if d <= -(9 * da + 18 * ba + 3) - 1 {
            vstd::arithmetic::mul::lemma_mul_inequality(d, -(9 * da + 18 * ba + 3) - 1, one * one);
            vstd::arithmetic::mul::lemma_mul_is_commutative(d, one * one);
            vstd::arithmetic::mul::lemma_mul_strict_inequality(
                9 * da + 18 * ba + 3, 9 * da + 18 * ba + 3 + 1, one * one);
            assert((-(9 * da + 18 * ba + 3) - 1) * (one * one)
                == -((9 * da + 18 * ba + 3 + 1) * (one * one))) by {
                vstd::arithmetic::mul::lemma_mul_unary_negation(
                    9 * da + 18 * ba + 3 + 1, one * one);
            }
        }
    }
}

/// `lemma_product_entries_exact` with the magnitude roles swapped: a
/// bounded left factor against a unit-bounded right factor.
proof fn lemma_product_entries_exact_wide(a: Mat3, b: Mat3, ba: int)
    requires
        0 <= ba <= 1_000_000_000_000_000_000,
        entries_bounded(a, ba),
        entries_bounded(b, crate::matrix::FP_ONE as int),
    ensures
        entries_bounded(mat_mul_spec(a, b), 3 * ba),
        mat_mul_spec(a, b).m00 == crate::matrix::fp_scale(a.m00 * b.m00 + a.m01 * b.m10 + a.m02 * b.m20),
        mat_mul_spec(a, b).m01 == crate::matrix::fp_scale(a.m00 * b.m01 + a.m01 * b.m11 + a.m02 * b.m21),
        mat_mul_spec(a, b).m02 == crate::matrix::fp_scale(a.m00 * b.m02 + a.m01 * b.m12 + a.m02 * b.m22),
        mat_mul_spec(a, b).m10 == crate::matrix::fp_scale(a.m10 * b.m00 + a.m11 * b.m10 + a.m12 * b.m20),
        mat_mul_spec(a, b).m11 == crate::matrix::fp_scale(a.m10 * b.m01 + a.m11 * b.m11 + a.m12 * b.m21),
        mat_mul_spec(a, b).m12 == crate::matrix::fp_scale(a.m10 * b.m02 + a.m11 * b.m12 + a.m12 * b.m22),
        mat_mul_spec(a, b).m20 == crate::matrix::fp_scale(a.m20 * b.m00 + a.m21 * b.m10 + a.m22 * b.m20),
        mat_mul_spec(a, b).m21 == crate::matrix::fp_scale(a.m20 * b.m01 + a.m21 * b.m11 + a.m22 * b.m21),
        mat_mul_spec(a, b).m22 == crate::matrix::fp_scale(a.m20 * b.m02 + a.m21 * b.m12 + a.m22 * b.m22),
{
    let one = crate::matrix::FP_ONE as int;
    assert(3 * (ba * one) == (3 * ba) * one) by (nonlinear_arith);
    vstd::arithmetic::div_mod::lemma_div_by_multiple(3 * ba, one);
    crate::math::lemma_mul_abs_bound(a.m00 as int, b.m00 as int, ba, one);
    crate::math::lemma_mul_abs_bound(a.m01 as int, b.m10 as int, ba, one);
    crate::math::lemma_mul_abs_bound(a.m02 as int, b.m20 as int, ba, one);
    lemma_fp_scale_bound(a.m00 * b.m00 + a.m01 * b.m10 + a.m02 * b.m20, 3 * (ba * one));
    crate::math::lemma_mul_abs_bound(a.m00 as int, b.m01 as int, ba, one);
    crate::math::lemma_mul_abs_bound(a.m01 as int, b.m11 as int, ba, one);
    crate::math::lemma_mul_abs_bound(a.m02 as int, b.m21 as int, ba, one);
    lemma_fp_scale_bound(a.m00 * b.m01 + a.m01 * b.m11 + a.m02 * b.m21, 3 * (ba * one));
    crate::math::lemma_mul_abs_bound(a.m00 as int, b.m02 as int, ba, one);
    crate::math::lemma_mul_abs_bound(a.m01 as int, b.m12 as int, ba, one);
    crate::math::lemma_mul_abs_bound(a.m02 as int, b.m22 as int, ba, one);
    lemma_fp_scale_bound(a.m00 * b.m02 + a.m01 * b.m12 + a.m02 * b.m22, 3 * (ba * one));
    crate::math::lemma_mul_abs_bound(a.m10 as int, b.m00 as int, ba, one);
    crate::math::lemma_mul_abs_bound(a.m11 as int, b.m10 as int, ba, one);
    crate::math::lemma_mul_abs_bound(a.m12 as int, b.m20 as int, ba, one);
    lemma_fp_scale_bound(a.m10 * b.m00 + a.m11 * b.m10 + a.m12 * b.m20, 3 * (ba * one));
    crate::math::lemma_mul_abs_bound(a.m10 as int, b.m01 as int, ba, one);
    crate::math::lemma_mul_abs_bound(a.m11 as int, b.m11 as int, ba, one);
    crate::math::lemma_mul_abs_bound(a.m12 as int, b.m21 as int, ba, one);
    lemma_fp_scale_bound(a.m10 * b.m01 + a.m11 * b.m11 + a.m12 * b.m21, 3 * (ba * one));
    crate::math::lemma_mul_abs_bound(a.m10 as int, b.m02 as int, ba, one);
    crate::math::lemma_mul_abs_bound(a.m11 as int, b.m12 as int, ba, one);
    crate::math::lemma_mul_abs_bound(a.m12 as int, b.m22 as int, ba, one);
    lemma_fp_scale_bound(a.m10 * b.m02 + a.m11 * b.m12 + a.m12 * b.m22, 3 * (ba * one));
    crate::math::lemma_mul_abs_bound(a.m20 as int, b.m00 as int, ba, one);
    crate::math::lemma_mul_abs_bound(a.m21 as int, b.m10 as int, ba, one);
    crate::math::lemma_mul_abs_bound(a.m22 as int, b.m20 as int, ba, one);
    lemma_fp_scale_bound(a.m20 * b.m00 + a.m21 * b.m10 + a.m22 * b.m20, 3 * (ba * one));
    crate::math::lemma_mul_abs_bound(a.m20 as int, b.m01 as int, ba, one);
    crate::math::lemma_mul_abs_bound(a.m21 as int, b.m11 as int, ba, one);
    crate::math::lemma_mul_abs_bound(a.m22 as int, b.m21 as int, ba, one);
    lemma_fp_scale_bound(a.m20 * b.m01 + a.m21 * b.m11 + a.m22 * b.m21, 3 * (ba * one));
    crate::math::lemma_mul_abs_bound(a.m20 as int, b.m02 as int, ba, one);
    crate::math::lemma_mul_abs_bound(a.m21 as int, b.m12 as int, ba, one);
    crate::math::lemma_mul_abs_bound(a.m22 as int, b.m22 as int, ba, one);
    lemma_fp_scale_bound(a.m20 * b.m02 + a.m21 * b.m12 + a.m22 * b.m22, 3 * (ba * one));
}

/// With exactly unit angles throughout, the legacy TEME-to-ITRS matrix
/// has orthonormal columns to within the rounding of its compositions:
/// the Gram deviation stays below 811 fixed-point units, ten thousand
/// times inside a 1e-10 tolerance at squared scale.
pub proof fn lemma_legacy_matrix_orthonormal(gmst: RotAngle, xp: RotAngle, yp: RotAngle)
    requires
        crate::matrix::angle_wf(gmst),
        crate::matrix::angle_wf(xp),
        crate::matrix::angle_wf(yp),
        gmst.sin * gmst.sin + gmst.cos * gmst.cos
            == (crate::matrix::FP_ONE as int) * (crate::matrix::FP_ONE as int),
        xp.sin * xp.sin + xp.cos * xp.cos
            == (crate::matrix::FP_ONE as int) * (crate::matrix::FP_ONE as int),
        yp.sin * yp.sin + yp.cos * yp.cos
            == (crate::matrix::FP_ONE as int) * (crate::matrix::FP_ONE as int),
    ensures
        gram_defect(mat_mul_spec(
            crate::frames::pom_spec(xp, yp, crate::frames::zero_angle_spec()),
            crate::matrix::rz_spec(gmst),
        )) <= 811 * (crate::matrix::FP_ONE as int),
{
    let one = crate::matrix::FP_ONE as int;
    let zero = crate::frames::zero_angle_spec();
    assert(zero.sin * zero.sin + zero.cos * zero.cos == one * one) by (nonlinear_arith)
        requires
            zero.sin == 0 && zero.cos == one,
    ;
    lemma_pom_orthonormal(xp, yp, zero);
    let nxp = crate::matrix::neg_spec(xp);
    let nyp = crate::matrix::neg_spec(yp);
    assert(nxp.sin * nxp.sin + nxp.cos * nxp.cos == one * one
        && nyp.sin * nyp.sin + nyp.cos * nyp.cos == one * one) by (nonlinear_arith)
        requires
            nxp.sin == -xp.sin && nxp.cos == xp.cos && nyp.sin == -yp.sin
                && nyp.cos == yp.cos && xp.sin * xp.sin + xp.cos * xp.cos == one * one
                && yp.sin * yp.sin + yp.cos * yp.cos == one * one,
    ;
    lemma_elementary_gram_exact(nxp);
    lemma_elementary_gram_exact(nyp);
    lemma_elementary_gram_exact(gmst);
    let ry = crate::matrix::ry_spec(nxp);
    let rz = crate::matrix::rz_spec(zero);
    let rx = crate::matrix::rx_spec(nyp);
    let inner = mat_mul_spec(ry, rz);
    lemma_product_entries_exact(ry, rz, one);
    lemma_product_entries_exact(rx, inner, 3 * one);
    let pom = crate::frames::pom_spec(xp, yp, zero);
    lemma_right_orthonormal_defect(pom, crate::matrix::rz_spec(gmst), 72 * one + 6, 9 * one);
}


/// The general composition step: a product's Gram deviation against the
/// factors' deviations, the right factor bounded by `k` fixed-point
/// units.
pub proof fn lemma_mul_gram_defect(a: Mat3, b: Mat3, da: int, db: int, ba: int, k: int)
    requires
        0 <= da,
        0 <= db,
        0 <= ba <= 1_000_000_000_000_000_000,
        1 <= k <= 1000,
        ba * k <= 1_000_000_000_000_000_000,
        entries_bounded(a, ba),
        entries_bounded(b, k * (crate::matrix::FP_ONE as int)),
        gram_defect(a) <= da,
        gram_defect(b) <= db,
    ensures
        gram_defect(mat_mul_spec(a, b)) <= db + 9 * ((k * k) * da) + 18 * (ba * k) + 3,
{
    let one = crate::matrix::FP_ONE as int;
    let m = mat_mul_spec(a, b);
    lemma_product_entries_exact_scaled(a, b, ba, k);
    let g00 = a.m00 * a.m00 + a.m10 * a.m10 + a.m20 * a.m20;
    let g11 = a.m01 * a.m01 + a.m11 * a.m11 + a.m21 * a.m21;
    let g22 = a.m02 * a.m02 + a.m12 * a.m12 + a.m22 * a.m22;
    let g01 = a.m00 * a.m01 + a.m10 * a.m11 + a.m20 * a.m21;
    let g02 = a.m00 * a.m02 + a.m10 * a.m12 + a.m20 * a.m22;
    let g12 = a.m01 * a.m02 + a.m11 * a.m12 + a.m21 * a.m22;
    // Column pair (0, 0).
    lemma_truncated_gram_entry(
        a.m00 as int, a.m01 as int, a.m02 as int,
        a.m10 as int, a.m11 as int, a.m12 as int,
        a.m20 as int, a.m21 as int, a.m22 as int,
        b.m00 as int, b.m10 as int, b.m20 as int, b.m00 as int, b.m10 as int, b.m20 as int, ba, k * one);
    crate::math::lemma_mul_abs_bound(b.m00 as int, b.m00 as int, k * one, k * one);
    crate::math::lemma_mul_abs_bound(b.m10 as int, b.m10 as int, k * one, k * one);
    crate::math::lemma_mul_abs_bound(b.m20 as int, b.m20 as int, k * one, k * one);
    crate::math::lemma_mul_abs_bound(b.m00 as int, b.m10 as int, k * one, k * one);
    crate::math::lemma_mul_abs_bound(b.m10 as int, b.m00 as int, k * one, k * one);
    crate::math::lemma_mul_abs_bound(b.m00 as int, b.m20 as int, k * one, k * one);
    crate::math::lemma_mul_abs_bound(b.m20 as int, b.m00 as int, k * one, k * one);
    crate::math::lemma_mul_abs_bound(b.m10 as int, b.m20 as int, k * one, k * one);
    crate::math::lemma_mul_abs_bound(b.m20 as int, b.m10 as int, k * one, k * one);
    assert(g00 * (b.m00 * b.m00) == (one * one) * (b.m00 * b.m00) + (g00 - (one * one)) * (b.m00 * b.m00)) by {
        vstd::arithmetic::mul::lemma_mul_is_distributive_add_other_way(
            b.m00 * b.m00, one * one, g00 - (one * one));
    }
    crate::math::lemma_mul_abs_bound(g00 - (one * one), b.m00 * b.m00, da, 1 * ((k * one) * (k * one)));
    assert(g11 * (b.m10 * b.m10) == (one * one) * (b.m10 * b.m10) + (g11 - (one * one)) * (b.m10 * b.m10)) by {
        vstd::arithmetic::mul::lemma_mul_is_distributive_add_other_way(
            b.m10 * b.m10, one * one, g11 - (one * one));
    }
    crate::math::lemma_mul_abs_bound(g11 - (one * one), b.m10 * b.m10, da, 1 * ((k * one) * (k * one)));
    assert(g22 * (b.m20 * b.m20) == (one * one) * (b.m20 * b.m20) + (g22 - (one * one)) * (b.m20 * b.m20)) by {
        vstd::arithmetic::mul::lemma_mul_is_distributive_add_other_way(
            b.m20 * b.m20, one * one, g22 - (one * one));
    }
    crate::math::lemma_mul_abs_bound(g22 - (one * one), b.m20 * b.m20, da, 1 * ((k * one) * (k * one)));
    assert(g01 * (b.m00 * b.m10 + b.m10 * b.m00) == (0) * (b.m00 * b.m10 + b.m10 * b.m00) + (g01 - (0)) * (b.m00 * b.m10 + b.m10 * b.m00)) by {
        vstd::arithmetic::mul::lemma_mul_is_distributive_add_other_way(
            b.m00 * b.m10 + b.m10 * b.m00, 0, g01 - (0));
    }
    crate::math::lemma_mul_abs_bound(g01 - (0), b.m00 * b.m10 + b.m10 * b.m00, da, 2 * ((k * one) * (k * one)));
    assert(g02 * (b.m00 * b.m20 + b.m20 * b.m00) == (0) * (b.m00 * b.m20 + b.m20 * b.m00) + (g02 - (0)) * (b.m00 * b.m20 + b.m20 * b.m00)) by {
        vstd::arithmetic::mul::lemma_mul_is_distributive_add_other_way(
            b.m00 * b.m20 + b.m20 * b.m00, 0, g02 - (0));
    }
    crate::math::lemma_mul_abs_bound(g02 - (0), b.m00 * b.m20 + b.m20 * b.m00, da, 2 * ((k * one) * (k * one)));
    assert(g12 * (b.m10 * b.m20 + b.m20 * b.m10) == (0) * (b.m10 * b.m20 + b.m20 * b.m10) + (g12 - (0)) * (b.m10 * b.m20 + b.m20 * b.m10)) by {
        vstd::arithmetic::mul::lemma_mul_is_distributive_add_other_way(
            b.m10 * b.m20 + b.m20 * b.m10, 0, g12 - (0));
    }
    crate::math::lemma_mul_abs_bound(g12 - (0), b.m10 * b.m20 + b.m20 * b.m10, da, 2 * ((k * one) * (k * one)));
    assert((one * one) * (b.m00 * b.m00 + b.m10 * b.m10 + b.m20 * b.m20)
        == (one * one) * (b.m00 * b.m00) + (one * one) * (b.m10 * b.m10) + (one * one) * (b.m20 * b.m20)) by {
        vstd::arithmetic::mul::lemma_mul_is_distributive_add(
            one * one, b.m00 * b.m00 + b.m10 * b.m10, b.m20 * b.m20);
        vstd::arithmetic::mul::lemma_mul_is_distributive_add(
            one * one, b.m00 * b.m00, b.m10 * b.m10);
    }
    assert(0int * (b.m00 * b.m10 + b.m10 * b.m00) == 0 && 0int * (b.m00 * b.m20 + b.m20 * b.m00) == 0 && 0int * (b.m10 * b.m20 + b.m20 * b.m10) == 0) by {
        vstd::arithmetic::mul::lemma_mul_basics_1(b.m00 * b.m10 + b.m10 * b.m00);
        vstd::arithmetic::mul::lemma_mul_basics_1(b.m00 * b.m20 + b.m20 * b.m00);
        vstd::arithmetic::mul::lemma_mul_basics_1(b.m10 * b.m20 + b.m20 * b.m10);
    }
    assert((one * one) * (b.m00 * b.m00 + b.m10 * b.m10 + b.m20 * b.m20) - (one * one) * (one * one)
        == (one * one) * ((b.m00 * b.m00 + b.m10 * b.m10 + b.m20 * b.m20) - (one * one))) by {
        vstd::arithmetic::mul::lemma_mul_is_distributive_sub(
            one * one, b.m00 * b.m00 + b.m10 * b.m10 + b.m20 * b.m20, one * one);
    }
    crate::math::lemma_mul_abs_bound((b.m00 * b.m00 + b.m10 * b.m10 + b.m20 * b.m20) - (one * one), one * one, db, one * one);
    vstd::arithmetic::mul::lemma_mul_is_commutative((b.m00 * b.m00 + b.m10 * b.m10 + b.m20 * b.m20) - (one * one), one * one);
    assert((m.m00 * m.m00 + m.m10 * m.m10 + m.m20 * m.m20) - (one * one) <= db + 9 * ((k * k) * da) + 18 * (ba * k) + 3
        && -(db + 9 * ((k * k) * da) + 18 * (ba * k) + 3) <= (m.m00 * m.m00 + m.m10 * m.m10 + m.m20 * m.m20) - (one * one)) by {
        let d = (m.m00 * m.m00 + m.m10 * m.m10 + m.m20 * m.m20) - (one * one);
        assert(one * one * d == one * one * (m.m00 * m.m00 + m.m10 * m.m10 + m.m20 * m.m20) - one * one * (one * one)) by {
            vstd::arithmetic::mul::lemma_mul_is_distributive_sub(
                one * one, m.m00 * m.m00 + m.m10 * m.m10 + m.m20 * m.m20, one * one);
        }
        assert(18 * ((ba * (k * one)) * one) == 18 * ((ba * k) * (one * one))
            && da * (1 * ((k * one) * (k * one))) == ((k * k) * da) * (one * one)
            && da * (2 * ((k * one) * (k * one))) == 2 * (((k * k) * da) * (one * one))
            && (db + 9 * ((k * k) * da) + 18 * (ba * k) + 3) * (one * one)
                == db * (one * one) + 9 * (((k * k) * da) * (one * one))
                    + 18 * ((ba * k) * (one * one)) + 3 * (one * one))
            by (nonlinear_arith);
        vstd::arithmetic::mul::lemma_mul_strictly_positive(one, one);
        if d >= (db + 9 * ((k * k) * da) + 18 * (ba * k) + 3) + 1 {
            vstd::arithmetic::mul::lemma_mul_inequality((db + 9 * ((k * k) * da) + 18 * (ba * k) + 3) + 1, d, one * one);
            vstd::arithmetic::mul::lemma_mul_is_commutative(d, one * one);
            vstd::arithmetic::mul::lemma_mul_strict_inequality(
                db + 9 * ((k * k) * da) + 18 * (ba * k) + 3, (db + 9 * ((k * k) * da) + 18 * (ba * k) + 3) + 1, one * one);
        }
        if d <= -(db + 9 * ((k * k) * da) + 18 * (ba * k) + 3) - 1 {
            vstd::arithmetic::mul::lemma_mul_inequality(d, -(db + 9 * ((k * k) * da) + 18 * (ba * k) + 3) - 1, one * one);
            vstd::arithmetic::mul::lemma_mul_is_commutative(d, one * one);
            vstd::arithmetic::mul::lemma_mul_strict_inequality(
                db + 9 * ((k * k) * da) + 18 * (ba * k) + 3, (db + 9 * ((k * k) * da) + 18 * (ba * k) + 3) + 1, one * one);
            assert((-(db + 9 * ((k * k) * da) + 18 * (ba * k) + 3) - 1) * (one * one) == -(((db + 9 * ((k * k) * da) + 18 * (ba * k) + 3) + 1) * (one * one))) by {
                vstd::arithmetic::mul::lemma_mul_unary_negation((db + 9 * ((k * k) * da) + 18 * (ba * k) + 3) + 1, one * one);
            }
        }
    }
    // Column pair (1, 1).
    lemma_truncated_gram_entry(
        a.m00 as int, a.m01 as int, a.m02 as int,
        a.m10 as int, a.m11 as int, a.m12 as int,
        a.m20 as int, a.m21 as int, a.m22 as int,
        b.m01 as int, b.m11 as int, b.m21 as int, b.m01 as int, b.m11 as int, b.m21 as int, ba, k * one);
    crate::math::lemma_mul_abs_bound(b.m01 as int, b.m01 as int, k * one, k * one);
    crate::math::lemma_mul_abs_bound(b.m11 as int, b.m11 as int, k * one, k * one);
    crate::math::lemma_mul_abs_bound(b.m21 as int, b.m21 as int, k * one, k * one);
    crate::math::lemma_mul_abs_bound(b.m01 as int, b.m11 as int, k * one, k * one);
    crate::math::lemma_mul_abs_bound(b.m11 as int, b.m01 as int, k * one, k * one);
    crate::math::lemma_mul_abs_bound(b.m01 as int, b.m21 as int, k * one, k * one);
    crate::math::lemma_mul_abs_bound(b.m21 as int, b.m01 as int, k * one, k * one);
    crate::math::lemma_mul_abs_bound(b.m11 as int, b.m21 as int, k * one, k * one);
    crate::math::lemma_mul_abs_bound(b.m21 as int, b.m11 as int, k * one, k * one);
    assert(g00 * (b.m01 * b.m01) == (one * one) * (b.m01 * b.m01) + (g00 - (one * one)) * (b.m01 * b.m01)) by {
        vstd::arithmetic::mul::lemma_mul_is_distributive_add_other_way(
            b.m01 * b.m01, one * one, g00 - (one * one));
    }
    crate::math::lemma_mul_abs_bound(g00 - (one * one), b.m01 * b.m01, da, 1 * ((k * one) * (k * one)));
    assert(g11 * (b.m11 * b.m11) == (one * one) * (b.m11 * b.m11) + (g11 - (one * one)) * (b.m11 * b.m11)) by {
        vstd::arithmetic::mul::lemma_mul_is_distributive_add_other_way(
            b.m11 * b.m11, one * one, g11 - (one * one));
    }
    crate::math::lemma_mul_abs_bound(g11 - (one * one), b.m11 * b.m11, da, 1 * ((k * one) * (k * one)));
    assert(g22 * (b.m21 * b.m21) == (one * one) * (b.m21 * b.m21) + (g22 - (one * one)) * (b.m21 * b.m21)) by {
        vstd::arithmetic::mul::lemma_mul_is_distributive_add_other_way(
            b.m21 * b.m21, one * one, g22 - (one * one));
    }
    crate::math::lemma_mul_abs_bound(g22 - (one * one), b.m21 * b.m21, da, 1 * ((k * one) * (k * one)));
    assert(g01 * (b.m01 * b.m11 + b.m11 * b.m01) == (0) * (b.m01 * b.m11 + b.m11 * b.m01) + (g01 - (0)) * (b.m01 * b.m11 + b.m11 * b.m01)) by {
        vstd::arithmetic::mul::lemma_mul_is_distributive_add_other_way(
            b.m01 * b.m11 + b.m11 * b.m01, 0, g01 - (0));
    }
    crate::math::lemma_mul_abs_bound(g01 - (0), b.m01 * b.m11 + b.m11 * b.m01, da, 2 * ((k * one) * (k * one)));
    assert(g02 * (b.m01 * b.m21 + b.m21 * b.m01) == (0) * (b.m01 * b.m21 + b.m21 * b.m01) + (g02 - (0)) * (b.m01 * b.m21 + b.m21 * b.m01)) by {
        vstd::arithmetic::mul::lemma_mul_is_distributive_add_other_way(
            b.m01 * b.m21 + b.m21 * b.m01, 0, g02 - (0));
    }
    crate::math::lemma_mul_abs_bound(g02 - (0), b.m01 * b.m21 + b.m21 * b.m01, da, 2 * ((k * one) * (k * one)));
    assert(g12 * (b.m11 * b.m21 + b.m21 * b.m11) == (0) * (b.m11 * b.m21 + b.m21 * b.m11) + (g12 - (0)) * (b.m11 * b.m21 + b.m21 * b.m11)) by {
        vstd::arithmetic::mul::lemma_mul_is_distributive_add_other_way(
            b.m11 * b.m21 + b.m21 * b.m11, 0, g12 - (0));
    }
    crate::math::lemma_mul_abs_bound(g12 - (0), b.m11 * b.m21 + b.m21 * b.m11, da, 2 * ((k * one) * (k * one)));
    assert((one * one) * (b.m01 * b.m01 + b.m11 * b.m11 + b.m21 * b.m21)
        == (one * one) * (b.m01 * b.m01) + (one * one) * (b.m11 * b.m11) + (one * one) * (b.m21 * b.m21)) by {
        vstd::arithmetic::mul::lemma_mul_is_distributive_add(
            one * one, b.m01 * b.m01 + b.m11 * b.m11, b.m21 * b.m21);
        vstd::arithmetic::mul::lemma_mul_is_distributive_add(
            one * one, b.m01 * b.m01, b.m11 * b.m11);
    }
    assert(0int * (b.m01 * b.m11 + b.m11 * b.m01) == 0 && 0int * (b.m01 * b.m21 + b.m21 * b.m01) == 0 && 0int * (b.m11 * b.m21 + b.m21 * b.m11) == 0) by {
        vstd::arithmetic::mul::lemma_mul_basics_1(b.m01 * b.m11 + b.m11 * b.m01);
        vstd::arithmetic::mul::lemma_mul_basics_1(b.m01 * b.m21 + b.m21 * b.m01);
        vstd::arithmetic::mul::lemma_mul_basics_1(b.m11 * b.m21 + b.m21 * b.m11);
    }
    assert((one * one) * (b.m01 * b.m01 + b.m11 * b.m11 + b.m21 * b.m21) - (one * one) * (one * one)
        == (one * one) * ((b.m01 * b.m01 + b.m11 * b.m11 + b.m21 * b.m21) - (one * one))) by {
        vstd::arithmetic::mul::lemma_mul_is_distributive_sub(
            one * one, b.m01 * b.m01 + b.m11 * b.m11 + b.m21 * b.m21, one * one);
    }
    crate::math::lemma_mul_abs_bound((b.m01 * b.m01 + b.m11 * b.m11 + b.m21 * b.m21) - (one * one), one * one, db, one * one);
    vstd::arithmetic::mul::lemma_mul_is_commutative((b.m01 * b.m01 + b.m11 * b.m11 + b.m21 * b.m21) - (one * one), one * one);
    assert((m.m01 * m.m01 + m.m11 * m.m11 + m.m21 * m.m21) - (one * one) <= db + 9 * ((k * k) * da) + 18 * (ba * k) + 3
        && -(db + 9 * ((k * k) * da) + 18 * (ba * k) + 3) <= (m.m01 * m.m01 + m.m11 * m.m11 + m.m21 * m.m21) - (one * one)) by {
        let d = (m.m01 * m.m01 + m.m11 * m.m11 + m.m21 * m.m21) - (one * one);
        assert(one * one * d == one * one * (m.m01 * m.m01 + m.m11 * m.m11 + m.m21 * m.m21) - one * one * (one * one)) by {
            vstd::arithmetic::mul::lemma_mul_is_distributive_sub(
                one * one, m.m01 * m.m01 + m.m11 * m.m11 + m.m21 * m.m21, one * one);
        }
        assert(18 * ((ba * (k * one)) * one) == 18 * ((ba * k) * (one * one))
            && da * (1 * ((k * one) * (k * one))) == ((k * k) * da) * (one * one)
            && da * (2 * ((k * one) * (k * one))) == 2 * (((k * k) * da) * (one * one))
            && (db + 9 * ((k * k) * da) + 18 * (ba * k) + 3) * (one * one)
                == db * (one * one) + 9 * (((k * k) * da) * (one * one))
                    + 18 * ((ba * k) * (one * one)) + 3 * (one * one))
            by (nonlinear_arith);
        vstd::arithmetic::mul::lemma_mul_strictly_positive(one, one);
        if d >= (db + 9 * ((k * k) * da) + 18 * (ba * k) + 3) + 1 {
            vstd::arithmetic::mul::lemma_mul_inequality((db + 9 * ((k * k) * da) + 18 * (ba * k) + 3) + 1, d, one * one);
            vstd::arithmetic::mul::lemma_mul_is_commutative(d, one * one);
            vstd::arithmetic::mul::lemma_mul_strict_inequality(
                db + 9 * ((k * k) * da) + 18 * (ba * k) + 3, (db + 9 * ((k * k) * da) + 18 * (ba * k) + 3) + 1, one * one);
        }
        if d <= -(db + 9 * ((k * k) * da) + 18 * (ba * k) + 3) - 1 {
            vstd::arithmetic::mul::lemma_mul_inequality(d, -(db + 9 * ((k * k) * da) + 18 * (ba * k) + 3) - 1, one * one);
            vstd::arithmetic::mul::lemma_mul_is_commutative(d, one * one);
            vstd::arithmetic::mul::lemma_mul_strict_inequality(
                db + 9 * ((k * k) * da) + 18 * (ba * k) + 3, (db + 9 * ((k * k) * da) + 18 * (ba * k) + 3) + 1, one * one);
            assert((-(db + 9 * ((k * k) * da) + 18 * (ba * k) + 3) - 1) * (one * one) == -(((db + 9 * ((k * k) * da) + 18 * (ba * k) + 3) + 1) * (one * one))) by {
                vstd::arithmetic::mul::lemma_mul_unary_negation((db + 9 * ((k * k) * da) + 18 * (ba * k) + 3) + 1, one * one);
            }
        }
    }
    // Column pair (2, 2).
    lemma_truncated_gram_entry(
        a.m00 as int, a.m01 as int, a.m02 as int,
        a.m10 as int, a.m11 as int, a.m12 as int,
        a.m20 as int, a.m21 as int, a.m22 as int,
        b.m02 as int, b.m12 as int, b.m22 as int, b.m02 as int, b.m12 as int, b.m22 as int, ba, k * one);
    crate::math::lemma_mul_abs_bound(b.m02 as int, b.m02 as int, k * one, k * one);
    crate::math::lemma_mul_abs_bound(b.m12 as int, b.m12 as int, k * one, k * one);
    crate::math::lemma_mul_abs_bound(b.m22 as int, b.m22 as int, k * one, k * one);
    crate::math::lemma_mul_abs_bound(b.m02 as int, b.m12 as int, k * one, k * one);
    crate::math::lemma_mul_abs_bound(b.m12 as int, b.m02 as int, k * one, k * one);
    crate::math::lemma_mul_abs_bound(b.m02 as int, b.m22 as int, k * one, k * one);
    crate::math::lemma_mul_abs_bound(b.m22 as int, b.m02 as int, k * one, k * one);
    crate::math::lemma_mul_abs_bound(b.m12 as int, b.m22 as int, k * one, k * one);
    crate::math::lemma_mul_abs_bound(b.m22 as int, b.m12 as int, k * one, k * one);
    assert(g00 * (b.m02 * b.m02) == (one * one) * (b.m02 * b.m02) + (g00 - (one * one)) * (b.m02 * b.m02)) by {
        vstd::arithmetic::mul::lemma_mul_is_distributive_add_other_way(
            b.m02 * b.m02, one * one, g00 - (one * one));
    }
    crate::math::lemma_mul_abs_bound(g00 - (one * one), b.m02 * b.m02, da, 1 * ((k * one) * (k * one)));
    assert(g11 * (b.m12 * b.m12) == (one * one) * (b.m12 * b.m12) + (g11 - (one * one)) * (b.m12 * b.m12)) by {
        vstd::arithmetic::mul::lemma_mul_is_distributive_add_other_way(
            b.m12 * b.m12, one * one, g11 - (one * one));
    }
    crate::math::lemma_mul_abs_bound(g11 - (one * one), b.m12 * b.m12, da, 1 * ((k * one) * (k * one)));
    assert(g22 * (b.m22 * b.m22) == (one * one) * (b.m22 * b.m22) + (g22 - (one * one)) * (b.m22 * b.m22)) by {
        vstd::arithmetic::mul::lemma_mul_is_distributive_add_other_way(
            b.m22 * b.m22, one * one, g22 - (one * one));
    }
    crate::math::lemma_mul_abs_bound(g22 - (one * one), b.m22 * b.m22, da, 1 * ((k * one) * (k * one)));
    assert(g01 * (b.m02 * b.m12 + b.m12 * b.m02) == (0) * (b.m02 * b.m12 + b.m12 * b.m02) + (g01 - (0)) * (b.m02 * b.m12 + b.m12 * b.m02)) by {
        vstd::arithmetic::mul::lemma_mul_is_distributive_add_other_way(
            b.m02 * b.m12 + b.m12 * b.m02, 0, g01 - (0));
    }
    crate::math::lemma_mul_abs_bound(g01 - (0), b.m02 * b.m12 + b.m12 * b.m02, da, 2 * ((k * one) * (k * one)));
    assert(g02 * (b.m02 * b.m22 + b.m22 * b.m02) == (0) * (b.m02 * b.m22 + b.m22 * b.m02) + (g02 - (0)) * (b.m02 * b.m22 + b.m22 * b.m02)) by {
        vstd::arithmetic::mul::lemma_mul_is_distributive_add_other_way(
            b.m02 * b.m22 + b.m22 * b.m02, 0, g02 - (0));
    }
    crate::math::lemma_mul_abs_bound(g02 - (0), b.m02 * b.m22 + b.m22 * b.m02, da, 2 * ((k * one) * (k * one)));
    assert(g12 * (b.m12 * b.m22 + b.m22 * b.m12) == (0) * (b.m12 * b.m22 + b.m22 * b.m12) + (g12 - (0)) * (b.m12 * b.m22 + b.m22 * b.m12)) by {
        vstd::arithmetic::mul::lemma_mul_is_distributive_add_other_way(
            b.m12 * b.m22 + b.m22 * b.m12, 0, g12 - (0));
    }
    crate::math::lemma_mul_abs_bound(g12 - (0), b.m12 * b.m22 + b.m22 * b.m12, da, 2 * ((k * one) * (k * one)));
    assert((one * one) * (b.m02 * b.m02 + b.m12 * b.m12 + b.m22 * b.m22)
        == (one * one) * (b.m02 * b.m02) + (one * one) * (b.m12 * b.m12) + (one * one) * (b.m22 * b.m22)) by {
        vstd::arithmetic::mul::lemma_mul_is_distributive_add(
            one * one, b.m02 * b.m02 + b.m12 * b.m12, b.m22 * b.m22);
        vstd::arithmetic::mul::lemma_mul_is_distributive_add(
            one * one, b.m02 * b.m02, b.m12 * b.m12);
    }
    assert(0int * (b.m02 * b.m12 + b.m12 * b.m02) == 0 && 0int * (b.m02 * b.m22 + b.m22 * b.m02) == 0 && 0int * (b.m12 * b.m22 + b.m22 * b.m12) == 0) by {
        vstd::arithmetic::mul::lemma_mul_basics_1(b.m02 * b.m12 + b.m12 * b.m02);
        vstd::arithmetic::mul::lemma_mul_basics_1(b.m02 * b.m22 + b.m22 * b.m02);
        vstd::arithmetic::mul::lemma_mul_basics_1(b.m12 * b.m22 + b.m22 * b.m12);
    }
    assert((one * one) * (b.m02 * b.m02 + b.m12 * b.m12 + b.m22 * b.m22) - (one * one) * (one * one)
        == (one * one) * ((b.m02 * b.m02 + b.m12 * b.m12 + b.m22 * b.m22) - (one * one))) by {
        vstd::arithmetic::mul::lemma_mul_is_distributive_sub(
            one * one, b.m02 * b.m02 + b.m12 * b.m12 + b.m22 * b.m22, one * one);
    }
    crate::math::lemma_mul_abs_bound((b.m02 * b.m02 + b.m12 * b.m12 + b.m22 * b.m22) - (one * one), one * one, db, one * one);
    vstd::arithmetic::mul::lemma_mul_is_commutative((b.m02 * b.m02 + b.m12 * b.m12 + b.m22 * b.m22) - (one * one), one * one);
    assert((m.m02 * m.m02 + m.m12 * m.m12 + m.m22 * m.m22) - (one * one) <= db + 9 * ((k * k) * da) + 18 * (ba * k) + 3
        && -(db + 9 * ((k * k) * da) + 18 * (ba * k) + 3) <= (m.m02 * m.m02 + m.m12 * m.m12 + m.m22 * m.m22) - (one * one)) by {
        let d = (m.m02 * m.m02 + m.m12 * m.m12 + m.m22 * m.m22) - (one * one);
        assert(one * one * d == one * one * (m.m02 * m.m02 + m.m12 * m.m12 + m.m22 * m.m22) - one * one * (one * one)) by {
            vstd::arithmetic::mul::lemma_mul_is_distributive_sub(
                one * one, m.m02 * m.m02 + m.m12 * m.m12 + m.m22 * m.m22, one * one);
        }
        assert(18 * ((ba * (k * one)) * one) == 18 * ((ba * k) * (one * one))
            && da * (1 * ((k * one) * (k * one))) == ((k * k) * da) * (one * one)
            && da * (2 * ((k * one) * (k * one))) == 2 * (((k * k) * da) * (one * one))
            && (db + 9 * ((k * k) * da) + 18 * (ba * k) + 3) * (one * one)
                == db * (one * one) + 9 * (((k * k) * da) * (one * one))
                    + 18 * ((ba * k) * (one * one)) + 3 * (one * one))
            by (nonlinear_arith);
        vstd::arithmetic::mul::lemma_mul_strictly_positive(one, one);
        if d >= (db + 9 * ((k * k) * da) + 18 * (ba * k) + 3) + 1 {
            vstd::arithmetic::mul::lemma_mul_inequality((db + 9 * ((k * k) * da) + 18 * (ba * k) + 3) + 1, d, one * one);
            vstd::arithmetic::mul::lemma_mul_is_commutative(d, one * one);
            vstd::arithmetic::mul::lemma_mul_strict_inequality(
                db + 9 * ((k * k) * da) + 18 * (ba * k) + 3, (db + 9 * ((k * k) * da) + 18 * (ba * k) + 3) + 1, one * one);
        }
        if d <= -(db + 9 * ((k * k) * da) + 18 * (ba * k) + 3) - 1 {
            vstd::arithmetic::mul::lemma_mul_inequality(d, -(db + 9 * ((k * k) * da) + 18 * (ba * k) + 3) - 1, one * one);
            vstd::arithmetic::mul::lemma_mul_is_commutative(d, one * one);
            vstd::arithmetic::mul::lemma_mul_strict_inequality(
                db + 9 * ((k * k) * da) + 18 * (ba * k) + 3, (db + 9 * ((k * k) * da) + 18 * (ba * k) + 3) + 1, one * one);
            assert((-(db + 9 * ((k * k) * da) + 18 * (ba * k) + 3) - 1) * (one * one) == -(((db + 9 * ((k * k) * da) + 18 * (ba * k) + 3) + 1) * (one * one))) by {
                vstd::arithmetic::mul::lemma_mul_unary_negation((db + 9 * ((k * k) * da) + 18 * (ba * k) + 3) + 1, one * one);
            }
        }
    }
    // Column pair (0, 1).
    lemma_truncated_gram_entry(
        a.m00 as int, a.m01 as int, a.m02 as int,
        a.m10 as int, a.m11 as int, a.m12 as int,
        a.m20 as int, a.m21 as int, a.m22 as int,
        b.m00 as int, b.m10 as int, b.m20 as int, b.m01 as int, b.m11 as int, b.m21 as int, ba, k * one);
    crate::math::lemma_mul_abs_bound(b.m00 as int, b.m01 as int, k * one, k * one);
    crate::math::lemma_mul_abs_bound(b.m10 as int, b.m11 as int, k * one, k * one);
    crate::math::lemma_mul_abs_bound(b.m20 as int, b.m21 as int, k * one, k * one);
    crate::math::lemma_mul_abs_bound(b.m00 as int, b.m11 as int, k * one, k * one);
    crate::math::lemma_mul_abs_bound(b.m10 as int, b.m01 as int, k * one, k * one);
    crate::math::lemma_mul_abs_bound(b.m00 as int, b.m21 as int, k * one, k * one);
    crate::math::lemma_mul_abs_bound(b.m20 as int, b.m01 as int, k * one, k * one);
    crate::math::lemma_mul_abs_bound(b.m10 as int, b.m21 as int, k * one, k * one);
    crate::math::lemma_mul_abs_bound(b.m20 as int, b.m11 as int, k * one, k * one);
    assert(g00 * (b.m00 * b.m01) == (one * one) * (b.m00 * b.m01) + (g00 - (one * one)) * (b.m00 * b.m01)) by {
        vstd::arithmetic::mul::lemma_mul_is_distributive_add_other_way(
            b.m00 * b.m01, one * one, g00 - (one * one));
    }
    crate::math::lemma_mul_abs_bound(g00 - (one * one), b.m00 * b.m01, da, 1 * ((k * one) * (k * one)));
    assert(g11 * (b.m10 * b.m11) == (one * one) * (b.m10 * b.m11) + (g11 - (one * one)) * (b.m10 * b.m11)) by {
        vstd::arithmetic::mul::lemma_mul_is_distributive_add_other_way(
            b.m10 * b.m11, one * one, g11 - (one * one));
    }
    crate::math::lemma_mul_abs_bound(g11 - (one * one), b.m10 * b.m11, da, 1 * ((k * one) * (k * one)));
    assert(g22 * (b.m20 * b.m21) == (one * one) * (b.m20 * b.m21) + (g22 - (one * one)) * (b.m20 * b.m21)) by {
        vstd::arithmetic::mul::lemma_mul_is_distributive_add_other_way(
            b.m20 * b.m21, one * one, g22 - (one * one));
    }
    crate::math::lemma_mul_abs_bound(g22 - (one * one), b.m20 * b.m21, da, 1 * ((k * one) * (k * one)));
    assert(g01 * (b.m00 * b.m11 + b.m10 * b.m01) == (0) * (b.m00 * b.m11 + b.m10 * b.m01) + (g01 - (0)) * (b.m00 * b.m11 + b.m10 * b.m01)) by {
        vstd::arithmetic::mul::lemma_mul_is_distributive_add_other_way(
            b.m00 * b.m11 + b.m10 * b.m01, 0, g01 - (0));
    }
    crate::math::lemma_mul_abs_bound(g01 - (0), b.m00 * b.m11 + b.m10 * b.m01, da, 2 * ((k * one) * (k * one)));
    assert(g02 * (b.m00 * b.m21 + b.m20 * b.m01) == (0) * (b.m00 * b.m21 + b.m20 * b.m01) + (g02 - (0)) * (b.m00 * b.m21 + b.m20 * b.m01)) by {
        vstd::arithmetic::mul::lemma_mul_is_distributive_add_other_way(
            b.m00 * b.m21 + b.m20 * b.m01, 0, g02 - (0));
    }
    crate::math::lemma_mul_abs_bound(g02 - (0), b.m00 * b.m21 + b.m20 * b.m01, da, 2 * ((k * one) * (k * one)));
    assert(g12 * (b.m10 * b.m21 + b.m20 * b.m11) == (0) * (b.m10 * b.m21 + b.m20 * b.m11) + (g12 - (0)) * (b.m10 * b.m21 + b.m20 * b.m11)) by {
        vstd::arithmetic::mul::lemma_mul_is_distributive_add_other_way(
            b.m10 * b.m21 + b.m20 * b.m11, 0, g12 - (0));
    }
    crate::math::lemma_mul_abs_bound(g12 - (0), b.m10 * b.m21 + b.m20 * b.m11, da, 2 * ((k * one) * (k * one)));
    assert((one * one) * (b.m00 * b.m01 + b.m10 * b.m11 + b.m20 * b.m21)
        == (one * one) * (b.m00 * b.m01) + (one * one) * (b.m10 * b.m11) + (one * one) * (b.m20 * b.m21)) by {
        vstd::arithmetic::mul::lemma_mul_is_distributive_add(
            one * one, b.m00 * b.m01 + b.m10 * b.m11, b.m20 * b.m21);
        vstd::arithmetic::mul::lemma_mul_is_distributive_add(
            one * one, b.m00 * b.m01, b.m10 * b.m11);
    }
    assert(0int * (b.m00 * b.m11 + b.m10 * b.m01) == 0 && 0int * (b.m00 * b.m21 + b.m20 * b.m01) == 0 && 0int * (b.m10 * b.m21 + b.m20 * b.m11) == 0) by {
        vstd::arithmetic::mul::lemma_mul_basics_1(b.m00 * b.m11 + b.m10 * b.m01);
        vstd::arithmetic::mul::lemma_mul_basics_1(b.m00 * b.m21 + b.m20 * b.m01);
        vstd::arithmetic::mul::lemma_mul_basics_1(b.m10 * b.m21 + b.m20 * b.m11);
    }
    assert((one * one) * (b.m00 * b.m01 + b.m10 * b.m11 + b.m20 * b.m21) - (one * one) * (0)
        == (one * one) * ((b.m00 * b.m01 + b.m10 * b.m11 + b.m20 * b.m21) - (0))) by {
        vstd::arithmetic::mul::lemma_mul_is_distributive_sub(
            one * one, b.m00 * b.m01 + b.m10 * b.m11 + b.m20 * b.m21, 0);
    }
    crate::math::lemma_mul_abs_bound((b.m00 * b.m01 + b.m10 * b.m11 + b.m20 * b.m21) - (0), one * one, db, one * one);
    vstd::arithmetic::mul::lemma_mul_is_commutative((b.m00 * b.m01 + b.m10 * b.m11 + b.m20 * b.m21) - (0), one * one);
    assert((m.m00 * m.m01 + m.m10 * m.m11 + m.m20 * m.m21) - (0) <= db + 9 * ((k * k) * da) + 18 * (ba * k) + 3
        && -(db + 9 * ((k * k) * da) + 18 * (ba * k) + 3) <= (m.m00 * m.m01 + m.m10 * m.m11 + m.m20 * m.m21) - (0)) by {
        let d = (m.m00 * m.m01 + m.m10 * m.m11 + m.m20 * m.m21) - (0);
        assert(one * one * d == one * one * (m.m00 * m.m01 + m.m10 * m.m11 + m.m20 * m.m21) - one * one * (0)) by {
            vstd::arithmetic::mul::lemma_mul_is_distributive_sub(
                one * one, m.m00 * m.m01 + m.m10 * m.m11 + m.m20 * m.m21, 0);
        }
        assert(18 * ((ba * (k * one)) * one) == 18 * ((ba * k) * (one * one))
            && da * (1 * ((k * one) * (k * one))) == ((k * k) * da) * (one * one)
            && da * (2 * ((k * one) * (k * one))) == 2 * (((k * k) * da) * (one * one))
            && (db + 9 * ((k * k) * da) + 18 * (ba * k) + 3) * (one * one)
                == db * (one * one) + 9 * (((k * k) * da) * (one * one))
                    + 18 * ((ba * k) * (one * one)) + 3 * (one * one))
            by (nonlinear_arith);
        vstd::arithmetic::mul::lemma_mul_strictly_positive(one, one);
        if d >= (db + 9 * ((k * k) * da) + 18 * (ba * k) + 3) + 1 {
            vstd::arithmetic::mul::lemma_mul_inequality((db + 9 * ((k * k) * da) + 18 * (ba * k) + 3) + 1, d, one * one);
            vstd::arithmetic::mul::lemma_mul_is_commutative(d, one * one);
            vstd::arithmetic::mul::lemma_mul_strict_inequality(
                db + 9 * ((k * k) * da) + 18 * (ba * k) + 3, (db + 9 * ((k * k) * da) + 18 * (ba * k) + 3) + 1, one * one);
        }
        if d <= -(db + 9 * ((k * k) * da) + 18 * (ba * k) + 3) - 1 {
            vstd::arithmetic::mul::lemma_mul_inequality(d, -(db + 9 * ((k * k) * da) + 18 * (ba * k) + 3) - 1, one * one);
            vstd::arithmetic::mul::lemma_mul_is_commutative(d, one * one);
            vstd::arithmetic::mul::lemma_mul_strict_inequality(
                db + 9 * ((k * k) * da) + 18 * (ba * k) + 3, (db + 9 * ((k * k) * da) + 18 * (ba * k) + 3) + 1, one * one);
            assert((-(db + 9 * ((k * k) * da) + 18 * (ba * k) + 3) - 1) * (one * one) == -(((db + 9 * ((k * k) * da) + 18 * (ba * k) + 3) + 1) * (one * one))) by {
                vstd::arithmetic::mul::lemma_mul_unary_negation((db + 9 * ((k * k) * da) + 18 * (ba * k) + 3) + 1, one * one);
            }
        }
    }
    // Column pair (0, 2).
    lemma_truncated_gram_entry(
        a.m00 as int, a.m01 as int, a.m02 as int,
        a.m10 as int, a.m11 as int, a.m12 as int,
        a.m20 as int, a.m21 as int, a.m22 as int,
        b.m00 as int, b.m10 as int, b.m20 as int, b.m02 as int, b.m12 as int, b.m22 as int, ba, k * one);
    crate::math::lemma_mul_abs_bound(b.m00 as int, b.m02 as int, k * one, k * one);
    crate::math::lemma_mul_abs_bound(b.m10 as int, b.m12 as int, k * one, k * one);
    crate::math::lemma_mul_abs_bound(b.m20 as int, b.m22 as int, k * one, k * one);
    crate::math::lemma_mul_abs_bound(b.m00 as int, b.m12 as int, k * one, k * one);
    crate::math::lemma_mul_abs_bound(b.m10 as int, b.m02 as int, k * one, k * one);
    crate::math::lemma_mul_abs_bound(b.m00 as int, b.m22 as int, k * one, k * one);
    crate::math::lemma_mul_abs_bound(b.m20 as int, b.m02 as int, k * one, k * one);
    crate::math::lemma_mul_abs_bound(b.m10 as int, b.m22 as int, k * one, k * one);
    crate::math::lemma_mul_abs_bound(b.m20 as int, b.m12 as int, k * one, k * one);
    assert(g00 * (b.m00 * b.m02) == (one * one) * (b.m00 * b.m02) + (g00 - (one * one)) * (b.m00 * b.m02)) by {
        vstd::arithmetic::mul::lemma_mul_is_distributive_add_other_way(
            b.m00 * b.m02, one * one, g00 - (one * one));
    }
    crate::math::lemma_mul_abs_bound(g00 - (one * one), b.m00 * b.m02, da, 1 * ((k * one) * (k * one)));
    assert(g11 * (b.m10 * b.m12) == (one * one) * (b.m10 * b.m12) + (g11 - (one * one)) * (b.m10 * b.m12)) by {
        vstd::arithmetic::mul::lemma_mul_is_distributive_add_other_way(
            b.m10 * b.m12, one * one, g11 - (one * one));
    }
    crate::math::lemma_mul_abs_bound(g11 - (one * one), b.m10 * b.m12, da, 1 * ((k * one) * (k * one)));
    assert(g22 * (b.m20 * b.m22) == (one * one) * (b.m20 * b.m22) + (g22 - (one * one)) * (b.m20 * b.m22)) by {
        vstd::arithmetic::mul::lemma_mul_is_distributive_add_other_way(
            b.m20 * b.m22, one * one, g22 - (one * one));
    }
    crate::math::lemma_mul_abs_bound(g22 - (one * one), b.m20 * b.m22, da, 1 * ((k * one) * (k * one)));
    assert(g01 * (b.m00 * b.m12 + b.m10 * b.m02) == (0) * (b.m00 * b.m12 + b.m10 * b.m02) + (g01 - (0)) * (b.m00 * b.m12 + b.m10 * b.m02)) by {
        vstd::arithmetic::mul::lemma_mul_is_distributive_add_other_way(
            b.m00 * b.m12 + b.m10 * b.m02, 0, g01 - (0));
    }
    crate::math::lemma_mul_abs_bound(g01 - (0), b.m00 * b.m12 + b.m10 * b.m02, da, 2 * ((k * one) * (k * one)));
    assert(g02 * (b.m00 * b.m22 + b.m20 * b.m02) == (0) * (b.m00 * b.m22 + b.m20 * b.m02) + (g02 - (0)) * (b.m00 * b.m22 + b.m20 * b.m02)) by {
        vstd::arithmetic::mul::lemma_mul_is_distributive_add_other_way(
            b.m00 * b.m22 + b.m20 * b.m02, 0, g02 - (0));
    }
    crate::math::lemma_mul_abs_bound(g02 - (0), b.m00 * b.m22 + b.m20 * b.m02, da, 2 * ((k * one) * (k * one)));
    assert(g12 * (b.m10 * b.m22 + b.m20 * b.m12) == (0) * (b.m10 * b.m22 + b.m20 * b.m12) + (g12 - (0)) * (b.m10 * b.m22 + b.m20 * b.m12)) by {
        vstd::arithmetic::mul::lemma_mul_is_distributive_add_other_way(
            b.m10 * b.m22 + b.m20 * b.m12, 0, g12 - (0));
    }
    crate::math::lemma_mul_abs_bound(g12 - (0), b.m10 * b.m22 + b.m20 * b.m12, da, 2 * ((k * one) * (k * one)));
    assert((one * one) * (b.m00 * b.m02 + b.m10 * b.m12 + b.m20 * b.m22)
        == (one * one) * (b.m00 * b.m02) + (one * one) * (b.m10 * b.m12) + (one * one) * (b.m20 * b.m22)) by {
        vstd::arithmetic::mul::lemma_mul_is_distributive_add(
            one * one, b.m00 * b.m02 + b.m10 * b.m12, b.m20 * b.m22);
        vstd::arithmetic::mul::lemma_mul_is_distributive_add(
            one * one, b.m00 * b.m02, b.m10 * b.m12);
    }
    assert(0int * (b.m00 * b.m12 + b.m10 * b.m02) == 0 && 0int * (b.m00 * b.m22 + b.m20 * b.m02) == 0 && 0int * (b.m10 * b.m22 + b.m20 * b.m12) == 0) by {
        vstd::arithmetic::mul::lemma_mul_basics_1(b.m00 * b.m12 + b.m10 * b.m02);
        vstd::arithmetic::mul::lemma_mul_basics_1(b.m00 * b.m22 + b.m20 * b.m02);
        vstd::arithmetic::mul::lemma_mul_basics_1(b.m10 * b.m22 + b.m20 * b.m12);
    }
    assert((one * one) * (b.m00 * b.m02 + b.m10 * b.m12 + b.m20 * b.m22) - (one * one) * (0)
        == (one * one) * ((b.m00 * b.m02 + b.m10 * b.m12 + b.m20 * b.m22) - (0))) by {
        vstd::arithmetic::mul::lemma_mul_is_distributive_sub(
            one * one, b.m00 * b.m02 + b.m10 * b.m12 + b.m20 * b.m22, 0);
    }
    crate::math::lemma_mul_abs_bound((b.m00 * b.m02 + b.m10 * b.m12 + b.m20 * b.m22) - (0), one * one, db, one * one);
    vstd::arithmetic::mul::lemma_mul_is_commutative((b.m00 * b.m02 + b.m10 * b.m12 + b.m20 * b.m22) - (0), one * one);
    assert((m.m00 * m.m02 + m.m10 * m.m12 + m.m20 * m.m22) - (0) <= db + 9 * ((k * k) * da) + 18 * (ba * k) + 3
        && -(db + 9 * ((k * k) * da) + 18 * (ba * k) + 3) <= (m.m00 * m.m02 + m.m10 * m.m12 + m.m20 * m.m22) - (0)) by {
        let d = (m.m00 * m.m02 + m.m10 * m.m12 + m.m20 * m.m22) - (0);
        assert(one * one * d == one * one * (m.m00 * m.m02 + m.m10 * m.m12 + m.m20 * m.m22) - one * one * (0)) by {
            vstd::arithmetic::mul::lemma_mul_is_distributive_sub(
                one * one, m.m00 * m.m02 + m.m10 * m.m12 + m.m20 * m.m22, 0);
        }
        assert(18 * ((ba * (k * one)) * one) == 18 * ((ba * k) * (one * one))
            && da * (1 * ((k * one) * (k * one))) == ((k * k) * da) * (one * one)
            && da * (2 * ((k * one) * (k * one))) == 2 * (((k * k) * da) * (one * one))
            && (db + 9 * ((k * k) * da) + 18 * (ba * k) + 3) * (one * one)
                == db * (one * one) + 9 * (((k * k) * da) * (one * one))
                    + 18 * ((ba * k) * (one * one)) + 3 * (one * one))
            by (nonlinear_arith);
        vstd::arithmetic::mul::lemma_mul_strictly_positive(one, one);
        if d >= (db + 9 * ((k * k) * da) + 18 * (ba * k) + 3) + 1 {
            vstd::arithmetic::mul::lemma_mul_inequality((db + 9 * ((k * k) * da) + 18 * (ba * k) + 3) + 1, d, one * one);
            vstd::arithmetic::mul::lemma_mul_is_commutative(d, one * one);
            vstd::arithmetic::mul::lemma_mul_strict_inequality(
                db + 9 * ((k * k) * da) + 18 * (ba * k) + 3, (db + 9 * ((k * k) * da) + 18 * (ba * k) + 3) + 1, one * one);
        }
        if d <= -(db + 9 * ((k * k) * da) + 18 * (ba * k) + 3) - 1 {
            vstd::arithmetic::mul::lemma_mul_inequality(d, -(db + 9 * ((k * k) * da) + 18 * (ba * k) + 3) - 1, one * one);
            vstd::arithmetic::mul::lemma_mul_is_commutative(d, one * one);
            vstd::arithmetic::mul::lemma_mul_strict_inequality(
                db + 9 * ((k * k) * da) + 18 * (ba * k) + 3, (db + 9 * ((k * k) * da) + 18 * (ba * k) + 3) + 1, one * one);
            assert((-(db + 9 * ((k * k) * da) + 18 * (ba * k) + 3) - 1) * (one * one) == -(((db + 9 * ((k * k) * da) + 18 * (ba * k) + 3) + 1) * (one * one))) by {
                vstd::arithmetic::mul::lemma_mul_unary_negation((db + 9 * ((k * k) * da) + 18 * (ba * k) + 3) + 1, one * one);
            }
        }
    }
    // Column pair (1, 2).
    lemma_truncated_gram_entry(
        a.m00 as int, a.m01 as int, a.m02 as int,
        a.m10 as int, a.m11 as int, a.m12 as int,
        a.m20 as int, a.m21 as int, a.m22 as int,
        b.m01 as int, b.m11 as int, b.m21 as int, b.m02 as int, b.m12 as int, b.m22 as int, ba, k * one);
    crate::math::lemma_mul_abs_bound(b.m01 as int, b.m02 as int, k * one, k * one);
    crate::math::lemma_mul_abs_bound(b.m11 as int, b.m12 as int, k * one, k * one);
    crate::math::lemma_mul_abs_bound(b.m21 as int, b.m22 as int, k * one, k * one);
    crate::math::lemma_mul_abs_bound(b.m01 as int, b.m12 as int, k * one, k * one);
    crate::math::lemma_mul_abs_bound(b.m11 as int, b.m02 as int, k * one, k * one);
    crate::math::lemma_mul_abs_bound(b.m01 as int, b.m22 as int, k * one, k * one);
    crate::math::lemma_mul_abs_bound(b.m21 as int, b.m02 as int, k * one, k * one);
    crate::math::lemma_mul_abs_bound(b.m11 as int, b.m22 as int, k * one, k * one);
    crate::math::lemma_mul_abs_bound(b.m21 as int, b.m12 as int, k * one, k * one);
    assert(g00 * (b.m01 * b.m02) == (one * one) * (b.m01 * b.m02) + (g00 - (one * one)) * (b.m01 * b.m02)) by {
        vstd::arithmetic::mul::lemma_mul_is_distributive_add_other_way(
            b.m01 * b.m02, one * one, g00 - (one * one));
    }
    crate::math::lemma_mul_abs_bound(g00 - (one * one), b.m01 * b.m02, da, 1 * ((k * one) * (k * one)));
    assert(g11 * (b.m11 * b.m12) == (one * one) * (b.m11 * b.m12) + (g11 - (one * one)) * (b.m11 * b.m12)) by {
        vstd::arithmetic::mul::lemma_mul_is_distributive_add_other_way(
            b.m11 * b.m12, one * one, g11 - (one * one));
    }
    crate::math::lemma_mul_abs_bound(g11 - (one * one), b.m11 * b.m12, da, 1 * ((k * one) * (k * one)));
    assert(g22 * (b.m21 * b.m22) == (one * one) * (b.m21 * b.m22) + (g22 - (one * one)) * (b.m21 * b.m22)) by {
        vstd::arithmetic::mul::lemma_mul_is_distributive_add_other_way(
            b.m21 * b.m22, one * one, g22 - (one * one));
    }
    crate::math::lemma_mul_abs_bound(g22 - (one * one), b.m21 * b.m22, da, 1 * ((k * one) * (k * one)));
    assert(g01 * (b.m01 * b.m12 + b.m11 * b.m02) == (0) * (b.m01 * b.m12 + b.m11 * b.m02) + (g01 - (0)) * (b.m01 * b.m12 + b.m11 * b.m02)) by {
        vstd::arithmetic::mul::lemma_mul_is_distributive_add_other_way(
            b.m01 * b.m12 + b.m11 * b.m02, 0, g01 - (0));
    }
    crate::math::lemma_mul_abs_bound(g01 - (0), b.m01 * b.m12 + b.m11 * b.m02, da, 2 * ((k * one) * (k * one)));
    assert(g02 * (b.m01 * b.m22 + b.m21 * b.m02) == (0) * (b.m01 * b.m22 + b.m21 * b.m02) + (g02 - (0)) * (b.m01 * b.m22 + b.m21 * b.m02)) by {
        vstd::arithmetic::mul::lemma_mul_is_distributive_add_other_way(
            b.m01 * b.m22 + b.m21 * b.m02, 0, g02 - (0));
    }
    crate::math::lemma_mul_abs_bound(g02 - (0), b.m01 * b.m22 + b.m21 * b.m02, da, 2 * ((k * one) * (k * one)));
    assert(g12 * (b.m11 * b.m22 + b.m21 * b.m12) == (0) * (b.m11 * b.m22 + b.m21 * b.m12) + (g12 - (0)) * (b.m11 * b.m22 + b.m21 * b.m12)) by {
        vstd::arithmetic::mul::lemma_mul_is_distributive_add_other_way(
            b.m11 * b.m22 + b.m21 * b.m12, 0, g12 - (0));
    }
    crate::math::lemma_mul_abs_bound(g12 - (0), b.m11 * b.m22 + b.m21 * b.m12, da, 2 * ((k * one) * (k * one)));
    assert((one * one) * (b.m01 * b.m02 + b.m11 * b.m12 + b.m21 * b.m22)
        == (one * one) * (b.m01 * b.m02) + (one * one) * (b.m11 * b.m12) + (one * one) * (b.m21 * b.m22)) by {
        vstd::arithmetic::mul::lemma_mul_is_distributive_add(
            one * one, b.m01 * b.m02 + b.m11 * b.m12, b.m21 * b.m22);
        vstd::arithmetic::mul::lemma_mul_is_distributive_add(
            one * one, b.m01 * b.m02, b.m11 * b.m12);
    }
    assert(0int * (b.m01 * b.m12 + b.m11 * b.m02) == 0 && 0int * (b.m01 * b.m22 + b.m21 * b.m02) == 0 && 0int * (b.m11 * b.m22 + b.m21 * b.m12) == 0) by {
        vstd::arithmetic::mul::lemma_mul_basics_1(b.m01 * b.m12 + b.m11 * b.m02);
        vstd::arithmetic::mul::lemma_mul_basics_1(b.m01 * b.m22 + b.m21 * b.m02);
        vstd::arithmetic::mul::lemma_mul_basics_1(b.m11 * b.m22 + b.m21 * b.m12);
    }
    assert((one * one) * (b.m01 * b.m02 + b.m11 * b.m12 + b.m21 * b.m22) - (one * one) * (0)
        == (one * one) * ((b.m01 * b.m02 + b.m11 * b.m12 + b.m21 * b.m22) - (0))) by {
        vstd::arithmetic::mul::lemma_mul_is_distributive_sub(
            one * one, b.m01 * b.m02 + b.m11 * b.m12 + b.m21 * b.m22, 0);
    }
    crate::math::lemma_mul_abs_bound((b.m01 * b.m02 + b.m11 * b.m12 + b.m21 * b.m22) - (0), one * one, db, one * one);
    vstd::arithmetic::mul::lemma_mul_is_commutative((b.m01 * b.m02 + b.m11 * b.m12 + b.m21 * b.m22) - (0), one * one);
    assert((m.m01 * m.m02 + m.m11 * m.m12 + m.m21 * m.m22) - (0) <= db + 9 * ((k * k) * da) + 18 * (ba * k) + 3
        && -(db + 9 * ((k * k) * da) + 18 * (ba * k) + 3) <= (m.m01 * m.m02 + m.m11 * m.m12 + m.m21 * m.m22) - (0)) by {
        let d = (m.m01 * m.m02 + m.m11 * m.m12 + m.m21 * m.m22) - (0);
        assert(one * one * d == one * one * (m.m01 * m.m02 + m.m11 * m.m12 + m.m21 * m.m22) - one * one * (0)) by {
            vstd::arithmetic::mul::lemma_mul_is_distributive_sub(
                one * one, m.m01 * m.m02 + m.m11 * m.m12 + m.m21 * m.m22, 0);
        }
        assert(18 * ((ba * (k * one)) * one) == 18 * ((ba * k) * (one * one))
            && da * (1 * ((k * one) * (k * one))) == ((k * k) * da) * (one * one)
            && da * (2 * ((k * one) * (k * one))) == 2 * (((k * k) * da) * (one * one))
            && (db + 9 * ((k * k) * da) + 18 * (ba * k) + 3) * (one * one)
                == db * (one * one) + 9 * (((k * k) * da) * (one * one))
                    + 18 * ((ba * k) * (one * one)) + 3 * (one * one))
            by (nonlinear_arith);
        vstd::arithmetic::mul::lemma_mul_strictly_positive(one, one);
        if d >= (db + 9 * ((k * k) * da) + 18 * (ba * k) + 3) + 1 {
            vstd::arithmetic::mul::lemma_mul_inequality((db + 9 * ((k * k) * da) + 18 * (ba * k) + 3) + 1, d, one * one);
            vstd::arithmetic::mul::lemma_mul_is_commutative(d, one * one);
            vstd::arithmetic::mul::lemma_mul_strict_inequality(
                db + 9 * ((k * k) * da) + 18 * (ba * k) + 3, (db + 9 * ((k * k) * da) + 18 * (ba * k) + 3) + 1, one * one);
        }
        if d <= -(db + 9 * ((k * k) * da) + 18 * (ba * k) + 3) - 1 {
            vstd::arithmetic::mul::lemma_mul_inequality(d, -(db + 9 * ((k * k) * da) + 18 * (ba * k) + 3) - 1, one * one);
            vstd::arithmetic::mul::lemma_mul_is_commutative(d, one * one);
            vstd::arithmetic::mul::lemma_mul_strict_inequality(
                db + 9 * ((k * k) * da) + 18 * (ba * k) + 3, (db + 9 * ((k * k) * da) + 18 * (ba * k) + 3) + 1, one * one);
            assert((-(db + 9 * ((k * k) * da) + 18 * (ba * k) + 3) - 1) * (one * one) == -(((db + 9 * ((k * k) * da) + 18 * (ba * k) + 3) + 1) * (one * one))) by {
                vstd::arithmetic::mul::lemma_mul_unary_negation((db + 9 * ((k * k) * da) + 18 * (ba * k) + 3) + 1, one * one);
            }
        }
    }
}

/// Entries of a product whose right factor spans `k` fixed-point units
/// are exact in their word.
proof fn lemma_product_entries_exact_scaled(a: Mat3, b: Mat3, ba: int, k: int)
    requires
        0 <= ba <= 1_000_000_000_000_000_000,
        1 <= k <= 1000,
        ba * k <= 1_000_000_000_000_000_000,
        entries_bounded(a, ba),
        entries_bounded(b, k * (crate::matrix::FP_ONE as int)),
    ensures
        entries_bounded(mat_mul_spec(a, b), 3 * (ba * k)),
        mat_mul_spec(a, b).m00 == crate::matrix::fp_scale(a.m00 * b.m00 + a.m01 * b.m10 + a.m02 * b.m20),
        mat_mul_spec(a, b).m01 == crate::matrix::fp_scale(a.m00 * b.m01 + a.m01 * b.m11 + a.m02 * b.m21),
        mat_mul_spec(a, b).m02 == crate::matrix::fp_scale(a.m00 * b.m02 + a.m01 * b.m12 + a.m02 * b.m22),
        mat_mul_spec(a, b).m10 == crate::matrix::fp_scale(a.m10 * b.m00 + a.m11 * b.m10 + a.m12 * b.m20),
        mat_mul_spec(a, b).m11 == crate::matrix::fp_scale(a.m10 * b.m01 + a.m11 * b.m11 + a.m12 * b.m21),
        mat_mul_spec(a, b).m12 == crate::matrix::fp_scale(a.m10 * b.m02 + a.m11 * b.m12 + a.m12 * b.m22),
        mat_mul_spec(a, b).m20 == crate::matrix::fp_scale(a.m20 * b.m00 + a.m21 * b.m10 + a.m22 * b.m20),
        mat_mul_spec(a, b).m21 == crate::matrix::fp_scale(a.m20 * b.m01 + a.m21 * b.m11 + a.m22 * b.m21),
        mat_mul_spec(a, b).m22 == crate::matrix::fp_scale(a.m20 * b.m02 + a.m21 * b.m12 + a.m22 * b.m22),
{
    let one = crate::matrix::FP_ONE as int;
    assert(3 * (ba * (k * one)) == (3 * (ba * k)) * one && 0 <= 3 * (ba * k))
        by (nonlinear_arith)
        requires
            0 <= ba && 1 <= k,
    ;
    vstd::arithmetic::div_mod::lemma_div_by_multiple(3 * (ba * k), one);
    crate::math::lemma_mul_abs_bound(a.m00 as int, b.m00 as int, ba, k * one);
    crate::math::lemma_mul_abs_bound(a.m01 as int, b.m10 as int, ba, k * one);
    crate::math::lemma_mul_abs_bound(a.m02 as int, b.m20 as int, ba, k * one);
    lemma_fp_scale_bound(a.m00 * b.m00 + a.m01 * b.m10 + a.m02 * b.m20, 3 * (ba * (k * one)));
    crate::math::lemma_mul_abs_bound(a.m00 as int, b.m01 as int, ba, k * one);
    crate::math::lemma_mul_abs_bound(a.m01 as int, b.m11 as int, ba, k * one);
    crate::math::lemma_mul_abs_bound(a.m02 as int, b.m21 as int, ba, k * one);
    lemma_fp_scale_bound(a.m00 * b.m01 + a.m01 * b.m11 + a.m02 * b.m21, 3 * (ba * (k * one)));
    crate::math::lemma_mul_abs_bound(a.m00 as int, b.m02 as int, ba, k * one);
    crate::math::lemma_mul_abs_bound(a.m01 as int, b.m12 as int, ba, k * one);
    crate::math::lemma_mul_abs_bound(a.m02 as int, b.m22 as int, ba, k * one);
    lemma_fp_scale_bound(a.m00 * b.m02 + a.m01 * b.m12 + a.m02 * b.m22, 3 * (ba * (k * one)));
    crate::math::lemma_mul_abs_bound(a.m10 as int, b.m00 as int, ba, k * one);
    crate::math::lemma_mul_abs_bound(a.m11 as int, b.m10 as int, ba, k * one);
    crate::math::lemma_mul_abs_bound(a.m12 as int, b.m20 as int, ba, k * one);
    lemma_fp_scale_bound(a.m10 * b.m00 + a.m11 * b.m10 + a.m12 * b.m20, 3 * (ba * (k * one)));
    crate::math::lemma_mul_abs_bound(a.m10 as int, b.m01 as int, ba, k * one);
    crate::math::lemma_mul_abs_bound(a.m11 as int, b.m11 as int, ba, k * one);
    crate::math::lemma_mul_abs_bound(a.m12 as int, b.m21 as int, ba, k * one);
    lemma_fp_scale_bound(a.m10 * b.m01 + a.m11 * b.m11 + a.m12 * b.m21, 3 * (ba * (k * one)));
    crate::math::lemma_mul_abs_bound(a.m10 as int, b.m02 as int, ba, k * one);
    crate::math::lemma_mul_abs_bound(a.m11 as int, b.m12 as int, ba, k * one);
    crate::math::lemma_mul_abs_bound(a.m12 as int, b.m22 as int, ba, k * one);
    lemma_fp_scale_bound(a.m10 * b.m02 + a.m11 * b.m12 + a.m12 * b.m22, 3 * (ba * (k * one)));
    crate::math::lemma_mul_abs_bound(a.m20 as int, b.m00 as int, ba, k * one);
    crate::math::lemma_mul_abs_bound(a.m21 as int, b.m10 as int, ba, k * one);
    crate::math::lemma_mul_abs_bound(a.m22 as int, b.m20 as int, ba, k * one);
    lemma_fp_scale_bound(a.m20 * b.m00 + a.m21 * b.m10 + a.m22 * b.m20, 3 * (ba * (k * one)));
    crate::math::lemma_mul_abs_bound(a.m20 as int, b.m01 as int, ba, k * one);
    crate::math::lemma_mul_abs_bound(a.m21 as int, b.m11 as int, ba, k * one);
    crate::math::lemma_mul_abs_bound(a.m22 as int, b.m21 as int, ba, k * one);
    lemma_fp_scale_bound(a.m20 * b.m01 + a.m21 * b.m11 + a.m22 * b.m21, 3 * (ba * (k * one)));
    crate::math::lemma_mul_abs_bound(a.m20 as int, b.m02 as int, ba, k * one);
    crate::math::lemma_mul_abs_bound(a.m21 as int, b.m12 as int, ba, k * one);
    crate::math::lemma_mul_abs_bound(a.m22 as int, b.m22 as int, ba, k * one);
    lemma_fp_scale_bound(a.m20 * b.m02 + a.m21 * b.m12 + a.m22 * b.m22, 3 * (ba * (k * one)));
}

/// With exactly unit angles and a near-orthonormal
/// celestial-to-intermediate matrix, the full GCRS-to-ITRS rotation has
/// orthonormal columns to within the given deviation plus the rounding of
/// its three compositions: about 2.4e-11 at squared fixed-point scale.
pub proof fn lemma_gcrs_matrix_orthonormal(
    rc2i: Mat3, era: RotAngle, xp: RotAngle, yp: RotAngle, sp: RotAngle, drc: int,
)
    requires
        crate::matrix::angle_wf(era),
        crate::matrix::angle_wf(xp),
        crate::matrix::angle_wf(yp),
        crate::matrix::angle_wf(sp),
        era.sin * era.sin + era.cos * era.cos
            == (crate::matrix::FP_ONE as int) * (crate::matrix::FP_ONE as int),
        xp.sin * xp.sin + xp.cos * xp.cos
            == (crate::matrix::FP_ONE as int) * (crate::matrix::FP_ONE as int),
        yp.sin * yp.sin + yp.cos * yp.cos
            == (crate::matrix::FP_ONE as int) * (crate::matrix::FP_ONE as int),
        sp.sin * sp.sin + sp.cos * sp.cos
            == (crate::matrix::FP_ONE as int) * (crate::matrix::FP_ONE as int),
        entries_bounded(rc2i, 2 * (crate::matrix::FP_ONE as int)),
        0 <= drc,
        gram_defect(rc2i) <= drc,
    ensures
        gram_defect(mat_mul_spec(
            crate::frames::pom_spec(xp, yp, sp),
            mat_mul_spec(crate::matrix::rz_spec(era), rc2i),
        )) <= drc + 24_336 * (crate::matrix::FP_ONE as int) + 1_950,
{
    let one = crate::matrix::FP_ONE as int;
    lemma_elementary_gram_exact(era);
    lemma_left_orthonormal_defect(crate::matrix::rz_spec(era), rc2i, 2 * one);
    lemma_product_entries_exact(crate::matrix::rz_spec(era), rc2i, 2 * one);
    lemma_pom_orthonormal(xp, yp, sp);
    let nxp = crate::matrix::neg_spec(xp);
    let nyp = crate::matrix::neg_spec(yp);
    assert(nxp.sin * nxp.sin + nxp.cos * nxp.cos == one * one
        && nyp.sin * nyp.sin + nyp.cos * nyp.cos == one * one) by (nonlinear_arith)
        requires
            nxp.sin == -xp.sin && nxp.cos == xp.cos && nyp.sin == -yp.sin
                && nyp.cos == yp.cos && xp.sin * xp.sin + xp.cos * xp.cos == one * one
                && yp.sin * yp.sin + yp.cos * yp.cos == one * one,
    ;
    lemma_elementary_gram_exact(nxp);
    lemma_elementary_gram_exact(nyp);
    let ry = crate::matrix::ry_spec(nxp);
    let rzs = crate::matrix::rz_spec(sp);
    let rx = crate::matrix::rx_spec(nyp);
    let inner = mat_mul_spec(ry, rzs);
    lemma_product_entries_exact(ry, rzs, one);
    lemma_product_entries_exact(rx, inner, 3 * one);
    let pom = crate::frames::pom_spec(xp, yp, sp);
    let inner2 = mat_mul_spec(crate::matrix::rz_spec(era), rc2i);
    lemma_mul_gram_defect(
        pom, inner2, 72 * one + 6, drc + 36 * one + 3, 9 * one, 6);
    assert(9 * ((6 * 6) * (72 * one + 6)) == 23_328 * one + 1_944
        && 18 * ((9 * one) * 6) == 972 * one) by (nonlinear_arith);
}

} // verus!



