//! Small arithmetic lemmas shared by the instant, time-scale and matrix
//! modules: range bounds for products and Euclidean division facts.

use vstd::prelude::*;

verus! {

/// A value in `[lo, hi]` scaled by a non-negative factor stays within the
/// scaled range.
pub proof fn lemma_mul_range(x: int, lo: int, hi: int, m: int)
    requires
        lo <= x <= hi,
        m >= 0,
    ensures
        lo * m <= x * m <= hi * m,
{
    vstd::arithmetic::mul::lemma_mul_inequality(lo, x, m);
    vstd::arithmetic::mul::lemma_mul_inequality(x, hi, m);
}

/// A product of two magnitude-bounded values is magnitude-bounded by the
/// product of the bounds.
pub proof fn lemma_mul_abs_bound(x: int, y: int, bx: int, by: int)
    requires
        -bx <= x <= bx,
        -by <= y <= by,
    ensures
        -(bx * by) <= x * y <= bx * by,
{
    if y >= 0 {
        lemma_mul_range(x, -bx, bx, y);
        vstd::arithmetic::mul::lemma_mul_inequality(y, by, bx);
        vstd::arithmetic::mul::lemma_mul_is_commutative(x, y);
        vstd::arithmetic::mul::lemma_mul_is_commutative(bx, y);
        vstd::arithmetic::mul::lemma_mul_unary_negation(bx, y);
    } else {
        lemma_mul_range(x, -bx, bx, -y);
        vstd::arithmetic::mul::lemma_mul_inequality(-y, by, bx);
        vstd::arithmetic::mul::lemma_mul_is_commutative(x, -y);
        vstd::arithmetic::mul::lemma_mul_is_commutative(bx, -y);
        vstd::arithmetic::mul::lemma_mul_unary_negation(bx, -y);
        vstd::arithmetic::mul::lemma_mul_unary_negation(x, y);
    }
}

/// Quotient and remainder of a non-negative Euclidean division, with an upper
/// bound for the quotient drawn from an upper bound for the dividend.
pub proof fn lemma_div_bounds(a: int, d: int, bound: int)
    requires
        0 <= a <= bound,
        d > 0,
    ensures
        a == d * (a / d) + a % d,
        0 <= a % d < d,
        0 <= a / d <= bound / d,
{
    vstd::arithmetic::div_mod::lemma_fundamental_div_mod(a, d);
    vstd::arithmetic::div_mod::lemma_div_pos_is_pos(a, d);
    vstd::arithmetic::div_mod::lemma_div_is_ordered(a, bound, d);
    vstd::arithmetic::div_mod::lemma_mod_bound(a, d);
}

} // verus!
