//! The two-part instant: a Modified Julian Date held as a whole day number
//! and a count of picoseconds within that day.
//!
//! Splitting the day count from the fraction keeps sub-day precision exact:
//! the pair is never collapsed into a single value, and every arithmetic
//! operation states its effect on the mathematical total.

use vstd::prelude::*;
use crate::math::{lemma_mul_range, lemma_div_bounds};

verus! {

/// Picoseconds in one day of 86400 seconds.
pub const DAY_PS: i64 = 86_400_000_000_000_000;

/// Picoseconds in one second.
pub const SECOND_PS: i64 = 1_000_000_000_000;

/// Largest whole-day magnitude an `Instant` may carry. Wide enough for the
/// whole calendar range accepted by `cal2jd`, with room for the coordinate
/// time scales' linear terms to stay within `i128` products.
pub const MAX_ABS_DAY: i64 = 1_000_000_000;

/// `-MAX_ABS_DAY * DAY_PS`: the least representable total.
pub const MIN_TOTAL_PS: i128 = -86_400_000_000_000_000_000_000_000;

/// `(MAX_ABS_DAY + 1) * DAY_PS`: one past the greatest representable total.
pub const END_TOTAL_PS: i128 = 86_400_000_086_400_000_000_000_000;

/// An instant: `day` is a Modified Julian Date day number and `ps` the
/// picoseconds elapsed since the start of that day.
#[derive(Debug, Clone, Copy, PartialEq, Eq, Structural)]
pub struct Instant {
    pub day: i64,
    pub ps: i64,
}

impl Instant {
    /// Well-formedness: the fraction lies within one day and the day number
    /// within the supported range.
    pub open spec fn wf(self) -> bool {
        &&& -MAX_ABS_DAY <= self.day <= MAX_ABS_DAY
        &&& 0 <= self.ps < DAY_PS
    }

    /// The instant as a single mathematical count of picoseconds since the
    /// Modified Julian Date epoch.
    pub open spec fn total_ps(self) -> int {
        self.day * (DAY_PS as int) + self.ps
    }
}

/// Whether a mathematical picosecond count is representable as a well-formed
/// `Instant`.
pub open spec fn representable_ps(t: int) -> bool {
    MIN_TOTAL_PS <= t < END_TOTAL_PS
}

/// The total of a well-formed instant is representable.
pub proof fn lemma_wf_total_representable(i: Instant)
    requires
        i.wf(),
    ensures
        representable_ps(i.total_ps()),
{
    lemma_mul_range(i.day as int, -(MAX_ABS_DAY as int), MAX_ABS_DAY as int, DAY_PS as int);
    assert((MAX_ABS_DAY as int) * (DAY_PS as int) == -MIN_TOTAL_PS) by (nonlinear_arith);
    assert(-(MAX_ABS_DAY as int) * (DAY_PS as int) == (MAX_ABS_DAY as int) * -(DAY_PS as int))
        by (nonlinear_arith);
}

/// Builds the well-formed instant holding exactly `total` picoseconds.
pub fn instant_from_total(total: i128) -> (r: Option<Instant>)
    ensures
        match r {
            Some(i) => i.wf() && i.total_ps() == total,
            None => !representable_ps(total as int),
        },
{
    if total < MIN_TOTAL_PS || total >= END_TOTAL_PS {
        return None;
    }
    // Shift to a non-negative range so division is Euclidean in both
    // executable and specification arithmetic.
    let shifted: i128 = total - MIN_TOTAL_PS;
    let q: u128 = (shifted as u128) / (DAY_PS as u128);
    let rem: u128 = (shifted as u128) % (DAY_PS as u128);
    proof {
        lemma_div_bounds(shifted as int, DAY_PS as int, END_TOTAL_PS - MIN_TOTAL_PS - 1);
        assert((END_TOTAL_PS - MIN_TOTAL_PS - 1) / (DAY_PS as int) == 2 * MAX_ABS_DAY)
            by (nonlinear_arith);
    }
    let day: i64 = (q as i64) - MAX_ABS_DAY;
    let ps: i64 = rem as i64;
    proof {
        // total == day * DAY_PS + ps, by expanding the shift and the division.
        assert((q - MAX_ABS_DAY) * (DAY_PS as int)
            == (DAY_PS as int) * (q as int) + MIN_TOTAL_PS) by (nonlinear_arith);
    }
    Some(Instant { day, ps })
}

/// Builds the well-formed instant holding exactly the total
/// `day * DAY_PS + ps`, carrying any overflowing or negative fraction into
/// the day number.
pub fn instant_from_day_ps(day: i64, ps: i64) -> (r: Option<Instant>)
    ensures
        match r {
            Some(i) => i.wf() && i.total_ps() == day * DAY_PS + ps,
            None => !representable_ps(day * DAY_PS + ps),
        },
{
    proof {
        lemma_mul_range(day as int, i64::MIN as int, i64::MAX as int, DAY_PS as int);
    }
    let total: i128 = (day as i128) * (DAY_PS as i128) + (ps as i128);
    instant_from_total(total)
}

impl Instant {
    /// Adds a (possibly negative) picosecond offset exactly.
    pub fn add_ps(self, delta: i64) -> (r: Option<Instant>)
        requires
            self.wf(),
        ensures
            match r {
                Some(i) => i.wf() && i.total_ps() == self.total_ps() + delta,
                None => !representable_ps(self.total_ps() + delta),
            },
    {
        proof {
            lemma_mul_range(self.day as int, i64::MIN as int, i64::MAX as int, DAY_PS as int);
        }
        let total: i128 = (self.day as i128) * (DAY_PS as i128) + (self.ps as i128)
            + (delta as i128);
        instant_from_total(total)
    }

    /// Adds a (possibly negative) number of whole seconds exactly.
    pub fn add_seconds(self, secs: i64) -> (r: Option<Instant>)
        requires
            self.wf(),
        ensures
            match r {
                Some(i) => i.wf() && i.total_ps() == self.total_ps() + secs * SECOND_PS,
                None => !representable_ps(self.total_ps() + secs * SECOND_PS),
            },
    {
        proof {
            lemma_mul_range(self.day as int, i64::MIN as int, i64::MAX as int, DAY_PS as int);
            lemma_mul_range(secs as int, i64::MIN as int, i64::MAX as int, SECOND_PS as int);
        }
        let total: i128 = (self.day as i128) * (DAY_PS as i128) + (self.ps as i128)
            + (secs as i128) * (SECOND_PS as i128);
        instant_from_total(total)
    }

    /// The exact difference `self - other` as whole seconds plus a
    /// non-negative picosecond remainder below one second.
    pub fn difference_seconds(self, other: Instant) -> (r: (i64, i64))
        requires
            self.wf(),
            other.wf(),
        ensures
            r.0 * SECOND_PS + r.1 == self.total_ps() - other.total_ps(),
            0 <= r.1 < SECOND_PS,
    {
        proof {
            lemma_mul_range(
                self.day as int, -(MAX_ABS_DAY as int), MAX_ABS_DAY as int, DAY_PS as int);
            lemma_mul_range(
                other.day as int, -(MAX_ABS_DAY as int), MAX_ABS_DAY as int, DAY_PS as int);
            assert((MAX_ABS_DAY as int) * (DAY_PS as int)
                == 86_400_000_000_000_000_000_000_000int) by (nonlinear_arith);
            assert(-(MAX_ABS_DAY as int) * (DAY_PS as int)
                == (MAX_ABS_DAY as int) * -(DAY_PS as int)) by (nonlinear_arith);
        }
        let diff: i128 = (self.day as i128) * (DAY_PS as i128) + (self.ps as i128)
            - (other.day as i128) * (DAY_PS as i128) - (other.ps as i128);
        // Shift into non-negative territory before dividing. The shift is
        // 2 * MAX_ABS_DAY + 1 days, expressed in whole seconds.
        let shift_secs: i128 = 172_800_000_086_400;
        let shifted: i128 = diff + shift_secs * (SECOND_PS as i128);
        proof {
            assert(172_800_000_086_400int * (SECOND_PS as int)
                == 172_800_000_086_400_000_000_000_000int) by (nonlinear_arith);
            lemma_div_bounds(
                shifted as int,
                SECOND_PS as int,
                345_600_000_172_799_999_999_999_999int,
            );
            assert(345_600_000_172_799_999_999_999_999int / (SECOND_PS as int)
                == 345_600_000_172_799int) by (nonlinear_arith);
        }
        let q: u128 = (shifted as u128) / (SECOND_PS as u128);
        let rem: u128 = (shifted as u128) % (SECOND_PS as u128);
        let secs: i64 = ((q as i128) - shift_secs) as i64;
        proof {
            vstd::arithmetic::mul::lemma_mul_is_distributive_sub_other_way(
                SECOND_PS as int, q as int, 172_800_000_086_400int);
        }
        (secs, rem as i64)
    }
}

} // verus!
