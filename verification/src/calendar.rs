//! Calendar support: Gregorian calendar date to Modified Julian Date and
//! back, plus time-of-day splitting, all over exact integer arithmetic.
//!
//! The day-number formula works in a March-based year shifted to stay
//! non-negative, so executable and specification division agree. The
//! inverse direction searches for the year within the 400-year era and
//! proves that the reconstructed date maps back to the input day number.

use vstd::prelude::*;
use crate::math::{lemma_mul_range, lemma_div_bounds};
use crate::instant::{Instant, DAY_PS, SECOND_PS, representable_ps};
use crate::scales::{UTC, conv_range};

verus! {

/// Least Modified Julian Date with a calendar date this module accepts
/// (1 January -4799).
pub const MJD_MIN: i64 = -2_431_739;

/// Greatest Modified Julian Date with a calendar date this module accepts
/// (31 December 2000000).
pub const MJD_MAX: i64 = 729_806_424;

/// Gregorian leap-year rule.
pub open spec fn is_leap_year(y: int) -> bool {
    y % 4 == 0 && (y % 100 != 0 || y % 400 == 0)
}

/// Length of a calendar month.
pub open spec fn days_in_month(y: int, m: int) -> int {
    if m == 2 {
        if is_leap_year(y) {
            29
        } else {
            28
        }
    } else if m == 4 || m == 6 || m == 9 || m == 11 {
        30
    } else {
        31
    }
}

/// A calendar date this module accepts: within the supported year span and
/// with day and month in range.
pub open spec fn valid_date(y: int, m: int, d: int) -> bool {
    &&& -4799 <= y <= 2_000_000
    &&& 1 <= m <= 12
    &&& 1 <= d <= days_in_month(y, m)
}

/// The Modified Julian Date of a calendar date, via the era decomposition
/// of the Gregorian calendar over a March-based year. Meaningful for valid
/// dates.
pub open spec fn mjd_from_civil(y: int, m: int, d: int) -> int {
    let yy = if m <= 2 {
        y - 1
    } else {
        y
    };
    let ys = yy + 4800;
    let era = ys / 400;
    let yoe = ys % 400;
    let mp = if m > 2 {
        m - 3
    } else {
        m + 9
    };
    let doy = (153 * mp + 2) / 5 + d - 1;
    let doe = yoe * 365 + yoe / 4 - yoe / 100 + doy;
    era * 146097 + doe - 2432045
}

/// Whether the shifted year `ys` (the calendar year plus 4800, already
/// decremented for January and February) is a leap year.
pub open spec fn shifted_leap(ys: int) -> bool {
    ys % 4 == 0 && (ys % 100 != 0 || ys % 400 == 0)
}

/// The shifted-year and plain-year leap rules agree: 4800 is a multiple of
/// 400.
pub proof fn lemma_shifted_leap(y: int)
    ensures
        shifted_leap(y + 4800) == is_leap_year(y),
{
    lemma_mod_shift_many(y, 4, 1200);
    lemma_mod_shift_many(y, 100, 48);
    lemma_mod_shift_many(y, 400, 12);
}

/// Adding `k` multiples of `m` leaves a remainder unchanged.
pub proof fn lemma_mod_shift_many(x: int, m: int, k: int)
    requires
        m > 0,
        k >= 0,
    ensures
        (x + m * k) % m == x % m,
    decreases k,
{
    if k > 0 {
        lemma_mod_shift_many(x, m, k - 1);
        vstd::arithmetic::div_mod::lemma_mod_add_multiples_vanish(x + m * (k - 1), m);
        assert(x + m * k == (x + m * (k - 1)) + m) by {
            vstd::arithmetic::mul::lemma_mul_is_distributive_add(m, k - 1, 1);
        }
    } else {
        assert(m * 0 == 0) by {
            vstd::arithmetic::mul::lemma_mul_by_zero_is_zero(m);
        }
    }
}

/// Whether a year is a Gregorian leap year.
pub fn leap_year(y: i32) -> (r: bool)
    requires
        -4799 <= y,
    ensures
        r == is_leap_year(y as int),
{
    let ys: u64 = (y as i64 + 4800) as u64;
    proof {
        lemma_shifted_leap(y as int);
        vstd::arithmetic::div_mod::lemma_mod_bound(ys as int, 4);
        vstd::arithmetic::div_mod::lemma_mod_bound(ys as int, 100);
        vstd::arithmetic::div_mod::lemma_mod_bound(ys as int, 400);
    }
    ys % 4 == 0 && (ys % 100 != 0 || ys % 400 == 0)
}

/// Length of a month in the Gregorian calendar.
pub fn month_length(y: i32, m: i32) -> (r: i32)
    requires
        -4799 <= y,
        1 <= m <= 12,
    ensures
        r == days_in_month(y as int, m as int),
{
    if m == 2 {
        if leap_year(y) {
            29
        } else {
            28
        }
    } else if m == 4 || m == 6 || m == 9 || m == 11 {
        30
    } else {
        31
    }
}

/// Calendar date to Modified Julian Date. Rejects exactly the dates
/// outside `valid_date`.
pub fn cal2jd(y: i32, m: i32, d: i32) -> (r: Option<i64>)
    ensures
        match r {
            Some(mjd) => valid_date(y as int, m as int, d as int)
                && mjd == mjd_from_civil(y as int, m as int, d as int)
                && MJD_MIN <= mjd <= MJD_MAX,
            None => !valid_date(y as int, m as int, d as int),
        },
{
    if y < -4799 || y > 2_000_000 || m < 1 || m > 12 {
        return None;
    }
    if d < 1 || d > month_length(y, m) {
        return None;
    }
    let yy: i64 = if m <= 2 {
        y as i64 - 1
    } else {
        y as i64
    };
    let ys: u64 = (yy + 4800) as u64;
    let era: u64 = ys / 400;
    let yoe: u64 = ys % 400;
    proof {
        lemma_div_bounds(ys as int, 400, 2_004_800);
        vstd::arithmetic::div_mod::lemma_mod_bound(ys as int, 400);
        lemma_div_bounds(yoe as int, 4, 399);
        lemma_div_bounds(yoe as int, 100, 399);
    }
    let mp: u64 = if m > 2 {
        (m - 3) as u64
    } else {
        (m + 9) as u64
    };
    let mdays: u64 = (153 * mp + 2) / 5;
    proof {
        lemma_div_bounds(153 * (mp as int) + 2, 5, 1685);
    }
    let doy: u64 = mdays + (d as u64) - 1;
    let doe: u64 = yoe * 365 + yoe / 4 - yoe / 100 + doy;
    let mjd: i64 = (era as i64) * 146097 + (doe as i64) - 2432045;
    Some(mjd)
}

/// Days of the era before the March-based year `yoe` of the era.
pub open spec fn days_before_year(yoe: int) -> int {
    yoe * 365 + yoe / 4 - yoe / 100
}

/// Executable form of `days_before_year`.
fn days_before_year_exec(yoe: u64) -> (r: u64)
    requires
        yoe <= 400,
    ensures
        r == days_before_year(yoe as int),
        r <= 146096,
{
    proof {
        lemma_div_bounds(yoe as int, 4, 400);
        lemma_div_bounds(yoe as int, 100, 400);
    }
    yoe * 365 + yoe / 4 - yoe / 100
}

/// Stepping the year boundary: the days between consecutive year starts
/// are 365, plus one exactly when the later year (in shifted reckoning) is
/// divisible by four but not by one hundred.
proof fn lemma_year_step(n: int)
    requires
        1 <= n <= 399,
    ensures
        days_before_year(n) - days_before_year(n - 1) == 365 + (if n % 4 == 0 && n % 100 != 0 {
            1int
        } else {
            0int
        }),
{
    lemma_div_step(n, 4);
    lemma_div_step(n, 100);
    vstd::arithmetic::mul::lemma_mul_is_distributive_sub_other_way(365, n, n - 1);
}

/// Modified Julian Date to calendar date: a valid date that maps back to
/// the given day number under `mjd_from_civil`. Rejects exactly the days
/// outside the supported span.
pub fn jd2cal(mjd: i64) -> (r: Option<(i32, i32, i32)>)
    ensures
        match r {
            Some(c) => valid_date(c.0 as int, c.1 as int, c.2 as int)
                && mjd_from_civil(c.0 as int, c.1 as int, c.2 as int) == mjd,
            None => !(MJD_MIN <= mjd <= MJD_MAX),
        },
{
    if mjd < MJD_MIN || mjd > MJD_MAX {
        return None;
    }
    let z: u64 = (mjd + 2_432_045) as u64;
    let era: u64 = z / 146097;
    let doe: u64 = z % 146097;
    proof {
        lemma_div_bounds(z as int, 146097, 732_238_469);
        vstd::arithmetic::div_mod::lemma_mod_bound(z as int, 146097);
        vstd::arithmetic::div_mod::lemma_fundamental_div_mod(z as int, 146097);
        vstd::arithmetic::mul::lemma_mul_is_commutative(146097, era as int);
        assert(732_238_469int / 146097 == 5012) by (nonlinear_arith);
    }
    let mut yoe: u64 = 0;
    while yoe < 399 && days_before_year_exec(yoe + 1) <= doe
        invariant
            0 <= yoe <= 399,
            doe < 146097,
            days_before_year(yoe as int) <= doe,
        decreases 399 - yoe,
    {
        yoe = yoe + 1;
    }
    let dby = days_before_year_exec(yoe);
    let doy: u64 = doe - dby;
    proof {
        // Bound the day of the year by the length of the found year.
        if yoe < 399 {
            lemma_year_step(yoe as int + 1);
        }
        assert(days_before_year(399) == 145731) by (nonlinear_arith);
        lemma_div_bounds(yoe as int, 4, 399);
        lemma_div_bounds(yoe as int, 100, 399);
    }
    let base: i64 = (era as i64) * 400 + (yoe as i64) - 4800;
    proof {
        // The supported range keeps the reconstructed year within bounds.
        if era == 5012 {
            assert(days_before_year(1) == 365) by (nonlinear_arith);
            if yoe >= 1 {
                lemma_mul_range(yoe as int, 1, 399, 365);
            }
        }
        // Ground values of the cumulative month offsets.
        assert((153int * 0 + 2) / 5 == 0 && (153int * 1 + 2) / 5 == 31
            && (153int * 2 + 2) / 5 == 61 && (153int * 3 + 2) / 5 == 92
            && (153int * 4 + 2) / 5 == 122 && (153int * 5 + 2) / 5 == 153
            && (153int * 6 + 2) / 5 == 184 && (153int * 7 + 2) / 5 == 214
            && (153int * 8 + 2) / 5 == 245 && (153int * 9 + 2) / 5 == 275
            && (153int * 10 + 2) / 5 == 306 && (153int * 11 + 2) / 5 == 337)
            by (nonlinear_arith);
        // Reconstructing the shifted year recovers era and year of era.
        vstd::arithmetic::div_mod::lemma_fundamental_div_mod_converse(
            (era as int) * 400 + yoe, 400, era as int, yoe as int);
    }
    let (m, d_off, carry): (i32, u64, i64) = if doy < 31 {
        (3, 0, 0)
    } else if doy < 61 {
        (4, 31, 0)
    } else if doy < 92 {
        (5, 61, 0)
    } else if doy < 122 {
        (6, 92, 0)
    } else if doy < 153 {
        (7, 122, 0)
    } else if doy < 184 {
        (8, 153, 0)
    } else if doy < 214 {
        (9, 184, 0)
    } else if doy < 245 {
        (10, 214, 0)
    } else if doy < 275 {
        (11, 245, 0)
    } else if doy < 306 {
        (12, 275, 0)
    } else if doy < 337 {
        (1, 306, 1)
    } else {
        (2, 337, 1)
    };
    let d: u64 = doy - d_off + 1;
    let y: i64 = base + carry;
    proof {
        // Leap-year accounting for the February branch.
        if m == 2 {
            let n = yoe as int + 1;
            lemma_mod_shift_many(n, 4, (era as int) * 100);
            vstd::arithmetic::mul::lemma_mul_is_associative(4, era as int, 100);
            lemma_mod_shift_many(n, 100, (era as int) * 4);
            vstd::arithmetic::mul::lemma_mul_is_associative(100, era as int, 4);
            lemma_mod_shift_many(n, 400, era as int);
            if yoe < 399 {
                vstd::arithmetic::div_mod::lemma_small_mod(n as nat, 400);
            } else {
                assert((y + 4800) % 400 == 0 && (y + 4800) % 4 == 0) by {
                    assert(y + 4800 == 400 * (era as int + 1));
                    vstd::arithmetic::div_mod::lemma_mod_multiples_basic(
                        era as int + 1, 400);
                    lemma_mod_shift_many(0, 4, 100 * (era as int + 1));
                    vstd::arithmetic::mul::lemma_mul_is_associative(
                        4, 100, era as int + 1);
                }
            }
            lemma_shifted_leap(y as int);
        }
    }
    Some((y as i32, m, d as i32))
}

/// A clock reading with every field in range.
pub open spec fn valid_hms(h: int, m: int, s: int) -> bool {
    &&& 0 <= h < 24
    &&& 0 <= m < 60
    &&& 0 <= s < 60
}

/// Clock reading to picoseconds of day. `None` exactly when a field is out
/// of range.
pub fn day_ps_from_hms(h: i32, m: i32, s: i32, sub_ps: i64) -> (r: Option<i64>)
    requires
        0 <= sub_ps < SECOND_PS,
    ensures
        match r {
            Some(ps) => valid_hms(h as int, m as int, s as int)
                && ps == (h * 3600 + m * 60 + s) * SECOND_PS + sub_ps
                && 0 <= ps < DAY_PS,
            None => !valid_hms(h as int, m as int, s as int),
        },
{
    if h < 0 || h > 23 || m < 0 || m > 59 || s < 0 || s > 59 {
        return None;
    }
    let secs: i64 = (h as i64) * 3600 + (m as i64) * 60 + (s as i64);
    proof {
        lemma_mul_range(secs as int, 0, 86399, SECOND_PS as int);
    }
    Some(secs * SECOND_PS + sub_ps)
}

/// The day fraction rounded half-up to whole milliseconds.
pub open spec fn rounded_ms(ps: int) -> int {
    (ps + 500_000_000) / 1_000_000_000
}

/// Splits picoseconds of day into hours, minutes, seconds and milliseconds,
/// rounding half-up to the millisecond. A value within the last half
/// millisecond of the day rounds up to 24:00:00.000, as the clock rendering
/// convention has it.
pub fn hmsf_from_day_ps(ps: i64) -> (r: (i32, i32, i32, i32))
    requires
        0 <= ps < DAY_PS,
    ensures
        r.0 == rounded_ms(ps as int) / 3600000,
        r.1 == rounded_ms(ps as int) / 60000 % 60,
        r.2 == rounded_ms(ps as int) / 1000 % 60,
        r.3 == rounded_ms(ps as int) % 1000,
        0 <= r.0 <= 24,
        0 <= r.1 < 60,
        0 <= r.2 < 60,
        0 <= r.3 < 1000,
{
    let total: u64 = ((ps as u64) + 500_000_000) / 1_000_000_000;
    proof {
        lemma_div_bounds(ps as int + 500_000_000, 1_000_000_000, DAY_PS as int + 499_999_999);
        assert((DAY_PS as int + 499_999_999) / 1_000_000_000 == 86_400_000)
            by (nonlinear_arith);
        lemma_div_bounds(total as int, 3600000, 86_400_000);
        lemma_div_bounds(total as int, 60000, 86_400_000);
        lemma_div_bounds(total as int, 1000, 86_400_000);
        vstd::arithmetic::div_mod::lemma_mod_bound(total as int / 60000, 60);
        vstd::arithmetic::div_mod::lemma_mod_bound(total as int / 1000, 60);
        vstd::arithmetic::div_mod::lemma_mod_bound(total as int, 1000);
    }
    let h: u64 = total / 3600000;
    let m: u64 = total / 60000 % 60;
    let s: u64 = total / 1000 % 60;
    let f: u64 = total % 1000;
    (h as i32, m as i32, s as i32, f as i32)
}

/// `n / k` exceeds `(n - 1) / k` exactly when `k` divides `n`.
proof fn lemma_div_step(n: int, k: int)
    requires
        n >= 1,
        k >= 1,
    ensures
        n / k - (n - 1) / k == (if n % k == 0 {
            1int
        } else {
            0int
        }),
{
    vstd::arithmetic::div_mod::lemma_fundamental_div_mod(n, k);
    vstd::arithmetic::div_mod::lemma_mod_bound(n, k);
    let q = n / k;
    let r = n % k;
    vstd::arithmetic::mul::lemma_mul_is_commutative(k, q);
    if r == 0 {
        assert(n - 1 == (q - 1) * k + (k - 1)) by {
            vstd::arithmetic::mul::lemma_mul_is_distributive_sub_other_way(k, q, 1);
        }
        vstd::arithmetic::div_mod::lemma_fundamental_div_mod_converse(
            n - 1, k, q - 1, k - 1);
    } else {
        vstd::arithmetic::div_mod::lemma_fundamental_div_mod_converse(
            n - 1, k, q, r - 1);
    }
}

/// Modified Julian Date day number of the Unix epoch, 1970-01-01.
pub const UNIX_EPOCH_MJD: i64 = 40587;

impl UTC {
    /// A UTC instant from a calendar date and a day fraction in
    /// picoseconds. `None` exactly when the date is invalid.
    pub fn from_ymdf(y: i32, m: i32, d: i32, f_ps: i64) -> (r: Option<UTC>)
        requires
            0 <= f_ps < DAY_PS,
        ensures
            match r {
                Some(u) => {
                    &&& valid_date(y as int, m as int, d as int)
                    &&& u.0.day == mjd_from_civil(y as int, m as int, d as int)
                    &&& u.0.ps == f_ps
                    &&& conv_range(u.0)
                },
                None => !valid_date(y as int, m as int, d as int),
            },
    {
        let mjd = match cal2jd(y, m, d) {
            Some(mjd) => mjd,
            None => {
                return None;
            },
        };
        Some(UTC(Instant { day: mjd, ps: f_ps }))
    }

    /// A UTC instant from calendar date and clock fields, with a
    /// sub-second part in picoseconds. `None` exactly when the date or the
    /// clock reading is invalid.
    pub fn from_ymdhms(y: i32, mo: i32, d: i32, h: i32, mi: i32, s: i32, sub_ps: i64) -> (r:
        Option<UTC>)
        requires
            0 <= sub_ps < SECOND_PS,
        ensures
            match r {
                Some(u) => {
                    &&& valid_date(y as int, mo as int, d as int)
                    &&& valid_hms(h as int, mi as int, s as int)
                    &&& u.0.day == mjd_from_civil(y as int, mo as int, d as int)
                    &&& u.0.ps == (h * 3600 + mi * 60 + s) * SECOND_PS + sub_ps
                    &&& conv_range(u.0)
                },
                None => !valid_date(y as int, mo as int, d as int)
                    || !valid_hms(h as int, mi as int, s as int),
            },
    {
        let f_ps = match day_ps_from_hms(h, mi, s, sub_ps) {
            Some(f) => f,
            None => {
                return None;
            },
        };
        Self::from_ymdf(y, mo, d, f_ps)
    }

    /// A UTC instant from a count of seconds and nanoseconds relative to
    /// the Unix epoch; negative seconds reach before the epoch.
    pub fn from_unix(secs: i64, nanos: u32) -> (r: Option<UTC>)
        requires
            nanos < 1_000_000_000,
        ensures
            match r {
                Some(u) => u.0.wf() && u.0.total_ps() == UNIX_EPOCH_MJD * DAY_PS
                    + secs * SECOND_PS + nanos * 1000,
                None => !representable_ps(
                    UNIX_EPOCH_MJD * DAY_PS + secs * SECOND_PS + nanos * 1000),
            },
    {
        proof {
            lemma_mul_range(secs as int, i64::MIN as int, i64::MAX as int, SECOND_PS as int);
            assert((UNIX_EPOCH_MJD as int) * (DAY_PS as int)
                == 3_506_716_800_000_000_000_000int) by (nonlinear_arith);
        }
        let total: i128 = 3_506_716_800_000_000_000_000
            + (secs as i128) * (SECOND_PS as i128) + (nanos as i128) * 1000;
        match crate::instant::instant_from_total(total) {
            Some(i) => Some(UTC(i)),
            None => None,
        }
    }
}

} // verus!
