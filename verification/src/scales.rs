//! The time-scale graph: one typed wrapper per scale and the exact
//! conversions between adjacent scales.
//!
//! Every conversion states its effect as an equation over the instants'
//! mathematical picosecond totals. Measured corrections (leap-second offset,
//! DUT1, delta-T, the TDB periodic term) are always explicit parameters;
//! nothing is cached or inferred. Conversions touching the leap-second
//! table fail with `UnacceptableDate` exactly on days the table does not
//! cover.

use vstd::prelude::*;
use crate::TimeError;
use crate::instant::{Instant, DAY_PS, SECOND_PS, MAX_ABS_DAY, representable_ps};
use crate::leapsec::{in_leap_table, dat_seconds, dat, LEAP_TABLE_START_MJD};
use crate::math::{lemma_mul_range, lemma_div_bounds};

verus! {

/// TT minus TAI: a fixed 32.184 s.
pub const TT_MINUS_TAI_PS: i64 = 32_184_000_000_000;

/// Coordinated Universal Time.
#[derive(Debug, Clone, Copy, PartialEq, Eq, Structural)]
pub struct UTC(pub Instant);

/// International Atomic Time.
#[derive(Debug, Clone, Copy, PartialEq, Eq, Structural)]
pub struct TAI(pub Instant);

/// Terrestrial Time.
#[derive(Debug, Clone, Copy, PartialEq, Eq, Structural)]
pub struct TT(pub Instant);

/// Universal Time (Earth-rotation based).
#[derive(Debug, Clone, Copy, PartialEq, Eq, Structural)]
pub struct UT1(pub Instant);

/// Geocentric Coordinate Time.
#[derive(Debug, Clone, Copy, PartialEq, Eq, Structural)]
pub struct TCG(pub Instant);

/// Barycentric Coordinate Time.
#[derive(Debug, Clone, Copy, PartialEq, Eq, Structural)]
pub struct TCB(pub Instant);

/// Barycentric Dynamical Time.
#[derive(Debug, Clone, Copy, PartialEq, Eq, Structural)]
pub struct TDB(pub Instant);

/// Instants whose day number keeps a margin of 121 days inside the
/// representable range, so that any conversion offset expressible in an
/// `i64` picosecond count stays representable.
pub open spec fn conv_range(i: Instant) -> bool {
    &&& i.wf()
    &&& -MAX_ABS_DAY + 121 <= i.day <= MAX_ABS_DAY - 121
}

/// The Modified Julian Date day number containing a picosecond total.
pub open spec fn mjd_day_of(t: int) -> int {
    t / (DAY_PS as int)
}

/// A well-formed instant's day field is the day of its total.
pub proof fn lemma_day_of_wf(i: Instant)
    requires
        i.wf(),
    ensures
        mjd_day_of(i.total_ps()) == i.day,
        i.total_ps() % (DAY_PS as int) == i.ps,
{
    vstd::arithmetic::div_mod::lemma_fundamental_div_mod_converse(
        i.total_ps(), DAY_PS as int, i.day as int, i.ps as int);
}

/// Any `i64` offset applied to an instant in `conv_range` stays
/// representable.
pub proof fn lemma_conv_shift(i: Instant, delta: int)
    requires
        conv_range(i),
        -9_300_000_000_000_000_000 <= delta <= 9_300_000_000_000_000_000,
    ensures
        representable_ps(i.total_ps() + delta),
{
    lemma_mul_range(
        i.day as int,
        -(MAX_ABS_DAY as int) + 121,
        (MAX_ABS_DAY as int) - 121,
        DAY_PS as int,
    );
    assert(((MAX_ABS_DAY as int) - 121) * (DAY_PS as int)
        == 86_399_989_545_600_000_000_000_000int) by (nonlinear_arith);
    assert((-(MAX_ABS_DAY as int) + 121) * (DAY_PS as int)
        == -86_399_989_545_600_000_000_000_000int) by (nonlinear_arith);
}

/// Instants whose day number keeps a margin of seventeen days inside the
/// representable range: room enough for the fixed TT-TAI offset, any
/// leap-second offset, and the coordinate scales' accrued rate terms.
pub open spec fn table_range(i: Instant) -> bool {
    &&& i.wf()
    &&& -MAX_ABS_DAY + 17 <= i.day <= MAX_ABS_DAY - 17
}

/// Offsets up to a little over sixteen days applied to an instant in
/// `table_range` stay representable.
pub proof fn lemma_table_shift(i: Instant, delta: int)
    requires
        table_range(i),
        -1_400_000_000_000_000_000 <= delta <= 1_400_000_000_000_000_000,
    ensures
        representable_ps(i.total_ps() + delta),
{
    lemma_mul_range(
        i.day as int,
        -(MAX_ABS_DAY as int) + 17,
        (MAX_ABS_DAY as int) - 17,
        DAY_PS as int,
    );
    assert(((MAX_ABS_DAY as int) - 17) * (DAY_PS as int)
        == 86_399_998_531_200_000_000_000_000int) by (nonlinear_arith);
    assert((-(MAX_ABS_DAY as int) + 17) * (DAY_PS as int)
        == -86_399_998_531_200_000_000_000_000int) by (nonlinear_arith);
}

/// An offset within `[0, one day)` carries no whole day.
proof fn lemma_div_small(x: int, d: int)
    requires
        d > 0,
        0 <= x < d,
    ensures
        x / d == 0,
{
    vstd::arithmetic::mul::lemma_mul_by_zero_is_zero(d);
    vstd::arithmetic::div_mod::lemma_fundamental_div_mod_converse(x, d, 0, x);
}

/// An offset within `(-one day, 0)` carries exactly one borrowed day.
proof fn lemma_div_small_neg(x: int, d: int)
    requires
        d > 0,
        -d <= x < 0,
    ensures
        x / d == -1,
{
    assert(x == (-1) * d + (x + d)) by {
        vstd::arithmetic::mul::lemma_mul_unary_negation(1, d);
        vstd::arithmetic::mul::lemma_mul_basics_3(d);
    }
    vstd::arithmetic::div_mod::lemma_fundamental_div_mod_converse(x, d, -1, x + d);
}

/// An offset strictly within `k` days carries between `-k` and `k - 1`
/// whole days.
proof fn lemma_div_within_days(x: int, k: int)
    requires
        1 <= k,
        -k * (DAY_PS as int) < x < k * (DAY_PS as int),
    ensures
        -k <= x / (DAY_PS as int) <= k - 1,
{
    let d = DAY_PS as int;
    vstd::arithmetic::div_mod::lemma_div_is_ordered(x, k * d - 1, d);
    vstd::arithmetic::div_mod::lemma_div_is_ordered(-(k * d), x, d);
    assert(k * d - 1 == (k - 1) * d + (d - 1)) by {
        vstd::arithmetic::mul::lemma_mul_is_distributive_sub_other_way(d, k, 1);
    }
    vstd::arithmetic::div_mod::lemma_fundamental_div_mod_converse(
        k * d - 1, d, k - 1, d - 1);
    assert(-(k * d) == (-k) * d + 0) by {
        vstd::arithmetic::mul::lemma_mul_unary_negation(k, d);
    }
    vstd::arithmetic::div_mod::lemma_fundamental_div_mod_converse(-(k * d), d, -k, 0);
}

/// Applies a picosecond offset known to stay representable; the day
/// number moves by the offset's whole-day count, or one day more when the
/// fractions carry.
fn shifted_instant(i: Instant, delta: i64) -> (r: Instant)
    requires
        i.wf(),
        representable_ps(i.total_ps() + delta),
    ensures
        r.wf(),
        r.total_ps() == i.total_ps() + delta,
        i.day + (delta as int) / (DAY_PS as int) <= r.day
            <= i.day + (delta as int) / (DAY_PS as int) + 1,
{
    let r = match i.add_ps(delta) {
        Some(j) => j,
        None => {
            proof {
                assert(false);
            }
            i
        },
    };
    proof {
        let d = DAY_PS as int;
        let q = (delta as int) / d;
        vstd::arithmetic::div_mod::lemma_fundamental_div_mod(delta as int, d);
        vstd::arithmetic::div_mod::lemma_mod_bound(delta as int, d);
        assert((r.day - i.day) * d == i.ps - r.ps + delta) by {
            vstd::arithmetic::mul::lemma_mul_is_distributive_sub_other_way(
                d, r.day as int, i.day as int);
        }
        // delta == d * q + delta % d, so the day shift differs from q only
        // by the carry of the sub-day parts.
        assert((r.day - i.day - q) * d == i.ps - r.ps + (delta as int) % d) by {
            vstd::arithmetic::mul::lemma_mul_is_distributive_sub_other_way(
                d, r.day - i.day, q);
            vstd::arithmetic::mul::lemma_mul_is_commutative(d, q);
        }
        let s = r.day - i.day - q;
        if s >= 2 {
            lemma_mul_range(s, 2, 3 * MAX_ABS_DAY as int, d);
        }
        if s <= -1 {
            lemma_mul_range(s, -3 * MAX_ABS_DAY as int, -1, d);
        }
    }
    r
}

impl TT {
    /// TAI to TT: add the fixed offset.
    pub fn from_tai(tai: TAI) -> (r: TT)
        requires
            table_range(tai.0),
        ensures
            r.0.wf(),
            r.0.total_ps() == tai.0.total_ps() + TT_MINUS_TAI_PS,
            tai.0.day <= r.0.day <= tai.0.day + 1,
    {
        proof {
            lemma_table_shift(tai.0, TT_MINUS_TAI_PS as int);
            lemma_div_small(TT_MINUS_TAI_PS as int, DAY_PS as int);
        }
        TT(shifted_instant(tai.0, TT_MINUS_TAI_PS))
    }
}

impl TAI {
    /// TT to TAI: subtract the fixed offset.
    pub fn from_tt(tt: TT) -> (r: TAI)
        requires
            table_range(tt.0),
        ensures
            r.0.wf(),
            r.0.total_ps() == tt.0.total_ps() - TT_MINUS_TAI_PS,
            tt.0.day - 1 <= r.0.day <= tt.0.day,
    {
        proof {
            lemma_table_shift(tt.0, -(TT_MINUS_TAI_PS as int));
            lemma_div_small_neg(-(TT_MINUS_TAI_PS as int), DAY_PS as int);
        }
        TAI(shifted_instant(tt.0, -TT_MINUS_TAI_PS))
    }
}

impl UT1 {
    /// TAI to UT1 with the offset `dta = UT1 - TAI` in picoseconds.
    pub fn from_tai(tai: TAI, dta: i64) -> (r: UT1)
        requires
            conv_range(tai.0),
        ensures
            r.0.wf(),
            r.0.total_ps() == tai.0.total_ps() + dta,
            tai.0.day + (dta as int) / (DAY_PS as int) <= r.0.day
                <= tai.0.day + (dta as int) / (DAY_PS as int) + 1,
    {
        proof {
            lemma_conv_shift(tai.0, dta as int);
        }
        UT1(shifted_instant(tai.0, dta))
    }

    /// TT to UT1 with `dt = TT - UT1` (delta-T) in picoseconds.
    pub fn from_tt(tt: TT, dt: i64) -> (r: UT1)
        requires
            conv_range(tt.0),
            dt != i64::MIN,
        ensures
            r.0.wf(),
            r.0.total_ps() == tt.0.total_ps() - dt,
            tt.0.day + (-(dt as int)) / (DAY_PS as int) <= r.0.day
                <= tt.0.day + (-(dt as int)) / (DAY_PS as int) + 1,
    {
        proof {
            lemma_conv_shift(tt.0, -(dt as int));
        }
        UT1(shifted_instant(tt.0, -dt))
    }
}

impl TAI {
    /// UT1 to TAI with the offset `dta = UT1 - TAI` in picoseconds.
    pub fn from_ut1(ut1: UT1, dta: i64) -> (r: TAI)
        requires
            conv_range(ut1.0),
            dta != i64::MIN,
        ensures
            r.0.wf(),
            r.0.total_ps() == ut1.0.total_ps() - dta,
            ut1.0.day + (-(dta as int)) / (DAY_PS as int) <= r.0.day
                <= ut1.0.day + (-(dta as int)) / (DAY_PS as int) + 1,
    {
        proof {
            lemma_conv_shift(ut1.0, -(dta as int));
        }
        TAI(shifted_instant(ut1.0, -dta))
    }
}

impl TT {
    /// UT1 to TT with `dt = TT - UT1` (delta-T) in picoseconds.
    pub fn from_ut1(ut1: UT1, dt: i64) -> (r: TT)
        requires
            conv_range(ut1.0),
        ensures
            r.0.wf(),
            r.0.total_ps() == ut1.0.total_ps() + dt,
            ut1.0.day + (dt as int) / (DAY_PS as int) <= r.0.day
                <= ut1.0.day + (dt as int) / (DAY_PS as int) + 1,
    {
        proof {
            lemma_conv_shift(ut1.0, dt as int);
        }
        TT(shifted_instant(ut1.0, dt))
    }
}

impl TDB {
    /// TT to TDB with the periodic term `dtr = TDB - TT` in picoseconds.
    pub fn from_tt(tt: TT, dtr: i64) -> (r: TDB)
        requires
            conv_range(tt.0),
        ensures
            r.0.wf(),
            r.0.total_ps() == tt.0.total_ps() + dtr,
            tt.0.day + (dtr as int) / (DAY_PS as int) <= r.0.day
                <= tt.0.day + (dtr as int) / (DAY_PS as int) + 1,
    {
        proof {
            lemma_conv_shift(tt.0, dtr as int);
        }
        TDB(shifted_instant(tt.0, dtr))
    }
}

impl TT {
    /// TDB to TT with the periodic term `dtr = TDB - TT` in picoseconds.
    pub fn from_tdb(tdb: TDB, dtr: i64) -> (r: TT)
        requires
            conv_range(tdb.0),
            dtr != i64::MIN,
        ensures
            r.0.wf(),
            r.0.total_ps() == tdb.0.total_ps() - dtr,
            tdb.0.day + (-(dtr as int)) / (DAY_PS as int) <= r.0.day
                <= tdb.0.day + (-(dtr as int)) / (DAY_PS as int) + 1,
    {
        proof {
            lemma_conv_shift(tdb.0, -(dtr as int));
        }
        TT(shifted_instant(tdb.0, -dtr))
    }
}

impl TAI {
    /// UTC to TAI: add the leap-second offset of the UTC day. Fails exactly
    /// on days before the leap-second table.
    pub fn try_from_utc(utc: UTC) -> (r: Result<TAI, TimeError>)
        requires
            table_range(utc.0),
        ensures
            match r {
                Ok(tai) => {
                    &&& in_leap_table(utc.0.day as int)
                    &&& tai.0.wf()
                    &&& tai.0.total_ps() == utc.0.total_ps()
                        + dat_seconds(utc.0.day as int) * SECOND_PS
                    &&& utc.0.day <= tai.0.day <= utc.0.day + 1
                },
                Err(e) => e == TimeError::UnacceptableDate
                    && !in_leap_table(utc.0.day as int),
            },
    {
        let s = match dat(utc.0.day) {
            Ok(s) => s,
            Err(e) => {
                return Err(e);
            },
        };
        proof {
            crate::leapsec::lemma_dat_bounds(utc.0.day as int);
        }
        let delta: i64 = s * SECOND_PS;
        proof {
            lemma_table_shift(utc.0, delta as int);
            lemma_div_small(delta as int, DAY_PS as int);
        }
        Ok(TAI(shifted_instant(utc.0, delta)))
    }
}

/// The UTC total chosen for a TAI total `t`: try the leap offset of the
/// TAI day, then of the previous day; if neither is a fixed point the
/// instant lies inside an inserted leap second and the last picosecond of
/// the leap day is returned. `None` when the day falls before the table.
pub open spec fn utc_total_from_tai(t: int) -> Option<int> {
    let d = DAY_PS as int;
    let da = mjd_day_of(t);
    if da < LEAP_TABLE_START_MJD {
        None
    } else {
        let c1 = t - dat_seconds(da) * SECOND_PS;
        if mjd_day_of(c1) == da {
            Some(c1)
        } else if da - 1 < LEAP_TABLE_START_MJD {
            None
        } else {
            let c2 = t - dat_seconds(da - 1) * SECOND_PS;
            if mjd_day_of(c2) == da - 1 {
                Some(c2)
            } else {
                Some(da * d - 1)
            }
        }
    }
}

impl UTC {
    /// TAI to UTC: remove the leap-second offset, resolving which UTC day
    /// the instant belongs to. Fails exactly when the resulting day falls
    /// before the leap-second table. A TAI instant inside an inserted leap
    /// second maps to the last picosecond of the leap day.
    pub fn try_from_tai(tai: TAI) -> (r: Result<UTC, TimeError>)
        requires
            table_range(tai.0),
        ensures
            match r {
                Ok(u) => {
                    &&& u.0.wf()
                    &&& Some(u.0.total_ps() as int) == utc_total_from_tai(tai.0.total_ps())
                    &&& tai.0.day - 1 <= u.0.day <= tai.0.day
                },
                Err(e) => e == TimeError::UnacceptableDate
                    && utc_total_from_tai(tai.0.total_ps()) is None,
            },
    {
        proof {
            lemma_day_of_wf(tai.0);
        }
        let da = tai.0.day;
        if da < LEAP_TABLE_START_MJD {
            return Err(TimeError::UnacceptableDate);
        }
        let s1 = match dat(da) {
            Ok(s) => s,
            Err(_) => {
                proof {
                    assert(false);
                }
                0
            },
        };
        proof {
            crate::leapsec::lemma_dat_bounds(da as int);
            lemma_table_shift(tai.0, -(s1 as int) * SECOND_PS);
            lemma_div_small_neg(-(s1 as int) * SECOND_PS, DAY_PS as int);
        }
        let c1 = shifted_instant(tai.0, -(s1 * SECOND_PS));
        proof {
            lemma_day_of_wf(c1);
        }
        if c1.day == da {
            return Ok(UTC(c1));
        }
        if da - 1 < LEAP_TABLE_START_MJD {
            return Err(TimeError::UnacceptableDate);
        }
        let s2 = match dat(da - 1) {
            Ok(s) => s,
            Err(_) => {
                proof {
                    assert(false);
                }
                0
            },
        };
        proof {
            crate::leapsec::lemma_dat_bounds(da as int - 1);
            lemma_table_shift(tai.0, -(s2 as int) * SECOND_PS);
            lemma_div_small_neg(-(s2 as int) * SECOND_PS, DAY_PS as int);
        }
        let c2 = shifted_instant(tai.0, -(s2 * SECOND_PS));
        proof {
            lemma_day_of_wf(c2);
        }
        if c2.day == da - 1 {
            return Ok(UTC(c2));
        }
        let u = Instant { day: da - 1, ps: DAY_PS - 1 };
        proof {
            assert(u.total_ps() == (da as int) * (DAY_PS as int) - 1) by {
                vstd::arithmetic::mul::lemma_mul_is_distributive_sub_other_way(
                    DAY_PS as int, da as int, 1);
            }
        }
        Ok(UTC(u))
    }
}

impl UT1 {
    /// UTC to UT1 with `dut1 = UT1 - UTC` in picoseconds. Fails exactly on
    /// days before the leap-second table, as the offset is undefined there.
    pub fn try_from_utc(utc: UTC, dut1: i64) -> (r: Result<UT1, TimeError>)
        requires
            conv_range(utc.0),
        ensures
            match r {
                Ok(u) => {
                    &&& in_leap_table(utc.0.day as int)
                    &&& u.0.wf()
                    &&& u.0.total_ps() == utc.0.total_ps() + dut1
                    &&& utc.0.day + (dut1 as int) / (DAY_PS as int) <= u.0.day
                        <= utc.0.day + (dut1 as int) / (DAY_PS as int) + 1
                },
                Err(e) => e == TimeError::UnacceptableDate
                    && !in_leap_table(utc.0.day as int),
            },
    {
        if utc.0.day < LEAP_TABLE_START_MJD {
            return Err(TimeError::UnacceptableDate);
        }
        proof {
            lemma_conv_shift(utc.0, dut1 as int);
        }
        Ok(UT1(shifted_instant(utc.0, dut1)))
    }
}

impl UTC {
    /// UT1 to UTC with `dut1 = UT1 - UTC` in picoseconds. Fails exactly
    /// when the resulting day falls before the leap-second table.
    pub fn try_from_ut1(ut1: UT1, dut1: i64) -> (r: Result<UTC, TimeError>)
        requires
            conv_range(ut1.0),
            dut1 != i64::MIN,
        ensures
            match r {
                Ok(u) => {
                    &&& u.0.wf()
                    &&& u.0.total_ps() == ut1.0.total_ps() - dut1
                    &&& in_leap_table(u.0.day as int)
                    &&& ut1.0.day + (-(dut1 as int)) / (DAY_PS as int) <= u.0.day
                        <= ut1.0.day + (-(dut1 as int)) / (DAY_PS as int) + 1
                },
                Err(e) => e == TimeError::UnacceptableDate
                    && !in_leap_table(mjd_day_of(ut1.0.total_ps() - dut1)),
            },
    {
        proof {
            lemma_conv_shift(ut1.0, -(dut1 as int));
        }
        let u = shifted_instant(ut1.0, -dut1);
        proof {
            lemma_day_of_wf(u);
        }
        if u.day < LEAP_TABLE_START_MJD {
            return Err(TimeError::UnacceptableDate);
        }
        Ok(UTC(u))
    }
}

/// Numerator of ELG, the TCG-TT linear rate: ELG = ELG_NUM / ELG_DEN.
pub const ELG_NUM: u64 = 6_969_290_134;

/// Denominator of ELG.
pub const ELG_DEN: u64 = 10_000_000_000_000_000_000;

/// Numerator of ELB, the TCB-TDB linear rate: ELB = ELB_NUM / ELB_DEN.
pub const ELB_NUM: u64 = 15_505_197_680;

/// Denominator of ELB.
pub const ELB_DEN: u64 = 1_000_000_000_000_000_000;

/// TDB minus TCB at the 1977 epoch: -65.5 microseconds.
pub const TDB0_PS: i64 = -65_500_000;

/// The 1977-01-01 epoch of the coordinate time scales, as a TT/TDB total:
/// MJD 43144 plus 32.184 s.
pub const T77_TOTAL_PS: i128 = 3_727_641_632_184_000_000_000;

/// `x * num / den` rounded toward zero: the linear-rate term of the
/// coordinate time scales.
pub open spec fn scaled_offset(x: int, num: int, den: int) -> int {
    if x >= 0 {
        (x * num) / den
    } else {
        -((-x * num) / den)
    }
}

/// Computes `scaled_offset` for the magnitudes the time scales need.
fn scale_by_ratio(x: i128, num: u64, den: u64) -> (r: i64)
    requires
        -87_000_000_000_000_000_000_000_000 <= x <= 87_000_000_000_000_000_000_000_000,
        0 < num <= 100_000_000_000,
        0 < den,
        num * 87_000_000_000_000_000_000_000_000
            <= den * 9_000_000_000_000_000_000,
    ensures
        r == scaled_offset(x as int, num as int, den as int),
        -((num * 87_000_000_000_000_000_000_000_000) / (den as int)) <= r
            <= (num * 87_000_000_000_000_000_000_000_000) / (den as int),
{
    let mag: u128 = if x >= 0 {
        x as u128
    } else {
        (-x) as u128
    };
    proof {
        lemma_mul_range(
            mag as int, 0, 87_000_000_000_000_000_000_000_000int, num as int);
        vstd::arithmetic::mul::lemma_mul_inequality(
            num as int, 100_000_000_000int, 87_000_000_000_000_000_000_000_000int);
        vstd::arithmetic::mul::lemma_mul_is_commutative(
            num as int, 87_000_000_000_000_000_000_000_000int);
        assert(100_000_000_000int * 87_000_000_000_000_000_000_000_000int
            == 8_700_000_000_000_000_000_000_000_000_000_000_000int) by (nonlinear_arith);
    }
    let p: u128 = mag * (num as u128);
    let q: u128 = p / (den as u128);
    proof {
        lemma_div_bounds(p as int, den as int, 87_000_000_000_000_000_000_000_000int * num);
        vstd::arithmetic::div_mod::lemma_div_is_ordered(
            87_000_000_000_000_000_000_000_000int * num,
            den * 9_000_000_000_000_000_000,
            den as int,
        );
        vstd::arithmetic::mul::lemma_mul_is_commutative(
            den as int, 9_000_000_000_000_000_000int);
        vstd::arithmetic::div_mod::lemma_div_by_multiple(
            9_000_000_000_000_000_000int, den as int);
        vstd::arithmetic::mul::lemma_mul_is_commutative(
            num as int, 87_000_000_000_000_000_000_000_000int);
        vstd::arithmetic::div_mod::lemma_div_pos_is_pos(
            87_000_000_000_000_000_000_000_000int * num, den as int);
    }
    if x >= 0 {
        q as i64
    } else {
        -(q as i64)
    }
}

/// The total of an instant in `conv_range`, as an `i128`, shifted to the
/// 1977 epoch of the coordinate time scales.
fn total_since_t77(i: Instant) -> (r: i128)
    requires
        table_range(i),
    ensures
        r == i.total_ps() - T77_TOTAL_PS,
        -87_000_000_000_000_000_000_000_000 <= r <= 87_000_000_000_000_000_000_000_000,
{
    proof {
        lemma_table_shift(i, 0);
    }
    (i.day as i128) * (DAY_PS as i128) + (i.ps as i128) - T77_TOTAL_PS
}

impl TCG {
    /// TT to TCG: add the ELG-rate term accrued since the 1977 epoch.
    pub fn from_tt(tt: TT) -> (r: TCG)
        requires
            table_range(tt.0),
        ensures
            r.0.wf(),
            r.0.total_ps() == tt.0.total_ps() + scaled_offset(
                tt.0.total_ps() - T77_TOTAL_PS,
                ELG_NUM as int,
                ELG_DEN - ELG_NUM,
            ),
            tt.0.day - 1 <= r.0.day <= tt.0.day + 1,
    {
        let x = total_since_t77(tt.0);
        proof {
            assert((ELG_NUM as int) * 87_000_000_000_000_000_000_000_000int
                <= (ELG_DEN - ELG_NUM) * 9_000_000_000_000_000_000int
                && (ELG_NUM as int) * 87_000_000_000_000_000_000_000_000int
                    / ((ELG_DEN - ELG_NUM) as int) == 60_632_824_208_056_774int)
                by (nonlinear_arith);
        }
        let delta = scale_by_ratio(x, ELG_NUM, ELG_DEN - ELG_NUM);
        proof {
            lemma_table_shift(tt.0, delta as int);
            if delta >= 0 {
                lemma_div_small(delta as int, DAY_PS as int);
            } else {
                lemma_div_small_neg(delta as int, DAY_PS as int);
            }
        }
        TCG(shifted_instant(tt.0, delta))
    }
}

impl TT {
    /// TCG to TCG's parent scale TT: remove the ELG-rate term.
    pub fn from_tcg(tcg: TCG) -> (r: TT)
        requires
            table_range(tcg.0),
        ensures
            r.0.wf(),
            r.0.total_ps() == tcg.0.total_ps() - scaled_offset(
                tcg.0.total_ps() - T77_TOTAL_PS,
                ELG_NUM as int,
                ELG_DEN as int,
            ),
            tcg.0.day - 1 <= r.0.day <= tcg.0.day + 1,
    {
        let x = total_since_t77(tcg.0);
        proof {
            assert((ELG_NUM as int) * 87_000_000_000_000_000_000_000_000int
                <= (ELG_DEN as int) * 9_000_000_000_000_000_000int
                && (ELG_NUM as int) * 87_000_000_000_000_000_000_000_000int
                    / (ELG_DEN as int) == 60_632_824_165_800_000int) by (nonlinear_arith);
        }
        let delta = scale_by_ratio(x, ELG_NUM, ELG_DEN);
        proof {
            lemma_table_shift(tcg.0, -(delta as int));
            if delta <= 0 {
                lemma_div_small(-(delta as int), DAY_PS as int);
            } else {
                lemma_div_small_neg(-(delta as int), DAY_PS as int);
            }
        }
        TT(shifted_instant(tcg.0, -delta))
    }
}

impl TDB {
    /// TCB to TDB: remove the ELB-rate term and add the epoch offset TDB0.
    pub fn from_tcb(tcb: TCB) -> (r: TDB)
        requires
            table_range(tcb.0),
        ensures
            r.0.wf(),
            r.0.total_ps() == tcb.0.total_ps() - scaled_offset(
                tcb.0.total_ps() - T77_TOTAL_PS,
                ELB_NUM as int,
                ELB_DEN as int,
            ) + TDB0_PS,
            tcb.0.day - 16 <= r.0.day <= tcb.0.day + 16,
    {
        let x = total_since_t77(tcb.0);
        proof {
            assert((ELB_NUM as int) * 87_000_000_000_000_000_000_000_000int
                <= (ELB_DEN as int) * 9_000_000_000_000_000_000int
                && (ELB_NUM as int) * 87_000_000_000_000_000_000_000_000int
                    / (ELB_DEN as int) == 1_348_952_198_160_000_000int
                && 16int * (DAY_PS as int) == 1_382_400_000_000_000_000int)
                by (nonlinear_arith);
        }
        let delta = scale_by_ratio(x, ELB_NUM, ELB_DEN);
        proof {
            lemma_table_shift(tcb.0, -(delta as int) + TDB0_PS);
            lemma_div_within_days(-(delta as int) + TDB0_PS, 16);
        }
        TDB(shifted_instant(tcb.0, -delta + TDB0_PS))
    }
}

impl TCB {
    /// TDB to TCB: the inverse rate ELB / (1 - ELB) applied about the
    /// epoch, after removing TDB0.
    pub fn from_tdb(tdb: TDB) -> (r: TCB)
        requires
            table_range(tdb.0),
        ensures
            r.0.wf(),
            r.0.total_ps() == tdb.0.total_ps() - TDB0_PS + scaled_offset(
                tdb.0.total_ps() - TDB0_PS - T77_TOTAL_PS,
                ELB_NUM as int,
                ELB_DEN - ELB_NUM,
            ),
            tdb.0.day - 16 <= r.0.day <= tdb.0.day + 16,
    {
        let x = total_since_t77(tdb.0);
        let w: i128 = x - (TDB0_PS as i128);
        proof {
            assert((ELB_NUM as int) * 87_000_000_000_000_000_000_000_000int
                <= (ELB_DEN - ELB_NUM) * 9_000_000_000_000_000_000int
                && (ELB_NUM as int) * 87_000_000_000_000_000_000_000_000int
                    / ((ELB_DEN - ELB_NUM) as int) == 1_348_952_219_075_770_817int
                && 16int * (DAY_PS as int) == 1_382_400_000_000_000_000int)
                by (nonlinear_arith);
        }
        let delta = scale_by_ratio(w, ELB_NUM, ELB_DEN - ELB_NUM);
        proof {
            lemma_table_shift(tdb.0, -(TDB0_PS as int) + delta);
            lemma_div_within_days(-(TDB0_PS as int) + delta, 16);
        }
        TCB(shifted_instant(tdb.0, -TDB0_PS + delta))
    }
}

impl TAI {
    /// TAI to UT1 with the offset `dta = UT1 - TAI` in picoseconds.
    pub fn into_ut1(self, dta: i64) -> (r: UT1)
        requires
            conv_range(self.0),
        ensures
            r.0.wf(),
            r.0.total_ps() == self.0.total_ps() + dta,
    {
        UT1::from_tai(self, dta)
    }
}

impl UT1 {
    /// UT1 to TAI with the offset `dta = UT1 - TAI` in picoseconds.
    pub fn into_tai(self, dta: i64) -> (r: TAI)
        requires
            conv_range(self.0),
            dta != i64::MIN,
        ensures
            r.0.wf(),
            r.0.total_ps() == self.0.total_ps() - dta,
    {
        TAI::from_ut1(self, dta)
    }

    /// UT1 to TT with `dt = TT - UT1` (delta-T) in picoseconds.
    pub fn into_tt(self, dt: i64) -> (r: TT)
        requires
            conv_range(self.0),
        ensures
            r.0.wf(),
            r.0.total_ps() == self.0.total_ps() + dt,
    {
        TT::from_ut1(self, dt)
    }

    /// UT1 to UTC with `dut1 = UT1 - UTC` in picoseconds; fails exactly
    /// when the resulting day falls before the leap-second table.
    pub fn try_into_utc(self, dut1: i64) -> (r: Result<UTC, TimeError>)
        requires
            conv_range(self.0),
            dut1 != i64::MIN,
        ensures
            match r {
                Ok(u) => u.0.wf() && u.0.total_ps() == self.0.total_ps() - dut1
                    && in_leap_table(u.0.day as int),
                Err(e) => e == TimeError::UnacceptableDate
                    && !in_leap_table(mjd_day_of(self.0.total_ps() - dut1)),
            },
    {
        UTC::try_from_ut1(self, dut1)
    }
}

impl TT {
    /// TT to UT1 with `dt = TT - UT1` (delta-T) in picoseconds.
    pub fn into_ut1(self, dt: i64) -> (r: UT1)
        requires
            conv_range(self.0),
            dt != i64::MIN,
        ensures
            r.0.wf(),
            r.0.total_ps() == self.0.total_ps() - dt,
    {
        UT1::from_tt(self, dt)
    }

    /// TT to TDB with the periodic term `dtr = TDB - TT` in picoseconds.
    pub fn into_tdb(self, dtr: i64) -> (r: TDB)
        requires
            conv_range(self.0),
        ensures
            r.0.wf(),
            r.0.total_ps() == self.0.total_ps() + dtr,
    {
        TDB::from_tt(self, dtr)
    }
}

impl TDB {
    /// TDB to TT with the periodic term `dtr = TDB - TT` in picoseconds.
    pub fn into_tt(self, dtr: i64) -> (r: TT)
        requires
            conv_range(self.0),
            dtr != i64::MIN,
        ensures
            r.0.wf(),
            r.0.total_ps() == self.0.total_ps() - dtr,
    {
        TT::from_tdb(self, dtr)
    }
}

impl UTC {
    /// UTC to UT1 with `dut1 = UT1 - UTC` in picoseconds; fails exactly on
    /// days before the leap-second table.
    pub fn try_into_ut1(self, dut1: i64) -> (r: Result<UT1, TimeError>)
        requires
            conv_range(self.0),
        ensures
            match r {
                Ok(u) => in_leap_table(self.0.day as int) && u.0.wf()
                    && u.0.total_ps() == self.0.total_ps() + dut1,
                Err(e) => e == TimeError::UnacceptableDate
                    && !in_leap_table(self.0.day as int),
            },
    {
        UT1::try_from_utc(self, dut1)
    }
}

/// Two well-formed instants holding the same total are bit-identical.
/// Together with the conversion contracts, which fix each result's total as
/// a function of the inputs alone, this gives determinism: identical inputs
/// yield bit-identical outputs.
pub proof fn lemma_total_unique(a: Instant, b: Instant)
    requires
        a.wf(),
        b.wf(),
        a.total_ps() == b.total_ps(),
    ensures
        a == b,
{
    lemma_day_of_wf(a);
    lemma_day_of_wf(b);
}

/// Round trip through the leap-second table: for every UTC instant on a day
/// the table covers, converting to TAI and back yields exactly the original
/// two-part value.
pub proof fn lemma_utc_tai_roundtrip(u: Instant)
    requires
        u.wf(),
        in_leap_table(u.day as int),
    ensures
        utc_total_from_tai(u.total_ps() + dat_seconds(u.day as int) * SECOND_PS)
            == Some(u.total_ps()),
{
    let d = DAY_PS as int;
    let sec = SECOND_PS as int;
    let s = dat_seconds(u.day as int);
    crate::leapsec::lemma_dat_bounds(u.day as int);
    crate::leapsec::lemma_dat_step(u.day as int);
    crate::leapsec::lemma_dat_monotone(u.day as int, u.day + 1);
    let t = u.total_ps() + s * sec;
    let x = u.ps + s * sec;
    lemma_day_of_wf(u);
    if x < d {
        vstd::arithmetic::div_mod::lemma_fundamental_div_mod_converse(
            t, d, u.day as int, x);
        assert(mjd_day_of(t) == u.day);
        assert(t - dat_seconds(mjd_day_of(t)) * sec == u.total_ps());
    } else {
        let s1 = dat_seconds(u.day + 1);
        assert(t == (u.day + 1) * d + (x - d)) by {
            vstd::arithmetic::mul::lemma_mul_is_distributive_add_other_way(
                d, u.day as int, 1);
        }
        vstd::arithmetic::div_mod::lemma_fundamental_div_mod_converse(
            t, d, u.day + 1, x - d);
        assert(mjd_day_of(t) == u.day + 1);
        let c1 = t - s1 * sec;
        assert(c1 == u.day * d + (x - s1 * sec));
        // The first candidate lands on the previous day, never on the TAI
        // day itself: its remainder stays within one day.
        vstd::arithmetic::div_mod::lemma_fundamental_div_mod_converse(
            c1, d, u.day as int, x - s1 * sec);
        assert(mjd_day_of(c1) == u.day);
        let c2 = t - s * sec;
        assert(c2 == u.total_ps());
        assert(mjd_day_of(c2) == u.day);
    }
}

/// The round trip at the level of values: any well-formed instant whose
/// total satisfies the TAI-to-UTC decision for the TAI total derived from
/// `u` is `u` itself, bit for bit. With the conversion contracts this says
/// that converting a tabled UTC instant to TAI and back returns the
/// original value exactly.
pub proof fn lemma_utc_tai_roundtrip_exact(u: Instant, v: Instant)
    requires
        u.wf(),
        in_leap_table(u.day as int),
        v.wf(),
        Some(v.total_ps() as int) == utc_total_from_tai(
            u.total_ps() + dat_seconds(u.day as int) * SECOND_PS),
    ensures
        v == u,
{
    lemma_utc_tai_roundtrip(u);
    lemma_total_unique(u, v);
}

/// Round trip with DUT1: applying `+dut1` and then `-dut1` to a UTC
/// instant's total is the identity, and the instant's day, which decides
/// leap-table acceptance both ways, is unchanged.
pub proof fn lemma_utc_ut1_roundtrip(u: Instant, dut1: int)
    requires
        u.wf(),
    ensures
        u.total_ps() + dut1 - dut1 == u.total_ps(),
        mjd_day_of(u.total_ps() + dut1 - dut1) == u.day,
{
    lemma_day_of_wf(u);
}

/// Composition consistency: TT to UT1 and back with the same delta-T is
/// the identity on the instant's total.
pub proof fn lemma_tt_ut1_roundtrip(t: Instant, dt: int)
    requires
        t.wf(),
    ensures
        t.total_ps() - dt + dt == t.total_ps(),
{
}

} // verus!
