//! The leap-second table: TAI minus UTC, in whole seconds, for every UTC day
//! from the start of the leap-second era.
//!
//! Each entry takes effect on the first day of a month; the offset is
//! constant across each interval and grows by exactly one second at each
//! boundary. Days before the era are outside the table and yield
//! `UnacceptableDate`.

use vstd::prelude::*;
use crate::TimeError;

verus! {

/// First Modified Julian Date covered by the leap-second table
/// (the start of the era of whole-second steps).
pub const LEAP_TABLE_START_MJD: i64 = 41317;

/// Whether a Modified Julian Date day number is covered by the table.
pub open spec fn in_leap_table(mjd: int) -> bool {
    mjd >= LEAP_TABLE_START_MJD
}

/// TAI minus UTC in seconds for the UTC day `mjd`, meaningful when
/// `in_leap_table(mjd)`. Each boundary is the Modified Julian Date of the
/// first day of the month the offset came into force.
pub open spec fn dat_seconds(mjd: int) -> int {
    if mjd >= 57754 { 37 }        // 2017-01-01
    else if mjd >= 57204 { 36 }   // 2015-07-01
    else if mjd >= 56109 { 35 }   // 2012-07-01
    else if mjd >= 54832 { 34 }   // 2009-01-01
    else if mjd >= 53736 { 33 }   // 2006-01-01
    else if mjd >= 51179 { 32 }   // 1999-01-01
    else if mjd >= 50630 { 31 }   // 1997-07-01
    else if mjd >= 50083 { 30 }   // 1996-01-01
    else if mjd >= 49534 { 29 }   // 1994-07-01
    else if mjd >= 49169 { 28 }   // 1993-07-01
    else if mjd >= 48804 { 27 }   // 1992-07-01
    else if mjd >= 48257 { 26 }   // 1991-01-01
    else if mjd >= 47892 { 25 }   // 1990-01-01
    else if mjd >= 47161 { 24 }   // 1988-01-01
    else if mjd >= 46247 { 23 }   // 1985-07-01
    else if mjd >= 45516 { 22 }   // 1983-07-01
    else if mjd >= 45151 { 21 }   // 1982-07-01
    else if mjd >= 44786 { 20 }   // 1981-07-01
    else if mjd >= 44239 { 19 }   // 1980-01-01
    else if mjd >= 43874 { 18 }   // 1979-01-01
    else if mjd >= 43509 { 17 }   // 1978-01-01
    else if mjd >= 43144 { 16 }   // 1977-01-01
    else if mjd >= 42778 { 15 }   // 1976-01-01
    else if mjd >= 42413 { 14 }   // 1975-01-01
    else if mjd >= 42048 { 13 }   // 1974-01-01
    else if mjd >= 41683 { 12 }   // 1973-01-01
    else if mjd >= 41499 { 11 }   // 1972-07-01
    else { 10 }                   // 1972-01-01
}

/// Looks up TAI minus UTC for the day `mjd`; fails exactly on days before
/// the table begins.
pub fn dat(mjd: i64) -> (r: Result<i64, TimeError>)
    ensures
        match r {
            Ok(s) => in_leap_table(mjd as int) && s == dat_seconds(mjd as int),
            Err(e) => e == TimeError::UnacceptableDate && !in_leap_table(mjd as int),
        },
{
    if mjd < LEAP_TABLE_START_MJD {
        return Err(TimeError::UnacceptableDate);
    }
    Ok(
        if mjd >= 57754 { 37 }
        else if mjd >= 57204 { 36 }
        else if mjd >= 56109 { 35 }
        else if mjd >= 54832 { 34 }
        else if mjd >= 53736 { 33 }
        else if mjd >= 51179 { 32 }
        else if mjd >= 50630 { 31 }
        else if mjd >= 50083 { 30 }
        else if mjd >= 49534 { 29 }
        else if mjd >= 49169 { 28 }
        else if mjd >= 48804 { 27 }
        else if mjd >= 48257 { 26 }
        else if mjd >= 47892 { 25 }
        else if mjd >= 47161 { 24 }
        else if mjd >= 46247 { 23 }
        else if mjd >= 45516 { 22 }
        else if mjd >= 45151 { 21 }
        else if mjd >= 44786 { 20 }
        else if mjd >= 44239 { 19 }
        else if mjd >= 43874 { 18 }
        else if mjd >= 43509 { 17 }
        else if mjd >= 43144 { 16 }
        else if mjd >= 42778 { 15 }
        else if mjd >= 42413 { 14 }
        else if mjd >= 42048 { 13 }
        else if mjd >= 41683 { 12 }
        else if mjd >= 41499 { 11 }
        else { 10 }
    )
}

/// The offset never decreases as the day advances.
pub proof fn lemma_dat_monotone(m1: int, m2: int)
    requires
        m1 <= m2,
    ensures
        dat_seconds(m1) <= dat_seconds(m2),
{
}

/// The offset is always between the table's first and last value.
pub proof fn lemma_dat_bounds(mjd: int)
    ensures
        10 <= dat_seconds(mjd) <= 37,
{
}

/// From one day to the next the offset grows by at most one second: leap
/// seconds are inserted singly.
pub proof fn lemma_dat_step(mjd: int)
    ensures
        dat_seconds(mjd + 1) <= dat_seconds(mjd) + 1,
{
}

/// At a day where the offset changes at all, it changes by exactly one
/// second: instants on either side of an insertion differ in their
/// UTC-to-TAI offset by one second precisely.
pub proof fn lemma_dat_boundary_step(mjd: int)
    requires
        dat_seconds(mjd) != dat_seconds(mjd + 1),
    ensures
        dat_seconds(mjd + 1) == dat_seconds(mjd) + 1,
{
    lemma_dat_monotone(mjd, mjd + 1);
    lemma_dat_step(mjd);
}

} // verus!
