//! Astronomical time scales and celestial-to-terrestrial frame transforms,
//! modelled over exact integer arithmetic.
//!
//! An instant is a Modified Julian Date split into a whole day number and a
//! count of picoseconds within the day, so every conversion in the time-scale
//! graph is exact integer arithmetic with a provable contract.

use vstd::prelude::*;

pub mod calendar;
pub mod format;
pub mod frames;
pub mod gfx;
pub mod instant;
pub mod leapsec;
pub mod math;
pub mod matrix;
pub mod ortho;
pub mod scales;

verus! {

/// Failure of a time-scale conversion: the instant falls outside the
/// table-driven leap-second domain.
#[derive(Debug, Clone, Copy, PartialEq, Eq, Structural)]
pub enum TimeError {
    UnacceptableDate,
}

/// From calendar date, clock reading and DUT1 to the TT and UT1 instants
/// the frame pipeline consumes. `None` exactly when the date or clock
/// reading is invalid or the date lies before the leap-second table.
pub fn get_mjd(
    year: i32,
    month: i32,
    day: i32,
    hour: i32,
    minute: i32,
    second: i32,
    sub_ps: i64,
    dut1_ps: i64,
) -> (r: Option<(crate::scales::TT, crate::scales::UT1)>)
    requires
        0 <= sub_ps < crate::instant::SECOND_PS,
    ensures
        ({
            let mjd = crate::calendar::mjd_from_civil(year as int, month as int, day as int);
            let civil = mjd * crate::instant::DAY_PS
                + (hour * 3600 + minute * 60 + second) * crate::instant::SECOND_PS + sub_ps;
            match r {
                Some(p) => {
                    &&& crate::calendar::valid_date(year as int, month as int, day as int)
                    &&& crate::calendar::valid_hms(hour as int, minute as int, second as int)
                    &&& crate::leapsec::in_leap_table(mjd)
                    &&& crate::scales::conv_range(p.0.0)
                    &&& p.0.0.total_ps() == civil
                        + crate::leapsec::dat_seconds(mjd) * crate::instant::SECOND_PS
                        + crate::scales::TT_MINUS_TAI_PS
                    &&& crate::scales::conv_range(p.1.0)
                    &&& p.1.0.total_ps() == civil + dut1_ps
                },
                None => !crate::calendar::valid_date(year as int, month as int, day as int)
                    || !crate::calendar::valid_hms(hour as int, minute as int, second as int)
                    || !crate::leapsec::in_leap_table(mjd),
            }
        }),
{
    let utc = match crate::scales::UTC::from_ymdhms(
        year, month, day, hour, minute, second, sub_ps) {
        Some(u) => u,
        None => {
            return None;
        },
    };
    let tai = match crate::scales::TAI::try_from_utc(utc) {
        Ok(t) => t,
        Err(_) => {
            return None;
        },
    };
    let tt = crate::scales::TT::from_tai(tai);
    let ut1 = match crate::scales::UT1::try_from_utc(utc, dut1_ps) {
        Ok(u) => u,
        Err(_) => {
            return None;
        },
    };
    Some((tt, ut1))
}

} // verus!
