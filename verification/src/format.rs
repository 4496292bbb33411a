//! Diagnostic text rendering of instants: an ISO-8601-like form
//! `YYYY-MM-DDThh:mm:ss.fff`, with a trailing `Z` for UTC.
//!
//! The rendering is specified down to the character: a zero-padded decimal
//! spec function fixes every digit, and the date fields are tied to the
//! instant through the calendar's day-number function.

use vstd::prelude::*;
use crate::instant::Instant;
use crate::calendar::{valid_date, mjd_from_civil, rounded_ms, MJD_MIN, MJD_MAX};
use crate::scales::UTC;

verus! {

/// The character for one decimal digit.
pub open spec fn digit_char(d: int) -> char {
    if d == 0 { '0' }
    else if d == 1 { '1' }
    else if d == 2 { '2' }
    else if d == 3 { '3' }
    else if d == 4 { '4' }
    else if d == 5 { '5' }
    else if d == 6 { '6' }
    else if d == 7 { '7' }
    else if d == 8 { '8' }
    else { '9' }
}

/// The decimal rendering of `n`, zero-padded on the left to at least `w`
/// characters.
pub open spec fn dec_rep(n: nat, w: nat) -> Seq<char>
    decreases n + w,
{
    if n <= 9 && w <= 1 {
        seq![digit_char(n as int)]
    } else {
        dec_rep(n / 10, if w == 0 { 0nat } else { (w - 1) as nat })
            + seq![digit_char((n % 10) as int)]
    }
}

/// The decimal rendering of a possibly negative value, a minus sign
/// preceding the padded digits.
pub open spec fn signed_dec_rep(v: int, w: nat) -> Seq<char> {
    if v < 0 {
        seq!['-'] + dec_rep((-v) as nat, w)
    } else {
        dec_rep(v as nat, w)
    }
}

/// The full date-and-clock text for a calendar date and a count of
/// milliseconds of day.
pub open spec fn date_time_text(y: int, mo: int, d: int, ms: int) -> Seq<char> {
    signed_dec_rep(y, 4) + seq!['-'] + dec_rep(mo as nat, 2) + seq!['-']
        + dec_rep(d as nat, 2) + seq!['T'] + dec_rep((ms / 3600000) as nat, 2)
        + seq![':'] + dec_rep((ms / 60000 % 60) as nat, 2) + seq![':']
        + dec_rep((ms / 1000 % 60) as nat, 2) + seq!['.'] + dec_rep((ms % 1000) as nat, 3)
}

/// Appends one digit character.
fn push_digit(s: &mut String, d: u64)
    requires
        d < 10,
    ensures
        final(s)@ == old(s)@ + seq![digit_char(d as int)],
{
    proof {
        reveal_strlit("0");
        reveal_strlit("1");
        reveal_strlit("2");
        reveal_strlit("3");
        reveal_strlit("4");
        reveal_strlit("5");
        reveal_strlit("6");
        reveal_strlit("7");
        reveal_strlit("8");
        reveal_strlit("9");
    }
    match d {
        0 => s.append("0"),
        1 => s.append("1"),
        2 => s.append("2"),
        3 => s.append("3"),
        4 => s.append("4"),
        5 => s.append("5"),
        6 => s.append("6"),
        7 => s.append("7"),
        8 => s.append("8"),
        _ => s.append("9"),
    }
    proof {
        assert(final(s)@ =~= old(s)@ + seq![digit_char(d as int)]);
    }
}

/// Appends the decimal rendering of `n`, zero-padded to at least `w`
/// characters.
fn push_dec(s: &mut String, n: u64, w: u64)
    ensures
        final(s)@ == old(s)@ + dec_rep(n as nat, w as nat),
    decreases n + w,
{
    if n <= 9 && w <= 1 {
        push_digit(s, n);
    } else {
        push_dec(s, n / 10, if w == 0 { 0 } else { w - 1 });
        push_digit(s, n % 10);
        proof {
            assert(final(s)@ =~= old(s)@ + dec_rep(n as nat, w as nat));
        }
    }
}

/// Renders an instant's calendar date and clock reading, the clock rounded
/// half-up to milliseconds. `None` exactly when the day number lies outside
/// the supported calendar span.
pub fn jd_text(i: Instant) -> (r: Option<String>)
    requires
        i.wf(),
    ensures
        match r {
            Some(s) => MJD_MIN <= i.day <= MJD_MAX && exists|y: int, mo: int, d: int|
                {
                    &&& valid_date(y, mo, d)
                    &&& mjd_from_civil(y, mo, d) == i.day
                    &&& s@ == date_time_text(y, mo, d, rounded_ms(i.ps as int))
                },
            None => !(MJD_MIN <= i.day <= MJD_MAX),
        },
{
    let (y, mo, d) = match crate::calendar::jd2cal(i.day) {
        Some(c) => c,
        None => {
            return None;
        },
    };
    let (hh, mm, ss, ff) = crate::calendar::hmsf_from_day_ps(i.ps);
    let mut s = String::new();
    proof {
        reveal_strlit("-");
        reveal_strlit("T");
        reveal_strlit(":");
        reveal_strlit(".");
    }
    if y < 0 {
        s.append("-");
        proof {
            assert(s@ =~= seq!['-']);
        }
        push_dec(&mut s, (-(y as i64)) as u64, 4);
    } else {
        push_dec(&mut s, y as u64, 4);
    }
    s.append("-");
    push_dec(&mut s, mo as u64, 2);
    s.append("-");
    push_dec(&mut s, d as u64, 2);
    s.append("T");
    push_dec(&mut s, hh as u64, 2);
    s.append(":");
    push_dec(&mut s, mm as u64, 2);
    s.append(":");
    push_dec(&mut s, ss as u64, 2);
    s.append(".");
    push_dec(&mut s, ff as u64, 3);
    proof {
        assert(seq!['-'] =~= "-"@);
        assert(seq!['T'] =~= "T"@);
        assert(seq![':'] =~= ":"@);
        assert(seq!['.'] =~= "."@);
        assert(s@ =~= date_time_text(y as int, mo as int, d as int, rounded_ms(i.ps as int)));
    }
    Some(s)
}

impl UTC {
    /// Renders a UTC instant with the trailing `Z` designator. `None`
    /// exactly when the day number lies outside the supported calendar
    /// span.
    pub fn to_text(&self) -> (r: Option<String>)
        requires
            self.0.wf(),
        ensures
            match r {
                Some(s) => MJD_MIN <= self.0.day <= MJD_MAX && exists|y: int, mo: int, d: int|
                    {
                        &&& valid_date(y, mo, d)
                        &&& mjd_from_civil(y, mo, d) == self.0.day
                        &&& s@ == date_time_text(y, mo, d, rounded_ms(self.0.ps as int))
                            + seq!['Z']
                    },
                None => !(MJD_MIN <= self.0.day <= MJD_MAX),
            },
    {
        let mut s = match jd_text(self.0) {
            Some(s) => s,
            None => {
                return None;
            },
        };
        proof {
            reveal_strlit("Z");
        }
        s.append("Z");
        proof {
            assert(seq!['Z'] =~= "Z"@);
        }
        Some(s)
    }
}

} // verus!
