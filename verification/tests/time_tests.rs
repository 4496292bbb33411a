use stardome::calendar::{cal2jd, jd2cal, leap_year, month_length, day_ps_from_hms, hmsf_from_day_ps};
use stardome::instant::{Instant, instant_from_day_ps, instant_from_total, DAY_PS, SECOND_PS};
use stardome::scales::UTC;

#[test]
fn cal2jd_known_dates() {
    assert_eq!(cal2jd(1858, 11, 17), Some(0));
    assert_eq!(cal2jd(1970, 1, 1), Some(40587));
    assert_eq!(cal2jd(1972, 1, 1), Some(41317));
    assert_eq!(cal2jd(2000, 1, 1), Some(51544));
    assert_eq!(cal2jd(2004, 4, 6), Some(53101));
    assert_eq!(cal2jd(2006, 1, 1), Some(53736));
    assert_eq!(cal2jd(2017, 1, 1), Some(57754));
    assert_eq!(cal2jd(1950, 1, 1), Some(33282));
}

#[test]
fn cal2jd_rejects_invalid_dates() {
    assert_eq!(cal2jd(2004, 13, 1), None);
    assert_eq!(cal2jd(2004, 0, 1), None);
    assert_eq!(cal2jd(2004, 2, 30), None);
    assert_eq!(cal2jd(2004, 4, 31), None);
    assert_eq!(cal2jd(1900, 2, 29), None);
    assert_eq!(cal2jd(-4800, 1, 1), None);
}

#[test]
fn cal2jd_handles_leap_years() {
    assert_eq!(cal2jd(2000, 2, 29), Some(51603));
    assert_eq!(cal2jd(2004, 2, 29), Some(53064));
    assert!(leap_year(2000));
    assert!(!leap_year(1900));
    assert!(leap_year(2004));
    assert!(!leap_year(2001));
    assert_eq!(month_length(2004, 2), 29);
    assert_eq!(month_length(1900, 2), 28);
    assert_eq!(month_length(2004, 4), 30);
    assert_eq!(month_length(2004, 12), 31);
}

#[test]
fn jd2cal_known_days() {
    assert_eq!(jd2cal(0), Some((1858, 11, 17)));
    assert_eq!(jd2cal(53101), Some((2004, 4, 6)));
    assert_eq!(jd2cal(41317), Some((1972, 1, 1)));
    assert_eq!(jd2cal(51603), Some((2000, 2, 29)));
    assert_eq!(jd2cal(-3_000_000), None);
    assert_eq!(jd2cal(800_000_000), None);
}

#[test]
fn calendar_roundtrip_over_a_century() {
    let mut mjd: i64 = 33282;
    while mjd <= 57754 {
        let (y, m, d) = jd2cal(mjd).unwrap();
        assert_eq!(cal2jd(y, m, d), Some(mjd));
        mjd += 1;
    }
}

#[test]
fn calendar_span_extremes() {
    assert_eq!(cal2jd(-4799, 1, 1), Some(-2_431_739));
    assert_eq!(jd2cal(-2_431_739), Some((-4799, 1, 1)));
    assert_eq!(cal2jd(2_000_000, 12, 31), Some(729_806_424));
    assert_eq!(jd2cal(729_806_424), Some((2_000_000, 12, 31)));
    assert_eq!(cal2jd(2_000_001, 1, 1), None);
    assert_eq!(jd2cal(729_806_425), None);
    assert_eq!(jd2cal(-2_431_740), None);
}

#[test]
fn instant_range_is_bounded() {
    assert!(instant_from_day_ps(1_000_000_000, DAY_PS - 1).is_some());
    assert!(instant_from_day_ps(1_000_000_001, 0).is_none());
    assert!(instant_from_day_ps(-1_000_000_000, 0).is_some());
    assert!(instant_from_day_ps(-1_000_000_001, DAY_PS - 1).is_none());
    let top = instant_from_day_ps(1_000_000_000, DAY_PS - 1).unwrap();
    assert!(top.add_ps(1).is_none());
    assert_eq!(top.add_ps(0), Some(top));
}

#[test]
fn instant_normalisation_carries_fractions() {
    let i = instant_from_day_ps(100, DAY_PS + 5).unwrap();
    assert_eq!(i.day, 101);
    assert_eq!(i.ps, 5);
    let j = instant_from_day_ps(100, -1).unwrap();
    assert_eq!(j.day, 99);
    assert_eq!(j.ps, DAY_PS - 1);
    let k = instant_from_total(0).unwrap();
    assert_eq!((k.day, k.ps), (0, 0));
}

#[test]
fn instant_add_and_difference_are_exact() {
    let i = instant_from_day_ps(53101, 0).unwrap();
    let j = i.add_seconds(86401).unwrap();
    assert_eq!(j.day, 53102);
    assert_eq!(j.ps, SECOND_PS);
    let (secs, rem) = j.difference_seconds(i);
    assert_eq!((secs, rem), (86401, 0));
    let (secs, rem) = i.difference_seconds(j);
    assert_eq!((secs, rem), (-86401, 0));
    let k = i.add_ps(-1).unwrap();
    assert_eq!(k.day, 53100);
    assert_eq!(k.ps, DAY_PS - 1);
}

#[test]
fn from_unix_places_the_epoch() {
    let u = UTC::from_unix(0, 0).unwrap();
    assert_eq!((u.0.day, u.0.ps), (40587, 0));
    let u = UTC::from_unix(86400, 500).unwrap();
    assert_eq!((u.0.day, u.0.ps), (40588, 500_000));
    let u = UTC::from_unix(-1, 0).unwrap();
    assert_eq!((u.0.day, u.0.ps), (40586, DAY_PS - SECOND_PS));
}

#[test]
fn day_ps_from_hms_validates_fields() {
    assert_eq!(day_ps_from_hms(7, 51, 28, 0), Some((7 * 3600 + 51 * 60 + 28) * SECOND_PS));
    assert_eq!(day_ps_from_hms(24, 0, 0, 0), None);
    assert_eq!(day_ps_from_hms(0, 60, 0, 0), None);
    assert_eq!(day_ps_from_hms(0, 0, 60, 0), None);
    assert_eq!(day_ps_from_hms(-1, 0, 0, 0), None);
}

#[test]
fn hmsf_rounds_to_milliseconds() {
    let ps = (7 * 3600 + 51 * 60 + 28) * SECOND_PS + 386_000_000_000;
    assert_eq!(hmsf_from_day_ps(ps), (7, 51, 28, 386));
    assert_eq!(hmsf_from_day_ps(499_999_999), (0, 0, 0, 0));
    assert_eq!(hmsf_from_day_ps(500_000_000), (0, 0, 0, 1));
    assert_eq!(hmsf_from_day_ps(DAY_PS - 1), (24, 0, 0, 0));
}

#[test]
fn utc_text_rendering() {
    let u = UTC::from_ymdhms(2004, 4, 6, 7, 51, 28, 386_000_000_000).unwrap();
    assert_eq!(u.to_text().unwrap(), "2004-04-06T07:51:28.386Z");
    let e = UTC(Instant { day: 0, ps: 0 });
    assert_eq!(e.to_text().unwrap(), "1858-11-17T00:00:00.000Z");
    let n = UTC::from_ymdf(-1000, 1, 1, 0).unwrap();
    assert_eq!(n.to_text().unwrap(), "-1000-01-01T00:00:00.000Z");
    let big = UTC::from_ymdf(123456, 12, 31, 0).unwrap();
    assert_eq!(big.to_text().unwrap(), "123456-12-31T00:00:00.000Z");
    let end = UTC::from_ymdf(2004, 4, 6, DAY_PS - 1).unwrap();
    assert_eq!(end.to_text().unwrap(), "2004-04-06T24:00:00.000Z");
    let out = UTC(Instant { day: 900_000_000, ps: 0 });
    assert_eq!(out.to_text(), None);
}
