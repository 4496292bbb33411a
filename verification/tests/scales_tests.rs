use stardome::instant::Instant;
use stardome::scales::{UTC, TAI, TT, UT1, TCG, TCB, TDB, TT_MINUS_TAI_PS};
use stardome::leapsec::dat;
use stardome::{get_mjd, TimeError};

#[test]
fn dat_table_values() {
    assert_eq!(dat(41317), Ok(10));
    assert_eq!(dat(41498), Ok(10));
    assert_eq!(dat(41499), Ok(11));
    assert_eq!(dat(53735), Ok(32));
    assert_eq!(dat(53736), Ok(33));
    assert_eq!(dat(57754), Ok(37));
    assert_eq!(dat(60000), Ok(37));
    assert_eq!(dat(41316), Err(TimeError::UnacceptableDate));
    assert_eq!(dat(33282), Err(TimeError::UnacceptableDate));
}

#[test]
fn utc_to_tai_fails_before_the_table() {
    let utc = UTC::from_ymdhms(1950, 1, 1, 0, 0, 0, 0).unwrap();
    assert!(matches!(TAI::try_from_utc(utc), Err(TimeError::UnacceptableDate)));
    let ut1 = utc.try_into_ut1(0);
    assert!(matches!(ut1, Err(TimeError::UnacceptableDate)));
}

#[test]
fn leap_second_boundary_offsets() {
    // One microsecond before the insertion at the end of 2005, and one
    // microsecond after it: both convert, and the offsets differ by
    // exactly one second.
    let before = UTC::from_ymdhms(2005, 12, 31, 23, 59, 59, 999_999_000_000).unwrap();
    let after = UTC::from_ymdhms(2006, 1, 1, 0, 0, 0, 1_000_000).unwrap();
    let tai_b = TAI::try_from_utc(before).unwrap();
    let tai_a = TAI::try_from_utc(after).unwrap();
    assert_eq!(tai_b.0.difference_seconds(before.0), (32, 0));
    assert_eq!(tai_a.0.difference_seconds(after.0), (33, 0));
}

#[test]
fn utc_tai_roundtrip_is_exact() {
    let utc = UTC::from_ymdhms(2004, 4, 6, 7, 51, 28, 386_000_000_000).unwrap();
    let tai = TAI::try_from_utc(utc).unwrap();
    let back = UTC::try_from_tai(tai).unwrap();
    assert_eq!(back, utc);
    // Near the end of a day the carry into the next TAI day still inverts.
    let late = UTC::from_ymdhms(2005, 12, 31, 23, 59, 59, 999_999_000_000).unwrap();
    let back = UTC::try_from_tai(TAI::try_from_utc(late).unwrap()).unwrap();
    assert_eq!(back, late);
}

#[test]
fn tai_inside_inserted_leap_second_maps_to_day_end() {
    // TAI instants reached during an inserted leap second have no exact
    // UTC counterpart; they map to the last picosecond of the leap day.
    let end_of_day = UTC::from_ymdhms(2005, 12, 31, 23, 59, 59, 999_999_999_999).unwrap();
    let tai = TAI::try_from_utc(end_of_day).unwrap();
    let inside = TAI(tai.0.add_ps(500_000_000_000).unwrap());
    let u = UTC::try_from_tai(inside).unwrap();
    assert_eq!(u.0.day, 53735);
    assert_eq!(u.0.ps, stardome::instant::DAY_PS - 1);
}

#[test]
fn utc_ut1_roundtrip_is_exact() {
    let utc = UTC::from_ymdhms(2004, 4, 6, 7, 51, 28, 386_000_000_000).unwrap();
    let dut1 = -439_961_000_000;
    let ut1 = utc.try_into_ut1(dut1).unwrap();
    let back = ut1.try_into_utc(dut1).unwrap();
    assert_eq!(back, utc);
}

#[test]
fn tt_ut1_roundtrip_is_exact() {
    let utc = UTC::from_ymdhms(2004, 4, 6, 0, 0, 0, 0).unwrap();
    let tai = TAI::try_from_utc(utc).unwrap();
    let tt = TT::from_tai(tai);
    for dt in [0i64, 67_000_000_000_000, -120_000_000_000, 1, -1] {
        let ut1 = tt.into_ut1(dt);
        let back = ut1.into_tt(dt);
        assert_eq!(back, tt);
    }
}

#[test]
fn tai_tt_offset_is_fixed() {
    let utc = UTC::from_ymdhms(2004, 4, 6, 0, 0, 0, 0).unwrap();
    let tai = TAI::try_from_utc(utc).unwrap();
    let tt = TT::from_tai(tai);
    assert_eq!(tt.0.difference_seconds(tai.0), (32, 184_000_000_000));
    assert_eq!(TT_MINUS_TAI_PS, 32_184_000_000_000);
    let back = TAI::from_tt(tt);
    assert_eq!(back, tai);
}

#[test]
fn tai_ut1_offset_applies() {
    let utc = UTC::from_ymdhms(2004, 4, 6, 0, 0, 0, 0).unwrap();
    let tai = TAI::try_from_utc(utc).unwrap();
    let ut1 = tai.into_ut1(-29_000_000_000_000);
    assert_eq!(tai.0.difference_seconds(ut1.0), (29, 0));
    assert_eq!(ut1.into_tai(-29_000_000_000_000), tai);
}

#[test]
fn tdb_offset_applies_both_ways() {
    let utc = UTC::from_ymdhms(2004, 4, 6, 0, 0, 0, 0).unwrap();
    let tt = TT::from_tai(TAI::try_from_utc(utc).unwrap());
    let dtr = -1_280_000_000;
    let tdb = tt.into_tdb(dtr);
    let back = tdb.into_tt(dtr);
    assert_eq!(back, tt);
    assert_eq!(tt.0.difference_seconds(tdb.0), (0, 1_280_000_000));
}

#[test]
fn tcg_linear_rate_regression() {
    // TT 2006-01-15T21:24:37.5 exactly, against the ELG rate applied in
    // integer arithmetic.
    let tt = TT(Instant { day: 53750, ps: 77_077_500_000_000_000 });
    let tcg = TCG::from_tt(tt);
    assert_eq!(tcg.0.day, 53750);
    assert_eq!(tcg.0.ps, 77_078_138_690_451_193);
    assert_eq!(TT::from_tcg(tcg), tt);
}

#[test]
fn tcb_linear_rate_regression() {
    let tcb = TCB(Instant { day: 53750, ps: 77_077_500_000_000_000 });
    let tdb = TDB::from_tcb(tcb);
    assert_eq!(tdb.0.day, 53750);
    assert_eq!(tdb.0.ps, 77_063_290_421_759_417);
    assert_eq!(TCB::from_tdb(tdb), tcb);
}

#[test]
fn coordinate_scales_before_their_epoch() {
    // Before 1977 the accrued rate terms are negative.
    let tt = TT(Instant { day: 40587, ps: 0 });
    let tcg = TCG::from_tt(tt);
    assert_eq!(tcg.0.day, 40586);
    assert_eq!(tcg.0.ps, 86_399_846_031_074_564);
    assert_eq!(TT::from_tcg(tcg), tt);
    let tcb = TCB(Instant { day: 40587, ps: 0 });
    let tdb = TDB::from_tcb(tcb);
    assert_eq!(tdb.0.day, 40587);
    assert_eq!(tdb.0.ps, 3_425_417_695_433);
}

#[test]
fn conversions_are_deterministic() {
    let utc = UTC::from_ymdhms(2004, 4, 6, 7, 51, 28, 386_000_000_000).unwrap();
    let a = TAI::try_from_utc(utc).unwrap();
    let b = TAI::try_from_utc(utc).unwrap();
    assert_eq!(a, b);
    let t1 = TCG::from_tt(TT::from_tai(a));
    let t2 = TCG::from_tt(TT::from_tai(b));
    assert_eq!(t1, t2);
}

#[test]
fn get_mjd_composes_the_graph() {
    let (tt, ut1) = get_mjd(2004, 4, 6, 7, 51, 28, 386_000_000_000, -439_961_000_000).unwrap();
    let utc = UTC::from_ymdhms(2004, 4, 6, 7, 51, 28, 386_000_000_000).unwrap();
    // TT is 32 leap seconds plus the fixed offset ahead of this UTC day.
    assert_eq!(tt.0.difference_seconds(utc.0), (64, 184_000_000_000));
    assert_eq!(utc.0.difference_seconds(ut1.0), (0, 439_961_000_000));
    assert!(get_mjd(2004, 13, 6, 7, 51, 28, 0, 0).is_none());
    assert!(get_mjd(2004, 4, 6, 25, 51, 28, 0, 0).is_none());
    assert!(get_mjd(1950, 1, 1, 0, 0, 0, 0, 0).is_none());
}
