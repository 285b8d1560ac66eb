use data_loader_rust::records::{lookback_start, Timestamp, LOOKBACK_DAYS};

fn text_of(secs: i64, nanos: u32) -> Option<String> {
    Timestamp::new(secs, nanos).map(|t| t.to_rfc3339())
}

#[test]
fn epoch_renders_with_utc_offset() {
    assert_eq!(text_of(0, 0), Some("1970-01-01T00:00:00+00:00".to_string()));
}

#[test]
fn instants_render_as_rfc_3339() {
    assert_eq!(
        text_of(1302796849, 0),
        Some("2011-04-14T16:00:49+00:00".to_string())
    );
    assert_eq!(
        text_of(1709251199, 0),
        Some("2024-02-29T23:59:59+00:00".to_string())
    );
    assert_eq!(
        text_of(-1, 0),
        Some("1969-12-31T23:59:59+00:00".to_string())
    );
    assert_eq!(
        text_of(253402300799, 0),
        Some("9999-12-31T23:59:59+00:00".to_string())
    );
}

#[test]
fn fractions_render_in_groups_of_three_digits() {
    assert_eq!(
        text_of(0, 500_000_000),
        Some("1970-01-01T00:00:00.500+00:00".to_string())
    );
    assert_eq!(
        text_of(0, 1_000),
        Some("1970-01-01T00:00:00.000001+00:00".to_string())
    );
    assert_eq!(
        text_of(0, 1),
        Some("1970-01-01T00:00:00.000000001+00:00".to_string())
    );
}

#[test]
fn instants_outside_the_calendar_are_refused() {
    assert_eq!(Timestamp::new(i64::MAX, 0), None);
    assert_eq!(Timestamp::new(i64::MIN, 0), None);
    assert_eq!(Timestamp::new(0, 2_000_000_000), None);
    assert_eq!(Timestamp::new(0, 1_000_000_000), None);
}

#[test]
fn parts_are_kept() {
    let t = Timestamp::new(1700000000, 123).expect("a representable instant");
    assert_eq!(t.unix_seconds(), 1700000000);
    assert_eq!(t.subsec_nanos(), 123);
}

#[test]
fn window_starts_360_days_back() {
    assert_eq!(LOOKBACK_DAYS, 360);
    let now = Timestamp::new(1700000000, 250_000_000).expect("a representable instant");
    let start = lookback_start(now).expect("a representable instant");
    assert_eq!(start.unix_seconds(), 1700000000 - 31_104_000);
    assert_eq!(start.subsec_nanos(), 250_000_000);
    assert_eq!(start.to_rfc3339(), "2022-11-19T22:13:20.250+00:00");
}

#[test]
fn days_earlier_counts_whole_days() {
    let t = Timestamp::new(86_400, 0).expect("a representable instant");
    assert_eq!(t.days_earlier(0), Some(t));
    assert_eq!(
        t.days_earlier(1).map(|x| x.to_rfc3339()),
        Some("1970-01-01T00:00:00+00:00".to_string())
    );
    assert_eq!(
        t.days_earlier(2).map(|x| x.unix_seconds()),
        Some(-86_400)
    );
}

#[test]
fn window_before_the_calendar_has_no_start() {
    let t = Timestamp::new(0, 0).expect("a representable instant");
    assert_eq!(t.days_earlier(u32::MAX), None);
}

#[test]
fn every_instant_of_the_four_digit_years_is_held() {
    assert_eq!(
        text_of(-62_167_219_200, 0),
        Some("0000-01-01T00:00:00+00:00".to_string())
    );
    assert_eq!(
        text_of(253_402_300_799, 999_999_999),
        Some("9999-12-31T23:59:59.999999999+00:00".to_string())
    );
    assert_eq!(
        text_of(-62_135_596_800, 0),
        Some("0001-01-01T00:00:00+00:00".to_string())
    );
    for secs in [-62_167_219_200i64, -1, 0, 951_782_400, 4_102_444_800, 253_402_300_799] {
        for nanos in [0u32, 1, 999_999_999] {
            assert!(Timestamp::new(secs, nanos).is_some());
        }
    }
}

#[test]
fn years_beyond_four_digits_are_signed() {
    assert_eq!(
        text_of(253_402_300_800, 0),
        Some("+10000-01-01T00:00:00+00:00".to_string())
    );
    assert_eq!(
        text_of(-62_167_219_201, 0),
        Some("-0001-12-31T23:59:59+00:00".to_string())
    );
}
