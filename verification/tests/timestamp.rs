use chrono::{DateTime, FixedOffset};
use cloudevents::Timestamp;

fn of_chrono(dt: &DateTime<FixedOffset>) -> Timestamp {
    Timestamp::new(dt.timestamp(), dt.timestamp_subsec_nanos(), dt.offset().local_minus_utc())
        .unwrap()
}

#[test]
fn parse_gives_the_numbers_of_the_instant() {
    let t = Timestamp::parse_from_rfc3339("2018-04-05T17:31:00Z").unwrap();
    assert_eq!(t.timestamp(), 1522949460);
    assert_eq!(t.timestamp_subsec_nanos(), 0);
    assert_eq!(t.offset_seconds(), 0);
    let t = Timestamp::parse_from_rfc3339("1996-12-19T16:39:57.5-08:00").unwrap();
    assert_eq!(t.timestamp(), 851042397);
    assert_eq!(t.timestamp_subsec_nanos(), 500_000_000);
    assert_eq!(t.offset_seconds(), -28800);
}

#[test]
fn parse_agrees_with_chrono() {
    for text in ["2018-04-05T17:31:00Z", "1996-12-19T16:39:57.123456-08:00", "0000-01-01T00:00:00+23:59"] {
        let expected = DateTime::parse_from_rfc3339(text).unwrap();
        assert_eq!(Timestamp::parse_from_rfc3339(text), Some(of_chrono(&expected)));
        assert_eq!(Timestamp::parse_from_rfc3339(text).unwrap().to_rfc3339(), expected.to_rfc3339());
    }
}

#[test]
fn parse_rejects_what_is_no_rfc3339() {
    for text in ["", "yesterday", "2018-04-05", "2018-04-05T17:31:00", "2018-13-05T17:31:00Z", "2018-04-05T17:31:00Z "] {
        assert_eq!(Timestamp::parse_from_rfc3339(text), None);
    }
}

#[test]
fn header_text_has_a_numeric_offset() {
    let t = Timestamp::new(1522949460, 0, 0).unwrap();
    assert_eq!(t.to_rfc3339(), "2018-04-05T17:31:00+00:00");
    let t = Timestamp::new(1522949460, 250_000_000, 7200).unwrap();
    assert_eq!(t.to_rfc3339(), "2018-04-05T19:31:00.250+02:00");
}

#[test]
fn json_text_writes_z_for_utc() {
    let t = Timestamp::new(1522949460, 0, 0).unwrap();
    assert_eq!(t.to_json_text(), "2018-04-05T17:31:00Z");
    let t = Timestamp::new(1522949460, 1, -3600).unwrap();
    assert_eq!(t.to_json_text(), "2018-04-05T16:31:00.000000001-01:00");
}

#[test]
fn json_text_is_read_back() {
    assert_eq!(
        Timestamp::parse_from_json_text("2018-04-05T17:31:00+00:00"),
        Timestamp::new(1522949460, 0, 0)
    );
    assert_eq!(
        Timestamp::parse_from_json_text("2018-04-05T17:31:00Z"),
        Timestamp::new(1522949460, 0, 0)
    );
    assert_eq!(Timestamp::parse_from_json_text("+12345-01-01T00:00:00Z"), None);
    assert_eq!(Timestamp::parse_from_json_text("17:31"), None);
}

#[test]
fn new_accepts_exactly_the_four_digit_years() {
    assert!(Timestamp::new(-62167219200, 0, 0).is_some());
    assert!(Timestamp::new(-62167219201, 0, 0).is_none());
    assert!(Timestamp::new(-62167219201, 0, 1).is_some());
    assert!(Timestamp::new(253402300799, 999_999_999, 0).is_some());
    assert!(Timestamp::new(253402300800, 0, 0).is_none());
    assert!(Timestamp::new(253402300800, 0, -1).is_some());
    assert!(Timestamp::new(i64::MAX, 0, 0).is_none());
    assert!(Timestamp::new(i64::MIN, 0, 0).is_none());
}

#[test]
fn new_accepts_offsets_under_a_day() {
    assert!(Timestamp::new(0, 0, 86399).is_some());
    assert!(Timestamp::new(0, 0, 86400).is_none());
    assert!(Timestamp::new(0, 0, -86399).is_some());
    assert!(Timestamp::new(0, 0, -86400).is_none());
    assert!(Timestamp::new(0, 0, i32::MIN).is_none());
}

#[test]
fn new_accepts_a_leap_second_only_at_the_end_of_a_minute() {
    assert!(Timestamp::new(59, 1_000_000_000, 0).is_some());
    assert!(Timestamp::new(59, 1_999_999_999, 0).is_some());
    assert!(Timestamp::new(59, 2_000_000_000, 0).is_none());
    assert!(Timestamp::new(58, 1_000_000_000, 0).is_none());
    assert!(Timestamp::new(60, 1_000_000_000, 0).is_none());
    assert!(Timestamp::new(-1, 1_000_000_000, 0).is_some());
    assert!(Timestamp::new(-2, 1_000_000_000, 0).is_none());
    assert!(Timestamp::new(-61, 1_500_000_000, 0).is_some());
}

#[test]
fn leap_second_is_read_and_written() {
    let t = Timestamp::parse_from_rfc3339("2016-12-31T23:59:60Z").unwrap();
    assert_eq!(t.timestamp(), 1483228799);
    assert_eq!(t.timestamp_subsec_nanos(), 1_000_000_000);
    assert_eq!(t.to_rfc3339(), "2016-12-31T23:59:60+00:00");
}

#[test]
fn edges_of_the_range_are_written() {
    assert_eq!(
        Timestamp::new(-62167219200, 0, 0).unwrap().to_rfc3339(),
        "0000-01-01T00:00:00+00:00"
    );
    assert_eq!(
        Timestamp::new(253402300799, 0, 0).unwrap().to_json_text(),
        "9999-12-31T23:59:59Z"
    );
    assert_eq!(
        Timestamp::new(253402300799 + 86340, 0, -86340).unwrap().to_rfc3339(),
        "9999-12-31T23:59:59-23:59"
    );
}

#[test]
fn offsets_are_written_to_the_minute() {
    let t = Timestamp::new(0, 0, 3599).unwrap();
    assert_eq!(t.to_rfc3339(), "1970-01-01T00:59:59+01:00");
    assert_ne!(Timestamp::parse_from_rfc3339(&t.to_rfc3339()), Some(t));
}

#[test]
fn equality_is_of_instant_and_offset() {
    let a = Timestamp::parse_from_rfc3339("2018-04-05T17:31:00Z").unwrap();
    let b = Timestamp::parse_from_rfc3339("2018-04-05T19:31:00+02:00").unwrap();
    assert_eq!(a.timestamp(), b.timestamp());
    assert_ne!(a, b);
    assert_eq!(a, Timestamp::parse_from_rfc3339("2018-04-05T17:31:00+00:00").unwrap());
}

#[test]
fn every_corner_of_the_range_is_written() {
    let low = Timestamp::new(-62167219200 - 86340, 0, 86340).unwrap();
    assert_eq!(low.to_rfc3339(), "0000-01-01T00:00:00+23:59");
    assert_eq!(low.to_json_text(), "0000-01-01T00:00:00+23:59");
    assert_eq!(Timestamp::parse_from_rfc3339(&low.to_rfc3339()), Some(low));
    let high = Timestamp::new(253402300799 - 86340, 999_999_999, 86340).unwrap();
    assert_eq!(high.to_rfc3339(), "9999-12-31T23:59:59.999999999+23:59");
    assert_eq!(Timestamp::parse_from_json_text(&high.to_json_text()), Some(high));
    let leap = Timestamp::new(-62167219200 + 59, 1_999_999_999, 0).unwrap();
    assert_eq!(leap.to_rfc3339(), "0000-01-01T00:00:60.999999999+00:00");
    assert_eq!(leap.to_json_text(), "0000-01-01T00:00:60.999999999Z");
    assert_eq!(Timestamp::parse_from_rfc3339(&leap.to_rfc3339()), Some(leap));
    assert_eq!(Timestamp::new(253402300799 + 86399, 1_999_999_999, -86399), None);
    let widest = Timestamp::new(253402300799 + 86399, 999_999_999, -86399).unwrap();
    assert_eq!(widest.to_rfc3339(), "9999-12-31T23:59:59.999999999-24:00");
    let narrow = Timestamp::new(-62167219200 - 86399, 0, 86399).unwrap();
    assert_eq!(narrow.to_json_text(), "0000-01-01T00:00:00+24:00");
}

#[test]
fn leap_second_with_an_offset_of_seconds_is_written() {
    for offset in [30, -30, 86399, -86399, 1, 3601] {
        let t = Timestamp::new(59, 1_500_000_000, offset).unwrap();
        assert!(t.to_rfc3339().starts_with("19"));
        assert!(!t.to_json_text().is_empty());
    }
    assert_eq!(Timestamp::new(59, 1_500_000_000, 60).unwrap().to_rfc3339(), "1970-01-01T00:01:60.500+00:01");
}
