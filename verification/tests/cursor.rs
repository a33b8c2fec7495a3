use base64::{engine::general_purpose, Engine};
use chrono::{Timelike, Utc};
use iam_platform::cursor::{decode_cursor, encode_cursor};
use iam_platform::error::AppError;
use iam_platform::time::{Timestamp, MAX_UNIX_SECONDS, MIN_UNIX_SECONDS};

fn stamp(dt: chrono::DateTime<Utc>) -> Timestamp {
    Timestamp::new(dt.timestamp(), dt.timestamp_subsec_nanos()).unwrap()
}

#[test]
fn test_encode_decode_cursor_roundtrip() {
    let now = Utc::now();
    let now = now.with_nanosecond(0).unwrap();

    let encode = encode_cursor(stamp(now));
    let decode = decode_cursor(&encode).unwrap();

    assert_eq!(stamp(now), decode);
}

#[test]
fn test_decode_invalid_cursor_fails() {
    let res = decode_cursor("this is not base_64");

    assert!(res.is_err());
}

#[test]
fn test_decode_valid_base64_but_invalid_date_fails() {
    let encode = general_purpose::STANDARD.encode("not-a-date");
    let res = decode_cursor(&encode);
    assert!(res.is_err());
}

#[test]
fn test_different_timestamps_produce_different_cursors() {
    let t1 = Utc::now();
    let t2 = t1 + chrono::Duration::seconds(1);

    let c1 = encode_cursor(stamp(t1));
    let c2 = encode_cursor(stamp(t2));

    assert_ne!(c1, c2);
}

#[test]
fn cursor_is_base64_of_rfc3339_text() {
    let t = Timestamp::new(1_700_000_000, 0).unwrap();
    let c = encode_cursor(t);
    assert_eq!(c, general_purpose::STANDARD.encode("2023-11-14T22:13:20+00:00"));
}

#[test]
fn cursor_round_trip_keeps_nanoseconds() {
    let t = Timestamp::new(-1_000_000, 123_456_789).unwrap();
    assert_eq!(decode_cursor(&encode_cursor(t)).unwrap(), t);
}

#[test]
fn cursor_errors_are_empty_bad_requests() {
    let bad_utf8 = general_purpose::STANDARD.encode([0xffu8, 0xfe]);
    match decode_cursor(&bad_utf8) {
        Err(AppError::BadRequest(m)) => assert_eq!(m, ""),
        other => panic!("unexpected {:?}", other),
    }
}

#[test]
fn cursor_of_an_offset_time_reads_as_utc() {
    let c = general_purpose::STANDARD.encode("2024-01-01T02:00:00+02:00");
    let t = decode_cursor(&c).unwrap();
    assert_eq!(t, Timestamp::new(1_704_067_200, 0).unwrap());
}

#[test]
fn timestamps_outside_the_calendar_are_refused() {
    assert!(Timestamp::new(i64::MAX, 0).is_none());
    assert!(Timestamp::new(0, 1_000_000_000).is_none());
    assert!(Timestamp::new(59, 1_500_000_000).is_some());
    assert!(Timestamp::new(-1, 1_500_000_000).is_some());
    assert!(Timestamp::new(-2, 1_500_000_000).is_none());
}

#[test]
fn timestamp_bounds_are_chronos_bounds() {
    assert_eq!(chrono::DateTime::<Utc>::MIN_UTC.timestamp(), MIN_UNIX_SECONDS);
    assert_eq!(chrono::DateTime::<Utc>::MAX_UTC.timestamp(), MAX_UNIX_SECONDS);
    assert!(Timestamp::new(MIN_UNIX_SECONDS, 0).is_some());
    assert!(Timestamp::new(MIN_UNIX_SECONDS - 1, 0).is_none());
    assert!(Timestamp::new(MAX_UNIX_SECONDS, 999_999_999).is_some());
    assert!(Timestamp::new(MAX_UNIX_SECONDS + 1, 0).is_none());
}

#[test]
fn distant_instants_have_distinct_cursors() {
    let last = Timestamp::new(MAX_UNIX_SECONDS, 0).unwrap();
    let before = Timestamp::new(MAX_UNIX_SECONDS - 1, 0).unwrap();
    assert_ne!(encode_cursor(last), encode_cursor(before));
    let first = Timestamp::new(MIN_UNIX_SECONDS, 0).unwrap();
    let after = Timestamp::new(MIN_UNIX_SECONDS, 1).unwrap();
    assert_ne!(encode_cursor(first), encode_cursor(after));
    let leap = Timestamp::new(59, 1_000_000_000).unwrap();
    let next_minute = Timestamp::new(60, 0).unwrap();
    assert_ne!(encode_cursor(leap), encode_cursor(next_minute));
}
