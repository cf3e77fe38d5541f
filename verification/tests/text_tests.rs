use image_checker::text::{
    decimal, ends_with, find, find_last, join, matches_at, same_text, signed_decimal, slice,
    starts_with, strip_trailing,
};
use image_checker::models::{parse_datetime, DateTimeConstraint, DateTimeRequest};
use image_checker::time::Timestamp;

#[test]
fn test_decimal() {
    assert_eq!(decimal(0), "0");
    assert_eq!(decimal(7), "7");
    assert_eq!(decimal(10), "10");
    assert_eq!(decimal(10001), "10001");
    assert_eq!(decimal(1234567890), "1234567890");
    assert_eq!(decimal(u64::MAX), "18446744073709551615");
    assert_eq!(signed_decimal(0), "0");
    assert_eq!(signed_decimal(-1), "-1");
    assert_eq!(signed_decimal(42), "42");
    assert_eq!(signed_decimal(i64::MAX), "9223372036854775807");
    assert_eq!(signed_decimal(i64::MIN), "-9223372036854775808");
}

#[test]
fn test_prefix_and_suffix() {
    assert!(starts_with("http://x", "http://"));
    assert!(!starts_with("https://x", "http://"));
    assert!(starts_with("abc", ""));
    assert!(starts_with("", ""));
    assert!(!starts_with("", "a"));
    assert!(!starts_with("ab", "abc"));
    assert!(ends_with("2025Z+1", "Z+1"));
    assert!(!ends_with("2025Z+2", "Z+1"));
    assert!(ends_with("Z+1", "Z+1"));
    assert!(!ends_with("+1", "Z+1"));
    assert!(ends_with("x", ""));
    assert!(matches_at("größe", "öß", 2));
    assert!(!matches_at("größe", "öß", 1));
    assert!(!matches_at("abc", "c", 3));
    assert!(matches_at("abc", "", 3));
    assert!(!matches_at("abc", "", 4));
}

#[test]
fn test_find() {
    assert_eq!(find("s3://bucket", "://"), Some(2));
    assert_eq!(find("a://b://c", "://"), Some(1));
    assert_eq!(find("://", "://"), Some(0));
    assert_eq!(find("no scheme", "://"), None);
    assert_eq!(find(":/", "://"), None);
    assert_eq!(find("", ""), Some(0));
    assert_eq!(find("abc", ""), Some(0));
    assert_eq!(find("", "a"), None);
    assert_eq!(find("größe.jpg", "."), Some(5));
    assert_eq!(find("aab", "ab"), Some(1));
}

#[test]
fn test_same_text() {
    assert!(same_text("", ""));
    assert!(same_text("S", "S"));
    assert!(!same_text("S", "s"));
    assert!(!same_text("S", "SS"));
    assert!(!same_text("SS", "S"));
    assert!(same_text("größe", "größe"));
}

#[test]
fn test_slice_join_strip() {
    assert_eq!(slice("größe.jpg", 2, 5), "öße");
    assert_eq!(slice("abc", 0, 3), "abc");
    assert_eq!(slice("abc", 3, 3), "");
    assert_eq!(join("", ""), "");
    assert_eq!(join("a", "b"), "ab");
    assert_eq!(strip_trailing("N\0\0", '\0'), "N");
    assert_eq!(strip_trailing("\0\0", '\0'), "");
    assert_eq!(strip_trailing("", '\0'), "");
    assert_eq!(strip_trailing("1.500", '0'), "1.5");
    assert_eq!(strip_trailing("0a0b", '0'), "0a0b");
    assert_eq!(strip_trailing("ZZaZZ", 'Z'), "ZZa");
}

#[test]
fn test_timestamp_order() {
    let t = |secs: i64, nanos: u32, offset: i32| Timestamp { secs, nanos, offset };
    assert!(t(1, 0, 0).is_before(&t(2, 0, 0)));
    assert!(t(1, 5, 0).is_before(&t(1, 6, 0)));
    assert!(!t(1, 5, 0).is_before(&t(1, 5, 3600)));
    assert!(!t(2, 0, 0).is_before(&t(1, 999_999_999, 0)));
    assert!(t(-5, 0, 0).is_before(&t(-4, 0, 0)));
    assert!(t(1, 5, 0).is_not_after(&t(1, 5, 3600)));
    assert!(t(1, 5, 0).is_not_after(&t(1, 6, 0)));
    assert!(!t(1, 6, 0).is_not_after(&t(1, 5, 0)));
    assert!(!t(2, 0, 0).is_not_after(&t(1, 0, 0)));
}

#[test]
fn test_timestamp_reading_and_writing() {
    let t = parse_datetime("2025-08-01T15:23:00+01:00").unwrap();
    assert_eq!((t.secs, t.nanos, t.offset), (1754058180, 0, 3600));
    let fraction = parse_datetime("1969-12-31T23:59:59.25-00:30").unwrap();
    assert_eq!(
        (fraction.secs, fraction.nanos, fraction.offset),
        (1799, 250_000_000, -1800)
    );
    assert!(parse_datetime("2025-08-01T15:23:00").is_err());
    assert!(parse_datetime("2025-08-01").is_err());
    assert!(parse_datetime("").is_err());
    assert_eq!(
        t.format("%Y-%m-%d %H:%M:%S %z").unwrap(),
        "2025-08-01 15:23:00 +0100"
    );
    assert_eq!(t.format("%H:%M").unwrap(), "15:23");
    assert!(t.format("%Q").is_none());
    assert!(Timestamp { secs: i64::MAX, nanos: 0, offset: 0 }
        .format("%Y")
        .is_none());
    assert!(Timestamp { secs: 0, nanos: 0, offset: 86400 }
        .format("%Y")
        .is_none());
}

#[test]
fn test_timestamp_arithmetic() {
    let window = |start: Option<&str>, end: Option<&str>, minutes: u64| {
        DateTimeConstraint::try_from(DateTimeRequest {
            start: start.map(|s| s.to_string()),
            end: end.map(|s| s.to_string()),
            duration: Some(minutes),
        })
    };
    let t = parse_datetime("2025-08-01T15:23:00+01:00").unwrap();
    let later = window(Some("2025-08-01T15:23:00+01:00"), None, 10).unwrap().end_time;
    assert_eq!((later.secs, later.nanos, later.offset), (t.secs + 600, 0, 3600));
    let earlier = window(None, Some("2025-08-01T15:23:00+01:00"), 10).unwrap().start_time;
    assert_eq!((earlier.secs, earlier.offset), (t.secs - 600, 3600));
    // across midnight and the end of the year
    let new_year = window(Some("2025-12-31T23:59:30.5-05:00"), None, 1).unwrap().end_time;
    assert_eq!(
        new_year.format("%Y-%m-%d %H:%M:%S%.f %z").unwrap(),
        "2026-01-01 00:00:30.500 -0500"
    );
    // a leap second is kept apart from the second after it
    let leap = window(Some("2016-12-31T23:59:60Z"), None, 0).unwrap();
    assert_eq!(leap.start_time.nanos, 1_000_000_000);
    assert_eq!(leap.start_time.secs % 60, 59);
    assert!(window(Some("2025-08-01T15:23:00+01:00"), None, i64::MAX as u64).is_err());
}

#[test]
fn test_find_last() {
    assert_eq!(find_last("a.tar.gz", '.'), Some(5));
    assert_eq!(find_last(".hidden", '.'), Some(0));
    assert_eq!(find_last("noext", '.'), None);
    assert_eq!(find_last("", '.'), None);
    assert_eq!(find_last("größe.jpg", '.'), Some(5));
    assert_eq!(find_last("..", '.'), Some(1));
}
