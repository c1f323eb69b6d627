//! Rendering tests: decimal and boolean parameter forms, RFC 3339
//! timestamps, commercial lengths and authorization header values.

use twitch_helix::auth::{bearer_header_value, oauth_header_value};
use twitch_helix::render::{render_bool, render_usize};
use twitch_helix::request::channels_commercial::Length;
use twitch_helix::timestamp::Timestamp;

#[test]
fn decimal_rendering() {
    assert_eq!(render_usize(0), "0");
    assert_eq!(render_usize(7), "7");
    assert_eq!(render_usize(30), "30");
    assert_eq!(render_usize(100), "100");
    assert_eq!(render_usize(98765), "98765");
}

#[test]
fn boolean_rendering() {
    assert_eq!(render_bool(true), "true");
    assert_eq!(render_bool(false), "false");
}

#[test]
fn commercial_lengths() {
    assert_eq!(Length::Seconds30.secs(), 30);
    assert_eq!(Length::Seconds60.secs(), 60);
    assert_eq!(Length::Seconds90.secs(), 90);
    assert_eq!(Length::Seconds120.secs(), 120);
    assert_eq!(Length::Seconds150.secs(), 150);
    assert_eq!(Length::Seconds180.secs(), 180);
}

#[test]
fn rfc3339_rendering() {
    let t = Timestamp::new(2020, 7, 23, 14, 49, 33).unwrap();
    assert_eq!(t.to_rfc3339(), "2020-07-23T14:49:33+00:00");
    assert_eq!(t.year, 2020);
    assert_eq!(t.month, 7);
    assert_eq!(t.day, 23);
    assert_eq!(t.hour, 14);
    assert_eq!(t.minute, 49);
    assert_eq!(t.second, 33);

    let padded = Timestamp::new(33, 1, 2, 3, 4, 5).unwrap();
    assert_eq!(padded.to_rfc3339(), "0033-01-02T03:04:05+00:00");
}

#[test]
fn timestamp_rejects_out_of_range_fields() {
    assert!(Timestamp::new(2020, 0, 1, 0, 0, 0).is_none());
    assert!(Timestamp::new(2020, 13, 1, 0, 0, 0).is_none());
    assert!(Timestamp::new(2020, 1, 0, 0, 0, 0).is_none());
    assert!(Timestamp::new(2020, 1, 32, 0, 0, 0).is_none());
    assert!(Timestamp::new(2020, 1, 1, 24, 0, 0).is_none());
    assert!(Timestamp::new(2020, 1, 1, 0, 60, 0).is_none());
    assert!(Timestamp::new(2020, 1, 1, 0, 0, 60).is_none());
    assert!(Timestamp::new(10000, 1, 1, 0, 0, 0).is_none());
    assert!(Timestamp::new(9999, 12, 31, 23, 59, 59).is_some());
}

#[test]
fn authorization_header_values() {
    assert_eq!(oauth_header_value("tok3n"), "OAuth tok3n");
    assert_eq!(bearer_header_value("tok3n"), "Bearer tok3n");
}
