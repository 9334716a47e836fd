//! Rendering numbers, bytes and timestamps, and the arena the texts end up in.

use reldex_ffi::format::{
    format_bytes_into, format_number_into, format_timestamp_into, ReldexBytesStyle,
    ReldexFormatOptions, ReldexTimestampStyle, Resolved,
};

fn format_number(canonical: &str, options: &Resolved<'_>) -> String {
    let mut out = String::new();
    let mut digits = Vec::new();
    format_number_into(&mut out, canonical, options, &mut digits);
    out
}

fn format_bytes(bytes: &[u8], options: &Resolved<'_>) -> String {
    let mut out = String::new();
    format_bytes_into(&mut out, bytes, options);
    out
}

fn format_timestamp(canonical: &str, options: &Resolved<'_>) -> String {
    let mut out = String::new();
    format_timestamp_into(&mut out, canonical, options);
    out
}

fn options() -> Resolved<'static> {
    Resolved {
        decimal: '.',
        grouping: None,
        grouping_size: 3,
        timestamp_style: ReldexTimestampStyle::Iso8601 as i32,
        bytes_upper: true,
        max_fraction_digits: None,
        max_bytes: 32,
        null_text: "",
        taken_text: "[LOB]",
    }
}

#[test]
fn grouping_and_separators_come_from_the_caller() {
    let mut settings = options();
    settings.grouping = Some(',');
    assert_eq!(format_number("1234567.25", &settings), "1,234,567.25");
    settings.decimal = ',';
    settings.grouping = Some('.');
    assert_eq!(format_number("1234567.25", &settings), "1.234.567,25");
    settings.grouping = None;
    assert_eq!(format_number("-0.5", &settings), "-0,5");
    assert_eq!(format_number("1500", &settings), "1500");
}

#[test]
fn a_fraction_limit_rounds_rather_than_truncating() {
    let mut settings = options();
    settings.max_fraction_digits = Some(1);
    assert_eq!(format_number("0.19", &settings), "0.2");
    assert_eq!(format_number("-0.19", &settings), "-0.2");
    assert_eq!(format_number("9.99", &settings), "10");
    assert_eq!(format_number("0.14", &settings), "0.1");
    settings.max_fraction_digits = Some(2);
    assert_eq!(format_number("1.005", &settings), "1.01");
    assert_eq!(
        format_number("1.2", &settings),
        "1.2",
        "shorter is untouched"
    );
}

#[test]
fn a_value_that_is_not_a_plain_decimal_is_passed_through() {
    let settings = options();
    assert_eq!(format_number("inf", &settings), "inf");
    assert_eq!(format_number("NaN", &settings), "NaN");
}

#[test]
fn bytes_and_timestamps_follow_the_style() {
    let mut settings = options();
    assert_eq!(format_bytes(&[0x0a, 0xff], &settings), "0AFF");
    settings.bytes_upper = false;
    assert_eq!(format_bytes(&[0x0a, 0xff], &settings), "0aff");
    settings.max_bytes = 1;
    assert_eq!(format_bytes(&[0x0a, 0xff], &settings), "0a\u{2026}");

    let canonical = "2026-01-02T13:45:30+07:00";
    assert_eq!(format_timestamp(canonical, &settings), canonical);
    settings.timestamp_style = ReldexTimestampStyle::Iso8601Space as i32;
    assert_eq!(
        format_timestamp(canonical, &settings),
        "2026-01-02 13:45:30+07:00"
    );
    settings.timestamp_style = ReldexTimestampStyle::DateOnly as i32;
    assert_eq!(format_timestamp(canonical, &settings), "2026-01-02");
}

#[test]
fn the_default_options_are_the_documented_ones() {
    let defaults = ReldexFormatOptions::default();
    let resolved = defaults.resolve();
    assert_eq!(resolved.decimal, '.');
    assert!(resolved.grouping.is_none());
    assert!(resolved.bytes_upper);
    assert_eq!(resolved.max_bytes, 32);
    assert!(resolved.max_fraction_digits.is_none());
    assert_eq!(defaults.bytes_style, ReldexBytesStyle::HexUpper as i32);
}
