use pomo::duration::{format_clock, format_duration, parse_duration};
use pomo::duration_from_minutes;

#[test]
fn parse_minutes_suffix() {
    assert_eq!(parse_duration("25m"), Ok(1500));
}

#[test]
fn parse_minutes_and_seconds() {
    assert_eq!(parse_duration("1m30s"), Ok(90));
}

#[test]
fn parse_bare_integer_is_minutes() {
    assert_eq!(parse_duration("45"), Ok(2700));
}

#[test]
fn parse_seconds_suffix() {
    assert_eq!(parse_duration("30s"), Ok(30));
}

#[test]
fn parse_zero_is_error() {
    assert_eq!(
        parse_duration("0m"),
        Err("Duration must be greater than 0".to_string())
    );
    assert_eq!(
        parse_duration("0"),
        Err("Duration must be greater than 0".to_string())
    );
    assert_eq!(
        parse_duration(""),
        Err("Duration must be greater than 0".to_string())
    );
    assert_eq!(
        parse_duration("   "),
        Err("Duration must be greater than 0".to_string())
    );
}

#[test]
fn parse_unknown_unit_is_error() {
    assert_eq!(
        parse_duration("1h"),
        Err("Invalid character in duration. Use formats like: 25m, 30s, 1m30s".to_string())
    );
}

#[test]
fn parse_tolerates_whitespace_between_tokens() {
    assert_eq!(parse_duration(" 2m 3s "), Ok(123));
}

#[test]
fn parse_unit_without_number_is_error() {
    assert_eq!(
        parse_duration("m"),
        Err("Invalid duration format. Use formats like: 25m, 30s, 1m30s".to_string())
    );
    assert_eq!(
        parse_duration("5m3ms"),
        Err("Invalid duration format. Use formats like: 25m, 30s, 1m30s".to_string())
    );
}

#[test]
fn parse_trailing_number_is_error() {
    assert_eq!(
        parse_duration("1m30"),
        Err("Duration must end with 'm' (minutes) or 's' (seconds)".to_string())
    );
}

#[test]
fn parse_is_case_insensitive_and_trimmed() {
    assert_eq!(parse_duration("  25M  "), Ok(1500));
    assert_eq!(parse_duration("1M30S"), Ok(90));
}

#[test]
fn parse_accepts_leading_plus_on_bare_integer() {
    assert_eq!(parse_duration("+5"), Ok(300));
}

#[test]
fn parse_plus_in_unit_form_is_error() {
    assert_eq!(
        parse_duration("+5m"),
        Err("Invalid character in duration. Use formats like: 25m, 30s, 1m30s".to_string())
    );
}

#[test]
fn parse_bare_integer_too_large_falls_to_scanner() {
    assert_eq!(
        parse_duration("99999999999999999999"),
        Err("Duration must end with 'm' (minutes) or 's' (seconds)".to_string())
    );
}

#[test]
fn parse_segment_number_too_large_is_error() {
    assert_eq!(
        parse_duration("99999999999999999999s"),
        Err("Invalid number in duration".to_string())
    );
}

#[test]
fn parse_total_too_large_is_error() {
    assert_eq!(
        parse_duration("18446744073709551615"),
        Err("Invalid number in duration".to_string())
    );
    assert_eq!(
        parse_duration("400000000000000000m"),
        Err("Invalid number in duration".to_string())
    );
}

#[test]
fn parse_repeated_units_accumulate() {
    assert_eq!(parse_duration("1m1m"), Ok(120));
    assert_eq!(parse_duration("90s1m"), Ok(150));
}

#[test]
fn format_whole_minutes() {
    assert_eq!(format_duration(1500), "25 minutes");
    assert_eq!(format_duration(60), "1 minute");
}

#[test]
fn format_minutes_and_seconds() {
    assert_eq!(format_duration(90), "1 minute 30 seconds");
    assert_eq!(format_duration(61), "1 minute 1 second");
}

#[test]
fn format_seconds_only() {
    assert_eq!(format_duration(30), "30 seconds");
    assert_eq!(format_duration(1), "1 second");
    assert_eq!(format_duration(0), "0 seconds");
}

#[test]
fn clock_pads_to_two_digits() {
    assert_eq!(format_clock(90), "01:30");
    assert_eq!(format_clock(0), "00:00");
    assert_eq!(format_clock(59), "00:59");
    assert_eq!(format_clock(6000), "100:00");
}

#[test]
fn minutes_convert_to_seconds() {
    assert_eq!(duration_from_minutes(25), 1500);
    assert_eq!(duration_from_minutes(0), 0);
}
