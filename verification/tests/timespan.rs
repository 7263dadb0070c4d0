use rebootreminder::utils::timespan::{format_timespan, parse_timespan, TimespanError};
use std::time::Duration;

#[test]
fn test_parse_timespan() {
    // Test seconds
    assert_eq!(parse_timespan("30s").unwrap(), Duration::from_secs(30).as_secs());
    assert_eq!(parse_timespan("45S").unwrap(), Duration::from_secs(45).as_secs());

    // Test minutes
    assert_eq!(parse_timespan("30m").unwrap(), Duration::from_secs(30 * 60).as_secs());
    assert_eq!(parse_timespan("45M").unwrap(), Duration::from_secs(45 * 60).as_secs());

    // Test hours
    assert_eq!(parse_timespan("2h").unwrap(), Duration::from_secs(2 * 60 * 60).as_secs());
    assert_eq!(parse_timespan("3H").unwrap(), Duration::from_secs(3 * 60 * 60).as_secs());

    // Test combined
    assert_eq!(parse_timespan("1h30m").unwrap(), Duration::from_secs(90 * 60).as_secs());
    assert_eq!(parse_timespan("2H15M").unwrap(), Duration::from_secs(135 * 60).as_secs());
    assert_eq!(parse_timespan("1h30m15s").unwrap(), Duration::from_secs(90 * 60 + 15).as_secs());
    assert_eq!(parse_timespan("1h15s").unwrap(), Duration::from_secs(60 * 60 + 15).as_secs());
    assert_eq!(parse_timespan("30m15s").unwrap(), Duration::from_secs(30 * 60 + 15).as_secs());

    // Test without unit (should default to seconds)
    assert_eq!(parse_timespan("30").unwrap(), Duration::from_secs(30).as_secs());

    // Test invalid
    assert!(parse_timespan("invalid").is_err());
    assert!(parse_timespan("30x").is_err());
}

#[test]
fn test_format_timespan() {
    // Test minutes
    assert_eq!(format_timespan(Duration::from_secs(30 * 60).as_secs()), "30m");
    assert_eq!(format_timespan(Duration::from_secs(45 * 60).as_secs()), "45m");

    // Test hours
    assert_eq!(format_timespan(Duration::from_secs(2 * 60 * 60).as_secs()), "2h");
    assert_eq!(format_timespan(Duration::from_secs(3 * 60 * 60).as_secs()), "3h");

    // Test combined
    assert_eq!(format_timespan(Duration::from_secs(90 * 60).as_secs()), "1h30m");
    assert_eq!(format_timespan(Duration::from_secs(135 * 60).as_secs()), "2h15m");
}

#[test]
fn parse_timespan_names_each_error() {
    assert_eq!(parse_timespan("30x"), Err(TimespanError::InvalidCharacter('x')));
    assert_eq!(parse_timespan("invalid"), Err(TimespanError::InvalidCharacter('i')));
    assert_eq!(parse_timespan("h"), Err(TimespanError::MissingNumber));
    assert_eq!(parse_timespan("1hm"), Err(TimespanError::MissingNumber));
    assert_eq!(parse_timespan("99999999999999999999s"), Err(TimespanError::NumberTooLarge));
    assert_eq!(parse_timespan("99999999999999999999"), Err(TimespanError::NumberTooLarge));
    assert_eq!(parse_timespan("18446744073709551615h"), Err(TimespanError::Overflow));
    assert_eq!(parse_timespan("18446744073709551615s1"), Err(TimespanError::Overflow));
    // the first fault from the left is the one reported
    assert_eq!(parse_timespan("99999999999999999999x"), Err(TimespanError::InvalidCharacter('x')));
}

#[test]
fn parse_timespan_edge_cases() {
    assert_eq!(parse_timespan(""), Ok(0));
    assert_eq!(parse_timespan("0"), Ok(0));
    assert_eq!(parse_timespan("007m"), Ok(7 * 60));
    assert_eq!(parse_timespan("1h1h"), Ok(2 * 3600));
    assert_eq!(parse_timespan("15s1h"), Ok(3600 + 15));
    assert_eq!(parse_timespan("18446744073709551615"), Ok(u64::MAX));
    assert_eq!(parse_timespan("18446744073709551615s"), Ok(u64::MAX));
}

#[test]
fn format_timespan_leaves_out_zero_parts() {
    assert_eq!(format_timespan(0), "0s");
    assert_eq!(format_timespan(59), "59s");
    assert_eq!(format_timespan(60), "1m");
    assert_eq!(format_timespan(61), "1m1s");
    assert_eq!(format_timespan(3600), "1h");
    assert_eq!(format_timespan(3601), "1h1s");
    assert_eq!(format_timespan(3660), "1h1m");
    assert_eq!(format_timespan(3661), "1h1m1s");
    assert_eq!(format_timespan(90 * 60 + 15), "1h30m15s");
    assert_eq!(format_timespan(u64::MAX), "5124095576030431h15s");
}

#[test]
fn format_then_parse_gives_the_seconds_back() {
    let samples: [u64; 12] =
        [0, 1, 59, 60, 61, 3599, 3600, 3601, 86399, 86400, 1_000_000_007, u64::MAX];
    for secs in samples {
        assert_eq!(parse_timespan(&format_timespan(secs)), Ok(secs));
    }
}
