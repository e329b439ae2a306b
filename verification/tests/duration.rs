use thread_supervisor::duration::{duration_setting, exceeds_digits, parse_timeout, MAX_DIGITS};
use thread_supervisor::outcome::ConfigurationError;

#[test]
fn durations_are_read_as_people_write_them() {
    assert_eq!(parse_timeout("5s"), Ok(5_000));
    assert_eq!(parse_timeout("5sec"), Ok(5_000));
    assert_eq!(parse_timeout("2h 37min"), Ok(9_420_000));
    assert_eq!(parse_timeout("1m 30s"), Ok(90_000));
    assert_eq!(parse_timeout("32ms"), Ok(32));
    assert_eq!(parse_timeout("1day"), Ok(86_400_000));
}

#[test]
fn zero_is_read_as_zero() {
    assert_eq!(parse_timeout("0"), Ok(0));
    assert_eq!(parse_timeout("0s"), Ok(0));
}

#[test]
fn started_millisecond_counts_as_a_whole_one() {
    assert_eq!(parse_timeout("1ns"), Ok(1));
    assert_eq!(parse_timeout("1500us"), Ok(2));
    assert_eq!(parse_timeout("1ms 1ns"), Ok(2));
    assert_eq!(parse_timeout("1000us"), Ok(1));
}

#[test]
fn text_that_names_no_duration_is_refused() {
    assert_eq!(parse_timeout(""), Err(ConfigurationError::InvalidDuration));
    assert_eq!(parse_timeout("soon"), Err(ConfigurationError::InvalidDuration));
    assert_eq!(parse_timeout("5"), Err(ConfigurationError::InvalidDuration));
    assert_eq!(parse_timeout("5 parsecs"), Err(ConfigurationError::InvalidDuration));
    assert_eq!(parse_timeout("-5s"), Err(ConfigurationError::InvalidDuration));
}

#[test]
fn duration_that_the_clock_cannot_count_is_refused() {
    assert_eq!(parse_timeout("584554050years"), Err(ConfigurationError::InvalidDuration));
    assert_eq!(parse_timeout("584000000years"), Ok(18_429_638_400_000_000_000));
}

#[test]
fn setting_of_a_parsed_duration() {
    assert_eq!(duration_setting(None), Err(ConfigurationError::InvalidDuration));
    assert_eq!(duration_setting(Some(0)), Ok(0));
    assert_eq!(duration_setting(Some(1)), Ok(1));
    assert_eq!(duration_setting(Some(999_999)), Ok(1));
    assert_eq!(duration_setting(Some(1_000_000)), Ok(1));
    assert_eq!(duration_setting(Some(1_000_001)), Ok(2));
    assert_eq!(duration_setting(Some(5_000_000_000)), Ok(5_000));
    assert_eq!(duration_setting(Some(u64::MAX as u128 * 1_000_000)), Ok(u64::MAX));
    assert_eq!(
        duration_setting(Some(u64::MAX as u128 * 1_000_000 + 1)),
        Err(ConfigurationError::InvalidDuration)
    );
    assert_eq!(duration_setting(Some(u128::MAX)), Err(ConfigurationError::InvalidDuration));
}

#[test]
fn text_with_too_many_digits_is_refused_unread() {
    assert_eq!(
        parse_timeout("18446744073709551615s 1000ms"),
        Err(ConfigurationError::InvalidDuration)
    );
    assert_eq!(
        parse_timeout("18446744073709551615s1000ms"),
        Err(ConfigurationError::InvalidDuration)
    );
    assert_eq!(parse_timeout("100000000000s"), Err(ConfigurationError::InvalidDuration));
    assert_eq!(parse_timeout("1h 30m 15s 250ms 100us 50ns"), Err(ConfigurationError::InvalidDuration));
    assert_eq!(parse_timeout("0.00000000000s"), Err(ConfigurationError::InvalidDuration));
}

#[test]
fn text_with_eleven_digits_is_read() {
    assert_eq!(MAX_DIGITS, 11);
    assert_eq!(parse_timeout("99999999999s"), Ok(99_999_999_999_000));
    assert_eq!(parse_timeout("99999999999ms"), Ok(99_999_999_999));
    assert_eq!(parse_timeout("1year 2months 3days 4h 5m 6s 789ms"), Ok(37_091_538_789));
    assert_eq!(parse_timeout("12345678.125h"), Ok(44_444_441_250_000));
    assert_eq!(parse_timeout("99999999999years"), Err(ConfigurationError::InvalidDuration));
}

#[test]
fn digits_are_counted_in_the_bytes_of_a_text() {
    assert!(!exceeds_digits(b"", 0));
    assert!(exceeds_digits(b"7", 0));
    assert!(!exceeds_digits(b"7", 1));
    assert!(!exceeds_digits(b"1h 30m", 3));
    assert!(exceeds_digits(b"1h 30m", 2));
    assert!(!exceeds_digits("5\u{b5}s \u{663}".as_bytes(), 1));
    assert!(!exceeds_digits(b"/:", 0));
    assert!(exceeds_digits(b"09", 1));
}
