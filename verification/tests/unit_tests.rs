use process_logger::ConfigError;
use process_logger::RunConfig;
use process_logger::format_hundredths;
use process_logger::header_row;
use process_logger::parse_u64;
use process_logger::u64_to_string;

#[test]
fn test_write_header() {
    let header = header_row();
    let line = header.lines().next().expect("No header found");
    assert_eq!(line, "Timestamp,PID,Process Name,CPU Usage (%),Memory Usage (%)");
    assert_eq!(header, "Timestamp,PID,Process Name,CPU Usage (%),Memory Usage (%)\n");
}

#[test]
fn test_config_from_args() {
    let config = RunConfig::from_args("2", "test_output.csv", "120")
        .expect("Failed to parse config from args");
    assert_eq!(config.interval_seconds, 2);
    assert_eq!(config.output_path, "test_output.csv");
    assert_eq!(config.max_duration_seconds, 120);
}

#[test]
fn test_config_rejects_bad_interval() {
    let r = RunConfig::from_args("abc", "out.csv", "60");
    assert!(matches!(r, Err(ConfigError::InvalidInterval)));
}

#[test]
fn test_config_rejects_bad_duration() {
    let r = RunConfig::from_args("1", "out.csv", "12x");
    assert!(matches!(r, Err(ConfigError::InvalidDuration)));
}

#[test]
fn test_config_rejects_empty_and_overflowing_numbers() {
    assert!(matches!(RunConfig::from_args("", "o", "1"), Err(ConfigError::InvalidInterval)));
    assert!(matches!(
        RunConfig::from_args("1", "o", "99999999999999999999"),
        Err(ConfigError::InvalidDuration)
    ));
}

#[test]
fn test_parse_u64_values() {
    assert_eq!(parse_u64("0"), Some(0));
    assert_eq!(parse_u64("120"), Some(120));
    assert_eq!(parse_u64("18446744073709551615"), Some(u64::MAX));
    assert_eq!(parse_u64("18446744073709551616"), None);
    assert_eq!(parse_u64(""), None);
    assert_eq!(parse_u64("1a"), None);
    assert_eq!(parse_u64("-1"), None);
}

#[test]
fn test_u64_to_string_values() {
    assert_eq!(u64_to_string(0), "0");
    assert_eq!(u64_to_string(7), "7");
    assert_eq!(u64_to_string(1234), "1234");
    assert_eq!(u64_to_string(u64::MAX), "18446744073709551615");
}

#[test]
fn test_parse_render_round_trip() {
    for n in [0u64, 1, 9, 10, 99, 100, 4096, u64::MAX] {
        assert_eq!(parse_u64(&u64_to_string(n)), Some(n));
    }
}

#[test]
fn test_format_hundredths_values() {
    assert_eq!(format_hundredths(0), "0.00");
    assert_eq!(format_hundredths(5), "0.05");
    assert_eq!(format_hundredths(50), "0.50");
    assert_eq!(format_hundredths(123), "1.23");
    assert_eq!(format_hundredths(10000), "100.00");
    assert_eq!(format_hundredths(12345), "123.45");
}
