use desktop_toolkit::log::{fallback_dir, log_file_path, log_line};
use desktop_toolkit::text::{decimal_string, equals_ascii_lowercase, parse_u64};

#[test]
fn decimal_formatting() {
    assert_eq!(decimal_string(0), "0");
    assert_eq!(decimal_string(7), "7");
    assert_eq!(decimal_string(10), "10");
    assert_eq!(decimal_string(305), "305");
    assert_eq!(decimal_string(u64::MAX), "18446744073709551615");
}

#[test]
fn parse_u64_matches_std() {
    let cases = [
        "42", "+42", "", "+", "-1", "-", "18446744073709551615", "18446744073709551616", " 1",
        "1 ", "1a", "007", "0", "++1", "99999999999999999999999", "٣",
    ];
    for c in cases {
        assert_eq!(parse_u64(c), c.parse::<u64>().ok(), "input {c:?}");
    }
}

#[test]
fn parse_u64_values() {
    assert_eq!(parse_u64("250"), Some(250));
    assert_eq!(parse_u64("+0"), Some(0));
    assert_eq!(parse_u64("abc"), None);
    assert_eq!(parse_u64("18446744073709551616"), None);
}

#[test]
fn decimal_round_trips_through_parse() {
    for n in [0u64, 1, 9, 10, 99, 1000, 123456789, u64::MAX] {
        assert_eq!(parse_u64(&decimal_string(n)), Some(n));
    }
}

#[test]
fn ascii_case_folding() {
    assert!(equals_ascii_lowercase("TRUE", "true"));
    assert!(equals_ascii_lowercase("YeS", "yes"));
    assert!(!equals_ascii_lowercase("yes ", "yes"));
    assert!(!equals_ascii_lowercase("Ü", "ü"));
    assert!(equals_ascii_lowercase("", ""));
}

#[test]
fn log_line_format() {
    assert_eq!(log_line(1700000000, "latest.json: read OK"), "[1700000000] latest.json: read OK");
    assert_eq!(log_line(0, ""), "[0] ");
}

#[test]
fn log_directory_fallbacks() {
    assert_eq!(fallback_dir(Some("L".to_string()), Some("T".to_string())), "L");
    assert_eq!(fallback_dir(None, Some("T".to_string())), "T");
    assert_eq!(fallback_dir(None, None), "C:\\Temp");
}

#[test]
fn log_file_location() {
    assert_eq!(
        log_file_path("C:\\Users\\me\\AppData\\Local", "my-tool"),
        vec!["C:\\Users\\me\\AppData\\Local", "my-tool", "updater.log"]
    );
}
