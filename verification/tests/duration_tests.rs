use valeriyya::duration::{checked_string_to_sec, parse_i64, seconds_from_captures, string_to_sec};

#[test]
fn hours_and_minutes_are_summed() {
    assert_eq!(string_to_sec("1h30m"), 5400);
}

#[test]
fn each_unit_has_its_length() {
    assert_eq!(string_to_sec("1y"), 31_557_600);
    assert_eq!(string_to_sec("2month"), 5_184_000);
    assert_eq!(string_to_sec("1w"), 604_800);
    assert_eq!(string_to_sec("2d"), 172_800);
    assert_eq!(string_to_sec("3h"), 10_800);
    assert_eq!(string_to_sec("10m"), 600);
    assert_eq!(string_to_sec("45s"), 45);
}

#[test]
fn spaced_month_amount_is_read() {
    assert_eq!(string_to_sec("3 months"), 7_776_000);
}

#[test]
fn text_without_units_is_zero_seconds() {
    assert_eq!(string_to_sec("hello"), 0);
    assert_eq!(string_to_sec(""), 0);
}

#[test]
fn all_units_together() {
    assert_eq!(
        string_to_sec("1y1month1w1d1h1m1s"),
        31_557_600 + 2_592_000 + 604_800 + 86_400 + 3_600 + 60 + 1
    );
}

#[test]
fn spaced_hour_amount_cannot_be_read() {
    assert_eq!(checked_string_to_sec("5 h"), None);
}

#[test]
fn checked_reading_agrees_when_readable() {
    assert_eq!(checked_string_to_sec("1d"), Some(86_400));
    assert_eq!(checked_string_to_sec("nothing"), Some(0));
}

#[test]
fn too_many_years_overflow() {
    assert_eq!(checked_string_to_sec("999999999999y"), None);
}

#[test]
fn parse_i64_follows_std() {
    assert_eq!(parse_i64("42"), Some(42));
    assert_eq!(parse_i64("+7"), Some(7));
    assert_eq!(parse_i64("-15"), Some(-15));
    assert_eq!(parse_i64("-9223372036854775808"), Some(i64::MIN));
    assert_eq!(parse_i64("9223372036854775807"), Some(i64::MAX));
    assert_eq!(parse_i64("9223372036854775808"), None);
    assert_eq!(parse_i64(""), None);
    assert_eq!(parse_i64("-"), None);
    assert_eq!(parse_i64("+"), None);
    assert_eq!(parse_i64("1 "), None);
    assert_eq!(parse_i64("1a2"), None);
    assert_eq!(parse_i64("٣"), None);
    for s in ["0", "123", "-1", "000017", "+0"] {
        assert_eq!(parse_i64(s), s.parse::<i64>().ok());
    }
}

#[test]
fn seconds_from_captures_weights_units() {
    let caps: Vec<Option<String>> = vec![
        None,
        None,
        Some("2".to_string()),
        None,
        Some("1".to_string()),
        None,
        Some("5".to_string()),
    ];
    assert_eq!(seconds_from_captures(&caps), Some(2 * 604_800 + 3_600 + 5));
}

#[test]
fn seconds_from_captures_refuses_bad_amounts() {
    let bad: Vec<Option<String>> = vec![None, None, None, None, Some("1 ".to_string()), None, None];
    assert_eq!(seconds_from_captures(&bad), None);
    let short: Vec<Option<String>> = vec![None, None];
    assert_eq!(seconds_from_captures(&short), None);
    let huge: Vec<Option<String>> =
        vec![Some("300000000000".to_string()), None, None, None, None, None, None];
    assert_eq!(seconds_from_captures(&huge), None);
}

#[test]
fn nothing_captured_is_zero_seconds() {
    let caps: Vec<Option<String>> = vec![None; 7];
    assert_eq!(seconds_from_captures(&caps), Some(0));
}

#[test]
fn nine_digit_amounts_stay_in_range() {
    let caps: Vec<Option<String>> = vec![Some("999999999".to_string()); 7];
    assert_eq!(seconds_from_captures(&caps), Some(999_999_999 * 34_844_461));
    assert_eq!(
        string_to_sec("999999999y999999999month999999999w999999999d999999999h999999999m999999999s"),
        999_999_999 * 34_844_461
    );
}
