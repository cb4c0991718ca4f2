use habit_tracker::numbers::parse_selection;
use habit_tracker::numbers::usize_to_string;

#[test]
fn renders_decimal_numerals() {
    assert_eq!(usize_to_string(0), "0".to_string());
    assert_eq!(usize_to_string(7), "7".to_string());
    assert_eq!(usize_to_string(10), "10".to_string());
    assert_eq!(usize_to_string(409), "409".to_string());
    assert_eq!(usize_to_string(12345), "12345".to_string());
}

#[test]
fn parses_plain_digit_runs() {
    assert_eq!(parse_selection("1"), 1);
    assert_eq!(parse_selection("42"), 42);
    assert_eq!(parse_selection("007"), 7);
    assert_eq!(parse_selection("0"), 0);
}

#[test]
fn accepts_one_leading_plus_sign() {
    assert_eq!(parse_selection("+12"), 12);
    assert_eq!(parse_selection("+"), 0);
    assert_eq!(parse_selection("++1"), 0);
}

#[test]
fn non_numeric_input_collapses_to_zero() {
    assert_eq!(parse_selection(""), 0);
    assert_eq!(parse_selection("abc"), 0);
    assert_eq!(parse_selection("-1"), 0);
    assert_eq!(parse_selection("1a"), 0);
    assert_eq!(parse_selection(" 1"), 0);
    assert_eq!(parse_selection("1.5"), 0);
}

#[test]
fn values_that_do_not_fit_collapse_to_zero() {
    assert_eq!(parse_selection("99999999999999999999999999999999"), 0);
    assert_eq!(parse_selection(&usize::MAX.to_string()), usize::MAX);
}
