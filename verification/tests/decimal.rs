use rgb_interfaces::decimal::{format_unsigned, parse_unsigned, write_unsigned, ParseNumError};
use rgb_interfaces::text::{find_char, same_text, split_once};

#[test]
fn decimal_notation_round_trips() {
    for n in [0u64, 1, 9, 10, 11, 99, 100, 12345, 1_000_000_007, u64::MAX - 1, u64::MAX] {
        let text = format_unsigned(n);
        assert_eq!(text, n.to_string());
        assert_eq!(parse_unsigned(&text, u64::MAX), Ok(n));
    }
    let mut out = String::from("n=");
    write_unsigned(407, &mut out);
    assert_eq!(out, "n=407");
}

#[test]
fn decimal_parse_agrees_with_std() {
    let inputs = [
        "", "+", "-", "0", "00", "007", "+0", "+15", "-15", "++1", "1+", " 1", "1 ", "1_000",
        "18446744073709551615", "18446744073709551616", "99999999999999999999999", "0x10", "1e3",
        "٣", "1٣", "12a", "a12", "+a",
    ];
    for input in inputs {
        let expected: Option<u64> = input.parse::<u64>().ok();
        assert_eq!(parse_unsigned(input, u64::MAX).ok(), expected, "input {:?}", input);
        let expected: Option<u64> = input.parse::<u32>().ok().map(u64::from);
        assert_eq!(parse_unsigned(input, u32::MAX as u64).ok(), expected, "input {:?}", input);
    }
}

#[test]
fn decimal_parse_errors() {
    assert_eq!(parse_unsigned("", 10), Err(ParseNumError::Empty));
    assert_eq!(parse_unsigned("+", 10), Err(ParseNumError::InvalidDigit));
    assert_eq!(parse_unsigned("1x", 10), Err(ParseNumError::InvalidDigit));
    assert_eq!(parse_unsigned("x1", 10), Err(ParseNumError::InvalidDigit));
    assert_eq!(parse_unsigned("11", 10), Err(ParseNumError::PosOverflow));
    assert_eq!(parse_unsigned("10", 10), Ok(10));
    // the leading digits decide before what follows them is looked at
    assert_eq!(parse_unsigned("11x", 10), Err(ParseNumError::PosOverflow));
    assert_eq!(parse_unsigned("99999999999999999999999x", u64::MAX), Err(ParseNumError::PosOverflow));
}

#[test]
fn text_is_split_at_the_first_separator() {
    assert_eq!(split_once("a/b/c", '/'), Some(("a", "b/c")));
    assert_eq!(split_once("/", '/'), Some(("", "")));
    assert_eq!(split_once("abc", '/'), None);
    assert_eq!(split_once("", '/'), None);
    assert_eq!(split_once("é@ü", '@'), Some(("é", "ü")));
    assert_eq!(find_char("héllo@", '@'), Some(5));
    assert_eq!(find_char("hello", '@'), None);
    assert!(same_text("abc", "abc"));
    assert!(!same_text("abc", "abd"));
    assert!(!same_text("abc", "ab"));
    assert!(same_text("", ""));
}
