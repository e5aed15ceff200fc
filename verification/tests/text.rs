use bright::fmt_option;
use bright::text::{parse_u16, str_eq, trim_str, u16_to_string, ParseU16Error};

#[test]
fn parse_u16_accepts_decimal() {
    assert_eq!(parse_u16("0"), Ok(0));
    assert_eq!(parse_u16("42"), Ok(42));
    assert_eq!(parse_u16("+42"), Ok(42));
    assert_eq!(parse_u16("65535"), Ok(65535));
}

#[test]
fn parse_u16_rejects_like_std() {
    assert_eq!(parse_u16(""), Err(ParseU16Error::Empty));
    assert_eq!(parse_u16("+"), Err(ParseU16Error::InvalidDigit));
    assert_eq!(parse_u16("-1"), Err(ParseU16Error::InvalidDigit));
    assert_eq!(parse_u16("4x"), Err(ParseU16Error::InvalidDigit));
    assert_eq!(parse_u16("65536"), Err(ParseU16Error::PosOverflow));
    assert_eq!(parse_u16("99999x"), Err(ParseU16Error::PosOverflow));

    // The same inputs through std's parser, case for case.
    assert_eq!("42".parse::<u16>().ok(), Some(42));
    assert_eq!("+42".parse::<u16>().ok(), Some(42));
    assert!("".parse::<u16>().is_err());
    assert!("+".parse::<u16>().is_err());
    assert!("-1".parse::<u16>().is_err());
    assert!("65536".parse::<u16>().is_err());
}

#[test]
fn u16_to_string_renders_decimal() {
    assert_eq!(u16_to_string(0), "0");
    assert_eq!(u16_to_string(7), "7");
    assert_eq!(u16_to_string(10), "10");
    assert_eq!(u16_to_string(305), "305");
    assert_eq!(u16_to_string(65535), "65535");
}

#[test]
fn fmt_option_renders_or_falls_back() {
    assert_eq!(fmt_option(Some(500), "?"), "500");
    assert_eq!(fmt_option(None, "?"), "?");
}

#[test]
fn trim_removes_whitespace() {
    assert_eq!(trim_str("  a b \t"), "a b");
    assert_eq!(trim_str(""), "");
    assert_eq!(trim_str("   "), "");
    assert_eq!(trim_str("x"), "x");
}

#[test]
fn str_eq_compares_contents() {
    assert!(str_eq("abc", "abc"));
    assert!(!str_eq("abc", "abd"));
    assert!(!str_eq("abc", "ab"));
    assert!(str_eq("", ""));
}
