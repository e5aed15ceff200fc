use bright::animation::easing::{
    format_easing_pattern, parse_easing_pattern, EasingParseError, EasingPattern,
};

#[test]
fn easing_pattern_shapes() {
    assert_eq!(
        parse_easing_pattern("2.5^x").unwrap(),
        EasingPattern::Exponential {
            base: String::from("2.5")
        }
    );
    assert_eq!(
        parse_easing_pattern("x^2.5").unwrap(),
        EasingPattern::Polynomial {
            exponent: String::from("2.5")
        }
    );
    assert_eq!(parse_easing_pattern("x").unwrap(), EasingPattern::Linear);
}

#[test]
fn easing_pattern_rejects() {
    assert!(matches!(
        parse_easing_pattern(""),
        Err(EasingParseError::InvalidPattern)
    ));
    assert!(matches!(
        parse_easing_pattern("y"),
        Err(EasingParseError::InvalidPattern)
    ));
    assert!(matches!(
        parse_easing_pattern("2.5"),
        Err(EasingParseError::InvalidPattern)
    ));
}

#[test]
fn easing_pattern_exponential_tried_first() {
    // `x^0` and `0^x` both classify; their numbers are rejected by the
    // numeric layer, not here.
    assert_eq!(
        parse_easing_pattern("x^0").unwrap(),
        EasingPattern::Polynomial {
            exponent: String::from("0")
        }
    );
    assert_eq!(
        parse_easing_pattern("0^x").unwrap(),
        EasingPattern::Exponential {
            base: String::from("0")
        }
    );
    // A string matching both shapes reads as exponential.
    assert_eq!(
        parse_easing_pattern("x^x").unwrap(),
        EasingPattern::Exponential {
            base: String::from("x")
        }
    );
}

#[test]
fn easing_pattern_round_trip() {
    for text in ["2.5^x", "x^2.5", "x", "3.141^x", "x^0.3"] {
        let pattern = parse_easing_pattern(text).unwrap();
        assert_eq!(format_easing_pattern(&pattern), text);
        let again = parse_easing_pattern(&format_easing_pattern(&pattern)).unwrap();
        assert_eq!(again, pattern);
    }
}
