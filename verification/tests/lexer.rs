use bright::brightness::lexer::{lexer, Token, TokenCategory, UnsupportedCharError};
use bright::brightness::lexer::Token as To;

#[test]
fn lexer_test_parsing() {
    assert_eq!(lexer("").unwrap(), vec![]);

    assert_eq!(lexer("12 42").unwrap(), vec![To::Number(12), To::Number(42)]);
    assert_eq!(
        lexer("clamp(12, 20%, restore(), current(), 5%-)").unwrap(),
        vec![
            To::Identifier(String::from("clamp")),
            To::LeftParentheses,
            To::Number(12),
            To::Comma,
            To::Number(20),
            To::Percent,
            To::Comma,
            To::Identifier(String::from("restore")),
            To::LeftParentheses,
            To::RightParentheses,
            To::Comma,
            To::Identifier(String::from("current")),
            To::LeftParentheses,
            To::RightParentheses,
            To::Comma,
            To::Number(5),
            To::Percent,
            To::Minus,
            To::RightParentheses,
        ]
    );
}

#[test]
fn lexer_full_symbol_run() {
    assert_eq!(
        lexer("clamp(12, 20%, current(), 5%-)").unwrap(),
        vec![
            To::Identifier(String::from("clamp")),
            To::LeftParentheses,
            To::Number(12),
            To::Comma,
            To::Number(20),
            To::Percent,
            To::Comma,
            To::Identifier(String::from("current")),
            To::LeftParentheses,
            To::RightParentheses,
            To::Comma,
            To::Number(5),
            To::Percent,
            To::Minus,
            To::RightParentheses,
        ]
    );
}

#[test]
fn lexer_unsupported_character() {
    assert_eq!(
        lexer("cl@mp()").unwrap_err(),
        UnsupportedCharError { char: '@', index: 2 }
    );
    assert_eq!(
        lexer("ab \u{1F600}").unwrap_err(),
        UnsupportedCharError {
            char: '\u{1F600}',
            index: 3
        }
    );
}

#[test]
fn lexer_whitespace_splits_tokens() {
    assert_eq!(
        lexer("ab cd").unwrap(),
        vec![
            To::Identifier(String::from("ab")),
            To::Identifier(String::from("cd")),
        ]
    );
    assert_eq!(
        lexer("a_b").unwrap(),
        vec![To::Identifier(String::from("a_b"))]
    );
}

#[test]
fn lexer_digit_runs_accumulate_modulo() {
    assert_eq!(lexer("65535").unwrap(), vec![To::Number(65535)]);
    // 70000 mod 2^16 == 4464: digit runs accumulate modulo 2^16.
    assert_eq!(lexer("70000").unwrap(), vec![To::Number(4464)]);
}

#[test]
fn token_names() {
    assert_eq!(Token::LeftParentheses.name(), "`(`");
    assert_eq!(Token::Number(3).name(), "number");
    assert_eq!(Token::Identifier(String::from("f")).name(), "identifier");
}

#[test]
fn token_categories() {
    assert_eq!(TokenCategory::from(Token::Number(1)), TokenCategory::Standalone);
    assert_eq!(TokenCategory::from(Token::Percent), TokenCategory::Supportive);
    assert_eq!(TokenCategory::from(Token::Comma), TokenCategory::Grammar);
}
