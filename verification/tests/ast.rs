use bright::brightness::ast::{Ast, AstFromStrError, ChangeDirection, ParseTokensError};
use bright::brightness::lexer::{Token, UnsupportedCharError};

#[test]
fn test_ast_generator() {
    assert_eq!(
        Ast::from_str("current").unwrap(),
        Ast::Function {
            name: "current".to_string(),
            arguments: vec![]
        }
    );

    assert_eq!(
        Ast::from_str("clamp(50%,    current(), 20-)").unwrap(),
        Ast::Function {
            name: "clamp".to_string(),
            arguments: vec![
                Ast::Literal {
                    direction: ChangeDirection::Abs,
                    value: 50,
                    percent: true
                },
                Ast::Function {
                    name: "current".to_string(),
                    arguments: vec![]
                },
                Ast::Literal {
                    direction: ChangeDirection::Dec,
                    value: 20,
                    percent: false
                },
            ]
        }
    );

    assert_eq!(
        Ast::from_str("42+").unwrap(),
        Ast::Literal {
            direction: ChangeDirection::Inc,
            value: 42,
            percent: false
        }
    );

    assert_eq!(
        Ast::from_str("100%").unwrap(),
        Ast::Literal {
            direction: ChangeDirection::Abs,
            value: 100,
            percent: true
        }
    );

    assert_eq!(
        Ast::from_str("4%-").unwrap(),
        Ast::Literal {
            direction: ChangeDirection::Dec,
            value: 4,
            percent: true
        }
    );

    assert_eq!(
        Ast::from_str("").unwrap_err(),
        AstFromStrError::TokenParseError(ParseTokensError::NoTokens)
    );

    assert_eq!(
        Ast::from_str("cl@mp()").unwrap_err(),
        AstFromStrError::LexerError(UnsupportedCharError {
            char: '@',
            index: 2
        })
    );

    assert_eq!(
        Ast::from_str("clamp(((((())").unwrap_err(),
        AstFromStrError::TokenParseError(ParseTokensError::UnclosedDelimiter)
    );

    assert!(matches!(
        Ast::from_str("max 2").unwrap_err(),
        AstFromStrError::TokenParseError(ParseTokensError::IllegalToken {
            expected: Some(_),
            encountered: Token::Number(2),
            reason: _,
        })
    ));

    assert!(matches!(
        Ast::from_str("clamp(20, 20,)").unwrap_err(),
        AstFromStrError::TokenParseError(ParseTokensError::NoTokens)
    ));
}

#[test]
fn parse_nested_calls() {
    assert_eq!(
        Ast::from_str("min(max(1, 2), 3)").unwrap(),
        Ast::Function {
            name: "min".to_string(),
            arguments: vec![
                Ast::Function {
                    name: "max".to_string(),
                    arguments: vec![
                        Ast::Literal {
                            direction: ChangeDirection::Abs,
                            value: 1,
                            percent: false
                        },
                        Ast::Literal {
                            direction: ChangeDirection::Abs,
                            value: 2,
                            percent: false
                        },
                    ]
                },
                Ast::Literal {
                    direction: ChangeDirection::Abs,
                    value: 3,
                    percent: false
                },
            ]
        }
    );
}

#[test]
fn parse_zero_argument_call() {
    assert_eq!(
        Ast::from_str("restore()").unwrap(),
        Ast::Function {
            name: "restore".to_string(),
            arguments: vec![]
        }
    );
}

#[test]
fn parse_default_expression() {
    assert_eq!(
        Ast::default(),
        Ast::Function {
            name: "current".to_string(),
            arguments: vec![]
        }
    );
}

#[test]
fn parse_tokens_directly() {
    let tokens = vec![Token::Number(42), Token::Plus];
    assert_eq!(
        Ast::parse_tokens(&tokens).unwrap(),
        Ast::Literal {
            direction: ChangeDirection::Inc,
            value: 42,
            percent: false
        }
    );
    let empty: Vec<Token> = vec![];
    assert_eq!(
        Ast::parse_tokens(&empty).unwrap_err(),
        ParseTokensError::NoTokens
    );
}
