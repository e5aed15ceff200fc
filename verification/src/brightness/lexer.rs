//! Turns brightness-expression source text into a flat token sequence.
//!
//! Single-character symbols each emit one token; consecutive decimal
//! digits accumulate into one number; consecutive ASCII letters and
//! underscores accumulate into one identifier; whitespace separates
//! and is dropped; any other character is a fatal error carrying the
//! character and its index.

use vstd::prelude::*;

use crate::text::{ascii_digit, ascii_letter, is_ascii_digit, is_ascii_letter, is_whitespace_char,
    whitespace_char};

verus! {

broadcast use vstd::seq::group_seq_axioms;

/// One lexical element of a brightness expression.
#[derive(Debug)]
pub enum Token {
    LeftParentheses,
    RightParentheses,
    Percent,
    Comma,
    Plus,
    Minus,
    Number(u16),
    Identifier(String),
}

/// The mathematical shape of a [`Token`]: identifier text as a
/// character sequence.
pub enum TokenView {
    LeftParentheses,
    RightParentheses,
    Percent,
    Comma,
    Plus,
    Minus,
    Number(u16),
    Identifier(Seq<char>),
}

impl View for Token {
    type V = TokenView;

    open spec fn view(&self) -> TokenView {
        match self {
            Token::LeftParentheses => TokenView::LeftParentheses,
            Token::RightParentheses => TokenView::RightParentheses,
            Token::Percent => TokenView::Percent,
            Token::Comma => TokenView::Comma,
            Token::Plus => TokenView::Plus,
            Token::Minus => TokenView::Minus,
            Token::Number(v) => TokenView::Number(*v),
            Token::Identifier(s) => TokenView::Identifier(s@),
        }
    }
}

impl DeepView for Token {
    type V = TokenView;

    open spec fn deep_view(&self) -> TokenView {
        self.view()
    }
}

impl Clone for Token {
    fn clone(&self) -> (r: Self)
        ensures
            r@ == self@,
    {
        match self {
            Token::LeftParentheses => Token::LeftParentheses,
            Token::RightParentheses => Token::RightParentheses,
            Token::Percent => Token::Percent,
            Token::Comma => Token::Comma,
            Token::Plus => Token::Plus,
            Token::Minus => Token::Minus,
            Token::Number(v) => Token::Number(*v),
            Token::Identifier(s) => Token::Identifier(s.clone()),
        }
    }
}

impl PartialEq for Token {
    fn eq(&self, other: &Token) -> (r: bool) {
        match (self, other) {
            (Token::LeftParentheses, Token::LeftParentheses) => true,
            (Token::RightParentheses, Token::RightParentheses) => true,
            (Token::Percent, Token::Percent) => true,
            (Token::Comma, Token::Comma) => true,
            (Token::Plus, Token::Plus) => true,
            (Token::Minus, Token::Minus) => true,
            (Token::Number(a), Token::Number(b)) => *a == *b,
            (Token::Identifier(a), Token::Identifier(b)) => crate::text::str_eq(
                a.as_str(),
                b.as_str(),
            ),
            _ => false,
        }
    }
}

impl vstd::std_specs::cmp::PartialEqSpecImpl for Token {
    open spec fn obeys_eq_spec() -> bool {
        true
    }

    open spec fn eq_spec(&self, other: &Token) -> bool {
        self@ == other@
    }
}

impl Token {
    /// The token a single symbol character stands for, if any.
    fn new_atomic(c: char) -> (r: Option<Self>)
        ensures
            r == spec_atomic_token(c),
    {
        match c {
            '(' => Some(Self::LeftParentheses),
            ')' => Some(Self::RightParentheses),
            '%' => Some(Self::Percent),
            ',' => Some(Self::Comma),
            '+' => Some(Self::Plus),
            '-' => Some(Self::Minus),
            _ => None,
        }
    }

    /// A short display name for diagnostics.
    pub fn name(&self) -> (r: &'static str)
        ensures
            r@ == spec_token_name(self@),
    {
        match self {
            Self::LeftParentheses => "`(`",
            Self::RightParentheses => "`)`",
            Self::Percent => "`%`",
            Self::Comma => "`,`",
            Self::Plus => "`+`",
            Self::Minus => "`-`",
            Self::Number(_) => "number",
            Self::Identifier(_) => "identifier",
        }
    }
}

pub open spec fn spec_atomic_token(c: char) -> Option<Token> {
    match c {
        '(' => Some(Token::LeftParentheses),
        ')' => Some(Token::RightParentheses),
        '%' => Some(Token::Percent),
        ',' => Some(Token::Comma),
        '+' => Some(Token::Plus),
        '-' => Some(Token::Minus),
        _ => None,
    }
}

pub open spec fn spec_token_name(t: TokenView) -> Seq<char> {
    match t {
        TokenView::LeftParentheses => "`(`"@,
        TokenView::RightParentheses => "`)`"@,
        TokenView::Percent => "`%`"@,
        TokenView::Comma => "`,`"@,
        TokenView::Plus => "`+`"@,
        TokenView::Minus => "`-`"@,
        TokenView::Number(_) => "number"@,
        TokenView::Identifier(_) => "identifier"@,
    }
}

/// Groups tokens for diagnostics.
#[derive(Debug, Clone, Copy, PartialEq, Eq, Structural)]
pub enum TokenCategory {
    /// Tokens that can work on their own: numbers and identifiers.
    Standalone,
    /// Tokens that modify the meaning of a standalone token, such as `%`.
    Supportive,
    /// Tokens with a purely structural meaning in the grammar.
    Grammar,
}

pub open spec fn spec_category(t: TokenView) -> TokenCategory {
    match t {
        TokenView::Number(_) | TokenView::Identifier(_) => TokenCategory::Standalone,
        TokenView::Percent | TokenView::Plus | TokenView::Minus => TokenCategory::Supportive,
        TokenView::Comma | TokenView::LeftParentheses | TokenView::RightParentheses
            => TokenCategory::Grammar,
    }
}

impl From<Token> for TokenCategory {
    fn from(value: Token) -> (r: Self) {
        match value {
            Token::Number(_) | Token::Identifier(_) => Self::Standalone,
            Token::Percent | Token::Plus | Token::Minus => Self::Supportive,
            Token::Comma | Token::LeftParentheses | Token::RightParentheses => Self::Grammar,
        }
    }
}

impl vstd::std_specs::convert::FromSpecImpl<Token> for TokenCategory {
    open spec fn obeys_from_spec() -> bool {
        true
    }

    open spec fn from_spec(v: Token) -> Self {
        spec_category(v@)
    }
}

/// A character the lexer does not know, with its zero-based index.
#[derive(Debug, PartialEq, Eq, Structural, Clone, Copy)]
pub struct UnsupportedCharError {
    pub char: char,
    pub index: usize,
}

/// One lexer step: how the token sequence `acc` absorbs the character
/// `c` at index `i`, where `starts_new` says the previous character
/// was whitespace.
pub open spec fn spec_lex_step(
    acc: Seq<TokenView>,
    c: char,
    i: int,
    starts_new: bool,
) -> Result<Seq<TokenView>, UnsupportedCharError> {
    if spec_atomic_token(c) is Some {
        Ok(acc.push(spec_atomic_token(c)->0@))
    } else if is_ascii_digit(c) {
        let d = ((c as int) - ('0' as int)) as u16;
        if acc.len() > 0 && !starts_new && acc.last() is Number {
            let last = acc.last()->Number_0;
            Ok(acc.update(acc.len() - 1, TokenView::Number(((last * 10 + d) % 0x10000) as u16)))
        } else {
            Ok(acc.push(TokenView::Number(d)))
        }
    } else if is_ascii_letter(c) || c == '_' {
        if acc.len() > 0 && !starts_new && acc.last() is Identifier {
            let text = acc.last()->Identifier_0;
            Ok(acc.update(acc.len() - 1, TokenView::Identifier(text.push(c))))
        } else {
            Ok(acc.push(TokenView::Identifier(seq![c])))
        }
    } else if is_whitespace_char(c) {
        Ok(acc)
    } else {
        Err(UnsupportedCharError { char: c, index: i as usize })
    }
}

/// The lexer run over `s` from index `i` onward, with the tokens
/// accumulated so far.
pub open spec fn spec_lex_from(
    s: Seq<char>,
    i: int,
    acc: Seq<TokenView>,
    starts_new: bool,
) -> Result<Seq<TokenView>, UnsupportedCharError>
    decreases s.len() - i,
{
    if i < 0 || i >= s.len() {
        Ok(acc)
    } else {
        match spec_lex_step(acc, s[i], i, starts_new) {
            Err(e) => Err(e),
            Ok(acc2) => spec_lex_from(s, i + 1, acc2, is_whitespace_char(s[i])),
        }
    }
}

/// What lexing `s` yields: the token sequence, or the first
/// unsupported character.
pub open spec fn spec_lex(s: Seq<char>) -> Result<Seq<TokenView>, UnsupportedCharError> {
    spec_lex_from(s, 0, Seq::empty(), true)
}

/// The result of [`lexer`], seen at the view level.
pub open spec fn lex_result_view(
    r: Result<Vec<Token>, UnsupportedCharError>,
) -> Result<Seq<TokenView>, UnsupportedCharError> {
    match r {
        Ok(v) => Ok(v.deep_view()),
        Err(e) => Err(e),
    }
}

/// Splits brightness-expression source text into tokens.
///
/// Digit runs accumulate modulo 2^16 into one number token, as the
/// release-mode accumulation `value * 10 + digit` over `u16` does.
pub fn lexer(text: &str) -> (r: Result<Vec<Token>, UnsupportedCharError>)
    ensures
        lex_result_view(r) == spec_lex(text@),
        text@.len() == 0 ==> (r matches Ok(v) && v@.len() == 0),
{
    let len = text.unicode_len();
    let mut tokens: Vec<Token> = Vec::new();
    let mut starts_new: bool = true;
    let mut i: usize = 0;
    proof {
        assert(tokens.deep_view() =~= Seq::<TokenView>::empty());
    }
    while i < len
        invariant
            i <= len,
            len == text@.len(),
            spec_lex(text@) == spec_lex_from(text@, i as int, tokens.deep_view(), starts_new),
        decreases len - i,
    {
        let ghost pre = tokens.deep_view();
        let c = text.get_char(i);
        if let Some(tok) = Token::new_atomic(c) {
            tokens.push(tok);
            proof {
                assert(tokens.deep_view() =~= pre.push(spec_atomic_token(c)->0@));
            }
        } else if ascii_digit(c) {
            let d: u16 = ((c as u32) - 48) as u16;
            let mut merged = false;
            if !starts_new && tokens.len() > 0 {
                let last_index = tokens.len() - 1;
                let is_number = matches!(&tokens[last_index], Token::Number(_));
                if is_number {
                    let last = match tokens.pop() {
                        Some(Token::Number(v)) => v,
                        _ => vstd::pervasive::unreached(),
                    };
                    let wide: u32 = (last as u32) * 10 + (d as u32);
                    let combined: u16 = (wide % 0x10000) as u16;
                    tokens.push(Token::Number(combined));
                    merged = true;
                    proof {
                        assert(tokens.deep_view() =~= pre.update(
                            pre.len() - 1,
                            TokenView::Number(((pre.last()->Number_0 * 10 + d) % 0x10000) as u16),
                        ));
                    }
                }
            }
            if !merged {
                tokens.push(Token::Number(d));
                proof {
                    assert(tokens.deep_view() =~= pre.push(TokenView::Number(d)));
                }
            }
        } else if ascii_letter(c) || c == '_' {
            let mut merged = false;
            if !starts_new && tokens.len() > 0 {
                let last_index = tokens.len() - 1;
                let is_ident = matches!(&tokens[last_index], Token::Identifier(_));
                if is_ident {
                    let text_so_far = match tokens.pop() {
                        Some(Token::Identifier(s)) => s,
                        _ => vstd::pervasive::unreached(),
                    };
                    let one = text.substring_char(i, i + 1);
                    proof {
                        assert(one@ =~= seq![c]);
                    }
                    let extended = text_so_far.concat(one);
                    tokens.push(Token::Identifier(extended));
                    merged = true;
                    proof {
                        assert(extended@ =~= pre.last()->Identifier_0.push(c));
                        assert(tokens.deep_view() =~= pre.update(
                            pre.len() - 1,
                            TokenView::Identifier(pre.last()->Identifier_0.push(c)),
                        ));
                    }
                }
            }
            if !merged {
                let one = text.substring_char(i, i + 1);
                proof {
                    assert(one@ =~= seq![c]);
                }
                tokens.push(Token::Identifier(String::from_str(one)));
                proof {
                    assert(tokens.deep_view() =~= pre.push(TokenView::Identifier(seq![c])));
                }
            }
        } else if whitespace_char(c) {
        } else {
            return Err(UnsupportedCharError { char: c, index: i });
        }
        starts_new = whitespace_char(c);
        i = i + 1;
    }
    Ok(tokens)
}

} // verus!
