//! The brightness expression tree and its recursive-descent parser.
//!
//! Grammar, with a single token of lookahead:
//!
//! ```text
//! expr    := literal | call
//! literal := NUMBER [ '%' ] [ '+' | '-' ]
//! call    := IDENT [ '(' [ expr (',' expr)* ] ')' ]
//! ```
//!
//! A literal consumes no trailing tokens: those belong to the caller's
//! context. An identifier without parentheses is a zero-argument call.
//! Argument lists track parenthesis nesting; a depth-one comma closes
//! the current argument's token run, which is parsed on its own.

pub mod functions;

use vstd::prelude::*;

use super::lexer::{lexer, spec_lex, Token, TokenCategory, TokenView, UnsupportedCharError};
use crate::text::str_eq;

verus! {

broadcast use vstd::seq::group_seq_axioms;

/// Whether a literal is applied absolutely, added, or subtracted.
#[derive(Debug, Clone, Copy, PartialEq, Eq, Structural)]
pub enum ChangeDirection {
    Inc,
    Abs,
    Dec,
}

impl Default for ChangeDirection {
    /// The direction a bare literal gets: absolute.
    fn default() -> (r: Self)
        ensures
            r == ChangeDirection::Abs,
    {
        ChangeDirection::Abs
    }
}

/// A parsed brightness expression.
#[derive(Debug)]
pub enum Ast {
    Literal { direction: ChangeDirection, value: u16, percent: bool },
    Function { name: String, arguments: Vec<Ast> },
}

/// The mathematical shape of an [`Ast`].
pub enum AstView {
    Literal { direction: ChangeDirection, value: u16, percent: bool },
    Function { name: Seq<char>, arguments: Seq<AstView> },
}

/// The views of a list of subexpressions, in order.
pub open spec fn ast_view_list(s: Seq<Ast>) -> Seq<AstView>
    decreases s,
{
    if s.len() == 0 {
        Seq::empty()
    } else {
        seq![s[0]@] + ast_view_list(s.subrange(1, s.len() as int))
    }
}

impl View for Ast {
    type V = AstView;

    open spec fn view(&self) -> AstView
        decreases self,
    {
        match self {
            Ast::Literal { direction, value, percent } => AstView::Literal {
                direction: *direction,
                value: *value,
                percent: *percent,
            },
            Ast::Function { name, arguments } => AstView::Function {
                name: name@,
                arguments: ast_view_list(arguments@),
            },
        }
    }
}

impl DeepView for Ast {
    type V = AstView;

    open spec fn deep_view(&self) -> AstView {
        self.view()
    }
}

pub proof fn ast_view_list_props(s: Seq<Ast>)
    ensures
        ast_view_list(s).len() == s.len(),
        forall|i: int| 0 <= i < s.len() ==> ast_view_list(s)[i] == #[trigger] s[i]@,
    decreases s,
{
    if s.len() > 0 {
        let rest = s.subrange(1, s.len() as int);
        ast_view_list_props(rest);
        assert(ast_view_list(s) == seq![s[0]@] + ast_view_list(rest));
        assert forall|i: int| 0 <= i < s.len() implies ast_view_list(s)[i] == #[trigger] s[i]@ by {
            if i > 0 {
                assert(rest[i - 1] == s[i]);
            }
        }
    }
}

/// The number of nodes in an expression; a measure for recursion.
pub open spec fn ast_size(a: AstView) -> nat
    decreases a,
{
    match a {
        AstView::Literal { .. } => 1,
        AstView::Function { arguments, .. } => 1 + ast_size_list(arguments),
    }
}

pub open spec fn ast_size_list(s: Seq<AstView>) -> nat
    decreases s,
{
    if s.len() == 0 {
        0
    } else {
        ast_size(s[0]) + ast_size_list(s.subrange(1, s.len() as int))
    }
}

pub proof fn ast_size_list_bound(s: Seq<AstView>, i: int)
    requires
        0 <= i < s.len(),
    ensures
        ast_size(s[i]) <= ast_size_list(s),
    decreases s,
{
    if i > 0 {
        let rest = s.subrange(1, s.len() as int);
        ast_size_list_bound(rest, i - 1);
        assert(rest[i - 1] == s[i]);
    }
}

impl Clone for Ast {
    fn clone(&self) -> (r: Self)
        ensures
            r@ == self@,
        decreases ast_size(self@),
    {
        match self {
            Ast::Literal { direction, value, percent } => Ast::Literal {
                direction: *direction,
                value: *value,
                percent: *percent,
            },
            Ast::Function { name, arguments } => {
                let mut copies: Vec<Ast> = Vec::new();
                let mut i: usize = 0;
                while i < arguments.len()
                    invariant
                        i <= arguments@.len(),
                        copies@.len() == i,
                        *self == (Ast::Function { name: *name, arguments: *arguments }),
                        forall|j: int| 0 <= j < i ==> #[trigger] copies@[j]@ == arguments@[j]@,
                    decreases arguments@.len() - i,
                {
                    proof {
                        ast_view_list_props(arguments@);
                        ast_size_list_bound(ast_view_list(arguments@), i as int);
                    }
                    copies.push((&arguments[i]).clone());
                    i = i + 1;
                }
                proof {
                    ast_view_list_props(copies@);
                    ast_view_list_props(arguments@);
                    assert forall|j: int| 0 <= j < arguments@.len() implies ast_view_list(
                        copies@,
                    )[j] == ast_view_list(arguments@)[j] by {
                        assert(copies@[j]@ == arguments@[j]@);
                    }
                    assert(ast_view_list(copies@) =~= ast_view_list(arguments@));
                }
                Ast::Function { name: name.clone(), arguments: copies }
            },
        }
    }
}

impl PartialEq for Ast {
    fn eq(&self, other: &Ast) -> (r: bool)
        decreases ast_size(self@),
    {
        match (self, other) {
            (
                Ast::Literal { direction: d1, value: v1, percent: p1 },
                Ast::Literal { direction: d2, value: v2, percent: p2 },
            ) => *d1 == *d2 && *v1 == *v2 && *p1 == *p2,
            (
                Ast::Function { name: n1, arguments: a1 },
                Ast::Function { name: n2, arguments: a2 },
            ) => {
                if !str_eq(n1.as_str(), n2.as_str()) {
                    return false;
                }
                if a1.len() != a2.len() {
                    proof {
                        ast_view_list_props(a1@);
                        ast_view_list_props(a2@);
                    }
                    return false;
                }
                let mut i: usize = 0;
                while i < a1.len()
                    invariant
                        i <= a1@.len(),
                        a1@.len() == a2@.len(),
                        *self == (Ast::Function { name: *n1, arguments: *a1 }),
                        *other == (Ast::Function { name: *n2, arguments: *a2 }),
                        forall|j: int| 0 <= j < i ==> #[trigger] a1@[j]@ == a2@[j]@,
                    decreases a1@.len() - i,
                {
                    proof {
                        ast_view_list_props(a1@);
                        ast_size_list_bound(ast_view_list(a1@), i as int);
                    }
                    if !(&a1[i]).eq(&a2[i]) {
                        proof {
                            ast_view_list_props(a1@);
                            ast_view_list_props(a2@);
                        }
                        return false;
                    }
                    i = i + 1;
                }
                proof {
                    ast_view_list_props(a1@);
                    ast_view_list_props(a2@);
                    assert forall|j: int| 0 <= j < a1@.len() implies ast_view_list(a1@)[j]
                        == ast_view_list(a2@)[j] by {
                        assert(a1@[j]@ == a2@[j]@);
                    }
                    assert(ast_view_list(a1@) =~= ast_view_list(a2@));
                }
                true
            },
            _ => false,
        }
    }
}

impl vstd::std_specs::cmp::PartialEqSpecImpl for Ast {
    open spec fn obeys_eq_spec() -> bool {
        true
    }

    open spec fn eq_spec(&self, other: &Ast) -> bool {
        self@ == other@
    }
}

/// Why a token sequence is not an expression.
#[derive(Debug)]
pub enum ParseTokensError {
    /// The input held no tokens at all.
    NoTokens,
    /// An unexpected token, with a hint at what was expected and an
    /// optional human-readable reason, used verbatim for diagnostics.
    IllegalToken {
        expected: Option<(TokenCategory, Option<Token>)>,
        encountered: Token,
        reason: Option<String>,
    },
    /// An argument list was never closed.
    UnclosedDelimiter,
}

/// The mathematical shape of a [`ParseTokensError`].
pub enum ParseTokensErrorView {
    NoTokens,
    IllegalToken {
        expected: Option<(TokenCategory, Option<TokenView>)>,
        encountered: TokenView,
        reason: Option<Seq<char>>,
    },
    UnclosedDelimiter,
}

impl View for ParseTokensError {
    type V = ParseTokensErrorView;

    open spec fn view(&self) -> ParseTokensErrorView {
        match self {
            ParseTokensError::NoTokens => ParseTokensErrorView::NoTokens,
            ParseTokensError::UnclosedDelimiter => ParseTokensErrorView::UnclosedDelimiter,
            ParseTokensError::IllegalToken { expected, encountered, reason } => {
                ParseTokensErrorView::IllegalToken {
                    expected: match expected {
                        None => None,
                        Some((cat, tok)) => Some(
                            (
                                *cat,
                                match tok {
                                    None => None,
                                    Some(t) => Some(t@),
                                },
                            ),
                        ),
                    },
                    encountered: encountered@,
                    reason: match reason {
                        None => None,
                        Some(s) => Some(s@),
                    },
                }
            },
        }
    }
}

impl PartialEq for ParseTokensError {
    fn eq(&self, other: &ParseTokensError) -> (r: bool) {
        match (self, other) {
            (ParseTokensError::NoTokens, ParseTokensError::NoTokens) => true,
            (ParseTokensError::UnclosedDelimiter, ParseTokensError::UnclosedDelimiter) => true,
            (
                ParseTokensError::IllegalToken { expected: e1, encountered: t1, reason: r1 },
                ParseTokensError::IllegalToken { expected: e2, encountered: t2, reason: r2 },
            ) => {
                let expected_eq = match (e1, e2) {
                    (None, None) => true,
                    (Some((c1, o1)), Some((c2, o2))) => *c1 == *c2 && match (o1, o2) {
                        (None, None) => true,
                        (Some(x), Some(y)) => x.eq(y),
                        _ => false,
                    },
                    _ => false,
                };
                let reason_eq = match (r1, r2) {
                    (None, None) => true,
                    (Some(x), Some(y)) => str_eq(x.as_str(), y.as_str()),
                    _ => false,
                };
                expected_eq && t1.eq(t2) && reason_eq
            },
            _ => false,
        }
    }
}

impl vstd::std_specs::cmp::PartialEqSpecImpl for ParseTokensError {
    open spec fn obeys_eq_spec() -> bool {
        true
    }

    open spec fn eq_spec(&self, other: &ParseTokensError) -> bool {
        self@ == other@
    }
}

/// What parsing a token sequence yields.
///
/// `spec_parse` and `spec_parse_args` walk the sequence exactly as
/// [`Ast::parse_tokens`] does: `spec_parse_args` consumes `rest` one
/// token at a time, tracking the parenthesis `depth`, the current
/// argument's token `run`, and the arguments parsed so far.
pub open spec fn spec_parse(toks: Seq<TokenView>) -> Result<AstView, ParseTokensErrorView>
    decreases toks.len(), 0int, 0int,
{
    if toks.len() == 0 {
        Err(ParseTokensErrorView::NoTokens)
    } else {
        match toks[0] {
            TokenView::Number(value) => {
                let percent = toks.len() > 1 && toks[1] is Percent;
                let dir_idx: int = if percent { 2 } else { 1 };
                let direction = if toks.len() > dir_idx && toks[dir_idx] is Plus {
                    ChangeDirection::Inc
                } else if toks.len() > dir_idx && toks[dir_idx] is Minus {
                    ChangeDirection::Dec
                } else {
                    ChangeDirection::Abs
                };
                Ok(AstView::Literal { direction, value, percent })
            },
            TokenView::Identifier(name) => {
                if toks.len() == 1 {
                    Ok(AstView::Function { name, arguments: Seq::empty() })
                } else if toks[1] is LeftParentheses {
                    match spec_parse_args(
                        toks.subrange(2, toks.len() as int),
                        1,
                        Seq::empty(),
                        Seq::empty(),
                    ) {
                        Err(e) => Err(e),
                        Ok(args) => Ok(AstView::Function { name, arguments: args }),
                    }
                } else {
                    Err(
                        ParseTokensErrorView::IllegalToken {
                            expected: Some(
                                (TokenCategory::Grammar, Some(TokenView::LeftParentheses)),
                            ),
                            encountered: toks[1],
                            reason: Some("Functions must be called"@),
                        },
                    )
                }
            },
            other => Err(
                ParseTokensErrorView::IllegalToken {
                    expected: Some((TokenCategory::Standalone, None)),
                    encountered: other,
                    reason: Some("expected a number or identifier"@),
                },
            ),
        }
    }
}

/// The argument-list walk: see [`spec_parse`].
pub open spec fn spec_parse_args(
    rest: Seq<TokenView>,
    depth: int,
    run: Seq<TokenView>,
    args: Seq<AstView>,
) -> Result<Seq<AstView>, ParseTokensErrorView>
    decreases rest.len() + run.len(), 1int, rest.len(),
{
    if rest.len() == 0 {
        Err(ParseTokensErrorView::UnclosedDelimiter)
    } else {
        let tok = rest[0];
        let depth2: int = if tok is LeftParentheses {
            depth + 1
        } else if tok is RightParentheses {
            depth - 1
        } else {
            depth
        };
        if depth2 == 0 {
            if args.len() == 0 && run.len() == 0 {
                Ok(Seq::empty())
            } else {
                match spec_parse(run) {
                    Err(e) => Err(e),
                    Ok(a) => Ok(args.push(a)),
                }
            }
        } else if depth2 == 1 && tok is Comma {
            match spec_parse(run) {
                Err(e) => Err(e),
                Ok(a) => spec_parse_args(
                    rest.subrange(1, rest.len() as int),
                    depth2,
                    Seq::empty(),
                    args.push(a),
                ),
            }
        } else {
            spec_parse_args(rest.subrange(1, rest.len() as int), depth2, run.push(tok), args)
        }
    }
}

/// The result of [`Ast::parse_tokens`], seen at the view level.
pub open spec fn parse_result_view(
    r: Result<Ast, ParseTokensError>,
) -> Result<AstView, ParseTokensErrorView> {
    match r {
        Ok(a) => Ok(a@),
        Err(e) => Err(e@),
    }
}

impl Ast {
    /// Parses one expression from the front of `tokens`; trailing
    /// tokens belong to the caller's context and are ignored.
    #[verifier::loop_isolation(false)]
    pub fn parse_tokens(tokens: &Vec<Token>) -> (r: Result<Self, ParseTokensError>)
        ensures
            parse_result_view(r) == spec_parse(tokens.deep_view()),
            tokens.deep_view().len() == 0 ==> (r matches Err(e) && e@ is NoTokens),
        decreases tokens@.len(),
    {
        let ghost toks = tokens.deep_view();
        let n = tokens.len();
        if n == 0 {
            return Err(ParseTokensError::NoTokens);
        }
        match &tokens[0] {
            Token::Number(value) => {
                let percent = n > 1 && matches!(&tokens[1], Token::Percent);
                let dir_idx: usize = if percent {
                    2
                } else {
                    1
                };
                let direction = if n > dir_idx {
                    match &tokens[dir_idx] {
                        Token::Plus => ChangeDirection::Inc,
                        Token::Minus => ChangeDirection::Dec,
                        _ => ChangeDirection::Abs,
                    }
                } else {
                    ChangeDirection::Abs
                };
                Ok(Ast::Literal { direction, value: *value, percent })
            },
            Token::Identifier(name) => {
                let name = name.clone();
                if n == 1 {
                    let r = Ast::Function { name, arguments: Vec::new() };
                    proof {
                        assert(ast_view_list(r->Function_arguments@) =~= Seq::<AstView>::empty());
                    }
                    return Ok(r);
                }
                match &tokens[1] {
                    Token::LeftParentheses => {},
                    encountered => {
                        return Err(
                            ParseTokensError::IllegalToken {
                                expected: Some(
                                    (
                                        TokenCategory::from(Token::LeftParentheses),
                                        Some(Token::LeftParentheses),
                                    ),
                                ),
                                encountered: encountered.clone(),
                                reason: Some(String::from_str("Functions must be called")),
                            },
                        );
                    },
                }
                let mut arguments: Vec<Ast> = Vec::new();
                let mut run: Vec<Token> = Vec::new();
                let mut depth: usize = 1;
                let mut i: usize = 2;
                proof {
                    assert(toks[0] == TokenView::Identifier(name@));
                    assert(toks[1] is LeftParentheses);
                    assert(spec_parse(toks) == (match spec_parse_args(
                        toks.subrange(2, toks.len() as int),
                        1,
                        Seq::empty(),
                        Seq::empty(),
                    ) {
                        Err(e) => Err::<AstView, ParseTokensErrorView>(e),
                        Ok(args) => Ok(AstView::Function { name: name@, arguments: args }),
                    }));
                    assert(toks.subrange(2, toks.len() as int) =~= toks.subrange(
                        i as int,
                        toks.len() as int,
                    ));
                    assert(run.deep_view() =~= Seq::<TokenView>::empty());
                    assert(ast_view_list(arguments@) =~= Seq::<AstView>::empty());
                }
                loop
                    invariant
                        2 <= i <= n,
                        1 <= depth,
                        depth <= i,
                        run@.len() <= i - 2,
                        spec_parse_args(
                            toks.subrange(2, toks.len() as int),
                            1,
                            Seq::empty(),
                            Seq::empty(),
                        ) == spec_parse_args(
                            toks.subrange(i as int, toks.len() as int),
                            depth as int,
                            run.deep_view(),
                            ast_view_list(arguments@),
                        ),
                    decreases n - i,
                {
                    if i >= n {
                        return Err(ParseTokensError::UnclosedDelimiter);
                    }
                    let ghost rest = toks.subrange(i as int, toks.len() as int);
                    let ghost old_run = run.deep_view();
                    let ghost old_args = ast_view_list(arguments@);
                    let ghost old_depth = depth as int;
                    proof {
                        assert(rest[0] == toks[i as int]);
                        assert(rest.subrange(1, rest.len() as int) =~= toks.subrange(
                            i + 1,
                            toks.len() as int,
                        ));
                    }
                    let tok = &tokens[i];
                    match tok {
                        Token::LeftParentheses => {
                            depth = depth + 1;
                        },
                        Token::RightParentheses => {
                            depth = depth - 1;
                        },
                        _ => {},
                    }
                    i = i + 1;
                    if depth == 0 {
                        // The closing parenthesis was consumed: finalize.
                        proof {
                            assert(spec_parse_args(rest, old_depth, old_run, old_args) == (
                            if old_args.len() == 0 && old_run.len() == 0 {
                                Ok(Seq::<AstView>::empty())
                            } else {
                                match spec_parse(old_run) {
                                    Err(e) => Err(e),
                                    Ok(a) => Ok(old_args.push(a)),
                                }
                            }));
                            ast_view_list_props(arguments@);
                        }
                        if arguments.len() == 0 && run.len() == 0 {
                            let r = Ast::Function { name, arguments };
                            proof {
                                assert(ast_view_list(r->Function_arguments@)
                                    =~= Seq::<AstView>::empty());
                            }
                            return Ok(r);
                        }
                        let ghost old_arg_vec = arguments@;
                        match Ast::parse_tokens(&run) {
                            Err(e) => {
                                return Err(e);
                            },
                            Ok(a) => {
                                let ghost a_val = a;
                                arguments.push(a);
                                proof {
                                    ast_view_list_push(old_arg_vec, a_val);
                                    assert(ast_view_list(arguments@) =~= old_args.push(a_val@));
                                }
                                return Ok(Ast::Function { name, arguments });
                            },
                        }
                    }
                    if depth == 1 && matches!(tok, Token::Comma) {
                        let ghost old_arg_vec = arguments@;
                        match Ast::parse_tokens(&run) {
                            Err(e) => {
                                return Err(e);
                            },
                            Ok(a) => {
                                let ghost a_val = a;
                                arguments.push(a);
                                run = Vec::new();
                                proof {
                                    ast_view_list_push(old_arg_vec, a_val);
                                    assert(ast_view_list(arguments@) =~= old_args.push(a_val@));
                                    assert(run.deep_view() =~= Seq::<TokenView>::empty());
                                }
                            },
                        }
                    } else {
                        run.push(tok.clone());
                        proof {
                            assert(run.deep_view() =~= old_run.push(rest[0]));
                        }
                    }
                }
            },
            other => Err(
                ParseTokensError::IllegalToken {
                    expected: Some((TokenCategory::Standalone, None)),
                    encountered: other.clone(),
                    reason: Some(String::from_str("expected a number or identifier")),
                },
            ),
        }
    }
}

/// Appending one expression appends its view.
pub proof fn ast_view_list_push(s: Seq<Ast>, a: Ast)
    ensures
        ast_view_list(s.push(a)) =~= ast_view_list(s).push(a@),
{
    ast_view_list_props(s.push(a));
    ast_view_list_props(s);
    assert forall|i: int| 0 <= i < s.len() + 1 implies ast_view_list(s.push(a))[i]
        == ast_view_list(s).push(a@)[i] by {
        if i < s.len() {
            assert(s.push(a)[i] == s[i]);
            assert(s.push(a)[i]@ == s[i]@);
            assert(ast_view_list(s)[i] == s[i]@);
        } else {
            assert(s.push(a)[i] == a);
            assert(s.push(a)[i]@ == a@);
        }
    }
}

/// Why a source string is not an expression: the lexer refused a
/// character, or the token sequence refused to parse.
#[derive(Debug)]
pub enum AstFromStrError {
    LexerError(UnsupportedCharError),
    TokenParseError(ParseTokensError),
}

/// The mathematical shape of an [`AstFromStrError`].
pub enum AstFromStrErrorView {
    LexerError(UnsupportedCharError),
    TokenParseError(ParseTokensErrorView),
}

impl View for AstFromStrError {
    type V = AstFromStrErrorView;

    open spec fn view(&self) -> AstFromStrErrorView {
        match self {
            AstFromStrError::LexerError(e) => AstFromStrErrorView::LexerError(*e),
            AstFromStrError::TokenParseError(e) => AstFromStrErrorView::TokenParseError(e@),
        }
    }
}

impl PartialEq for AstFromStrError {
    fn eq(&self, other: &AstFromStrError) -> (r: bool) {
        match (self, other) {
            (AstFromStrError::LexerError(a), AstFromStrError::LexerError(b)) => *a == *b,
            (AstFromStrError::TokenParseError(a), AstFromStrError::TokenParseError(b)) => a.eq(b),
            _ => false,
        }
    }
}

impl vstd::std_specs::cmp::PartialEqSpecImpl for AstFromStrError {
    open spec fn obeys_eq_spec() -> bool {
        true
    }

    open spec fn eq_spec(&self, other: &AstFromStrError) -> bool {
        self@ == other@
    }
}

/// What parsing source text yields: lex, then parse, each error kept
/// apart.
pub open spec fn spec_ast_from_str(s: Seq<char>) -> Result<AstView, AstFromStrErrorView> {
    match spec_lex(s) {
        Err(e) => Err(AstFromStrErrorView::LexerError(e)),
        Ok(toks) => match spec_parse(toks) {
            Err(e) => Err(AstFromStrErrorView::TokenParseError(e)),
            Ok(a) => Ok(a),
        },
    }
}

/// The result of [`Ast::from_str`], seen at the view level.
pub open spec fn from_str_result_view(
    r: Result<Ast, AstFromStrError>,
) -> Result<AstView, AstFromStrErrorView> {
    match r {
        Ok(a) => Ok(a@),
        Err(e) => Err(e@),
    }
}

impl Ast {
    /// Parses a brightness expression from source text.
    pub fn from_str(s: &str) -> (r: Result<Self, AstFromStrError>)
        ensures
            from_str_result_view(r) == spec_ast_from_str(s@),
            s@.len() == 0 ==> (r matches Err(e) && e@ == AstFromStrErrorView::TokenParseError(
                ParseTokensErrorView::NoTokens,
            )),
    {
        let tokens = match lexer(s) {
            Err(e) => {
                return Err(AstFromStrError::LexerError(e));
            },
            Ok(t) => t,
        };
        match Ast::parse_tokens(&tokens) {
            Err(e) => Err(AstFromStrError::TokenParseError(e)),
            Ok(a) => Ok(a),
        }
    }
}

impl Default for Ast {
    /// The neutral expression: the zero-argument call `current()`.
    fn default() -> (r: Self)
        ensures
            r@ == (AstView::Function { name: "current"@, arguments: Seq::<AstView>::empty() }),
    {
        let r = Ast::Function { name: String::from_str("current"), arguments: Vec::new() };
        proof {
            assert(ast_view_list(r->Function_arguments@) =~= Seq::<AstView>::empty());
        }
        r
    }
}

} // verus!
