//! The textual form of an easing curve: `x` is linear, `x^e` is
//! polynomial with exponent `e`, and `b^x` is exponential with base
//! `b`. Parsing tries the exponential shape first, then the
//! polynomial, then the linear, as the numeric layer around this
//! module does.
//!
//! This module owns the pattern level: which of the three shapes a
//! string has, and the parameter text it carries. Reading the
//! parameter as a number, and the validity rules on it, belong to the
//! numeric layer.

use vstd::prelude::*;

use crate::text::str_eq;

verus! {

broadcast use vstd::seq::group_seq_axioms;

/// Why easing text was rejected.
#[derive(Debug)]
pub enum EasingParseError {
    /// The text matches none of the three shapes.
    InvalidPattern,
    /// The parameter is a number the curve cannot be built from.
    InvalidNum,
    /// The parameter does not read as a number; carries the parse
    /// error's message.
    ParseFloat(String),
}

/// The mathematical shape of an [`EasingParseError`].
pub enum EasingParseErrorView {
    InvalidPattern,
    InvalidNum,
    ParseFloat(Seq<char>),
}

impl View for EasingParseError {
    type V = EasingParseErrorView;

    open spec fn view(&self) -> EasingParseErrorView {
        match self {
            EasingParseError::InvalidPattern => EasingParseErrorView::InvalidPattern,
            EasingParseError::InvalidNum => EasingParseErrorView::InvalidNum,
            EasingParseError::ParseFloat(m) => EasingParseErrorView::ParseFloat(m@),
        }
    }
}

/// The shape of easing text, with its parameter still as text.
#[derive(Debug)]
pub enum EasingPattern {
    /// `x`: the identity curve.
    Linear,
    /// `<base>^x`.
    Exponential { base: String },
    /// `x^<exponent>`.
    Polynomial { exponent: String },
}

/// The mathematical shape of an [`EasingPattern`].
pub enum EasingPatternView {
    Linear,
    Exponential { base: Seq<char> },
    Polynomial { exponent: Seq<char> },
}

impl View for EasingPattern {
    type V = EasingPatternView;

    open spec fn view(&self) -> EasingPatternView {
        match self {
            EasingPattern::Linear => EasingPatternView::Linear,
            EasingPattern::Exponential { base } => EasingPatternView::Exponential { base: base@ },
            EasingPattern::Polynomial { exponent } => EasingPatternView::Polynomial {
                exponent: exponent@,
            },
        }
    }
}

impl PartialEq for EasingPattern {
    fn eq(&self, other: &EasingPattern) -> (r: bool) {
        match (self, other) {
            (EasingPattern::Linear, EasingPattern::Linear) => true,
            (
                EasingPattern::Exponential { base: a },
                EasingPattern::Exponential { base: b },
            ) => str_eq(a.as_str(), b.as_str()),
            (
                EasingPattern::Polynomial { exponent: a },
                EasingPattern::Polynomial { exponent: b },
            ) => str_eq(a.as_str(), b.as_str()),
            _ => false,
        }
    }
}

impl vstd::std_specs::cmp::PartialEqSpecImpl for EasingPattern {
    open spec fn obeys_eq_spec() -> bool {
        true
    }

    open spec fn eq_spec(&self, other: &EasingPattern) -> bool {
        self@ == other@
    }
}

/// Which shape `s` has: ends in `^x` is exponential (tried first),
/// starts with `x^` is polynomial, exactly `x` is linear, anything
/// else matches no pattern.
pub open spec fn spec_parse_easing_pattern(s: Seq<char>) -> Result<
    EasingPatternView,
    EasingParseErrorView,
> {
    if s.len() >= 2 && s[s.len() - 1] == 'x' && s[s.len() - 2] == '^' {
        Ok(EasingPatternView::Exponential { base: s.subrange(0, s.len() - 2) })
    } else if s.len() >= 2 && s[0] == 'x' && s[1] == '^' {
        Ok(EasingPatternView::Polynomial { exponent: s.subrange(2, s.len() as int) })
    } else if s.len() == 1 && s[0] == 'x' {
        Ok(EasingPatternView::Linear)
    } else {
        Err(EasingParseErrorView::InvalidPattern)
    }
}

/// The textual form of a pattern.
pub open spec fn spec_format_easing_pattern(p: EasingPatternView) -> Seq<char> {
    match p {
        EasingPatternView::Linear => seq!['x'],
        EasingPatternView::Exponential { base } => base + seq!['^', 'x'],
        EasingPatternView::Polynomial { exponent } => seq!['x', '^'] + exponent,
    }
}

/// Classifies easing text into one of the three shapes.
pub fn parse_easing_pattern(s: &str) -> (r: Result<EasingPattern, EasingParseError>)
    ensures
        (match r {
            Ok(p) => spec_parse_easing_pattern(s@) == Ok::<EasingPatternView, EasingParseErrorView>(
                p@,
            ),
            Err(e) => spec_parse_easing_pattern(s@) == Err::<
                EasingPatternView,
                EasingParseErrorView,
            >(e@),
        }),
{
    let len = s.unicode_len();
    if len >= 2 && s.get_char(len - 1) == 'x' && s.get_char(len - 2) == '^' {
        let base = s.substring_char(0, len - 2);
        Ok(EasingPattern::Exponential { base: String::from_str(base) })
    } else if len >= 2 && s.get_char(0) == 'x' && s.get_char(1) == '^' {
        let exponent = s.substring_char(2, len);
        Ok(EasingPattern::Polynomial { exponent: String::from_str(exponent) })
    } else if len == 1 && s.get_char(0) == 'x' {
        Ok(EasingPattern::Linear)
    } else {
        Err(EasingParseError::InvalidPattern)
    }
}

/// Renders a pattern back to text.
pub fn format_easing_pattern(p: &EasingPattern) -> (r: String)
    ensures
        r@ == spec_format_easing_pattern(p@),
{
    match p {
        EasingPattern::Linear => {
            let r = String::from_str("x");
            proof {
                reveal_strlit("x");
                assert(r@ =~= seq!['x']);
            }
            r
        },
        EasingPattern::Exponential { base } => {
            let mut r = base.clone();
            r.append("^x");
            proof {
                reveal_strlit("^x");
                assert(r@ =~= base@ + seq!['^', 'x']);
            }
            r
        },
        EasingPattern::Polynomial { exponent } => {
            let mut r = String::from_str("x^");
            r.append(exponent.as_str());
            proof {
                reveal_strlit("x^");
                assert(r@ =~= seq!['x', '^'] + exponent@);
            }
            r
        },
    }
}

/// A polynomial exponent text that makes the rendered form `x^e` end
/// in `^x`, so that reparsing reads it as exponential.
pub open spec fn exponent_shadows_exponential(e: Seq<char>) -> bool {
    (e.len() == 1 && e[0] == 'x') || (e.len() >= 2 && e[e.len() - 1] == 'x' && e[e.len() - 2]
        == '^')
}

/// The format round trip: rendering a pattern and parsing the text
/// back yields the pattern again. A polynomial whose exponent text
/// itself ends like `^x` is rendered ambiguously and reparses as an
/// exponential; such exponents are excluded (no numeric exponent is
/// among them).
pub proof fn lemma_easing_pattern_round_trip(p: EasingPatternView)
    requires
        p matches EasingPatternView::Polynomial { exponent } ==> !exponent_shadows_exponential(
            exponent,
        ),
    ensures
        spec_parse_easing_pattern(spec_format_easing_pattern(p)) == Ok::<
            EasingPatternView,
            EasingParseErrorView,
        >(p),
{
    match p {
        EasingPatternView::Linear => {
            let s = spec_format_easing_pattern(p);
            assert(s.len() == 1 && s[0] == 'x');
        },
        EasingPatternView::Exponential { base } => {
            let s = spec_format_easing_pattern(p);
            assert(s[s.len() - 1] == 'x' && s[s.len() - 2] == '^');
            assert(s.subrange(0, s.len() - 2) =~= base);
        },
        EasingPatternView::Polynomial { exponent } => {
            let s = spec_format_easing_pattern(p);
            assert(s[0] == 'x' && s[1] == '^');
            if s.len() >= 2 && s[s.len() - 1] == 'x' && s[s.len() - 2] == '^' {
                if exponent.len() == 1 {
                    assert(exponent[0] == s[s.len() - 1]);
                } else if exponent.len() >= 2 {
                    assert(exponent[exponent.len() - 1] == s[s.len() - 1]);
                    assert(exponent[exponent.len() - 2] == s[s.len() - 2]);
                }
                assert(false);
            }
            assert(s.subrange(2, s.len() as int) =~= exponent);
        },
    }
}

} // verus!
