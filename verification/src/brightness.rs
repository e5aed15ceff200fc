//! The brightness expression language, and the older single-value
//! brightness change it grew out of.
//!
//! The older form is one value with an optional `%` and an optional
//! trailing `+` or `-`. Its structure — the direction suffix and the
//! split between a raw amount and percent text — is handled here; the
//! numeric reading of percent text belongs to the layer around the
//! library.

pub mod ast;
pub mod lexer;

use vstd::prelude::*;

use crate::device::errors::DeviceReadError;
use crate::text::{parse_u16, spec_parse_u16, ParseU16Error};

verus! {

broadcast use vstd::seq::group_seq_axioms;

/// Whether a single-value change is applied absolutely, added, or
/// subtracted.
#[derive(Debug, Clone, Copy, PartialEq, Eq, Structural)]
pub enum ChangeDirection {
    Dec,
    Abs,
    Inc,
}

/// Why a single-value change could not be resolved to a brightness.
#[derive(Debug)]
pub enum AbsoluteBrightnessError {
    /// The device's maximum brightness could not be determined.
    NoMax,
    /// The current brightness could not be read.
    CurrentRead(DeviceReadError),
    /// Another failure, wrapped as its message.
    Other(String),
    /// No persisted value exists; carries the path looked at.
    MissingFile(String),
}

/// The structural part of a single brightness value: a raw device
/// amount, or percent text whose number the numeric layer reads.
#[derive(Debug)]
pub enum ValueText {
    Absolute(u16),
    Percentage(String),
}

/// The mathematical shape of a [`ValueText`].
pub enum ValueTextView {
    Absolute(u16),
    Percentage(Seq<char>),
}

impl View for ValueText {
    type V = ValueTextView;

    open spec fn view(&self) -> ValueTextView {
        match self {
            ValueText::Absolute(n) => ValueTextView::Absolute(*n),
            ValueText::Percentage(s) => ValueTextView::Percentage(s@),
        }
    }
}

/// How a single value reads: a number that fits the device range is a
/// raw amount; a too-large number is rejected; otherwise the text must
/// end in `%`, and what precedes the `%` is percent text for the
/// numeric layer. The error is the user-facing message.
pub open spec fn spec_parse_value(s: Seq<char>) -> Result<ValueTextView, Seq<char>> {
    match spec_parse_u16(s) {
        Ok(n) => Ok(ValueTextView::Absolute(n)),
        Err(ParseU16Error::PosOverflow) => Err(
            "Your provided width doesn't fit into the integer (0-65535)"@,
        ),
        Err(_) => if s.len() == 0 {
            Err("Number must not be empty"@)
        } else if s[s.len() - 1] != '%' {
            Err("Relative units must end with a '%'"@)
        } else {
            Ok(ValueTextView::Percentage(s.subrange(0, s.len() - 1)))
        },
    }
}

/// Reads the structural part of a single brightness value.
pub fn parse_value(s: &str) -> (r: Result<ValueText, String>)
    ensures
        (match r {
            Ok(v) => spec_parse_value(s@) == Ok::<ValueTextView, Seq<char>>(v@),
            Err(e) => spec_parse_value(s@) == Err::<ValueTextView, Seq<char>>(e@),
        }),
{
    match parse_u16(s) {
        Ok(n) => Ok(ValueText::Absolute(n)),
        Err(ParseU16Error::PosOverflow) => Err(
            String::from_str("Your provided width doesn't fit into the integer (0-65535)"),
        ),
        Err(_) => {
            let len = s.unicode_len();
            if len == 0 {
                Err(String::from_str("Number must not be empty"))
            } else if s.get_char(len - 1) != '%' {
                Err(String::from_str("Relative units must end with a '%'"))
            } else {
                Ok(ValueText::Percentage(String::from_str(s.substring_char(0, len - 1))))
            }
        },
    }
}

/// How a whole change reads: an optional trailing `+` or `-` picks the
/// direction (absolute otherwise), and the rest is the value.
pub open spec fn spec_parse_change(s: Seq<char>) -> Result<
    (ValueTextView, ChangeDirection),
    Seq<char>,
> {
    if s.len() == 0 {
        Err("Number must not be empty"@)
    } else {
        let last = s[s.len() - 1];
        let body = if last == '+' || last == '-' {
            s.subrange(0, s.len() - 1)
        } else {
            s
        };
        let direction = if last == '+' {
            ChangeDirection::Inc
        } else if last == '-' {
            ChangeDirection::Dec
        } else {
            ChangeDirection::Abs
        };
        match spec_parse_value(body) {
            Ok(v) => Ok((v, direction)),
            Err(e) => Err(e),
        }
    }
}

/// Reads the structural part of a whole brightness change.
pub fn parse_change(s: &str) -> (r: Result<(ValueText, ChangeDirection), String>)
    ensures
        (match r {
            Ok(v) => spec_parse_change(s@) == Ok::<(ValueTextView, ChangeDirection), Seq<char>>(
                (v.0@, v.1),
            ),
            Err(e) => spec_parse_change(s@) == Err::<(ValueTextView, ChangeDirection), Seq<char>>(
                e@,
            ),
        }),
{
    let len = s.unicode_len();
    if len == 0 {
        return Err(String::from_str("Number must not be empty"));
    }
    let last = s.get_char(len - 1);
    let body = if last == '+' || last == '-' {
        s.substring_char(0, len - 1)
    } else {
        proof {
            assert(s@.subrange(0, s@.len() as int) =~= s@);
        }
        s.substring_char(0, len)
    };
    let direction = if last == '+' {
        ChangeDirection::Inc
    } else if last == '-' {
        ChangeDirection::Dec
    } else {
        ChangeDirection::Abs
    };
    match parse_value(body) {
        Ok(v) => Ok((v, direction)),
        Err(e) => Err(e),
    }
}

} // verus!
