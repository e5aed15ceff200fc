//! Brightness expression language and animation engine.
//!
//! A small textual formula (`50%+`, `clamp(20, 200+, 90%)`, `restore`)
//! is lexed and parsed into an expression tree, evaluated against a
//! device snapshot to a concrete brightness value, and turned into a
//! sequence of animation frames.

pub mod animation;
pub mod brightness;
pub mod config;
pub mod device;
pub mod meta;
pub mod restoration;
pub mod text;

use vstd::prelude::*;

verus! {

/// Renders an optional number, falling back to the given placeholder.
pub fn fmt_option(opt: Option<u16>, default: &str) -> (r: String)
    ensures
        (opt matches Some(n) ==> r@ == crate::text::spec_decimal(n as nat)),
        opt is None ==> r@ == default@,
{
    match opt {
        Some(n) => crate::text::u16_to_string(n),
        None => String::from_str(default),
    }
}

} // verus!
