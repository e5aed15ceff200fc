//! The hardware type a backlight reports in its `type` file.

use vstd::prelude::*;

use crate::text::str_eq;

verus! {

/// The control interface a backlight is driven through.
#[derive(Debug, Clone, Copy, PartialEq, Eq, Structural)]
pub enum BlType {
    Raw,
    Platform,
    Firmware,
}

impl BlType {
    /// The type named by the `type` file's content, if known.
    pub fn try_from(value: &str) -> (r: Result<Self, ()>)
        ensures
            value@ == "raw"@ ==> r == Ok::<BlType, ()>(BlType::Raw),
            value@ == "platform"@ ==> r == Ok::<BlType, ()>(BlType::Platform),
            value@ == "firmware"@ ==> r == Ok::<BlType, ()>(BlType::Firmware),
            value@ != "raw"@ && value@ != "platform"@ && value@ != "firmware"@ ==> r is Err,
    {
        proof {
            reveal_strlit("raw");
            reveal_strlit("platform");
            reveal_strlit("firmware");
            assert("raw"@.len() != "platform"@.len());
            assert("raw"@.len() != "firmware"@.len());
            assert("platform"@[0] != "firmware"@[0]);
        }
        if str_eq(value, "raw") {
            Ok(Self::Raw)
        } else if str_eq(value, "platform") {
            Ok(Self::Platform)
        } else if str_eq(value, "firmware") {
            Ok(Self::Firmware)
        } else {
            Err(())
        }
    }

    /// The name written in the `type` file for this type.
    pub fn name(&self) -> (r: &'static str)
        ensures
            *self is Raw ==> r@ == "raw"@,
            *self is Platform ==> r@ == "platform"@,
            *self is Firmware ==> r@ == "firmware"@,
    {
        match self {
            Self::Raw => "raw",
            Self::Platform => "platform",
            Self::Firmware => "firmware",
        }
    }
}

/// Why the `type` file did not yield a type.
#[derive(Debug)]
pub enum BlTypeReadError {
    /// The content names no known type; carries it verbatim.
    Parse(String),
    /// The file could not be read; carries the I/O error's message.
    Read(String),
}

} // verus!
