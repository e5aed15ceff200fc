//! The easing configuration: one easing per device, read from a plain
//! text file of `device = easing` lines (a line without `=` names the
//! default easing).
//!
//! This module owns the line grammar: trimming and the split at the
//! first `=`. Finding the file, reading it, and the numeric easing
//! layer live outside the library.

use vstd::prelude::*;

use crate::animation::easing::EasingParseError;
use crate::text::{find_char, spec_find_char, spec_trim, spec_trim_end, spec_trim_start, str_eq,
    trim_end_str, trim_start_str, trim_str};

verus! {

broadcast use vstd::seq::group_seq_axioms;

/// Which device a configured easing belongs to.
#[derive(Debug, Hash, Eq)]
pub enum EasingDevice {
    /// The easing used where no named one applies.
    Default,
    /// The easing of the device with this name.
    Name(String),
}

/// The mathematical shape of an [`EasingDevice`].
pub enum EasingDeviceView {
    Default,
    Name(Seq<char>),
}

impl View for EasingDevice {
    type V = EasingDeviceView;

    open spec fn view(&self) -> EasingDeviceView {
        match self {
            EasingDevice::Default => EasingDeviceView::Default,
            EasingDevice::Name(n) => EasingDeviceView::Name(n@),
        }
    }
}

impl Clone for EasingDevice {
    fn clone(&self) -> (r: Self)
        ensures
            r@ == self@,
    {
        match self {
            EasingDevice::Default => EasingDevice::Default,
            EasingDevice::Name(n) => EasingDevice::Name(n.clone()),
        }
    }
}

impl PartialEq for EasingDevice {
    fn eq(&self, other: &EasingDevice) -> (r: bool) {
        match (self, other) {
            (EasingDevice::Default, EasingDevice::Default) => true,
            (EasingDevice::Name(a), EasingDevice::Name(b)) => str_eq(a.as_str(), b.as_str()),
            _ => false,
        }
    }
}

impl vstd::std_specs::cmp::PartialEqSpecImpl for EasingDevice {
    open spec fn obeys_eq_spec() -> bool {
        true
    }

    open spec fn eq_spec(&self, other: &EasingDevice) -> bool {
        self@ == other@
    }
}

/// How one configuration line splits: at the first `=`, the device
/// name (right-trimmed) and the easing text (left-trimmed); a line
/// without `=` configures the default easing. The line itself is
/// trimmed first.
pub open spec fn spec_split_config_line(line: Seq<char>) -> (EasingDeviceView, Seq<char>) {
    let t = spec_trim(line);
    match spec_find_char(t, '=', 0) {
        Some(i) => (
            EasingDeviceView::Name(spec_trim_end(t.subrange(0, i))),
            spec_trim_start(t.subrange(i + 1, t.len() as int)),
        ),
        None => (EasingDeviceView::Default, t),
    }
}

/// Splits one configuration line into the device it names and the
/// easing text it assigns.
pub fn split_config_line(line: &str) -> (r: (EasingDevice, String))
    ensures
        (r.0@, r.1@) == spec_split_config_line(line@),
{
    let trimmed = trim_str(line);
    let tlen = trimmed.as_str().unicode_len();
    match find_char(trimmed.as_str(), '=') {
        Some(i) => {
            let before = trimmed.as_str().substring_char(0, i);
            let device = trim_end_str(before);
            let after = trimmed.as_str().substring_char(i + 1, tlen);
            let easing = trim_start_str(after);
            (EasingDevice::Name(device), easing)
        },
        None => (EasingDevice::Default, trimmed),
    }
}

/// Why the configuration file could not be used.
#[derive(Debug)]
pub enum EasingFromFileError {
    /// No path for the configuration file could be determined.
    NoPath,
    /// The file could not be read; carries the I/O error's message.
    ReadFile(String),
    /// The file's content did not parse.
    ParseError { path: String, error: MultilineEasingsParseError },
}

/// Why the configuration text did not parse.
#[derive(Debug)]
pub enum MultilineEasingsParseError {
    /// The easing on this zero-based line is malformed.
    ParseError { line_number: usize, error: EasingParseError },
    /// The device on this zero-based line was already configured.
    DuplicateDevice { line_number: usize, device: EasingDevice },
}

} // verus!
