//! The errors device access can produce. The underlying causes reach
//! the library as their rendered messages.

use vstd::prelude::*;

verus! {

/// Reading a device value failed: the file was unreadable, or its
/// content was not a number.
#[derive(Debug)]
pub enum DeviceReadError {
    /// The content did not parse; carries the parse error's message.
    Parse(String),
    /// The file could not be read; carries the I/O error's message.
    Read(String),
}

/// The mathematical shape of a [`DeviceReadError`].
pub enum DeviceReadErrorView {
    Parse(Seq<char>),
    Read(Seq<char>),
}

impl View for DeviceReadError {
    type V = DeviceReadErrorView;

    open spec fn view(&self) -> DeviceReadErrorView {
        match self {
            DeviceReadError::Parse(m) => DeviceReadErrorView::Parse(m@),
            DeviceReadError::Read(m) => DeviceReadErrorView::Read(m@),
        }
    }
}

impl Clone for DeviceReadError {
    fn clone(&self) -> (r: Self)
        ensures
            r@ == self@,
    {
        match self {
            DeviceReadError::Parse(m) => DeviceReadError::Parse(m.clone()),
            DeviceReadError::Read(m) => DeviceReadError::Read(m.clone()),
        }
    }
}

/// Writing a brightness value failed.
#[derive(Debug)]
pub enum DeviceWriteError {
    /// The requested value exceeds what the device supports.
    Overflow { max: u16, provided: u16 },
    /// The write itself failed; carries the I/O error's message.
    Write(String),
}

/// No device to act on.
#[derive(Debug)]
pub enum DeviceNotFound {
    /// A device of the given name was asked for and is not there.
    NoNamed { name: String },
    /// No device at all was found.
    NoFound,
}

} // verus!
