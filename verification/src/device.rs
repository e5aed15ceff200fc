//! Device-side data: the sysfs class directories, power and type
//! states of a backlight, and the error taxonomy of device access.
//!
//! The readers and writers that touch the filesystem live outside the
//! library; here stand the pure rules they follow.

pub mod backlight;
pub mod errors;

use vstd::prelude::*;

verus! {

/// A class of brightness devices under sysfs.
#[derive(Debug, Clone, Copy, PartialEq, Eq, Structural, Hash, PartialOrd, Ord)]
pub enum DeviceClass {
    Backlight,
    Leds,
}

/// The name shown for a device that has none.
pub const UNNAMED: &'static str = "unnamed";

impl DeviceClass {
    /// The sysfs directory that lists devices of this class.
    pub fn path(&self) -> (r: &'static str)
        ensures
            *self is Backlight ==> r@ == "/sys/class/backlight/"@,
            *self is Leds ==> r@ == "/sys/class/leds/"@,
    {
        match self {
            Self::Backlight => "/sys/class/backlight/",
            Self::Leds => "/sys/class/leds/",
        }
    }
}

} // verus!
