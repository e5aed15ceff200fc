//! The `bl_power` switch of a backlight: on is 0, off is 4 (the
//! values sysfs uses).

use vstd::prelude::*;

verus! {

/// Whether the backlight is powered.
#[derive(Debug, Clone, Copy, PartialEq, Eq, Structural)]
pub enum BlPower {
    On,
    Off,
}

impl BlPower {
    /// The state a `bl_power` number denotes: 0 is on, 4 is off,
    /// anything else is unknown.
    pub fn try_new(num: u8) -> (r: Option<Self>)
        ensures
            num == 0 ==> r == Some(BlPower::On),
            num == 4 ==> r == Some(BlPower::Off),
            num != 0 && num != 4 ==> r is None,
    {
        match num {
            0 => Some(Self::On),
            4 => Some(Self::Off),
            _ => None,
        }
    }

    /// The number written back to `bl_power` for this state.
    pub fn to_number(&self) -> (r: u8)
        ensures
            *self is On ==> r == 0,
            *self is Off ==> r == 4,
    {
        match self {
            Self::On => 0,
            Self::Off => 4,
        }
    }

    /// The display name of the state.
    pub fn name(&self) -> (r: &'static str)
        ensures
            *self is On ==> r@ == "on"@,
            *self is Off ==> r@ == "off"@,
    {
        match self {
            Self::On => "on",
            Self::Off => "off",
        }
    }
}

/// Why the `bl_power` file did not yield a state.
#[derive(Debug)]
pub enum BlPowerReadError {
    /// The content did not parse as a number; carries the message.
    Parse(String),
    /// The file could not be read; carries the I/O error's message.
    Read(String),
    /// The number read is not a known state.
    InvalidNumber(u8),
}

} // verus!
