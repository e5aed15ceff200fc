//! Backlight-specific device state: the power switch and the hardware
//! type that sysfs reports.

pub mod bl_power;
pub mod bl_type;
