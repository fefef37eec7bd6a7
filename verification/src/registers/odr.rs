//! `odr`: data-rate selection field of CTRL_REG1 (20h).
//!
//! Default value: `PowerDown` (0b0000).
//!
//! The raw code 0b1001 is overloaded by the hardware: it selects 1.344 kHz
//! when the sensor runs in normal power mode and 5.376 kHz when it runs in
//! low-power mode. The two meanings are kept as distinct states with the same
//! raw value, and the entitlement rules tie each one to the power mode it
//! belongs to.
//!
//! Entitlements:
//! - `F1600Hz` requires `lp_en::Variant::LowPowerMode`;
//! - `F1344Hz` requires `lp_en::Variant::NormalPowerMode`;
//! - `F5376Hz` requires `lp_en::Variant::LowPowerMode`.

use vstd::prelude::*;

use crate::registers::lp_en;
use crate::registers::State;

verus! {

/// Bit offset of the field inside CTRL_REG1.
pub const OFFSET: u8 = 4;

/// Bit width of the field.
pub const WIDTH: u8 = 4;

/// The selectable output data rates.
#[derive(Clone, Copy, PartialEq, Eq, Structural, Debug)]
pub enum Variant {
    /// 0b0000: no data output.
    PowerDown,
    /// 0b0001: 1 Hz.
    F1Hz,
    /// 0b0010: 10 Hz.
    F10Hz,
    /// 0b0011: 25 Hz.
    F25Hz,
    /// 0b0100: 50 Hz.
    F50Hz,
    /// 0b0101: 100 Hz.
    F100Hz,
    /// 0b0110: 200 Hz.
    F200Hz,
    /// 0b0111: 400 Hz.
    F400Hz,
    /// 0b1000: 1.60 kHz, available in low-power mode only.
    F1600Hz,
    /// 0b1001: 1.344 kHz, available in normal power mode only.
    F1344Hz,
    /// 0b1001: 5.376 kHz, available in low-power mode only; shares its raw
    /// code with `F1344Hz`.
    F5376Hz,
}

impl State for Variant {
    open spec fn raw_spec(&self) -> u8 {
        match self {
            Variant::PowerDown => 0b0000,
            Variant::F1Hz => 0b0001,
            Variant::F10Hz => 0b0010,
            Variant::F25Hz => 0b0011,
            Variant::F50Hz => 0b0100,
            Variant::F100Hz => 0b0101,
            Variant::F200Hz => 0b0110,
            Variant::F400Hz => 0b0111,
            Variant::F1600Hz => 0b1000,
            Variant::F1344Hz => 0b1001,
            Variant::F5376Hz => 0b1001,
        }
    }

    fn raw(&self) -> u8 {
        match self {
            Variant::PowerDown => 0b0000,
            Variant::F1Hz => 0b0001,
            Variant::F10Hz => 0b0010,
            Variant::F25Hz => 0b0011,
            Variant::F50Hz => 0b0100,
            Variant::F100Hz => 0b0101,
            Variant::F200Hz => 0b0110,
            Variant::F400Hz => 0b0111,
            Variant::F1600Hz => 0b1000,
            Variant::F1344Hz => 0b1001,
            Variant::F5376Hz => 0b1001,
        }
    }
}

impl Variant {
    /// The state a raw field value stands for, read under the active power
    /// mode: the overloaded code 0b1001 means 1.344 kHz in normal power mode
    /// and 5.376 kHz in low-power mode. Raw values above 0b1001 name no
    /// state.
    pub open spec fn from_raw_spec(raw: u8, power_mode: lp_en::Variant) -> Option<Variant> {
        match raw {
            0b0000 => Some(Variant::PowerDown),
            0b0001 => Some(Variant::F1Hz),
            0b0010 => Some(Variant::F10Hz),
            0b0011 => Some(Variant::F25Hz),
            0b0100 => Some(Variant::F50Hz),
            0b0101 => Some(Variant::F100Hz),
            0b0110 => Some(Variant::F200Hz),
            0b0111 => Some(Variant::F400Hz),
            0b1000 => Some(Variant::F1600Hz),
            0b1001 => match power_mode {
                lp_en::Variant::NormalPowerMode => Some(Variant::F1344Hz),
                lp_en::Variant::LowPowerMode => Some(Variant::F5376Hz),
            },
            _ => None,
        }
    }

    /// Decodes a raw field value under the active power mode.
    pub fn from_raw(raw: u8, power_mode: lp_en::Variant) -> (variant: Option<Variant>)
        ensures
            variant == Variant::from_raw_spec(raw, power_mode),
    {
        match raw {
            0b0000 => Some(Variant::PowerDown),
            0b0001 => Some(Variant::F1Hz),
            0b0010 => Some(Variant::F10Hz),
            0b0011 => Some(Variant::F25Hz),
            0b0100 => Some(Variant::F50Hz),
            0b0101 => Some(Variant::F100Hz),
            0b0110 => Some(Variant::F200Hz),
            0b0111 => Some(Variant::F400Hz),
            0b1000 => Some(Variant::F1600Hz),
            0b1001 => match power_mode {
                lp_en::Variant::NormalPowerMode => Some(Variant::F1344Hz),
                lp_en::Variant::LowPowerMode => Some(Variant::F5376Hz),
            },
            _ => None,
        }
    }
}

} // verus!
