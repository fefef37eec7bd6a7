//! `lp_en`: low-power mode enable field of CTRL_REG1 (20h).
//!
//! Default value: `NormalPowerMode` (0b0).

use vstd::prelude::*;

use crate::registers::State;

verus! {

/// Bit offset of the field inside CTRL_REG1.
pub const OFFSET: u8 = 3;

/// Bit width of the field.
pub const WIDTH: u8 = 1;

/// The selectable power modes.
#[derive(Clone, Copy, PartialEq, Eq, Structural, Debug)]
pub enum Variant {
    /// 0b0: high-resolution / normal mode.
    NormalPowerMode,
    /// 0b1: low-power mode.
    LowPowerMode,
}

impl State for Variant {
    open spec fn raw_spec(&self) -> u8 {
        match self {
            Variant::NormalPowerMode => 0b0,
            Variant::LowPowerMode => 0b1,
        }
    }

    fn raw(&self) -> u8 {
        match self {
            Variant::NormalPowerMode => 0b0,
            Variant::LowPowerMode => 0b1,
        }
    }
}

impl Variant {
    /// The state a single raw bit stands for.
    pub open spec fn from_raw_spec(raw: u8) -> Option<Variant> {
        match raw {
            0b0 => Some(Variant::NormalPowerMode),
            0b1 => Some(Variant::LowPowerMode),
            _ => None,
        }
    }

    /// Decodes a raw field value.
    pub fn from_raw(raw: u8) -> (variant: Option<Variant>)
        ensures
            variant == Variant::from_raw_spec(raw),
    {
        match raw {
            0b0 => Some(Variant::NormalPowerMode),
            0b1 => Some(Variant::LowPowerMode),
            _ => None,
        }
    }
}

} // verus!
