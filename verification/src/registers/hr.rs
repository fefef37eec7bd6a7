//! `hr`: high-resolution output mode field of CTRL_REG4 (23h).
//!
//! Default value: `NormalResolution` (0b0).
//!
//! Entitlements:
//! - `HighResolution` requires `lp_en::Variant::NormalPowerMode`.

use vstd::prelude::*;

use crate::registers::State;

verus! {

/// Bit offset of the field inside CTRL_REG4.
pub const OFFSET: u8 = 3;

/// Bit width of the field.
pub const WIDTH: u8 = 1;

/// The selectable resolution modes.
#[derive(Clone, Copy, PartialEq, Eq, Structural, Debug)]
pub enum Variant {
    /// 0b0: high-resolution output disabled.
    NormalResolution,
    /// 0b1: high-resolution output enabled.
    HighResolution,
}

impl State for Variant {
    open spec fn raw_spec(&self) -> u8 {
        match self {
            Variant::NormalResolution => 0b0,
            Variant::HighResolution => 0b1,
        }
    }

    fn raw(&self) -> u8 {
        match self {
            Variant::NormalResolution => 0b0,
            Variant::HighResolution => 0b1,
        }
    }
}

impl Variant {
    /// The state a single raw bit stands for.
    pub open spec fn from_raw_spec(raw: u8) -> Option<Variant> {
        match raw {
            0b0 => Some(Variant::NormalResolution),
            0b1 => Some(Variant::HighResolution),
            _ => None,
        }
    }

    /// Decodes a raw field value.
    pub fn from_raw(raw: u8) -> (variant: Option<Variant>)
        ensures
            variant == Variant::from_raw_spec(raw),
    {
        match raw {
            0b0 => Some(Variant::NormalResolution),
            0b1 => Some(Variant::HighResolution),
            _ => None,
        }
    }
}

} // verus!
