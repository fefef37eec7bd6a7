//! `axis_enable`: the X/Y/Z axis-enable bits of CTRL_REG1 (20h), taken as one
//! three-bit field (`Zen` at bit 2, `Yen` at bit 1, `Xen` at bit 0).
//!
//! Default value: `XYZEnabled` (0b111).

use vstd::prelude::*;

use crate::registers::State;

verus! {

/// Bit offset of the field inside CTRL_REG1.
pub const OFFSET: u8 = 0;

/// Bit width of the field.
pub const WIDTH: u8 = 3;

/// The selectable axis combinations.
#[derive(Clone, Copy, PartialEq, Eq, Structural, Debug)]
pub enum Variant {
    /// 0b000: every axis disabled.
    XYZDisabled,
    /// 0b001: X axis only.
    XEnabled,
    /// 0b010: Y axis only.
    YEnabled,
    /// 0b011: X and Y axes.
    XYEnabled,
    /// 0b100: Z axis only.
    ZEnabled,
    /// 0b101: X and Z axes.
    XZEnabled,
    /// 0b110: Y and Z axes.
    YZEnabled,
    /// 0b111: every axis enabled.
    XYZEnabled,
}

impl State for Variant {
    open spec fn raw_spec(&self) -> u8 {
        match self {
            Variant::XYZDisabled => 0b000,
            Variant::XEnabled => 0b001,
            Variant::YEnabled => 0b010,
            Variant::XYEnabled => 0b011,
            Variant::ZEnabled => 0b100,
            Variant::XZEnabled => 0b101,
            Variant::YZEnabled => 0b110,
            Variant::XYZEnabled => 0b111,
        }
    }

    fn raw(&self) -> u8 {
        match self {
            Variant::XYZDisabled => 0b000,
            Variant::XEnabled => 0b001,
            Variant::YEnabled => 0b010,
            Variant::XYEnabled => 0b011,
            Variant::ZEnabled => 0b100,
            Variant::XZEnabled => 0b101,
            Variant::YZEnabled => 0b110,
            Variant::XYZEnabled => 0b111,
        }
    }
}

impl Variant {
    /// The state a raw field value stands for; every three-bit value names
    /// one.
    pub open spec fn from_raw_spec(raw: u8) -> Option<Variant> {
        match raw {
            0b000 => Some(Variant::XYZDisabled),
            0b001 => Some(Variant::XEnabled),
            0b010 => Some(Variant::YEnabled),
            0b011 => Some(Variant::XYEnabled),
            0b100 => Some(Variant::ZEnabled),
            0b101 => Some(Variant::XZEnabled),
            0b110 => Some(Variant::YZEnabled),
            0b111 => Some(Variant::XYZEnabled),
            _ => None,
        }
    }

    /// Decodes a raw field value.
    pub fn from_raw(raw: u8) -> (variant: Option<Variant>)
        ensures
            variant == Variant::from_raw_spec(raw),
    {
        match raw {
            0b000 => Some(Variant::XYZDisabled),
            0b001 => Some(Variant::XEnabled),
            0b010 => Some(Variant::YEnabled),
            0b011 => Some(Variant::XYEnabled),
            0b100 => Some(Variant::ZEnabled),
            0b101 => Some(Variant::XZEnabled),
            0b110 => Some(Variant::YZEnabled),
            0b111 => Some(Variant::XYZEnabled),
            _ => None,
        }
    }
}

} // verus!
