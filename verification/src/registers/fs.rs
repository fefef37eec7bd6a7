//! `fs`: full-scale selection field of CTRL_REG4 (23h).
//!
//! Default value: `S2G` (0b00).

use vstd::prelude::*;

use crate::registers::State;

verus! {

/// Bit offset of the field inside CTRL_REG4.
pub const OFFSET: u8 = 4;

/// Bit width of the field.
pub const WIDTH: u8 = 2;

/// The selectable full-scale measurement ranges.
#[derive(Clone, Copy, PartialEq, Eq, Structural, Debug)]
pub enum Variant {
    /// 0b00: plus or minus 2 g.
    S2G,
    /// 0b01: plus or minus 4 g.
    S4G,
    /// 0b10: plus or minus 8 g.
    S8G,
    /// 0b11: plus or minus 16 g.
    S16G,
}

impl State for Variant {
    open spec fn raw_spec(&self) -> u8 {
        match self {
            Variant::S2G => 0b00,
            Variant::S4G => 0b01,
            Variant::S8G => 0b10,
            Variant::S16G => 0b11,
        }
    }

    fn raw(&self) -> u8 {
        match self {
            Variant::S2G => 0b00,
            Variant::S4G => 0b01,
            Variant::S8G => 0b10,
            Variant::S16G => 0b11,
        }
    }
}

impl Variant {
    /// The state a raw field value stands for; every two-bit value names one.
    pub open spec fn from_raw_spec(raw: u8) -> Option<Variant> {
        match raw {
            0b00 => Some(Variant::S2G),
            0b01 => Some(Variant::S4G),
            0b10 => Some(Variant::S8G),
            0b11 => Some(Variant::S16G),
            _ => None,
        }
    }

    /// Decodes a raw field value.
    pub fn from_raw(raw: u8) -> (variant: Option<Variant>)
        ensures
            variant == Variant::from_raw_spec(raw),
    {
        match raw {
            0b00 => Some(Variant::S2G),
            0b01 => Some(Variant::S4G),
            0b10 => Some(Variant::S8G),
            0b11 => Some(Variant::S16G),
            _ => None,
        }
    }
}

} // verus!
