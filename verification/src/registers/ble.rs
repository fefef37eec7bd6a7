//! `ble`: big/little endian data selection field of CTRL_REG4 (23h).
//!
//! Default value: `LittleEndian` (0b0).
//!
//! Entitlements:
//! - `BigEndian` requires `hr::Variant::HighResolution`.

use vstd::prelude::*;

use crate::registers::State;

verus! {

/// Bit offset of the field inside CTRL_REG4.
pub const OFFSET: u8 = 6;

/// Bit width of the field.
pub const WIDTH: u8 = 1;

/// The selectable byte orders of the output registers.
#[derive(Clone, Copy, PartialEq, Eq, Structural, Debug)]
pub enum Variant {
    /// 0b0: data LSB at the lower address.
    LittleEndian,
    /// 0b1: data MSB at the lower address.
    BigEndian,
}

impl State for Variant {
    open spec fn raw_spec(&self) -> u8 {
        match self {
            Variant::LittleEndian => 0b0,
            Variant::BigEndian => 0b1,
        }
    }

    fn raw(&self) -> u8 {
        match self {
            Variant::LittleEndian => 0b0,
            Variant::BigEndian => 0b1,
        }
    }
}

} // verus!
