//! `sim`: SPI serial interface mode selection field of CTRL_REG4 (23h).
//!
//! Default value: `Spi4Wire` (0b0).

use vstd::prelude::*;

use crate::registers::State;

verus! {

/// Bit offset of the field inside CTRL_REG4.
pub const OFFSET: u8 = 0;

/// Bit width of the field.
pub const WIDTH: u8 = 1;

/// The selectable SPI interface modes.
#[derive(Clone, Copy, PartialEq, Eq, Structural, Debug)]
pub enum Variant {
    /// 0b0: 4-wire interface.
    Spi4Wire,
    /// 0b1: 3-wire interface.
    Spi3Wire,
}

impl State for Variant {
    open spec fn raw_spec(&self) -> u8 {
        match self {
            Variant::Spi4Wire => 0b0,
            Variant::Spi3Wire => 0b1,
        }
    }

    fn raw(&self) -> u8 {
        match self {
            Variant::Spi4Wire => 0b0,
            Variant::Spi3Wire => 0b1,
        }
    }
}

} // verus!
