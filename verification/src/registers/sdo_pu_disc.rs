//! `sdo_pu_disc`: SDO/SA0 pull-up disconnect field of CTRL_REG0 (1Eh).
//!
//! Default value: `SdoPulledUp` (0b0).

use vstd::prelude::*;

use crate::registers::State;

verus! {

/// Bit offset of the field inside CTRL_REG0.
pub const OFFSET: u8 = 7;

/// Bit width of the field.
pub const WIDTH: u8 = 1;

/// The selectable pull-up connections of the SDO/SA0 pin.
#[derive(Clone, Copy, PartialEq, Eq, Structural, Debug)]
pub enum Variant {
    /// 0b0: pull-up connected to the SDO/SA0 pin.
    SdoPulledUp,
    /// 0b1: pull-up disconnected from the SDO/SA0 pin.
    SdoFloating,
}

impl State for Variant {
    open spec fn raw_spec(&self) -> u8 {
        match self {
            Variant::SdoPulledUp => 0b0,
            Variant::SdoFloating => 0b1,
        }
    }

    fn raw(&self) -> u8 {
        match self {
            Variant::SdoPulledUp => 0b0,
            Variant::SdoFloating => 0b1,
        }
    }
}

} // verus!
