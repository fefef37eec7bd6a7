//! `temp_en`: temperature sensor enable field of TEMP_CFG_REG (1Fh).
//!
//! Default value: `TempDisabled` (0b0).

use vstd::prelude::*;

use crate::registers::State;

verus! {

/// Bit offset of the field inside TEMP_CFG_REG.
pub const OFFSET: u8 = 6;

/// Bit width of the field.
pub const WIDTH: u8 = 1;

/// The selectable temperature sensor states.
#[derive(Clone, Copy, PartialEq, Eq, Structural, Debug)]
pub enum Variant {
    /// 0b0: temperature sensor disabled.
    TempDisabled,
    /// 0b1: temperature sensor enabled.
    TempEnabled,
}

impl State for Variant {
    open spec fn raw_spec(&self) -> u8 {
        match self {
            Variant::TempDisabled => 0b0,
            Variant::TempEnabled => 0b1,
        }
    }

    fn raw(&self) -> u8 {
        match self {
            Variant::TempDisabled => 0b0,
            Variant::TempEnabled => 0b1,
        }
    }
}

} // verus!
