//! `adc_en`: ADC enable field of TEMP_CFG_REG (1Fh).
//!
//! Default value: `AdcDisabled` (0b0).

use vstd::prelude::*;

use crate::registers::State;

verus! {

/// Bit offset of the field inside TEMP_CFG_REG.
pub const OFFSET: u8 = 7;

/// Bit width of the field.
pub const WIDTH: u8 = 1;

/// The selectable ADC states.
#[derive(Clone, Copy, PartialEq, Eq, Structural, Debug)]
pub enum Variant {
    /// 0b0: ADC disabled.
    AdcDisabled,
    /// 0b1: ADC enabled.
    AdcEnabled,
}

impl State for Variant {
    open spec fn raw_spec(&self) -> u8 {
        match self {
            Variant::AdcDisabled => 0b0,
            Variant::AdcEnabled => 0b1,
        }
    }

    fn raw(&self) -> u8 {
        match self {
            Variant::AdcDisabled => 0b0,
            Variant::AdcEnabled => 0b1,
        }
    }
}

} // verus!
