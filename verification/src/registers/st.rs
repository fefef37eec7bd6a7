//! `st`: self-test enable field of CTRL_REG4 (23h).
//!
//! Default value: `NormalMode` (0b00). The raw code 0b11 is reserved and
//! names no state.

use vstd::prelude::*;

use crate::registers::State;

verus! {

/// Bit offset of the field inside CTRL_REG4.
pub const OFFSET: u8 = 1;

/// Bit width of the field.
pub const WIDTH: u8 = 2;

/// The selectable self-test modes.
#[derive(Clone, Copy, PartialEq, Eq, Structural, Debug)]
pub enum Variant {
    /// 0b00: self-test disabled.
    NormalMode,
    /// 0b01: self-test 0.
    SelfTest0,
    /// 0b10: self-test 1.
    SelfTest1,
}

impl State for Variant {
    open spec fn raw_spec(&self) -> u8 {
        match self {
            Variant::NormalMode => 0b00,
            Variant::SelfTest0 => 0b01,
            Variant::SelfTest1 => 0b10,
        }
    }

    fn raw(&self) -> u8 {
        match self {
            Variant::NormalMode => 0b00,
            Variant::SelfTest0 => 0b01,
            Variant::SelfTest1 => 0b10,
        }
    }
}

} // verus!
