//! `bdu`: block data update field of CTRL_REG4 (23h).
//!
//! Default value: `ContinuousDataUpdate` (0b0).

use vstd::prelude::*;

use crate::registers::State;

verus! {

/// Bit offset of the field inside CTRL_REG4.
pub const OFFSET: u8 = 7;

/// Bit width of the field.
pub const WIDTH: u8 = 1;

/// The selectable data-update policies.
#[derive(Clone, Copy, PartialEq, Eq, Structural, Debug)]
pub enum Variant {
    /// 0b0: output registers update continuously.
    ContinuousDataUpdate,
    /// 0b1: output registers hold until both bytes were read.
    BlockDataUpdate,
}

impl State for Variant {
    open spec fn raw_spec(&self) -> u8 {
        match self {
            Variant::ContinuousDataUpdate => 0b0,
            Variant::BlockDataUpdate => 0b1,
        }
    }

    fn raw(&self) -> u8 {
        match self {
            Variant::ContinuousDataUpdate => 0b0,
            Variant::BlockDataUpdate => 0b1,
        }
    }
}

} // verus!
