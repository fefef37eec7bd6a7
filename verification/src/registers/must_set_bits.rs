//! `must_set_bits`: the low seven bits of CTRL_REG0 (1Eh).
//!
//! The data sheet requires this pattern to hold the fixed value 0b0010000 for
//! correct operation of the device, so the single state `MustSet` is the only
//! legal (and the default) value.

use vstd::prelude::*;

use crate::registers::State;

verus! {

/// Bit offset of the field inside CTRL_REG0.
pub const OFFSET: u8 = 0;

/// Bit width of the field.
pub const WIDTH: u8 = 7;

/// The only legal state of the fixed bits.
#[derive(Clone, Copy, PartialEq, Eq, Structural, Debug)]
pub enum Variant {
    /// 0b0010000: the mandatory pattern.
    MustSet,
}

impl State for Variant {
    open spec fn raw_spec(&self) -> u8 {
        match self {
            Variant::MustSet => 0b0010000,
        }
    }

    fn raw(&self) -> u8 {
        match self {
            Variant::MustSet => 0b0010000,
        }
    }
}

} // verus!
