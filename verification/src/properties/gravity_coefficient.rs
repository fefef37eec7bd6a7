//! Gravity coefficient: the scale factor applied to a raw two's-complement
//! acceleration sample to obtain a value in units of g.
//!
//! The coefficient follows from the full-scale range (`fs`) and the
//! resolution. Every documented value is a whole number of thousandths of a
//! g per digit, so it is carried exactly as milli-g per digit:
//!
//! | `fs`   | 8-bit | 10-bit | 12-bit |
//! |--------|-------|--------|--------|
//! | `S2G`  | 16    | 4      | 1      |
//! | `S4G`  | 32    | 8      | 2      |
//! | `S8G`  | 64    | 16     | 4      |
//! | `S16G` | 192   | 48     | 12     |

use vstd::prelude::*;

use crate::properties::resolution;
use crate::registers::fs;

verus! {

/// A scale factor in milli-g (thousandths of a g) per digit.
#[derive(Clone, Copy, PartialEq, Eq, Structural, Debug)]
pub struct GravityCoefficient {
    /// Milli-g represented by one digit of a resolution-adjusted sample.
    pub milli_g_per_digit: u8,
}

/// The documented coefficient, in milli-g per digit, for a full-scale range
/// at a resolution.
pub open spec fn of_spec(full_scale: fs::Variant, res: resolution::Variant) -> u8 {
    match (full_scale, res) {
        (fs::Variant::S2G, resolution::Variant::R8Bit) => 16,
        (fs::Variant::S2G, resolution::Variant::R10Bit) => 4,
        (fs::Variant::S2G, resolution::Variant::R12Bit) => 1,
        (fs::Variant::S4G, resolution::Variant::R8Bit) => 32,
        (fs::Variant::S4G, resolution::Variant::R10Bit) => 8,
        (fs::Variant::S4G, resolution::Variant::R12Bit) => 2,
        (fs::Variant::S8G, resolution::Variant::R8Bit) => 64,
        (fs::Variant::S8G, resolution::Variant::R10Bit) => 16,
        (fs::Variant::S8G, resolution::Variant::R12Bit) => 4,
        (fs::Variant::S16G, resolution::Variant::R8Bit) => 192,
        (fs::Variant::S16G, resolution::Variant::R10Bit) => 48,
        (fs::Variant::S16G, resolution::Variant::R12Bit) => 12,
    }
}

impl GravityCoefficient {
    /// Returns the documented coefficient for a full-scale range at a
    /// resolution.
    pub fn of(full_scale: fs::Variant, res: resolution::Variant) -> (coefficient:
        GravityCoefficient)
        ensures
            coefficient.milli_g_per_digit == of_spec(full_scale, res),
    {
        let milli_g_per_digit: u8 = match (full_scale, res) {
            (fs::Variant::S2G, resolution::Variant::R8Bit) => 16,
            (fs::Variant::S2G, resolution::Variant::R10Bit) => 4,
            (fs::Variant::S2G, resolution::Variant::R12Bit) => 1,
            (fs::Variant::S4G, resolution::Variant::R8Bit) => 32,
            (fs::Variant::S4G, resolution::Variant::R10Bit) => 8,
            (fs::Variant::S4G, resolution::Variant::R12Bit) => 2,
            (fs::Variant::S8G, resolution::Variant::R8Bit) => 64,
            (fs::Variant::S8G, resolution::Variant::R10Bit) => 16,
            (fs::Variant::S8G, resolution::Variant::R12Bit) => 4,
            (fs::Variant::S16G, resolution::Variant::R8Bit) => 192,
            (fs::Variant::S16G, resolution::Variant::R10Bit) => 48,
            (fs::Variant::S16G, resolution::Variant::R12Bit) => 12,
        };
        GravityCoefficient { milli_g_per_digit }
    }
}

} // verus!
