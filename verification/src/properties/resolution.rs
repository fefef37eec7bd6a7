//! Resolution: the effective bit-width of an acceleration sample.
//!
//! The LIS3DH provides three operating modes: low-power mode (8-bit data
//! output), normal mode (10-bit) and high-resolution mode (12-bit). The
//! resolution follows from the `lp_en` and `hr` bit-fields:
//!
//! | Resolution | `lp_en` | `hr` |
//! |------------|---------|------|
//! | 8-bit      | 1       | 0    |
//! | 10-bit     | 0       | 0    |
//! | 12-bit     | 0       | 1    |
//! | not allowed| 1       | 1    |

use vstd::prelude::*;

use crate::registers::hr;
use crate::registers::lp_en;

verus! {

/// The three sample bit-widths the sensor can produce.
#[derive(Clone, Copy, PartialEq, Eq, Structural, Debug)]
pub enum Variant {
    /// 8-bit data output (low-power mode).
    R8Bit,
    /// 10-bit data output (normal mode).
    R10Bit,
    /// 12-bit data output (high-resolution mode).
    R12Bit,
}

impl Variant {
    /// The number of significant bits of a sample at this resolution.
    pub open spec fn bits_spec(self) -> u8 {
        match self {
            Variant::R8Bit => 8,
            Variant::R10Bit => 10,
            Variant::R12Bit => 12,
        }
    }

    /// Returns the number of significant bits of a sample at this
    /// resolution.
    pub fn bits(self) -> (bits: u8)
        ensures
            bits == self.bits_spec(),
    {
        match self {
            Variant::R8Bit => 8,
            Variant::R10Bit => 10,
            Variant::R12Bit => 12,
        }
    }
}

/// The resolution produced by a power mode and a resolution mode, or `None`
/// for the pair the data sheet marks "not allowed" (low-power mode together
/// with high-resolution mode).
pub open spec fn of_spec(power_mode: lp_en::Variant, resolution_mode: hr::Variant) -> Option<
    Variant,
> {
    match (power_mode, resolution_mode) {
        (lp_en::Variant::LowPowerMode, hr::Variant::NormalResolution) => Some(Variant::R8Bit),
        (lp_en::Variant::NormalPowerMode, hr::Variant::NormalResolution) => Some(Variant::R10Bit),
        (lp_en::Variant::NormalPowerMode, hr::Variant::HighResolution) => Some(Variant::R12Bit),
        (lp_en::Variant::LowPowerMode, hr::Variant::HighResolution) => None,
    }
}

/// Returns the resolution produced by a power mode and a resolution mode,
/// or `None` for the disallowed pair.
pub fn of(power_mode: lp_en::Variant, resolution_mode: hr::Variant) -> (resolution: Option<
    Variant,
>)
    ensures
        resolution == of_spec(power_mode, resolution_mode),
{
    match (power_mode, resolution_mode) {
        (lp_en::Variant::LowPowerMode, hr::Variant::NormalResolution) => Some(Variant::R8Bit),
        (lp_en::Variant::NormalPowerMode, hr::Variant::NormalResolution) => Some(Variant::R10Bit),
        (lp_en::Variant::NormalPowerMode, hr::Variant::HighResolution) => Some(Variant::R12Bit),
        (lp_en::Variant::LowPowerMode, hr::Variant::HighResolution) => None,
    }
}

} // verus!
