//! Acceleration samples: decoding raw output bytes and packing values back
//! into bytes.
//!
//! The sensor outputs two bytes per axis, little-endian, forming a 16-bit
//! two's-complement value whose significant bits sit at the top; the bits
//! below the active resolution are padding. Decoding therefore reads the
//! pair as a signed 16-bit integer and arithmetic-shifts it right by
//! `16 - resolution` bits, which is exactly a floor division by
//! `2^(16 - resolution)`.

use vstd::arithmetic::div_mod::lemma_div_multiples_vanish_fancy;
use vstd::arithmetic::div_mod::lemma_fundamental_div_mod;
use vstd::arithmetic::div_mod::lemma_mod_bound;
use vstd::prelude::*;

use crate::properties::resolution;

verus! {

/// The 16-bit two's-complement value carried by a little-endian byte pair.
pub open spec fn le_i16_spec(lower_byte: u8, upper_byte: u8) -> int {
    let unsigned = upper_byte * 256 + lower_byte;
    if unsigned < 32768 {
        unsigned as int
    } else {
        unsigned - 65536
    }
}

/// The power of two that an arithmetic shift right by `16 - resolution`
/// bits divides by.
pub open spec fn shift_divisor_spec(res: resolution::Variant) -> int {
    match res {
        resolution::Variant::R8Bit => 256,
        resolution::Variant::R10Bit => 64,
        resolution::Variant::R12Bit => 16,
    }
}

/// The resolution-adjusted signed value of a little-endian byte pair: the
/// 16-bit two's-complement reading arithmetic-shifted right past its padding
/// bits (floor division, which preserves the sign).
pub open spec fn decoded_sample_spec(lower_byte: u8, upper_byte: u8, res: resolution::Variant) -> int {
    le_i16_spec(lower_byte, upper_byte) / shift_divisor_spec(res)
}

/// The unsigned 16-bit pattern that encodes `value` in two's complement.
pub open spec fn sample_bits_spec(value: i16) -> int {
    if value >= 0 {
        value as int
    } else {
        value + 65536
    }
}

/// Subtracting one whole period from the dividend lowers a floor division
/// by positive `divisor` by exactly `65536 / divisor` steps.
proof fn lemma_shift_past_sign(unsigned: int, divisor: int, steps: int)
    requires
        0 < divisor,
        divisor * steps == 65536,
        0 <= unsigned < 65536,
    ensures
        (unsigned - 65536) / divisor == unsigned / divisor - steps,
{
    lemma_fundamental_div_mod(unsigned, divisor);
    lemma_mod_bound(unsigned, divisor);
    assert(unsigned - 65536 == divisor * (unsigned / divisor - steps) + unsigned % divisor)
        by (nonlinear_arith)
        requires
            unsigned == divisor * (unsigned / divisor) + unsigned % divisor,
            divisor * steps == 65536,
    ;
    lemma_div_multiples_vanish_fancy(unsigned / divisor - steps, unsigned % divisor, divisor);
}

/// Combines a little-endian byte pair into the signed value it encodes,
/// truncated to the active resolution: the 16-bit two's-complement reading
/// is arithmetic-shifted right past its padding bits.
pub fn decode_sample(lower_byte: u8, upper_byte: u8, res: resolution::Variant) -> (value: i16)
    ensures
        value as int == decoded_sample_spec(lower_byte, upper_byte, res),
{
    let divisor: u32 = match res {
        resolution::Variant::R8Bit => 256,
        resolution::Variant::R10Bit => 64,
        resolution::Variant::R12Bit => 16,
    };
    let steps: u32 = 65536 / divisor;
    let unsigned: u32 = (upper_byte as u32) * 256 + (lower_byte as u32);
    let quotient: u32 = unsigned / divisor;
    if unsigned >= 32768 {
        proof {
            lemma_shift_past_sign(unsigned as int, divisor as int, steps as int);
        }
        (quotient as i32 - steps as i32) as i16
    } else {
        quotient as i16
    }
}

/// A single resolution-adjusted acceleration value.
#[derive(Clone, Copy, PartialEq, Eq, Structural, Debug)]
pub struct Acceleration {
    /// Discretized measure of acceleration, adjusted for the active
    /// resolution.
    pub value: i16,
}

impl Acceleration {
    /// Wraps a resolution-adjusted reading.
    pub fn new(value: i16) -> (acceleration: Acceleration)
        ensures
            acceleration.value == value,
    {
        Acceleration { value }
    }

    /// Returns the value as bytes in the order `[upper, lower]` of its
    /// 16-bit two's-complement pattern.
    pub fn to_be_bytes(&self) -> (bytes: [u8; 2])
        ensures
            bytes@[0] == sample_bits_spec(self.value) / 256,
            bytes@[1] == sample_bits_spec(self.value) % 256,
    {
        let bits: u32 = if self.value >= 0 {
            self.value as u32
        } else {
            (self.value as i32 + 65536) as u32
        };
        [(bits / 256) as u8, (bits % 256) as u8]
    }
}

/// A 3-axis acceleration vector.
#[derive(Clone, Copy, PartialEq, Eq, Structural, Debug)]
pub struct AccelerationVector {
    pub x: Acceleration,
    pub y: Acceleration,
    pub z: Acceleration,
}

impl AccelerationVector {
    /// The vector with every axis at rest: zero acceleration on x, y and z.
    pub fn zero() -> (vector: AccelerationVector)
        ensures
            vector.x.value == 0,
            vector.y.value == 0,
            vector.z.value == 0,
    {
        AccelerationVector {
            x: Acceleration { value: 0 },
            y: Acceleration { value: 0 },
            z: Acceleration { value: 0 },
        }
    }

    /// Decodes the six output bytes `[x_low, x_high, y_low, y_high, z_low,
    /// z_high]` into the three resolution-adjusted axis values.
    pub fn from_raw_bytes(bytes: &Vec<u8>, res: resolution::Variant) -> (vector:
        AccelerationVector)
        requires
            bytes@.len() == 6,
        ensures
            vector.x.value == decoded_sample_spec(bytes@[0], bytes@[1], res),
            vector.y.value == decoded_sample_spec(bytes@[2], bytes@[3], res),
            vector.z.value == decoded_sample_spec(bytes@[4], bytes@[5], res),
    {
        let x = Acceleration::new(decode_sample(bytes[0], bytes[1], res));
        let y = Acceleration::new(decode_sample(bytes[2], bytes[3], res));
        let z = Acceleration::new(decode_sample(bytes[4], bytes[5], res));
        AccelerationVector { x, y, z }
    }

    /// Returns the vector as bytes in the order `[x_upper, x_lower,
    /// y_upper, y_lower, z_upper, z_lower]`.
    pub fn to_be_bytes(&self) -> (bytes: [u8; 6])
        ensures
            bytes@[0] == sample_bits_spec(self.x.value) / 256,
            bytes@[1] == sample_bits_spec(self.x.value) % 256,
            bytes@[2] == sample_bits_spec(self.y.value) / 256,
            bytes@[3] == sample_bits_spec(self.y.value) % 256,
            bytes@[4] == sample_bits_spec(self.z.value) / 256,
            bytes@[5] == sample_bits_spec(self.z.value) % 256,
    {
        let x_bytes = self.x.to_be_bytes();
        let y_bytes = self.y.to_be_bytes();
        let z_bytes = self.z.to_be_bytes();
        [x_bytes[0], x_bytes[1], y_bytes[0], y_bytes[1], z_bytes[0], z_bytes[1]]
    }
}

} // verus!
