//! Sample decoding, byte packing, and the derived properties.

use lis3dh::acceleration_data_structs::{decode_sample, Acceleration, AccelerationVector};
use lis3dh::properties::{gravity_coefficient, resolution};
use lis3dh::registers::{fs, hr, lp_en};

#[test]
fn decodes_12_bit_positive_sample() {
    // [0xFF, 0x0F] at 12-bit resolution: 0x0FFF shifted right by 4.
    assert_eq!(decode_sample(0xFF, 0x0F, resolution::Variant::R12Bit), 255);
}

#[test]
fn decodes_8_bit_most_negative_sample() {
    // [0x00, 0x80] at 8-bit resolution: the most negative 8-bit value.
    assert_eq!(decode_sample(0x00, 0x80, resolution::Variant::R8Bit), -128);
}

#[test]
fn decodes_small_negative_sample_preserving_sign() {
    // 0xFFF0 is -16 as a 16-bit value; shifted right by 4 it stays -1.
    assert_eq!(decode_sample(0xF0, 0xFF, resolution::Variant::R12Bit), -1);
}

#[test]
fn decodes_10_bit_sample() {
    // 0x0140 = 320; shifted right by 6 at 10-bit resolution.
    assert_eq!(decode_sample(0x40, 0x01, resolution::Variant::R10Bit), 5);
}

#[test]
fn decodes_extreme_values_per_resolution() {
    assert_eq!(decode_sample(0xFF, 0x7F, resolution::Variant::R12Bit), 2047);
    assert_eq!(decode_sample(0x00, 0x80, resolution::Variant::R12Bit), -2048);
    assert_eq!(decode_sample(0xFF, 0x7F, resolution::Variant::R10Bit), 511);
    assert_eq!(decode_sample(0x00, 0x80, resolution::Variant::R10Bit), -512);
    assert_eq!(decode_sample(0xFF, 0x7F, resolution::Variant::R8Bit), 127);
}

#[test]
fn resolution_follows_power_and_resolution_modes() {
    assert_eq!(
        resolution::of(lp_en::Variant::LowPowerMode, hr::Variant::NormalResolution),
        Some(resolution::Variant::R8Bit)
    );
    assert_eq!(
        resolution::of(lp_en::Variant::NormalPowerMode, hr::Variant::NormalResolution),
        Some(resolution::Variant::R10Bit)
    );
    assert_eq!(
        resolution::of(lp_en::Variant::NormalPowerMode, hr::Variant::HighResolution),
        Some(resolution::Variant::R12Bit)
    );
    assert_eq!(
        resolution::of(lp_en::Variant::LowPowerMode, hr::Variant::HighResolution),
        None
    );
}

#[test]
fn resolution_bit_widths() {
    assert_eq!(resolution::Variant::R8Bit.bits(), 8);
    assert_eq!(resolution::Variant::R10Bit.bits(), 10);
    assert_eq!(resolution::Variant::R12Bit.bits(), 12);
}

#[test]
fn gravity_coefficient_4g_at_10_bit_is_8_milli_g() {
    // Full-scale +/-4 g at 10-bit resolution: 0.008 g per digit.
    let coefficient = gravity_coefficient::GravityCoefficient::of(
        fs::Variant::S4G,
        resolution::Variant::R10Bit,
    );
    assert_eq!(coefficient.milli_g_per_digit, 8);
}

#[test]
fn gravity_coefficient_table_corners() {
    let of = gravity_coefficient::GravityCoefficient::of;
    assert_eq!(of(fs::Variant::S2G, resolution::Variant::R12Bit).milli_g_per_digit, 1);
    assert_eq!(of(fs::Variant::S2G, resolution::Variant::R8Bit).milli_g_per_digit, 16);
    assert_eq!(of(fs::Variant::S16G, resolution::Variant::R12Bit).milli_g_per_digit, 12);
    assert_eq!(of(fs::Variant::S16G, resolution::Variant::R8Bit).milli_g_per_digit, 192);
}

#[test]
fn packs_acceleration_into_big_endian_bytes() {
    assert_eq!(Acceleration::new(0x1234).to_be_bytes(), [0x12, 0x34]);
    assert_eq!(Acceleration::new(0).to_be_bytes(), [0x00, 0x00]);
    assert_eq!(Acceleration::new(-1).to_be_bytes(), [0xFF, 0xFF]);
    assert_eq!(Acceleration::new(-32768).to_be_bytes(), [0x80, 0x00]);
}

#[test]
fn packs_vector_into_big_endian_bytes() {
    let vector = AccelerationVector {
        x: Acceleration::new(0x0102),
        y: Acceleration::new(-2),
        z: Acceleration::new(255),
    };
    assert_eq!(
        vector.to_be_bytes(),
        [0x01, 0x02, 0xFF, 0xFE, 0x00, 0xFF]
    );
}

#[test]
fn zero_vector_rests_on_every_axis() {
    let vector = AccelerationVector::zero();
    assert_eq!(vector.x.value, 0);
    assert_eq!(vector.y.value, 0);
    assert_eq!(vector.z.value, 0);
    assert_eq!(vector.to_be_bytes(), [0, 0, 0, 0, 0, 0]);
}

#[test]
fn decodes_vector_from_output_bytes() {
    let bytes = vec![0xFF, 0x0F, 0x00, 0x80, 0xF0, 0xFF];
    let vector = AccelerationVector::from_raw_bytes(&bytes, resolution::Variant::R12Bit);
    assert_eq!(vector.x.value, 255);
    assert_eq!(vector.y.value, -2048);
    assert_eq!(vector.z.value, -1);
}
