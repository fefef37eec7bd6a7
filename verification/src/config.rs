//! Configuration of the LIS3DH: validation and byte rendering.
//!
//! A [`Config`] picks one state per managed bit-field. Some states are only
//! legal in combination with states of other fields (the entitlement rules
//! listed in the field modules); [`Config::validate`] checks them all and is
//! the only way to obtain a [`ValidConfig`], which in turn is the only path
//! to rendering register bytes. No illegal byte pattern is producible.

use vstd::prelude::*;

use crate::properties::resolution;
use crate::registers::adc_en;
use crate::registers::axis_enable;
use crate::registers::bdu;
use crate::registers::ble;
use crate::registers::field_mask;
use crate::registers::field_mask_spec;
use crate::registers::fs;
use crate::registers::hr;
use crate::registers::lp_en;
use crate::registers::must_set_bits;
use crate::registers::odr;
use crate::registers::sdo_pu_disc;
use crate::registers::sim;
use crate::registers::st;
use crate::registers::temp_en;
use crate::registers::State;
use crate::sealed::Sealed;

verus! {

/// One chosen state per managed bit-field of the sensor.
#[derive(Clone, Copy, PartialEq, Eq, Structural, Debug)]
pub struct Config {
    /// Output data rate (`odr` field of CTRL_REG1).
    pub data_rate: odr::Variant,
    /// Power mode (`lp_en` field of CTRL_REG1).
    pub power_mode: lp_en::Variant,
    /// Enabled axes (`axis_enable` field of CTRL_REG1).
    pub axis_enable: axis_enable::Variant,
    /// Full-scale range (`fs` field of CTRL_REG4).
    pub full_scale: fs::Variant,
    /// Resolution mode (`hr` field of CTRL_REG4).
    pub resolution_mode: hr::Variant,
}

impl Config {
    /// Whether the chosen data rate is entitled to the chosen power mode:
    /// 1.344 kHz exists only in normal power mode, while 1.60 kHz and
    /// 5.376 kHz exist only in low-power mode.
    pub open spec fn data_rate_entitled(self) -> bool {
        match self.data_rate {
            odr::Variant::F1600Hz => self.power_mode == lp_en::Variant::LowPowerMode,
            odr::Variant::F1344Hz => self.power_mode == lp_en::Variant::NormalPowerMode,
            odr::Variant::F5376Hz => self.power_mode == lp_en::Variant::LowPowerMode,
            _ => true,
        }
    }

    /// Whether the chosen resolution mode is entitled to the chosen power
    /// mode: high-resolution output together with low-power mode is marked
    /// "not allowed" by the data sheet.
    pub open spec fn resolution_mode_entitled(self) -> bool {
        self.resolution_mode == hr::Variant::HighResolution ==> self.power_mode
            == lp_en::Variant::NormalPowerMode
    }

    /// Whether every entitlement rule holds, i.e. whether the configuration
    /// may be rendered to bytes.
    pub open spec fn valid(self) -> bool {
        self.data_rate_entitled() && self.resolution_mode_entitled()
    }

    /// The rejection reported for an invalid configuration: the data-rate
    /// rule is checked first, then the resolution-mode rule.
    pub open spec fn violation_spec(self) -> InvalidConfiguration {
        if !self.data_rate_entitled() {
            if self.data_rate == odr::Variant::F1344Hz {
                InvalidConfiguration::DataRateNeedsNormalPowerMode { data_rate: self.data_rate }
            } else {
                InvalidConfiguration::DataRateNeedsLowPowerMode { data_rate: self.data_rate }
            }
        } else {
            InvalidConfiguration::HighResolutionNeedsNormalPowerMode
        }
    }

    /// Checks every entitlement rule and, exactly when all hold, hands back
    /// the validated configuration; otherwise reports which field/state pair
    /// failed against which dependency. No byte is rendered on rejection.
    ///
    /// Entitlements are evaluated as a closure over the dependency edges;
    /// in the managed field set every edge ends at the power mode, which
    /// carries no rule of its own, so checking each rule against the chosen
    /// states settles the chains.
    pub fn validate(self) -> (result: Result<ValidConfig, InvalidConfiguration>)
        ensures
            result is Ok <==> self.valid(),
            result is Ok ==> result->Ok_0.config_spec() == self,
            result is Err ==> result->Err_0 == self.violation_spec(),
    {
        match self.data_rate {
            odr::Variant::F1600Hz | odr::Variant::F5376Hz => {
                if self.power_mode != lp_en::Variant::LowPowerMode {
                    return Err(
                        InvalidConfiguration::DataRateNeedsLowPowerMode {
                            data_rate: self.data_rate,
                        },
                    );
                }
            },
            odr::Variant::F1344Hz => {
                if self.power_mode != lp_en::Variant::NormalPowerMode {
                    return Err(
                        InvalidConfiguration::DataRateNeedsNormalPowerMode {
                            data_rate: self.data_rate,
                        },
                    );
                }
            },
            _ => {},
        }
        if self.resolution_mode == hr::Variant::HighResolution && self.power_mode
            != lp_en::Variant::NormalPowerMode {
            return Err(InvalidConfiguration::HighResolutionNeedsNormalPowerMode);
        }
        Ok(ValidConfig { config: self })
    }
}

/// Why a configuration was rejected: the field/state pair that carries the
/// failed entitlement, and which dependency it missed.
#[derive(Clone, Copy, PartialEq, Eq, Structural, Debug)]
pub enum InvalidConfiguration {
    /// The chosen data rate exists only in low-power mode, but low-power
    /// mode was not chosen.
    DataRateNeedsLowPowerMode { data_rate: odr::Variant },
    /// The chosen data rate exists only in normal power mode, but normal
    /// power mode was not chosen.
    DataRateNeedsNormalPowerMode { data_rate: odr::Variant },
    /// High-resolution output was chosen together with low-power mode, a
    /// pair the data sheet marks "not allowed".
    HighResolutionNeedsNormalPowerMode,
}

/// A configuration that has passed validation. Values of this type are
/// immutable and always hold a valid configuration; they are the only path
/// to rendering register bytes.
#[derive(Clone, Copy, PartialEq, Eq, Debug)]
pub struct ValidConfig {
    config: Config,
}

impl ValidConfig {
    #[verifier::type_invariant]
    spec fn type_inv(self) -> bool {
        self.config.valid()
    }

    /// Returns the plain configuration this value was validated from.
    pub fn config(&self) -> (config: Config)
        ensures
            config == self.config_spec(),
            config.valid(),
    {
        proof {
            use_type_invariant(&*self);
        }
        self.config
    }
}

impl Sealed for ValidConfig {

}

impl ValidLis3dhConfig for ValidConfig {
    closed spec fn config_spec(&self) -> Config {
        self.config
    }

    fn render_as_bytes(&self) -> (bytes: ConfigAsBytes) {
        proof {
            use_type_invariant(&*self);
        }
        render_bytes(&self.config)
    }

    fn resolution(&self) -> (res: resolution::Variant) {
        proof {
            use_type_invariant(&*self);
        }
        match (self.config.power_mode, self.config.resolution_mode) {
            (lp_en::Variant::LowPowerMode, hr::Variant::NormalResolution) => {
                resolution::Variant::R8Bit
            },
            (lp_en::Variant::NormalPowerMode, hr::Variant::NormalResolution) => {
                resolution::Variant::R10Bit
            },
            (lp_en::Variant::NormalPowerMode, hr::Variant::HighResolution) => {
                resolution::Variant::R12Bit
            },
            (lp_en::Variant::LowPowerMode, hr::Variant::HighResolution) => {
                proof {
                    assert(false);
                }
                resolution::Variant::R8Bit
            },
        }
    }
}

/// A validated configuration, ready to be rendered and applied. The one
/// implementor inside the crate is [`ValidConfig`]; the trait lets callers
/// stay generic over it, as drivers are over their configuration.
pub trait ValidLis3dhConfig: Sealed {
    /// The plain configuration this value stands for.
    spec fn config_spec(&self) -> Config;

    /// Renders the configuration to the exact register byte values the
    /// hardware expects. Only valid configurations are renderable.
    fn render_as_bytes(&self) -> (bytes: ConfigAsBytes)
        ensures
            self.config_spec().valid(),
            bytes == ConfigAsBytes::of_spec(self.config_spec()),
    ;

    /// Returns the sample resolution the configuration puts the sensor in.
    fn resolution(&self) -> (res: resolution::Variant)
        ensures
            resolution::of_spec(
                self.config_spec().power_mode,
                self.config_spec().resolution_mode,
            ) == Some(res),
    ;
}

/// The literal register byte values a configuration renders to.
#[derive(Clone, Copy, PartialEq, Eq, Structural, Debug)]
pub struct ConfigAsBytes {
    /// Value of CTRL_REG0 (1Eh).
    pub ctrl_reg0: u8,
    /// Value of TEMP_CFG_REG (1Fh).
    pub temp_cfg_reg: u8,
    /// Value of CTRL_REG1 (20h).
    pub ctrl_reg1: u8,
    /// Value of CTRL_REG4 (23h).
    pub ctrl_reg4: u8,
}

/// The CTRL_REG0 byte: every field's raw value ORed in at its offset.
pub open spec fn ctrl_reg0_byte_spec(
    pull_up: sdo_pu_disc::Variant,
    fixed: must_set_bits::Variant,
) -> u8 {
    (pull_up.raw_spec() << sdo_pu_disc::OFFSET) | (fixed.raw_spec() << must_set_bits::OFFSET)
}

/// The TEMP_CFG_REG byte: every field's raw value ORed in at its offset.
pub open spec fn temp_cfg_reg_byte_spec(adc: adc_en::Variant, temp: temp_en::Variant) -> u8 {
    (adc.raw_spec() << adc_en::OFFSET) | (temp.raw_spec() << temp_en::OFFSET)
}

/// The CTRL_REG1 byte: every field's raw value ORed in at its offset.
pub open spec fn ctrl_reg1_byte_spec(
    data_rate: odr::Variant,
    power_mode: lp_en::Variant,
    axes: axis_enable::Variant,
) -> u8 {
    (data_rate.raw_spec() << odr::OFFSET) | (power_mode.raw_spec() << lp_en::OFFSET) | (
    axes.raw_spec() << axis_enable::OFFSET)
}

/// The CTRL_REG4 byte: every field's raw value ORed in at its offset.
pub open spec fn ctrl_reg4_byte_spec(
    block: bdu::Variant,
    endian: ble::Variant,
    full_scale: fs::Variant,
    resolution_mode: hr::Variant,
    self_test: st::Variant,
    spi_mode: sim::Variant,
) -> u8 {
    (block.raw_spec() << bdu::OFFSET) | (endian.raw_spec() << ble::OFFSET) | (
    full_scale.raw_spec() << fs::OFFSET) | (resolution_mode.raw_spec() << hr::OFFSET) | (
    self_test.raw_spec() << st::OFFSET) | (spi_mode.raw_spec() << sim::OFFSET)
}

impl ConfigAsBytes {
    /// The bytes a configuration renders to. Fields the configuration does
    /// not manage take their manufacturer-documented reset value.
    pub open spec fn of_spec(config: Config) -> ConfigAsBytes {
        ConfigAsBytes {
            ctrl_reg0: ctrl_reg0_byte_spec(
                sdo_pu_disc::Variant::SdoPulledUp,
                must_set_bits::Variant::MustSet,
            ),
            temp_cfg_reg: temp_cfg_reg_byte_spec(
                adc_en::Variant::AdcDisabled,
                temp_en::Variant::TempDisabled,
            ),
            ctrl_reg1: ctrl_reg1_byte_spec(config.data_rate, config.power_mode, config.axis_enable),
            ctrl_reg4: ctrl_reg4_byte_spec(
                bdu::Variant::ContinuousDataUpdate,
                ble::Variant::LittleEndian,
                config.full_scale,
                config.resolution_mode,
                st::Variant::NormalMode,
                sim::Variant::Spi4Wire,
            ),
        }
    }

    /// The field values read back out of the rendered bytes at their
    /// documented offsets and widths, `None` where a raw value names no
    /// state. The overloaded `odr` code is read under the power mode the
    /// bytes themselves carry.
    pub open spec fn decode_spec(self) -> Option<Config> {
        match lp_en::Variant::from_raw_spec(
            (self.ctrl_reg1 >> lp_en::OFFSET) & field_mask_spec(lp_en::WIDTH),
        ) {
            Some(power_mode) => match (
                odr::Variant::from_raw_spec(
                    (self.ctrl_reg1 >> odr::OFFSET) & field_mask_spec(odr::WIDTH),
                    power_mode,
                ),
                axis_enable::Variant::from_raw_spec(
                    (self.ctrl_reg1 >> axis_enable::OFFSET) & field_mask_spec(axis_enable::WIDTH),
                ),
                fs::Variant::from_raw_spec(
                    (self.ctrl_reg4 >> fs::OFFSET) & field_mask_spec(fs::WIDTH),
                ),
                hr::Variant::from_raw_spec(
                    (self.ctrl_reg4 >> hr::OFFSET) & field_mask_spec(hr::WIDTH),
                ),
            ) {
                (Some(data_rate), Some(axis), Some(full_scale), Some(resolution_mode)) => {
                    Some(
                        Config {
                            data_rate,
                            power_mode,
                            axis_enable: axis,
                            full_scale,
                            resolution_mode,
                        },
                    )
                },
                _ => None,
            },
            None => None,
        }
    }

    /// Reads the field values back out of the bytes at their documented
    /// offsets and widths.
    pub fn decode(&self) -> (config: Option<Config>)
        ensures
            config == self.decode_spec(),
    {
        let power_mode = match lp_en::Variant::from_raw(
            (self.ctrl_reg1 >> lp_en::OFFSET) & field_mask(lp_en::WIDTH),
        ) {
            Some(power_mode) => power_mode,
            None => {
                return None;
            },
        };
        let data_rate = match odr::Variant::from_raw(
            (self.ctrl_reg1 >> odr::OFFSET) & field_mask(odr::WIDTH),
            power_mode,
        ) {
            Some(data_rate) => data_rate,
            None => {
                return None;
            },
        };
        let axis = match axis_enable::Variant::from_raw(
            (self.ctrl_reg1 >> axis_enable::OFFSET) & field_mask(axis_enable::WIDTH),
        ) {
            Some(axis) => axis,
            None => {
                return None;
            },
        };
        let full_scale = match fs::Variant::from_raw(
            (self.ctrl_reg4 >> fs::OFFSET) & field_mask(fs::WIDTH),
        ) {
            Some(full_scale) => full_scale,
            None => {
                return None;
            },
        };
        let resolution_mode = match hr::Variant::from_raw(
            (self.ctrl_reg4 >> hr::OFFSET) & field_mask(hr::WIDTH),
        ) {
            Some(resolution_mode) => resolution_mode,
            None => {
                return None;
            },
        };
        Some(Config { data_rate, power_mode, axis_enable: axis, full_scale, resolution_mode })
    }
}

/// Renders a configuration: for each register, the raw value of every field
/// is shifted to the field's offset and ORed together.
fn render_bytes(config: &Config) -> (bytes: ConfigAsBytes)
    ensures
        bytes == ConfigAsBytes::of_spec(*config),
{
    let ctrl_reg0: u8 = (sdo_pu_disc::Variant::SdoPulledUp.raw() << sdo_pu_disc::OFFSET) | (
    must_set_bits::Variant::MustSet.raw() << must_set_bits::OFFSET);
    let temp_cfg_reg: u8 = (adc_en::Variant::AdcDisabled.raw() << adc_en::OFFSET) | (
    temp_en::Variant::TempDisabled.raw() << temp_en::OFFSET);
    let ctrl_reg1: u8 = (config.data_rate.raw() << odr::OFFSET) | (config.power_mode.raw()
        << lp_en::OFFSET) | (config.axis_enable.raw() << axis_enable::OFFSET);
    let ctrl_reg4: u8 = (bdu::Variant::ContinuousDataUpdate.raw() << bdu::OFFSET) | (
    ble::Variant::LittleEndian.raw() << ble::OFFSET) | (config.full_scale.raw() << fs::OFFSET) | (
    config.resolution_mode.raw() << hr::OFFSET) | (st::Variant::NormalMode.raw() << st::OFFSET) | (
    sim::Variant::Spi4Wire.raw() << sim::OFFSET);
    ConfigAsBytes { ctrl_reg0, temp_cfg_reg, ctrl_reg1, ctrl_reg4 }
}

/// Law: decoding the rendered bytes at the documented offsets and widths
/// recovers every field of any legal configuration.
pub proof fn lemma_render_decode_round_trip(config: Config)
    requires
        config.valid(),
    ensures
        ConfigAsBytes::of_spec(config).decode_spec() == Some(config),
{
    let o = config.data_rate.raw_spec();
    let l = config.power_mode.raw_spec();
    let a = config.axis_enable.raw_spec();
    let f = config.full_scale.raw_spec();
    let h = config.resolution_mode.raw_spec();
    assert(o < 16 && l < 2 && a < 8 && f < 4 && h < 2);
    let b1 = ConfigAsBytes::of_spec(config).ctrl_reg1;
    let b4 = ConfigAsBytes::of_spec(config).ctrl_reg4;
    assert(b1 == (o << 4) | (l << 3) | (a << 0));
    assert(b4 == (0u8 << 7) | (0u8 << 6) | (f << 4) | (h << 3) | (0u8 << 1) | (0u8 << 0));
    assert(field_mask_spec(1) == 1 && field_mask_spec(2) == 3 && field_mask_spec(3) == 7
        && field_mask_spec(4) == 15) by (bit_vector);
    assert((b1 >> 4) & 15 == o && (b1 >> 3) & 1 == l && (b1 >> 0) & 7 == a) by (bit_vector)
        requires
            b1 == (o << 4) | (l << 3) | (a << 0),
            o < 16,
            l < 2,
            a < 8,
    ;
    assert((b4 >> 4) & 3 == f && (b4 >> 3) & 1 == h) by (bit_vector)
        requires
            b4 == (0u8 << 7) | (0u8 << 6) | (f << 4) | (h << 3) | (0u8 << 1) | (0u8 << 0),
            f < 4,
            h < 2,
    ;
    assert(lp_en::Variant::from_raw_spec(l) == Some(config.power_mode));
    assert(odr::Variant::from_raw_spec(o, config.power_mode) == Some(config.data_rate));
    assert(axis_enable::Variant::from_raw_spec(a) == Some(config.axis_enable));
    assert(fs::Variant::from_raw_spec(f) == Some(config.full_scale));
    assert(hr::Variant::from_raw_spec(h) == Some(config.resolution_mode));
}

} // verus!
