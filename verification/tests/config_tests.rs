//! Validation and byte rendering of configurations.

use lis3dh::config::{Config, ConfigAsBytes, InvalidConfiguration, ValidLis3dhConfig};
use lis3dh::registers::{axis_enable, fs, hr, lp_en, odr};

fn normal_mode_config() -> Config {
    Config {
        data_rate: odr::Variant::F100Hz,
        power_mode: lp_en::Variant::NormalPowerMode,
        axis_enable: axis_enable::Variant::XYZEnabled,
        full_scale: fs::Variant::S2G,
        resolution_mode: hr::Variant::NormalResolution,
    }
}

#[test]
fn accepts_normal_mode_config() {
    let config = normal_mode_config();
    let valid = config.validate().unwrap();
    assert_eq!(valid.config(), config);
}

#[test]
fn renders_normal_mode_literal_bytes() {
    let valid = normal_mode_config().validate().unwrap();
    let bytes = valid.render_as_bytes();
    assert_eq!(bytes.ctrl_reg0, 0x10);
    assert_eq!(bytes.temp_cfg_reg, 0x00);
    assert_eq!(bytes.ctrl_reg1, 0x57);
    assert_eq!(bytes.ctrl_reg4, 0x00);
}

#[test]
fn renders_low_power_mode_literal_bytes() {
    let config = Config {
        data_rate: odr::Variant::F1600Hz,
        power_mode: lp_en::Variant::LowPowerMode,
        axis_enable: axis_enable::Variant::XYZEnabled,
        full_scale: fs::Variant::S4G,
        resolution_mode: hr::Variant::NormalResolution,
    };
    let bytes = config.validate().unwrap().render_as_bytes();
    assert_eq!(bytes.ctrl_reg1, 0x8F);
    assert_eq!(bytes.ctrl_reg4, 0x10);
}

#[test]
fn renders_high_resolution_literal_bytes() {
    let config = Config {
        data_rate: odr::Variant::F400Hz,
        power_mode: lp_en::Variant::NormalPowerMode,
        axis_enable: axis_enable::Variant::XYEnabled,
        full_scale: fs::Variant::S16G,
        resolution_mode: hr::Variant::HighResolution,
    };
    let bytes = config.validate().unwrap().render_as_bytes();
    assert_eq!(bytes.ctrl_reg1, 0x73);
    assert_eq!(bytes.ctrl_reg4, 0x38);
}

#[test]
fn renders_overloaded_data_rate_code() {
    // 1.344 kHz in normal power mode and 5.376 kHz in low-power mode share
    // the raw code 0b1001; both render to the same odr bits.
    let normal = Config {
        data_rate: odr::Variant::F1344Hz,
        power_mode: lp_en::Variant::NormalPowerMode,
        axis_enable: axis_enable::Variant::XYZEnabled,
        full_scale: fs::Variant::S2G,
        resolution_mode: hr::Variant::NormalResolution,
    };
    let low = Config {
        data_rate: odr::Variant::F5376Hz,
        power_mode: lp_en::Variant::LowPowerMode,
        axis_enable: axis_enable::Variant::XYZEnabled,
        full_scale: fs::Variant::S2G,
        resolution_mode: hr::Variant::NormalResolution,
    };
    let normal_bytes = normal.validate().unwrap().render_as_bytes();
    let low_bytes = low.validate().unwrap().render_as_bytes();
    assert_eq!(normal_bytes.ctrl_reg1, 0x97);
    assert_eq!(low_bytes.ctrl_reg1, 0x9F);
}

#[test]
fn rejects_low_power_with_high_resolution() {
    let config = Config {
        data_rate: odr::Variant::F100Hz,
        power_mode: lp_en::Variant::LowPowerMode,
        axis_enable: axis_enable::Variant::XYZEnabled,
        full_scale: fs::Variant::S2G,
        resolution_mode: hr::Variant::HighResolution,
    };
    let error = config.validate().unwrap_err();
    assert_eq!(error, InvalidConfiguration::HighResolutionNeedsNormalPowerMode);
}

#[test]
fn rejects_1344hz_in_low_power_mode() {
    let config = Config {
        data_rate: odr::Variant::F1344Hz,
        power_mode: lp_en::Variant::LowPowerMode,
        axis_enable: axis_enable::Variant::XYZEnabled,
        full_scale: fs::Variant::S2G,
        resolution_mode: hr::Variant::NormalResolution,
    };
    let error = config.validate().unwrap_err();
    assert_eq!(
        error,
        InvalidConfiguration::DataRateNeedsNormalPowerMode { data_rate: odr::Variant::F1344Hz }
    );
}

#[test]
fn rejects_1600hz_in_normal_power_mode() {
    let config = Config {
        data_rate: odr::Variant::F1600Hz,
        power_mode: lp_en::Variant::NormalPowerMode,
        axis_enable: axis_enable::Variant::XYZEnabled,
        full_scale: fs::Variant::S2G,
        resolution_mode: hr::Variant::NormalResolution,
    };
    let error = config.validate().unwrap_err();
    assert_eq!(
        error,
        InvalidConfiguration::DataRateNeedsLowPowerMode { data_rate: odr::Variant::F1600Hz }
    );
}

#[test]
fn rejects_5376hz_in_normal_power_mode() {
    let config = Config {
        data_rate: odr::Variant::F5376Hz,
        power_mode: lp_en::Variant::NormalPowerMode,
        axis_enable: axis_enable::Variant::XYZEnabled,
        full_scale: fs::Variant::S2G,
        resolution_mode: hr::Variant::NormalResolution,
    };
    let error = config.validate().unwrap_err();
    assert_eq!(
        error,
        InvalidConfiguration::DataRateNeedsLowPowerMode { data_rate: odr::Variant::F5376Hz }
    );
}

#[test]
fn round_trips_every_legal_configuration_sampled() {
    let data_rates = [
        odr::Variant::PowerDown,
        odr::Variant::F1Hz,
        odr::Variant::F10Hz,
        odr::Variant::F25Hz,
        odr::Variant::F50Hz,
        odr::Variant::F100Hz,
        odr::Variant::F200Hz,
        odr::Variant::F400Hz,
        odr::Variant::F1600Hz,
        odr::Variant::F1344Hz,
        odr::Variant::F5376Hz,
    ];
    let power_modes = [lp_en::Variant::NormalPowerMode, lp_en::Variant::LowPowerMode];
    let axes = [
        axis_enable::Variant::XYZDisabled,
        axis_enable::Variant::XEnabled,
        axis_enable::Variant::YEnabled,
        axis_enable::Variant::XYEnabled,
        axis_enable::Variant::ZEnabled,
        axis_enable::Variant::XZEnabled,
        axis_enable::Variant::YZEnabled,
        axis_enable::Variant::XYZEnabled,
    ];
    let scales = [
        fs::Variant::S2G,
        fs::Variant::S4G,
        fs::Variant::S8G,
        fs::Variant::S16G,
    ];
    let resolutions = [hr::Variant::NormalResolution, hr::Variant::HighResolution];
    let mut checked = 0;
    for &data_rate in &data_rates {
        for &power_mode in &power_modes {
            for &axis in &axes {
                for &full_scale in &scales {
                    for &resolution_mode in &resolutions {
                        let config = Config {
                            data_rate,
                            power_mode,
                            axis_enable: axis,
                            full_scale,
                            resolution_mode,
                        };
                        if let Ok(valid) = config.validate() {
                            let bytes = valid.render_as_bytes();
                            assert_eq!(bytes.decode(), Some(config));
                            checked += 1;
                        }
                    }
                }
            }
        }
    }
    // Legal (rate, power) pairs: 8 universal rates in both modes plus the
    // 3 mode-bound rates, so 19. The 9 normal-power pairs allow both
    // resolution modes, the 10 low-power pairs only one; with 8 axis
    // choices and 4 scales: (9 * 2 + 10) * 8 * 4 = 896.
    assert_eq!(checked, 896);
}

#[test]
fn renders_documented_byte_table_for_every_legal_configuration() {
    // An independent copy of the data sheet's raw values and offsets, so
    // the rendered bytes are checked against the literal table per field
    // combination.
    fn raw_odr(variant: odr::Variant) -> u8 {
        match variant {
            odr::Variant::PowerDown => 0b0000,
            odr::Variant::F1Hz => 0b0001,
            odr::Variant::F10Hz => 0b0010,
            odr::Variant::F25Hz => 0b0011,
            odr::Variant::F50Hz => 0b0100,
            odr::Variant::F100Hz => 0b0101,
            odr::Variant::F200Hz => 0b0110,
            odr::Variant::F400Hz => 0b0111,
            odr::Variant::F1600Hz => 0b1000,
            odr::Variant::F1344Hz => 0b1001,
            odr::Variant::F5376Hz => 0b1001,
        }
    }
    fn raw_lp(variant: lp_en::Variant) -> u8 {
        match variant {
            lp_en::Variant::NormalPowerMode => 0b0,
            lp_en::Variant::LowPowerMode => 0b1,
        }
    }
    fn raw_axis(variant: axis_enable::Variant) -> u8 {
        match variant {
            axis_enable::Variant::XYZDisabled => 0b000,
            axis_enable::Variant::XEnabled => 0b001,
            axis_enable::Variant::YEnabled => 0b010,
            axis_enable::Variant::XYEnabled => 0b011,
            axis_enable::Variant::ZEnabled => 0b100,
            axis_enable::Variant::XZEnabled => 0b101,
            axis_enable::Variant::YZEnabled => 0b110,
            axis_enable::Variant::XYZEnabled => 0b111,
        }
    }
    fn raw_fs(variant: fs::Variant) -> u8 {
        match variant {
            fs::Variant::S2G => 0b00,
            fs::Variant::S4G => 0b01,
            fs::Variant::S8G => 0b10,
            fs::Variant::S16G => 0b11,
        }
    }
    fn raw_hr(variant: hr::Variant) -> u8 {
        match variant {
            hr::Variant::NormalResolution => 0b0,
            hr::Variant::HighResolution => 0b1,
        }
    }

    let data_rates = [
        odr::Variant::PowerDown,
        odr::Variant::F1Hz,
        odr::Variant::F10Hz,
        odr::Variant::F25Hz,
        odr::Variant::F50Hz,
        odr::Variant::F100Hz,
        odr::Variant::F200Hz,
        odr::Variant::F400Hz,
        odr::Variant::F1600Hz,
        odr::Variant::F1344Hz,
        odr::Variant::F5376Hz,
    ];
    let power_modes = [lp_en::Variant::NormalPowerMode, lp_en::Variant::LowPowerMode];
    let axes = [
        axis_enable::Variant::XYZDisabled,
        axis_enable::Variant::XEnabled,
        axis_enable::Variant::YEnabled,
        axis_enable::Variant::XYEnabled,
        axis_enable::Variant::ZEnabled,
        axis_enable::Variant::XZEnabled,
        axis_enable::Variant::YZEnabled,
        axis_enable::Variant::XYZEnabled,
    ];
    let scales = [
        fs::Variant::S2G,
        fs::Variant::S4G,
        fs::Variant::S8G,
        fs::Variant::S16G,
    ];
    let resolutions = [hr::Variant::NormalResolution, hr::Variant::HighResolution];
    for &data_rate in &data_rates {
        for &power_mode in &power_modes {
            for &axis in &axes {
                for &full_scale in &scales {
                    for &resolution_mode in &resolutions {
                        let config = Config {
                            data_rate,
                            power_mode,
                            axis_enable: axis,
                            full_scale,
                            resolution_mode,
                        };
                        if let Ok(valid) = config.validate() {
                            let bytes = valid.render_as_bytes();
                            assert_eq!(bytes.ctrl_reg0, 0b0001_0000);
                            assert_eq!(bytes.temp_cfg_reg, 0b0000_0000);
                            assert_eq!(
                                bytes.ctrl_reg1,
                                (raw_odr(data_rate) << 4) | (raw_lp(power_mode) << 3)
                                    | raw_axis(axis)
                            );
                            assert_eq!(
                                bytes.ctrl_reg4,
                                (raw_fs(full_scale) << 4) | (raw_hr(resolution_mode) << 3)
                            );
                        }
                    }
                }
            }
        }
    }
}

#[test]
fn decode_rejects_reserved_data_rate_code() {
    let bytes = ConfigAsBytes {
        ctrl_reg0: 0x10,
        temp_cfg_reg: 0x00,
        ctrl_reg1: 0xA7, // odr raw 0b1010 names no state
        ctrl_reg4: 0x00,
    };
    assert_eq!(bytes.decode(), None);
}

#[test]
fn decode_reads_overloaded_code_under_power_mode() {
    // The same odr code decodes to different rates depending on the lp_en
    // bit inside the byte itself.
    let normal = ConfigAsBytes {
        ctrl_reg0: 0x10,
        temp_cfg_reg: 0x00,
        ctrl_reg1: 0x97,
        ctrl_reg4: 0x00,
    };
    let low = ConfigAsBytes {
        ctrl_reg0: 0x10,
        temp_cfg_reg: 0x00,
        ctrl_reg1: 0x9F,
        ctrl_reg4: 0x00,
    };
    assert_eq!(normal.decode().unwrap().data_rate, odr::Variant::F1344Hz);
    assert_eq!(low.decode().unwrap().data_rate, odr::Variant::F5376Hz);
}
