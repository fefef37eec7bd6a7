//! The device controller driven over a scripted mock bus.

use lis3dh::acceleration_data_structs::Acceleration;
use lis3dh::bus::Lis3dhBus;
use lis3dh::config::{Config, ValidConfig};
use lis3dh::registers::{
    axis_enable, fs, hr, lp_en, odr, ReadOnlyRegisterAddress, ReadWriteRegisterAddress,
    RegisterAddress, DEVICE_ID,
};
use lis3dh::{Error, Lis3dh};

/// Records every write transaction and answers reads from a script.
struct MockBus {
    /// One entry per transaction: the start address and the bytes written.
    writes: Vec<(u8, Vec<u8>)>,
    /// The byte answered to single reads.
    read_value: u8,
    /// The bytes answered to multi-reads.
    read_data: Vec<u8>,
    /// When set, every write fails with this error code.
    fail_writes: Option<u8>,
    /// When set, every read fails with this error code.
    fail_reads: Option<u8>,
}

impl MockBus {
    fn new() -> MockBus {
        MockBus {
            writes: Vec::new(),
            read_value: 0,
            read_data: Vec::new(),
            fail_writes: None,
            fail_reads: None,
        }
    }
}

impl Lis3dhBus for MockBus {
    type BusError = u8;

    fn write(
        &mut self,
        register_address: ReadWriteRegisterAddress,
        value: u8,
    ) -> Result<(), u8> {
        if let Some(code) = self.fail_writes {
            return Err(code);
        }
        self.writes.push((register_address.byte_address(), vec![value]));
        Ok(())
    }

    fn write_multiple(
        &mut self,
        start_address: ReadWriteRegisterAddress,
        values: &Vec<u8>,
    ) -> Result<(), u8> {
        if let Some(code) = self.fail_writes {
            return Err(code);
        }
        self.writes.push((start_address.byte_address(), values.clone()));
        Ok(())
    }

    fn read(&mut self, _register_address: RegisterAddress) -> Result<u8, u8> {
        if let Some(code) = self.fail_reads {
            return Err(code);
        }
        Ok(self.read_value)
    }

    fn read_multiple(
        &mut self,
        _start_address: RegisterAddress,
        buffer: &mut Vec<u8>,
    ) -> Result<(), u8> {
        if let Some(code) = self.fail_reads {
            return Err(code);
        }
        for (i, slot) in buffer.iter_mut().enumerate() {
            *slot = self.read_data[i];
        }
        Ok(())
    }
}

fn documented_default_config() -> ValidConfig {
    Config {
        data_rate: odr::Variant::F100Hz,
        power_mode: lp_en::Variant::NormalPowerMode,
        axis_enable: axis_enable::Variant::XYZEnabled,
        full_scale: fs::Variant::S2G,
        resolution_mode: hr::Variant::NormalResolution,
    }
    .validate()
    .unwrap()
}

#[test]
fn initialization_writes_exactly_two_transactions() {
    let driver = Lis3dh::new(MockBus::new(), documented_default_config()).unwrap();
    let writes = driver.into_bus().writes;
    assert_eq!(
        writes,
        vec![(0x1E, vec![0x10, 0x00, 0x57]), (0x23, vec![0x00])]
    );
}

#[test]
fn reconfiguration_rewrites_the_full_configuration() {
    let driver = Lis3dh::new(MockBus::new(), documented_default_config()).unwrap();
    let high_resolution = Config {
        data_rate: odr::Variant::F400Hz,
        power_mode: lp_en::Variant::NormalPowerMode,
        axis_enable: axis_enable::Variant::XYZEnabled,
        full_scale: fs::Variant::S4G,
        resolution_mode: hr::Variant::HighResolution,
    }
    .validate()
    .unwrap();
    let driver = driver.reconfigure(high_resolution).unwrap();
    let writes = driver.into_bus().writes;
    assert_eq!(
        writes,
        vec![
            (0x1E, vec![0x10, 0x00, 0x57]),
            (0x23, vec![0x00]),
            (0x1E, vec![0x10, 0x00, 0x77]),
            (0x23, vec![0x18]),
        ]
    );
}

#[test]
fn who_am_i_answers_the_device_id() {
    let mut bus = MockBus::new();
    bus.read_value = DEVICE_ID;
    let mut driver = Lis3dh::new(bus, documented_default_config()).unwrap();
    assert_eq!(driver.read_who_am_i().unwrap(), 0x33);
}

#[test]
fn acceleration_vector_is_decoded_at_the_active_resolution() {
    let high_resolution = Config {
        data_rate: odr::Variant::F100Hz,
        power_mode: lp_en::Variant::NormalPowerMode,
        axis_enable: axis_enable::Variant::XYZEnabled,
        full_scale: fs::Variant::S2G,
        resolution_mode: hr::Variant::HighResolution,
    }
    .validate()
    .unwrap();
    let mut bus = MockBus::new();
    bus.read_data = vec![0xFF, 0x0F, 0x00, 0x80, 0x40, 0x00];
    let mut driver = Lis3dh::new(bus, high_resolution).unwrap();
    let vector = driver.get_accel_vector().unwrap();
    assert_eq!(vector.x, Acceleration { value: 255 });
    assert_eq!(vector.y, Acceleration { value: -2048 });
    assert_eq!(vector.z, Acceleration { value: 4 });
}

#[test]
fn same_bytes_decode_coarser_at_10_bit() {
    let mut bus = MockBus::new();
    bus.read_data = vec![0xFF, 0x0F, 0x00, 0x80, 0x40, 0x00];
    let mut driver = Lis3dh::new(bus, documented_default_config()).unwrap();
    let vector = driver.get_accel_vector().unwrap();
    assert_eq!(vector.x.value, 63);
    assert_eq!(vector.y.value, -512);
    assert_eq!(vector.z.value, 1);
}

#[test]
fn accel_raw_into_i16_uses_the_driver_resolution() {
    let driver = Lis3dh::new(MockBus::new(), documented_default_config()).unwrap();
    // Normal mode is 10-bit: shift right by 6.
    assert_eq!(driver.accel_raw_into_i16(0xFF, 0x0F), 63);
    assert_eq!(driver.accel_raw_into_i16(0x00, 0x80), -512);
}

#[test]
fn read_accel_bytes_returns_the_six_output_bytes() {
    let mut bus = MockBus::new();
    bus.read_data = vec![1, 2, 3, 4, 5, 6];
    let mut driver = Lis3dh::new(bus, documented_default_config()).unwrap();
    assert_eq!(driver.read_accel_bytes().unwrap(), vec![1, 2, 3, 4, 5, 6]);
}

#[test]
fn transport_write_errors_propagate_immediately() {
    let mut bus = MockBus::new();
    bus.fail_writes = Some(7);
    let result = Lis3dh::new(bus, documented_default_config());
    assert!(matches!(result, Err(Error::Bus(7))));
}

#[test]
fn transport_read_errors_propagate_immediately() {
    let mut bus = MockBus::new();
    bus.fail_reads = Some(9);
    let mut driver = Lis3dh::new(bus, documented_default_config()).unwrap();
    assert_eq!(driver.read_who_am_i().unwrap_err(), Error::Bus(9));
    assert_eq!(driver.get_accel_vector().unwrap_err(), Error::Bus(9));
    assert_eq!(
        driver
            .read_register(RegisterAddress::ReadOnly(ReadOnlyRegisterAddress::StatusReg))
            .unwrap_err(),
        Error::Bus(9)
    );
}

#[test]
fn raw_register_access_passes_through() {
    let mut bus = MockBus::new();
    bus.read_value = 0xAB;
    bus.read_data = vec![0x0A, 0x0B];
    let mut driver = Lis3dh::new(bus, documented_default_config()).unwrap();

    let value = driver
        .read_register(RegisterAddress::ReadWrite(ReadWriteRegisterAddress::CtrlReg3))
        .unwrap();
    assert_eq!(value, 0xAB);

    driver
        .write_register(ReadWriteRegisterAddress::ClickThs, 0x42)
        .unwrap();
    let block = vec![0x01, 0x02];
    driver
        .write_multiple_registers(ReadWriteRegisterAddress::CtrlReg2, &block)
        .unwrap();

    let mut read_back = vec![0u8; 2];
    driver
        .read_multiple_registers(
            RegisterAddress::ReadWrite(ReadWriteRegisterAddress::CtrlReg2),
            &mut read_back,
        )
        .unwrap();
    assert_eq!(read_back, vec![0x0A, 0x0B]);

    let writes = driver.into_bus().writes;
    assert_eq!(
        writes[writes.len() - 2..],
        [(0x3A, vec![0x42]), (0x21, vec![0x01, 0x02])]
    );
}

#[test]
fn bus_errors_convert_into_driver_errors() {
    assert_eq!(Error::from(5u8), Error::Bus(5u8));
}

#[test]
fn read_and_verify_compares_against_expected() {
    let mut bus = MockBus::new();
    bus.read_value = DEVICE_ID;
    let who_am_i = RegisterAddress::ReadOnly(ReadOnlyRegisterAddress::WhoAmI);
    assert!(bus.read_and_verify(who_am_i, &DEVICE_ID).unwrap());
    assert!(!bus.read_and_verify(who_am_i, &0x00).unwrap());
}
