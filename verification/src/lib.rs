//! Driver core for the LIS3DH triaxial accelerometer.
//!
//! The sensor is configured through a handful of bit-fields spread over a
//! few control registers. The crate models every managed field
//! ([`registers`]), checks the cross-field legality rules before a single
//! byte is rendered ([`config`]), speaks the register-addressed bus protocol
//! over an abstract transport ([`bus`]), and decodes raw output bytes into
//! resolution-adjusted signed samples ([`acceleration_data_structs`]). The
//! [`Lis3dh`] controller ties the pieces together.

pub mod acceleration_data_structs;
pub mod bus;
pub mod config;
pub mod properties;
pub mod registers;
mod sealed;

use vstd::prelude::*;

use crate::acceleration_data_structs::decoded_sample_spec;
use crate::acceleration_data_structs::AccelerationVector;
use crate::bus::BusTransaction;
use crate::bus::Lis3dhBus;
use crate::config::ConfigAsBytes;
use crate::config::ValidLis3dhConfig;
use crate::properties::resolution;
use crate::registers::readable_address;
use crate::registers::writable_address;
use crate::registers::ReadOnlyRegisterAddress;
use crate::registers::ReadWriteRegisterAddress;
use crate::registers::RegisterAddress;
use crate::sealed::Sealed;

verus! {

/// An error of a driver operation.
#[derive(PartialEq, Eq, Debug)]
pub enum Error<BusErrorType> {
    /// An error originating from the bus communication method (I2C or SPI)
    /// used between the controller and the LIS3DH. It is propagated
    /// immediately and never retried.
    Bus(BusErrorType),
}

impl<BusErrorType> From<BusErrorType> for Error<BusErrorType> {
    fn from(error: BusErrorType) -> (result: Self) {
        Error::Bus(error)
    }
}

impl<BusErrorType> vstd::std_specs::convert::FromSpecImpl<BusErrorType> for Error<BusErrorType> {
    open spec fn obeys_from_spec() -> bool {
        true
    }

    open spec fn from_spec(error: BusErrorType) -> Self {
        Error::Bus(error)
    }
}

/// The transactions initialization issues for a configuration: the
/// contiguous block CTRL_REG0 (1Eh) through CTRL_REG1 (20h) as one
/// three-byte multi-write, then the single write of CTRL_REG4 (23h), and
/// nothing else.
pub open spec fn initialization_transactions_spec(config: crate::config::Config) -> Seq<
    BusTransaction,
> {
    seq![
        BusTransaction::WriteMultiple {
            address: ReadWriteRegisterAddress::CtrlReg0.byte_address_spec(),
            values: seq![
                ConfigAsBytes::of_spec(config).ctrl_reg0,
                ConfigAsBytes::of_spec(config).temp_cfg_reg,
                ConfigAsBytes::of_spec(config).ctrl_reg1,
            ],
        },
        BusTransaction::Write {
            address: ReadWriteRegisterAddress::CtrlReg4.byte_address_spec(),
            value: ConfigAsBytes::of_spec(config).ctrl_reg4,
        },
    ]
}

/// Whether `transaction` is the six-byte read of the output block OUT_X_L
/// (28h) through OUT_Z_H (2Dh) whose per-axis decode at resolution `res`
/// is `vector`.
pub open spec fn decodes_output_read_spec(
    transaction: BusTransaction,
    res: resolution::Variant,
    vector: AccelerationVector,
) -> bool {
    match transaction {
        BusTransaction::ReadMultiple { address, values } => {
            &&& address == ReadOnlyRegisterAddress::OutXL.byte_address_spec()
            &&& values.len() == 6
            &&& vector.x.value == decoded_sample_spec(values[0], values[1], res)
            &&& vector.y.value == decoded_sample_spec(values[2], values[3], res)
            &&& vector.z.value == decoded_sample_spec(values[4], values[5], res)
        },
        _ => false,
    }
}

/// A LIS3DH bound to the bus it was initialized over and to the validated
/// configuration that was written to it. The bus is exclusively owned: no
/// two controllers share one, and reconfiguration consumes the old handle.
pub struct Lis3dh<Bus, Config> where Bus: Lis3dhBus, Config: ValidLis3dhConfig {
    bus: Bus,
    config: Config,
}

impl<Bus, Config> Lis3dh<Bus, Config> where Bus: Lis3dhBus, Config: ValidLis3dhConfig {
    /// The plain configuration the driver holds.
    pub closed spec fn config_spec(&self) -> crate::config::Config {
        self.config.config_spec()
    }

    /// The transactions the held bus has carried, oldest first.
    pub closed spec fn bus_log(&self) -> Seq<BusTransaction> {
        self.bus.log()
    }

    /// Renders the validated configuration and writes it to the sensor in
    /// as few transactions as contiguity allows: one three-byte multi-write
    /// covering CTRL_REG0 (1Eh) through CTRL_REG1 (20h), then a single
    /// write of CTRL_REG4 (23h). Returns a handle bound to that
    /// configuration, or the first transport error.
    pub fn new(bus: Bus, config: Config) -> (result: Result<Lis3dh<Bus, Config>, Error<
        Bus::BusError,
    >>)
        ensures
            result is Ok ==> result->Ok_0.config_spec() == config.config_spec(),
            result is Ok ==> result->Ok_0.bus_log() == bus.log()
                + initialization_transactions_spec(config.config_spec()),
    {
        let ghost entry_log = bus.log();
        let mut bus = bus;
        let bytes = config.render_as_bytes();

        // Block 1: CTRL_REG0 (1Eh) through CTRL_REG1 (20h), one multi-write;
        // the three incremented addresses all lie in the read-write space.
        let first_block = vec![bytes.ctrl_reg0, bytes.temp_cfg_reg, bytes.ctrl_reg1];
        match bus.write_multiple(ReadWriteRegisterAddress::CtrlReg0, &first_block) {
            Ok(_) => (),
            Err(error) => {
                return Err(Error::Bus(error));
            },
        }

        // Block 2: CTRL_REG4 (23h), one single write.
        match bus.write(ReadWriteRegisterAddress::CtrlReg4, bytes.ctrl_reg4) {
            Ok(_) => (),
            Err(error) => {
                return Err(Error::Bus(error));
            },
        }

        proof {
            assert(first_block@ =~= seq![bytes.ctrl_reg0, bytes.temp_cfg_reg, bytes.ctrl_reg1]);
            assert(bus.log() =~~= entry_log + initialization_transactions_spec(
                config.config_spec(),
            ));
        }
        Ok(Lis3dh { bus, config })
    }

    /// Reconfigures by re-running full initialization against the new
    /// configuration (no incremental register diffing). The old handle and
    /// its configuration are consumed.
    pub fn reconfigure<NewConfig: ValidLis3dhConfig>(self, new_config: NewConfig) -> (result:
        Result<Lis3dh<Bus, NewConfig>, Error<Bus::BusError>>)
        ensures
            result is Ok ==> result->Ok_0.config_spec() == new_config.config_spec(),
            result is Ok ==> result->Ok_0.bus_log() == self.bus_log()
                + initialization_transactions_spec(new_config.config_spec()),
    {
        let Lis3dh { bus, config: _ } = self;
        Lis3dh::new(bus, new_config)
    }

    /// Releases the bus, consuming the driver. The sensor keeps whatever
    /// configuration was last written.
    pub fn into_bus(self) -> (bus: Bus)
        ensures
            bus.log() == self.bus_log(),
    {
        let Lis3dh { bus, config: _ } = self;
        bus
    }

    /// Reads the device-identification register WHO_AM_I (0Fh); a present
    /// device answers [`crate::registers::DEVICE_ID`].
    pub fn read_who_am_i(&mut self) -> (result: Result<u8, Error<Bus::BusError>>)
        ensures
            final(self).config_spec() == old(self).config_spec(),
            result is Ok ==> final(self).bus_log() == old(self).bus_log().push(
                BusTransaction::Read {
                    address: ReadOnlyRegisterAddress::WhoAmI.byte_address_spec(),
                    value: result->Ok_0,
                },
            ),
            result is Err ==> final(self).bus_log() == old(self).bus_log(),
    {
        match self.bus.read(RegisterAddress::ReadOnly(ReadOnlyRegisterAddress::WhoAmI)) {
            Ok(value) => Ok(value),
            Err(error) => Err(Error::Bus(error)),
        }
    }

    /// Combines a lower and an upper acceleration byte into the signed
    /// value they encode at the driver's active resolution.
    pub fn accel_raw_into_i16(&self, lower_byte: u8, upper_byte: u8) -> (value: i16)
        ensures
            value as int == decoded_sample_spec(
                lower_byte,
                upper_byte,
                resolution::of_spec(
                    self.config_spec().power_mode,
                    self.config_spec().resolution_mode,
                )->Some_0,
            ),
    {
        let res = self.config.resolution();
        acceleration_data_structs::decode_sample(lower_byte, upper_byte, res)
    }

    /// Reads the six acceleration output bytes OUT_X_L (28h) through
    /// OUT_Z_H (2Dh) in one auto-incrementing multi-read.
    pub fn read_accel_bytes(&mut self) -> (result: Result<Vec<u8>, Error<Bus::BusError>>)
        ensures
            final(self).config_spec() == old(self).config_spec(),
            result is Ok ==> result->Ok_0@.len() == 6 && final(self).bus_log() == old(
                self,
            ).bus_log().push(
                BusTransaction::ReadMultiple {
                    address: ReadOnlyRegisterAddress::OutXL.byte_address_spec(),
                    values: result->Ok_0@,
                },
            ),
            result is Err ==> final(self).bus_log() == old(self).bus_log(),
    {
        let mut buffer: Vec<u8> = vec![0, 0, 0, 0, 0, 0];
        match self.bus.read_multiple(
            RegisterAddress::ReadOnly(ReadOnlyRegisterAddress::OutXL),
            &mut buffer,
        ) {
            Ok(_) => Ok(buffer),
            Err(error) => Err(Error::Bus(error)),
        }
    }

    /// Reads one sample: a multi-read across the six output registers,
    /// decoded per axis at the active resolution.
    pub fn get_accel_vector(&mut self) -> (result: Result<AccelerationVector, Error<
        Bus::BusError,
    >>)
        ensures
            final(self).config_spec() == old(self).config_spec(),
            result is Ok ==> final(self).bus_log() == old(self).bus_log().push(
                final(self).bus_log().last(),
            ) && decodes_output_read_spec(
                final(self).bus_log().last(),
                resolution::of_spec(
                    old(self).config_spec().power_mode,
                    old(self).config_spec().resolution_mode,
                )->Some_0,
                result->Ok_0,
            ),
            result is Err ==> final(self).bus_log() == old(self).bus_log(),
    {
        let res = self.config.resolution();
        let bytes = match self.read_accel_bytes() {
            Ok(bytes) => bytes,
            Err(error) => {
                return Err(error);
            },
        };
        Ok(AccelerationVector::from_raw_bytes(&bytes, res))
    }
}

// Raw register access: the configuration-consistency guarantees of the
// driver do not cover these, but the register-space preconditions that the
// original leaves to the caller are proved here.
impl<Bus, Config> Lis3dh<Bus, Config> where Bus: Lis3dhBus, Config: ValidLis3dhConfig {
    /// Reads a single register value.
    pub fn read_register(&mut self, register_address: RegisterAddress) -> (result: Result<u8, Error<
        Bus::BusError,
    >>)
        ensures
            final(self).config_spec() == old(self).config_spec(),
            result is Ok ==> final(self).bus_log() == old(self).bus_log().push(
                BusTransaction::Read {
                    address: register_address.byte_address_spec(),
                    value: result->Ok_0,
                },
            ),
            result is Err ==> final(self).bus_log() == old(self).bus_log(),
    {
        match self.bus.read(register_address) {
            Ok(value) => Ok(value),
            Err(error) => Err(Error::Bus(error)),
        }
    }

    /// Reads consecutive register values into `result` until it is full,
    /// incrementing the address by one per byte read. Every incremented
    /// address must name a register.
    pub fn read_multiple_registers(&mut self, start_address: RegisterAddress, result: &mut Vec<u8>) -> (outcome:
        Result<(), Error<Bus::BusError>>)
        requires
            forall|address: int|
                start_address.byte_address_spec() <= address < start_address.byte_address_spec()
                    + old(result)@.len() ==> #[trigger] readable_address(address),
        ensures
            final(self).config_spec() == old(self).config_spec(),
            outcome is Ok ==> final(result)@.len() == old(result)@.len() && final(self).bus_log()
                == old(self).bus_log().push(
                BusTransaction::ReadMultiple {
                    address: start_address.byte_address_spec(),
                    values: final(result)@,
                },
            ),
            outcome is Err ==> final(self).bus_log() == old(self).bus_log(),
    {
        match self.bus.read_multiple(start_address, result) {
            Ok(_) => Ok(()),
            Err(error) => Err(Error::Bus(error)),
        }
    }

    /// Writes a single value to a register. The byte is taken as it is:
    /// nothing checks that it is a configuration the sensor documents.
    pub fn write_register(&mut self, register_address: ReadWriteRegisterAddress, value: u8) -> (result:
        Result<(), Error<Bus::BusError>>)
        ensures
            final(self).config_spec() == old(self).config_spec(),
            result is Ok ==> final(self).bus_log() == old(self).bus_log().push(
                BusTransaction::Write { address: register_address.byte_address_spec(), value },
            ),
            result is Err ==> final(self).bus_log() == old(self).bus_log(),
    {
        match self.bus.write(register_address, value) {
            Ok(_) => Ok(()),
            Err(error) => Err(Error::Bus(error)),
        }
    }

    /// Writes consecutive register values, incrementing the address by one
    /// per byte. Every incremented address must lie in the read-write
    /// space; the bytes themselves are taken as they are.
    pub fn write_multiple_registers(&mut self, start_address: ReadWriteRegisterAddress, values: &Vec<
        u8,
    >) -> (result: Result<(), Error<Bus::BusError>>)
        requires
            forall|address: int|
                start_address.byte_address_spec() <= address < start_address.byte_address_spec()
                    + values@.len() ==> #[trigger] writable_address(address),
        ensures
            final(self).config_spec() == old(self).config_spec(),
            result is Ok ==> final(self).bus_log() == old(self).bus_log().push(
                BusTransaction::WriteMultiple {
                    address: start_address.byte_address_spec(),
                    values: values@,
                },
            ),
            result is Err ==> final(self).bus_log() == old(self).bus_log(),
    {
        match self.bus.write_multiple(start_address, values) {
            Ok(_) => Ok(()),
            Err(error) => Err(Error::Bus(error)),
        }
    }
}

impl<Bus, Config> Sealed for Lis3dh<Bus, Config> where
    Bus: Lis3dhBus,
    Config: ValidLis3dhConfig,
 {

}

/// Convenient access to the related types of a [`Lis3dh`], so that users
/// need not spell out its generic parameters.
pub trait Lis3dhTypes: Sealed {
    type Bus: Lis3dhBus;
    type BusError;
    type Config: ValidLis3dhConfig;
}

impl<Bus, Config> Lis3dhTypes for Lis3dh<Bus, Config> where
    Bus: Lis3dhBus,
    Config: ValidLis3dhConfig,
 {
    type Bus = Bus;
    type BusError = Bus::BusError;
    type Config = Config;
}

} // verus!
