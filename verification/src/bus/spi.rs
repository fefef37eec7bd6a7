//! The SPI wire format of the LIS3DH.
//!
//! Every transaction starts with a single control byte: the top two bits
//! select the operation, the low six bits carry the register address.
//! Multi-byte transfers send the control byte once and rely on the sensor's
//! address auto-increment for the payload that follows.

use vstd::prelude::*;

use crate::registers::ReadWriteRegisterAddress;
use crate::registers::RegisterAddress;

verus! {

/// The four bus operations, each with its two control bits already placed
/// at the top of a byte.
#[derive(Clone, Copy, PartialEq, Eq, Structural, Debug)]
pub enum Lis3dhOperation {
    /// 0b00 on top: write one register.
    SingleWrite,
    /// 0b01 on top: write consecutive registers with address auto-increment.
    MultipleWrite,
    /// 0b10 on top: read one register.
    SingleRead,
    /// 0b11 on top: read consecutive registers with address auto-increment.
    MultipleRead,
}

impl Lis3dhOperation {
    /// The operation's control bits, placed in the top two bits of a byte.
    pub open spec fn raw_spec(self) -> u8 {
        match self {
            Lis3dhOperation::SingleWrite => 0b00000000,
            Lis3dhOperation::MultipleWrite => 0b01000000,
            Lis3dhOperation::SingleRead => 0b10000000,
            Lis3dhOperation::MultipleRead => 0b11000000,
        }
    }

    /// Returns the operation's control bits.
    pub fn raw(self) -> (raw: u8)
        ensures
            raw == self.raw_spec(),
    {
        match self {
            Lis3dhOperation::SingleWrite => 0b00000000,
            Lis3dhOperation::MultipleWrite => 0b01000000,
            Lis3dhOperation::SingleRead => 0b10000000,
            Lis3dhOperation::MultipleRead => 0b11000000,
        }
    }
}

/// The control byte that starts a transaction: `[operation:2][address:6]`.
pub open spec fn control_byte_spec(operation: Lis3dhOperation, address: u8) -> u8 {
    operation.raw_spec() | address
}

/// Builds the control byte of a transaction.
pub fn control_byte(operation: Lis3dhOperation, address: u8) -> (byte: u8)
    requires
        address < 0x40,
    ensures
        byte == control_byte_spec(operation, address),
{
    operation.raw() | address
}

/// The two-byte frame of a single-register write: the control byte, then
/// the value.
pub fn single_write_frame(register_address: ReadWriteRegisterAddress, value: u8) -> (frame: [u8; 2])
    ensures
        frame@[0] == control_byte_spec(
            Lis3dhOperation::SingleWrite,
            register_address.byte_address_spec(),
        ),
        frame@[1] == value,
{
    [control_byte(Lis3dhOperation::SingleWrite, register_address.byte_address()), value]
}

/// The command byte that starts an auto-incrementing multi-write; the
/// payload bytes follow it with no further framing.
pub fn multiple_write_command(start_address: ReadWriteRegisterAddress) -> (byte: u8)
    ensures
        byte == control_byte_spec(
            Lis3dhOperation::MultipleWrite,
            start_address.byte_address_spec(),
        ),
{
    control_byte(Lis3dhOperation::MultipleWrite, start_address.byte_address())
}

/// The command byte of a single-register read; one byte is read back after
/// it.
pub fn single_read_command(register_address: RegisterAddress) -> (byte: u8)
    ensures
        byte == control_byte_spec(
            Lis3dhOperation::SingleRead,
            register_address.byte_address_spec(),
        ),
{
    control_byte(Lis3dhOperation::SingleRead, register_address.byte_address())
}

/// The command byte that starts an auto-incrementing multi-read; the bytes
/// are read back after it with no further framing.
pub fn multiple_read_command(start_address: RegisterAddress) -> (byte: u8)
    ensures
        byte == control_byte_spec(
            Lis3dhOperation::MultipleRead,
            start_address.byte_address_spec(),
        ),
{
    control_byte(Lis3dhOperation::MultipleRead, start_address.byte_address())
}

/// Pairs an SPI device with the driver's wire format. Driving the device is
/// transport work and stays outside the verified core; the frames and
/// command bytes it exchanges come from the functions above.
pub struct Lis3dhAsyncSpi<Spi> {
    /// The underlying SPI device.
    pub spi: Spi,
}

} // verus!
