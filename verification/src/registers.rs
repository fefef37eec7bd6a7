//! Register map of the LIS3DH.
//!
//! Each register is an 8-bit slot at a fixed 6-bit address. The addresses are
//! partitioned into a read-only and a read-write space; writes must only ever
//! target the read-write space. Every configurable bit-field of a managed
//! register lives in a module of its own under this one, which gives the
//! field's position (`OFFSET`, `WIDTH`) inside its register and an enumeration
//! of its legal hardware states.

pub mod adc_en;
pub mod axis_enable;
pub mod bdu;
pub mod ble;
pub mod fs;
pub mod hr;
pub mod lp_en;
pub mod must_set_bits;
pub mod odr;
pub mod sdo_pu_disc;
pub mod sim;
pub mod st;
pub mod temp_en;

use vstd::prelude::*;

verus! {

/// The constant device-identification byte that the `WhoAmI` register returns.
pub const DEVICE_ID: u8 = 0x33;

/// Addresses of the registers that may be both read and written.
#[derive(Clone, Copy, PartialEq, Eq, Structural, Debug)]
pub enum ReadWriteRegisterAddress {
    /// CTRL_REG0 (1Eh)
    CtrlReg0,
    /// TEMP_CFG_REG (1Fh)
    TempCfgReg,
    /// CTRL_REG1 (20h)
    CtrlReg1,
    /// CTRL_REG2 (21h)
    CtrlReg2,
    /// CTRL_REG3 (22h)
    CtrlReg3,
    /// CTRL_REG4 (23h)
    CtrlReg4,
    /// CTRL_REG5 (24h)
    CtrlReg5,
    /// CTRL_REG6 (25h)
    CtrlReg6,
    /// FIFO_CTRL_REG (2Eh)
    FifoCtrlReg,
    /// INT1_CFG (30h)
    Int1Cfg,
    /// INT1_THS (32h)
    Int1Ths,
    /// INT1_DURATION (33h)
    Int1Duration,
    /// INT2_CFG (34h)
    Int2Cfg,
    /// INT2_THS (36h)
    Int2Ths,
    /// INT2_DURATION (37h)
    Int2Duration,
    /// CLICK_CFG (38h)
    ClickCfg,
    /// CLICK_THS (3Ah)
    ClickThs,
    /// TIME_LIMIT (3Bh)
    TimeLimit,
    /// TIME_LATENCY (3Ch)
    TimeLatency,
    /// TIME_WINDOW (3Dh)
    TimeWindow,
    /// ACT_THS (3Eh)
    ActThs,
    /// ACT_DUR (3Fh)
    ActDur,
}

impl ReadWriteRegisterAddress {
    /// The 6-bit bus address of the register.
    pub open spec fn byte_address_spec(self) -> u8 {
        match self {
            ReadWriteRegisterAddress::CtrlReg0 => 0x1E,
            ReadWriteRegisterAddress::TempCfgReg => 0x1F,
            ReadWriteRegisterAddress::CtrlReg1 => 0x20,
            ReadWriteRegisterAddress::CtrlReg2 => 0x21,
            ReadWriteRegisterAddress::CtrlReg3 => 0x22,
            ReadWriteRegisterAddress::CtrlReg4 => 0x23,
            ReadWriteRegisterAddress::CtrlReg5 => 0x24,
            ReadWriteRegisterAddress::CtrlReg6 => 0x25,
            ReadWriteRegisterAddress::FifoCtrlReg => 0x2E,
            ReadWriteRegisterAddress::Int1Cfg => 0x30,
            ReadWriteRegisterAddress::Int1Ths => 0x32,
            ReadWriteRegisterAddress::Int1Duration => 0x33,
            ReadWriteRegisterAddress::Int2Cfg => 0x34,
            ReadWriteRegisterAddress::Int2Ths => 0x36,
            ReadWriteRegisterAddress::Int2Duration => 0x37,
            ReadWriteRegisterAddress::ClickCfg => 0x38,
            ReadWriteRegisterAddress::ClickThs => 0x3A,
            ReadWriteRegisterAddress::TimeLimit => 0x3B,
            ReadWriteRegisterAddress::TimeLatency => 0x3C,
            ReadWriteRegisterAddress::TimeWindow => 0x3D,
            ReadWriteRegisterAddress::ActThs => 0x3E,
            ReadWriteRegisterAddress::ActDur => 0x3F,
        }
    }

    /// The 6-bit bus address of the register.
    pub fn byte_address(self) -> (address: u8)
        ensures
            address == self.byte_address_spec(),
            address < 0x40,
            writable_address(address as int),
    {
        match self {
            ReadWriteRegisterAddress::CtrlReg0 => 0x1E,
            ReadWriteRegisterAddress::TempCfgReg => 0x1F,
            ReadWriteRegisterAddress::CtrlReg1 => 0x20,
            ReadWriteRegisterAddress::CtrlReg2 => 0x21,
            ReadWriteRegisterAddress::CtrlReg3 => 0x22,
            ReadWriteRegisterAddress::CtrlReg4 => 0x23,
            ReadWriteRegisterAddress::CtrlReg5 => 0x24,
            ReadWriteRegisterAddress::CtrlReg6 => 0x25,
            ReadWriteRegisterAddress::FifoCtrlReg => 0x2E,
            ReadWriteRegisterAddress::Int1Cfg => 0x30,
            ReadWriteRegisterAddress::Int1Ths => 0x32,
            ReadWriteRegisterAddress::Int1Duration => 0x33,
            ReadWriteRegisterAddress::Int2Cfg => 0x34,
            ReadWriteRegisterAddress::Int2Ths => 0x36,
            ReadWriteRegisterAddress::Int2Duration => 0x37,
            ReadWriteRegisterAddress::ClickCfg => 0x38,
            ReadWriteRegisterAddress::ClickThs => 0x3A,
            ReadWriteRegisterAddress::TimeLimit => 0x3B,
            ReadWriteRegisterAddress::TimeLatency => 0x3C,
            ReadWriteRegisterAddress::TimeWindow => 0x3D,
            ReadWriteRegisterAddress::ActThs => 0x3E,
            ReadWriteRegisterAddress::ActDur => 0x3F,
        }
    }
}

/// Addresses of the registers that may only be read.
#[derive(Clone, Copy, PartialEq, Eq, Structural, Debug)]
pub enum ReadOnlyRegisterAddress {
    /// STATUS_REG_AUX (07h)
    StatusRegAux,
    /// OUT_ADC1_L (08h)
    OutAdc1L,
    /// OUT_ADC1_H (09h)
    OutAdc1H,
    /// OUT_ADC2_L (0Ah)
    OutAdc2L,
    /// OUT_ADC2_H (0Bh)
    OutAdc2H,
    /// OUT_ADC3_L (0Ch)
    OutAdc3L,
    /// OUT_ADC3_H (0Dh)
    OutAdc3H,
    /// WHO_AM_I (0Fh)
    WhoAmI,
    /// REFERENCE (26h)
    Reference,
    /// STATUS_REG (27h)
    StatusReg,
    /// OUT_X_L (28h)
    OutXL,
    /// OUT_X_H (29h)
    OutXH,
    /// OUT_Y_L (2Ah)
    OutYL,
    /// OUT_Y_H (2Bh)
    OutYH,
    /// OUT_Z_L (2Ch)
    OutZL,
    /// OUT_Z_H (2Dh)
    OutZH,
    /// FIFO_SRC_REG (2Fh)
    FifoSrcReg,
    /// INT1_SRC (31h)
    Int1Src,
    /// INT2_SRC (35h)
    Int2Src,
    /// CLICK_SRC (39h)
    ClickSrc,
}

impl ReadOnlyRegisterAddress {
    /// The 6-bit bus address of the register.
    pub open spec fn byte_address_spec(self) -> u8 {
        match self {
            ReadOnlyRegisterAddress::StatusRegAux => 0x07,
            ReadOnlyRegisterAddress::OutAdc1L => 0x08,
            ReadOnlyRegisterAddress::OutAdc1H => 0x09,
            ReadOnlyRegisterAddress::OutAdc2L => 0x0A,
            ReadOnlyRegisterAddress::OutAdc2H => 0x0B,
            ReadOnlyRegisterAddress::OutAdc3L => 0x0C,
            ReadOnlyRegisterAddress::OutAdc3H => 0x0D,
            ReadOnlyRegisterAddress::WhoAmI => 0x0F,
            ReadOnlyRegisterAddress::Reference => 0x26,
            ReadOnlyRegisterAddress::StatusReg => 0x27,
            ReadOnlyRegisterAddress::OutXL => 0x28,
            ReadOnlyRegisterAddress::OutXH => 0x29,
            ReadOnlyRegisterAddress::OutYL => 0x2A,
            ReadOnlyRegisterAddress::OutYH => 0x2B,
            ReadOnlyRegisterAddress::OutZL => 0x2C,
            ReadOnlyRegisterAddress::OutZH => 0x2D,
            ReadOnlyRegisterAddress::FifoSrcReg => 0x2F,
            ReadOnlyRegisterAddress::Int1Src => 0x31,
            ReadOnlyRegisterAddress::Int2Src => 0x35,
            ReadOnlyRegisterAddress::ClickSrc => 0x39,
        }
    }

    /// The 6-bit bus address of the register.
    pub fn byte_address(self) -> (address: u8)
        ensures
            address == self.byte_address_spec(),
            address < 0x40,
            readable_address(address as int),
    {
        match self {
            ReadOnlyRegisterAddress::StatusRegAux => 0x07,
            ReadOnlyRegisterAddress::OutAdc1L => 0x08,
            ReadOnlyRegisterAddress::OutAdc1H => 0x09,
            ReadOnlyRegisterAddress::OutAdc2L => 0x0A,
            ReadOnlyRegisterAddress::OutAdc2H => 0x0B,
            ReadOnlyRegisterAddress::OutAdc3L => 0x0C,
            ReadOnlyRegisterAddress::OutAdc3H => 0x0D,
            ReadOnlyRegisterAddress::WhoAmI => 0x0F,
            ReadOnlyRegisterAddress::Reference => 0x26,
            ReadOnlyRegisterAddress::StatusReg => 0x27,
            ReadOnlyRegisterAddress::OutXL => 0x28,
            ReadOnlyRegisterAddress::OutXH => 0x29,
            ReadOnlyRegisterAddress::OutYL => 0x2A,
            ReadOnlyRegisterAddress::OutYH => 0x2B,
            ReadOnlyRegisterAddress::OutZL => 0x2C,
            ReadOnlyRegisterAddress::OutZH => 0x2D,
            ReadOnlyRegisterAddress::FifoSrcReg => 0x2F,
            ReadOnlyRegisterAddress::Int1Src => 0x31,
            ReadOnlyRegisterAddress::Int2Src => 0x35,
            ReadOnlyRegisterAddress::ClickSrc => 0x39,
        }
    }
}

/// Either kind of register address.
#[derive(Clone, Copy, PartialEq, Eq, Structural, Debug)]
pub enum RegisterAddress {
    ReadOnly(ReadOnlyRegisterAddress),
    ReadWrite(ReadWriteRegisterAddress),
}

impl RegisterAddress {
    /// The 6-bit bus address of the register.
    pub open spec fn byte_address_spec(self) -> u8 {
        match self {
            RegisterAddress::ReadOnly(register_address) => register_address.byte_address_spec(),
            RegisterAddress::ReadWrite(register_address) => register_address.byte_address_spec(),
        }
    }

    /// The 6-bit bus address of the register.
    pub fn byte_address(self) -> (address: u8)
        ensures
            address == self.byte_address_spec(),
            address < 0x40,
            readable_address(address as int),
    {
        match self {
            RegisterAddress::ReadOnly(register_address) => register_address.byte_address(),
            RegisterAddress::ReadWrite(register_address) => register_address.byte_address(),
        }
    }
}

impl From<ReadOnlyRegisterAddress> for RegisterAddress {
    fn from(value: ReadOnlyRegisterAddress) -> (result: Self) {
        RegisterAddress::ReadOnly(value)
    }
}

impl vstd::std_specs::convert::FromSpecImpl<ReadOnlyRegisterAddress> for RegisterAddress {
    open spec fn obeys_from_spec() -> bool {
        true
    }

    open spec fn from_spec(value: ReadOnlyRegisterAddress) -> Self {
        RegisterAddress::ReadOnly(value)
    }
}

impl From<ReadWriteRegisterAddress> for RegisterAddress {
    fn from(value: ReadWriteRegisterAddress) -> (result: Self) {
        RegisterAddress::ReadWrite(value)
    }
}

impl vstd::std_specs::convert::FromSpecImpl<ReadWriteRegisterAddress> for RegisterAddress {
    open spec fn obeys_from_spec() -> bool {
        true
    }

    open spec fn from_spec(value: ReadWriteRegisterAddress) -> Self {
        RegisterAddress::ReadWrite(value)
    }
}

/// Whether `address` belongs to the read-write register space, so that a
/// write (or one step of an auto-incrementing multi-write) may target it.
pub open spec fn writable_address(address: int) -> bool {
    ||| 0x1E <= address <= 0x25
    ||| address == 0x2E
    ||| address == 0x30
    ||| 0x32 <= address <= 0x34
    ||| 0x36 <= address <= 0x38
    ||| 0x3A <= address <= 0x3F
}

/// Whether `address` names a register at all (either space), so that a read
/// (or one step of an auto-incrementing multi-read) may target it.
pub open spec fn readable_address(address: int) -> bool {
    ||| writable_address(address)
    ||| 0x07 <= address <= 0x0D
    ||| address == 0x0F
    ||| 0x26 <= address <= 0x2D
    ||| address == 0x2F
    ||| address == 0x31
    ||| address == 0x35
    ||| address == 0x39
}

/// The right-aligned mask of a field `width` bits wide.
pub open spec fn field_mask_spec(width: u8) -> u8 {
    ((1u8 << width) - 1) as u8
}

/// Returns the right-aligned mask of a field `width` bits wide.
pub fn field_mask(width: u8) -> (mask: u8)
    requires
        width < 8,
    ensures
        mask == field_mask_spec(width),
{
    proof {
        assert(1u8 << width >= 1) by (bit_vector)
            requires
                width < 8,
        ;
    }
    (1u8 << width) - 1
}

/// A bit-field state that renders to the raw bits placed in its register.
///
/// Every field module under this one defines an enumeration of hardware
/// states (`Variant`) and implements this trait for it; `raw_spec` is the
/// value that the data sheet assigns to the state.
pub trait State {
    /// The raw bit pattern of this state, right-aligned (not yet shifted to
    /// the field's offset).
    spec fn raw_spec(&self) -> u8;

    /// Returns the raw bit pattern of this state.
    fn raw(&self) -> (raw: u8)
        ensures
            raw == self.raw_spec(),
    ;
}

} // verus!
