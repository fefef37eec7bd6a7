//! Bus transaction protocol: address-indexed byte transfer over an abstract
//! transport.
//!
//! The driver is bus-agnostic: any transport that implements [`Lis3dhBus`]
//! can carry it. A transport failure is propagated immediately and never
//! retried. Each transport is modeled by the log of [`BusTransaction`]s it
//! has carried, so the driver's contracts can state which addresses and
//! bytes reach the sensor. Multi-byte operations rely on the sensor's
//! address auto-increment; the register-file model below pins down what
//! that means and proves it equivalent to issuing the single-byte
//! operations one at a time.

pub mod spi;

use vstd::prelude::*;

use crate::registers::readable_address;
use crate::registers::writable_address;
use crate::registers::ReadWriteRegisterAddress;
use crate::registers::RegisterAddress;

verus! {

/// One transaction carried by a transport, as the driver's contracts model
/// it: the operation, the 6-bit start address, and the payload bytes moved
/// (for reads, the bytes that came back).
#[verifier::ext_equal]
pub enum BusTransaction {
    /// A single-register write of `value` at `address`.
    Write { address: u8, value: u8 },
    /// An auto-incrementing multi-write of `values` starting at `address`.
    WriteMultiple { address: u8, values: Seq<u8> },
    /// A single-register read at `address` that returned `value`.
    Read { address: u8, value: u8 },
    /// An auto-incrementing multi-read starting at `address` that returned
    /// `values`.
    ReadMultiple { address: u8, values: Seq<u8> },
}

/// Whether `transaction` is a single read at `address` whose byte equals
/// `expected` exactly when `outcome` says so.
pub open spec fn verifying_read_spec(
    transaction: BusTransaction,
    address: u8,
    expected: u8,
    outcome: bool,
) -> bool {
    match transaction {
        BusTransaction::Read { address: read_address, value } => {
            read_address == address && outcome == (value == expected)
        },
        _ => false,
    }
}

/// An abstract bidirectional transport that moves register bytes between
/// the controller and the sensor. Implementations live with the transport
/// (an SPI or I2C device); the driver only relies on the operations below.
///
/// The transport is modeled by its `log`: the transactions it has carried,
/// oldest first. Each operation appends exactly its own transaction on
/// success and appends nothing on failure, so a caller's contract can say
/// which addresses and bytes reached the sensor and which bytes a result
/// was read from — without promising anything about the values a real
/// sensor returns.
pub trait Lis3dhBus {
    /// The transport's own error type, wrapped into [`crate::Error`] by the
    /// driver.
    type BusError;

    /// The transactions this transport has carried, oldest first.
    /// Implementations that maintain the model override this; the default
    /// leaves a transport unmodeled. An implementation that does not
    /// maintain the log cannot honor the operations' log clauses — only
    /// implementations inside this crate are machine-checked against them.
    open spec fn log(&self) -> Seq<BusTransaction> {
        Seq::empty()
    }

    /// Writes a single register value.
    fn write(&mut self, register_address: ReadWriteRegisterAddress, value: u8) -> (result: Result<
        (),
        Self::BusError,
    >)
        ensures
            result is Ok ==> final(self).log() == old(self).log().push(
                BusTransaction::Write { address: register_address.byte_address_spec(), value },
            ),
            result is Err ==> final(self).log() == old(self).log(),
    ;

    /// Writes consecutive register values starting at `start_address`,
    /// incrementing the address by one per byte. The hardware checks
    /// nothing: every touched address must lie in the read-write space,
    /// which callers establish here.
    fn write_multiple(&mut self, start_address: ReadWriteRegisterAddress, values: &Vec<u8>) -> (result:
        Result<(), Self::BusError>)
        requires
            forall|address: int|
                start_address.byte_address_spec() <= address < start_address.byte_address_spec()
                    + values@.len() ==> #[trigger] writable_address(address),
        ensures
            result is Ok ==> final(self).log() == old(self).log().push(
                BusTransaction::WriteMultiple {
                    address: start_address.byte_address_spec(),
                    values: values@,
                },
            ),
            result is Err ==> final(self).log() == old(self).log(),
    ;

    /// Reads a single register value.
    fn read(&mut self, register_address: RegisterAddress) -> (result: Result<u8, Self::BusError>)
        ensures
            result is Ok ==> final(self).log() == old(self).log().push(
                BusTransaction::Read {
                    address: register_address.byte_address_spec(),
                    value: result->Ok_0,
                },
            ),
            result is Err ==> final(self).log() == old(self).log(),
    ;

    /// Reads consecutive register values into `buffer` until it is full,
    /// incrementing the address by one per byte read. Every touched address
    /// must name a register.
    fn read_multiple(&mut self, start_address: RegisterAddress, buffer: &mut Vec<u8>) -> (result:
        Result<(), Self::BusError>)
        requires
            forall|address: int|
                start_address.byte_address_spec() <= address < start_address.byte_address_spec()
                    + old(buffer)@.len() ==> #[trigger] readable_address(address),
        ensures
            result is Ok ==> final(buffer)@.len() == old(buffer)@.len() && final(self).log() == old(
                self,
            ).log().push(
                BusTransaction::ReadMultiple {
                    address: start_address.byte_address_spec(),
                    values: final(buffer)@,
                },
            ),
            result is Err ==> final(self).log() == old(self).log(),
    ;

    /// Reads a single register value and returns whether it equals
    /// `expected_result`. What the read hands back depends on the
    /// transport, so the comparison itself stands behind the exact
    /// contract of [`verify_value`], and the logged read witnesses it.
    fn read_and_verify(&mut self, address: RegisterAddress, expected_result: &u8) -> (result:
        Result<bool, Self::BusError>)
        ensures
            result is Ok ==> final(self).log() == old(self).log().push(final(self).log().last())
                && verifying_read_spec(
                final(self).log().last(),
                address.byte_address_spec(),
                *expected_result,
                result->Ok_0,
            ),
            result is Err ==> final(self).log() == old(self).log(),
    {
        match self.read(address) {
            Ok(value) => Ok(verify_value(value, expected_result)),
            Err(error) => Err(error),
        }
    }
}

/// Decides a verification read: whether the byte that came back equals the
/// expected one, and nothing else.
pub fn verify_value(value: u8, expected_result: &u8) -> (matches: bool)
    ensures
        matches == (value == *expected_result),
{
    value == *expected_result
}

/// One addressed register write, as the sensor's register file sees it.
#[derive(Clone, Copy, PartialEq, Eq, Structural, Debug)]
pub struct RegisterWrite {
    pub address: u8,
    pub value: u8,
}

/// The register file after a single write: the addressed register takes the
/// value, every other register keeps its own.
pub open spec fn apply_write_spec(registers: Map<u8, u8>, address: u8, value: u8) -> Map<u8, u8> {
    registers.insert(address, value)
}

/// The register file after an auto-incrementing multi-write: the first byte
/// lands at `start_address` and the target address grows by one per byte.
pub open spec fn apply_write_multiple_spec(
    registers: Map<u8, u8>,
    start_address: u8,
    values: Seq<u8>,
) -> Map<u8, u8>
    decreases values.len(),
{
    if values.len() == 0 {
        registers
    } else {
        apply_write_multiple_spec(
            apply_write_spec(registers, start_address, values.first()),
            (start_address + 1) as u8,
            values.skip(1),
        )
    }
}

/// The register file after a sequence of single writes, applied in order.
pub open spec fn apply_single_writes_spec(
    registers: Map<u8, u8>,
    writes: Seq<RegisterWrite>,
) -> Map<u8, u8>
    decreases writes.len(),
{
    if writes.len() == 0 {
        registers
    } else {
        apply_single_writes_spec(
            apply_write_spec(registers, writes.first().address, writes.first().value),
            writes.skip(1),
        )
    }
}

/// The single writes that an auto-incrementing multi-write unrolls to: byte
/// `i` of the payload at address `start_address + i`.
pub open spec fn unrolled_writes_spec(start_address: u8, values: Seq<u8>) -> Seq<RegisterWrite> {
    Seq::new(
        values.len(),
        |i: int|
            RegisterWrite { address: (start_address + i) as u8, value: values[i] },
    )
}

/// Extending a multi-write by one byte is one more single write at the next
/// incremented address.
proof fn lemma_apply_write_multiple_snoc(
    registers: Map<u8, u8>,
    start_address: u8,
    values: Seq<u8>,
    value: u8,
)
    requires
        start_address + values.len() < 256,
    ensures
        apply_write_multiple_spec(registers, start_address, values.push(value)) == apply_write_spec(
            apply_write_multiple_spec(registers, start_address, values),
            (start_address + values.len()) as u8,
            value,
        ),
    decreases values.len(),
{
    reveal_with_fuel(apply_write_multiple_spec, 3);
    if values.len() == 0 {
        assert(values.push(value).first() == value);
        assert(values.push(value).skip(1) =~= Seq::<u8>::empty());
    } else {
        let written = apply_write_spec(registers, start_address, values.first());
        assert(values.push(value).first() == values.first());
        assert(values.push(value).skip(1) =~= values.skip(1).push(value));
        lemma_apply_write_multiple_snoc(written, (start_address + 1) as u8, values.skip(1), value);
    }
}

/// Law: a multi-write of N bytes starting at address A leaves the register
/// file exactly as N sequential single writes at A, A+1, ..., A+N-1 leave
/// it, as long as the address arithmetic does not run past the end of the
/// address space.
pub proof fn lemma_write_multiple_like_single_writes(
    registers: Map<u8, u8>,
    start_address: u8,
    values: Seq<u8>,
)
    requires
        start_address + values.len() <= 256,
    ensures
        apply_write_multiple_spec(registers, start_address, values) == apply_single_writes_spec(
            registers,
            unrolled_writes_spec(start_address, values),
        ),
    decreases values.len(),
{
    if values.len() == 0 {
    } else {
        let written = apply_write_spec(registers, start_address, values.first());
        lemma_write_multiple_like_single_writes(written, (start_address + 1) as u8, values.skip(1));
        assert(unrolled_writes_spec(start_address, values).skip(1) =~= unrolled_writes_spec(
            (start_address + 1) as u8,
            values.skip(1),
        ));
        assert(unrolled_writes_spec(start_address, values).first() == RegisterWrite {
            address: start_address,
            value: values.first(),
        });
    }
}

/// An in-memory register file that stands in for a sensor on the host.
/// Writes land exactly as the auto-increment model above says and reads
/// hand back what is stored, so code driving a [`Lis3dhBus`] can be
/// exercised without hardware.
pub struct SimulatedBus {
    registers: Vec<u8>,
    carried: Ghost<Seq<BusTransaction>>,
}

impl SimulatedBus {
    #[verifier::type_invariant]
    spec fn type_inv(self) -> bool {
        self.registers@.len() == 64
    }

    /// The simulated register file, one byte per 6-bit address.
    pub closed spec fn registers_spec(self) -> Map<u8, u8> {
        Map::new(|address: u8| address < 64, |address: u8| self.registers@[address as int])
    }

    /// A register file with every register cleared and nothing carried
    /// yet.
    pub fn new() -> (bus: SimulatedBus)
        ensures
            forall|address: u8| address < 64 ==> bus.registers_spec()[address] == 0,
            bus.log() == Seq::<BusTransaction>::empty(),
    {
        let mut registers: Vec<u8> = Vec::new();
        while registers.len() < 64
            invariant
                registers@.len() <= 64,
                forall|i: int| 0 <= i < registers@.len() ==> registers@[i] == 0,
            decreases 64 - registers@.len(),
        {
            registers.push(0);
        }
        SimulatedBus { registers, carried: Ghost(Seq::empty()) }
    }

    /// Returns one stored register byte.
    pub fn register(&self, address: u8) -> (value: u8)
        requires
            address < 64,
        ensures
            value == self.registers_spec()[address],
    {
        proof {
            use_type_invariant(&*self);
        }
        self.registers[address as usize]
    }
}

impl Lis3dhBus for SimulatedBus {
    type BusError = u8;

    closed spec fn log(&self) -> Seq<BusTransaction> {
        self.carried@
    }

    fn write(&mut self, register_address: ReadWriteRegisterAddress, value: u8) -> (result: Result<
        (),
        u8,
    >)
        ensures
            result is Ok,
            final(self).registers_spec() == apply_write_spec(
                old(self).registers_spec(),
                register_address.byte_address_spec(),
                value,
            ),
    {
        proof {
            use_type_invariant(&*self);
        }
        let address = register_address.byte_address();
        self.registers[address as usize] = value;
        self.carried = Ghost(self.carried@.push(BusTransaction::Write { address, value }));
        proof {
            assert(self.registers_spec() =~= apply_write_spec(
                old(self).registers_spec(),
                register_address.byte_address_spec(),
                value,
            ));
        }
        Ok(())
    }

    fn write_multiple(&mut self, start_address: ReadWriteRegisterAddress, values: &Vec<u8>) -> (result:
        Result<(), u8>)
        ensures
            result is Ok,
            final(self).registers_spec() == apply_write_multiple_spec(
                old(self).registers_spec(),
                start_address.byte_address_spec(),
                values@,
            ),
    {
        proof {
            use_type_invariant(&*self);
        }
        let start = start_address.byte_address();
        let mut index: usize = 0;
        while index < values.len()
            invariant
                index <= values@.len(),
                start == start_address.byte_address_spec(),
                forall|address: int|
                    start <= address < start + values@.len() ==> #[trigger] writable_address(
                        address,
                    ),
                self.registers@.len() == 64,
                self.carried@ == old(self).carried@,
                self.registers_spec() == apply_write_multiple_spec(
                    old(self).registers_spec(),
                    start,
                    values@.take(index as int),
                ),
            decreases values@.len() - index,
        {
            let ghost previous = self.registers_spec();
            assert(writable_address(start + index));
            self.registers[start as usize + index] = values[index];
            proof {
                assert(self.registers_spec() =~= apply_write_spec(
                    previous,
                    (start + index) as u8,
                    values@[index as int],
                ));
                lemma_apply_write_multiple_snoc(
                    old(self).registers_spec(),
                    start,
                    values@.take(index as int),
                    values@[index as int],
                );
                assert(values@.take(index as int).push(values@[index as int]) =~= values@.take(
                    index as int + 1,
                ));
            }
            index += 1;
        }
        proof {
            assert(values@.take(values@.len() as int) =~= values@);
        }
        self.carried = Ghost(
            self.carried@.push(BusTransaction::WriteMultiple { address: start, values: values@ }),
        );
        Ok(())
    }

    fn read(&mut self, register_address: RegisterAddress) -> (result: Result<u8, u8>)
        ensures
            result is Ok,
            final(self).registers_spec() == old(self).registers_spec(),
            result->Ok_0 == old(self).registers_spec()[register_address.byte_address_spec()],
    {
        proof {
            use_type_invariant(&*self);
        }
        let address = register_address.byte_address();
        let value = self.registers[address as usize];
        self.carried = Ghost(self.carried@.push(BusTransaction::Read { address, value }));
        Ok(value)
    }

    fn read_and_verify(&mut self, address: RegisterAddress, expected_result: &u8) -> (result:
        Result<bool, u8>)
        ensures
            result is Ok,
            final(self).registers_spec() == old(self).registers_spec(),
            result->Ok_0 == (old(self).registers_spec()[address.byte_address_spec()]
                == *expected_result),
    {
        proof {
            use_type_invariant(&*self);
        }
        let read_address = address.byte_address();
        let value = self.registers[read_address as usize];
        self.carried = Ghost(
            self.carried@.push(BusTransaction::Read { address: read_address, value }),
        );
        Ok(verify_value(value, expected_result))
    }

    fn read_multiple(&mut self, start_address: RegisterAddress, buffer: &mut Vec<u8>) -> (result:
        Result<(), u8>)
        ensures
            result is Ok,
            final(self).registers_spec() == old(self).registers_spec(),
            forall|i: int|
                0 <= i < old(buffer)@.len() ==> #[trigger] final(buffer)@[i] == old(
                    self,
                ).registers_spec()[((start_address.byte_address_spec() + i) as u8)],
    {
        proof {
            use_type_invariant(&*self);
        }
        let start = start_address.byte_address();
        let n = buffer.len();
        let mut filled: Vec<u8> = Vec::new();
        while filled.len() < n
            invariant
                n == old(buffer)@.len(),
                filled@.len() <= n,
                start == start_address.byte_address_spec(),
                forall|address: int|
                    start <= address < start + n ==> #[trigger] readable_address(address),
                self == old(self),
                self.registers@.len() == 64,
                forall|i: int|
                    0 <= i < filled@.len() ==> #[trigger] filled@[i] == self.registers@[start + i],
            decreases n - filled@.len(),
        {
            let index = filled.len();
            assert(readable_address(start + index));
            filled.push(self.registers[start as usize + index]);
        }
        proof {
            assert forall|i: int| 0 <= i < n implies filled@[i] == old(self).registers_spec()[(
            (start + i) as u8)] by {
                assert(readable_address(start + i));
            };
        }
        *buffer = filled;
        self.carried = Ghost(
            self.carried@.push(BusTransaction::ReadMultiple { address: start, values: buffer@ }),
        );
        Ok(())
    }
}

} // verus!
