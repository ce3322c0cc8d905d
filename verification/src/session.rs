//! Register operations as bus transactions.
//!
//! A register operation is carried out by one or two transactions on the
//! bus. The functions here decide which: each one either names the next
//! transaction as a [`BusAction`] or ends the operation with its result.
//! The transport performs the action and reports how it went; that report is
//! the next input. No function here waits, retries or keeps anything between
//! operations, so an operation that failed leaves nothing behind that could
//! disturb the next one.

use crate::error::BQ25773Error;
use crate::frame::{
    frame_read_request, frame_write, frame_write_spec, TransactionFrame,
};
use crate::register::{
    expected_read_length, width_bytes, RawRegisterBytes, LARGEST_REG_SIZE_BYTES,
};
use vstd::prelude::*;

verus! {

/// The bus address of the charger. Every transaction goes to this device.
pub const BQ_ADDR: u8 = 0x6B;

/// One transaction for the transport to perform, as a whole or not at all.
#[derive(Clone, Copy, Debug, PartialEq, Eq)]
pub enum BusAction {
    /// Write the bytes of `frame` to `device`.
    Write { device: u8, frame: TransactionFrame },
    /// Write the bytes of `frame` to `device`, then read `read_len` bytes
    /// from it, both in a single combined transaction, so that no other
    /// traffic comes between selecting the register and reading it.
    WriteRead { device: u8, frame: TransactionFrame, read_len: usize },
}

/// What a [`BusAction`] puts on the bus.
pub enum BusTransaction {
    /// `bytes` are written to `device`.
    Write { device: u8, bytes: Seq<u8> },
    /// `bytes` are written to `device`, then `read_len` bytes are read from it.
    WriteRead { device: u8, bytes: Seq<u8>, read_len: nat },
}

impl View for BusAction {
    type V = BusTransaction;

    open spec fn view(&self) -> BusTransaction {
        match *self {
            BusAction::Write { device, frame } => BusTransaction::Write { device, bytes: frame@ },
            BusAction::WriteRead { device, frame, read_len } => BusTransaction::WriteRead {
                device,
                bytes: frame@,
                read_len: read_len as nat,
            },
        }
    }
}

/// The transaction that `result` holds, or its error.
pub open spec fn planned<E>(result: Result<BusAction, BQ25773Error<E>>) -> Result<
    BusTransaction,
    BQ25773Error<E>,
> {
    match result {
        Ok(action) => Ok(action@),
        Err(e) => Err(e),
    }
}

/// How a register write starts: with the one write transaction that carries
/// the frame, or with a framing error and no transaction.
pub open spec fn write_register_spec<E>(address: u8, declared_bits: u32, payload: Seq<u8>) -> Result<
    BusTransaction,
    BQ25773Error<E>,
> {
    match frame_write_spec(address, declared_bits, payload) {
        Ok(bytes) => Ok(BusTransaction::Write { device: BQ_ADDR, bytes }),
        Err(_) => Err(BQ25773Error::Framing),
    }
}

/// How a register read into a buffer of `out_len` bytes starts: with the one
/// combined transaction that sends the address and fills the buffer, or with
/// a framing error where the buffer does not have the register's width.
pub open spec fn read_register_spec<E>(address: u8, declared_bits: u32, out_len: nat) -> Result<
    BusTransaction,
    BQ25773Error<E>,
> {
    if out_len == width_bytes(declared_bits) {
        Ok(BusTransaction::WriteRead { device: BQ_ADDR, bytes: seq![address], read_len: out_len })
    } else {
        Err(BQ25773Error::Framing)
    }
}

/// How a read-modify-write starts: with a read of the whole register, or
/// with a framing error where the register is wider than any of the device.
pub open spec fn modify_register_spec<E>(address: u8, declared_bits: u32) -> Result<
    BusTransaction,
    BQ25773Error<E>,
> {
    if width_bytes(declared_bits) <= LARGEST_REG_SIZE_BYTES {
        Ok(
            BusTransaction::WriteRead {
                device: BQ_ADDR,
                bytes: seq![address],
                read_len: width_bytes(declared_bits),
            },
        )
    } else {
        Err(BQ25773Error::Framing)
    }
}

/// The result of an operation whose last transaction ended with `outcome`:
/// success, or the transport's error as it came.
pub open spec fn transport_result<E>(outcome: Result<(), E>) -> Result<(), BQ25773Error<E>> {
    match outcome {
        Ok(_) => Ok(()),
        Err(e) => Err(BQ25773Error::I2c(e)),
    }
}

/// Starts a write of `payload` to the register at `address`, which is
/// `declared_bits` bits wide.
///
/// The payload is framed before anything reaches the bus. The frame holds
/// the address and the payload and not one byte more, so the write cannot
/// run on into the register at `address + 1`.
pub fn write_register<E>(address: u8, declared_bits: u32, payload: &[u8]) -> (result: Result<
    BusAction,
    BQ25773Error<E>,
>)
    ensures
        planned(result) == write_register_spec::<E>(address, declared_bits, payload@),
{
    match frame_write(address, declared_bits, payload) {
        Ok(frame) => Ok(BusAction::Write { device: BQ_ADDR, frame }),
        Err(_) => Err(BQ25773Error::Framing),
    }
}

/// Starts a read of the register at `address`, which is `declared_bits` bits
/// wide, into a buffer of `out_len` bytes.
pub fn read_register<E>(address: u8, declared_bits: u32, out_len: usize) -> (result: Result<
    BusAction,
    BQ25773Error<E>,
>)
    ensures
        planned(result) == read_register_spec::<E>(address, declared_bits, out_len as nat),
{
    if out_len == expected_read_length(declared_bits) {
        Ok(
            BusAction::WriteRead {
                device: BQ_ADDR,
                frame: frame_read_request(address),
                read_len: out_len,
            },
        )
    } else {
        Err(BQ25773Error::Framing)
    }
}

/// Ends an operation whose last transaction the transport has reported on.
pub fn complete_transaction<E>(outcome: Result<(), E>) -> (result: Result<(), BQ25773Error<E>>)
    ensures
        result == transport_result(outcome),
{
    match outcome {
        Ok(()) => Ok(()),
        Err(e) => Err(BQ25773Error::I2c(e)),
    }
}

/// A read-modify-write whose read is on the bus.
///
/// Nothing holds the register between the read and the write that follows
/// it: another bus master, or another task on the same bus, may write the
/// register in between, and that write is then overwritten. Callers that
/// cannot accept this keep other traffic away for as long as the operation
/// runs.
#[derive(Debug)]
pub struct PendingModify {
    address: u8,
    declared_bits: u32,
}

impl PendingModify {
    /// The address of the register being modified.
    pub closed spec fn address(self) -> u8 {
        self.address
    }

    /// The declared width, in bits, of the register being modified.
    pub closed spec fn declared_bits(self) -> u32 {
        self.declared_bits
    }

    /// Continues with what the read brought.
    ///
    /// Where the read failed, the operation ends with the transport's error
    /// and nothing is written. Otherwise `mutator` is applied to the bytes
    /// read, and what it returns is written back like any register write:
    /// framed first, and refused if it no longer has the register's width.
    pub fn write_back<E, F: FnOnce(RawRegisterBytes) -> RawRegisterBytes>(
        self,
        outcome: Result<RawRegisterBytes, E>,
        mutator: F,
    ) -> (result: Result<BusAction, BQ25773Error<E>>)
        requires
            outcome matches Ok(raw) ==> mutator.requires((raw,)),
        ensures
            match outcome {
                Ok(raw) => exists|mutated: RawRegisterBytes|
                    #![trigger mutator.ensures((raw,), mutated)]
                    mutator.ensures((raw,), mutated) && planned(result) == write_register_spec::<E>(
                        self.address(),
                        self.declared_bits(),
                        mutated@,
                    ),
                Err(e) => result == Err::<BusAction, BQ25773Error<E>>(BQ25773Error::I2c(e)),
            },
    {
        match outcome {
            Ok(raw) => {
                let mutated = mutator(raw);
                write_register(self.address, self.declared_bits, mutated.as_slice())
            },
            Err(e) => Err(BQ25773Error::I2c(e)),
        }
    }
}

/// Starts a read-modify-write of the register at `address`, which is
/// `declared_bits` bits wide.
///
/// The width is checked before the read goes out, so that a register that
/// could not be written back is not read either.
pub fn modify_register<E>(address: u8, declared_bits: u32) -> (result: Result<
    (PendingModify, BusAction),
    BQ25773Error<E>,
>)
    ensures
        match result {
            Ok((pending, action)) => {
                &&& pending.address() == address
                &&& pending.declared_bits() == declared_bits
                &&& modify_register_spec::<E>(address, declared_bits) == Ok::<
                    BusTransaction,
                    BQ25773Error<E>,
                >(action@)
            },
            Err(e) => modify_register_spec::<E>(address, declared_bits) == Err::<
                BusTransaction,
                BQ25773Error<E>,
            >(e),
        },
{
    let read_len: usize = expected_read_length(declared_bits);
    if read_len <= LARGEST_REG_SIZE_BYTES {
        Ok(
            (
                PendingModify { address, declared_bits },
                BusAction::WriteRead {
                    device: BQ_ADDR,
                    frame: frame_read_request(address),
                    read_len,
                },
            ),
        )
    } else {
        Err(BQ25773Error::Framing)
    }
}

/// A register write starts with a transaction exactly where its payload can
/// be framed, and every other write ends at once as a framing error.
pub proof fn lemma_unframed_write_is_a_framing_error<E>(
    address: u8,
    declared_bits: u32,
    payload: Seq<u8>,
)
    ensures
        frame_write_spec(address, declared_bits, payload) is Ok <==> write_register_spec::<E>(
            address,
            declared_bits,
            payload,
        ) is Ok,
        frame_write_spec(address, declared_bits, payload) is Err ==> write_register_spec::<E>(
            address,
            declared_bits,
            payload,
        ) == Err::<BusTransaction, BQ25773Error<E>>(BQ25773Error::Framing),
        payload.len() > LARGEST_REG_SIZE_BYTES ==> write_register_spec::<E>(
            address,
            declared_bits,
            payload,
        ) == Err::<BusTransaction, BQ25773Error<E>>(BQ25773Error::Framing),
{
}

/// The one transaction of a register write goes to the charger and carries
/// the address byte, then the payload, then nothing: `1 + N` bytes for a
/// register of `N` bytes.
pub proof fn lemma_write_carries_exactly_the_register<E>(
    address: u8,
    declared_bits: u32,
    payload: Seq<u8>,
)
    requires
        write_register_spec::<E>(address, declared_bits, payload) is Ok,
    ensures
        write_register_spec::<E>(address, declared_bits, payload) == Ok::<
            BusTransaction,
            BQ25773Error<E>,
        >(BusTransaction::Write { device: BQ_ADDR, bytes: seq![address] + payload }),
        (seq![address] + payload).len() == 1 + width_bytes(declared_bits),
        width_bytes(declared_bits) <= LARGEST_REG_SIZE_BYTES,
{
}

/// A write to a register of exactly `LARGEST_REG_SIZE_BYTES` bytes goes out,
/// as one transaction of `1 + LARGEST_REG_SIZE_BYTES` bytes; a write to a
/// register one byte wider ends as a framing error.
pub proof fn lemma_widest_register_is_written<E>(address: u8, declared_bits: u32, payload: Seq<u8>)
    requires
        payload.len() == width_bytes(declared_bits),
    ensures
        declared_bits == 8 * LARGEST_REG_SIZE_BYTES ==> {
            &&& write_register_spec::<E>(address, declared_bits, payload) == Ok::<
                BusTransaction,
                BQ25773Error<E>,
            >(BusTransaction::Write { device: BQ_ADDR, bytes: seq![address] + payload })
            &&& (seq![address] + payload).len() == 1 + LARGEST_REG_SIZE_BYTES
        },
        declared_bits == 8 * (LARGEST_REG_SIZE_BYTES + 1) ==> write_register_spec::<E>(
            address,
            declared_bits,
            payload,
        ) == Err::<BusTransaction, BQ25773Error<E>>(BQ25773Error::Framing),
{
}

} // verus!
