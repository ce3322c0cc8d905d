//! Transaction framing: the bytes that one register operation puts on the bus.

use crate::register::{expected_read_length, width_bytes, LARGEST_REG_SIZE_BYTES};
use vstd::prelude::*;

verus! {

/// Length in bytes of the longest frame: the address byte and the widest register.
pub const FRAME_CAPACITY: usize = 1 + LARGEST_REG_SIZE_BYTES;

/// Why a payload cannot be framed as a register write.
#[derive(Clone, Copy, Debug, PartialEq, Eq)]
pub enum SizeError {
    /// The payload is longer than the widest register of the device.
    PayloadTooLong,
    /// The payload is not as long as a register of the declared width.
    WidthMismatch,
}

/// The byte sequence that one bus transaction transmits.
///
/// A frame holds between one and `FRAME_CAPACITY` bytes. Its view is exactly
/// the bytes that go on the bus: the backing buffer has a fixed size, but the
/// part of it beyond the frame's length never reaches a transport.
#[derive(Clone, Copy, Debug, PartialEq, Eq)]
pub struct TransactionFrame {
    bytes: [u8; FRAME_CAPACITY],
    len: usize,
}

impl View for TransactionFrame {
    type V = Seq<u8>;

    closed spec fn view(&self) -> Seq<u8> {
        self.bytes@.subrange(0, self.len as int)
    }
}

impl TransactionFrame {
    #[verifier::type_invariant]
    spec fn well_formed(self) -> bool {
        &&& 1 <= self.len <= FRAME_CAPACITY
        &&& forall|i: int| self.len <= i < FRAME_CAPACITY ==> self.bytes@[i] == 0
    }

    /// The number of bytes in the frame.
    pub fn len(&self) -> (n: usize)
        ensures
            n == self@.len(),
            1 <= n <= FRAME_CAPACITY,
    {
        proof {
            use_type_invariant(self);
        }
        self.len
    }

    /// The bytes of the frame, in the order in which they are transmitted.
    pub fn as_slice(&self) -> (bytes: &[u8])
        ensures
            bytes@ == self@,
    {
        proof {
            use_type_invariant(self);
        }
        vstd::slice::slice_subrange(self.bytes.as_slice(), 0, self.len)
    }
}

/// What framing a register write yields: the bytes of the frame, or the
/// reason why there is none.
///
/// A payload is framed only if it is no longer than the widest register and
/// exactly as long as a register of `declared_bits` bits. The frame is then
/// the address byte followed by the payload, and nothing else.
pub open spec fn frame_write_spec(address: u8, declared_bits: u32, payload: Seq<u8>) -> Result<
    Seq<u8>,
    SizeError,
> {
    if payload.len() > LARGEST_REG_SIZE_BYTES {
        Err(SizeError::PayloadTooLong)
    } else if payload.len() != width_bytes(declared_bits) {
        Err(SizeError::WidthMismatch)
    } else {
        Ok(seq![address] + payload)
    }
}

/// The bytes of the frame that `result` holds, or its error.
pub open spec fn frame_bytes(result: Result<TransactionFrame, SizeError>) -> Result<
    Seq<u8>,
    SizeError,
> {
    match result {
        Ok(frame) => Ok(frame@),
        Err(e) => Err(e),
    }
}

/// Frames a write of `payload` to the register at `address`, whose declared
/// width is `declared_bits` bits.
///
/// The size checks come first, so that a payload that does not fit the
/// register never produces a frame.
pub fn frame_write(address: u8, declared_bits: u32, payload: &[u8]) -> (result: Result<
    TransactionFrame,
    SizeError,
>)
    ensures
        frame_bytes(result) == frame_write_spec(address, declared_bits, payload@),
{
    let n: usize = payload.len();
    if n > LARGEST_REG_SIZE_BYTES {
        return Err(SizeError::PayloadTooLong);
    }
    if n != expected_read_length(declared_bits) {
        return Err(SizeError::WidthMismatch);
    }
    let mut bytes: [u8; FRAME_CAPACITY] = [0u8; FRAME_CAPACITY];
    bytes[0] = address;
    let mut i: usize = 0;
    while i < n
        invariant
            n == payload@.len(),
            n <= LARGEST_REG_SIZE_BYTES,
            i <= n,
            bytes@[0] == address,
            forall|j: int| 0 <= j < i ==> bytes@[j + 1] == payload@[j],
            forall|j: int| i < j < FRAME_CAPACITY ==> bytes@[j] == 0,
        decreases n - i,
    {
        bytes[i + 1] = payload[i];
        i = i + 1;
    }
    let frame = TransactionFrame { bytes, len: n + 1 };
    assert(frame@ =~= seq![address] + payload@);
    Ok(frame)
}

/// The frame that selects the register at `address` for reading: the address byte alone.
pub fn frame_read_request(address: u8) -> (frame: TransactionFrame)
    ensures
        frame@ == seq![address],
{
    let mut bytes: [u8; FRAME_CAPACITY] = [0u8; FRAME_CAPACITY];
    bytes[0] = address;
    TransactionFrame { bytes, len: 1 }
}

/// A frame is the address byte followed by the payload and ends there: it is
/// one byte longer than the register is wide, never longer than
/// `FRAME_CAPACITY`, and carries no byte that the device could take for the
/// contents of the register at the next address.
pub proof fn lemma_frame_is_address_then_payload(address: u8, declared_bits: u32, payload: Seq<u8>)
    requires
        frame_write_spec(address, declared_bits, payload) is Ok,
    ensures
        ({
            let frame = frame_write_spec(address, declared_bits, payload)->Ok_0;
            &&& frame.len() == 1 + width_bytes(declared_bits)
            &&& frame.len() == 1 + payload.len()
            &&& frame.len() <= FRAME_CAPACITY
            &&& frame[0] == address
            &&& frame.subrange(1, frame.len() as int) == payload
        }),
{
    let frame = frame_write_spec(address, declared_bits, payload)->Ok_0;
    assert(frame.subrange(1, frame.len() as int) =~= payload);
}

/// A payload of one byte for a register of 8 bits, and one of two bytes for a
/// register of 16 bits, is always framed: the frame has `1 + declared_bits / 8`
/// bytes, and after the address it repeats the payload byte for byte.
pub proof fn lemma_supported_widths_are_framed(address: u8, declared_bits: u32, payload: Seq<u8>)
    requires
        declared_bits == 8 || declared_bits == 16,
        payload.len() == declared_bits / 8,
    ensures
        frame_write_spec(address, declared_bits, payload) == Ok::<Seq<u8>, SizeError>(
            seq![address] + payload,
        ),
        (seq![address] + payload).len() == 1 + declared_bits / 8,
        (seq![address] + payload).subrange(1, 1 + declared_bits / 8) == payload,
{
    assert((seq![address] + payload).subrange(1, 1 + declared_bits / 8) =~= payload);
}

/// A payload longer than the widest register is never framed, whatever width
/// is declared for it.
pub proof fn lemma_oversized_payload_is_rejected(address: u8, declared_bits: u32, payload: Seq<u8>)
    requires
        payload.len() > LARGEST_REG_SIZE_BYTES,
    ensures
        frame_write_spec(address, declared_bits, payload) == Err::<Seq<u8>, SizeError>(
            SizeError::PayloadTooLong,
        ),
{
}

/// Framing keeps no state: two results of `frame_write` for the same
/// address, width and payload hold the same bytes, or the same error.
pub proof fn lemma_frame_write_is_repeatable(
    address: u8,
    declared_bits: u32,
    payload: Seq<u8>,
    first: Result<TransactionFrame, SizeError>,
    second: Result<TransactionFrame, SizeError>,
)
    requires
        frame_bytes(first) == frame_write_spec(address, declared_bits, payload),
        frame_bytes(second) == frame_write_spec(address, declared_bits, payload),
    ensures
        frame_bytes(first) == frame_bytes(second),
        first is Ok <==> second is Ok,
        first is Ok ==> first->Ok_0@ == second->Ok_0@,
        first is Err ==> first->Err_0 == second->Err_0,
{
}

/// The widest register is the limit. A payload for a register of exactly
/// `LARGEST_REG_SIZE_BYTES` bytes is framed, in `FRAME_CAPACITY` bytes; one
/// for a register a byte wider is refused, and so is every wider one.
pub proof fn lemma_widest_register_is_the_limit(address: u8, declared_bits: u32, payload: Seq<u8>)
    requires
        payload.len() == width_bytes(declared_bits),
    ensures
        declared_bits == 8 * LARGEST_REG_SIZE_BYTES ==> {
            &&& frame_write_spec(address, declared_bits, payload) == Ok::<Seq<u8>, SizeError>(
                seq![address] + payload,
            )
            &&& (seq![address] + payload).len() == FRAME_CAPACITY
        },
        declared_bits == 8 * (LARGEST_REG_SIZE_BYTES + 1) ==> frame_write_spec(
            address,
            declared_bits,
            payload,
        ) is Err,
        declared_bits > 8 * LARGEST_REG_SIZE_BYTES ==> frame_write_spec(
            address,
            declared_bits,
            payload,
        ) is Err,
{
}

} // verus!
