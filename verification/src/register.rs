//! Registers of the device: how wide they are and what they hold.

use vstd::prelude::*;

verus! {

/// Width in bytes of the widest register of the device.
pub const LARGEST_REG_SIZE_BYTES: usize = 2;

/// Number of bytes that a register of `declared_bits` bits occupies:
/// `declared_bits / 8`, rounded up.
pub open spec fn width_bytes(declared_bits: u32) -> nat {
    ((declared_bits + 7) / 8) as nat
}

/// The number of bytes to receive when reading a register of `declared_bits` bits.
pub fn expected_read_length(declared_bits: u32) -> (n: usize)
    ensures
        n == width_bytes(declared_bits),
{
    let whole: u32 = declared_bits / 8;
    if declared_bits % 8 == 0 {
        whole as usize
    } else {
        whole as usize + 1
    }
}

/// `width_bytes` is the ceiling of `declared_bits / 8`: the least number of
/// bytes that holds `declared_bits` bits.
pub proof fn lemma_width_bytes_is_ceiling(declared_bits: u32)
    ensures
        8 * width_bytes(declared_bits) >= declared_bits,
        8 * width_bytes(declared_bits) < declared_bits + 8,
        declared_bits % 8 == 0 ==> 8 * width_bytes(declared_bits) == declared_bits,
{
}

/// The raw contents of one register, as read from the device or as about to
/// be written to it.
///
/// The view is the register's bytes in bus order. There are never more of
/// them than the widest register has.
#[derive(Clone, Copy, Debug, PartialEq, Eq)]
pub struct RawRegisterBytes {
    bytes: [u8; LARGEST_REG_SIZE_BYTES],
    len: usize,
}

impl View for RawRegisterBytes {
    type V = Seq<u8>;

    closed spec fn view(&self) -> Seq<u8> {
        self.bytes@.subrange(0, self.len as int)
    }
}

impl RawRegisterBytes {
    #[verifier::type_invariant]
    spec fn well_formed(self) -> bool {
        &&& self.len <= LARGEST_REG_SIZE_BYTES
        &&& forall|i: int| self.len <= i < LARGEST_REG_SIZE_BYTES ==> self.bytes@[i] == 0
    }

    /// Copies `data` into a register value. There is none where `data` is
    /// longer than the widest register.
    pub fn from_slice(data: &[u8]) -> (result: Option<RawRegisterBytes>)
        ensures
            match result {
                Some(raw) => raw@ == data@,
                None => data@.len() > LARGEST_REG_SIZE_BYTES,
            },
    {
        let n: usize = data.len();
        if n > LARGEST_REG_SIZE_BYTES {
            return None;
        }
        let mut bytes: [u8; LARGEST_REG_SIZE_BYTES] = [0u8; LARGEST_REG_SIZE_BYTES];
        let mut i: usize = 0;
        while i < n
            invariant
                n == data@.len(),
                n <= LARGEST_REG_SIZE_BYTES,
                i <= n,
                forall|j: int| 0 <= j < i ==> bytes@[j] == data@[j],
                forall|j: int| i <= j < LARGEST_REG_SIZE_BYTES ==> bytes@[j] == 0,
            decreases n - i,
        {
            bytes[i] = data[i];
            i = i + 1;
        }
        let raw = RawRegisterBytes { bytes, len: n };
        assert(raw@ =~= data@);
        Some(raw)
    }

    /// The number of bytes of the register.
    pub fn len(&self) -> (n: usize)
        ensures
            n == self@.len(),
            n <= LARGEST_REG_SIZE_BYTES,
    {
        proof {
            use_type_invariant(self);
        }
        self.len
    }

    /// The bytes of the register, in bus order.
    pub fn as_slice(&self) -> (bytes: &[u8])
        ensures
            bytes@ == self@,
    {
        proof {
            use_type_invariant(self);
        }
        vstd::slice::slice_subrange(self.bytes.as_slice(), 0, self.len)
    }
}

} // verus!
