//! A payload that carries the CRC-8/SMBUS checksum of its bytes.

use vstd::prelude::*;

use super::checksum::{crc8_smbus, spec_crc8_smbus};
use super::PackingError;

verus! {

/// Payload bytes together with a checksum byte.
#[derive(Clone, Debug, PartialEq, Eq, Hash)]
pub struct Payload {
    pub payload: Vec<u8>,
    pub checksum: u8,
}

impl View for Payload {
    type V = (Seq<u8>, u8);

    open spec fn view(&self) -> (Seq<u8>, u8) {
        (self.payload@, self.checksum)
    }
}

impl Payload {
    /// Wraps the bytes together with their CRC-8/SMBUS checksum.
    pub fn new(data: Vec<u8>) -> (r: Self)
        ensures
            r.payload@ == data@,
            r.checksum == spec_crc8_smbus(data@),
    {
        Payload { checksum: crc8_smbus(data.as_slice()), payload: data }
    }

    /// The number of bytes the payload and its checksum take.
    pub fn bytes_size(&self) -> (r: usize)
        requires
            self.payload@.len() < usize::MAX,
        ensures
            r as nat == self.payload@.len() + 1,
    {
        self.payload.len() + 1
    }
}

/// Packing writes the payload bytes from the start of the buffer and the
/// checksum byte one position past the payload's packed size, leaving the
/// byte just after the payload as it was; a buffer of exactly the packed size
/// is therefore one byte short for the checksum. Unpacking takes the last
/// byte as the checksum and does not check it. No packing of a payload is
/// unpacked to that payload, so `Payload` is no [`super::PackRoundTrip`].
impl super::PackedStructSlice for Payload {
    open spec fn spec_pack_error(v: (Seq<u8>, u8), len: nat) -> Option<PackingError> {
        if len < v.0.len() + 1 {
            Some(PackingError::BufferTooSmall)
        } else {
            None
        }
    }

    open spec fn spec_pack_bytes(v: (Seq<u8>, u8), out: Seq<u8>) -> Seq<u8> {
        if out.len() < v.0.len() + 1 {
            out
        } else if v.0.len() + 1 < out.len() {
            (v.0 + out.skip(v.0.len() as int)).update(v.0.len() + 1int, v.1)
        } else {
            v.0 + out.skip(v.0.len() as int)
        }
    }

    open spec fn spec_pack_panics(v: (Seq<u8>, u8), len: nat) -> bool {
        len == v.0.len() + 1
    }

    open spec fn spec_unpack(src: Seq<u8>) -> Result<(Seq<u8>, u8), PackingError> {
        if src.len() == 0 {
            Err(PackingError::BufferTooSmall)
        } else {
            Ok((src.drop_last(), src.last()))
        }
    }

    open spec fn spec_packed_bytes_size(v: Option<(Seq<u8>, u8)>) -> Result<nat, PackingError> {
        match v {
            Some(v) => Ok(v.0.len() + 1),
            None => Err(PackingError::InstanceRequiredForSize),
        }
    }

    proof fn lemma_pack_len(v: (Seq<u8>, u8), out: Seq<u8>) {
        if out.len() >= v.0.len() + 1 {
            assert((v.0 + out.skip(v.0.len() as int)).len() == out.len());
        }
    }

    fn pack_to_slice(&self, output: &mut [u8]) -> (r: Result<(), PackingError>) {
        let n = self.payload.len();
        if output.len() <= n {
            return Err(PackingError::BufferTooSmall);
        }
        let size = n + 1;
        let ghost old_out = output@;
        let mut i: usize = 0;
        while i < n
            invariant
                n == self.payload@.len(),
                output@.len() == old_out.len(),
                old_out.len() > n,
                0 <= i <= n,
                forall|j: int| 0 <= j < i ==> output@[j] == self.payload@[j],
                forall|j: int| i <= j < old_out.len() ==> output@[j] == old_out[j],
            decreases n - i,
        {
            output[i] = self.payload[i];
            i = i + 1;
        }
        output[size] = self.checksum;
        assert(output@ =~= (self.payload@ + old_out.skip(n as int)).update(n + 1int, self.checksum));
        Ok(())
    }

    fn unpack_from_slice(src: &[u8]) -> (r: Result<Self, PackingError>) {
        if src.is_empty() {
            return Err(PackingError::BufferTooSmall);
        }
        let (payload, chk) = src.split_at(src.len() - 1);
        assert(payload@ =~= src@.drop_last());
        Ok(Payload { payload: vstd::slice::slice_to_vec(payload), checksum: chk[0] })
    }

    fn packed_bytes_size(opt_self: Option<&Self>) -> (r: Result<usize, PackingError>) {
        match opt_self {
            Some(s) => Ok(s.bytes_size()),
            None => Err(PackingError::InstanceRequiredForSize),
        }
    }
}

} // verus!
