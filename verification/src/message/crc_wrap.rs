//! A payload followed by the CRC-8/SMBUS checksum of its packed bytes.

use vstd::prelude::*;

use super::checksum::{crc8_smbus, spec_crc8_smbus, Checksum, ChecksumBytes, StandardCRC, small_bytes};
use super::{pack_to_vec, spec_pack_to_vec, PackRoundTrip, PackedStructSlice, PackingError};

verus! {

/// A payload whose packing is followed by one checksum byte: the
/// CRC-8/SMBUS of the payload's packed bytes. Unpacking rejects bytes whose
/// last byte is not the checksum of the others.
#[derive(Clone, Copy, Debug, PartialEq, Eq, Hash)]
pub struct CRCWrap<T> {
    pub payload: T,
}

impl<T: View> View for CRCWrap<T> {
    type V = T::V;

    open spec fn view(&self) -> T::V {
        self.payload@
    }
}

impl<T> CRCWrap<T> {
    pub fn new(payload: T) -> (r: Self)
        ensures
            r.payload == payload,
    {
        CRCWrap { payload }
    }

    /// The wrapped payload.
    pub fn as_ref(&self) -> (r: &T)
        ensures
            *r == self.payload,
    {
        &self.payload
    }
}

impl<T: PackedStructSlice> CRCWrap<T> {
    /// The checksum bytes of the payload's packing.
    pub fn checksum(&self) -> (r: Result<ChecksumBytes, PackingError>)
        requires
            T::spec_packed_bytes_size(Some(self.payload@)) matches Ok(n) ==> n <= usize::MAX
                && !T::spec_pack_panics(self.payload@, n),
        ensures
            match r {
                Ok(c) => (spec_pack_to_vec::<T>(self.payload@) matches Ok(bytes) && small_bytes(c)
                    == seq![spec_crc8_smbus(bytes)]),
                Err(e) => spec_pack_to_vec::<T>(self.payload@) == Err::<Seq<u8>, PackingError>(e),
            },
    {
        let packed = pack_to_vec(&self.payload)?;
        Ok(StandardCRC::checksum_array(packed.as_slice()))
    }
}

impl<T: PackedStructSlice> PackedStructSlice for CRCWrap<T> {
    open spec fn spec_pack_error(v: T::V, len: nat) -> Option<PackingError> {
        match T::spec_packed_bytes_size(Some(v)) {
            Err(e) => Some(e),
            Ok(n) => if len != n + 1 {
                Some(PackingError::BufferSizeMismatch { expected: (n + 1) as usize, actual: len as usize })
            } else {
                T::spec_pack_error(v, n)
            },
        }
    }

    open spec fn spec_pack_bytes(v: T::V, out: Seq<u8>) -> Seq<u8> {
        match T::spec_packed_bytes_size(Some(v)) {
            Err(_) => out,
            Ok(n) => if out.len() != n + 1 {
                out
            } else {
                let body = T::spec_pack_bytes(v, out.take(n as int));
                match T::spec_pack_error(v, n) {
                    Some(_) => body + out.skip(n as int),
                    None => body.push(spec_crc8_smbus(body)),
                }
            },
        }
    }

    open spec fn spec_pack_panics(v: T::V, len: nat) -> bool {
        match T::spec_packed_bytes_size(Some(v)) {
            Err(_) => false,
            Ok(n) => n >= usize::MAX || (len == n + 1 && T::spec_pack_panics(v, n)),
        }
    }

    open spec fn spec_unpack(src: Seq<u8>) -> Result<T::V, PackingError> {
        if src.len() == 0 {
            Err(PackingError::BufferTooSmall)
        } else if spec_crc8_smbus(src.drop_last()) != src.last() {
            Err(PackingError::InvalidValue)
        } else {
            T::spec_unpack(src.drop_last())
        }
    }

    open spec fn spec_packed_bytes_size(v: Option<T::V>) -> Result<nat, PackingError> {
        match T::spec_packed_bytes_size(v) {
            Err(e) => Err(e),
            Ok(n) => Ok(n + 1),
        }
    }

    proof fn lemma_pack_len(v: T::V, out: Seq<u8>) {
        if let Ok(n) = T::spec_packed_bytes_size(Some(v)) {
            if out.len() == n + 1 {
                T::lemma_pack_len(v, out.take(n as int));
            }
        }
    }

    fn pack_to_slice(&self, output: &mut [u8]) -> (r: Result<(), PackingError>) {
        let n = match T::packed_bytes_size(Some(&self.payload)) {
            Ok(n) => n,
            Err(e) => return Err(e),
        };
        if output.len() != n + 1 {
            return Err(PackingError::BufferSizeMismatch { expected: n + 1, actual: output.len() });
        }
        let ghost old_out = output@;
        let (body, tail) = output.split_at_mut(n);
        assert(body@ == old_out.take(n as int));
        assert(tail@ == old_out.skip(n as int));
        assert(body@.len() == n);
        assert(tail@.len() == 1);
        let br = self.payload.pack_to_slice(body);
        if let Err(e) = br {
            return Err(e);
        }
        let crc = crc8_smbus(body);
        tail[0] = crc;
        assert(tail@ =~= seq![crc]);
        Ok(())
    }

    fn unpack_from_slice(src: &[u8]) -> (r: Result<Self, PackingError>) {
        if src.is_empty() {
            return Err(PackingError::BufferTooSmall);
        }
        let (body, chk) = src.split_at(src.len() - 1);
        assert(body@ =~= src@.drop_last());
        if crc8_smbus(body) != chk[0] {
            return Err(PackingError::InvalidValue);
        }
        match T::unpack_from_slice(body) {
            Ok(payload) => Ok(CRCWrap { payload }),
            Err(e) => Err(e),
        }
    }

    fn packed_bytes_size(opt_self: Option<&Self>) -> (r: Result<usize, PackingError>) {
        let inner = match opt_self {
            Some(s) => Some(&s.payload),
            None => None,
        };
        assert(super::view_opt(inner) == super::view_opt(opt_self));
        let n = T::packed_bytes_size(inner)?;
        Ok(n + 1)
    }
}

impl<T: PackRoundTrip> PackRoundTrip for CRCWrap<T> {
    open spec fn spec_valid(v: T::V) -> bool {
        T::spec_valid(v)
    }

    proof fn lemma_roundtrip(v: T::V, out: Seq<u8>) {
        let n = T::spec_packed_bytes_size(Some(v))->Ok_0;
        let head = out.take(n as int);
        T::lemma_pack_len(v, head);
        T::lemma_roundtrip(v, head);
        let body = T::spec_pack_bytes(v, head);
        let packed = body.push(spec_crc8_smbus(body));
        assert(packed.drop_last() =~= body);
    }
}

} // verus!
