//! A header followed by a payload.

use vstd::prelude::*;

use super::{PackRoundTrip, PackedStructInfo, PackedStructSlice, PackingError};

verus! {

/// A packet made of a fixed-size header followed by a payload.
#[derive(Clone, Debug)]
pub struct HeaderPacket<H, P> {
    pub header: H,
    pub payload: P,
}

impl<H: View, P: View> View for HeaderPacket<H, P> {
    type V = (H::V, P::V);

    open spec fn view(&self) -> (H::V, P::V) {
        (self.header@, self.payload@)
    }
}

/// The number of bytes that a header of type `H` occupies.
pub open spec fn spec_header_len<H: PackedStructInfo>() -> nat {
    H::spec_packed_bits() / 8
}

impl<H: PackedStructInfo, P> HeaderPacket<H, P> {
    /// The number of bytes that the header occupies.
    pub fn header_bytes() -> (r: usize)
        ensures
            r as nat == spec_header_len::<H>(),
    {
        let bits = H::packed_bits();
        bits / 8
    }
}

/// The header packs into the first bytes of the buffer and the payload into
/// the rest.
impl<H: PackedStructInfo + PackedStructSlice, P: PackedStructSlice> PackedStructSlice for HeaderPacket<
    H,
    P,
> {
    open spec fn spec_pack_error(v: (H::V, P::V), len: nat) -> Option<PackingError> {
        let hl = spec_header_len::<H>();
        if hl > len {
            Some(PackingError::BufferTooSmall)
        } else {
            match H::spec_pack_error(v.0, hl) {
                Some(e) => Some(e),
                None => P::spec_pack_error(v.1, (len - hl) as nat),
            }
        }
    }

    open spec fn spec_pack_bytes(v: (H::V, P::V), out: Seq<u8>) -> Seq<u8> {
        let hl = spec_header_len::<H>();
        if hl > out.len() {
            out
        } else {
            let head = H::spec_pack_bytes(v.0, out.take(hl as int));
            match H::spec_pack_error(v.0, hl) {
                Some(_) => head + out.skip(hl as int),
                None => head + P::spec_pack_bytes(v.1, out.skip(hl as int)),
            }
        }
    }

    open spec fn spec_pack_panics(v: (H::V, P::V), len: nat) -> bool {
        let hl = spec_header_len::<H>();
        hl <= len && (H::spec_pack_panics(v.0, hl) || (H::spec_pack_error(v.0, hl) is None
            && P::spec_pack_panics(v.1, (len - hl) as nat)))
    }

    open spec fn spec_unpack(src: Seq<u8>) -> Result<(H::V, P::V), PackingError> {
        let hl = spec_header_len::<H>();
        if hl > src.len() {
            Err(PackingError::BufferTooSmall)
        } else {
            match H::spec_unpack(src.take(hl as int)) {
                Err(e) => Err(e),
                Ok(h) => match P::spec_unpack(src.skip(hl as int)) {
                    Err(e) => Err(e),
                    Ok(p) => Ok((h, p)),
                },
            }
        }
    }

    open spec fn spec_packed_bytes_size(v: Option<(H::V, P::V)>) -> Result<nat, PackingError> {
        let payload = match v {
            Some(v) => Some(v.1),
            None => None,
        };
        match P::spec_packed_bytes_size(payload) {
            Err(e) => Err(e),
            Ok(n) => Ok(spec_header_len::<H>() + n),
        }
    }

    proof fn lemma_pack_len(v: (H::V, P::V), out: Seq<u8>) {
        let hl = spec_header_len::<H>();
        if hl <= out.len() {
            H::lemma_pack_len(v.0, out.take(hl as int));
            P::lemma_pack_len(v.1, out.skip(hl as int));
        }
    }

    fn pack_to_slice(&self, output: &mut [u8]) -> (r: Result<(), PackingError>) {
        let header_len = Self::header_bytes();
        if header_len > output.len() {
            return Err(PackingError::BufferTooSmall);
        }
        let ghost old_out = output@;
        let (header_bytes, payload_bytes) = output.split_at_mut(header_len);
        assert(header_bytes@ == old_out.take(header_len as int));
        assert(payload_bytes@ == old_out.skip(header_len as int));
        assert(header_bytes@.len() == header_len);
        assert(payload_bytes@.len() == old_out.len() - header_len);
        let hr = self.header.pack_to_slice(header_bytes);
        if let Err(e) = hr {
            return Err(e);
        }
        let pr = self.payload.pack_to_slice(payload_bytes);
        if let Err(e) = pr {
            return Err(e);
        }
        Ok(())
    }

    fn unpack_from_slice(src: &[u8]) -> (r: Result<Self, PackingError>) {
        let header_len = Self::header_bytes();
        if header_len > src.len() {
            return Err(PackingError::BufferTooSmall);
        }
        let (header_bytes, payload_bytes) = src.split_at(header_len);
        assert(header_bytes@ == src@.take(header_len as int));
        assert(payload_bytes@ == src@.skip(header_len as int));
        let header = match H::unpack_from_slice(header_bytes) {
            Ok(h) => h,
            Err(e) => return Err(e),
        };
        let payload = match P::unpack_from_slice(payload_bytes) {
            Ok(p) => p,
            Err(e) => return Err(e),
        };
        Ok(HeaderPacket { header, payload })
    }

    fn packed_bytes_size(opt_self: Option<&Self>) -> (r: Result<usize, PackingError>) {
        let payload = match opt_self {
            Some(s) => Some(&s.payload),
            None => None,
        };
        assert(super::view_opt(payload) == match super::view_opt(opt_self) {
            Some(v) => Some(v.1),
            None => None::<P::V>,
        });
        let payload_size = P::packed_bytes_size(payload)?;
        Ok(Self::header_bytes() + payload_size)
    }
}

impl<H: PackedStructInfo + PackRoundTrip, P: PackRoundTrip> PackRoundTrip for HeaderPacket<H, P> {
    open spec fn spec_valid(v: (H::V, P::V)) -> bool {
        &&& H::spec_valid(v.0)
        &&& P::spec_valid(v.1)
        &&& H::spec_packed_bytes_size(Some(v.0)) == Ok::<nat, PackingError>(spec_header_len::<H>())
    }

    proof fn lemma_roundtrip(v: (H::V, P::V), out: Seq<u8>) {
        let hl = spec_header_len::<H>();
        let p_size = P::spec_packed_bytes_size(Some(v.1))->Ok_0;
        assert(out.len() == hl + p_size);
        let head_in = out.take(hl as int);
        let tail_in = out.skip(hl as int);
        assert(!H::spec_pack_panics(v.0, hl));
        H::lemma_roundtrip(v.0, head_in);
        assert(!P::spec_pack_panics(v.1, p_size));
        P::lemma_roundtrip(v.1, tail_in);
        let head = H::spec_pack_bytes(v.0, head_in);
        let tail = P::spec_pack_bytes(v.1, tail_in);
        let packed = Self::spec_pack_bytes(v, out);
        assert(packed == head + tail);
        H::lemma_pack_len(v.0, head_in);
        assert(packed.take(hl as int) =~= head);
        assert(packed.skip(hl as int) =~= tail);
    }
}

} // verus!

verus! {

impl<H: Copy + View, P: PackedStructSlice> HeaderPacket<H, P> {
    /// The packet with its payload replaced by the payload's packed bytes.
    pub fn payload_packed(&self) -> (r: Result<HeaderPacket<H, Vec<u8>>, PackingError>)
        requires
            P::spec_packed_bytes_size(Some(self.payload@)) matches Ok(n) ==> n <= usize::MAX
                && !P::spec_pack_panics(self.payload@, n),
        ensures
            match r {
                Ok(p) => p.header == self.header && super::spec_pack_to_vec::<P>(self.payload@)
                    == Ok::<Seq<u8>, PackingError>(p.payload@),
                Err(e) => super::spec_pack_to_vec::<P>(self.payload@) == Err::<
                    Seq<u8>,
                    PackingError,
                >(e),
            },
    {
        let payload = super::pack_to_vec(&self.payload)?;
        Ok(HeaderPacket { payload, header: self.header })
    }

    /// The packet with its payload packed and unpacked again as a `T`.
    pub fn payload_into<T: PackedStructSlice>(&self) -> (r: Result<HeaderPacket<H, T>, PackingError>)
        requires
            P::spec_packed_bytes_size(Some(self.payload@)) matches Ok(n) ==> n <= usize::MAX
                && !P::spec_pack_panics(self.payload@, n),
        ensures
            match r {
                Ok(p) => p.header == self.header && (super::spec_pack_to_vec::<P>(self.payload@) matches Ok(
                    bytes,
                ) && T::spec_unpack(bytes) == Ok::<T::V, PackingError>(p.payload@)),
                Err(e) => super::spec_pack_to_vec::<P>(self.payload@) == Err::<
                    Seq<u8>,
                    PackingError,
                >(e) || (super::spec_pack_to_vec::<P>(self.payload@) matches Ok(bytes)
                    && T::spec_unpack(bytes) == Err::<T::V, PackingError>(e)),
            },
    {
        let packed_payload = super::pack_to_vec(&self.payload)?;
        let new_payload = match T::unpack_from_slice(packed_payload.as_slice()) {
            Ok(p) => p,
            Err(e) => return Err(e),
        };
        Ok(HeaderPacket { header: self.header, payload: new_payload })
    }
}

} // verus!
