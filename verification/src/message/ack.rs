//! The acknowledgement that answers a command.

use vstd::prelude::*;

use super::header::{spec_epoch_bytes, spec_epoch_from_bytes, Header};
use super::{MissionEpoch, PackingError, UniqueId};

verus! {

/// Acknowledges the command with the given timestamp and sequence number,
/// whose payload had the given checksum.
#[derive(Clone, Copy, Debug, PartialEq, Eq, Structural, Hash)]
pub struct Ack {
    pub timestamp: MissionEpoch,
    pub seq: u8,
    pub checksum: u8,
}

impl View for Ack {
    type V = Ack;

    open spec fn view(&self) -> Ack {
        *self
    }
}

/// The 8 bytes of an acknowledgement: timestamp (4 bytes, least significant
/// first), sequence number, checksum, and two zero bytes.
pub open spec fn spec_ack_bytes(a: Ack) -> Seq<u8> {
    spec_epoch_bytes(a.timestamp) + seq![a.seq, a.checksum, 0u8, 0u8]
}

/// The acknowledgement that 8 bytes decode to; the last two bytes are not read.
pub open spec fn spec_ack_from_bytes(s: Seq<u8>) -> Result<Ack, PackingError> {
    if s.len() != 8 {
        Err(PackingError::BufferSizeMismatch { expected: 8, actual: s.len() as usize })
    } else {
        Ok(Ack { timestamp: spec_epoch_from_bytes(s[0], s[1], s[2], s[3]), seq: s[4], checksum: s[5] })
    }
}

impl Ack {
    /// The identity of the acknowledged command.
    pub fn unique_id(&self) -> (r: UniqueId)
        ensures
            r == (UniqueId { timestamp: self.timestamp, seq: self.seq }),
    {
        UniqueId { timestamp: self.timestamp, seq: self.seq }
    }

    /// Whether this acknowledges the message with the given header.
    pub fn matches(&self, header: &Header) -> (r: bool)
        ensures
            r == (header.seq == self.seq && header.timestamp == self.timestamp),
    {
        header.seq == self.seq && header.timestamp == self.timestamp
    }
}

/// An acknowledgement matches a header exactly when it names the header's
/// identity.
pub proof fn lemma_ack_matches_unique_id(a: Ack, h: Header)
    ensures
        (h.seq == a.seq && h.timestamp == a.timestamp) <==> (UniqueId {
            timestamp: a.timestamp,
            seq: a.seq,
        }) == h.spec_unique_id(),
{
}

/// Unpacking a packed acknowledgement gives it back.
pub proof fn lemma_ack_roundtrip(a: Ack)
    ensures
        spec_ack_from_bytes(spec_ack_bytes(a)) == Ok::<Ack, PackingError>(a),
{
    super::header::lemma_epoch_roundtrip(a.timestamp);
    let s = spec_ack_bytes(a);
    let e = spec_epoch_bytes(a.timestamp);
    assert(s[0] == e[0] && s[1] == e[1] && s[2] == e[2] && s[3] == e[3]);
    assert(s[4] == a.seq && s[5] == a.checksum);
}

impl super::PackedStructSlice for Ack {
    open spec fn spec_pack_error(v: Ack, len: nat) -> Option<PackingError> {
        if len != 8 {
            Some(PackingError::BufferSizeMismatch { expected: 8, actual: len as usize })
        } else {
            None
        }
    }

    open spec fn spec_pack_bytes(v: Ack, out: Seq<u8>) -> Seq<u8> {
        if out.len() != 8 {
            out
        } else {
            spec_ack_bytes(v)
        }
    }

    open spec fn spec_pack_panics(v: Ack, len: nat) -> bool {
        false
    }

    open spec fn spec_unpack(src: Seq<u8>) -> Result<Ack, PackingError> {
        spec_ack_from_bytes(src)
    }

    open spec fn spec_packed_bytes_size(v: Option<Ack>) -> Result<nat, PackingError> {
        Ok(8)
    }

    proof fn lemma_pack_len(v: Ack, out: Seq<u8>) {
    }

    fn pack_to_slice(&self, output: &mut [u8]) -> (r: Result<(), PackingError>) {
        if output.len() != 8 {
            return Err(PackingError::BufferSizeMismatch { expected: 8, actual: output.len() });
        }
        let t = self.timestamp.secs;
        output[0] = (t % 256) as u8;
        output[1] = ((t / 256) % 256) as u8;
        output[2] = ((t / 65536) % 256) as u8;
        output[3] = ((t / 16777216) % 256) as u8;
        output[4] = self.seq;
        output[5] = self.checksum;
        output[6] = 0;
        output[7] = 0;
        assert(output@ =~= spec_ack_bytes(*self));
        Ok(())
    }

    fn unpack_from_slice(src: &[u8]) -> (r: Result<Self, PackingError>) {
        if src.len() != 8 {
            return Err(PackingError::BufferSizeMismatch { expected: 8, actual: src.len() });
        }
        let secs: u32 = src[0] as u32 + src[1] as u32 * 256 + src[2] as u32 * 65536 + src[3] as u32
            * 16777216;
        Ok(Ack { timestamp: MissionEpoch { secs }, seq: src[4], checksum: src[5] })
    }

    fn packed_bytes_size(opt_self: Option<&Self>) -> (r: Result<usize, PackingError>) {
        Ok(8)
    }
}

impl super::PackRoundTrip for Ack {
    open spec fn spec_valid(v: Ack) -> bool {
        true
    }

    proof fn lemma_roundtrip(v: Ack, out: Seq<u8>) {
        lemma_ack_roundtrip(v);
    }
}

} // verus!
