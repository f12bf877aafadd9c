//! Message formats: the fixed 8-byte header, the acknowledgement payload,
//! the CRC-carrying payload, and the header/payload framing.

use vstd::prelude::*;

pub mod header;
pub mod header_display;
pub mod header_packet;
pub mod ack;
pub mod checksum;
pub mod payload;
pub mod crc_wrap;

pub use crc_wrap::CRCWrap;
pub use header::Header;
pub use header_packet::HeaderPacket;

verus! {

/// A timestamp, in seconds, as carried in message headers.
#[derive(Clone, Copy, Debug, PartialEq, Eq, Structural, Hash, PartialOrd, Ord)]
pub struct MissionEpoch {
    pub secs: u32,
}

impl MissionEpoch {
    pub fn new(secs: u32) -> (r: Self)
        ensures
            r.secs == secs,
    {
        MissionEpoch { secs }
    }
}

/// Errors that packing into and unpacking from byte buffers can report.
#[derive(Clone, Copy, Debug, PartialEq, Eq, Structural)]
pub enum PackingError {
    InvalidValue,
    BufferTooSmall,
    InstanceRequiredForSize,
    BufferSizeMismatch { expected: usize, actual: usize },
}

/// The identity of a message: its timestamp together with its sequence number.
#[derive(Clone, Copy, Debug, PartialEq, Eq, Structural, Hash, PartialOrd, Ord)]
pub struct UniqueId {
    pub timestamp: MissionEpoch,
    pub seq: u8,
}

/// Raw payload bytes.
pub type OpaqueBytes = Vec<u8>;

/// The view of the result of an unpacking.
pub open spec fn view_result<T: View>(r: Result<T, PackingError>) -> Result<T::V, PackingError> {
    match r {
        Ok(v) => Ok(v@),
        Err(e) => Err(e),
    }
}

/// The result that reports the given error, if any.
pub open spec fn spec_error_result(e: Option<PackingError>) -> Result<(), PackingError> {
    match e {
        Some(e) => Err(e),
        None => Ok(()),
    }
}

/// The view of an optional reference.
pub open spec fn view_opt<T: View>(o: Option<&T>) -> Option<T::V> {
    match o {
        Some(v) => Some(v@),
        None => None,
    }
}

/// Types that pack into and unpack from byte buffers.
///
/// Each operation is specified over the type's view: what a packing writes
/// into the buffer and whether it succeeds, what an unpacking of some bytes
/// gives, and how many bytes a value (or any value of the type) takes.
pub trait PackedStructSlice: Sized + View {
    /// The error, if any, that packing `v` into a buffer of `len` bytes reports.
    spec fn spec_pack_error(v: Self::V, len: nat) -> Option<PackingError>;

    /// The contents of the buffer `out` after packing `v` into it.
    spec fn spec_pack_bytes(v: Self::V, out: Seq<u8>) -> Seq<u8>;

    /// Packing `v` into a buffer of `len` bytes would index past its end.
    spec fn spec_pack_panics(v: Self::V, len: nat) -> bool;

    /// What unpacking `src` gives.
    spec fn spec_unpack(src: Seq<u8>) -> Result<Self::V, PackingError>;

    /// The packed size of the given value, or of any value of the type.
    spec fn spec_packed_bytes_size(v: Option<Self::V>) -> Result<nat, PackingError>;

    /// Packing keeps the buffer's length.
    proof fn lemma_pack_len(v: Self::V, out: Seq<u8>)
        ensures
            Self::spec_pack_bytes(v, out).len() == out.len(),
    ;

    fn pack_to_slice(&self, output: &mut [u8]) -> (r: Result<(), PackingError>)
        requires
            !Self::spec_pack_panics(self@, old(output)@.len()),
        ensures
            r == spec_error_result(Self::spec_pack_error(self@, old(output)@.len())),
            final(output)@ == Self::spec_pack_bytes(self@, old(output)@),
            final(output)@.len() == old(output)@.len(),
    ;

    fn unpack_from_slice(src: &[u8]) -> (r: Result<Self, PackingError>)
        ensures
            view_result(r) == Self::spec_unpack(src@),
    ;

    fn packed_bytes_size(opt_self: Option<&Self>) -> (r: Result<usize, PackingError>)
        requires
            Self::spec_packed_bytes_size(view_opt(opt_self)) matches Ok(n) ==> n <= usize::MAX,
        ensures
            r matches Ok(n) ==> Self::spec_packed_bytes_size(view_opt(opt_self)) == Ok::<
                nat,
                PackingError,
            >(n as nat),
            r matches Err(e) ==> Self::spec_packed_bytes_size(view_opt(opt_self)) == Err::<
                nat,
                PackingError,
            >(e),
    ;
}

/// Types whose packing can be undone: packing a valid value and unpacking
/// the bytes gives the value back.
pub trait PackRoundTrip: PackedStructSlice {
    /// The values that unpack to themselves after packing.
    spec fn spec_valid(v: Self::V) -> bool;

    /// Packing a valid value into a buffer of its packed size succeeds, and
    /// unpacking what was written gives the value back, whatever the buffer
    /// held before.
    proof fn lemma_roundtrip(v: Self::V, out: Seq<u8>)
        requires
            Self::spec_valid(v),
            Self::spec_packed_bytes_size(Some(v)) == Ok::<nat, PackingError>(out.len()),
            !Self::spec_pack_panics(v, out.len()),
        ensures
            Self::spec_pack_error(v, out.len()) is None,
            Self::spec_unpack(Self::spec_pack_bytes(v, out)) == Ok::<Self::V, PackingError>(v),
    ;
}

/// What packing `v` into a fresh zeroed buffer of its own size gives.
pub open spec fn spec_pack_to_vec<T: PackedStructSlice>(v: T::V) -> Result<Seq<u8>, PackingError> {
    match T::spec_packed_bytes_size(Some(v)) {
        Err(e) => Err(e),
        Ok(n) => match T::spec_pack_error(v, n) {
            Some(e) => Err(e),
            None => Ok(T::spec_pack_bytes(v, Seq::new(n, |i: int| 0u8))),
        },
    }
}

/// Packs a value into a newly allocated buffer of its packed size.
pub fn pack_to_vec<T: PackedStructSlice>(v: &T) -> (r: Result<Vec<u8>, PackingError>)
    requires
        T::spec_packed_bytes_size(Some(v@)) matches Ok(n) ==> n <= usize::MAX
            && !T::spec_pack_panics(v@, n),
    ensures
        match r {
            Ok(bytes) => spec_pack_to_vec::<T>(v@) == Ok::<Seq<u8>, PackingError>(bytes@),
            Err(e) => spec_pack_to_vec::<T>(v@) == Err::<Seq<u8>, PackingError>(e),
        },
{
    assert(view_opt(Some(v)) == Some(v@));
    let size = T::packed_bytes_size(Some(v))?;
    let mut buf: Vec<u8> = vec![0u8; size];
    assert(buf@ =~= Seq::new(size as nat, |i: int| 0u8));
    v.pack_to_slice(buf.as_mut_slice())?;
    Ok(buf)
}

} // verus!

verus! {

/// Types whose packed size is a fixed number of bits.
pub trait PackedStructInfo {
    spec fn spec_packed_bits() -> nat;

    fn packed_bits() -> (r: usize)
        ensures
            r as nat == Self::spec_packed_bits(),
    ;
}

/// Raw bytes pack as themselves, into a buffer of exactly their length.
impl PackedStructSlice for Vec<u8> {
    open spec fn spec_pack_error(v: Seq<u8>, len: nat) -> Option<PackingError> {
        if len != v.len() {
            Some(PackingError::BufferSizeMismatch { expected: v.len() as usize, actual: len as usize })
        } else {
            None
        }
    }

    open spec fn spec_pack_bytes(v: Seq<u8>, out: Seq<u8>) -> Seq<u8> {
        if out.len() != v.len() {
            out
        } else {
            v
        }
    }

    open spec fn spec_pack_panics(v: Seq<u8>, len: nat) -> bool {
        false
    }

    open spec fn spec_unpack(src: Seq<u8>) -> Result<Seq<u8>, PackingError> {
        Ok(src)
    }

    open spec fn spec_packed_bytes_size(v: Option<Seq<u8>>) -> Result<nat, PackingError> {
        match v {
            Some(v) => Ok(v.len()),
            None => Err(PackingError::InstanceRequiredForSize),
        }
    }

    proof fn lemma_pack_len(v: Seq<u8>, out: Seq<u8>) {
    }

    fn pack_to_slice(&self, output: &mut [u8]) -> (r: Result<(), PackingError>) {
        let expected = self.len();
        if output.len() != expected {
            return Err(PackingError::BufferSizeMismatch { expected, actual: output.len() });
        }
        let mut i: usize = 0;
        while i < expected
            invariant
                expected == self@.len(),
                output@.len() == expected,
                0 <= i <= expected,
                forall|j: int| 0 <= j < i ==> output@[j] == self@[j],
            decreases expected - i,
        {
            output[i] = self[i];
            i = i + 1;
        }
        assert(output@ =~= self@);
        Ok(())
    }

    fn unpack_from_slice(src: &[u8]) -> (r: Result<Self, PackingError>) {
        let mut v: Vec<u8> = Vec::new();
        let mut i: usize = 0;
        while i < src.len()
            invariant
                0 <= i <= src@.len(),
                v@ =~= src@.subrange(0, i as int),
            decreases src@.len() - i,
        {
            v.push(src[i]);
            i = i + 1;
        }
        assert(v@ =~= src@);
        Ok(v)
    }

    fn packed_bytes_size(opt_self: Option<&Self>) -> (r: Result<usize, PackingError>) {
        match opt_self {
            Some(v) => Ok(v.len()),
            None => Err(PackingError::InstanceRequiredForSize),
        }
    }
}

} // verus!

verus! {

impl PackRoundTrip for Vec<u8> {
    open spec fn spec_valid(v: Seq<u8>) -> bool {
        true
    }

    proof fn lemma_roundtrip(v: Seq<u8>, out: Seq<u8>) {
    }
}

/// A message: a header followed by a checksummed payload.
pub type CRCMessage<T> = HeaderPacket<Header, CRCWrap<T>>;

/// A message with the given payload type.
pub type Message<T> = CRCMessage<T>;

impl<T> HeaderPacket<Header, CRCWrap<T>> {
    /// The message with the given header and payload.
    pub fn new(header: Header, payload: T) -> (r: Self)
        ensures
            r.header == header,
            r.payload.payload == payload,
    {
        HeaderPacket { header, payload: CRCWrap::new(payload) }
    }
}

/// Packing a valid value into a fresh buffer succeeds, and unpacking the
/// bytes gives the value back.
pub proof fn lemma_pack_to_vec_roundtrip<T: PackRoundTrip>(v: T::V)
    requires
        T::spec_valid(v),
        T::spec_packed_bytes_size(Some(v)) matches Ok(n) && !T::spec_pack_panics(v, n),
    ensures
        spec_pack_to_vec::<T>(v) matches Ok(bytes) && T::spec_unpack(bytes) == Ok::<T::V, PackingError>(v),
{
    let n = T::spec_packed_bytes_size(Some(v))->Ok_0;
    let zeros = Seq::new(n, |i: int| 0u8);
    T::lemma_roundtrip(v, zeros);
}

/// A message whose header's server fits the header format packs into bytes
/// that unpack to the same message.
pub proof fn lemma_message_roundtrip(v: (Header, Seq<u8>))
    requires
        v.0.ty.server.spec_to_primitive() < 4,
        8 + v.1.len() + 1 <= usize::MAX,
    ensures
        spec_pack_to_vec::<Message<OpaqueBytes>>(v) matches Ok(bytes)
            && <Message<OpaqueBytes> as PackedStructSlice>::spec_unpack(bytes) == Ok::<
            (Header, Seq<u8>),
            PackingError,
        >(v),
{
    lemma_pack_to_vec_roundtrip::<Message<OpaqueBytes>>(v);
}

} // verus!

verus! {

/// The packed form of a message: the 8 header bytes, the payload bytes, and
/// the CRC-8/SMBUS of the payload bytes.
pub open spec fn spec_message_bytes(v: (Header, Seq<u8>)) -> Seq<u8> {
    header::spec_header_bytes(v.0) + v.1.push(checksum::spec_crc8_smbus(v.1))
}

/// Packing a message whose size fits in memory succeeds and gives its
/// header bytes, payload bytes and checksum.
pub proof fn lemma_message_bytes(v: (Header, Seq<u8>))
    requires
        8 + v.1.len() + 1 <= usize::MAX,
    ensures
        spec_pack_to_vec::<Message<OpaqueBytes>>(v) == Ok::<Seq<u8>, PackingError>(
            spec_message_bytes(v),
        ),
{
    let n = 8 + v.1.len() + 1;
    let zeros = Seq::new(n, |i: int| 0u8);
    let tail = zeros.skip(8);
    assert(tail.take(v.1.len() as int).len() == v.1.len());
    assert(zeros.take(8).len() == 8);
}

} // verus!

verus! {

/// Bytes that unpack to a message are exactly that message's packing: the
/// header format is one-to-one and the checksum must match.
pub proof fn lemma_message_unpack_pack(bytes: Seq<u8>)
    ensures
        <Message<OpaqueBytes> as PackedStructSlice>::spec_unpack(bytes) matches Ok(v)
            ==> spec_message_bytes(v) == bytes,
{
    if let Ok(v) = <Message<OpaqueBytes> as PackedStructSlice>::spec_unpack(bytes) {
        header::lemma_header_unpack_pack(bytes.take(8));
        let rest = bytes.skip(8);
        assert(rest.drop_last().push(rest.last()) =~= rest);
        assert(bytes =~= bytes.take(8) + rest);
    }
}

} // verus!
