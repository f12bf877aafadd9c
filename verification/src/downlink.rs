//! Framing of the packets that go to the ground and over the serial link.

use vstd::prelude::*;

use crate::message::{pack_to_vec, spec_message_bytes, spec_pack_to_vec, Message, OpaqueBytes, PackedStructSlice, PackingError};
use crate::message::header::{spec_stamped, Conversation, Destination, Disposition, Header, Magic, RequestMeta, Server};
use crate::util::{spec_next_seq, PacketEnv};
use crate::io::spec_ends_with;
use crate::stream_monad::{brotli_compress, brotli_compressed, brotli_decompressed, CodecError};

verus! {

/// Of three results, the first success, or the last failure if none succeeded.
pub fn first_success<T, E>(r1: Result<T, E>, r2: Result<T, E>, r3: Result<T, E>) -> (r: Result<T, E>)
    ensures
        r == (if r1 is Ok {
            r1
        } else if r2 is Ok {
            r2
        } else {
            r3
        }),
{
    match r1 {
        Ok(v) => Ok(v),
        Err(_) => match r2 {
            Ok(v) => Ok(v),
            Err(_) => r3,
        },
    }
}

/// Failures of framing a packet.
#[derive(Clone, Copy, Debug, PartialEq, Eq, Structural)]
pub enum FrameError {
    Packing(PackingError),
    Serialization,
    Compression(CodecError),
}

/// The variable-length encoding of an unsigned integer: seven bits per
/// byte, least significant group first, the high bit set on every byte but
/// the last.
pub open spec fn spec_varint(n: nat) -> Seq<u8>
    decreases n,
{
    if n < 128 {
        seq![n as u8]
    } else {
        seq![(n % 128 + 128) as u8] + spec_varint(n / 128)
    }
}

/// The serialization of a byte vector: its length as a variable-length
/// integer, then the bytes.
pub open spec fn spec_byte_vec_serialized(data: Seq<u8>) -> Seq<u8> {
    spec_varint(data.len()) + data
}

/// Calls `postcard::to_allocvec` on a byte vector. Claimed: serializing a
/// sequence of known length into a growable vector succeeds, and gives the
/// length as a variable-length integer followed by the bytes.
#[verifier::external_body]
fn postcard_to_allocvec(data: &Vec<u8>) -> (r: Result<Vec<u8>, FrameError>)
    ensures
        r is Ok,
        r matches Ok(v) ==> v@ == spec_byte_vec_serialized(data@),
{
    match postcard::to_allocvec(data) {
        Ok(v) => Ok(v),
        Err(_) => Err(FrameError::Serialization),
    }
}

/// The serialized and COBS-encoded frame, with its terminating zero, that
/// carries a byte sequence.
pub uninterp spec fn postcard_cobs_frame(data: Seq<u8>) -> Seq<u8>;

/// The byte vector that a COBS-encoded serialized frame carries, or `None`
/// where the frame does not decode to one.
pub uninterp spec fn postcard_cobs_payload(frame: Seq<u8>) -> Option<Seq<u8>>;

/// Calls `postcard::to_allocvec_cobs` on a byte slice. Claimed: encoding
/// into a growable vector succeeds; the frame depends on the bytes alone,
/// and decoding it gives the bytes back.
#[verifier::external_body]
fn postcard_to_allocvec_cobs(data: &[u8]) -> (r: Result<Vec<u8>, FrameError>)
    ensures
        r is Ok,
        r matches Ok(v) ==> v@ == postcard_cobs_frame(data@),
        r matches Ok(v) ==> postcard_cobs_payload(v@) == Some(data@),
{
    match postcard::to_allocvec_cobs(data) {
        Ok(v) => Ok(v),
        Err(_) => Err(FrameError::Serialization),
    }
}

/// Calls `postcard::take_from_bytes_cobs` for a byte vector, decoding the
/// frame in place. Claimed: it fails exactly when the frame carries no byte
/// vector, and otherwise gives the one it carries; the buffer keeps its
/// length.
#[verifier::external_body]
fn postcard_take_from_bytes_cobs(frame: &mut [u8]) -> (r: Result<Vec<u8>, FrameError>)
    ensures
        r is Err <==> postcard_cobs_payload(old(frame)@) is None,
        r matches Ok(v) ==> postcard_cobs_payload(old(frame)@) == Some(v@),
        r matches Err(e) ==> e == FrameError::Serialization,
        final(frame)@.len() == old(frame)@.len(),
{
    match postcard::take_from_bytes_cobs::<Vec<u8>>(frame) {
        Ok((data, _rest)) => Ok(data),
        Err(_) => Err(FrameError::Serialization),
    }
}

/// The Brotli quality of downlink packets.
pub const DOWNLINK_QUALITY: i32 = 11;

/// A message packed, serialized as a byte vector, and compressed for the
/// downlink. Decompressing the result gives back the serialized packing.
pub fn pack_downlink_message(message: &Message<OpaqueBytes>) -> (r: Result<Vec<u8>, FrameError>)
    requires
        8 + message.payload.payload@.len() + 1 <= usize::MAX,
    ensures
        r matches Ok(v) && v@ == brotli_compressed(
            spec_byte_vec_serialized(spec_message_bytes(message@)),
            DOWNLINK_QUALITY,
        ),
        r matches Ok(v) && brotli_decompressed(v@) == Some(
            spec_byte_vec_serialized(spec_message_bytes(message@)),
        ),
{
    proof {
        crate::message::lemma_message_bytes(message@);
    }
    let packed_message = match pack_to_vec(message) {
        Ok(p) => p,
        Err(e) => return Err(FrameError::Packing(e)),
    };
    let framed_bytes = match postcard_to_allocvec(&packed_message) {
        Ok(f) => f,
        Err(e) => return Err(e),
    };
    match brotli_compress(framed_bytes.as_slice(), DOWNLINK_QUALITY) {
        Ok(c) => Ok(c),
        Err(e) => Err(FrameError::Compression(e)),
    }
}

/// An uplink datagram framed for the serial link; the frame decodes to the
/// datagram.
pub fn frame_uplink_for_serial(datagram: &[u8]) -> (r: Result<Vec<u8>, FrameError>)
    ensures
        r matches Ok(v) && v@ == postcard_cobs_frame(datagram@),
        r matches Ok(v) && postcard_cobs_payload(v@) == Some(datagram@),
{
    postcard_to_allocvec_cobs(datagram)
}

/// The bytes that a packet read from the serial link carries, when frames
/// are COBS-encoded; it fails exactly when the frame carries none.
pub fn unframe_serial_message_cobs(frame: &mut [u8]) -> (r: Result<Vec<u8>, FrameError>)
    ensures
        r is Err <==> postcard_cobs_payload(old(frame)@) is None,
        r matches Ok(v) ==> postcard_cobs_payload(old(frame)@) == Some(v@),
        r matches Err(e) ==> e == FrameError::Serialization,
        final(frame)@.len() == old(frame)@.len(),
{
    postcard_take_from_bytes_cobs(frame)
}

/// The bytes that a packet read from the serial link carries, when frames
/// are sent as they are.
pub fn unframe_serial_message(frame: &[u8]) -> (r: Vec<u8>)
    ensures
        r@ == frame@,
{
    vstd::slice::slice_to_vec(frame)
}

} // verus!

verus! {

/// The COBS encoding of a byte sequence (without terminator).
pub uninterp spec fn cobs_encoded(data: Seq<u8>) -> Seq<u8>;

/// The bytes that COBS decoding with the given sentinel makes of a frame, up
/// to its first terminator, or `None` where the frame is not valid COBS.
pub uninterp spec fn cobs_decoded(frame: Seq<u8>, sentinel: u8) -> Option<Seq<u8>>;

/// Calls `cobs::encode_vec`. Claimed: the encoding depends on the bytes
/// alone, is at least one byte long and holds no zero byte, and decodes back
/// to the bytes, with or without a zero terminator after it.
#[verifier::external_body]
fn cobs_encode_vec(data: &[u8]) -> (r: Vec<u8>)
    ensures
        r@ == cobs_encoded(data@),
        r@.len() > 0,
        forall|i: int| 0 <= i < r@.len() ==> r@[i] != 0u8,
        cobs_decoded(r@, 0u8) == Some(data@),
        cobs_decoded(r@.push(0u8), 0u8) == Some(data@),
{
    cobs::encode_vec(data)
}

/// A packed message COBS-encoded and terminated by a zero byte, as the
/// serial link carries it; decoding the frame gives the packed bytes back.
pub fn cobs_frame(packed: &[u8]) -> (r: Vec<u8>)
    ensures
        r@ == cobs_encoded(packed@).push(0u8),
        spec_is_serial_frame(r@),
        cobs_decoded(r@, 0u8) == Some(packed@),
        cobs_decoded(r@.drop_last(), 0u8) == Some(packed@),
{
    let mut ret = cobs_encode_vec(packed);
    let ghost enc = ret@;
    ret.push(0);
    assert(ret@.drop_last() =~= enc);
    ret
}

/// A serial frame: bytes other than zero, then one zero terminator.
pub open spec fn spec_is_serial_frame(frame: Seq<u8>) -> bool {
    &&& frame.len() > 0
    &&& frame.last() == 0u8
    &&& forall|i: int| 0 <= i < frame.len() - 1 ==> frame[i] != 0u8
}

/// A packed message sent as a serial frame comes back out of the serial
/// reading: while the frame is read, no part of it but the whole ends with
/// the zero sentinel, so splitting yields exactly the frame without its
/// terminator; decoding that gives the packed message, which unpacks to the
/// message.
pub proof fn lemma_serial_framing_roundtrip(v: (Header, Seq<u8>), frame: Seq<u8>)
    requires
        v.0.ty.server.spec_to_primitive() < 4,
        8 + v.1.len() + 1 <= usize::MAX,
        spec_is_serial_frame(frame),
        cobs_decoded(frame.drop_last(), 0u8) == Some(spec_message_bytes(v)),
    ensures
        forall|k: int| 0 <= k < frame.len() ==> !spec_ends_with(#[trigger] frame.take(k), seq![0u8]),
        spec_ends_with(frame, seq![0u8]),
        frame.take(frame.len() - 1) == frame.drop_last(),
        <Message<OpaqueBytes> as PackedStructSlice>::spec_unpack(
            cobs_decoded(frame.drop_last(), 0u8)->Some_0,
        ) == Ok::<(Header, Seq<u8>), PackingError>(v),
{
    assert forall|k: int| 0 <= k < frame.len() implies !spec_ends_with(
        #[trigger] frame.take(k),
        seq![0u8],
    ) by {
        if k > 0 {
            let t = frame.take(k);
            assert(t.subrange(k - 1, k)[0] == frame[k - 1]);
        }
    }
    assert(frame.subrange(frame.len() - 1, frame.len() as int) =~= seq![0u8]);
    crate::message::lemma_message_bytes(v);
    crate::message::lemma_message_roundtrip(v);
}

/// The payload of the mock rover's test message: the ASCII text "test".
pub open spec fn spec_mock_payload() -> Seq<u8> {
    seq![0x74u8, 0x65u8, 0x73u8, 0x74u8]
}

/// The mock rover's test message for an environment: a power-supplied
/// report from the rover to the central station, stamped by the
/// environment, with the payload "test".
pub open spec fn spec_mock_message(env: PacketEnv) -> (Header, Seq<u8>) {
    (
        spec_stamped(
            env,
            Destination::CentralStation,
            Disposition::Command,
            Server::Rover,
            Conversation::PowerSupplied,
        ),
        spec_mock_payload(),
    )
}

/// The serial frame that the mock rover sends: its test message packed and
/// COBS-framed, which a serial reader splits and decodes back to it.
pub fn mock_rover_frame(env: &mut PacketEnv) -> (r: Vec<u8>)
    ensures
        r@ == cobs_encoded(spec_message_bytes(spec_mock_message(*old(env)))).push(0u8),
        spec_is_serial_frame(r@),
        cobs_decoded(r@.drop_last(), 0u8) == Some(spec_message_bytes(spec_mock_message(*old(env)))),
        final(env).clock == old(env).clock,
        final(env).seq == spec_next_seq(old(env).seq),
{
    let timestamp = env.now();
    let seq = env.next_seq();
    let header = Header {
        magic: Magic,
        destination: Destination::CentralStation,
        timestamp,
        seq,
        ty: RequestMeta {
            disposition: Disposition::Command,
            request_was_invalid: false,
            server: Server::Rover,
            conversation_type: Conversation::PowerSupplied,
        },
    };
    let payload: Vec<u8> = vec![0x74u8, 0x65u8, 0x73u8, 0x74u8];
    let message: Message<OpaqueBytes> = Message::new(header, payload);
    assert(message@.1 == spec_mock_payload());
    proof {
        crate::message::lemma_message_bytes(message@);
    }
    let packed = match pack_to_vec(&message) {
        Ok(p) => p,
        Err(_) => vstd::pervasive::unreached(),
    };
    cobs_frame(packed.as_slice())
}

/// Calls `cobs::decode_in_place_with_sentinel`. Claimed: it fails exactly
/// when the frame is not valid COBS; otherwise the returned count, which
/// never exceeds the buffer, covers the decoding of the frame at the start
/// of the buffer. The buffer keeps its length.
#[verifier::external_body]
fn cobs_decode_in_place(frame: &mut [u8], sentinel: u8) -> (r: Result<usize, ()>)
    ensures
        final(frame)@.len() == old(frame)@.len(),
        r is Ok <==> cobs_decoded(old(frame)@, sentinel) is Some,
        r matches Ok(n) ==> n <= final(frame)@.len() && Some(final(frame)@.take(n as int))
            == cobs_decoded(old(frame)@, sentinel),
{
    cobs::decode_in_place_with_sentinel(frame, sentinel)
}

/// Failures of reading a message from a serial frame.
#[derive(Clone, Copy, Debug, PartialEq, Eq, Structural)]
pub enum SerialReadError {
    /// The frame is not valid COBS.
    Cobs,
    /// The decoded bytes do not unpack to a message.
    Packing(PackingError),
}

/// The message that a COBS-encoded serial frame carries: `Cobs` exactly
/// when the frame is not valid COBS, and otherwise what unpacking the
/// decoded bytes gives.
pub fn decode_serial_frame_cobs(frame: &mut [u8], sentinel: u8) -> (r: Result<
    Message<OpaqueBytes>,
    SerialReadError,
>)
    ensures
        final(frame)@.len() == old(frame)@.len(),
        r matches Err(SerialReadError::Cobs) <==> cobs_decoded(old(frame)@, sentinel) is None,
        cobs_decoded(old(frame)@, sentinel) matches Some(bytes) ==> (r matches Ok(m)
            ==> <Message<OpaqueBytes> as PackedStructSlice>::spec_unpack(bytes) == Ok::<
            (crate::message::Header, Seq<u8>),
            PackingError,
        >(m@)),
        cobs_decoded(old(frame)@, sentinel) matches Some(bytes) ==> (r matches Err(
            SerialReadError::Packing(e),
        ) ==> <Message<OpaqueBytes> as PackedStructSlice>::spec_unpack(bytes) == Err::<
            (crate::message::Header, Seq<u8>),
            PackingError,
        >(e)),
{
    let n = match cobs_decode_in_place(frame, sentinel) {
        Ok(n) => n,
        Err(()) => return Err(SerialReadError::Cobs),
    };
    let data = vstd::slice::slice_subrange(frame, 0, n);
    match <Message<OpaqueBytes> as PackedStructSlice>::unpack_from_slice(data) {
        Ok(m) => Ok(m),
        Err(e) => Err(SerialReadError::Packing(e)),
    }
}

} // verus!
