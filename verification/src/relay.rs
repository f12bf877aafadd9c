//! The relay between the ground uplink, the serial link to the central
//! station, and the downlink: its command state machine and the decisions
//! taken on each packet.

pub mod control;
pub mod serial;

use vstd::prelude::*;

use crate::message::ack::Ack;
use crate::message::checksum::spec_crc8_smbus;
use crate::message::header::{
    spec_stamped, Conversation, Destination, Disposition, Header, RequestMeta, Server,
};
use crate::message::{CRCWrap, HeaderPacket, Message, OpaqueBytes};
use crate::util::{spec_next_seq, PacketEnv};

verus! {

/// Whether an uplink message goes on to the serial link: everything that is
/// not addressed to the frontend itself.
pub fn relays_to_serial(msg: &Message<OpaqueBytes>) -> (r: bool)
    ensures
        r == (msg.header.destination != Destination::Frontend),
{
    msg.header.destination != Destination::Frontend
}

/// Whether an uplink message is addressed to the frontend, which acknowledges it.
pub fn addressed_to_frontend(msg: &Message<OpaqueBytes>) -> (r: bool)
    ensures
        r == (msg.header.destination == Destination::Frontend),
{
    msg.header.destination == Destination::Frontend
}

/// How the reply to a command submitted over serial is judged.
#[derive(Clone, Copy, Debug, PartialEq, Eq, Structural)]
pub enum ReplyVerdict {
    /// The reply acknowledges the command.
    Accepted,
    /// The reply says the command was invalid; the command is sent again.
    Invalid,
    /// The reply carries another checksum than the command's; the command is
    /// sent again.
    ChecksumMismatch,
}

/// Judges a reply to a command whose payload had checksum `expected`.
pub fn check_reply(reply: &Message<Ack>, expected: u8) -> (r: ReplyVerdict)
    ensures
        r == (if reply.header.ty.request_was_invalid {
            ReplyVerdict::Invalid
        } else if reply.payload.payload.checksum != expected {
            ReplyVerdict::ChecksumMismatch
        } else {
            ReplyVerdict::Accepted
        }),
{
    if reply.header.ty.request_was_invalid {
        ReplyVerdict::Invalid
    } else if reply.payload.as_ref().checksum != expected {
        ReplyVerdict::ChecksumMismatch
    } else {
        ReplyVerdict::Accepted
    }
}

/// Whether the reply to a command of the serial control counts as done: any
/// reply that does not report the command invalid.
pub fn reply_accepted(reply: &Message<Ack>) -> (r: bool)
    ensures
        r == !reply.header.ty.request_was_invalid,
{
    !reply.header.ty.request_was_invalid
}

/// The packed realtime status of a relay with no memory in use, no logs
/// pending and no flags set.
pub open spec fn spec_idle_status() -> Seq<u8> {
    seq![0u8, 0u8, 0u8]
}

/// The packed realtime status sent with serial packets to the ground while
/// the relay reports nothing: every field zero.
pub fn idle_status() -> (r: Vec<u8>)
    ensures
        r@ == spec_idle_status(),
{
    vec![0u8, 0u8, 0u8]
}

/// The acknowledgement that the frontend sends to the ground for an uplink
/// message addressed to it, or `None` for any other message.
pub fn ack_uplink_packet(env: &mut PacketEnv, pkt: &Message<OpaqueBytes>) -> (r: Option<
    Message<Ack>,
>)
    ensures
        pkt.header.destination != Destination::Frontend ==> r is None && *final(env) == *old(env),
        pkt.header.destination == Destination::Frontend ==> (r matches Some(m) && m.header
            == spec_stamped(
            *old(env),
            Destination::Ground,
            Disposition::Command,
            Server::Frontend,
            pkt.header.ty.conversation_type,
        ) && m.payload.payload == (Ack {
            timestamp: pkt.header.timestamp,
            seq: pkt.header.seq,
            checksum: spec_crc8_smbus(pkt.payload.payload@),
        }) && final(env).clock == old(env).clock && final(env).seq == spec_next_seq(old(env).seq)),
{
    if pkt.header.destination != Destination::Frontend {
        return None;
    }
    let checksum = crate::message::checksum::crc8_smbus(pkt.payload.payload.as_slice());
    Some(
        Message::new(
            Header::downlink(env, pkt.header.ty.conversation_type),
            Ack { timestamp: pkt.header.timestamp, seq: pkt.header.seq, checksum },
        ),
    )
}

/// A command of the given conversation from the frontend's serial control
/// to the central station, with an empty payload.
pub fn command_message(env: &mut PacketEnv, kind: Conversation) -> (r: Message<OpaqueBytes>)
    ensures
        r.header == spec_stamped(
            *old(env),
            Destination::CentralStation,
            Disposition::Command,
            Server::CentralStation,
            kind,
        ),
        r.payload.payload@ == Seq::<u8>::empty(),
        final(env).clock == old(env).clock,
        final(env).seq == spec_next_seq(old(env).seq),
{
    Message::new(Header::cs_command(env, kind), Vec::new())
}

/// An uplink packet wrapped for the downlink, so that the ground sees what
/// was received.
pub fn wrap_uplink_for_downlink(env: &mut PacketEnv, packet: Vec<u8>) -> (r: Message<OpaqueBytes>)
    ensures
        r.header == spec_stamped(
            *old(env),
            Destination::Ground,
            Disposition::Command,
            Server::Frontend,
            Conversation::Relay,
        ),
        r.payload.payload@ == packet@,
        final(env).clock == old(env).clock,
        final(env).seq == spec_next_seq(old(env).seq),
{
    Message::new(Header::downlink(env, Conversation::Relay), packet)
}

/// A packet read from the serial link, wrapped for the downlink as coming
/// from the central station. The payload is a relay packet: the packed
/// realtime status of the relay (its memory usage, pending logs and flags,
/// as an opaque block of bytes) followed by the packet.
pub fn wrap_serial_packet_for_downlink(env: &mut PacketEnv, status: &[u8], packet: Vec<u8>) -> (r: Message<
    OpaqueBytes,
>)
    ensures
        r.header == spec_stamped(
            *old(env),
            Destination::Ground,
            Disposition::Command,
            Server::CentralStation,
            Conversation::Ping,
        ),
        r.payload.payload@ == status@ + packet@,
        final(env).clock == old(env).clock,
        final(env).seq == spec_next_seq(old(env).seq),
{
    let mut relay_packet = vstd::slice::slice_to_vec(status);
    let mut rest = packet;
    relay_packet.append(&mut rest);
    let mut hdr = Header::downlink(env, Conversation::Ping);
    hdr.ty.server = Server::CentralStation;
    Message::new(hdr, relay_packet)
}

/// A batch of log records for the downlink, sent as the reply to a ping.
pub fn log_downlink_message(env: &mut PacketEnv, payload: Vec<u8>) -> (r: Message<OpaqueBytes>)
    ensures
        r.header == (Header {
            ty: RequestMeta {
                disposition: Disposition::Ack,
                request_was_invalid: false,
                server: Server::Frontend,
                conversation_type: Conversation::Ping,
            },
            ..spec_stamped(
                *old(env),
                Destination::Ground,
                Disposition::Command,
                Server::Frontend,
                Conversation::Ping,
            )
        }),
        r.payload.payload@ == payload@,
        final(env).clock == old(env).clock,
        final(env).seq == spec_next_seq(old(env).seq),
{
    let base = Header::downlink(env, Conversation::Ping);
    Message::new(Header { ty: RequestMeta::pong(), ..base }, payload)
}

} // verus!
