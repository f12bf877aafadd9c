//! The message header and the enumerations packed into it.

use vstd::prelude::*;

verus! {

/// The station a message is addressed to.
#[derive(Clone, Copy, Debug, PartialEq, Eq, Structural, Hash)]
pub enum Destination {
    Frontend,
    CentralStation,
    Ant,
    Ground,
}

impl Destination {
    /// The byte that stands for this destination on the wire.
    pub open spec fn spec_to_primitive(self) -> u8 {
        match self {
            Destination::Frontend => 0x90,
            Destination::CentralStation => 0x91,
            Destination::Ant => 0x92,
            Destination::Ground => 0xde,
        }
    }

    pub open spec fn spec_from_primitive(b: u8) -> Option<Destination> {
        if b == 0x90 {
            Some(Destination::Frontend)
        } else if b == 0x91 {
            Some(Destination::CentralStation)
        } else if b == 0x92 {
            Some(Destination::Ant)
        } else if b == 0xde {
            Some(Destination::Ground)
        } else {
            None
        }
    }

    pub fn to_primitive(&self) -> (r: u8)
        ensures
            r == self.spec_to_primitive(),
    {
        match self {
            Destination::Frontend => 0x90,
            Destination::CentralStation => 0x91,
            Destination::Ant => 0x92,
            Destination::Ground => 0xde,
        }
    }

    pub fn from_primitive(b: u8) -> (r: Option<Destination>)
        ensures
            r == Self::spec_from_primitive(b),
    {
        if b == 0x90 {
            Some(Destination::Frontend)
        } else if b == 0x91 {
            Some(Destination::CentralStation)
        } else if b == 0x92 {
            Some(Destination::Ant)
        } else if b == 0xde {
            Some(Destination::Ground)
        } else {
            None
        }
    }
}

} // verus!

verus! {

/// Whether a message is a command or the acknowledgement of one.
#[derive(Clone, Copy, Debug, PartialEq, Eq, Structural, Hash)]
pub enum Disposition {
    Command,
    Ack,
}

impl Disposition {
    pub open spec fn spec_to_primitive(self) -> u8 {
        match self {
            Disposition::Command => 0,
            Disposition::Ack => 1,
        }
    }

    pub open spec fn spec_from_primitive(b: u8) -> Option<Disposition> {
        if b == 0 {
            Some(Disposition::Command)
        } else if b == 1 {
            Some(Disposition::Ack)
        } else {
            None
        }
    }

    pub fn to_primitive(&self) -> (r: u8)
        ensures
            r == self.spec_to_primitive(),
    {
        match self {
            Disposition::Command => 0,
            Disposition::Ack => 1,
        }
    }

    pub fn from_primitive(b: u8) -> (r: Option<Disposition>)
        ensures
            r == Self::spec_from_primitive(b),
    {
        if b == 0 {
            Some(Disposition::Command)
        } else if b == 1 {
            Some(Disposition::Ack)
        } else {
            None
        }
    }
}

/// The kind of station that serves a type of message.
#[derive(Clone, Copy, Debug, PartialEq, Eq, Structural, Hash)]
pub enum Server {
    Ant,
    CentralStation,
    Frontend,
    Rover,
    Lander,
    Ground,
}

impl Server {
    pub open spec fn spec_to_primitive(self) -> u8 {
        match self {
            Server::Ant => 0,
            Server::CentralStation => 1,
            Server::Frontend => 2,
            Server::Rover => 3,
            Server::Lander => 4,
            Server::Ground => 5,
        }
    }

    pub open spec fn spec_from_primitive(b: u8) -> Option<Server> {
        if b == 0 {
            Some(Server::Ant)
        } else if b == 1 {
            Some(Server::CentralStation)
        } else if b == 2 {
            Some(Server::Frontend)
        } else if b == 3 {
            Some(Server::Rover)
        } else if b == 4 {
            Some(Server::Lander)
        } else if b == 5 {
            Some(Server::Ground)
        } else {
            None
        }
    }

    pub fn to_primitive(&self) -> (r: u8)
        ensures
            r == self.spec_to_primitive(),
    {
        match self {
            Server::Ant => 0,
            Server::CentralStation => 1,
            Server::Frontend => 2,
            Server::Rover => 3,
            Server::Lander => 4,
            Server::Ground => 5,
        }
    }

    pub fn from_primitive(b: u8) -> (r: Option<Server>)
        ensures
            r == Self::spec_from_primitive(b),
    {
        if b == 0 {
            Some(Server::Ant)
        } else if b == 1 {
            Some(Server::CentralStation)
        } else if b == 2 {
            Some(Server::Frontend)
        } else if b == 3 {
            Some(Server::Rover)
        } else if b == 4 {
            Some(Server::Lander)
        } else if b == 5 {
            Some(Server::Ground)
        } else {
            None
        }
    }
}

/// The subject of a message exchange.
#[derive(Clone, Copy, Debug, PartialEq, Eq, Structural, Hash)]
pub enum Conversation {
    Ping,
    Start,
    Calibrate,
    RoverMoving,
    RoverStopping,
    PowerSupplied,
    Relay,
    GarageOpenPending,
}

impl Conversation {
    pub open spec fn spec_to_primitive(self) -> u8 {
        match self {
            Conversation::Ping => 0x01,
            Conversation::Start => 0x02,
            Conversation::Calibrate => 0x03,
            Conversation::RoverMoving => 0x04,
            Conversation::RoverStopping => 0x05,
            Conversation::PowerSupplied => 0x06,
            Conversation::Relay => 0x07,
            Conversation::GarageOpenPending => 0x0b,
        }
    }

    pub open spec fn spec_from_primitive(b: u8) -> Option<Conversation> {
        if b == 0x01 {
            Some(Conversation::Ping)
        } else if b == 0x02 {
            Some(Conversation::Start)
        } else if b == 0x03 {
            Some(Conversation::Calibrate)
        } else if b == 0x04 {
            Some(Conversation::RoverMoving)
        } else if b == 0x05 {
            Some(Conversation::RoverStopping)
        } else if b == 0x06 {
            Some(Conversation::PowerSupplied)
        } else if b == 0x07 {
            Some(Conversation::Relay)
        } else if b == 0x0b {
            Some(Conversation::GarageOpenPending)
        } else {
            None
        }
    }

    pub fn to_primitive(&self) -> (r: u8)
        ensures
            r == self.spec_to_primitive(),
    {
        match self {
            Conversation::Ping => 0x01,
            Conversation::Start => 0x02,
            Conversation::Calibrate => 0x03,
            Conversation::RoverMoving => 0x04,
            Conversation::RoverStopping => 0x05,
            Conversation::PowerSupplied => 0x06,
            Conversation::Relay => 0x07,
            Conversation::GarageOpenPending => 0x0b,
        }
    }

    pub fn from_primitive(b: u8) -> (r: Option<Conversation>)
        ensures
            r == Self::spec_from_primitive(b),
    {
        if b == 0x01 {
            Some(Conversation::Ping)
        } else if b == 0x02 {
            Some(Conversation::Start)
        } else if b == 0x03 {
            Some(Conversation::Calibrate)
        } else if b == 0x04 {
            Some(Conversation::RoverMoving)
        } else if b == 0x05 {
            Some(Conversation::RoverStopping)
        } else if b == 0x06 {
            Some(Conversation::PowerSupplied)
        } else if b == 0x07 {
            Some(Conversation::Relay)
        } else if b == 0x0b {
            Some(Conversation::GarageOpenPending)
        } else {
            None
        }
    }
}

/// The type byte of a header: disposition (1 bit), invalid-request flag
/// (1 bit), server (2 bits) and conversation (4 bits), most significant
/// bit first.
#[derive(Clone, Copy, Debug, PartialEq, Eq, Structural, Hash)]
pub struct RequestMeta {
    pub disposition: Disposition,
    pub request_was_invalid: bool,
    pub server: Server,
    pub conversation_type: Conversation,
}

/// The byte that encodes a type byte. The server occupies two bits, so only
/// its two low bits are kept.
pub open spec fn spec_meta_byte(m: RequestMeta) -> u8 {
    (m.disposition.spec_to_primitive() * 128 + (if m.request_was_invalid {
        64int
    } else {
        0int
    }) + (m.server.spec_to_primitive() % 4) * 16 + m.conversation_type.spec_to_primitive()) as u8
}

/// The type byte that a byte decodes to, if its conversation bits name a
/// conversation.
pub open spec fn spec_meta_from_byte(b: u8) -> Result<RequestMeta, super::PackingError> {
    match (
        Disposition::spec_from_primitive(b / 128),
        Server::spec_from_primitive((b / 16) % 4),
        Conversation::spec_from_primitive(b % 16),
    ) {
        (Some(d), Some(s), Some(c)) => Ok(
            RequestMeta {
                disposition: d,
                request_was_invalid: (b / 64) % 2 == 1,
                server: s,
                conversation_type: c,
            },
        ),
        _ => Err(super::PackingError::InvalidValue),
    }
}

impl RequestMeta {
    /// The type byte of the reply to a ping.
    pub fn pong() -> (r: Self)
        ensures
            r == (RequestMeta {
                disposition: Disposition::Ack,
                request_was_invalid: false,
                server: Server::Frontend,
                conversation_type: Conversation::Ping,
            }),
    {
        RequestMeta {
            disposition: Disposition::Ack,
            request_was_invalid: false,
            server: Server::Frontend,
            conversation_type: Conversation::Ping,
        }
    }

    pub fn pack_byte(&self) -> (r: u8)
        ensures
            r == spec_meta_byte(*self),
    {
        let d = self.disposition.to_primitive();
        let i: u8 = if self.request_was_invalid {
            64
        } else {
            0
        };
        let s = self.server.to_primitive() % 4;
        let c = self.conversation_type.to_primitive();
        d * 128 + i + s * 16 + c
    }

    pub fn unpack_byte(b: u8) -> (r: Result<RequestMeta, super::PackingError>)
        ensures
            r == spec_meta_from_byte(b),
    {
        let d = Disposition::from_primitive(b / 128);
        let s = Server::from_primitive((b / 16) % 4);
        let c = Conversation::from_primitive(b % 16);
        match (d, s, c) {
            (Some(d), Some(s), Some(c)) => Ok(
                RequestMeta {
                    disposition: d,
                    request_was_invalid: (b / 64) % 2 == 1,
                    server: s,
                    conversation_type: c,
                },
            ),
            _ => Err(super::PackingError::InvalidValue),
        }
    }
}

/// Decoding the byte of a type byte gives it back, when its server fits in
/// the two bits that the format gives it.
pub proof fn lemma_meta_roundtrip(m: RequestMeta)
    requires
        m.server.spec_to_primitive() < 4,
    ensures
        spec_meta_from_byte(spec_meta_byte(m)) == Ok::<RequestMeta, super::PackingError>(m),
{
}

/// A byte that decodes to a type byte is that type byte's encoding.
pub proof fn lemma_meta_unpack_pack(b: u8)
    ensures
        spec_meta_from_byte(b) matches Ok(m) ==> spec_meta_byte(m) == b,
{
}

} // verus!

verus! {

/// The byte that opens every header.
pub const MAGIC_BYTE: u8 = 0xeb;

/// The magic field of a header: it carries no data and always packs to
/// [`MAGIC_BYTE`].
#[derive(Clone, Copy, Debug, PartialEq, Eq, Structural, Hash, Default)]
pub struct Magic;

/// The 8-byte header of every message: magic byte, destination, timestamp
/// (4 bytes, least significant first), sequence number and type byte.
#[derive(Clone, Copy, Debug, PartialEq, Eq, Structural, Hash)]
pub struct Header {
    pub magic: Magic,
    pub destination: Destination,
    pub timestamp: super::MissionEpoch,
    pub seq: u8,
    pub ty: RequestMeta,
}

/// The bytes of a timestamp, least significant first.
pub open spec fn spec_epoch_bytes(t: super::MissionEpoch) -> Seq<u8> {
    seq![
        (t.secs % 256) as u8,
        ((t.secs / 256) % 256) as u8,
        ((t.secs / 65536) % 256) as u8,
        ((t.secs / 16777216) % 256) as u8,
    ]
}

/// The timestamp that four bytes, least significant first, encode.
pub open spec fn spec_epoch_from_bytes(b0: u8, b1: u8, b2: u8, b3: u8) -> super::MissionEpoch {
    super::MissionEpoch { secs: (b0 + b1 * 256 + b2 * 65536 + b3 * 16777216) as u32 }
}

/// The 8 bytes of a header.
pub open spec fn spec_header_bytes(h: Header) -> Seq<u8> {
    seq![MAGIC_BYTE, h.destination.spec_to_primitive()] + spec_epoch_bytes(h.timestamp) + seq![
        h.seq,
        spec_meta_byte(h.ty),
    ]
}

/// The header that 8 bytes decode to: the first byte must be the magic
/// byte, the second a destination and the last a type byte.
pub open spec fn spec_header_from_bytes(s: Seq<u8>) -> Result<Header, super::PackingError> {
    if s.len() != 8 {
        Err(super::PackingError::BufferSizeMismatch { expected: 8, actual: s.len() as usize })
    } else if s[0] != MAGIC_BYTE {
        Err(super::PackingError::InvalidValue)
    } else {
        match (Destination::spec_from_primitive(s[1]), spec_meta_from_byte(s[7])) {
            (Some(d), Ok(m)) => Ok(
                Header {
                    magic: Magic,
                    destination: d,
                    timestamp: spec_epoch_from_bytes(s[2], s[3], s[4], s[5]),
                    seq: s[6],
                    ty: m,
                },
            ),
            _ => Err(super::PackingError::InvalidValue),
        }
    }
}

pub(crate) proof fn lemma_epoch_roundtrip(t: super::MissionEpoch)
    ensures
        ({
            let b = spec_epoch_bytes(t);
            spec_epoch_from_bytes(b[0], b[1], b[2], b[3]) == t
        }),
{
    let x = t.secs as int;
    assert(x == x % 256 + ((x / 256) % 256) * 256 + ((x / 65536) % 256) * 65536 + ((x / 16777216)
        % 256) * 16777216) by (nonlinear_arith)
        requires
            0 <= x < 0x1_0000_0000,
    ;
}

proof fn lemma_epoch_from_bytes(b0: u8, b1: u8, b2: u8, b3: u8)
    ensures
        spec_epoch_bytes(spec_epoch_from_bytes(b0, b1, b2, b3)) == seq![b0, b1, b2, b3],
{
    let x = b0 + b1 * 256 + b2 * 65536 + b3 * 16777216;
    assert(x % 256 == b0 && (x / 256) % 256 == b1 && (x / 65536) % 256 == b2 && (x / 16777216)
        % 256 == b3) by (nonlinear_arith)
        requires
            x == b0 + b1 * 256 + b2 * 65536 + b3 * 16777216,
            0 <= b0 < 256,
            0 <= b1 < 256,
            0 <= b2 < 256,
            0 <= b3 < 256,
    ;
    assert(spec_epoch_bytes(spec_epoch_from_bytes(b0, b1, b2, b3)) =~= seq![b0, b1, b2, b3]);
}

/// Unpacking a packed header gives the header back, when its server fits in
/// the two bits that the format gives it.
pub proof fn lemma_header_roundtrip(h: Header)
    requires
        h.ty.server.spec_to_primitive() < 4,
    ensures
        spec_header_from_bytes(spec_header_bytes(h)) == Ok::<Header, super::PackingError>(h),
{
    lemma_epoch_roundtrip(h.timestamp);
    lemma_meta_roundtrip(h.ty);
    let s = spec_header_bytes(h);
    assert(s.len() == 8);
    assert(s[1] == h.destination.spec_to_primitive());
    assert(s[7] == spec_meta_byte(h.ty));
    let e = spec_epoch_bytes(h.timestamp);
    assert(s[2] == e[0] && s[3] == e[1] && s[4] == e[2] && s[5] == e[3]);
}

/// Eight bytes that unpack to a header are exactly the packing of that header.
pub proof fn lemma_header_unpack_pack(s: Seq<u8>)
    ensures
        spec_header_from_bytes(s) matches Ok(h) ==> spec_header_bytes(h) == s,
{
    if let Ok(h) = spec_header_from_bytes(s) {
        lemma_meta_unpack_pack(s[7]);
        lemma_epoch_from_bytes(s[2], s[3], s[4], s[5]);
        assert(spec_header_bytes(h) =~= s);
    }
}

impl Header {
    pub open spec fn spec_unique_id(self) -> super::UniqueId {
        super::UniqueId { timestamp: self.timestamp, seq: self.seq }
    }

    /// The identity of this message.
    pub fn unique_id(&self) -> (r: super::UniqueId)
        ensures
            r == self.spec_unique_id(),
    {
        super::UniqueId { timestamp: self.timestamp, seq: self.seq }
    }

    pub fn pack(&self) -> (r: Result<[u8; 8], super::PackingError>)
        ensures
            r matches Ok(a) && a@ == spec_header_bytes(*self),
    {
        let t = self.timestamp.secs;
        let a: [u8; 8] = [
            MAGIC_BYTE,
            self.destination.to_primitive(),
            (t % 256) as u8,
            ((t / 256) % 256) as u8,
            ((t / 65536) % 256) as u8,
            ((t / 16777216) % 256) as u8,
            self.seq,
            self.ty.pack_byte(),
        ];
        assert(a@ =~= spec_header_bytes(*self));
        Ok(a)
    }

    pub fn unpack(src: &[u8; 8]) -> (r: Result<Header, super::PackingError>)
        ensures
            r == spec_header_from_bytes(src@),
    {
        if src[0] != MAGIC_BYTE {
            return Err(super::PackingError::InvalidValue);
        }
        let d = Destination::from_primitive(src[1]);
        let m = RequestMeta::unpack_byte(src[7]);
        match (d, m) {
            (Some(d), Ok(m)) => {
                let secs: u32 = src[2] as u32 + src[3] as u32 * 256 + src[4] as u32 * 65536
                    + src[5] as u32 * 16777216;
                Ok(
                    Header {
                        magic: Magic,
                        destination: d,
                        timestamp: super::MissionEpoch { secs },
                        seq: src[6],
                        ty: m,
                    },
                )
            },
            _ => Err(super::PackingError::InvalidValue),
        }
    }
}

} // verus!

verus! {

impl View for Header {
    type V = Header;

    open spec fn view(&self) -> Header {
        *self
    }
}

impl super::PackedStructInfo for Header {
    open spec fn spec_packed_bits() -> nat {
        64
    }

    fn packed_bits() -> (r: usize) {
        64
    }
}

/// A header packs into, and unpacks from, exactly 8 bytes.
impl super::PackedStructSlice for Header {
    open spec fn spec_pack_error(v: Header, len: nat) -> Option<super::PackingError> {
        if len != 8 {
            Some(super::PackingError::BufferSizeMismatch { expected: 8, actual: len as usize })
        } else {
            None
        }
    }

    open spec fn spec_pack_bytes(v: Header, out: Seq<u8>) -> Seq<u8> {
        if out.len() != 8 {
            out
        } else {
            spec_header_bytes(v)
        }
    }

    open spec fn spec_pack_panics(v: Header, len: nat) -> bool {
        false
    }

    open spec fn spec_unpack(src: Seq<u8>) -> Result<Header, super::PackingError> {
        spec_header_from_bytes(src)
    }

    open spec fn spec_packed_bytes_size(v: Option<Header>) -> Result<nat, super::PackingError> {
        Ok(8)
    }

    proof fn lemma_pack_len(v: Header, out: Seq<u8>) {
    }

    fn pack_to_slice(&self, output: &mut [u8]) -> (r: Result<(), super::PackingError>) {
        if output.len() != 8 {
            return Err(super::PackingError::BufferSizeMismatch { expected: 8, actual: output.len() });
        }
        let packed = self.pack()?;
        let mut i: usize = 0;
        while i < 8
            invariant
                output@.len() == 8,
                packed@ == spec_header_bytes(*self),
                0 <= i <= 8,
                forall|j: int| 0 <= j < i ==> output@[j] == packed@[j],
            decreases 8 - i,
        {
            output[i] = packed[i];
            i = i + 1;
        }
        assert(output@ =~= spec_header_bytes(*self));
        Ok(())
    }

    fn unpack_from_slice(src: &[u8]) -> (r: Result<Self, super::PackingError>) {
        if src.len() != 8 {
            return Err(super::PackingError::BufferSizeMismatch { expected: 8, actual: src.len() });
        }
        let a: [u8; 8] = [src[0], src[1], src[2], src[3], src[4], src[5], src[6], src[7]];
        assert(a@ =~= src@);
        Header::unpack(&a)
    }

    fn packed_bytes_size(opt_self: Option<&Self>) -> (r: Result<usize, super::PackingError>) {
        Ok(8)
    }
}

/// Headers whose server fits the two bits of the format unpack to themselves.
impl super::PackRoundTrip for Header {
    open spec fn spec_valid(v: Header) -> bool {
        v.ty.server.spec_to_primitive() < 4
    }

    proof fn lemma_roundtrip(v: Header, out: Seq<u8>) {
        lemma_header_roundtrip(v);
    }
}

} // verus!

verus! {

/// A header stamped with the environment's clock and next sequence number.
pub open spec fn spec_stamped(
    env: crate::util::PacketEnv,
    destination: Destination,
    disposition: Disposition,
    server: Server,
    kind: Conversation,
) -> Header {
    Header {
        magic: Magic,
        destination,
        timestamp: env.clock,
        seq: env.seq,
        ty: RequestMeta { disposition, request_was_invalid: false, server, conversation_type: kind },
    }
}

impl Header {
    fn stamped(
        env: &mut crate::util::PacketEnv,
        destination: Destination,
        disposition: Disposition,
        server: Server,
        kind: Conversation,
    ) -> (r: Header)
        ensures
            r == spec_stamped(*old(env), destination, disposition, server, kind),
            final(env).clock == old(env).clock,
            final(env).seq == crate::util::spec_next_seq(old(env).seq),
    {
        let timestamp = env.now();
        let seq = env.next_seq();
        Header {
            magic: Magic,
            destination,
            timestamp,
            seq,
            ty: RequestMeta {
                disposition,
                request_was_invalid: false,
                server,
                conversation_type: kind,
            },
        }
    }

    /// A header for a message to the ground.
    pub fn downlink(env: &mut crate::util::PacketEnv, kind: Conversation) -> (r: Header)
        ensures
            r == spec_stamped(
                *old(env),
                Destination::Ground,
                Disposition::Command,
                Server::Frontend,
                kind,
            ),
            final(env).clock == old(env).clock,
            final(env).seq == crate::util::spec_next_seq(old(env).seq),
    {
        Self::stamped(env, Destination::Ground, Disposition::Command, Server::Frontend, kind)
    }

    /// A header for a frontend command to the central station.
    pub fn fe_command(env: &mut crate::util::PacketEnv, kind: Conversation) -> (r: Header)
        ensures
            r == spec_stamped(
                *old(env),
                Destination::CentralStation,
                Disposition::Command,
                Server::Frontend,
                kind,
            ),
            final(env).clock == old(env).clock,
            final(env).seq == crate::util::spec_next_seq(old(env).seq),
    {
        Self::stamped(env, Destination::CentralStation, Disposition::Command, Server::Frontend, kind)
    }

    /// A header for a central-station command to the central station.
    pub fn cs_command(env: &mut crate::util::PacketEnv, kind: Conversation) -> (r: Header)
        ensures
            r == spec_stamped(
                *old(env),
                Destination::CentralStation,
                Disposition::Command,
                Server::CentralStation,
                kind,
            ),
            final(env).clock == old(env).clock,
            final(env).seq == crate::util::spec_next_seq(old(env).seq),
    {
        Self::stamped(
            env,
            Destination::CentralStation,
            Disposition::Command,
            Server::CentralStation,
            kind,
        )
    }

    /// A header for a command to the ant.
    pub fn ant_command(env: &mut crate::util::PacketEnv, kind: Conversation) -> (r: Header)
        ensures
            r == spec_stamped(*old(env), Destination::Ant, Disposition::Command, Server::Ant, kind),
            final(env).clock == old(env).clock,
            final(env).seq == crate::util::spec_next_seq(old(env).seq),
    {
        Self::stamped(env, Destination::Ant, Disposition::Command, Server::Ant, kind)
    }
}

} // verus!

