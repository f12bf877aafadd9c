//! Splitting the serial byte stream into packets, and routing the
//! acknowledgements that come back over it to the commands waiting for them.

use vstd::prelude::*;

use crate::message::ack::Ack;
use crate::message::header::Disposition;
use crate::message::{CRCWrap, Message, OpaqueBytes, PackingError, UniqueId};

verus! {

/// The identity of a serial connection.
pub struct SerialIdent(pub u64);

/// What a read from the serial stream means for the packet being split.
#[derive(Debug)]
pub enum SplitOutcome {
    /// The stream ended.
    End,
    /// The buffer does not end with the sentinel yet: read on.
    NeedMore,
    /// A packet is complete.
    Packet(Vec<u8>),
}

/// Whether `s` ends with `suffix`.
pub open spec fn spec_ends_with(s: Seq<u8>, suffix: Seq<u8>) -> bool {
    suffix.len() <= s.len() && s.subrange(s.len() - suffix.len(), s.len() as int) == suffix
}

/// The buffer that splitting starts from: the sentinel itself.
pub fn split_initial_buffer(sentinel: &[u8]) -> (r: Vec<u8>)
    ensures
        r@ == sentinel@,
{
    vstd::slice::slice_to_vec(sentinel)
}

/// Decides, after a read of `count` bytes appended to `buf`, whether the
/// stream ended, a packet is complete, or more must be read. A complete
/// packet is everything in the buffer before its trailing sentinel, which
/// stays in the buffer.
pub fn split_step(buf: &mut Vec<u8>, sentinel: &[u8], count: usize) -> (r: SplitOutcome)
    ensures
        count == 0 ==> r is End && final(buf)@ == old(buf)@,
        count != 0 && !spec_ends_with(old(buf)@, sentinel@) ==> r is NeedMore && final(buf)@ == old(
            buf,
        )@,
        count != 0 && spec_ends_with(old(buf)@, sentinel@) ==> (r matches SplitOutcome::Packet(p) && p@
            == old(buf)@.take(old(buf)@.len() - sentinel@.len()) && final(buf)@ == sentinel@),
        r matches SplitOutcome::Packet(p) ==> p@ + final(buf)@ == old(buf)@,
{
    if count == 0 {
        return SplitOutcome::End;
    }
    let n = buf.len();
    let m = sentinel.len();
    if n < m {
        return SplitOutcome::NeedMore;
    }
    let mut i: usize = 0;
    while i < m
        invariant
            count != 0,
            buf@ == old(buf)@,
            n == buf@.len(),
            m == sentinel@.len(),
            m <= n,
            0 <= i <= m,
            forall|j: int| 0 <= j < i ==> buf@[n - m + j] == sentinel@[j],
        decreases m - i,
    {
        if buf[n - m + i] != sentinel[i] {
            assert(buf@[n - m + i] != sentinel@[i as int]);
            assert(buf@.subrange((n - m) as int, n as int)[i as int] != sentinel@[i as int]);
            return SplitOutcome::NeedMore;
        }
        i = i + 1;
    }
    assert(buf@.subrange((n - m) as int, n as int) =~= sentinel@);
    let ghost old_buf = buf@;
    let mut packet = buf.split_off(n - m);
    std::mem::swap(buf, &mut packet);
    assert(old_buf =~= packet@ + buf@);
    SplitOutcome::Packet(packet)
}

/// The buffer that splitting starts from when frames are COBS-encoded:
/// empty, since every frame carries its own terminator.
pub fn split_initial_buffer_cobs() -> (r: Vec<u8>)
    ensures
        r@ == Seq::<u8>::empty(),
{
    Vec::new()
}

/// Decides, after a read of `count` bytes appended to `buf`, whether the
/// stream ended, a COBS frame is complete, or more must be read. A complete
/// frame is everything in the buffer before its trailing sentinel, and the
/// buffer is emptied for the next frame.
pub fn split_step_cobs(buf: &mut Vec<u8>, sentinel: &[u8], count: usize) -> (r: SplitOutcome)
    ensures
        count == 0 ==> r is End && final(buf)@ == old(buf)@,
        count != 0 && !spec_ends_with(old(buf)@, sentinel@) ==> r is NeedMore && final(buf)@ == old(
            buf,
        )@,
        count != 0 && spec_ends_with(old(buf)@, sentinel@) ==> (r matches SplitOutcome::Packet(p) && p@
            == old(buf)@.take(old(buf)@.len() - sentinel@.len()) && final(buf)@ == Seq::<
            u8,
        >::empty()),
{
    let r = split_step(buf, sentinel, count);
    if let SplitOutcome::Packet(_) = &r {
        buf.clear();
    }
    r
}

} // verus!

verus! {

/// The acknowledgement that a message's payload carries, when its payload
/// is exactly the 8 bytes of one.
pub fn ack_of(msg: &Message<OpaqueBytes>) -> (r: Result<Message<Ack>, PackingError>)
    requires
        msg.payload.payload@.len() < usize::MAX,
    ensures
        match r {
            Ok(a) => a.header == msg.header && msg.payload.payload@.len() == 8
                && crate::message::ack::spec_ack_from_bytes(msg.payload.payload@) == Ok::<
                Ack,
                PackingError,
            >(a.payload.payload),
            Err(e) => msg.payload.payload@.len() != 8 && e == PackingError::BufferSizeMismatch {
                expected: 8,
                actual: msg.payload.payload@.len() as usize,
            },
        },
{
    let ghost bytes = msg.payload.payload@;
    let ghost framed = bytes.push(crate::message::checksum::spec_crc8_smbus(bytes));
    assert(framed.drop_last() =~= bytes);
    msg.payload_into::<CRCWrap<Ack>>()
}

#[verifier::external_type_specification]
#[verifier::external_body]
#[verifier::reject_recursive_types(K)]
#[verifier::reject_recursive_types(V)]
#[verifier::reject_recursive_types(S)]
pub struct ExDashMap<K, V, S>(dashmap::DashMap<K, V, S>);

#[verifier::external_type_specification]
#[verifier::external_body]
#[verifier::reject_recursive_types(T)]
pub struct ExSender<T>(smol::channel::Sender<T>);

/// The channel on which a submitted command waits for its acknowledgement.
pub type AckSender = smol::channel::Sender<Message<Ack>>;

/// The commands that wait for an acknowledgement: each key with the sender
/// registered under it.
pub uninterp spec fn pending_entries(m: dashmap::DashMap<u64, AckSender>) -> Map<u64, AckSender>;

/// Calls `dashmap::DashMap::new`. Claimed: the map is empty.
#[verifier::external_body]
fn pending_new() -> (r: dashmap::DashMap<u64, AckSender>)
    ensures
        pending_entries(r).dom() == Set::<u64>::empty(),
{
    dashmap::DashMap::new()
}

/// Calls `dashmap::DashMap::insert`. Claimed: the key maps to the new sender
/// afterwards and no other entry changes; the sender it replaced is
/// returned, if the key was present.
#[verifier::external_body]
fn pending_insert(m: &mut dashmap::DashMap<u64, AckSender>, key: u64, tx: AckSender) -> (r: Option<
    AckSender,
>)
    ensures
        pending_entries(*final(m)) == pending_entries(*old(m)).insert(key, tx),
        r is Some <==> pending_entries(*old(m)).contains_key(key),
        r matches Some(old_tx) ==> old_tx == pending_entries(*old(m))[key],
{
    m.insert(key, tx)
}

/// Calls `dashmap::DashMap::remove`. Claimed: the key is absent afterwards
/// and no other entry changes; the entry, key and sender, is returned
/// exactly when the key was present.
#[verifier::external_body]
fn pending_remove(m: &mut dashmap::DashMap<u64, AckSender>, key: u64) -> (r: Option<
    (u64, AckSender),
>)
    ensures
        pending_entries(*final(m)) == pending_entries(*old(m)).remove(key),
        r is Some <==> pending_entries(*old(m)).contains_key(key),
        r matches Some(p) ==> p.0 == key && p.1 == pending_entries(*old(m))[key],
{
    m.remove(&key)
}

/// The key under which a command waits: its timestamp and sequence number.
pub open spec fn spec_id_key(id: UniqueId) -> u64 {
    (id.timestamp.secs * 256 + id.seq) as u64
}

/// Distinct identities have distinct keys.
pub proof fn lemma_id_key_injective(a: UniqueId, b: UniqueId)
    ensures
        spec_id_key(a) == spec_id_key(b) <==> a == b,
{
    assert(spec_id_key(a) == a.timestamp.secs * 256 + a.seq);
    assert(spec_id_key(b) == b.timestamp.secs * 256 + b.seq);
}

pub fn id_key(id: UniqueId) -> (r: u64)
    ensures
        r == spec_id_key(id),
{
    id.timestamp.secs as u64 * 256 + id.seq as u64
}

/// Where an incoming message goes.
pub enum AckRoute {
    /// It is not an acknowledgement.
    NotAnAck,
    /// It acknowledges a command that nothing waits for.
    Unregistered(UniqueId),
    /// It acknowledges a waiting command: deliver it on the sender.
    Deliver(AckSender, Message<Ack>),
}

/// The commands that wait for an acknowledgement, by identity.
pub struct AckTable {
    pending: dashmap::DashMap<u64, AckSender>,
}

impl AckTable {
    /// The waiting commands: each identity, as a key, with the sender on
    /// which its acknowledgement is delivered.
    pub closed spec fn spec_entries(&self) -> Map<u64, AckSender> {
        pending_entries(self.pending)
    }

    pub fn new() -> (r: Self)
        ensures
            r.spec_entries().dom() == Set::<u64>::empty(),
    {
        AckTable { pending: pending_new() }
    }

    /// Registers a command as waiting on `tx`; returns the sender that
    /// waited under the same identity before, if any.
    pub fn register(&mut self, id: UniqueId, tx: AckSender) -> (r: Option<AckSender>)
        ensures
            final(self).spec_entries() == old(self).spec_entries().insert(spec_id_key(id), tx),
            r is Some <==> old(self).spec_entries().contains_key(spec_id_key(id)),
            r matches Some(old_tx) ==> old_tx == old(self).spec_entries()[spec_id_key(id)],
    {
        pending_insert(&mut self.pending, id_key(id), tx)
    }

    /// A command no longer waits (it was answered or given up).
    pub fn cancel(&mut self, id: UniqueId)
        ensures
            final(self).spec_entries() == old(self).spec_entries().remove(spec_id_key(id)),
    {
        let _ = pending_remove(&mut self.pending, id_key(id));
    }

    /// Routes an incoming message: an acknowledgement goes to the sender of
    /// the command that waits for it, which then no longer waits.
    pub fn route(&mut self, msg: &Message<OpaqueBytes>) -> (r: Result<AckRoute, PackingError>)
        requires
            msg.payload.payload@.len() < usize::MAX,
        ensures
            msg.header.ty.disposition != Disposition::Ack ==> (r matches Ok(AckRoute::NotAnAck)
                && final(self).spec_entries() == old(self).spec_entries()),
            msg.header.ty.disposition == Disposition::Ack && msg.payload.payload@.len() != 8
                ==> r is Err && final(self).spec_entries() == old(self).spec_entries(),
            msg.header.ty.disposition == Disposition::Ack && msg.payload.payload@.len() == 8
                ==> ({
                let a = crate::message::ack::spec_ack_from_bytes(msg.payload.payload@)->Ok_0;
                let key = spec_id_key(UniqueId { timestamp: a.timestamp, seq: a.seq });
                &&& final(self).spec_entries() == old(self).spec_entries().remove(key)
                &&& old(self).spec_entries().contains_key(key) ==> (r matches Ok(
                    AckRoute::Deliver(tx, m),
                ) && tx == old(self).spec_entries()[key] && m.header == msg.header
                    && m.payload.payload == a)
                &&& !old(self).spec_entries().contains_key(key) ==> r == Ok::<AckRoute, PackingError>(
                    AckRoute::Unregistered(UniqueId { timestamp: a.timestamp, seq: a.seq }),
                )
            }),
    {
        if msg.header.ty.disposition != Disposition::Ack {
            return Ok(AckRoute::NotAnAck);
        }
        let ack = match ack_of(msg) {
            Ok(a) => a,
            Err(e) => return Err(e),
        };
        let id = ack.payload.as_ref().unique_id();
        match pending_remove(&mut self.pending, id_key(id)) {
            Some((_, tx)) => Ok(AckRoute::Deliver(tx, ack)),
            None => Ok(AckRoute::Unregistered(id)),
        }
    }
}

} // verus!
