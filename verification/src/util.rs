//! The environment that stamps outgoing packets.

use vstd::prelude::*;

use crate::message::MissionEpoch;

verus! {

/// The successor of a sequence number, wrapping from 255 to 0.
pub open spec fn spec_next_seq(s: u8) -> u8 {
    if s == 255 {
        0
    } else {
        (s + 1) as u8
    }
}

/// The clock reading and the sequence counter that stamp outgoing packets.
///
/// The clock holds the current mission time as last set by the driver; the
/// counter hands out consecutive sequence numbers.
#[derive(Clone, Copy, Debug, PartialEq, Eq, Structural)]
pub struct PacketEnv {
    pub clock: MissionEpoch,
    pub seq: u8,
}

impl PacketEnv {
    /// Clock at zero and counter at zero.
    pub fn default() -> (r: Self)
        ensures
            r.clock.secs == 0,
            r.seq == 0,
    {
        PacketEnv { clock: MissionEpoch { secs: 0 }, seq: 0 }
    }

    pub fn new(clock: MissionEpoch) -> (r: Self)
        ensures
            r.clock == clock,
            r.seq == 0,
    {
        PacketEnv { clock, seq: 0 }
    }

    /// The current clock reading.
    pub fn now(&self) -> (r: MissionEpoch)
        ensures
            r == self.clock,
    {
        self.clock
    }

    /// Sets the clock to a new reading.
    pub fn set_clock(&mut self, now: MissionEpoch)
        ensures
            final(self).clock == now,
            final(self).seq == old(self).seq,
    {
        self.clock = now;
    }

    /// Hands out the next sequence number.
    pub fn next_seq(&mut self) -> (r: u8)
        ensures
            r == old(self).seq,
            final(self).seq == spec_next_seq(old(self).seq),
            final(self).clock == old(self).clock,
    {
        let r = self.seq;
        self.seq = if r == 255 {
            0
        } else {
            r + 1
        };
        r
    }
}

} // verus!
