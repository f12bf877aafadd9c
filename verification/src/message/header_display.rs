//! The one-line text description of a header.

use vstd::prelude::*;

use super::header::{spec_meta_from_byte, Conversation, Destination, Disposition, Header, Server};

verus! {

/// The name of a destination.
pub open spec fn spec_destination_name(d: Destination) -> Seq<char> {
    match d {
        Destination::Frontend => "Frontend"@,
        Destination::CentralStation => "CentralStation"@,
        Destination::Ant => "Ant"@,
        Destination::Ground => "Ground"@,
    }
}

/// The name of a server.
pub open spec fn spec_server_name(s: Server) -> Seq<char> {
    match s {
        Server::Ant => "Ant"@,
        Server::CentralStation => "CentralStation"@,
        Server::Frontend => "Frontend"@,
        Server::Rover => "Rover"@,
        Server::Lander => "Lander"@,
        Server::Ground => "Ground"@,
    }
}

/// The name of a conversation.
pub open spec fn spec_conversation_name(c: Conversation) -> Seq<char> {
    match c {
        Conversation::Ping => "Ping"@,
        Conversation::Start => "Start"@,
        Conversation::Calibrate => "Calibrate"@,
        Conversation::RoverMoving => "RoverMoving"@,
        Conversation::RoverStopping => "RoverStopping"@,
        Conversation::PowerSupplied => "PowerSupplied"@,
        Conversation::Relay => "Relay"@,
        Conversation::GarageOpenPending => "GarageOpenPending"@,
    }
}

fn destination_name(d: Destination) -> (r: &'static str)
    ensures
        r@ == spec_destination_name(d),
{
    match d {
        Destination::Frontend => "Frontend",
        Destination::CentralStation => "CentralStation",
        Destination::Ant => "Ant",
        Destination::Ground => "Ground",
    }
}

fn server_name(s: Server) -> (r: &'static str)
    ensures
        r@ == spec_server_name(s),
{
    match s {
        Server::Ant => "Ant",
        Server::CentralStation => "CentralStation",
        Server::Frontend => "Frontend",
        Server::Rover => "Rover",
        Server::Lander => "Lander",
        Server::Ground => "Ground",
    }
}

fn conversation_name(c: Conversation) -> (r: &'static str)
    ensures
        r@ == spec_conversation_name(c),
{
    match c {
        Conversation::Ping => "Ping",
        Conversation::Start => "Start",
        Conversation::Calibrate => "Calibrate",
        Conversation::RoverMoving => "RoverMoving",
        Conversation::RoverStopping => "RoverStopping",
        Conversation::PowerSupplied => "PowerSupplied",
        Conversation::Relay => "Relay",
        Conversation::GarageOpenPending => "GarageOpenPending",
    }
}

/// The text of a decimal digit.
pub open spec fn spec_digit_text(d: nat) -> Seq<char> {
    if d == 0 {
        "0"@
    } else if d == 1 {
        "1"@
    } else if d == 2 {
        "2"@
    } else if d == 3 {
        "3"@
    } else if d == 4 {
        "4"@
    } else if d == 5 {
        "5"@
    } else if d == 6 {
        "6"@
    } else if d == 7 {
        "7"@
    } else if d == 8 {
        "8"@
    } else {
        "9"@
    }
}

/// The decimal text of a number, without leading zeros.
pub open spec fn spec_decimal(n: nat) -> Seq<char>
    decreases n,
{
    if n < 10 {
        spec_digit_text(n)
    } else {
        spec_decimal(n / 10) + spec_digit_text(n % 10)
    }
}

fn digit_text(d: u8) -> (r: &'static str)
    requires
        d < 10,
    ensures
        r@ == spec_digit_text(d as nat),
{
    if d == 0 {
        "0"
    } else if d == 1 {
        "1"
    } else if d == 2 {
        "2"
    } else if d == 3 {
        "3"
    } else if d == 4 {
        "4"
    } else if d == 5 {
        "5"
    } else if d == 6 {
        "6"
    } else if d == 7 {
        "7"
    } else if d == 8 {
        "8"
    } else {
        "9"
    }
}

/// Appends the decimal text of a byte.
fn append_decimal(out: &mut String, n: u8)
    ensures
        final(out)@ == old(out)@ + spec_decimal(n as nat),
{
    if n >= 100 {
        let ghost start = out@;
        let d1 = digit_text(n / 100);
        let d2 = digit_text((n / 10) % 10);
        let d3 = digit_text(n % 10);
        out.append(d1);
        out.append(d2);
        out.append(d3);
        let ghost tens = (n / 10) as nat;
        assert(tens / 10 == (n / 100) as nat);
        assert(tens % 10 == ((n / 10) % 10) as nat);
        assert(spec_decimal(tens / 10) == d1@);
        assert(spec_decimal(tens) == spec_decimal(tens / 10) + spec_digit_text(tens % 10));
        assert(spec_decimal(tens) == d1@ + d2@);
        assert(spec_decimal(n as nat) == spec_decimal(tens) + d3@);
        assert(out@ =~= start + (d1@ + d2@ + d3@));
    } else if n >= 10 {
        let ghost start = out@;
        let d1 = digit_text(n / 10);
        let d2 = digit_text(n % 10);
        out.append(d1);
        out.append(d2);
        assert(spec_decimal((n / 10) as nat) == d1@);
        assert(spec_decimal(n as nat) == d1@ + d2@);
        assert(out@ =~= start + (d1@ + d2@));
    } else {
        out.append(digit_text(n));
    }
}

/// The text, in universal time, of a timestamp counted in seconds since
/// 1970-01-01 00:00:00 UTC.
pub uninterp spec fn utc_text(secs: u32) -> Seq<char>;

/// Calls `chrono::DateTime::<chrono::Utc>::from_timestamp` and formats the
/// time with its `Display` implementation. Claimed: the text depends on the
/// seconds alone.
#[verifier::external_body]
fn format_utc(secs: u32) -> (r: String)
    ensures
        r@ == utc_text(secs),
{
    match chrono::DateTime::<chrono::Utc>::from_timestamp(secs as i64, 0) {
        Some(t) => t.to_string(),
        None => String::new(),
    }
}

/// The one-line description of a header: its type (conversation, with
/// `[Ack]` and `[Invalid]` marks) in quotes, server, destination, time and
/// sequence number.
pub open spec fn spec_header_display(h: Header) -> Seq<char> {
    "\""@ + spec_conversation_name(h.ty.conversation_type) + (if h.ty.disposition
        == Disposition::Ack {
        "[Ack]"@
    } else {
        Seq::<char>::empty()
    }) + (if h.ty.request_was_invalid {
        "[Invalid]"@
    } else {
        Seq::<char>::empty()
    }) + "\" "@ + spec_server_name(h.ty.server) + " -> "@ + spec_destination_name(h.destination)
        + " @ "@ + utc_text(h.timestamp.secs) + " ["@ + spec_decimal(h.seq as nat) + "]"@
}

impl Header {
    pub fn display(&self) -> (r: String)
        ensures
            r@ == spec_header_display(*self),
    {
        let mut out = String::new();
        out.append("\"");
        out.append(conversation_name(self.ty.conversation_type));
        if self.ty.disposition == Disposition::Ack {
            out.append("[Ack]");
        }
        if self.ty.request_was_invalid {
            out.append("[Invalid]");
        }
        out.append("\" ");
        out.append(server_name(self.ty.server));
        out.append(" -> ");
        out.append(destination_name(self.destination));
        out.append(" @ ");
        let t = format_utc(self.timestamp.secs);
        out.append(t.as_str());
        out.append(" [");
        append_decimal(&mut out, self.seq);
        out.append("]");
        assert(out@ =~= spec_header_display(*self));
        out
    }
}

} // verus!

verus! {

/// The conversations by the code that the rover and the central station
/// give them on the wire, each named as they name it.
pub open spec fn spec_wire_conversation_name(code: int) -> Seq<char> {
    if code == 0x01 {
        "Ping"@
    } else if code == 0x02 {
        "Start"@
    } else if code == 0x03 {
        "Calibrate"@
    } else if code == 0x04 {
        "RoverMoving"@
    } else if code == 0x05 {
        "RoverStopping"@
    } else if code == 0x06 {
        "PowerSupplied"@
    } else if code == 0x07 {
        "Relay"@
    } else if code == 0x0b {
        "GarageOpenPending"@
    } else {
        Seq::<char>::empty()
    }
}

/// A conversation is packed under the code that the wire gives its name,
/// and a type byte unpacks to the conversation named by its code bits.
pub proof fn lemma_conversation_wire_names(c: Conversation, b: u8)
    ensures
        spec_wire_conversation_name(c.spec_to_primitive() as int) == spec_conversation_name(c),
        spec_meta_from_byte(b) matches Ok(m) ==> spec_conversation_name(m.conversation_type)
            == spec_wire_conversation_name((b % 16) as int),
{
}

/// Distinct conversations are described by distinct names.
pub proof fn lemma_conversation_names_distinct(a: Conversation, b: Conversation)
    ensures
        spec_conversation_name(a) == spec_conversation_name(b) ==> a == b,
{
    reveal_strlit("Ping");
    reveal_strlit("Start");
    reveal_strlit("Calibrate");
    reveal_strlit("RoverMoving");
    reveal_strlit("RoverStopping");
    reveal_strlit("PowerSupplied");
    reveal_strlit("Relay");
    reveal_strlit("GarageOpenPending");
    if spec_conversation_name(a) == spec_conversation_name(b) {
        let na = spec_conversation_name(a);
        let nb = spec_conversation_name(b);
        assert(na.len() == nb.len());
        assert(na[0] == nb[0]);
    }
}

} // verus!
