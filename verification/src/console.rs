//! The text that the operator consoles show for downlinked packets.

use base64::Engine;
use vstd::prelude::*;
use vstd::utf8::encode_utf8;

use crate::stream_monad::{brotli_decompress, brotli_decompressed};

use crate::message::header_display::spec_header_display;
use crate::message::header::{
    Conversation, Destination, Disposition, Header, Magic, RequestMeta, Server,
};
use crate::message::{pack_to_vec, spec_pack_to_vec, Message, MissionEpoch, OpaqueBytes, PackingError};

verus! {

/// How the downlink decoder reads its input: as hex text, as base64 text,
/// or (neither) as raw bytes.
#[derive(Debug, Clone, PartialEq, Eq, Structural)]
pub struct Mode {
    pub hex: bool,
    pub base64: bool,
}

/// A lowercase hexadecimal digit.
pub open spec fn spec_hex_digit(d: nat) -> char {
    if d < 10 {
        (48 + d) as char
    } else {
        (87 + d) as char
    }
}

/// Bytes in lowercase hexadecimal, two digits per byte.
pub open spec fn spec_hex(data: Seq<u8>) -> Seq<char>
    decreases data.len(),
{
    if data.len() == 0 {
        Seq::<char>::empty()
    } else {
        spec_hex(data.drop_last()) + seq![
            spec_hex_digit((data.last() / 16) as nat),
            spec_hex_digit((data.last() % 16) as nat),
        ]
    }
}

/// Calls `hex::encode`. Claimed: the text is the bytes in lowercase
/// hexadecimal, two digits per byte, in order.
#[verifier::external_body]
fn hex_encode(data: &[u8]) -> (r: String)
    ensures
        r@ == spec_hex(data@),
{
    hex::encode(data)
}

/// The most hex digits shown for a packet.
pub const MAX_HEX_SHOWN: usize = 60;

/// The hex text shown for bytes: cut to `MAX_HEX_SHOWN` digits, with a mark,
/// when longer.
pub open spec fn spec_shown_hex(data: Seq<u8>) -> Seq<char> {
    if spec_hex(data).len() > MAX_HEX_SHOWN {
        spec_hex(data).take(MAX_HEX_SHOWN as int) + "...<trunc>"@
    } else {
        spec_hex(data)
    }
}

/// The console entry for raw bytes, as text.
pub open spec fn spec_bytes_text(msg: Seq<char>, data: Seq<u8>) -> Seq<char> {
    msg + "\n\t0x"@ + spec_shown_hex(data) + "\n"@
}

/// The console entry for raw bytes, UTF-8 encoded.
pub fn bytes_format(msg: &str, b: &[u8]) -> (r: Vec<u8>)
    ensures
        r@ == encode_utf8(spec_bytes_text(msg@, b@)),
{
    let hex = hex_encode(b);
    let shown = if hex.as_str().unicode_len() > MAX_HEX_SHOWN {
        let mut t = hex.as_str().substring_char(0, MAX_HEX_SHOWN).to_owned();
        t.append("...<trunc>");
        t
    } else {
        hex
    };
    let mut out = msg.to_owned();
    out.append("\n\t0x");
    out.append(shown.as_str());
    out.append("\n");
    assert(out@ =~= spec_bytes_text(msg@, b@));
    out.as_str().as_bytes_vec()
}

/// The console text of a message: its header's description, a slash, and
/// its payload bytes in hexadecimal.
pub open spec fn spec_message_text(m: Message<OpaqueBytes>) -> Seq<char> {
    spec_header_display(m.header) + "/"@ + spec_hex(m.payload.payload@)
}

/// The console entry for a message, UTF-8 encoded.
pub fn msg_format(msg: &str, m: &Message<OpaqueBytes>) -> (r: Vec<u8>)
    ensures
        r@ == encode_utf8(msg@ + "\n\t"@ + spec_message_text(*m) + "\n"@),
{
    let mut out = msg.to_owned();
    out.append("\n\t");
    let header = m.header.display();
    out.append(header.as_str());
    out.append("/");
    let payload = hex_encode(m.payload.payload.as_slice());
    out.append(payload.as_str());
    out.append("\n");
    assert(out@ =~= msg@ + "\n\t"@ + spec_message_text(*m) + "\n"@);
    out.as_str().as_bytes_vec()
}

/// A command addressed to the given station, served by it, with timestamp
/// and sequence number zero and an empty payload.
pub open spec fn spec_null_command(destination: Destination, server: Server, kind: Conversation) -> (
    Header,
    Seq<u8>,
) {
    (
        Header {
            magic: Magic,
            destination,
            timestamp: MissionEpoch { secs: 0 },
            seq: 0,
            ty: RequestMeta {
                disposition: Disposition::Command,
                request_was_invalid: false,
                server,
                conversation_type: kind,
            },
        },
        Seq::<u8>::empty(),
    )
}

fn null_command_hex(destination: Destination, server: Server, kind: Conversation) -> (r: Result<
    String,
    PackingError,
>)
    ensures
        r is Ok,
        match r {
            Ok(s) => (spec_pack_to_vec::<Message<OpaqueBytes>>(
                spec_null_command(destination, server, kind),
            ) matches Ok(b) && s@ == spec_hex(b)),
            Err(e) => spec_pack_to_vec::<Message<OpaqueBytes>>(
                spec_null_command(destination, server, kind),
            ) == Err::<Seq<u8>, PackingError>(e),
        },
{
    let header = Header {
        magic: Magic,
        destination,
        timestamp: MissionEpoch::new(0),
        seq: 0,
        ty: RequestMeta {
            disposition: Disposition::Command,
            request_was_invalid: false,
            server,
            conversation_type: kind,
        },
    };
    let msg: Message<OpaqueBytes> = Message::new(header, Vec::new());
    assert(msg@ == spec_null_command(destination, server, kind));
    let packed = pack_to_vec(&msg)?;
    Ok(hex_encode(packed.as_slice()))
}

/// The hex text of a frontend command, as the rover sends it.
pub fn mk_fe_command(kind: Conversation) -> (r: Result<String, PackingError>)
    ensures
        r is Ok,
        match r {
            Ok(s) => (spec_pack_to_vec::<Message<OpaqueBytes>>(
                spec_null_command(Destination::Frontend, Server::Frontend, kind),
            ) matches Ok(b) && s@ == spec_hex(b)),
            Err(e) => spec_pack_to_vec::<Message<OpaqueBytes>>(
                spec_null_command(Destination::Frontend, Server::Frontend, kind),
            ) == Err::<Seq<u8>, PackingError>(e),
        },
{
    null_command_hex(Destination::Frontend, Server::Frontend, kind)
}

/// The hex text of an ant command.
pub fn mk_ant_command(kind: Conversation) -> (r: Result<String, PackingError>)
    ensures
        r is Ok,
        match r {
            Ok(s) => (spec_pack_to_vec::<Message<OpaqueBytes>>(
                spec_null_command(Destination::Ant, Server::Ant, kind),
            ) matches Ok(b) && s@ == spec_hex(b)),
            Err(e) => spec_pack_to_vec::<Message<OpaqueBytes>>(
                spec_null_command(Destination::Ant, Server::Ant, kind),
            ) == Err::<Seq<u8>, PackingError>(e),
        },
{
    null_command_hex(Destination::Ant, Server::Ant, kind)
}

} // verus!

verus! {

/// Whether a character is a hexadecimal digit, in either case.
pub open spec fn spec_is_hex_digit(c: char) -> bool {
    ('0' <= c && c <= '9') || ('a' <= c && c <= 'f') || ('A' <= c && c <= 'F')
}

/// The value of a hexadecimal digit.
pub open spec fn spec_hex_value(c: char) -> int {
    if '0' <= c && c <= '9' {
        c as int - 48
    } else if 'a' <= c && c <= 'f' {
        c as int - 87
    } else {
        c as int - 55
    }
}

/// Text that is hexadecimal digits, two per byte.
pub open spec fn spec_is_hex_text(t: Seq<char>) -> bool {
    t.len() % 2 == 0 && forall|i: int| 0 <= i < t.len() ==> #[trigger] spec_is_hex_digit(t[i])
}

/// The bytes that hexadecimal text stands for, high digit first.
pub open spec fn spec_hex_bytes(t: Seq<char>) -> Seq<u8> {
    Seq::new(t.len() / 2, |i: int| (spec_hex_value(t[2 * i]) * 16 + spec_hex_value(t[2 * i + 1])) as u8)
}

/// Hexadecimal text with its upper-case digits made lower-case.
pub open spec fn spec_lowercase_hex(t: Seq<char>) -> Seq<char> {
    t.map_values(|c: char| if 'A' <= c && c <= 'F' { (c as int + 32) as char } else { c })
}

/// Calls `hex::decode`. Claimed: it fails exactly when the text is not an
/// even number of hexadecimal digits (of either case), and otherwise gives
/// one byte per pair of digits, high digit first.
#[verifier::external_body]
fn hex_decode(text: &str) -> (r: Option<Vec<u8>>)
    ensures
        r is Some <==> spec_is_hex_text(text@),
        r matches Some(b) ==> b@ == spec_hex_bytes(text@),
{
    hex::decode(text).ok()
}

/// The lower-case hexadecimal text of the bytes that hexadecimal text
/// stands for is the text itself, made lower-case.
pub proof fn lemma_hex_of_hex_bytes(t: Seq<char>)
    requires
        spec_is_hex_text(t),
    ensures
        spec_hex(spec_hex_bytes(t)) == spec_lowercase_hex(t),
    decreases t.len(),
{
    if t.len() > 0 {
        let front = t.take(t.len() - 2);
        assert(spec_is_hex_text(front)) by {
            assert forall|i: int| 0 <= i < front.len() implies #[trigger] spec_is_hex_digit(front[i]) by {
                assert(spec_is_hex_digit(t[i]));
            }
        }
        lemma_hex_of_hex_bytes(front);
        let b = spec_hex_bytes(t);
        assert(b.drop_last() =~= spec_hex_bytes(front));
        let hi = t[t.len() - 2];
        let lo = t[t.len() - 1];
        assert(spec_is_hex_digit(hi));
        assert(spec_is_hex_digit(lo));
        let v = spec_hex_value(hi) * 16 + spec_hex_value(lo);
        assert(0 <= spec_hex_value(hi) < 16 && 0 <= spec_hex_value(lo) < 16);
        assert(b.last() == v as u8);
        assert(v / 16 == spec_hex_value(hi) && v % 16 == spec_hex_value(lo)) by (nonlinear_arith)
            requires
                v == spec_hex_value(hi) * 16 + spec_hex_value(lo),
                0 <= spec_hex_value(hi) < 16,
                0 <= spec_hex_value(lo) < 16,
        ;
        assert(spec_lowercase_hex(t) =~= spec_lowercase_hex(front) + seq![
            spec_hex_digit((b.last() / 16) as nat),
            spec_hex_digit((b.last() % 16) as nat),
        ]);
    } else {
        assert(spec_lowercase_hex(t) =~= Seq::<char>::empty());
        assert(spec_hex_bytes(t) =~= Seq::<u8>::empty());
    }
}

/// The bytes that a hexadecimal literal typed at the serial console stands
/// for: `None` exactly when the text is not an even number of hexadecimal
/// digits.
pub fn parse_literal(value: &str) -> (r: Option<Vec<u8>>)
    ensures
        r is None <==> !spec_is_hex_text(value@),
        r matches Some(b) ==> b@ == spec_hex_bytes(value@) && spec_hex(b@) == spec_lowercase_hex(
            value@,
        ),
{
    let r = hex_decode(value);
    proof {
        if spec_is_hex_text(value@) {
            lemma_hex_of_hex_bytes(value@);
        }
    }
    r
}

} // verus!

verus! {

/// Failures of reading a downlink packet given to the decoder.
#[derive(Clone, Copy, Debug, PartialEq, Eq, Structural)]
pub enum DecodeError {
    /// Text input is not UTF-8.
    NotUtf8,
    /// Hex input is not an even number of hexadecimal digits.
    Hex,
    /// Base64 input is not valid base64.
    Base64,
    /// The packet is not a Brotli stream.
    Decompression,
}

/// Calls `std::str::from_utf8`. Claimed: it succeeds exactly on valid UTF-8,
/// and the text's encoding is the bytes.
#[verifier::external_body]
fn str_from_utf8(bytes: &[u8]) -> (r: Option<&str>)
    ensures
        r is Some <==> vstd::utf8::valid_utf8(bytes@),
        r matches Some(s) ==> encode_utf8(s@) == bytes@,
{
    std::str::from_utf8(bytes).ok()
}

/// The bytes that standard base64 text (with padding) stands for, or `None`
/// where the text is not valid standard base64.
pub uninterp spec fn base64_decoded(text: Seq<char>) -> Option<Seq<u8>>;

/// Calls `decode` of `base64::engine::general_purpose::STANDARD`. Claimed:
/// the result depends on the text alone.
#[verifier::external_body]
fn base64_decode(text: &str) -> (r: Option<Vec<u8>>)
    ensures
        r is None <==> base64_decoded(text@) is None,
        r matches Some(b) ==> base64_decoded(text@) == Some(b@),
{
    base64::engine::general_purpose::STANDARD.decode(text).ok()
}

/// Whether a character has the Unicode `White_Space` property.
pub open spec fn spec_is_whitespace(c: char) -> bool {
    let n = c as int;
    (0x09 <= n <= 0x0d) || n == 0x20 || n == 0x85 || n == 0xa0 || n == 0x1680 || (0x2000 <= n
        <= 0x200a) || n == 0x2028 || n == 0x2029 || n == 0x202f || n == 0x205f || n == 0x3000
}

/// The number of leading whitespace characters of a text.
pub open spec fn spec_leading_ws(t: Seq<char>) -> nat
    decreases t.len(),
{
    if t.len() > 0 && spec_is_whitespace(t[0]) {
        1 + spec_leading_ws(t.drop_first())
    } else {
        0
    }
}

/// The number of trailing whitespace characters of a text.
pub open spec fn spec_trailing_ws(t: Seq<char>) -> nat
    decreases t.len(),
{
    if t.len() > 0 && spec_is_whitespace(t.last()) {
        1 + spec_trailing_ws(t.drop_last())
    } else {
        0
    }
}

/// A text without its leading and trailing whitespace.
pub open spec fn spec_trim(t: Seq<char>) -> Seq<char> {
    let s = t.skip(spec_leading_ws(t) as int);
    s.take(s.len() - spec_trailing_ws(s))
}

/// The separators that hex input may hold between its digits.
pub open spec fn spec_is_separator(c: char) -> bool {
    c == ' ' || c == '\t' || c == '\n' || c == '\r'
}

/// A text without its separators.
pub open spec fn spec_strip_separators(t: Seq<char>) -> Seq<char>
    decreases t.len(),
{
    if t.len() == 0 {
        t
    } else if spec_is_separator(t.last()) {
        spec_strip_separators(t.drop_last())
    } else {
        spec_strip_separators(t.drop_last()).push(t.last())
    }
}

proof fn lemma_leading_ws(t: Seq<char>, i: int)
    requires
        0 <= i <= t.len(),
        forall|j: int| 0 <= j < i ==> #[trigger] spec_is_whitespace(t[j]),
        i == t.len() || !spec_is_whitespace(t[i]),
    ensures
        spec_leading_ws(t) == i,
    decreases i,
{
    if i > 0 {
        let d = t.drop_first();
        assert forall|j: int| 0 <= j < i - 1 implies #[trigger] spec_is_whitespace(d[j]) by {
            assert(spec_is_whitespace(t[j + 1]));
        }
        assert(i - 1 == d.len() || d[i - 1] == t[i]);
        lemma_leading_ws(d, i - 1);
    }
}

proof fn lemma_trailing_ws(t: Seq<char>, k: int)
    requires
        0 <= k <= t.len(),
        forall|j: int| t.len() - k <= j < t.len() ==> #[trigger] spec_is_whitespace(t[j]),
        k == t.len() || !spec_is_whitespace(t[t.len() - k - 1]),
    ensures
        spec_trailing_ws(t) == k,
    decreases k,
{
    if k > 0 {
        let d = t.drop_last();
        assert forall|j: int| d.len() - (k - 1) <= j < d.len() implies #[trigger] spec_is_whitespace(d[j]) by {
            assert(spec_is_whitespace(t[j]));
        }
        assert(spec_is_whitespace(t[t.len() - 1]));
        lemma_trailing_ws(d, k - 1);
    }
}

/// Whether a character has the Unicode `White_Space` property, as
/// `char::is_whitespace` decides.
fn is_whitespace(c: char) -> (r: bool)
    ensures
        r == spec_is_whitespace(c),
{
    let n = c as u32;
    (0x09 <= n && n <= 0x0d) || n == 0x20 || n == 0x85 || n == 0xa0 || n == 0x1680 || (0x2000 <= n
        && n <= 0x200a) || n == 0x2028 || n == 0x2029 || n == 0x202f || n == 0x205f || n == 0x3000
}

/// A text without its leading and trailing whitespace, as `str::trim` gives it.
pub fn trim(s: &str) -> (r: &str)
    ensures
        r@ == spec_trim(s@),
{
    let n = s.unicode_len();
    let mut i: usize = 0;
    while i < n && is_whitespace(s.get_char(i))
        invariant
            n == s@.len(),
            0 <= i <= n,
            forall|j: int| 0 <= j < i ==> #[trigger] spec_is_whitespace(s@[j]),
        decreases n - i,
    {
        i = i + 1;
    }
    proof {
        lemma_leading_ws(s@, i as int);
    }
    let mut k: usize = 0;
    while k < n - i && is_whitespace(s.get_char(n - 1 - k))
        invariant
            n == s@.len(),
            0 <= i <= n,
            0 <= k <= n - i,
            forall|j: int| n - k <= j < n ==> #[trigger] spec_is_whitespace(s@[j]),
        decreases n - i - k,
    {
        k = k + 1;
    }
    proof {
        let rest = s@.skip(i as int);
        assert forall|j: int| rest.len() - k <= j < rest.len() implies #[trigger] spec_is_whitespace(
            rest[j],
        ) by {
            assert(rest[j] == s@[i + j]);
        }
        if k < rest.len() {
            assert(rest[rest.len() - k - 1] == s@[n - 1 - k]);
        }
        lemma_trailing_ws(rest, k as int);
        assert(rest.take(rest.len() - k) =~= s@.subrange(i as int, (n - k) as int));
    }
    s.substring_char(i, n - k)
}

/// A text without the separators that hex input may hold.
pub fn strip_separators(s: &str) -> (r: String)
    ensures
        r@ == spec_strip_separators(s@),
{
    let n = s.unicode_len();
    let mut out = String::new();
    let mut i: usize = 0;
    while i < n
        invariant
            n == s@.len(),
            0 <= i <= n,
            out@ == spec_strip_separators(s@.take(i as int)),
        decreases n - i,
    {
        let c = s.get_char(i);
        proof {
            let t = s@.take(i + 1);
            assert(t.drop_last() =~= s@.take(i as int));
            assert(t.last() == c);
        }
        if !(c == ' ' || c == '\t' || c == '\n' || c == '\r') {
            out.append(s.substring_char(i, i + 1));
            assert(s@.subrange(i as int, i + 1) =~= seq![c]);
        }
        i = i + 1;
    }
    assert(s@.take(n as int) =~= s@);
    out
}

/// The packet bytes that the downlink decoder reads from its input: hex
/// text (whitespace around it and separators inside it ignored), standard
/// base64 text (whitespace around it ignored), or the raw bytes.
pub open spec fn spec_downlink_input_bytes(mode: Mode, input: Seq<u8>) -> Result<Seq<u8>, DecodeError> {
    if mode.hex || mode.base64 {
        if !vstd::utf8::valid_utf8(input) {
            Err(DecodeError::NotUtf8)
        } else if mode.hex {
            let t = spec_strip_separators(spec_trim(vstd::utf8::decode_utf8(input)));
            if spec_is_hex_text(t) {
                Ok(spec_hex_bytes(t))
            } else {
                Err(DecodeError::Hex)
            }
        } else {
            match base64_decoded(spec_trim(vstd::utf8::decode_utf8(input))) {
                Some(b) => Ok(b),
                None => Err(DecodeError::Base64),
            }
        }
    } else {
        Ok(input)
    }
}

/// A downlink packet as the decoder is given it, decoded from its text
/// form and decompressed.
pub fn decode_downlink_input(mode: &Mode, input: &[u8]) -> (r: Result<Vec<u8>, DecodeError>)
    ensures
        match spec_downlink_input_bytes(*mode, input@) {
            Err(e) => r == Err::<Vec<u8>, DecodeError>(e),
            Ok(b) => match brotli_decompressed(b) {
                Some(d) => r matches Ok(v) && v@ == d,
                None => r == Err::<Vec<u8>, DecodeError>(DecodeError::Decompression),
            },
        },
{
    let packet: Vec<u8> = if mode.hex || mode.base64 {
        let text = match str_from_utf8(input) {
            Some(t) => t,
            None => return Err(DecodeError::NotUtf8),
        };
        proof {
            vstd::utf8::encode_utf8_decode_utf8(text@);
        }
        let trimmed = trim(text);
        if mode.hex {
            let digits = strip_separators(trimmed);
            match hex_decode(digits.as_str()) {
                Some(b) => b,
                None => return Err(DecodeError::Hex),
            }
        } else {
            match base64_decode(trimmed) {
                Some(b) => b,
                None => return Err(DecodeError::Base64),
            }
        }
    } else {
        vstd::slice::slice_to_vec(input)
    };
    match brotli_decompress(packet.as_slice()) {
        Ok(v) => Ok(v),
        Err(_) => Err(DecodeError::Decompression),
    }
}

} // verus!

verus! {

proof fn lemma_leading_ws_shape(t: Seq<char>)
    ensures
        spec_leading_ws(t) <= t.len(),
        forall|j: int| 0 <= j < spec_leading_ws(t) ==> #[trigger] spec_is_whitespace(t[j]),
        spec_leading_ws(t) == t.len() || !spec_is_whitespace(t[spec_leading_ws(t) as int]),
    decreases t.len(),
{
    if t.len() > 0 && spec_is_whitespace(t[0]) {
        let d = t.drop_first();
        lemma_leading_ws_shape(d);
        assert forall|j: int| 0 <= j < spec_leading_ws(t) implies #[trigger] spec_is_whitespace(t[j]) by {
            if j > 0 {
                assert(t[j] == d[j - 1]);
            }
        }
    }
}

/// Trimming ignores any of the ASCII whitespace characters (tab, line feed,
/// vertical tab, form feed, carriage return, space) at either end, as
/// `str::trim` does: so text ending in a CR LF line break trims to the same
/// as the text without it.
pub proof fn lemma_trim_ignores_ascii_whitespace(t: Seq<char>, c: char)
    requires
        c == '\t' || c == '\n' || c == '\x0B' || c == '\x0C' || c == '\r' || c == ' ',
    ensures
        spec_trim(t.push(c)) == spec_trim(t),
        spec_trim(seq![c] + t) == spec_trim(t),
        spec_trim(t + seq!['\r', '\n']) == spec_trim(t),
{
    lemma_trim_ignores_ascii_whitespace_end(t, c);
    let u = seq![c] + t;
    assert(u.drop_first() =~= t);
    assert(spec_leading_ws(u) == 1 + spec_leading_ws(t));
    lemma_leading_ws_shape(t);
    assert(u.skip(spec_leading_ws(u) as int) =~= t.skip(spec_leading_ws(t) as int));
    lemma_trim_ignores_ascii_whitespace_end(t, '\r');
    lemma_trim_ignores_ascii_whitespace_end(t.push('\r'), '\n');
    assert(t + seq!['\r', '\n'] =~= t.push('\r').push('\n'));
}

proof fn lemma_trailing_ws_bound(t: Seq<char>)
    ensures
        spec_trailing_ws(t) <= t.len(),
    decreases t.len(),
{
    if t.len() > 0 {
        lemma_trailing_ws_bound(t.drop_last());
    }
}

proof fn lemma_trim_ignores_ascii_whitespace_end(t: Seq<char>, c: char)
    requires
        c == '\t' || c == '\n' || c == '\x0B' || c == '\x0C' || c == '\r' || c == ' ',
    ensures
        spec_trim(t.push(c)) == spec_trim(t),
{
    assert(spec_is_whitespace(c));
    let l = spec_leading_ws(t);
    lemma_leading_ws_shape(t);
    let u = t.push(c);
    if l < t.len() {
        assert forall|j: int| 0 <= j < l implies #[trigger] spec_is_whitespace(u[j]) by {
            assert(u[j] == t[j]);
        }
        assert(u[l as int] == t[l as int]);
        lemma_leading_ws(u, l as int);
        let s = t.skip(l as int);
        let su = u.skip(l as int);
        assert(su =~= s.push(c));
        assert(su.drop_last() =~= s);
        assert(spec_trailing_ws(su) == 1 + spec_trailing_ws(s));
        lemma_trailing_ws_bound(s);
        assert(su.take(su.len() - spec_trailing_ws(su)) =~= s.take(s.len() - spec_trailing_ws(s)));
    } else {
        assert forall|j: int| 0 <= j < u.len() implies #[trigger] spec_is_whitespace(u[j]) by {
            if j < t.len() {
                assert(u[j] == t[j]);
            }
        }
        lemma_leading_ws(u, u.len() as int);
        assert(u.skip(u.len() as int) =~= Seq::<char>::empty());
        assert(t.skip(t.len() as int) =~= Seq::<char>::empty());
    }
}

} // verus!

verus! {

/// Trimming keeps a printable ASCII character (anything from `!` to `~`) at
/// the end of the text: it ends the trimmed text.
pub proof fn lemma_trim_keeps_printable_end(t: Seq<char>, c: char)
    requires
        0x21 <= c as int <= 0x7e,
    ensures
        spec_trim(t.push(c)).len() > 0,
        spec_trim(t.push(c)).last() == c,
{
    let u = t.push(c);
    let l = spec_leading_ws(t);
    lemma_leading_ws_shape(t);
    lemma_leading_ws_shape(u);
    if l < t.len() {
        assert forall|j: int| 0 <= j < l implies #[trigger] spec_is_whitespace(u[j]) by {
            assert(u[j] == t[j]);
        }
        assert(u[l as int] == t[l as int]);
        lemma_leading_ws(u, l as int);
    } else {
        assert forall|j: int| 0 <= j < t.len() implies #[trigger] spec_is_whitespace(u[j]) by {
            assert(u[j] == t[j]);
        }
        lemma_leading_ws(u, t.len() as int);
    }
    let su = u.skip(spec_leading_ws(u) as int);
    assert(su.len() > 0);
    assert(su.last() == c);
    assert(spec_trailing_ws(su) == 0);
    assert(su.take(su.len() as int) =~= su);
}

} // verus!
