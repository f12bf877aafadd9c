use antrelay::console::{
    decode_downlink_input, parse_literal, strip_separators, trim, DecodeError, Mode,
};
use antrelay::downlink::{cobs_frame, decode_serial_frame_cobs, mock_rover_frame};
use antrelay::message::header::Header;
use antrelay::message::{pack_to_vec, Message, OpaqueBytes};
use antrelay::io::{split_initial_buffer_cobs, split_step_cobs, SplitOutcome};
use antrelay::message::checksum::{size, Checksum, StandardCRC};
use antrelay::message::header::{Conversation, Destination, Server};
use antrelay::message::MissionEpoch;
use antrelay::relay::idle_status;
use antrelay::stream_monad::{BrotliCompress, MaxQuality, StreamCodec};
use antrelay::util::PacketEnv;
use base64::Engine;

#[test]
fn literals_are_hex_of_either_case() {
    assert_eq!(parse_literal("00ff10"), Some(vec![0x00, 0xff, 0x10]));
    assert_eq!(parse_literal("ABcd"), Some(vec![0xab, 0xcd]));
    assert_eq!(parse_literal(""), Some(vec![]));
    assert_eq!(parse_literal("abc"), None);
    assert_eq!(parse_literal("zz"), None);
    assert_eq!(parse_literal("0x12"), None);
}

#[test]
fn trimming_and_separators() {
    assert_eq!(trim("  \t ab c \n"), "ab c");
    assert_eq!(trim("\u{3000}x\u{a0}"), "x");
    assert_eq!(trim("   "), "");
    assert_eq!(strip_separators("a b\tc\nd\re f"), "abcdef");
}

fn compressed(data: &[u8]) -> Vec<u8> {
    <BrotliCompress<MaxQuality> as StreamCodec>::encode(data.to_vec()).unwrap()
}

#[test]
fn downlink_input_in_each_mode() {
    let payload = b"downlinked".to_vec();
    let packet = compressed(&payload);

    let raw = Mode { hex: false, base64: false };
    assert_eq!(decode_downlink_input(&raw, &packet), Ok(payload.clone()));

    let hex_text = hex::encode(&packet);
    let spaced: String = hex_text
        .as_bytes()
        .chunks(2)
        .map(|c| std::str::from_utf8(c).unwrap())
        .collect::<Vec<_>>()
        .join(" \n");
    let input = format!("  {}\r\n", spaced.to_uppercase());
    let hex = Mode { hex: true, base64: false };
    assert_eq!(decode_downlink_input(&hex, input.as_bytes()), Ok(payload.clone()));

    let b64 = Mode { hex: false, base64: true };
    let text = format!("\n{}\n", base64::engine::general_purpose::STANDARD.encode(&packet));
    assert_eq!(decode_downlink_input(&b64, text.as_bytes()), Ok(payload.clone()));

    let both = Mode { hex: true, base64: true };
    assert_eq!(decode_downlink_input(&both, hex_text.as_bytes()), Ok(payload));
}

#[test]
fn downlink_input_errors() {
    let hex = Mode { hex: true, base64: false };
    assert_eq!(decode_downlink_input(&hex, &[0xff, 0xfe]), Err(DecodeError::NotUtf8));
    assert_eq!(decode_downlink_input(&hex, b"abc"), Err(DecodeError::Hex));
    let b64 = Mode { hex: false, base64: true };
    assert_eq!(decode_downlink_input(&b64, b"!!!"), Err(DecodeError::Base64));
    let raw = Mode { hex: false, base64: false };
    assert_eq!(decode_downlink_input(&raw, &[0xff, 0xff, 0xff]), Err(DecodeError::Decompression));
}

#[test]
fn mock_rover_frames_decode_to_its_report() {
    let mut env = PacketEnv::new(MissionEpoch::new(77));
    let mut frame = mock_rover_frame(&mut env);
    assert_eq!(frame.last(), Some(&0));
    assert!(frame[..frame.len() - 1].iter().all(|b| *b != 0));
    assert_eq!(env.seq, 1);
    let m = decode_serial_frame_cobs(&mut frame, 0).unwrap();
    assert_eq!(m.header.destination, Destination::CentralStation);
    assert_eq!(m.header.ty.server, Server::Rover);
    assert_eq!(m.header.ty.conversation_type, Conversation::PowerSupplied);
    assert_eq!(m.header.timestamp, MissionEpoch::new(77));
    assert_eq!(m.header.seq, 0);
    assert_eq!(m.payload.payload, b"test".to_vec());
}

#[test]
fn cobs_splitting_empties_the_buffer() {
    let sentinel = [0u8];
    let mut buf = split_initial_buffer_cobs();
    assert!(buf.is_empty());
    buf.extend_from_slice(&[3, 1, 2]);
    assert!(matches!(split_step_cobs(&mut buf, &sentinel, 3), SplitOutcome::NeedMore));
    buf.push(0);
    match split_step_cobs(&mut buf, &sentinel, 1) {
        SplitOutcome::Packet(p) => assert_eq!(p, vec![3, 1, 2]),
        _ => panic!("expected a packet"),
    }
    assert!(buf.is_empty());
    assert!(matches!(split_step_cobs(&mut buf, &sentinel, 0), SplitOutcome::End));
}

#[test]
fn idle_status_is_all_zero() {
    assert_eq!(idle_status(), vec![0, 0, 0]);
}

#[test]
fn checksum_bytes_read_back() {
    let bytes = StandardCRC::checksum_array(b"123456789");
    assert_eq!(bytes.as_slice().len(), size::<StandardCRC>());
    assert_eq!(size::<StandardCRC>(), 1);
    assert_eq!(bytes.as_slice()[0], StandardCRC::checksum(b"123456789"));
}

#[test]
fn serial_frames_survive_splitting_and_decoding() {
    let mut env = PacketEnv::new(MissionEpoch::new(5));
    let m: Message<OpaqueBytes> =
        Message::new(Header::cs_command(&mut env, Conversation::Start), vec![0, 7, 0, 9]);
    let frame = cobs_frame(&pack_to_vec(&m).unwrap());
    let sentinel = [0u8];
    let mut buf = split_initial_buffer_cobs();
    let mut packets = vec![];
    for b in &frame {
        buf.push(*b);
        if let SplitOutcome::Packet(p) = split_step_cobs(&mut buf, &sentinel, 1) {
            packets.push(p);
        }
    }
    assert_eq!(packets.len(), 1);
    let back = decode_serial_frame_cobs(&mut packets[0], 0).unwrap();
    assert_eq!(back.header, m.header);
    assert_eq!(back.payload.payload, vec![0, 7, 0, 9]);
}
