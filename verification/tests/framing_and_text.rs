use antrelay::console::{bytes_format, mk_ant_command, mk_fe_command, msg_format};
use antrelay::downlink::{
    cobs_frame, decode_serial_frame_cobs, first_success, frame_uplink_for_serial,
    pack_downlink_message, unframe_serial_message, unframe_serial_message_cobs, FrameError,
    SerialReadError,
};
use antrelay::message::header::{
    Conversation, Destination, Disposition, Header, Magic, RequestMeta, Server,
};
use antrelay::message::{pack_to_vec, Message, MissionEpoch, OpaqueBytes};
use antrelay::stream_monad::{
    BrotliCompress, BrotliDecompress, Compose, Identity, MaxQuality, SlicePack, SliceUnpack,
    StreamCodec,
};
use antrelay::trace::{truncate, MAX_STR};

fn header(seq: u8, secs: u32) -> Header {
    Header {
        magic: Magic,
        destination: Destination::Ground,
        timestamp: MissionEpoch::new(secs),
        seq,
        ty: RequestMeta {
            disposition: Disposition::Ack,
            request_was_invalid: true,
            server: Server::Frontend,
            conversation_type: Conversation::Ping,
        },
    }
}

#[test]
fn truncate_keeps_the_first_characters() {
    assert_eq!(truncate(""), "");
    assert_eq!(truncate("short"), "short");
    let long: String = std::iter::repeat('x').take(100).collect();
    assert_eq!(truncate(&long).chars().count(), MAX_STR);
    let mut wide: String = std::iter::repeat('é').take(63).collect();
    wide.push('x');
    wide.push_str("ééé");
    let t = truncate(&wide);
    assert_eq!(t.chars().count(), 64);
    assert!(t.ends_with('x'));
    assert!(wide.starts_with(t));
    let short_wide = "aé!";
    assert_eq!(truncate(short_wide), "aé!");
}

#[test]
fn brotli_codecs_round_trip() {
    let data = vec![7u8; 1000];
    let compressed = <BrotliCompress<MaxQuality> as StreamCodec>::encode(data.clone()).unwrap();
    assert!(compressed.len() < data.len());
    let back = <BrotliDecompress<MaxQuality> as StreamCodec>::encode(compressed).unwrap();
    assert_eq!(back, data);
    assert!(<BrotliDecompress<MaxQuality> as StreamCodec>::encode(vec![0xff, 0xff, 0xff]).is_err());
}

#[test]
fn identity_and_packing_codecs() {
    assert_eq!(<Identity<u8> as StreamCodec>::encode(5), Ok(5));
    let m: Message<OpaqueBytes> = Message::new(header(1, 2), vec![9]);
    let bytes = <SlicePack<Message<OpaqueBytes>> as StreamCodec>::encode(m.clone()).unwrap();
    assert_eq!(bytes, pack_to_vec(&m).unwrap());
    let back = <SliceUnpack<Message<OpaqueBytes>> as StreamCodec>::encode(bytes.clone()).unwrap();
    assert_eq!(back.header, m.header);
    let composed =
        <Compose<Identity<Message<OpaqueBytes>>, SlicePack<Message<OpaqueBytes>>> as StreamCodec>::encode(m)
            .unwrap();
    assert_eq!(composed, bytes);
}

#[test]
fn downlink_message_is_packed_framed_and_compressed() {
    let m: Message<OpaqueBytes> = Message::new(header(3, 4), vec![1, 2, 3]);
    let out = pack_downlink_message(&m).unwrap();
    let plain = <BrotliDecompress<MaxQuality> as StreamCodec>::encode(out).unwrap();
    let packed = pack_to_vec(&m).unwrap();
    let mut expected = vec![packed.len() as u8];
    expected.extend_from_slice(&packed);
    assert_eq!(plain, expected);
}

#[test]
fn downlink_framing_of_long_vectors_uses_varint_length() {
    let m: Message<OpaqueBytes> = Message::new(header(3, 4), vec![0xab; 200]);
    let out = pack_downlink_message(&m).unwrap();
    let plain = <BrotliDecompress<MaxQuality> as StreamCodec>::encode(out).unwrap();
    assert_eq!(&plain[..2], &[209 % 128 + 128, 209 / 128]);
    assert_eq!(plain.len(), 2 + 209);
}

#[test]
fn uplink_framing_for_serial() {
    let framed = frame_uplink_for_serial(&[1, 2, 3]).unwrap();
    assert_eq!(framed, vec![5, 3, 1, 2, 3, 0]);
    let mut buf = framed.clone();
    assert_eq!(unframe_serial_message_cobs(&mut buf).unwrap(), vec![1, 2, 3]);
    let mut bad = vec![9u8, 1, 0];
    assert_eq!(unframe_serial_message_cobs(&mut bad), Err(FrameError::Serialization));
    assert_eq!(unframe_serial_message(&[4, 5]), vec![4, 5]);
}

#[test]
fn cobs_frames_of_messages() {
    assert_eq!(cobs_frame(&[1, 0, 2]), vec![2, 1, 2, 2, 0]);
    let m: Message<OpaqueBytes> = Message::new(header(0, 0), vec![0, 1]);
    let packed = pack_to_vec(&m).unwrap();
    let mut frame = cobs_frame(&packed);
    frame.pop();
    let back = decode_serial_frame_cobs(&mut frame, 0).unwrap();
    assert_eq!(back.header, m.header);
    assert_eq!(back.payload.payload, vec![0, 1]);
    let mut garbage = vec![5u8, 1];
    assert_eq!(decode_serial_frame_cobs(&mut garbage, 0).err(), Some(SerialReadError::Cobs));
    let mut short = cobs_frame(&[1, 2, 3]);
    assert!(matches!(decode_serial_frame_cobs(&mut short, 0), Err(SerialReadError::Packing(_))));
}

#[test]
fn first_success_of_three() {
    let e: Result<u8, &str> = Err("a");
    assert_eq!(first_success(e, Ok(2), Ok(3)), Ok(2));
    assert_eq!(first_success(Ok(1), Err("b"), Err("c")), Ok(1));
    assert_eq!(first_success::<u8, &str>(Err("a"), Err("b"), Err("c")), Err("c"));
}

#[test]
fn header_display_text() {
    let h = header(42, 0);
    assert_eq!(h.display(), "\"Ping[Ack][Invalid]\" Frontend -> Ground @ 1970-01-01 00:00:00 UTC [42]");
    let mut h2 = h;
    h2.ty.disposition = Disposition::Command;
    h2.ty.request_was_invalid = false;
    h2.seq = 255;
    h2.timestamp = MissionEpoch::new(86400 + 3661);
    assert_eq!(h2.display(), "\"Ping\" Frontend -> Ground @ 1970-01-02 01:01:01 UTC [255]");
    h2.seq = 7;
    assert!(h2.display().ends_with("[7]"));
}

#[test]
fn console_entries() {
    assert_eq!(bytes_format("UPLINK (BYTES)", &[0xde, 0xad]), b"UPLINK (BYTES)\n\t0xdead\n".to_vec());
    let long = bytes_format("X", &[0x11; 40]);
    let text = String::from_utf8(long).unwrap();
    assert_eq!(text, format!("X\n\t0x{}...<trunc>\n", "11".repeat(30)));
    let m: Message<OpaqueBytes> = Message::new(header(1, 0), vec![0xab]);
    let entry = String::from_utf8(msg_format("SERIAL UP (MSG)", &m)).unwrap();
    assert_eq!(entry, format!("SERIAL UP (MSG)\n\t{}/ab\n", m.header.display()));
}

#[test]
fn rover_command_hex() {
    let fe = mk_fe_command(Conversation::PowerSupplied).unwrap();
    assert_eq!(&fe[..16], "eb90000000000026");
    assert_eq!(fe.len(), 18);
    let ant = mk_ant_command(Conversation::Start).unwrap();
    assert_eq!(&ant[..16], "eb92000000000002");
    assert_eq!(&ant[16..], "00");
}
