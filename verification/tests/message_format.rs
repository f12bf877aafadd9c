use antrelay::message::ack::Ack;
use antrelay::message::checksum::{size, Checksum, StandardCRC};
use antrelay::message::header::{
    Conversation, Destination, Disposition, Header, Magic, RequestMeta, Server,
};
use antrelay::message::header_packet::HeaderPacket;
use antrelay::message::payload::Payload;
use antrelay::message::{pack_to_vec, CRCWrap, Message, MissionEpoch, OpaqueBytes, PackedStructSlice, PackingError, UniqueId};
use antrelay::util::PacketEnv;

fn sample_header() -> Header {
    Header {
        magic: Magic,
        destination: Destination::Ground,
        timestamp: MissionEpoch::new(0x0102_0304),
        seq: 7,
        ty: RequestMeta {
            disposition: Disposition::Ack,
            request_was_invalid: true,
            server: Server::CentralStation,
            conversation_type: Conversation::Calibrate,
        },
    }
}

#[test]
fn header_packs_to_known_bytes() {
    let bytes = sample_header().pack().unwrap();
    assert_eq!(bytes, [0xeb, 0xde, 0x04, 0x03, 0x02, 0x01, 7, 0xd3]);
}

#[test]
fn header_pack_unpack_equivalence() {
    let servers = [Server::Ant, Server::CentralStation, Server::Frontend, Server::Rover];
    let dests = [Destination::Frontend, Destination::CentralStation, Destination::Ant, Destination::Ground];
    let convs = [
        Conversation::Ping,
        Conversation::Start,
        Conversation::Calibrate,
        Conversation::RoverMoving,
        Conversation::RoverStopping,
        Conversation::PowerSupplied,
        Conversation::Relay,
        Conversation::GarageOpenPending,
    ];
    for s in servers {
        for d in dests {
            for c in convs {
                for disp in [Disposition::Command, Disposition::Ack] {
                    for inv in [false, true] {
                        let h = Header {
                            magic: Magic,
                            destination: d,
                            timestamp: MissionEpoch::new(0xdead_beef),
                            seq: 200,
                            ty: RequestMeta {
                                disposition: disp,
                                request_was_invalid: inv,
                                server: s,
                                conversation_type: c,
                            },
                        };
                        let packed = h.pack().unwrap();
                        assert_eq!(Header::unpack(&packed), Ok(h));
                    }
                }
            }
        }
    }
}

#[test]
fn header_unpack_pack_equivalence() {
    let mut count = 0;
    for b1 in [0x90u8, 0x91, 0x92, 0xde, 0x00, 0xeb] {
        for b7 in 0u8..=255 {
            let data = [0xeb, b1, 1, 2, 3, 4, 5, b7];
            if let Ok(h) = Header::unpack(&data) {
                assert_eq!(h.pack(), Ok(data));
                count += 1;
            }
        }
    }
    assert!(count > 0);
}

#[test]
fn header_server_beyond_two_bits_is_masked() {
    let mut h = sample_header();
    h.ty.server = Server::Lander;
    let packed = h.pack().unwrap();
    assert_eq!(packed[7] & 0x30, 0x00);
    assert_eq!(Header::unpack(&packed).unwrap().ty.server, Server::Ant);
}

#[test]
fn header_unpack_errors() {
    let good = sample_header().pack().unwrap();
    let mut bad_magic = good;
    bad_magic[0] = 0xea;
    assert_eq!(Header::unpack(&bad_magic), Err(PackingError::InvalidValue));
    let mut bad_dest = good;
    bad_dest[1] = 0x93;
    assert_eq!(Header::unpack(&bad_dest), Err(PackingError::InvalidValue));
    let mut bad_conv = good;
    bad_conv[7] = 0x0f;
    assert_eq!(Header::unpack(&bad_conv), Err(PackingError::InvalidValue));
    assert_eq!(
        <Header as PackedStructSlice>::unpack_from_slice(&good[..7]),
        Err(PackingError::BufferSizeMismatch { expected: 8, actual: 7 })
    );
    let mut out = [0u8; 9];
    assert_eq!(
        sample_header().pack_to_slice(&mut out),
        Err(PackingError::BufferSizeMismatch { expected: 8, actual: 9 })
    );
    assert_eq!(out, [0u8; 9]);
}

#[test]
fn request_meta_byte() {
    let m = RequestMeta::pong();
    assert_eq!(m.pack_byte(), 0x80 | 0x20 | 0x01);
    assert_eq!(RequestMeta::unpack_byte(0xa1), Ok(m));
}

#[test]
fn unique_id_of_header() {
    let h = sample_header();
    assert_eq!(h.unique_id(), UniqueId { timestamp: MissionEpoch::new(0x0102_0304), seq: 7 });
}

#[test]
fn header_constructors_stamp_and_count() {
    let mut env = PacketEnv::new(MissionEpoch::new(42));
    let a = Header::downlink(&mut env, Conversation::Relay);
    let b = Header::fe_command(&mut env, Conversation::Ping);
    let c = Header::cs_command(&mut env, Conversation::Start);
    let d = Header::ant_command(&mut env, Conversation::Calibrate);
    assert_eq!((a.seq, b.seq, c.seq, d.seq), (0, 1, 2, 3));
    assert_eq!(a.destination, Destination::Ground);
    assert_eq!(a.ty.server, Server::Frontend);
    assert_eq!(b.destination, Destination::CentralStation);
    assert_eq!(b.ty.server, Server::Frontend);
    assert_eq!(c.destination, Destination::CentralStation);
    assert_eq!(c.ty.server, Server::CentralStation);
    assert_eq!(d.destination, Destination::Ant);
    assert_eq!(d.ty.server, Server::Ant);
    assert_eq!(d.timestamp, MissionEpoch::new(42));
    assert_eq!(d.ty.disposition, Disposition::Command);
    assert!(!d.ty.request_was_invalid);
    assert_eq!(env.seq, 4);
}

#[test]
fn sequence_numbers_wrap() {
    let mut env = PacketEnv::default();
    env.seq = 255;
    assert_eq!(env.next_seq(), 255);
    assert_eq!(env.next_seq(), 0);
    env.set_clock(MissionEpoch::new(9));
    assert_eq!(env.now(), MissionEpoch::new(9));
}

#[test]
fn crc8_smbus_check_value() {
    assert_eq!(StandardCRC::checksum(b"123456789"), 0xf4);
    assert_eq!(StandardCRC::checksum(&[]), 0);
}

#[test]
fn checksum_array_is_the_checksum() {
    for data in [&b""[..], &b"a"[..], &b"hello world"[..], &[0xffu8; 40][..]] {
        let int = StandardCRC::checksum(data);
        let array = StandardCRC::checksum_array(data);
        assert_eq!(array.as_slice().len(), 1);
        assert_eq!(array.as_slice()[0], int);
    }
    assert_eq!(size::<StandardCRC>(), 1);
}

#[test]
fn payload_new_and_sizes() {
    let p = Payload::new(b"123456789".to_vec());
    assert_eq!(p.checksum, 0xf4);
    assert_eq!(p.bytes_size(), 10);
    assert_eq!(Payload::packed_bytes_size(Some(&p)), Ok(10));
    assert_eq!(Payload::packed_bytes_size(None), Err(PackingError::InstanceRequiredForSize));
}

#[test]
fn payload_pack_and_unpack() {
    let p = Payload::new(vec![1, 2, 3]);
    let mut small = [9u8; 3];
    assert_eq!(p.pack_to_slice(&mut small), Err(PackingError::BufferTooSmall));
    assert_eq!(small, [9u8; 3]);
    let mut out = [9u8; 6];
    assert_eq!(p.pack_to_slice(&mut out), Ok(()));
    assert_eq!(out, [1, 2, 3, 9, p.checksum, 9]);
    let back = Payload::unpack_from_slice(&[1, 2, 3, 0x55]).unwrap();
    assert_eq!(back.payload, vec![1, 2, 3]);
    assert_eq!(back.checksum, 0x55);
    assert_eq!(Payload::unpack_from_slice(&[]), Err(PackingError::BufferTooSmall));
}

#[test]
fn opaque_bytes_pack() {
    let v: OpaqueBytes = vec![4, 5];
    let mut out = [0u8; 3];
    assert_eq!(
        v.pack_to_slice(&mut out),
        Err(PackingError::BufferSizeMismatch { expected: 2, actual: 3 })
    );
    let mut out = [0u8; 2];
    assert_eq!(v.pack_to_slice(&mut out), Ok(()));
    assert_eq!(out, [4, 5]);
    assert_eq!(<Vec<u8> as PackedStructSlice>::unpack_from_slice(&[7, 8]), Ok(vec![7, 8]));
}

#[test]
fn ack_pack_unpack() {
    let a = Ack { timestamp: MissionEpoch::new(0x0a0b_0c0d), seq: 3, checksum: 0x44 };
    let bytes = pack_to_vec(&a).unwrap();
    assert_eq!(bytes, vec![0x0d, 0x0c, 0x0b, 0x0a, 3, 0x44, 0, 0]);
    assert_eq!(Ack::unpack_from_slice(&bytes), Ok(a));
    assert_eq!(Ack::unpack_from_slice(&[0x0d, 0x0c, 0x0b, 0x0a, 3, 0x44, 9, 9]), Ok(a));
    assert_eq!(
        Ack::unpack_from_slice(&bytes[..5]),
        Err(PackingError::BufferSizeMismatch { expected: 8, actual: 5 })
    );
}

#[test]
fn ack_matches_header() {
    let h = sample_header();
    let a = Ack { timestamp: h.timestamp, seq: h.seq, checksum: 0 };
    assert!(a.matches(&h));
    assert_eq!(a.unique_id(), h.unique_id());
    let other = Ack { seq: 8, ..a };
    assert!(!other.matches(&h));
}

#[test]
fn message_packs_header_payload_and_crc() {
    let h = sample_header();
    let m: Message<OpaqueBytes> = Message::new(h, b"123456789".to_vec());
    let bytes = pack_to_vec(&m).unwrap();
    let mut expected = h.pack().unwrap().to_vec();
    expected.extend_from_slice(b"123456789");
    expected.push(0xf4);
    assert_eq!(bytes, expected);
    let back = <Message<OpaqueBytes> as PackedStructSlice>::unpack_from_slice(&bytes).unwrap();
    assert_eq!(back.header, h);
    assert_eq!(back.payload.payload, b"123456789".to_vec());
    assert_eq!(HeaderPacket::<Header, OpaqueBytes>::header_bytes(), 8);
    assert_eq!(<Message<OpaqueBytes> as PackedStructSlice>::packed_bytes_size(Some(&m)), Ok(18));
}

#[test]
fn message_unpack_errors() {
    let h = sample_header();
    let m: Message<OpaqueBytes> = Message::new(h, vec![1, 2, 3]);
    let mut bytes = pack_to_vec(&m).unwrap();
    let last = bytes.len() - 1;
    bytes[last] ^= 0xff;
    assert_eq!(
        <Message<OpaqueBytes> as PackedStructSlice>::unpack_from_slice(&bytes).err(),
        Some(PackingError::InvalidValue)
    );
    assert_eq!(
        <Message<OpaqueBytes> as PackedStructSlice>::unpack_from_slice(&bytes[..5]).err(),
        Some(PackingError::BufferTooSmall)
    );
    assert_eq!(
        <Message<OpaqueBytes> as PackedStructSlice>::unpack_from_slice(&bytes[..8]).err(),
        Some(PackingError::BufferTooSmall)
    );
    let mut out = vec![0u8; 4];
    assert_eq!(m.pack_to_slice(&mut out), Err(PackingError::BufferTooSmall));
    let mut out = vec![0u8; 11];
    assert_eq!(
        m.pack_to_slice(&mut out),
        Err(PackingError::BufferSizeMismatch { expected: 4, actual: 3 })
    );
}

#[test]
fn payload_conversions() {
    let h = sample_header();
    let ack = Ack { timestamp: MissionEpoch::new(5), seq: 6, checksum: 7 };
    let m: Message<Ack> = Message::new(h, ack);
    let packed = m.payload_packed().unwrap();
    assert_eq!(packed.header, h);
    let mut expected = pack_to_vec(&ack).unwrap();
    expected.push(StandardCRC::checksum(&expected));
    assert_eq!(packed.payload, expected);
    let opaque: HeaderPacket<Header, CRCWrap<OpaqueBytes>> = m.payload_into::<CRCWrap<OpaqueBytes>>().unwrap();
    assert_eq!(opaque.payload.payload, pack_to_vec(&ack).unwrap());
    let again: Message<Ack> = opaque.payload_into::<CRCWrap<Ack>>().unwrap();
    assert_eq!(again.payload.payload, ack);
    let c = m.payload.checksum().unwrap();
    assert_eq!(c.as_slice(), &[StandardCRC::checksum(&pack_to_vec(&ack).unwrap())][..]);
}
