use pg_proxy::errors::DecodeError;
use pg_proxy::pg_parse::{read_u32_be, MessagePacket, MessageType};

fn tagged(tag: u8, payload: &[u8]) -> Vec<u8> {
    let mut v = vec![tag];
    let len = (payload.len() + 4) as u32;
    v.extend_from_slice(&len.to_be_bytes());
    v.extend_from_slice(payload);
    v
}

const KNOWN_TAGS: [(u8, MessageType); 24] = [
    (b'1', MessageType::ParseComplete),
    (b'2', MessageType::BindComplete),
    (b'3', MessageType::CloseComplete),
    (b'A', MessageType::NotificationResponse),
    (b'c', MessageType::CopyDone),
    (b'C', MessageType::CommandComplete),
    (b'd', MessageType::CopyData),
    (b'D', MessageType::DataRow),
    (b'E', MessageType::ErrorResponse),
    (b'G', MessageType::CopyInResponse),
    (b'H', MessageType::CopyOutResponse),
    (b'I', MessageType::EmptyQueryResponse),
    (b'K', MessageType::BackendKeyData),
    (b'n', MessageType::NoData),
    (b'N', MessageType::NoticeResponse),
    (b'R', MessageType::Authentication),
    (b's', MessageType::PortalSuspended),
    (b'S', MessageType::ParameterStatus),
    (b't', MessageType::ParameterDescription),
    (b'p', MessageType::PasswordMessage),
    (b'T', MessageType::RowDescription),
    (b'Z', MessageType::ReadyForQuery),
    (b'Q', MessageType::Query),
    (b'X', MessageType::Terminate),
];

#[test]
fn tag_bytes_map_to_their_kinds() {
    for (tag, kind) in KNOWN_TAGS {
        assert_eq!(MessageType::from(tag), kind);
    }
    assert_eq!(MessageType::from(b'z'), MessageType::NoTag);
    assert_eq!(MessageType::from(0), MessageType::NoTag);
    assert_eq!(MessageType::from(255), MessageType::NoTag);
}

#[test]
fn read_u32_be_matches_byte_arithmetic() {
    let v = vec![0x12, 0x34, 0x56, 0x78, 0x9A];
    assert_eq!(read_u32_be(&v, 0), 0x12345678);
    assert_eq!(read_u32_be(&v, 1), 0x3456789A);
    let z = vec![0xFF, 0xFF, 0xFF, 0xFF];
    assert_eq!(read_u32_be(&z, 0), u32::MAX);
}

#[test]
fn every_known_tag_decodes_to_its_kind() {
    // A minimal synthetic tagged message per known tag: the declared length
    // covers the length field and the payload, and the whole input comes
    // back as the message body.
    for (tag, kind) in KNOWN_TAGS {
        let wire = tagged(tag, &[7, 7, 7]);
        let mut buf = wire.clone();
        let pkt = MessagePacket::try_from(&mut buf).expect("one exact message must decode");
        assert_eq!(pkt.msg_type, kind);
        assert_eq!(pkt.body, wire);
        assert!(buf.is_empty());
    }
}

#[test]
fn unknown_tag_is_startup_class() {
    // First four bytes are the total length of the whole message.
    let mut buf = vec![0, 0, 0, 7, b'x', b'y', b'z'];
    let pkt = MessagePacket::try_from(&mut buf).expect("an exact startup message must decode");
    assert_eq!(pkt.msg_type, MessageType::Startup);
    assert_eq!(pkt.body, vec![0, 0, 0, 7, b'x', b'y', b'z']);
    assert!(buf.is_empty());
}

#[test]
fn unknown_tag_with_remainder_leaves_the_rest() {
    let mut buf = vec![0, 0, 0, 6, 1, 2, 9, 9, 9];
    let pkt = MessagePacket::try_from(&mut buf).unwrap();
    assert_eq!(pkt.msg_type, MessageType::Startup);
    assert_eq!(pkt.body, vec![0, 0, 0, 6, 1, 2]);
    assert_eq!(buf, vec![9, 9, 9]);
}

#[test]
fn under_five_bytes_is_not_enough_data() {
    for n in 0..5 {
        let mut buf = vec![b'Q'; n];
        let before = buf.clone();
        assert_eq!(MessagePacket::try_from(&mut buf).unwrap_err(), DecodeError::NotEnoughData);
        assert_eq!(buf, before);
    }
}

#[test]
fn short_tagged_buffer_stays_incomplete_across_calls() {
    // Declared total length 31, only 8 bytes present: every call reports
    // an incomplete message and leaves the buffer byte-for-byte unchanged.
    let mut buf = tagged(b'Q', &[b'a'; 3]);
    buf[4] = 30; // declare far more than is buffered
    let before = buf.clone();
    for _ in 0..10 {
        let e = MessagePacket::try_from(&mut buf).unwrap_err();
        assert_eq!(e, DecodeError::NotFullyLoaded);
        assert!(e.is_incomplete());
        assert_eq!(buf, before);
    }
}

#[test]
fn exact_match_framing_does_not_split_pipelined_messages() {
    // Exact-match framing: two back-to-back tagged messages in one buffer are
    // not split apart; the decoder insists on an exact length match.
    let mut one = tagged(b'Q', b"a\0");
    let two = tagged(b'X', b"");
    one.extend_from_slice(&two);
    let before = one.clone();
    assert_eq!(MessagePacket::try_from(&mut one).unwrap_err(), DecodeError::NotFullyLoaded);
    assert_eq!(one, before);
}

#[test]
fn length_eight_untagged_is_unsupported_negotiation() {
    // An SSL/encryption negotiation request: length 8, then a magic code.
    let mut buf = vec![0, 0, 0, 8, 0x04, 0xD2, 0x16, 0x2F];
    let before = buf.clone();
    let e = MessagePacket::try_from(&mut buf).unwrap_err();
    assert_eq!(e, DecodeError::UnsupportedSslRequest);
    assert!(!e.is_incomplete());
    assert_eq!(buf, before);
}

#[test]
fn chunk_boundaries_do_not_change_decoding() {
    // Splitting the same bytes differently across appends gives the same
    // message as handing them over in one shot.
    let wire = tagged(b'Q', b"SELECT 2;\0");
    let mut oneshot = wire.clone();
    let expect = MessagePacket::try_from(&mut oneshot).unwrap();

    for cut in 1..wire.len() {
        let mut buf = wire[..cut].to_vec();
        // every prefix strictly shorter than the message stays incomplete
        assert!(MessagePacket::try_from(&mut buf).unwrap_err().is_incomplete());
        buf.extend_from_slice(&wire[cut..]);
        let pkt = MessagePacket::try_from(&mut buf).unwrap();
        assert_eq!(pkt.msg_type, expect.msg_type);
        assert_eq!(pkt.body, expect.body);
        assert!(buf.is_empty());
    }
}

#[test]
fn new_keeps_kind_and_body() {
    let pkt = MessagePacket::new(MessageType::Query, vec![1, 2, 3]);
    assert_eq!(pkt.msg_type, MessageType::Query);
    assert_eq!(pkt.body, vec![1, 2, 3]);
}

#[test]
fn write_forwards_the_exact_wire_bytes() {
    let wire = tagged(b'Q', b"SELECT 1;\0");
    let mut buf = wire.clone();
    let pkt = MessagePacket::try_from(&mut buf).unwrap();
    let mut sink: Vec<u8> = Vec::new();
    let n = pkt.write(&mut sink).unwrap();
    assert_eq!(n, wire.len());
    assert_eq!(sink, wire);
}
