use p2p_node_handshake::codec::{push_compact_size, read_compact_size};
use p2p_node_handshake::network_messages::{
    make_verack_message_serialised, new_version_message, new_version_message_serialised,
    parse_next, serialize_version, DecodeError, Message, VersionPayload, PROTOCOL_VERSION,
};
use p2p_node_handshake::peer::PeerAddr;

fn local() -> PeerAddr {
    // ::ffff:127.0.0.1, port 8333
    PeerAddr { ip_hi: 0, ip_lo: 0x0000_FFFF_7F00_0001, port: 8333 }
}

fn remote() -> PeerAddr {
    // ::ffff:10.0.0.2, port 8333
    PeerAddr { ip_hi: 0, ip_lo: 0x0000_FFFF_0A00_0002, port: 8333 }
}

fn sample_payload() -> VersionPayload {
    VersionPayload {
        version: PROTOCOL_VERSION,
        services: 0,
        timestamp: 1_700_000_000,
        receiver: remote(),
        sender: local(),
        nonce: 0x0123_4567_89AB_CDEF,
        user_agent: b"/test:0.1/".to_vec(),
        start_height: 0,
    }
}

/// The checksum an envelope carries: the first four bytes of the
/// double-SHA256 digest of the payload.
fn checksum(payload: &[u8]) -> [u8; 4] {
    let digest = <bitcoin::hashes::sha256d::Hash as bitcoin::hashes::Hash>::hash(payload);
    let bytes = <bitcoin::hashes::sha256d::Hash as bitcoin::hashes::Hash>::into_inner(digest);
    [bytes[0], bytes[1], bytes[2], bytes[3]]
}

/// An envelope sealed by hand, for feeding the parser inputs the library
/// itself would never produce.
fn envelope(command: &[u8; 12], payload: &[u8]) -> Vec<u8> {
    let mut out = vec![0xF9, 0xBE, 0xB4, 0xD9];
    out.extend_from_slice(command);
    out.extend_from_slice(&(payload.len() as u32).to_le_bytes());
    out.extend_from_slice(&checksum(payload));
    out.extend_from_slice(payload);
    out
}

#[test]
fn verack_serialises_to_the_known_bytes() {
    // magic, "verack" NUL-padded, zero length, and the first four bytes of
    // the double-SHA256 digest of the empty payload.
    let expected: Vec<u8> = vec![
        0xF9, 0xBE, 0xB4, 0xD9, 0x76, 0x65, 0x72, 0x61, 0x63, 0x6B, 0x00, 0x00, 0x00, 0x00, 0x00,
        0x00, 0x00, 0x00, 0x00, 0x00, 0x5D, 0xF6, 0xE0, 0xE2,
    ];
    assert_eq!(make_verack_message_serialised(), expected);
}

#[test]
fn verack_round_trips() {
    let bytes = make_verack_message_serialised();
    let (message, consumed) = parse_next(&bytes).unwrap();
    assert!(matches!(message, Message::Verack));
    assert_eq!(consumed, 24);
}

#[test]
fn version_round_trips_field_for_field() {
    let p = sample_payload();
    let bytes = serialize_version(&p);
    let (message, consumed) = parse_next(&bytes).unwrap();
    assert_eq!(consumed, bytes.len());
    match message {
        Message::Version(q) => {
            assert_eq!(q.version, p.version);
            assert_eq!(q.services, p.services);
            assert_eq!(q.timestamp, p.timestamp);
            assert_eq!(q.receiver, p.receiver);
            assert_eq!(q.sender, p.sender);
            assert_eq!(q.nonce, p.nonce);
            assert_eq!(q.user_agent, p.user_agent);
            assert_eq!(q.start_height, p.start_height);
        }
        Message::Verack => panic!("expected a Version message"),
    }
}

#[test]
fn version_round_trips_with_negative_fields() {
    let mut p = sample_payload();
    p.timestamp = -5;
    p.start_height = -1;
    let bytes = serialize_version(&p);
    match parse_next(&bytes).unwrap().0 {
        Message::Version(q) => {
            assert_eq!(q.timestamp, -5);
            assert_eq!(q.start_height, -1);
        }
        Message::Verack => panic!("expected a Version message"),
    }
}

#[test]
fn built_version_message_round_trips_except_clock_and_nonce() {
    let (version, bytes) = new_version_message_serialised(local(), remote());
    assert_eq!(version, PROTOCOL_VERSION);
    let (message, consumed) = parse_next(&bytes).unwrap();
    assert_eq!(consumed, bytes.len());
    match message {
        Message::Version(q) => {
            assert_eq!(q.version, PROTOCOL_VERSION);
            assert_eq!(q.services, 0);
            assert_eq!(q.receiver, remote());
            assert_eq!(q.sender, local());
            assert_eq!(q.user_agent, b"user-agent-bitcoin-p2p-handshake".to_vec());
            assert_eq!(q.start_height, 0);
        }
        Message::Verack => panic!("expected a Version message"),
    }
}

#[test]
fn nonces_differ_across_builds() {
    let (_, first) = new_version_message(local(), remote());
    let (_, second) = new_version_message(local(), remote());
    match (first, second) {
        (Message::Version(a), Message::Version(b)) => assert_ne!(a.nonce, b.nonce),
        _ => panic!("expected Version messages"),
    }
}

#[test]
fn parse_of_truncated_stream_reports_truncation() {
    assert!(matches!(parse_next(&[]), Err(DecodeError::Truncated)));
    let bytes = make_verack_message_serialised();
    assert!(matches!(parse_next(&bytes[..23]), Err(DecodeError::Truncated)));
    // A header whose length field points past the available bytes.
    let long = envelope(b"verack\0\0\0\0\0\0", &[1, 2, 3]);
    assert!(matches!(parse_next(&long[..25]), Err(DecodeError::Truncated)));
}

#[test]
fn parse_rejects_wrong_magic() {
    let mut bytes = make_verack_message_serialised();
    bytes[0] = 0x00;
    assert!(matches!(parse_next(&bytes), Err(DecodeError::BadMagic)));
}

#[test]
fn parse_rejects_corrupt_checksum() {
    let mut bytes = make_verack_message_serialised();
    bytes[20] ^= 0xFF;
    assert!(matches!(parse_next(&bytes), Err(DecodeError::BadChecksum)));
}

#[test]
fn parse_rejects_unknown_command() {
    // The checksum covers only the payload, so renaming the command keeps
    // the envelope otherwise valid.
    let bytes = envelope(b"ping\0\0\0\0\0\0\0\0", &[]);
    assert!(matches!(parse_next(&bytes), Err(DecodeError::UnknownCommand)));
}

#[test]
fn parse_rejects_malformed_payloads() {
    // A Verack payload must be empty.
    let bytes = envelope(b"verack\0\0\0\0\0\0", &[0]);
    assert!(matches!(parse_next(&bytes), Err(DecodeError::BadPayload)));
    // A Version payload must decode; 4 arbitrary bytes cannot.
    let bytes = envelope(b"version\0\0\0\0\0", &[1, 2, 3, 4]);
    assert!(matches!(parse_next(&bytes), Err(DecodeError::BadPayload)));
}

#[test]
fn parse_rejects_version_payload_with_wrong_length() {
    // A structurally valid payload with one byte appended must be refused.
    let p = sample_payload();
    let sealed = serialize_version(&p);
    let payload_len = sealed.len() - 24;
    let mut payload = sealed[24..].to_vec();
    assert_eq!(payload.len(), payload_len);
    payload.push(0);
    let bytes = envelope(b"version\0\0\0\0\0", &payload);
    assert!(matches!(parse_next(&bytes), Err(DecodeError::BadPayload)));
}

#[test]
fn compact_size_encodes_minimally_and_round_trips() {
    let cases: [(u64, usize); 7] = [
        (0, 1),
        (0xFC, 1),
        (0xFD, 3),
        (0xFFFF, 3),
        (0x1_0000, 5),
        (0xFFFF_FFFF, 5),
        (0x1_0000_0000, 9),
    ];
    for (value, width) in cases {
        let mut out: Vec<u8> = Vec::new();
        push_compact_size(&mut out, value);
        assert_eq!(out.len(), width);
        assert_eq!(read_compact_size(&out, 0), Some((value, width)));
    }
}

#[test]
fn compact_size_rejects_non_minimal_encodings() {
    // 1 encoded with the three-byte form.
    let bytes = vec![0xFD, 0x01, 0x00];
    assert_eq!(read_compact_size(&bytes, 0), None);
    // 1 encoded with the five-byte form.
    let bytes = vec![0xFE, 0x01, 0x00, 0x00, 0x00];
    assert_eq!(read_compact_size(&bytes, 0), None);
    // Truncated forms.
    assert_eq!(read_compact_size(&[0xFD, 0x01], 0), None);
    assert_eq!(read_compact_size(&[], 0), None);
}

#[test]
fn built_version_timestamp_tracks_the_clock() {
    let before = std::time::SystemTime::now()
        .duration_since(std::time::UNIX_EPOCH)
        .unwrap()
        .as_secs() as i64;
    let (_, message) = new_version_message(local(), remote());
    let after = std::time::SystemTime::now()
        .duration_since(std::time::UNIX_EPOCH)
        .unwrap()
        .as_secs() as i64;
    match message {
        Message::Version(q) => {
            assert!(before <= q.timestamp && q.timestamp <= after + 1);
        }
        Message::Verack => panic!("expected a Version message"),
    }
}

#[test]
fn version_payload_layout_is_exact() {
    let p = VersionPayload {
        version: 0x1122_3344,
        services: 0x0102_0304_0506_0708,
        timestamp: 0x0A0B_0C0D,
        receiver: PeerAddr {
            ip_hi: 0x1111_1111_1111_1111,
            ip_lo: 0x2222_2222_2222_2222,
            port: 0x8333,
        },
        sender: PeerAddr {
            ip_hi: 0x3333_3333_3333_3333,
            ip_lo: 0x4444_4444_4444_4444,
            port: 1,
        },
        nonce: 0x5566_7788_AABB_CCDD,
        user_agent: b"/x/".to_vec(),
        start_height: 7,
    };
    let mut payload: Vec<u8> = Vec::new();
    payload.extend_from_slice(&0x1122_3344u32.to_le_bytes());
    payload.extend_from_slice(&0x0102_0304_0506_0708u64.to_le_bytes());
    payload.extend_from_slice(&0x0A0B_0C0Du64.to_le_bytes());
    // receiver: service flags, the 16-byte IP in network order, the port
    // big-endian
    payload.extend_from_slice(&0x0102_0304_0506_0708u64.to_le_bytes());
    payload.extend_from_slice(&0x1111_1111_1111_1111u64.to_be_bytes());
    payload.extend_from_slice(&0x2222_2222_2222_2222u64.to_be_bytes());
    payload.extend_from_slice(&0x8333u16.to_be_bytes());
    // sender, in the same shape
    payload.extend_from_slice(&0x0102_0304_0506_0708u64.to_le_bytes());
    payload.extend_from_slice(&0x3333_3333_3333_3333u64.to_be_bytes());
    payload.extend_from_slice(&0x4444_4444_4444_4444u64.to_be_bytes());
    payload.extend_from_slice(&1u16.to_be_bytes());
    payload.extend_from_slice(&0x5566_7788_AABB_CCDDu64.to_le_bytes());
    // the user agent, prefixed with its one-byte compact-size length
    payload.push(3);
    payload.extend_from_slice(b"/x/");
    payload.extend_from_slice(&7u32.to_le_bytes());
    assert_eq!(serialize_version(&p), envelope(b"version\0\0\0\0\0", &payload));
}
