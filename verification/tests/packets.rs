//! Serialization and deserialization of the packet families, including the
//! byte-exact basic encoding and the per-family round trips.

use osp_core::data_packet::DataPacket;
use osp_core::handshake::{HandshakePacketGuestToHost, HandshakePacketHostToGuest};
use osp_core::transfer::{TransferPacketGuestToHost, TransferPacketHostToGuest};
use osp_core::utils::{ConnectionIntent, ConnectionType};
use osp_core::wire;

/// A raw byte representation of a basic packet { bool = true, int = 32,
/// string = "hello" } written with the wire primitives.
const TEST_PACKET_BYTES: &[u8; 15] = &[1u8, 32u8, 0, 0, 0, 0, 0, 0, 0, 5, 104, 101, 108, 108, 111];

#[test]
fn test_basic_serialization() {
    let mut buf: Vec<u8> = Vec::new();
    wire::write_u8(&mut buf, 1);
    let mut bytes_written = 1;
    wire::write_u8(&mut buf, 32);
    bytes_written += 1;
    bytes_written += wire::write_string(&mut buf, "hello");

    assert_eq!(&buf[..], TEST_PACKET_BYTES);
    assert_eq!(bytes_written, buf.len());
}

#[test]
fn test_basic_deserialization() {
    let buf = TEST_PACKET_BYTES.as_slice();
    let (b, pos) = wire::read_u8(buf, 0).unwrap();
    let (int, pos) = wire::read_u8(buf, pos).unwrap();
    let (string, pos) = wire::read_string(buf, pos).unwrap();

    assert!(b != 0);
    assert_eq!(int, 32u8);
    assert_eq!(string, "hello");
    assert_eq!(pos, TEST_PACKET_BYTES.len());
}

#[test]
fn test_uuid_serde() {
    let mut buf: Vec<u8> = Vec::new();
    let uuid = uuid::Uuid::new_v4();

    wire::write_uuid(&mut buf, uuid.as_u128());
    let bytes_written = 16;
    assert_eq!(bytes_written, buf.len());

    let (value, _) = wire::read_uuid(buf.as_slice(), 0).unwrap();
    assert_eq!(uuid::Uuid::from_u128(value), uuid);
}

fn guest_round_trip(p: HandshakePacketGuestToHost) {
    let mut buf: Vec<u8> = Vec::new();
    let n = p.serialize(&mut buf);
    assert_eq!(n, buf.len());
    let (q, consumed) = HandshakePacketGuestToHost::deserialize(buf.as_slice()).unwrap();
    assert_eq!(consumed, buf.len());
    assert_eq!(p, q);
}

fn host_round_trip(p: HandshakePacketHostToGuest) {
    let mut buf: Vec<u8> = Vec::new();
    let n = p.serialize(&mut buf);
    assert_eq!(n, buf.len());
    let (q, consumed) = HandshakePacketHostToGuest::deserialize(buf.as_slice()).unwrap();
    assert_eq!(consumed, buf.len());
    assert_eq!(p, q);
}

#[test]
fn test_guest_packets_round_trip() {
    guest_round_trip(HandshakePacketGuestToHost::Hello {
        connection_type: ConnectionType::Server,
    });
    guest_round_trip(HandshakePacketGuestToHost::Hello {
        connection_type: ConnectionType::Unknown,
    });
    guest_round_trip(HandshakePacketGuestToHost::Identify {
        hostname: "peer.example.com".to_string(),
    });
    guest_round_trip(HandshakePacketGuestToHost::Verify {
        nonce: 0x0123_4567_89ab_cdef_0123_4567_89ab_cdef,
        challenge: (0..=255u8).collect(),
    });
    guest_round_trip(HandshakePacketGuestToHost::SetIntent {
        intent: ConnectionIntent::Subscribe,
    });
}

#[test]
fn test_host_packets_round_trip() {
    host_round_trip(HandshakePacketHostToGuest::Acknowledge { ok: true, err: None });
    host_round_trip(HandshakePacketHostToGuest::Acknowledge {
        ok: false,
        err: Some("not today".to_string()),
    });
    host_round_trip(HandshakePacketHostToGuest::Challenge {
        encrypted_challenge: vec![7u8; 512],
        nonce: 42,
    });
    host_round_trip(HandshakePacketHostToGuest::Close {
        can_continue: true,
        err: None,
    });
    host_round_trip(HandshakePacketHostToGuest::Close {
        can_continue: false,
        err: Some("Invalid nonce".to_string()),
    });
    host_round_trip(HandshakePacketHostToGuest::ChallengeResponse { successful: true });
}

#[test]
fn test_transfer_packets_round_trip() {
    let p = TransferPacketGuestToHost::IdentifyObject {
        data_id: 99,
        data_len: 10_000,
        data_chunks: 1,
    };
    let mut buf: Vec<u8> = Vec::new();
    let n = p.serialize(&mut buf);
    assert_eq!(n, buf.len());
    let (q, _) = TransferPacketGuestToHost::deserialize(buf.as_slice()).unwrap();
    assert_eq!(p, q);

    let p = TransferPacketGuestToHost::SendChunk {
        data: vec![1, 2, 3, 4, 5],
        done: true,
    };
    let mut buf: Vec<u8> = Vec::new();
    p.serialize(&mut buf);
    let (q, _) = TransferPacketGuestToHost::deserialize(buf.as_slice()).unwrap();
    assert_eq!(p, q);

    let p = TransferPacketHostToGuest::AcknowledgeObject { can_send: false };
    let mut buf: Vec<u8> = Vec::new();
    p.serialize(&mut buf);
    let (q, _) = TransferPacketHostToGuest::deserialize(buf.as_slice()).unwrap();
    assert_eq!(p, q);
}

#[test]
fn test_data_packet_round_trip() {
    let p = DataPacket::new(vec![9, 8, 7, 6]);
    let mut buf: Vec<u8> = Vec::new();
    let n = p.serialize(&mut buf);
    assert_eq!(n, 12);
    let (q, consumed) = DataPacket::deserialize(buf.as_slice()).unwrap();
    assert_eq!(consumed, 12);
    assert_eq!(p, q);
}

#[test]
fn test_unknown_discriminator_rejected() {
    assert!(HandshakePacketGuestToHost::deserialize(&[9u8, 0, 0]).is_err());
    assert!(HandshakePacketHostToGuest::deserialize(&[0u8]).is_err());
    assert!(TransferPacketGuestToHost::deserialize(&[3u8]).is_err());
    assert!(TransferPacketHostToGuest::deserialize(&[2u8]).is_err());
}

#[test]
fn test_hello_unrecognized_connection_type_decodes_to_unknown() {
    // discriminator 1 (Hello) with an unassigned connection type byte
    let (p, _) = HandshakePacketGuestToHost::deserialize(&[1u8, 7u8]).unwrap();
    assert_eq!(
        p,
        HandshakePacketGuestToHost::Hello { connection_type: ConnectionType::Unknown }
    );
    assert_eq!(ConnectionType::from_u8(7), ConnectionType::Unknown);
    assert_eq!(ConnectionIntent::from_u8(9), ConnectionIntent::Unknown);
}

#[test]
fn test_zero_length_string_round_trips() {
    let mut buf: Vec<u8> = Vec::new();
    let n = wire::write_string(&mut buf, "");
    assert_eq!(n, 8);
    assert_eq!(buf, vec![0u8; 8]);
    let (s, pos) = wire::read_string(buf.as_slice(), 0).unwrap();
    assert_eq!(s, "");
    assert_eq!(pos, 8);
}

#[test]
fn test_absent_optional_string_never_reads_a_length() {
    let mut buf: Vec<u8> = Vec::new();
    let n = wire::write_optional_string(&mut buf, &None);
    assert_eq!(n, 1);
    assert_eq!(buf, vec![0u8]);
    // trailing garbage after the flag must not be touched
    let (o, pos) = wire::read_optional_string(&[0u8, 0xde, 0xad], 0).unwrap();
    assert_eq!(o, None);
    assert_eq!(pos, 1);
}

#[test]
fn test_invalid_utf8_rejected() {
    // length 2, bytes that are not valid UTF-8
    let buf = [0u8, 0, 0, 0, 0, 0, 0, 2, 0xff, 0xfe];
    assert_eq!(
        wire::read_string(&buf, 0),
        Err(osp_core::wire::WireError::InvalidData)
    );
}

#[test]
fn test_truncated_reads_rejected() {
    assert!(wire::read_u64(&[1, 2, 3], 0).is_none());
    assert!(wire::read_uuid(&[0u8; 15], 0).is_none());
    // announced string length runs past the buffer
    let buf = [0u8, 0, 0, 0, 0, 0, 0, 9, 104, 105];
    assert_eq!(
        wire::read_string(&buf, 0),
        Err(osp_core::wire::WireError::Truncated)
    );
}

#[test]
fn test_unsigned_integer_round_trips() {
    let mut buf: Vec<u8> = Vec::new();
    wire::write_u16(&mut buf, 0xbeef);
    wire::write_u32(&mut buf, 0xdead_beef);
    wire::write_u64(&mut buf, 0x0123_4567_89ab_cdef);
    wire::write_u128(&mut buf, 0xfeed_face_cafe_f00d_0123_4567_89ab_cdef);
    assert_eq!(&buf[..2], &[0xbe, 0xef]);
    assert_eq!(&buf[2..6], &[0xde, 0xad, 0xbe, 0xef]);
    let (a, pos) = wire::read_u16(&buf, 0).unwrap();
    let (b, pos) = wire::read_u32(&buf, pos).unwrap();
    let (c, pos) = wire::read_u64(&buf, pos).unwrap();
    let (d, pos) = wire::read_u128(&buf, pos).unwrap();
    assert_eq!(a, 0xbeef);
    assert_eq!(b, 0xdead_beef);
    assert_eq!(c, 0x0123_4567_89ab_cdef);
    assert_eq!(d, 0xfeed_face_cafe_f00d_0123_4567_89ab_cdef);
    assert_eq!(pos, buf.len());
}

#[test]
fn test_optional_uuid_round_trips() {
    let mut buf: Vec<u8> = Vec::new();
    let n = wire::write_optional_uuid(&mut buf, &Some(77));
    assert_eq!(n, 17);
    let (o, pos) = wire::read_optional_uuid(&buf, 0).unwrap();
    assert_eq!(o, Some(77));
    assert_eq!(pos, 17);

    let mut buf: Vec<u8> = Vec::new();
    let n = wire::write_optional_uuid(&mut buf, &None);
    assert_eq!(n, 1);
    let (o, pos) = wire::read_optional_uuid(&buf, 0).unwrap();
    assert_eq!(o, None);
    assert_eq!(pos, 1);
}

#[test]
fn test_signed_integer_round_trips() {
    let mut buf: Vec<u8> = Vec::new();
    wire::write_i8(&mut buf, -5);
    wire::write_i16(&mut buf, -2_000);
    wire::write_i32(&mut buf, -2_000_000);
    wire::write_i64(&mut buf, -2_000_000_000_000);
    wire::write_i128(&mut buf, -2_000_000_000_000_000_000_000);
    assert_eq!(buf[0], 0xfb);
    let (a, pos) = wire::read_i8(&buf, 0).unwrap();
    let (b, pos) = wire::read_i16(&buf, pos).unwrap();
    let (c, pos) = wire::read_i32(&buf, pos).unwrap();
    let (d, pos) = wire::read_i64(&buf, pos).unwrap();
    let (e, pos) = wire::read_i128(&buf, pos).unwrap();
    assert_eq!(a, -5);
    assert_eq!(b, -2_000);
    assert_eq!(c, -2_000_000);
    assert_eq!(d, -2_000_000_000_000);
    assert_eq!(e, -2_000_000_000_000_000_000_000);
    assert_eq!(pos, buf.len());
}
