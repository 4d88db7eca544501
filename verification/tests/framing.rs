//! The length-delimited frame codec: size limit on both sides, streaming
//! behaviour on partial buffers, and the encode/decode round trip.

use osp_core::frame::{FrameError, PacketDecoder, PacketEncoder, PACKET_MAX_LENGTH};

#[test]
fn test_frame_round_trip() {
    let payload: Vec<u8> = vec![10, 20, 30, 40, 50];
    let mut framed: Vec<u8> = Vec::new();
    PacketEncoder::new()
        .encode(payload.as_slice(), &mut framed)
        .unwrap();
    assert_eq!(&framed[..4], &[5u8, 0, 0, 0]);
    // trailing bytes of the next frame are not consumed
    framed.push(0xaa);
    let (decoded, consumed) = PacketDecoder::new().decode(framed.as_slice()).unwrap().unwrap();
    assert_eq!(decoded, payload);
    assert_eq!(consumed, 9);
}

#[test]
fn test_decoder_waits_for_more_bytes() {
    let decoder = PacketDecoder::new();
    // fewer than 4 bytes: not even the length marker
    assert_eq!(decoder.decode(&[1, 0]), Ok(None));
    // the announced payload has not fully arrived
    assert_eq!(decoder.decode(&[5, 0, 0, 0, 1, 2]), Ok(None));
}

#[test]
fn test_framing_rejects_oversize() {
    // little-endian prefix announcing about 25 MiB
    let mut src: Vec<u8> = vec![0x00, 0x00, 0x80, 0x01];
    src.extend_from_slice(&[1, 2, 3, 4]);
    assert_eq!(
        PacketDecoder::new().decode(src.as_slice()),
        Err(FrameError::FrameTooLarge)
    );
}

#[test]
fn test_frame_of_exactly_max_length_accepted() {
    let payload: Vec<u8> = vec![7u8; PACKET_MAX_LENGTH];
    let mut framed: Vec<u8> = Vec::new();
    PacketEncoder::new()
        .encode(payload.as_slice(), &mut framed)
        .unwrap();
    let (decoded, consumed) = PacketDecoder::new().decode(framed.as_slice()).unwrap().unwrap();
    assert_eq!(decoded.len(), PACKET_MAX_LENGTH);
    assert_eq!(consumed, PACKET_MAX_LENGTH + 4);
    assert_eq!(decoded, payload);
}

#[test]
fn test_frame_over_max_length_rejected() {
    // the encoder refuses to build one
    let payload: Vec<u8> = vec![7u8; PACKET_MAX_LENGTH + 1];
    let mut framed: Vec<u8> = Vec::new();
    assert_eq!(
        PacketEncoder::new().encode(payload.as_slice(), &mut framed),
        Err(FrameError::FrameTooLarge)
    );
    assert!(framed.is_empty());

    // and the decoder refuses to accept one announced
    let length = (PACKET_MAX_LENGTH + 1) as u32;
    let mut src: Vec<u8> = length.to_le_bytes().to_vec();
    src.extend_from_slice(&vec![0u8; PACKET_MAX_LENGTH + 1]);
    assert_eq!(
        PacketDecoder::new().decode(src.as_slice()),
        Err(FrameError::FrameTooLarge)
    );
}
