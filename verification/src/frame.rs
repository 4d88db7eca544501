//! Length-delimited framing.
//!
//! A frame is a little-endian `u32` length prefix followed by that many bytes
//! of packet payload. No frame may carry more than [`PACKET_MAX_LENGTH`]
//! bytes: the decoder rejects a larger announced length before waiting for
//! its bytes, and the encoder refuses to emit a larger payload, so no caller
//! on either side ever sees an oversized frame.

use vstd::prelude::*;

verus! {

/// The maximum length a packet can be. Any data that needs to be sent and is
/// longer than this maximum should be chunked into multiple packets.
pub const PACKET_MAX_LENGTH: usize = 8 * 1024 * 1024;

/// The one fatal framing error: a frame announcing or carrying more than
/// [`PACKET_MAX_LENGTH`] bytes.
#[derive(Clone, Copy, PartialEq, Eq, Structural, Debug)]
pub enum FrameError {
    FrameTooLarge,
}

pub open spec fn spec_u32_le(x: u32) -> Seq<u8> {
    seq![
        (x & 0xff) as u8,
        ((x >> 8) & 0xff) as u8,
        ((x >> 16) & 0xff) as u8,
        ((x >> 24) & 0xff) as u8,
    ]
}

pub open spec fn spec_u32_from_le(s: Seq<u8>) -> u32
    recommends
        s.len() == 4,
{
    (s[0] as u32) | ((s[1] as u32) << 8) | ((s[2] as u32) << 16) | ((s[3] as u32) << 24)
}

pub proof fn lemma_u32_le_round_trip(x: u32)
    ensures
        spec_u32_le(x).len() == 4,
        spec_u32_from_le(spec_u32_le(x)) == x,
{
    assert((x & 0xff) < 256 && ((x >> 8) & 0xff) < 256 && ((x >> 16) & 0xff) < 256 && ((x >> 24)
        & 0xff) < 256) by (bit_vector);
    assert(x == ((x & 0xff) | (((x >> 8) & 0xff) << 8) | (((x >> 16) & 0xff) << 16) | (((x
        >> 24) & 0xff) << 24))) by (bit_vector);
}

/// A complete frame for the given payload: 4-byte little-endian length, then
/// the payload.
pub open spec fn spec_frame(payload: Seq<u8>) -> Seq<u8> {
    spec_u32_le(payload.len() as u32) + payload
}

/// What the decoder sees in a buffer: not yet a whole frame, an announced
/// length over the limit, or one complete frame and how many bytes it spans.
pub enum SpecFrameResult {
    Incomplete,
    TooLarge,
    Frame { payload: Seq<u8>, consumed: int },
}

/// The frame at the front of `src`, if any.
pub open spec fn spec_decode_frame(src: Seq<u8>) -> SpecFrameResult {
    if src.len() < 4 {
        SpecFrameResult::Incomplete
    } else {
        let length = spec_u32_from_le(src.subrange(0, 4)) as int;
        if length > PACKET_MAX_LENGTH {
            SpecFrameResult::TooLarge
        } else if src.len() < 4 + length {
            SpecFrameResult::Incomplete
        } else {
            SpecFrameResult::Frame { payload: src.subrange(4, 4 + length), consumed: 4 + length }
        }
    }
}

/// Serializes packet payloads into length-delimited frames.
pub struct PacketEncoder {}

impl PacketEncoder {
    pub fn new() -> (r: PacketEncoder) {
        PacketEncoder {  }
    }

    /// Append one frame carrying `payload` to `dst`. A payload longer than
    /// [`PACKET_MAX_LENGTH`] is refused and `dst` is left unchanged.
    pub fn encode(&self, payload: &[u8], dst: &mut Vec<u8>) -> (r: Result<(), FrameError>)
        ensures
            payload@.len() > PACKET_MAX_LENGTH <==> r is Err,
            r is Ok ==> final(dst)@ == old(dst)@ + spec_frame(payload@),
            r is Err ==> final(dst)@ == old(dst)@,
    {
        if payload.len() > PACKET_MAX_LENGTH {
            return Err(FrameError::FrameTooLarge);
        }
        let len: u32 = payload.len() as u32;
        dst.push(#[verifier::truncate] ((len & 0xff) as u8));
        dst.push(#[verifier::truncate] (((len >> 8) & 0xff) as u8));
        dst.push(#[verifier::truncate] (((len >> 16) & 0xff) as u8));
        dst.push(#[verifier::truncate] (((len >> 24) & 0xff) as u8));
        assert(dst@ =~= old(dst)@ + spec_u32_le(len));
        crate::wire::push_bytes(dst, payload);
        assert(dst@ =~= old(dst)@ + spec_frame(payload@));
        Ok(())
    }
}

/// Extracts length-delimited frames from a streaming byte buffer.
///
/// The buffer is only inspected, never consumed: on a complete frame the
/// decoder reports how many bytes the frame spans, and the caller drops them.
/// A partial buffer yields `Ok(None)` so the caller can wait for more bytes.
pub struct PacketDecoder {}

impl PacketDecoder {
    pub fn new() -> (r: PacketDecoder) {
        PacketDecoder {  }
    }

    /// Decode the frame at the front of `src`, if a whole one has arrived.
    ///
    /// Returns `Ok(None)` when fewer than 4 bytes are buffered or the
    /// announced payload has not fully arrived; an error when the announced
    /// length exceeds [`PACKET_MAX_LENGTH`]; and otherwise the payload with
    /// the total byte count of the frame. A returned payload never exceeds
    /// [`PACKET_MAX_LENGTH`] bytes.
    pub fn decode(&self, src: &[u8]) -> (r: Result<Option<(Vec<u8>, usize)>, FrameError>)
        ensures
            match r {
                Ok(None) => spec_decode_frame(src@) is Incomplete,
                Ok(Some((payload, consumed))) => spec_decode_frame(src@) == (
                SpecFrameResult::Frame { payload: payload@, consumed: consumed as int })
                    && payload@.len() <= PACKET_MAX_LENGTH,
                Err(_) => spec_decode_frame(src@) is TooLarge,
            },
    {
        if src.len() < 4 {
            return Ok(None);
        }
        let length32: u32 = (src[0] as u32) | ((src[1] as u32) << 8) | ((src[2] as u32) << 16)
            | ((src[3] as u32) << 24);
        proof {
            let s = src@.subrange(0, 4);
            assert(s[0] == src@[0] && s[1] == src@[1] && s[2] == src@[2] && s[3] == src@[3]);
        }
        let length: usize = length32 as usize;
        if length > PACKET_MAX_LENGTH {
            return Err(FrameError::FrameTooLarge);
        }
        if src.len() < 4 + length {
            return Ok(None);
        }
        match crate::wire::read_bytes(src, 4, length) {
            Some((payload, consumed)) => Ok(Some((payload, consumed))),
            None => Ok(None),
        }
    }
}

/// Framing round trip: a frame built by the encoder for any payload within
/// the size limit is decoded back to exactly that payload, consuming exactly
/// the frame, whatever bytes of the next frame follow it.
pub proof fn lemma_frame_round_trip(payload: Seq<u8>, rest: Seq<u8>)
    requires
        payload.len() <= PACKET_MAX_LENGTH,
    ensures
        spec_decode_frame(spec_frame(payload) + rest) == (SpecFrameResult::Frame {
            payload,
            consumed: 4 + payload.len() as int,
        }),
{
    let len32 = payload.len() as u32;
    let src = spec_frame(payload) + rest;
    lemma_u32_le_round_trip(len32);
    assert(src.subrange(0, 4) =~= spec_u32_le(len32));
    assert(src.subrange(4, 4 + payload.len() as int) =~= payload);
}

} // verus!
