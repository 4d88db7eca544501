//! Handshake packets.
//!
//! Two tagged unions, one per direction. Every packet starts with a one-byte
//! discriminator; the variant's fields follow in declaration order using the
//! primitives of [`crate::wire`]. Serialization is specified byte-exactly,
//! and deserializing a serialized packet yields the packet back.

use vstd::prelude::*;
use vstd::utf8::encode_utf8;

use crate::frame::PACKET_MAX_LENGTH;
use crate::utils::{ConnectionIntent, ConnectionType};
use crate::wire::{
    opt_str_view, read_bytes, read_optional_string, read_string, read_u128, read_u64, read_u8,
    spec_read_bytes, spec_read_optional_string, spec_read_string, spec_read_u128, spec_read_u64,
    spec_read_u8, spec_u128_be, spec_u64_be, spec_write_optional_string, spec_write_string,
    write_optional_string, write_string, write_u64, write_u8, write_uuid, WireError,
};
use crate::wire::{
    lemma_read_bytes_at, lemma_read_optional_string_at, lemma_read_string_at, lemma_read_u128_at,
    lemma_read_u64_at, lemma_read_u8_at,
};

verus! {

/// The challenge plaintext is always exactly this many bytes; the length is
/// fixed by the protocol and never travels on the wire.
pub const CHALLENGE_LENGTH: usize = 256;

/// Bytes of a Challenge packet that are not the encrypted challenge itself:
/// discriminator, length prefix, and nonce.
pub const CHALLENGE_HEADER_LENGTH: usize = 25;

/// Packets the guest (connecting side) sends to the host.
#[derive(PartialEq, Debug)]
pub enum HandshakePacketGuestToHost {
    /// Establish a connection with the other server.
    Hello { connection_type: ConnectionType },
    /// Send my hostname to the other server.
    Identify { hostname: String },
    /// Send the decrypted challenge bytes back, with the nonce that named
    /// this handshake.
    Verify { nonce: u128, challenge: Vec<u8> },
    /// Inform the other server of my intent.
    SetIntent { intent: ConnectionIntent },
}

/// Spec-level shape of a guest packet: strings and byte runs as sequences.
pub enum GuestPacketView {
    Hello { connection_type: ConnectionType },
    Identify { hostname: Seq<char> },
    Verify { nonce: u128, challenge: Seq<u8> },
    SetIntent { intent: ConnectionIntent },
}

impl View for HandshakePacketGuestToHost {
    type V = GuestPacketView;

    open spec fn view(&self) -> GuestPacketView {
        match self {
            HandshakePacketGuestToHost::Hello { connection_type } => GuestPacketView::Hello {
                connection_type: *connection_type,
            },
            HandshakePacketGuestToHost::Identify { hostname } => GuestPacketView::Identify {
                hostname: hostname@,
            },
            HandshakePacketGuestToHost::Verify { nonce, challenge } => GuestPacketView::Verify {
                nonce: *nonce,
                challenge: challenge@,
            },
            HandshakePacketGuestToHost::SetIntent { intent } => GuestPacketView::SetIntent {
                intent: *intent,
            },
        }
    }
}

impl GuestPacketView {
    /// A guest packet that can be put on the wire: the challenge is exactly
    /// its fixed length, and a hostname's byte length fits the length field
    /// and the address space.
    pub open spec fn wf(self) -> bool {
        match self {
            GuestPacketView::Hello { .. } => true,
            GuestPacketView::Identify { hostname } => encode_utf8(hostname).len() + 9
                <= usize::MAX && encode_utf8(hostname).len() <= u64::MAX,
            GuestPacketView::Verify { challenge, .. } => challenge.len() == CHALLENGE_LENGTH,
            GuestPacketView::SetIntent { .. } => true,
        }
    }
}

/// The exact bytes of a serialized guest packet.
pub open spec fn spec_serialize_guest(v: GuestPacketView) -> Seq<u8> {
    match v {
        GuestPacketView::Hello { connection_type } => seq![1u8, connection_type.spec_as_u8()],
        GuestPacketView::Identify { hostname } => seq![2u8] + spec_write_string(hostname),
        GuestPacketView::Verify { nonce, challenge } => seq![3u8] + spec_u128_be(nonce)
            + challenge,
        GuestPacketView::SetIntent { intent } => seq![4u8, intent.spec_as_u8()],
    }
}

/// The guest packet at the front of `b`, with the position just past it.
/// `None` when the discriminator is unknown or the bytes do not form a
/// complete packet.
pub open spec fn spec_parse_guest(b: Seq<u8>) -> Option<(GuestPacketView, int)> {
    match spec_read_u8(b, 0) {
        None => None,
        Some((disc, p)) => {
            if disc == 1 {
                match spec_read_u8(b, p) {
                    None => None,
                    Some((t, p2)) => Some(
                        (
                            GuestPacketView::Hello {
                                connection_type: ConnectionType::spec_from_u8(t),
                            },
                            p2,
                        ),
                    ),
                }
            } else if disc == 2 {
                match spec_read_string(b, p) {
                    None => None,
                    Some((hostname, p2)) => Some((GuestPacketView::Identify { hostname }, p2)),
                }
            } else if disc == 3 {
                match spec_read_u128(b, p) {
                    None => None,
                    Some((nonce, p2)) => match spec_read_bytes(
                        b,
                        p2,
                        CHALLENGE_LENGTH as int,
                    ) {
                        None => None,
                        Some((challenge, p3)) => Some(
                            (GuestPacketView::Verify { nonce, challenge }, p3),
                        ),
                    },
                }
            } else if disc == 4 {
                match spec_read_u8(b, p) {
                    None => None,
                    Some((i, p2)) => Some(
                        (
                            GuestPacketView::SetIntent {
                                intent: ConnectionIntent::spec_from_u8(i),
                            },
                            p2,
                        ),
                    ),
                }
            } else {
                None
            }
        },
    }
}

impl HandshakePacketGuestToHost {
    /// Append this packet's bytes to `buf`; returns how many bytes were
    /// written.
    pub fn serialize(&self, buf: &mut Vec<u8>) -> (n: usize)
        requires
            self@.wf(),
        ensures
            final(buf)@ == old(buf)@ + spec_serialize_guest(self@),
            n == spec_serialize_guest(self@).len(),
    {
        match self {
            HandshakePacketGuestToHost::Hello { connection_type } => {
                write_u8(buf, 1);
                write_u8(buf, connection_type.as_u8());
                assert(final(buf)@ =~= old(buf)@ + spec_serialize_guest(self@));
                2
            },
            HandshakePacketGuestToHost::Identify { hostname } => {
                write_u8(buf, 2);
                let m: usize = write_string(buf, hostname.as_str());
                assert(final(buf)@ =~= old(buf)@ + spec_serialize_guest(self@));
                1 + m
            },
            HandshakePacketGuestToHost::Verify { nonce, challenge } => {
                write_u8(buf, 3);
                write_uuid(buf, *nonce);
                crate::wire::push_bytes(buf, challenge.as_slice());
                assert(final(buf)@ =~= old(buf)@ + spec_serialize_guest(self@));
                1 + 16 + CHALLENGE_LENGTH
            },
            HandshakePacketGuestToHost::SetIntent { intent } => {
                write_u8(buf, 4);
                write_u8(buf, intent.as_u8());
                assert(final(buf)@ =~= old(buf)@ + spec_serialize_guest(self@));
                2
            },
        }
    }

    /// Decode the guest packet at the front of `buf`; returns it with the
    /// position just past it. Unknown discriminators are invalid data.
    pub fn deserialize(buf: &[u8]) -> (r: Result<(Self, usize), WireError>)
        ensures
            match r {
                Ok((p, n)) => spec_parse_guest(buf@) == Some((p@, n as int)),
                Err(_) => spec_parse_guest(buf@) is None,
            },
    {
        match read_u8(buf, 0) {
            None => Err(WireError::Truncated),
            Some((disc, p)) => {
                if disc == 1 {
                    match read_u8(buf, p) {
                        None => Err(WireError::Truncated),
                        Some((t, p2)) => Ok(
                            (
                                HandshakePacketGuestToHost::Hello {
                                    connection_type: ConnectionType::from_u8(t),
                                },
                                p2,
                            ),
                        ),
                    }
                } else if disc == 2 {
                    match read_string(buf, p) {
                        Err(e) => Err(e),
                        Ok((hostname, p2)) => Ok(
                            (HandshakePacketGuestToHost::Identify { hostname }, p2),
                        ),
                    }
                } else if disc == 3 {
                    match read_u128(buf, p) {
                        None => Err(WireError::Truncated),
                        Some((nonce, p2)) => match read_bytes(buf, p2, CHALLENGE_LENGTH) {
                            None => Err(WireError::Truncated),
                            Some((challenge, p3)) => Ok(
                                (HandshakePacketGuestToHost::Verify { nonce, challenge }, p3),
                            ),
                        },
                    }
                } else if disc == 4 {
                    match read_u8(buf, p) {
                        None => Err(WireError::Truncated),
                        Some((i, p2)) => Ok(
                            (
                                HandshakePacketGuestToHost::SetIntent {
                                    intent: ConnectionIntent::from_u8(i),
                                },
                                p2,
                            ),
                        ),
                    }
                } else {
                    Err(WireError::InvalidData)
                }
            },
        }
    }
}

/// Round trip for guest packets: parsing a serialized packet yields the
/// packet back, consuming exactly its bytes.
pub proof fn lemma_guest_round_trip(v: GuestPacketView)
    requires
        v.wf(),
    ensures
        spec_parse_guest(spec_serialize_guest(v)) == Some(
            (v, spec_serialize_guest(v).len() as int),
        ),
{
    let s = spec_serialize_guest(v);
    match v {
        GuestPacketView::Hello { connection_type } => {
            lemma_read_u8_at(s, 0, 1);
            lemma_read_u8_at(s, 1, connection_type.spec_as_u8());
        },
        GuestPacketView::Identify { hostname } => {
            lemma_read_u8_at(s, 0, 2);
            let w = spec_write_string(hostname);
            assert(s.subrange(1, 1 + w.len() as int) =~= w);
            lemma_read_string_at(s, 1, hostname);
        },
        GuestPacketView::Verify { nonce, challenge } => {
            lemma_read_u8_at(s, 0, 3);
            assert(s.subrange(1, 17) =~= spec_u128_be(nonce));
            lemma_read_u128_at(s, 1, nonce);
            assert(s.subrange(17, 17 + challenge.len() as int) =~= challenge);
            lemma_read_bytes_at(s, 17, challenge);
        },
        GuestPacketView::SetIntent { intent } => {
            lemma_read_u8_at(s, 0, 4);
            lemma_read_u8_at(s, 1, intent.spec_as_u8());
        },
    }
}

/// Packets the host (listening side) sends back to the guest.
#[derive(PartialEq, Debug)]
pub enum HandshakePacketHostToGuest {
    /// Acknowledge the guest connection.
    Acknowledge { ok: bool, err: Option<String> },
    /// Send the encrypted challenge bytes to the guest to decrypt.
    Challenge { encrypted_challenge: Vec<u8>, nonce: u128 },
    /// Close the handshake frame.
    Close { can_continue: bool, err: Option<String> },
    /// Tell the guest whether the challenge was passed.
    ChallengeResponse { successful: bool },
}

/// Spec-level shape of a host packet.
pub enum HostPacketView {
    Acknowledge { ok: bool, err: Option<Seq<char>> },
    Challenge { encrypted_challenge: Seq<u8>, nonce: u128 },
    Close { can_continue: bool, err: Option<Seq<char>> },
    ChallengeResponse { successful: bool },
}

impl View for HandshakePacketHostToGuest {
    type V = HostPacketView;

    open spec fn view(&self) -> HostPacketView {
        match self {
            HandshakePacketHostToGuest::Acknowledge { ok, err } => HostPacketView::Acknowledge {
                ok: *ok,
                err: opt_str_view(*err),
            },
            HandshakePacketHostToGuest::Challenge { encrypted_challenge, nonce } => {
                HostPacketView::Challenge {
                    encrypted_challenge: encrypted_challenge@,
                    nonce: *nonce,
                }
            },
            HandshakePacketHostToGuest::Close { can_continue, err } => HostPacketView::Close {
                can_continue: *can_continue,
                err: opt_str_view(*err),
            },
            HandshakePacketHostToGuest::ChallengeResponse { successful } => {
                HostPacketView::ChallengeResponse { successful: *successful }
            },
        }
    }
}

/// Byte length limits on an optional error message.
pub open spec fn wf_err(err: Option<Seq<char>>) -> bool {
    err is Some ==> encode_utf8(err.unwrap()).len() + 11 <= usize::MAX && encode_utf8(
        err.unwrap(),
    ).len() <= u64::MAX
}

impl HostPacketView {
    /// A host packet that can be put on the wire: an encrypted challenge
    /// leaves room for its fixed header inside a maximum-length frame, and
    /// error messages fit their length field.
    pub open spec fn wf(self) -> bool {
        match self {
            HostPacketView::Acknowledge { err, .. } => wf_err(err),
            HostPacketView::Challenge { encrypted_challenge, .. } => encrypted_challenge.len()
                <= PACKET_MAX_LENGTH - CHALLENGE_HEADER_LENGTH,
            HostPacketView::Close { err, .. } => wf_err(err),
            HostPacketView::ChallengeResponse { .. } => true,
        }
    }
}

pub open spec fn bool_byte(b: bool) -> u8 {
    if b {
        1u8
    } else {
        0u8
    }
}

/// The exact bytes of a serialized host packet.
pub open spec fn spec_serialize_host(v: HostPacketView) -> Seq<u8> {
    match v {
        HostPacketView::Acknowledge { ok, err } => seq![1u8, bool_byte(ok)]
            + spec_write_optional_string(err),
        HostPacketView::Challenge { encrypted_challenge, nonce } => seq![2u8] + spec_u64_be(
            encrypted_challenge.len() as u64,
        ) + encrypted_challenge + spec_u128_be(nonce),
        HostPacketView::Close { can_continue, err } => seq![3u8, bool_byte(can_continue)]
            + spec_write_optional_string(err),
        HostPacketView::ChallengeResponse { successful } => seq![4u8, bool_byte(successful)],
    }
}

/// The host packet at the front of `b`. An encrypted challenge announcing
/// more than a maximum frame can carry is rejected before reading it.
pub open spec fn spec_parse_host(b: Seq<u8>) -> Option<(HostPacketView, int)> {
    match spec_read_u8(b, 0) {
        None => None,
        Some((disc, p)) => {
            if disc == 1 {
                match spec_read_u8(b, p) {
                    None => None,
                    Some((ok, p2)) => match spec_read_optional_string(b, p2) {
                        None => None,
                        Some((err, p3)) => Some(
                            (HostPacketView::Acknowledge { ok: ok != 0, err }, p3),
                        ),
                    },
                }
            } else if disc == 2 {
                match spec_read_u64(b, p) {
                    None => None,
                    Some((len, p2)) => {
                        if len > PACKET_MAX_LENGTH - CHALLENGE_HEADER_LENGTH {
                            None
                        } else {
                            match spec_read_bytes(b, p2, len as int) {
                                None => None,
                                Some((encrypted_challenge, p3)) => match spec_read_u128(b, p3) {
                                    None => None,
                                    Some((nonce, p4)) => Some(
                                        (
                                            HostPacketView::Challenge {
                                                encrypted_challenge,
                                                nonce,
                                            },
                                            p4,
                                        ),
                                    ),
                                },
                            }
                        }
                    },
                }
            } else if disc == 3 {
                match spec_read_u8(b, p) {
                    None => None,
                    Some((c, p2)) => match spec_read_optional_string(b, p2) {
                        None => None,
                        Some((err, p3)) => Some(
                            (HostPacketView::Close { can_continue: c != 0, err }, p3),
                        ),
                    },
                }
            } else if disc == 4 {
                match spec_read_u8(b, p) {
                    None => None,
                    Some((s, p2)) => Some(
                        (HostPacketView::ChallengeResponse { successful: s != 0 }, p2),
                    ),
                }
            } else {
                None
            }
        },
    }
}

impl HandshakePacketHostToGuest {
    /// Append this packet's bytes to `buf`; returns how many bytes were
    /// written.
    pub fn serialize(&self, buf: &mut Vec<u8>) -> (n: usize)
        requires
            self@.wf(),
        ensures
            final(buf)@ == old(buf)@ + spec_serialize_host(self@),
            n == spec_serialize_host(self@).len(),
    {
        match self {
            HandshakePacketHostToGuest::Acknowledge { ok, err } => {
                write_u8(buf, 1);
                write_u8(buf, if *ok { 1 } else { 0 });
                let m: usize = write_optional_string(buf, err);
                assert(final(buf)@ =~= old(buf)@ + spec_serialize_host(self@));
                2 + m
            },
            HandshakePacketHostToGuest::Challenge { encrypted_challenge, nonce } => {
                write_u8(buf, 2);
                write_u64(buf, encrypted_challenge.len() as u64);
                crate::wire::push_bytes(buf, encrypted_challenge.as_slice());
                write_uuid(buf, *nonce);
                assert(final(buf)@ =~= old(buf)@ + spec_serialize_host(self@));
                1 + 8 + encrypted_challenge.len() + 16
            },
            HandshakePacketHostToGuest::Close { can_continue, err } => {
                write_u8(buf, 3);
                write_u8(buf, if *can_continue { 1 } else { 0 });
                let m: usize = write_optional_string(buf, err);
                assert(final(buf)@ =~= old(buf)@ + spec_serialize_host(self@));
                2 + m
            },
            HandshakePacketHostToGuest::ChallengeResponse { successful } => {
                write_u8(buf, 4);
                write_u8(buf, if *successful { 1 } else { 0 });
                assert(final(buf)@ =~= old(buf)@ + spec_serialize_host(self@));
                2
            },
        }
    }

    /// Decode the host packet at the front of `buf`; returns it with the
    /// position just past it. Unknown discriminators and oversized challenge
    /// lengths are invalid data.
    pub fn deserialize(buf: &[u8]) -> (r: Result<(Self, usize), WireError>)
        ensures
            match r {
                Ok((p, n)) => spec_parse_host(buf@) == Some((p@, n as int)),
                Err(_) => spec_parse_host(buf@) is None,
            },
    {
        match read_u8(buf, 0) {
            None => Err(WireError::Truncated),
            Some((disc, p)) => {
                if disc == 1 {
                    match read_u8(buf, p) {
                        None => Err(WireError::Truncated),
                        Some((ok, p2)) => match read_optional_string(buf, p2) {
                            Err(e) => Err(e),
                            Ok((err, p3)) => Ok(
                                (
                                    HandshakePacketHostToGuest::Acknowledge {
                                        ok: ok != 0,
                                        err,
                                    },
                                    p3,
                                ),
                            ),
                        },
                    }
                } else if disc == 2 {
                    match read_u64(buf, p) {
                        None => Err(WireError::Truncated),
                        Some((len, p2)) => {
                            if len > (PACKET_MAX_LENGTH - CHALLENGE_HEADER_LENGTH) as u64 {
                                Err(WireError::InvalidData)
                            } else {
                                match read_bytes(buf, p2, len as usize) {
                                    None => Err(WireError::Truncated),
                                    Some((encrypted_challenge, p3)) => match read_u128(
                                        buf,
                                        p3,
                                    ) {
                                        None => Err(WireError::Truncated),
                                        Some((nonce, p4)) => Ok(
                                            (
                                                HandshakePacketHostToGuest::Challenge {
                                                    encrypted_challenge,
                                                    nonce,
                                                },
                                                p4,
                                            ),
                                        ),
                                    },
                                }
                            }
                        },
                    }
                } else if disc == 3 {
                    match read_u8(buf, p) {
                        None => Err(WireError::Truncated),
                        Some((c, p2)) => match read_optional_string(buf, p2) {
                            Err(e) => Err(e),
                            Ok((err, p3)) => Ok(
                                (
                                    HandshakePacketHostToGuest::Close {
                                        can_continue: c != 0,
                                        err,
                                    },
                                    p3,
                                ),
                            ),
                        },
                    }
                } else if disc == 4 {
                    match read_u8(buf, p) {
                        None => Err(WireError::Truncated),
                        Some((s, p2)) => Ok(
                            (
                                HandshakePacketHostToGuest::ChallengeResponse {
                                    successful: s != 0,
                                },
                                p2,
                            ),
                        ),
                    }
                } else {
                    Err(WireError::InvalidData)
                }
            },
        }
    }
}

/// Round trip for host packets: parsing a serialized packet yields the
/// packet back, consuming exactly its bytes.
pub proof fn lemma_host_round_trip(v: HostPacketView)
    requires
        v.wf(),
    ensures
        spec_parse_host(spec_serialize_host(v)) == Some(
            (v, spec_serialize_host(v).len() as int),
        ),
{
    let s = spec_serialize_host(v);
    match v {
        HostPacketView::Acknowledge { ok, err } => {
            lemma_read_u8_at(s, 0, 1);
            lemma_read_u8_at(s, 1, bool_byte(ok));
            let w = spec_write_optional_string(err);
            assert(s.subrange(2, 2 + w.len() as int) =~= w);
            lemma_read_optional_string_at(s, 2, err);
        },
        HostPacketView::Challenge { encrypted_challenge, nonce } => {
            let cl = encrypted_challenge.len() as int;
            lemma_read_u8_at(s, 0, 2);
            assert(s.subrange(1, 9) =~= spec_u64_be(encrypted_challenge.len() as u64));
            lemma_read_u64_at(s, 1, encrypted_challenge.len() as u64);
            assert(s.subrange(9, 9 + cl) =~= encrypted_challenge);
            lemma_read_bytes_at(s, 9, encrypted_challenge);
            assert(s.subrange(9 + cl, 9 + cl + 16) =~= spec_u128_be(nonce));
            lemma_read_u128_at(s, 9 + cl, nonce);
        },
        HostPacketView::Close { can_continue, err } => {
            lemma_read_u8_at(s, 0, 3);
            lemma_read_u8_at(s, 1, bool_byte(can_continue));
            let w = spec_write_optional_string(err);
            assert(s.subrange(2, 2 + w.len() as int) =~= w);
            lemma_read_optional_string_at(s, 2, err);
        },
        HostPacketView::ChallengeResponse { successful } => {
            lemma_read_u8_at(s, 0, 4);
            lemma_read_u8_at(s, 1, bool_byte(successful));
        },
    }
}

} // verus!
