//! Transfer packets.
//!
//! After the handshake both sides remap to this family. The guest announces
//! an object with IdentifyObject, then streams its bytes in SendChunk
//! packets; the host answers the announcement with AcknowledgeObject.

use vstd::prelude::*;

use crate::wire::{
    read_bytes, read_u128, read_u64, read_u8, spec_read_bytes, spec_read_u128, spec_read_u64,
    spec_read_u8, spec_u128_be, spec_u64_be, write_u64, write_u8, write_uuid, WireError,
};
use crate::wire::{lemma_read_bytes_at, lemma_read_u128_at, lemma_read_u64_at, lemma_read_u8_at};

verus! {

/// Packets the receiving host sends back to the sending guest.
#[derive(PartialEq, Debug)]
pub enum TransferPacketHostToGuest {
    /// Whether the host will accept the object just announced.
    AcknowledgeObject { can_send: bool },
}

/// Spec-level shape of a host transfer packet.
pub enum TransferHostView {
    AcknowledgeObject { can_send: bool },
}

impl View for TransferPacketHostToGuest {
    type V = TransferHostView;

    open spec fn view(&self) -> TransferHostView {
        match self {
            TransferPacketHostToGuest::AcknowledgeObject { can_send } => {
                TransferHostView::AcknowledgeObject { can_send: *can_send }
            },
        }
    }
}

pub open spec fn spec_serialize_transfer_host(v: TransferHostView) -> Seq<u8> {
    match v {
        TransferHostView::AcknowledgeObject { can_send } => seq![
            1u8,
            if can_send {
                1u8
            } else {
                0u8
            },
        ],
    }
}

pub open spec fn spec_parse_transfer_host(b: Seq<u8>) -> Option<(TransferHostView, int)> {
    match spec_read_u8(b, 0) {
        None => None,
        Some((disc, p)) => {
            if disc == 1 {
                match spec_read_u8(b, p) {
                    None => None,
                    Some((c, p2)) => Some(
                        (TransferHostView::AcknowledgeObject { can_send: c != 0 }, p2),
                    ),
                }
            } else {
                None
            }
        },
    }
}

impl TransferPacketHostToGuest {
    /// Append this packet's bytes to `buf`; returns how many bytes were
    /// written.
    pub fn serialize(&self, buf: &mut Vec<u8>) -> (n: usize)
        ensures
            final(buf)@ == old(buf)@ + spec_serialize_transfer_host(self@),
            n == spec_serialize_transfer_host(self@).len(),
    {
        match self {
            TransferPacketHostToGuest::AcknowledgeObject { can_send } => {
                write_u8(buf, 1);
                write_u8(buf, if *can_send { 1 } else { 0 });
                assert(final(buf)@ =~= old(buf)@ + spec_serialize_transfer_host(self@));
                2
            },
        }
    }

    /// Decode the packet at the front of `buf`.
    pub fn deserialize(buf: &[u8]) -> (r: Result<(Self, usize), WireError>)
        ensures
            match r {
                Ok((p, n)) => spec_parse_transfer_host(buf@) == Some((p@, n as int)),
                Err(_) => spec_parse_transfer_host(buf@) is None,
            },
    {
        match read_u8(buf, 0) {
            None => Err(WireError::Truncated),
            Some((disc, p)) => {
                if disc == 1 {
                    match read_u8(buf, p) {
                        None => Err(WireError::Truncated),
                        Some((c, p2)) => Ok(
                            (
                                TransferPacketHostToGuest::AcknowledgeObject {
                                    can_send: c != 0,
                                },
                                p2,
                            ),
                        ),
                    }
                } else {
                    Err(WireError::InvalidData)
                }
            },
        }
    }
}

/// Round trip for host transfer packets.
pub proof fn lemma_transfer_host_round_trip(v: TransferHostView)
    ensures
        spec_parse_transfer_host(spec_serialize_transfer_host(v)) == Some(
            (v, spec_serialize_transfer_host(v).len() as int),
        ),
{
    let s = spec_serialize_transfer_host(v);
    match v {
        TransferHostView::AcknowledgeObject { can_send } => {
            lemma_read_u8_at(s, 0, 1);
            lemma_read_u8_at(
                s,
                1,
                if can_send {
                    1u8
                } else {
                    0u8
                },
            );
        },
    }
}

/// Packets the sending guest streams to the receiving host.
#[derive(PartialEq, Debug)]
pub enum TransferPacketGuestToHost {
    /// Announce an object: its stable type identifier, total encoded byte
    /// length, and how many chunks will follow.
    IdentifyObject { data_id: u128, data_len: u64, data_chunks: u64 },
    /// One chunk of the object's bytes; `done` marks the last chunk.
    SendChunk { data: Vec<u8>, done: bool },
}

/// Spec-level shape of a guest transfer packet.
pub enum TransferGuestView {
    IdentifyObject { data_id: u128, data_len: u64, data_chunks: u64 },
    SendChunk { data: Seq<u8>, done: bool },
}

impl View for TransferPacketGuestToHost {
    type V = TransferGuestView;

    open spec fn view(&self) -> TransferGuestView {
        match self {
            TransferPacketGuestToHost::IdentifyObject { data_id, data_len, data_chunks } => {
                TransferGuestView::IdentifyObject {
                    data_id: *data_id,
                    data_len: *data_len,
                    data_chunks: *data_chunks,
                }
            },
            TransferPacketGuestToHost::SendChunk { data, done } => TransferGuestView::SendChunk {
                data: data@,
                done: *done,
            },
        }
    }
}

impl TransferGuestView {
    /// A guest transfer packet that can be put on the wire: a chunk's byte
    /// count fits its length field.
    pub open spec fn wf(self) -> bool {
        match self {
            TransferGuestView::IdentifyObject { .. } => true,
            TransferGuestView::SendChunk { data, .. } => data.len() <= u64::MAX,
        }
    }
}

pub open spec fn spec_serialize_transfer_guest(v: TransferGuestView) -> Seq<u8> {
    match v {
        TransferGuestView::IdentifyObject { data_id, data_len, data_chunks } => seq![1u8]
            + spec_u128_be(data_id) + spec_u64_be(data_len) + spec_u64_be(data_chunks),
        TransferGuestView::SendChunk { data, done } => seq![2u8] + spec_u64_be(
            data.len() as u64,
        ) + data + seq![
            if done {
                1u8
            } else {
                0u8
            },
        ],
    }
}

pub open spec fn spec_parse_transfer_guest(b: Seq<u8>) -> Option<(TransferGuestView, int)> {
    match spec_read_u8(b, 0) {
        None => None,
        Some((disc, p)) => {
            if disc == 1 {
                match spec_read_u128(b, p) {
                    None => None,
                    Some((data_id, p2)) => match spec_read_u64(b, p2) {
                        None => None,
                        Some((data_len, p3)) => match spec_read_u64(b, p3) {
                            None => None,
                            Some((data_chunks, p4)) => Some(
                                (
                                    TransferGuestView::IdentifyObject {
                                        data_id,
                                        data_len,
                                        data_chunks,
                                    },
                                    p4,
                                ),
                            ),
                        },
                    },
                }
            } else if disc == 2 {
                match spec_read_u64(b, p) {
                    None => None,
                    Some((len, p2)) => match spec_read_bytes(b, p2, len as int) {
                        None => None,
                        Some((data, p3)) => match spec_read_u8(b, p3) {
                            None => None,
                            Some((d, p4)) => Some(
                                (TransferGuestView::SendChunk { data, done: d != 0 }, p4),
                            ),
                        },
                    },
                }
            } else {
                None
            }
        },
    }
}

impl TransferPacketGuestToHost {
    /// Append this packet's bytes to `buf`; returns how many bytes were
    /// written.
    pub fn serialize(&self, buf: &mut Vec<u8>) -> (n: usize)
        requires
            self@ matches TransferGuestView::SendChunk { data, .. } ==> data.len() + 10
                <= usize::MAX,
        ensures
            final(buf)@ == old(buf)@ + spec_serialize_transfer_guest(self@),
            n == spec_serialize_transfer_guest(self@).len(),
    {
        match self {
            TransferPacketGuestToHost::IdentifyObject { data_id, data_len, data_chunks } => {
                write_u8(buf, 1);
                write_uuid(buf, *data_id);
                write_u64(buf, *data_len);
                write_u64(buf, *data_chunks);
                assert(final(buf)@ =~= old(buf)@ + spec_serialize_transfer_guest(self@));
                33
            },
            TransferPacketGuestToHost::SendChunk { data, done } => {
                write_u8(buf, 2);
                write_u64(buf, data.len() as u64);
                crate::wire::push_bytes(buf, data.as_slice());
                write_u8(buf, if *done { 1 } else { 0 });
                assert(final(buf)@ =~= old(buf)@ + spec_serialize_transfer_guest(self@));
                10 + data.len()
            },
        }
    }

    /// Decode the packet at the front of `buf`.
    pub fn deserialize(buf: &[u8]) -> (r: Result<(Self, usize), WireError>)
        ensures
            match r {
                Ok((p, n)) => spec_parse_transfer_guest(buf@) == Some((p@, n as int)),
                Err(_) => spec_parse_transfer_guest(buf@) is None,
            },
    {
        match read_u8(buf, 0) {
            None => Err(WireError::Truncated),
            Some((disc, p)) => {
                if disc == 1 {
                    match read_u128(buf, p) {
                        None => Err(WireError::Truncated),
                        Some((data_id, p2)) => match read_u64(buf, p2) {
                            None => Err(WireError::Truncated),
                            Some((data_len, p3)) => match read_u64(buf, p3) {
                                None => Err(WireError::Truncated),
                                Some((data_chunks, p4)) => Ok(
                                    (
                                        TransferPacketGuestToHost::IdentifyObject {
                                            data_id,
                                            data_len,
                                            data_chunks,
                                        },
                                        p4,
                                    ),
                                ),
                            },
                        },
                    }
                } else if disc == 2 {
                    match read_u64(buf, p) {
                        None => Err(WireError::Truncated),
                        Some((len, p2)) => {
                            if len > (buf.len() - p2) as u64 {
                                Err(WireError::Truncated)
                            } else {
                                match read_bytes(buf, p2, len as usize) {
                                    None => Err(WireError::Truncated),
                                    Some((data, p3)) => match read_u8(buf, p3) {
                                        None => Err(WireError::Truncated),
                                        Some((d, p4)) => Ok(
                                            (
                                                TransferPacketGuestToHost::SendChunk {
                                                    data,
                                                    done: d != 0,
                                                },
                                                p4,
                                            ),
                                        ),
                                    },
                                }
                            }
                        },
                    }
                } else {
                    Err(WireError::InvalidData)
                }
            },
        }
    }
}

/// Round trip for guest transfer packets.
pub proof fn lemma_transfer_guest_round_trip(v: TransferGuestView)
    requires
        v.wf(),
    ensures
        spec_parse_transfer_guest(spec_serialize_transfer_guest(v)) == Some(
            (v, spec_serialize_transfer_guest(v).len() as int),
        ),
{
    let s = spec_serialize_transfer_guest(v);
    match v {
        TransferGuestView::IdentifyObject { data_id, data_len, data_chunks } => {
            lemma_read_u8_at(s, 0, 1);
            assert(s.subrange(1, 17) =~= spec_u128_be(data_id));
            lemma_read_u128_at(s, 1, data_id);
            assert(s.subrange(17, 25) =~= spec_u64_be(data_len));
            lemma_read_u64_at(s, 17, data_len);
            assert(s.subrange(25, 33) =~= spec_u64_be(data_chunks));
            lemma_read_u64_at(s, 25, data_chunks);
        },
        TransferGuestView::SendChunk { data, done } => {
            let dl = data.len() as int;
            lemma_read_u8_at(s, 0, 2);
            assert(s.subrange(1, 9) =~= spec_u64_be(data.len() as u64));
            lemma_read_u64_at(s, 1, data.len() as u64);
            assert(s.subrange(9, 9 + dl) =~= data);
            lemma_read_bytes_at(s, 9, data);
            lemma_read_u8_at(
                s,
                9 + dl,
                if done {
                    1u8
                } else {
                    0u8
                },
            );
        },
    }
}

} // verus!
