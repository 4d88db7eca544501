//! Chunked delivery of data objects over an established connection.
//!
//! The sender announces an object with IdentifyObject, then streams its
//! encoded bytes in SendChunk packets of at most [`MAX_CHUNK_LENGTH`] bytes,
//! marking exactly the last chunk done. The receiver accepts exactly the
//! announced number of chunks, whose bytes reassemble to exactly the
//! announced length.

use vstd::prelude::*;

use crate::frame::PACKET_MAX_LENGTH;
use crate::registry::DataTypeRegistry;
use crate::transfer::{
    TransferGuestView, TransferHostView, TransferPacketGuestToHost, TransferPacketHostToGuest,
};
use crate::wire::read_bytes;
use vstd::pervasive::unreached;

verus! {

/// A SendChunk packet needs two bytes for its own framing (discriminator and
/// done flag), so a chunk carries at most this many payload bytes.
pub const MAX_CHUNK_LENGTH: usize = PACKET_MAX_LENGTH - 2;

/// What can go wrong in a chunked transfer.
#[derive(Clone, Copy, PartialEq, Eq, Structural, Debug)]
pub enum TransferError {
    /// The object's type is not registered on the sending side.
    UnknownType,
    /// A chunk before the announced last one carried the done mark.
    UnexpectedDone,
    /// The announced last chunk did not carry the done mark.
    MissingDone,
    /// The chunk bytes run past, or the last chunk did not reach, the
    /// announced object length.
    LengthMismatch,
}

/// How many chunks of `chunk` bytes cover `len` bytes: none for an empty
/// object, else the least number whose total capacity reaches `len`.
pub open spec fn spec_chunk_count(len: int, chunk: int) -> int
    recommends
        chunk > 0,
    decreases len,
{
    if len <= 0 || chunk <= 0 {
        0
    } else if len <= chunk {
        1
    } else {
        1 + spec_chunk_count(len - chunk, chunk)
    }
}

/// The bytes of a chunk sequence, in order.
pub open spec fn spec_concat_chunks(s: Seq<TransferPacketGuestToHost>) -> Seq<u8>
    decreases s.len(),
{
    if s.len() == 0 {
        Seq::empty()
    } else {
        spec_concat_chunks(s.drop_last()) + (match s.last() {
            TransferPacketGuestToHost::SendChunk { data, .. } => data@,
            _ => Seq::empty(),
        })
    }
}

/// Packet `i` of a chunking of `bytes`: the SendChunk carrying the `i`-th
/// piece of at most `chunk` bytes, marked done exactly when it reaches the
/// end of `bytes`.
pub open spec fn spec_chunk_at(
    bytes: Seq<u8>,
    p: TransferPacketGuestToHost,
    i: int,
    chunk: int,
) -> bool {
    p matches TransferPacketGuestToHost::SendChunk { data, done } && data@ == bytes.subrange(
        i * chunk,
        if (i + 1) * chunk <= bytes.len() {
            (i + 1) * chunk
        } else {
            bytes.len() as int
        },
    ) && done == ((i + 1) * chunk >= bytes.len())
}

proof fn lemma_chunk_count_bounds(len: int, chunk: int)
    requires
        chunk > 0,
        len >= 0,
    ensures
        len <= spec_chunk_count(len, chunk) * chunk,
        len > 0 ==> (spec_chunk_count(len, chunk) - 1) * chunk < len,
        spec_chunk_count(len, chunk) == 0 <==> len == 0,
    decreases len,
{
    if len > chunk {
        lemma_chunk_count_bounds(len - chunk, chunk);
        let k = spec_chunk_count(len - chunk, chunk);
        assert((1 + k) * chunk == chunk + k * chunk) by (nonlinear_arith);
        assert((k - 1) * chunk + chunk == k * chunk) by (nonlinear_arith);
    }
}

impl TransferPacketGuestToHost {
    /// Split an object's bytes into the SendChunk packets announcing it:
    /// as many chunks as needed at up to [`MAX_CHUNK_LENGTH`] bytes each,
    /// their bytes concatenating back to the object, with the done mark on
    /// exactly the last chunk.
    pub fn chunk_object(bytes: &Vec<u8>) -> (r: Vec<TransferPacketGuestToHost>)
        ensures
            r@.len() == spec_chunk_count(bytes@.len() as int, MAX_CHUNK_LENGTH as int),
            forall|i: int|
                0 <= i < r@.len() ==> spec_chunk_at(
                    bytes@,
                    #[trigger] r@[i],
                    i,
                    MAX_CHUNK_LENGTH as int,
                ),
            forall|i: int|
                0 <= i < r@.len() ==> ((#[trigger] r@[i]) matches
                    TransferPacketGuestToHost::SendChunk { done, .. } && done == (i == r@.len()
                    - 1)),
            spec_concat_chunks(r@) == bytes@,
    {
        let len: usize = bytes.len();
        let chunk: usize = MAX_CHUNK_LENGTH;
        let mut r: Vec<TransferPacketGuestToHost> = Vec::new();
        let mut pos: usize = 0;
        proof {
            assert(0int * (chunk as int) == 0) by (nonlinear_arith);
        }
        while pos < len
            invariant
                pos <= len,
                len == bytes@.len(),
                chunk == MAX_CHUNK_LENGTH,
                pos < len ==> pos == r@.len() * chunk,
                pos == len ==> r@.len() == spec_chunk_count(len as int, chunk as int),
                r@.len() + spec_chunk_count(len - pos, chunk as int) == spec_chunk_count(
                    len as int,
                    chunk as int,
                ),
                forall|i: int|
                    0 <= i < r@.len() ==> spec_chunk_at(
                        bytes@,
                        #[trigger] r@[i],
                        i,
                        chunk as int,
                    ),
                spec_concat_chunks(r@) == bytes@.take(pos as int),
            decreases len - pos,
        {
            let end: usize = if len - pos >= chunk {
                pos + chunk
            } else {
                len
            };
            let piece: Vec<u8> = match read_bytes(bytes.as_slice(), pos, end - pos) {
                Some((v, _)) => v,
                None => unreached(),
            };
            let done: bool = end == len;
            let ghost old_r = r@;
            r.push(TransferPacketGuestToHost::SendChunk { data: piece, done });
            proof {
                let gi = old_r.len() as int;
                let gc = chunk as int;
                assert((gi + 1) * gc == gi * gc + gc) by (nonlinear_arith);
                assert(r@.drop_last() =~= old_r);
                assert(spec_concat_chunks(r@) == spec_concat_chunks(old_r) + piece@);
                assert(bytes@.take(end as int) =~= bytes@.take(pos as int) + bytes@.subrange(
                    pos as int,
                    end as int,
                ));
                assert(spec_chunk_at(bytes@, r@[old_r.len() as int], old_r.len() as int,
                    chunk as int));
            }
            pos = end;
        }
        proof {
            assert(bytes@.take(len as int) =~= bytes@);
            let n = r@.len() as int;
            let c = chunk as int;
            lemma_chunk_count_bounds(len as int, c);
            assert forall|i: int| 0 <= i < n implies (#[trigger] r@[i]) matches
                TransferPacketGuestToHost::SendChunk { done, .. } && done == (i == n - 1) by {
                assert(spec_chunk_at(bytes@, r@[i], i, c));
                if i < n - 1 {
                    assert((i + 1) * c <= (n - 1) * c) by (nonlinear_arith)
                        requires
                            i + 1 <= n - 1 && c > 0,
                    ;
                } else {
                    assert(n * c >= len);
                }
            }
        }
        r
    }
}

/// The host's answer to an IdentifyObject announcement, and, when the
/// object is accepted, the receiver that will reassemble it. The object is
/// accepted exactly when its identifier is registered and the announcement
/// is consistent: zero chunks can only deliver zero bytes.
pub fn acknowledge_object(
    registry: &DataTypeRegistry,
    data_id: u128,
    data_len: u64,
    data_chunks: u64,
) -> (r: (TransferPacketHostToGuest, Option<TransferReceiver>))
    ensures
        r.0@ == (TransferHostView::AcknowledgeObject {
            can_send: registry.spec_contains_uuid(data_id) && (data_chunks == 0 ==> data_len
                == 0),
        }),
        r.1 is Some <==> registry.spec_contains_uuid(data_id) && (data_chunks == 0 ==> data_len
            == 0),
        r.1 matches Some(recv) ==> recv.data_id == data_id && recv.data_len == data_len
            && recv.data_chunks == data_chunks && recv.received@.len() == 0 && recv.chunks_seen
            == 0,
{
    let consistent: bool = data_chunks > 0 || data_len == 0;
    let can_send = registry.has_by_uuid(data_id) && consistent;
    let receiver = if can_send {
        Some(TransferReceiver {
            data_id,
            data_len,
            data_chunks,
            received: Vec::new(),
            chunks_seen: 0,
        })
    } else {
        None
    };
    (TransferPacketHostToGuest::AcknowledgeObject { can_send }, receiver)
}

/// Reassembles one announced object from its chunks.
pub struct TransferReceiver {
    pub data_id: u128,
    pub data_len: u64,
    pub data_chunks: u64,
    pub received: Vec<u8>,
    pub chunks_seen: u64,
}

impl TransferReceiver {
    /// The bytes received so far stay within the announced length, counted
    /// against the announced chunks.
    pub open spec fn wf(self) -> bool {
        &&& self.received@.len() <= self.data_len
        &&& self.chunks_seen <= self.data_chunks
    }

    /// Feed one SendChunk. The done mark must sit exactly on the announced
    /// last chunk, and the accumulated bytes must reach exactly the
    /// announced length on it and stay below it before it; any violation is
    /// fatal and leaves the receiver unchanged. On the last chunk the
    /// reassembled object is returned.
    pub fn on_chunk(&mut self, data: Vec<u8>, done: bool) -> (r: Result<
        Option<Vec<u8>>,
        TransferError,
    >)
        requires
            old(self).wf(),
            old(self).chunks_seen < old(self).data_chunks,
        ensures
            final(self).wf(),
            final(self).data_id == old(self).data_id,
            final(self).data_len == old(self).data_len,
            final(self).data_chunks == old(self).data_chunks,
            r is Ok <==> ({
                &&& done == (old(self).chunks_seen + 1 == old(self).data_chunks)
                &&& old(self).received@.len() + data@.len() <= old(self).data_len
                &&& ((old(self).received@.len() + data@.len() == old(self).data_len) <==> done)
            }),
            match r {
                Err(e) => {
                    &&& *final(self) == *old(self)
                    &&& e == (if done != (old(self).chunks_seen + 1 == old(self).data_chunks) {
                        if done {
                            TransferError::UnexpectedDone
                        } else {
                            TransferError::MissingDone
                        }
                    } else {
                        TransferError::LengthMismatch
                    })
                },
                Ok(out) => {
                    &&& done == (old(self).chunks_seen + 1 == old(self).data_chunks)
                    &&& final(self).chunks_seen == old(self).chunks_seen + 1
                    &&& match out {
                        None => {
                            &&& !done
                            &&& final(self).received@ == old(self).received@ + data@
                            &&& final(self).received@.len() < old(self).data_len
                        },
                        Some(bytes) => {
                            &&& done
                            &&& bytes@ == old(self).received@ + data@
                            &&& bytes@.len() == old(self).data_len
                            &&& final(self).chunks_seen == final(self).data_chunks
                        },
                    }
                },
            },
    {
        let is_last: bool = self.chunks_seen + 1 == self.data_chunks;
        if done != is_last {
            if done {
                return Err(TransferError::UnexpectedDone);
            } else {
                return Err(TransferError::MissingDone);
            }
        }
        if data.len() as u64 > self.data_len - (self.received.len() as u64) {
            return Err(TransferError::LengthMismatch);
        }
        let new_len: u64 = self.received.len() as u64 + data.len() as u64;
        if is_last {
            if new_len != self.data_len {
                return Err(TransferError::LengthMismatch);
            }
            let mut bytes: Vec<u8> = Vec::new();
            core::mem::swap(&mut bytes, &mut self.received);
            crate::wire::push_bytes(&mut bytes, data.as_slice());
            self.chunks_seen = self.chunks_seen + 1;
            Ok(Some(bytes))
        } else {
            if new_len == self.data_len {
                return Err(TransferError::LengthMismatch);
            }
            crate::wire::push_bytes(&mut self.received, data.as_slice());
            self.chunks_seen = self.chunks_seen + 1;
            Ok(None)
        }
    }
}

/// The sender's plan for one object: the IdentifyObject announcement and
/// the chunk packets, built when (and only when) the object's in-process
/// type is registered.
pub fn prepare_object(
    registry: &DataTypeRegistry,
    type_key: u64,
    bytes: &Vec<u8>,
) -> (r: Result<(TransferPacketGuestToHost, Vec<TransferPacketGuestToHost>), TransferError>)
    ensures
        r is Ok <==> registry.spec_contains_type_key(type_key),
        r matches Ok((ident, chunks)) ==> ({
            &&& ident@ matches TransferGuestView::IdentifyObject {
                data_id,
                data_len,
                data_chunks,
            } && data_len == bytes@.len() && data_chunks == chunks@.len() && (exists|i: int|
                0 <= i < registry@.len() && (#[trigger] registry@[i]).type_key == type_key
                    && registry@[i].id == data_id)
            &&& chunks@.len() == spec_chunk_count(bytes@.len() as int, MAX_CHUNK_LENGTH as int)
            &&& forall|i: int|
                0 <= i < chunks@.len() ==> spec_chunk_at(
                    bytes@,
                    #[trigger] chunks@[i],
                    i,
                    MAX_CHUNK_LENGTH as int,
                )
            &&& forall|i: int|
                0 <= i < chunks@.len() ==> ((#[trigger] chunks@[i]) matches
                    TransferPacketGuestToHost::SendChunk { done, .. } && done == (i
                    == chunks@.len() - 1))
            &&& spec_concat_chunks(chunks@) == bytes@
        }),
        r matches Err(e) ==> e == TransferError::UnknownType,
{
    match registry.by_type_id(type_key) {
        None => Err(TransferError::UnknownType),
        Some(handle) => {
            let chunks = TransferPacketGuestToHost::chunk_object(bytes);
            proof {
                let s = registry@;
                let w = choose|i: int| 0 <= i < s.len() && s[i] == handle;
                assert(0 <= w < s.len() && (#[trigger] s[w]).type_key == type_key && s[w].id
                    == handle.id);
            }
            let ident = TransferPacketGuestToHost::IdentifyObject {
                data_id: handle.id,
                data_len: bytes.len() as u64,
                data_chunks: chunks.len() as u64,
            };
            Ok((ident, chunks))
        },
    }
}

} // verus!
