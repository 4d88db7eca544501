//! The generic data envelope: a `u64` byte length followed by that many raw
//! bytes, used when tunnelling registered payloads independently of the
//! transfer framing.

use vstd::prelude::*;

use crate::wire::{
    read_bytes, read_u64, spec_read_bytes, spec_read_u64, spec_u64_be, write_u64, WireError,
};
use crate::wire::{lemma_read_bytes_at, lemma_read_u64_at};

verus! {

/// An opaque payload with its explicit byte length.
#[derive(PartialEq, Debug)]
pub struct DataPacket {
    pub length: u64,
    pub data: Vec<u8>,
}

/// Spec-level shape of a data envelope.
pub struct DataPacketView {
    pub length: u64,
    pub data: Seq<u8>,
}

impl View for DataPacket {
    type V = DataPacketView;

    open spec fn view(&self) -> DataPacketView {
        DataPacketView { length: self.length, data: self.data@ }
    }
}

impl DataPacketView {
    /// The length field states exactly how many data bytes the packet holds.
    pub open spec fn wf(self) -> bool {
        self.length == self.data.len()
    }
}

pub open spec fn spec_serialize_data(v: DataPacketView) -> Seq<u8> {
    spec_u64_be(v.length) + v.data
}

pub open spec fn spec_parse_data(b: Seq<u8>) -> Option<(DataPacketView, int)> {
    match spec_read_u64(b, 0) {
        None => None,
        Some((length, p)) => match spec_read_bytes(b, p, length as int) {
            None => None,
            Some((data, p2)) => Some((DataPacketView { length, data }, p2)),
        },
    }
}

impl DataPacket {
    /// Wrap a payload, recording its length.
    pub fn new(data: Vec<u8>) -> (r: DataPacket)
        ensures
            r@.wf(),
            r@.data == data@,
    {
        let length: u64 = data.len() as u64;
        DataPacket { length, data }
    }

    /// Append this packet's bytes to `buf`; returns how many bytes were
    /// written.
    pub fn serialize(&self, buf: &mut Vec<u8>) -> (n: usize)
        requires
            self@.wf(),
            self@.data.len() + 8 <= usize::MAX,
        ensures
            final(buf)@ == old(buf)@ + spec_serialize_data(self@),
            n == spec_serialize_data(self@).len(),
    {
        write_u64(buf, self.length);
        crate::wire::push_bytes(buf, self.data.as_slice());
        8 + self.data.len()
    }

    /// Decode the packet at the front of `buf`.
    pub fn deserialize(buf: &[u8]) -> (r: Result<(Self, usize), WireError>)
        ensures
            match r {
                Ok((p, n)) => spec_parse_data(buf@) == Some((p@, n as int)) && p@.wf(),
                Err(_) => spec_parse_data(buf@) is None,
            },
    {
        match read_u64(buf, 0) {
            None => Err(WireError::Truncated),
            Some((length, p)) => {
                if length > (buf.len() - p) as u64 {
                    Err(WireError::Truncated)
                } else {
                    match read_bytes(buf, p, length as usize) {
                        None => Err(WireError::Truncated),
                        Some((data, p2)) => Ok((DataPacket { length, data }, p2)),
                    }
                }
            },
        }
    }
}

/// Round trip for the data envelope.
pub proof fn lemma_data_round_trip(v: DataPacketView)
    requires
        v.wf(),
    ensures
        spec_parse_data(spec_serialize_data(v)) == Some(
            (v, spec_serialize_data(v).len() as int),
        ),
{
    let s = spec_serialize_data(v);
    assert(s.subrange(0, 8) =~= spec_u64_be(v.length));
    lemma_read_u64_at(s, 0, v.length);
    assert(s.subrange(8, 8 + v.data.len() as int) =~= v.data);
    lemma_read_bytes_at(s, 8, v.data);
}

} // verus!
