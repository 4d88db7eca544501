//! Connection-level enums shared by the handshake packets and the state
//! machines: the type a peer announces in its Hello, and the intent it sets
//! once authenticated.

use vstd::prelude::*;

verus! {

/// What kind of peer the guest announces itself as in the Hello packet.
#[derive(Clone, Copy, PartialEq, Eq, Structural, Debug)]
pub enum ConnectionType {
    Unknown,
    Client,
    Server,
}

impl ConnectionType {
    /// Wire discriminator of this connection type.
    pub fn as_u8(&self) -> (r: u8)
        ensures
            r == self.spec_as_u8(),
    {
        match self {
            ConnectionType::Unknown => 0,
            ConnectionType::Client => 1,
            ConnectionType::Server => 2,
        }
    }

    pub open spec fn spec_as_u8(self) -> u8 {
        match self {
            ConnectionType::Unknown => 0,
            ConnectionType::Client => 1,
            ConnectionType::Server => 2,
        }
    }

    /// Decode a wire discriminator; any unrecognized value maps to `Unknown`.
    pub fn from_u8(t: u8) -> (r: ConnectionType)
        ensures
            r == ConnectionType::spec_from_u8(t),
    {
        match t {
            1 => ConnectionType::Client,
            2 => ConnectionType::Server,
            _ => ConnectionType::Unknown,
        }
    }

    pub open spec fn spec_from_u8(t: u8) -> ConnectionType {
        if t == 1 {
            ConnectionType::Client
        } else if t == 2 {
            ConnectionType::Server
        } else {
            ConnectionType::Unknown
        }
    }
}

/// The purpose a guest declares after the challenge has been passed.
#[derive(Clone, Copy, PartialEq, Eq, Structural, Debug)]
pub enum ConnectionIntent {
    Unknown,
    Subscribe,
    TransferData,
}

impl ConnectionIntent {
    /// Wire discriminator of this intent.
    pub fn as_u8(&self) -> (r: u8)
        ensures
            r == self.spec_as_u8(),
    {
        match self {
            ConnectionIntent::Unknown => 0,
            ConnectionIntent::Subscribe => 1,
            ConnectionIntent::TransferData => 2,
        }
    }

    pub open spec fn spec_as_u8(self) -> u8 {
        match self {
            ConnectionIntent::Unknown => 0,
            ConnectionIntent::Subscribe => 1,
            ConnectionIntent::TransferData => 2,
        }
    }

    /// Decode a wire discriminator; any unrecognized value maps to `Unknown`.
    pub fn from_u8(i: u8) -> (r: ConnectionIntent)
        ensures
            r == ConnectionIntent::spec_from_u8(i),
    {
        match i {
            1 => ConnectionIntent::Subscribe,
            2 => ConnectionIntent::TransferData,
            _ => ConnectionIntent::Unknown,
        }
    }

    pub open spec fn spec_from_u8(i: u8) -> ConnectionIntent {
        if i == 1 {
            ConnectionIntent::Subscribe
        } else if i == 2 {
            ConnectionIntent::TransferData
        } else {
            ConnectionIntent::Unknown
        }
    }

    /// Human-readable name of the intent.
    pub fn name(&self) -> (r: &'static str)
        ensures
            self is Subscribe ==> r@ == "subscribe"@,
            self is TransferData ==> r@ == "transfer-data"@,
            self is Unknown ==> r@ == "unknown"@,
    {
        match self {
            ConnectionIntent::Subscribe => "subscribe",
            ConnectionIntent::TransferData => "transfer-data",
            ConnectionIntent::Unknown => "unknown",
        }
    }
}

/// What went wrong in a connection's handshake, by the class of failure:
/// malformed or unresolvable data, a packet out of order, a failed challenge
/// or nonce, or a failure reported by the crypto backend or the peer.
#[derive(Clone, Copy, PartialEq, Eq, Structural, Debug)]
pub enum HandshakeErrorKind {
    InvalidData,
    InvalidInput,
    PermissionDenied,
    Crypto,
    Other,
}

/// A handshake failure: its class and a human-readable message, which a
/// Close packet may carry to the peer.
#[derive(PartialEq, Eq, Debug)]
pub struct HandshakeError {
    pub kind: HandshakeErrorKind,
    pub message: String,
}

/// Round trip: encoding an intent or connection type and decoding it again
/// yields the starting value.
pub proof fn lemma_connection_enums_round_trip(t: ConnectionType, i: ConnectionIntent)
    ensures
        ConnectionType::spec_from_u8(t.spec_as_u8()) == t,
        ConnectionIntent::spec_from_u8(i.spec_as_u8()) == i,
{
}

} // verus!
