//! The outbound (guest-side) handshake state machine.
//!
//! The guest sends Hello, then answers each host packet in turn: Identify
//! after the acknowledgement, Verify with the decrypted challenge, and —
//! once the challenge is passed — a SetIntent of the caller's choosing,
//! expecting the matching Close. The driver sends what the machine hands it
//! and feeds back each decoded host packet. A Close carrying an error in
//! place of any expected packet is a terminal failure with that message as
//! the reason.

use vstd::prelude::*;

use crate::crypto::rsa_private_decrypt;
use crate::handshake::{
    GuestPacketView, HandshakePacketGuestToHost, HandshakePacketHostToGuest, CHALLENGE_LENGTH,
};
use crate::utils::{ConnectionIntent, ConnectionType, HandshakeError, HandshakeErrorKind};

verus! {

/// Where the outbound handshake stands: which host packet is expected next.
#[derive(Clone, Copy, PartialEq, Eq, Structural, Debug)]
pub enum OutboundPhase {
    /// Hello sent; awaiting the host's acknowledgement.
    ExpectAcknowledge,
    /// Identify sent; awaiting the host's challenge.
    ExpectChallenge,
    /// Verify sent; awaiting the challenge verdict.
    ExpectChallengeResponse,
    /// Challenge passed; the caller chooses an intent next.
    HandshakeComplete,
    /// SetIntent sent; awaiting the closing packet.
    AwaitClose { intent: ConnectionIntent },
    /// The exchange finished with this intent.
    Done { intent: ConnectionIntent },
    /// The handshake failed; the connection is to be dropped.
    Failed,
}

/// What the driver must do next.
pub enum OutboundAction {
    /// Send this packet and read the next host packet.
    Send { packet: HandshakePacketGuestToHost },
    /// The challenge was passed; set an intent to continue.
    HandshakeComplete,
    /// The host recorded the subscription and closed the exchange.
    Subscribed,
    /// The host agreed to switch to the transfer packet family.
    TransferReady,
    /// Surface the error; the connection is to be dropped.
    Fail { error: HandshakeError },
}

/// The client side of one outbound handshake, holding the local private key
/// that decrypts the host's challenge.
pub struct OutboundHandshake {
    pub hostname: String,
    pub private_key: openssl::rsa::Rsa<openssl::pkey::Private>,
    pub phase: OutboundPhase,
}

/// The machine failed with an error of this kind and message.
pub open spec fn outbound_failed(
    post: OutboundHandshake,
    r: OutboundAction,
    kind: HandshakeErrorKind,
    msg: Seq<char>,
) -> bool {
    &&& post.phase is Failed
    &&& r matches OutboundAction::Fail { error } && error.kind == kind && error.message@ == msg
}

/// The machine failed with an error of this kind, with whatever message.
pub open spec fn outbound_failed_any(
    post: OutboundHandshake,
    r: OutboundAction,
    kind: HandshakeErrorKind,
) -> bool {
    &&& post.phase is Failed
    &&& r matches OutboundAction::Fail { error } && error.kind == kind
}

/// The transition relation of [`OutboundHandshake::on_packet`].
pub open spec fn outbound_step(
    pre: OutboundHandshake,
    p: HandshakePacketHostToGuest,
    post: OutboundHandshake,
    r: OutboundAction,
) -> bool {
    &&& post.hostname@ == pre.hostname@
    &&& match pre.phase {
        OutboundPhase::ExpectAcknowledge => match p {
            HandshakePacketHostToGuest::Acknowledge { ok, err } => {
                if ok {
                    &&& post.phase == OutboundPhase::ExpectChallenge
                    &&& r matches OutboundAction::Send { packet } && packet@ == (
                    GuestPacketView::Identify { hostname: pre.hostname@ })
                } else {
                    match err {
                        Some(m) => outbound_failed(post, r, HandshakeErrorKind::Other, m@),
                        None => outbound_failed(
                            post,
                            r,
                            HandshakeErrorKind::Other,
                            "Unknown peer error"@,
                        ),
                    }
                }
            },
            HandshakePacketHostToGuest::Close { can_continue: false, err: Some(m) } => {
                outbound_failed(post, r, HandshakeErrorKind::Other, m@)
            },
            _ => outbound_failed(
                post,
                r,
                HandshakeErrorKind::Other,
                "Unknown error occurred receiving ACK from host"@,
            ),
        },
        OutboundPhase::ExpectChallenge => match p {
            HandshakePacketHostToGuest::Challenge { encrypted_challenge, nonce } => {
                if encrypted_challenge@.len() > 0x7fffffff {
                    // longer than the decrypting backend can take
                    outbound_failed(
                        post,
                        r,
                        HandshakeErrorKind::Crypto,
                        "Encrypted challenge too long"@,
                    )
                } else {
                    ||| outbound_failed_any(post, r, HandshakeErrorKind::Crypto)
                    ||| {
                        &&& post.phase == OutboundPhase::ExpectChallengeResponse
                        &&& r matches OutboundAction::Send { packet } && packet@ matches (
                        GuestPacketView::Verify { nonce: n, challenge: c }) && n == nonce
                            && c.len() == CHALLENGE_LENGTH
                    }
                }
            },
            HandshakePacketHostToGuest::Close { can_continue: false, err: Some(m) } => {
                outbound_failed(post, r, HandshakeErrorKind::Other, m@)
            },
            _ => outbound_failed(
                post,
                r,
                HandshakeErrorKind::Other,
                "Unknown error occurred receiving challenge from host"@,
            ),
        },
        OutboundPhase::ExpectChallengeResponse => match p {
            HandshakePacketHostToGuest::ChallengeResponse { successful: true } => {
                &&& post.phase == OutboundPhase::HandshakeComplete
                &&& r is HandshakeComplete
            },
            HandshakePacketHostToGuest::Close { can_continue: false, err: Some(m) } => {
                outbound_failed(post, r, HandshakeErrorKind::Other, m@)
            },
            _ => outbound_failed(
                post,
                r,
                HandshakeErrorKind::Other,
                "Unknown error occurred receiving challenge response from host"@,
            ),
        },
        OutboundPhase::AwaitClose { intent } => match intent {
            ConnectionIntent::Subscribe => match p {
                HandshakePacketHostToGuest::Close { can_continue: false, err: None } => {
                    &&& post.phase == (OutboundPhase::Done { intent })
                    &&& r is Subscribed
                },
                HandshakePacketHostToGuest::Close { can_continue: false, err: Some(m) } => {
                    outbound_failed(post, r, HandshakeErrorKind::Other, m@)
                },
                _ => outbound_failed(
                    post,
                    r,
                    HandshakeErrorKind::Other,
                    "Unknown error subscribing to host"@,
                ),
            },
            ConnectionIntent::TransferData => match p {
                HandshakePacketHostToGuest::Close { can_continue: true, err: None } => {
                    &&& post.phase == (OutboundPhase::Done { intent })
                    &&& r is TransferReady
                },
                HandshakePacketHostToGuest::Close { can_continue: false, err: Some(m) } => {
                    outbound_failed(post, r, HandshakeErrorKind::Other, m@)
                },
                _ => outbound_failed(
                    post,
                    r,
                    HandshakeErrorKind::Other,
                    "Unknown error switching to transfer state"@,
                ),
            },
            ConnectionIntent::Unknown => true,
        },
        _ => true,
    }
}

impl OutboundHandshake {
    /// A fresh outbound handshake for a node with this hostname and private
    /// key. The driver sends [`OutboundHandshake::hello`] first.
    pub fn new(
        hostname: String,
        private_key: openssl::rsa::Rsa<openssl::pkey::Private>,
    ) -> (r: OutboundHandshake)
        ensures
            r.phase == OutboundPhase::ExpectAcknowledge,
            r.hostname@ == hostname@,
    {
        OutboundHandshake { hostname, private_key, phase: OutboundPhase::ExpectAcknowledge }
    }

    /// The opening packet of the exchange.
    pub fn hello(&self) -> (p: HandshakePacketGuestToHost)
        ensures
            p@ == (GuestPacketView::Hello { connection_type: ConnectionType::Server }),
    {
        HandshakePacketGuestToHost::Hello { connection_type: ConnectionType::Server }
    }

    /// Fail the handshake with this error message.
    fn fail_msg(&mut self, kind: HandshakeErrorKind, message: String) -> (r: OutboundAction)
        ensures
            final(self).phase is Failed,
            final(self).hostname@ == old(self).hostname@,
            outbound_failed(*final(self), r, kind, message@),
    {
        self.phase = OutboundPhase::Failed;
        OutboundAction::Fail { error: HandshakeError { kind, message } }
    }

    /// Feed the machine one host packet and take the next step of the
    /// protocol.
    pub fn on_packet(&mut self, p: HandshakePacketHostToGuest) -> (r: OutboundAction)
        requires
            old(self).phase == OutboundPhase::ExpectAcknowledge || old(self).phase
                == OutboundPhase::ExpectChallenge || old(self).phase
                == OutboundPhase::ExpectChallengeResponse || (old(
                self,
            ).phase matches OutboundPhase::AwaitClose { intent } && !(intent is Unknown)),
        ensures
            outbound_step(*old(self), p, *final(self), r),
    {
        let phase = self.phase;
        match phase {
            OutboundPhase::ExpectAcknowledge => match p {
                HandshakePacketHostToGuest::Acknowledge { ok, err } => {
                    if ok {
                        self.phase = OutboundPhase::ExpectChallenge;
                        let hostname = self.hostname.clone();
                        OutboundAction::Send {
                            packet: HandshakePacketGuestToHost::Identify { hostname },
                        }
                    } else {
                        let m: String = match err {
                            Some(m) => m,
                            None => "Unknown peer error".to_owned(),
                        };
                        self.fail_msg(HandshakeErrorKind::Other, m)
                    }
                },
                HandshakePacketHostToGuest::Close { can_continue: false, err: Some(m) } => self
                    .fail_msg(HandshakeErrorKind::Other, m),
                _ => self.fail_msg(
                    HandshakeErrorKind::Other,
                    "Unknown error occurred receiving ACK from host".to_owned(),
                ),
            },
            OutboundPhase::ExpectChallenge => match p {
                HandshakePacketHostToGuest::Challenge { encrypted_challenge, nonce } => {
                    if encrypted_challenge.len() > 0x7fffffff {
                        return self.fail_msg(
                            HandshakeErrorKind::Crypto,
                            "Encrypted challenge too long".to_owned(),
                        );
                    }
                    match rsa_private_decrypt(&self.private_key, encrypted_challenge.as_slice())
                    {
                        Err(_) => self.fail_msg(
                            HandshakeErrorKind::Crypto,
                            "Could not decrypt the challenge".to_owned(),
                        ),
                        Ok(challenge) => {
                            if challenge.len() != CHALLENGE_LENGTH {
                                self.fail_msg(
                                    HandshakeErrorKind::Crypto,
                                    "Challenge plaintext has the wrong length".to_owned(),
                                )
                            } else {
                                self.phase = OutboundPhase::ExpectChallengeResponse;
                                OutboundAction::Send {
                                    packet: HandshakePacketGuestToHost::Verify {
                                        nonce,
                                        challenge,
                                    },
                                }
                            }
                        },
                    }
                },
                HandshakePacketHostToGuest::Close { can_continue: false, err: Some(m) } => self
                    .fail_msg(HandshakeErrorKind::Other, m),
                _ => self.fail_msg(
                    HandshakeErrorKind::Other,
                    "Unknown error occurred receiving challenge from host".to_owned(),
                ),
            },
            OutboundPhase::ExpectChallengeResponse => match p {
                HandshakePacketHostToGuest::ChallengeResponse { successful: true } => {
                    self.phase = OutboundPhase::HandshakeComplete;
                    OutboundAction::HandshakeComplete
                },
                HandshakePacketHostToGuest::Close { can_continue: false, err: Some(m) } => self
                    .fail_msg(HandshakeErrorKind::Other, m),
                _ => self.fail_msg(
                    HandshakeErrorKind::Other,
                    "Unknown error occurred receiving challenge response from host".to_owned(),
                ),
            },
            OutboundPhase::AwaitClose { intent } => match intent {
                ConnectionIntent::Subscribe => match p {
                    HandshakePacketHostToGuest::Close { can_continue: false, err: None } => {
                        self.phase = OutboundPhase::Done { intent };
                        OutboundAction::Subscribed
                    },
                    HandshakePacketHostToGuest::Close { can_continue: false, err: Some(m) } => {
                        self.fail_msg(HandshakeErrorKind::Other, m)
                    },
                    _ => self.fail_msg(
                        HandshakeErrorKind::Other,
                        "Unknown error subscribing to host".to_owned(),
                    ),
                },
                _ => match p {
                    HandshakePacketHostToGuest::Close { can_continue: true, err: None } => {
                        self.phase = OutboundPhase::Done { intent };
                        OutboundAction::TransferReady
                    },
                    HandshakePacketHostToGuest::Close { can_continue: false, err: Some(m) } => {
                        self.fail_msg(HandshakeErrorKind::Other, m)
                    },
                    _ => self.fail_msg(
                        HandshakeErrorKind::Other,
                        "Unknown error switching to transfer state".to_owned(),
                    ),
                },
            },
            _ => self.fail_msg(HandshakeErrorKind::Other, "Unexpected packet".to_owned()),
        }
    }

    /// After the challenge is passed, declare the guest's intent. The
    /// driver sends the returned packet and feeds back the closing packet.
    pub fn set_intent(&mut self, intent: ConnectionIntent) -> (p: HandshakePacketGuestToHost)
        requires
            old(self).phase == OutboundPhase::HandshakeComplete,
            !(intent is Unknown),
        ensures
            final(self).phase == (OutboundPhase::AwaitClose { intent }),
            final(self).hostname@ == old(self).hostname@,
            p@ == (GuestPacketView::SetIntent { intent }),
    {
        self.phase = OutboundPhase::AwaitClose { intent };
        HandshakePacketGuestToHost::SetIntent { intent }
    }
}

} // verus!
