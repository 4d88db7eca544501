//! The inbound (host-side) handshake state machine.
//!
//! The host expects Hello, Identify, Verify and SetIntent from the guest, in
//! that order, and answers each with exactly one packet. The driver feeds
//! the machine one event at a time — a decoded guest packet, or the result
//! of the TXT lookup the machine asked for — performs the returned action
//! (send a packet, resolve a name), and reads the next event. Every
//! decision, in particular that the challenge only passes when the guest
//! returns the host's own nonce and the exact bytes the host drew, is made
//! here and verified.

use vstd::prelude::*;

use crate::crypto::{public_key_from_pem, rand_bytes_vec};
use crate::handshake::{
    HandshakePacketGuestToHost, HandshakePacketHostToGuest, HostPacketView, CHALLENGE_LENGTH,
};
use crate::utils::{ConnectionIntent, ConnectionType, HandshakeError, HandshakeErrorKind};
use crate::wire::bytes_eq;
use vstd::string::StringExecFns;

verus! {

/// Where the inbound handshake stands: which guest packet or lookup result
/// is expected next, with what earlier steps established.
pub enum InboundPhase {
    /// Nothing received yet.
    ExpectHello,
    /// Hello acknowledged; awaiting the guest's hostname.
    ExpectIdentify,
    /// Identify received; awaiting the TXT record for the guest's hostname.
    AwaitTxtRecord { hostname: String },
    /// Challenge issued; awaiting the guest's decryption of it.
    ExpectVerify { hostname: String, challenge: Vec<u8> },
    /// Challenge passed; awaiting the guest's intent.
    ExpectIntent { hostname: String },
    /// Handshake finished; the guest's intent and hostname are published.
    Complete { hostname: String, intent: ConnectionIntent },
    /// Handshake failed; the connection is to be dropped.
    Failed,
}

/// What the driver must do next.
pub enum InboundAction {
    /// Send this packet and read the next guest packet.
    Reply { packet: HandshakePacketHostToGuest },
    /// Resolve the TXT record at `name` and hand the first record back.
    ResolveTxt { name: String },
    /// Send this Close packet; the handshake succeeded with this intent.
    ReplyAndFinish {
        packet: HandshakePacketHostToGuest,
        intent: ConnectionIntent,
        hostname: String,
    },
    /// Send this Close packet on best effort, then surface the error.
    ReplyAndFail { packet: HandshakePacketHostToGuest, error: HandshakeError },
    /// Surface the error without a Close packet.
    Fail { error: HandshakeError },
}

/// The server side of one inbound handshake.
pub struct InboundHandshake {
    pub connection_type: ConnectionType,
    pub nonce: u128,
    pub phase: InboundPhase,
}

/// The machine failed, answered with Close { can_continue: false, err } and
/// an error of the given kind and message, and changed nothing else.
pub open spec fn inbound_failed(
    pre: InboundHandshake,
    post: InboundHandshake,
    r: InboundAction,
    kind: HandshakeErrorKind,
    msg: Seq<char>,
) -> bool {
    &&& post.phase is Failed
    &&& post.connection_type == pre.connection_type
    &&& r matches InboundAction::ReplyAndFail { packet, error } && packet@ == (
    HostPacketView::Close { can_continue: false, err: Some(msg) }) && error.kind == kind
        && error.message@ == msg
}

/// The transition relation of [`InboundHandshake::on_packet`]: each expected
/// packet advances the phase and is answered as the protocol prescribes;
/// anything else fails the handshake with a Close.
pub open spec fn inbound_step(
    pre: InboundHandshake,
    p: HandshakePacketGuestToHost,
    post: InboundHandshake,
    r: InboundAction,
) -> bool {
    &&& post.nonce == pre.nonce
    &&& match pre.phase {
        InboundPhase::ExpectHello => match p {
            HandshakePacketGuestToHost::Hello { connection_type } => {
                &&& post.connection_type == connection_type
                &&& post.phase is ExpectIdentify
                &&& r matches InboundAction::Reply { packet } && packet@ == (
                HostPacketView::Acknowledge { ok: true, err: None })
            },
            _ => inbound_failed(
                pre,
                post,
                r,
                HandshakeErrorKind::InvalidInput,
                "Expected hello packet"@,
            ),
        },
        InboundPhase::ExpectIdentify => match p {
            HandshakePacketGuestToHost::Identify { hostname } => {
                &&& post.connection_type == pre.connection_type
                &&& post.phase matches InboundPhase::AwaitTxtRecord { hostname: h } && h@
                    == hostname@
                &&& r matches InboundAction::ResolveTxt { name } && name@ == "_osp."@
                    + hostname@
            },
            _ => inbound_failed(
                pre,
                post,
                r,
                HandshakeErrorKind::InvalidInput,
                "Expected identify packet"@,
            ),
        },
        InboundPhase::ExpectVerify { hostname, challenge } => match p {
            HandshakePacketGuestToHost::Verify { nonce, challenge: guess } => {
                if nonce != pre.nonce {
                    inbound_failed(
                        pre,
                        post,
                        r,
                        HandshakeErrorKind::PermissionDenied,
                        "Invalid nonce"@,
                    )
                } else if guess@ != challenge@ {
                    inbound_failed(
                        pre,
                        post,
                        r,
                        HandshakeErrorKind::PermissionDenied,
                        "Challenge failed"@,
                    )
                } else {
                    &&& post.connection_type == pre.connection_type
                    &&& post.phase matches InboundPhase::ExpectIntent { hostname: h } && h@
                        == hostname@
                    &&& r matches InboundAction::Reply { packet } && packet@ == (
                    HostPacketView::ChallengeResponse { successful: true })
                }
            },
            _ => inbound_failed(
                pre,
                post,
                r,
                HandshakeErrorKind::InvalidInput,
                "Expected challenge verification packet"@,
            ),
        },
        InboundPhase::ExpectIntent { hostname } => match p {
            HandshakePacketGuestToHost::SetIntent { intent } => match intent {
                ConnectionIntent::Unknown => inbound_failed(
                    pre,
                    post,
                    r,
                    HandshakeErrorKind::InvalidInput,
                    "Unknown intent"@,
                ),
                _ => {
                    &&& post.connection_type == pre.connection_type
                    &&& post.phase matches InboundPhase::Complete { hostname: h, intent: i }
                        && h@ == hostname@ && i == intent
                    &&& r matches InboundAction::ReplyAndFinish {
                        packet,
                        intent: ai,
                        hostname: ah,
                    } && packet@ == (HostPacketView::Close {
                        can_continue: intent is TransferData,
                        err: None,
                    }) && ai == intent && ah@ == hostname@
                },
            },
            _ => inbound_failed(
                pre,
                post,
                r,
                HandshakeErrorKind::InvalidInput,
                "Intent must be set"@,
            ),
        },
        _ => true,
    }
}

/// The message closing a handshake whose TXT record could not be resolved:
/// it cites the label at which the record was expected.
pub open spec fn txt_failure_message(hostname: Seq<char>) -> Seq<char> {
    "Failed to resolve TXT record for "@ + hostname + ". Is it located at _osp."@ + hostname
        + "?"@
}

/// The transition relation of [`InboundHandshake::on_txt_record`]: a missing
/// record fails the handshake with a Close citing the expected label. With
/// a record, one of three things happens: a record that is no usable public
/// key fails the handshake with a permission-denied Close; the crypto
/// backend refuses (randomness or encryption) and the handshake fails
/// without a Close; or a Challenge carrying this connection's nonce goes
/// out and the drawn plaintext is stored for the verification step.
pub open spec fn inbound_txt_step(
    pre: InboundHandshake,
    record: Option<Vec<u8>>,
    post: InboundHandshake,
    r: InboundAction,
) -> bool {
    &&& post.nonce == pre.nonce
    &&& match pre.phase {
        InboundPhase::AwaitTxtRecord { hostname } => match record {
            None => inbound_failed(
                pre,
                post,
                r,
                HandshakeErrorKind::InvalidData,
                txt_failure_message(hostname@),
            ),
            Some(_) => ({
                ||| inbound_failed(
                    pre,
                    post,
                    r,
                    HandshakeErrorKind::PermissionDenied,
                    "Could not parse the peer's public key"@,
                )
                ||| {
                    &&& post.phase is Failed
                    &&& post.connection_type == pre.connection_type
                    &&& r matches InboundAction::Fail { error } && error.kind
                        == HandshakeErrorKind::Crypto
                }
                ||| {
                    &&& post.connection_type == pre.connection_type
                    &&& post.phase matches InboundPhase::ExpectVerify {
                        hostname: h,
                        challenge,
                    } && h@ == hostname@ && challenge@.len() == CHALLENGE_LENGTH
                    &&& r matches InboundAction::Reply { packet } && packet@ matches (
                    HostPacketView::Challenge { encrypted_challenge: _, nonce: n }) && n
                        == pre.nonce
                }
            }),
        },
        _ => true,
    }
}

/// A passed challenge pins the guest's answer: whenever a step of the
/// inbound machine advances past the verification — from awaiting Verify to
/// awaiting the intent — the packet it consumed was a Verify carrying this
/// connection's own nonce and exactly the challenge bytes the host drew.
pub proof fn lemma_challenge_pass_exact(
    pre: InboundHandshake,
    p: HandshakePacketGuestToHost,
    post: InboundHandshake,
    r: InboundAction,
)
    requires
        inbound_step(pre, p, post, r),
        pre.phase matches InboundPhase::ExpectVerify { .. },
        post.phase matches InboundPhase::ExpectIntent { .. },
    ensures
        p matches HandshakePacketGuestToHost::Verify { nonce, challenge } && nonce == pre.nonce
            && (pre.phase matches InboundPhase::ExpectVerify { challenge: drawn, .. }
            && challenge@ == drawn@),
{
}

impl InboundHandshake {
    /// A fresh inbound handshake around the given per-connection nonce.
    pub fn new(nonce: u128) -> (r: InboundHandshake)
        ensures
            r.phase is ExpectHello,
            r.nonce == nonce,
            r.connection_type is Unknown,
    {
        InboundHandshake {
            connection_type: ConnectionType::Unknown,
            nonce,
            phase: InboundPhase::ExpectHello,
        }
    }

    /// Fail the handshake: record the failure and build the Close packet and
    /// error to surface.
    fn fail(&mut self, kind: HandshakeErrorKind, msg: &str) -> (r: InboundAction)
        ensures
            final(self).phase is Failed,
            final(self).nonce == old(self).nonce,
            final(self).connection_type == old(self).connection_type,
            inbound_failed(*old(self), *final(self), r, kind, msg@),
    {
        self.phase = InboundPhase::Failed;
        let close_msg: String = msg.to_owned();
        let err_msg: String = msg.to_owned();
        InboundAction::ReplyAndFail {
            packet: HandshakePacketHostToGuest::Close {
                can_continue: false,
                err: Some(close_msg),
            },
            error: HandshakeError { kind, message: err_msg },
        }
    }

    /// Feed the machine one guest packet and take the next step of the
    /// protocol. A packet out of its order fails the handshake. The
    /// challenge passes exactly when the guest returns this connection's
    /// nonce and the very bytes the host drew.
    pub fn on_packet(&mut self, p: HandshakePacketGuestToHost) -> (r: InboundAction)
        requires
            old(self).phase matches InboundPhase::ExpectHello || old(
                self,
            ).phase matches InboundPhase::ExpectIdentify || old(
                self,
            ).phase matches InboundPhase::ExpectVerify { .. } || old(
                self,
            ).phase matches InboundPhase::ExpectIntent { .. },
        ensures
            inbound_step(*old(self), p, *final(self), r),
    {
        let mut phase = InboundPhase::Failed;
        core::mem::swap(&mut phase, &mut self.phase);
        match phase {
            InboundPhase::ExpectHello => match p {
                HandshakePacketGuestToHost::Hello { connection_type } => {
                    self.connection_type = connection_type;
                    self.phase = InboundPhase::ExpectIdentify;
                    InboundAction::Reply {
                        packet: HandshakePacketHostToGuest::Acknowledge { ok: true, err: None },
                    }
                },
                _ => self.fail(HandshakeErrorKind::InvalidInput, "Expected hello packet"),
            },
            InboundPhase::ExpectIdentify => match p {
                HandshakePacketGuestToHost::Identify { hostname } => {
                    let mut name: String = "_osp.".to_owned();
                    name.append(hostname.as_str());
                    self.phase = InboundPhase::AwaitTxtRecord { hostname };
                    InboundAction::ResolveTxt { name }
                },
                _ => self.fail(HandshakeErrorKind::InvalidInput, "Expected identify packet"),
            },
            InboundPhase::ExpectVerify { hostname, challenge } => match p {
                HandshakePacketGuestToHost::Verify { nonce, challenge: guess } => {
                    if nonce != self.nonce {
                        self.fail(HandshakeErrorKind::PermissionDenied, "Invalid nonce")
                    } else if !bytes_eq(guess.as_slice(), challenge.as_slice()) {
                        self.fail(HandshakeErrorKind::PermissionDenied, "Challenge failed")
                    } else {
                        self.phase = InboundPhase::ExpectIntent { hostname };
                        InboundAction::Reply {
                            packet: HandshakePacketHostToGuest::ChallengeResponse {
                                successful: true,
                            },
                        }
                    }
                },
                _ => self.fail(
                    HandshakeErrorKind::InvalidInput,
                    "Expected challenge verification packet",
                ),
            },
            InboundPhase::ExpectIntent { hostname } => match p {
                HandshakePacketGuestToHost::SetIntent { intent } => match intent {
                    ConnectionIntent::Unknown => self.fail(
                        HandshakeErrorKind::InvalidInput,
                        "Unknown intent",
                    ),
                    _ => {
                        let published = hostname.clone();
                        let can_continue = match intent {
                            ConnectionIntent::TransferData => true,
                            _ => false,
                        };
                        self.phase = InboundPhase::Complete { hostname, intent };
                        InboundAction::ReplyAndFinish {
                            packet: HandshakePacketHostToGuest::Close {
                                can_continue,
                                err: None,
                            },
                            intent,
                            hostname: published,
                        }
                    },
                },
                _ => self.fail(HandshakeErrorKind::InvalidInput, "Intent must be set"),
            },
            _ => self.fail(HandshakeErrorKind::InvalidInput, "Unexpected packet"),
        }
    }

    /// Feed the machine the TXT lookup result it asked for. With a record,
    /// the host parses it as a PEM public key, draws the challenge
    /// plaintext, and issues the Challenge under this connection's nonce.
    /// A missing record closes with an invalid-data error citing the
    /// expected label; a record that is no usable key closes with a
    /// permission-denied error; a backend failure (randomness, encryption)
    /// surfaces without a Close.
    pub fn on_txt_record(&mut self, record: Option<Vec<u8>>) -> (r: InboundAction)
        requires
            old(self).phase matches InboundPhase::AwaitTxtRecord { .. },
        ensures
            inbound_txt_step(*old(self), record, *final(self), r),
    {
        let mut phase = InboundPhase::Failed;
        core::mem::swap(&mut phase, &mut self.phase);
        match phase {
            InboundPhase::AwaitTxtRecord { hostname } => match record {
                None => {
                    let mut msg: String = "Failed to resolve TXT record for ".to_owned();
                    msg.append(hostname.as_str());
                    msg.append(". Is it located at _osp.");
                    msg.append(hostname.as_str());
                    msg.append("?");
                    self.phase = InboundPhase::Failed;
                    let err_msg = msg.clone();
                    InboundAction::ReplyAndFail {
                        packet: HandshakePacketHostToGuest::Close {
                            can_continue: false,
                            err: Some(msg),
                        },
                        error: HandshakeError {
                            kind: HandshakeErrorKind::InvalidData,
                            message: err_msg,
                        },
                    }
                },
                Some(rec) => {
                    if rec.len() > 0x7fffffff {
                        // far too long to be a key the backend could read
                        return self.fail(
                            HandshakeErrorKind::PermissionDenied,
                            "Could not parse the peer's public key",
                        );
                    }
                    let key = match public_key_from_pem(rec.as_slice()) {
                        Ok(k) => k,
                        Err(_) => {
                            return self.fail(
                                HandshakeErrorKind::PermissionDenied,
                                "Could not parse the peer's public key",
                            );
                        },
                    };
                    let challenge = match rand_bytes_vec(CHALLENGE_LENGTH) {
                        Ok(c) => c,
                        Err(_) => {
                            return self.fail_crypto("Could not draw challenge bytes");
                        },
                    };
                    let encrypted_challenge = match crate::crypto::rsa_public_encrypt(
                        &key,
                        challenge.as_slice(),
                    ) {
                        Ok(e) => e,
                        Err(_) => {
                            return self.fail_crypto("Could not encrypt the challenge");
                        },
                    };
                    let nonce = self.nonce;
                    self.phase = InboundPhase::ExpectVerify { hostname, challenge };
                    InboundAction::Reply {
                        packet: HandshakePacketHostToGuest::Challenge {
                            encrypted_challenge,
                            nonce,
                        },
                    }
                },
            },
            _ => self.fail_crypto("Unexpected lookup result"),
        }
    }

    /// Fail the handshake without a Close packet, for failures of the
    /// crypto backend.
    fn fail_crypto(&mut self, msg: &str) -> (r: InboundAction)
        ensures
            final(self).phase is Failed,
            final(self).nonce == old(self).nonce,
            final(self).connection_type == old(self).connection_type,
            r matches InboundAction::Fail { error } && error.kind == HandshakeErrorKind::Crypto
                && error.message@ == msg@,
    {
        self.phase = InboundPhase::Failed;
        InboundAction::Fail {
            error: HandshakeError { kind: HandshakeErrorKind::Crypto, message: msg.to_owned() },
        }
    }
}

} // verus!
