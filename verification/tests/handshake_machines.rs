//! The two handshake state machines, driven against each other through the
//! real crypto backend, and the failure paths the protocol prescribes.

use osp_core::handshake::{HandshakePacketGuestToHost, HandshakePacketHostToGuest};
use osp_core::inbound::{InboundAction, InboundHandshake, InboundPhase};
use osp_core::outbound::{OutboundAction, OutboundHandshake, OutboundPhase};
use osp_core::utils::{ConnectionIntent, ConnectionType, HandshakeErrorKind};

fn reply_packet(a: InboundAction) -> HandshakePacketHostToGuest {
    match a {
        InboundAction::Reply { packet } => packet,
        _ => panic!("expected a reply action"),
    }
}

fn sent_packet(a: OutboundAction) -> HandshakePacketGuestToHost {
    match a {
        OutboundAction::Send { packet } => packet,
        _ => panic!("expected a send action"),
    }
}

/// The happy path of scenario-style end-to-end authentication: the host
/// draws a challenge, the guest decrypts it with the matching private key,
/// and both sides advance to the transfer family.
#[test]
fn test_handshake_happy_path() {
    let key = openssl::rsa::Rsa::generate(4096).unwrap();
    let public_pem = key.public_key_to_pem().unwrap();

    let nonce: u128 = 0xfeed_face_cafe_beef_feed_face_cafe_beef;
    let mut host = InboundHandshake::new(nonce);
    let mut guest = OutboundHandshake::new("guest.example.com".to_string(), key);

    // guest -> host: Hello
    let hello = guest.hello();
    let ack = reply_packet(host.on_packet(hello));
    assert!(matches!(
        ack,
        HandshakePacketHostToGuest::Acknowledge { ok: true, err: None }
    ));

    // host -> guest: Acknowledge; guest -> host: Identify
    let identify = sent_packet(guest.on_packet(ack));
    assert!(matches!(
        identify,
        HandshakePacketGuestToHost::Identify { ref hostname } if hostname == "guest.example.com"
    ));

    // host resolves the guest's TXT record and issues the challenge
    let txt_request = host.on_packet(identify);
    let challenge = match txt_request {
        InboundAction::ResolveTxt { name } => {
            assert_eq!(name, "_osp.guest.example.com");
            reply_packet(host.on_txt_record(Some(public_pem)))
        }
        _ => panic!("expected a TXT resolution request"),
    };
    match &challenge {
        HandshakePacketHostToGuest::Challenge { encrypted_challenge, nonce: n } => {
            assert_eq!(*n, nonce);
            assert_eq!(encrypted_challenge.len(), 512);
        }
        _ => panic!("expected a challenge"),
    }

    // guest decrypts and answers; the host verifies
    let verify = sent_packet(guest.on_packet(challenge));
    match &verify {
        HandshakePacketGuestToHost::Verify { nonce: n, challenge: c } => {
            assert_eq!(*n, nonce);
            assert_eq!(c.len(), 256);
        }
        _ => panic!("expected a verification"),
    }
    let response = reply_packet(host.on_packet(verify));
    assert!(matches!(
        response,
        HandshakePacketHostToGuest::ChallengeResponse { successful: true }
    ));
    assert!(matches!(guest.on_packet(response), OutboundAction::HandshakeComplete));

    // the guest declares its intent; the host closes accordingly
    let set_intent = guest.set_intent(ConnectionIntent::TransferData);
    let close = match host.on_packet(set_intent) {
        InboundAction::ReplyAndFinish { packet, intent, hostname } => {
            assert_eq!(intent, ConnectionIntent::TransferData);
            assert_eq!(hostname, "guest.example.com");
            packet
        }
        _ => panic!("expected the finishing close"),
    };
    assert!(matches!(
        close,
        HandshakePacketHostToGuest::Close { can_continue: true, err: None }
    ));
    assert!(matches!(guest.on_packet(close), OutboundAction::TransferReady));
    assert!(matches!(guest.phase, OutboundPhase::Done { .. }));
    assert!(matches!(host.phase, InboundPhase::Complete { .. }));
}

#[test]
fn test_handshake_subscribe_path_closes() {
    let mut host = InboundHandshake {
        connection_type: ConnectionType::Server,
        nonce: 1,
        phase: InboundPhase::ExpectIntent { hostname: "peer.example.com".to_string() },
    };
    let close = match host.on_packet(HandshakePacketGuestToHost::SetIntent {
        intent: ConnectionIntent::Subscribe,
    }) {
        InboundAction::ReplyAndFinish { packet, intent, hostname } => {
            assert_eq!(intent, ConnectionIntent::Subscribe);
            assert_eq!(hostname, "peer.example.com");
            packet
        }
        _ => panic!("expected the finishing close"),
    };
    assert!(matches!(
        close,
        HandshakePacketHostToGuest::Close { can_continue: false, err: None }
    ));

    let key = openssl::rsa::Rsa::generate(2048).unwrap();
    let mut guest = OutboundHandshake::new("me.example.com".to_string(), key);
    guest.phase = OutboundPhase::HandshakeComplete;
    guest.set_intent(ConnectionIntent::Subscribe);
    assert!(matches!(guest.on_packet(close), OutboundAction::Subscribed));
}

/// Scenario: the guest returns a wrong nonce. The host closes with a
/// permission-denied error and never reaches the transfer phase.
#[test]
fn test_handshake_fails_on_bad_nonce() {
    let nonce: u128 = 1000;
    let mut host = InboundHandshake {
        connection_type: ConnectionType::Server,
        nonce,
        phase: InboundPhase::ExpectVerify {
            hostname: "peer.example.com".to_string(),
            challenge: vec![3u8; 256],
        },
    };
    let action = host.on_packet(HandshakePacketGuestToHost::Verify {
        nonce: nonce + 1,
        challenge: vec![3u8; 256],
    });
    match action {
        InboundAction::ReplyAndFail { packet, error } => {
            assert_eq!(error.kind, HandshakeErrorKind::PermissionDenied);
            assert_eq!(error.message, "Invalid nonce");
            assert!(matches!(
                packet,
                HandshakePacketHostToGuest::Close { can_continue: false, err: Some(ref m) }
                    if m == "Invalid nonce"
            ));
        }
        _ => panic!("expected a close and an error"),
    }
    assert!(matches!(host.phase, InboundPhase::Failed));
}

#[test]
fn test_handshake_fails_on_wrong_challenge_bytes() {
    let mut host = InboundHandshake {
        connection_type: ConnectionType::Server,
        nonce: 5,
        phase: InboundPhase::ExpectVerify {
            hostname: "peer.example.com".to_string(),
            challenge: vec![3u8; 256],
        },
    };
    let action = host.on_packet(HandshakePacketGuestToHost::Verify {
        nonce: 5,
        challenge: vec![4u8; 256],
    });
    match action {
        InboundAction::ReplyAndFail { error, .. } => {
            assert_eq!(error.kind, HandshakeErrorKind::PermissionDenied);
            assert_eq!(error.message, "Challenge failed");
        }
        _ => panic!("expected a close and an error"),
    }
}

#[test]
fn test_handshake_out_of_order_packet_fails() {
    let mut host = InboundHandshake::new(9);
    let action = host.on_packet(HandshakePacketGuestToHost::SetIntent {
        intent: ConnectionIntent::Subscribe,
    });
    match action {
        InboundAction::ReplyAndFail { error, .. } => {
            assert_eq!(error.kind, HandshakeErrorKind::InvalidInput);
            assert_eq!(error.message, "Expected hello packet");
        }
        _ => panic!("expected a close and an error"),
    }
}

#[test]
fn test_handshake_unknown_intent_fails() {
    let mut host = InboundHandshake {
        connection_type: ConnectionType::Server,
        nonce: 2,
        phase: InboundPhase::ExpectIntent { hostname: "peer.example.com".to_string() },
    };
    let action = host.on_packet(HandshakePacketGuestToHost::SetIntent {
        intent: ConnectionIntent::Unknown,
    });
    match action {
        InboundAction::ReplyAndFail { error, .. } => {
            assert_eq!(error.kind, HandshakeErrorKind::InvalidInput);
            assert_eq!(error.message, "Unknown intent");
        }
        _ => panic!("expected a close and an error"),
    }
}

#[test]
fn test_handshake_missing_txt_record_fails() {
    let mut host = InboundHandshake {
        connection_type: ConnectionType::Server,
        nonce: 2,
        phase: InboundPhase::AwaitTxtRecord { hostname: "peer.example.com".to_string() },
    };
    match host.on_txt_record(None) {
        InboundAction::ReplyAndFail { error, .. } => {
            assert_eq!(error.kind, HandshakeErrorKind::InvalidData);
            assert_eq!(
                error.message,
                "Failed to resolve TXT record for peer.example.com. Is it located at _osp.peer.example.com?"
            );
        }
        _ => panic!("expected a close and an error"),
    }
}

#[test]
fn test_handshake_unparsable_key_closes_with_permission_denied() {
    let mut host = InboundHandshake {
        connection_type: ConnectionType::Server,
        nonce: 2,
        phase: InboundPhase::AwaitTxtRecord { hostname: "peer.example.com".to_string() },
    };
    match host.on_txt_record(Some(b"not a pem key".to_vec())) {
        InboundAction::ReplyAndFail { packet, error } => {
            assert_eq!(error.kind, HandshakeErrorKind::PermissionDenied);
            assert_eq!(error.message, "Could not parse the peer's public key");
            assert!(matches!(
                packet,
                HandshakePacketHostToGuest::Close { can_continue: false, err: Some(_) }
            ));
        }
        _ => panic!("expected a close and an error"),
    }
}

#[test]
fn test_outbound_peer_error_close_is_terminal() {
    let key = openssl::rsa::Rsa::generate(2048).unwrap();
    let mut guest = OutboundHandshake::new("me.example.com".to_string(), key);
    let action = guest.on_packet(HandshakePacketHostToGuest::Close {
        can_continue: false,
        err: Some("go away".to_string()),
    });
    match action {
        OutboundAction::Fail { error } => {
            assert_eq!(error.kind, HandshakeErrorKind::Other);
            assert_eq!(error.message, "go away");
        }
        _ => panic!("expected a failure"),
    }
    assert!(matches!(guest.phase, OutboundPhase::Failed));
}

#[test]
fn test_outbound_rejected_acknowledge_fails() {
    let key = openssl::rsa::Rsa::generate(2048).unwrap();
    let mut guest = OutboundHandshake::new("me.example.com".to_string(), key);
    let action = guest.on_packet(HandshakePacketHostToGuest::Acknowledge {
        ok: false,
        err: None,
    });
    match action {
        OutboundAction::Fail { error } => {
            assert_eq!(error.message, "Unknown peer error");
        }
        _ => panic!("expected a failure"),
    }
}
