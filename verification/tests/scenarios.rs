//! End-to-end scenarios: several devices, each with its own handler and
//! registry, exchange the messages that their handlers produce.

use proxy_pairing::config::ProxyPairingConfig;
use proxy_pairing::device::{
    DeviceInfo, DeviceRegistry, NetworkFingerprint, PairingType, SessionKeys, TrustLevel,
};
use proxy_pairing::error::NetworkingError;
use proxy_pairing::handler::PairingProtocolHandler;
use proxy_pairing::keys::NetworkIdentity;
use proxy_pairing::messages::{Outbound, PairingEvent, PairingMessage};
use proxy_pairing::proxy::{VouchStatus, VouchingSessionState};
use proxy_pairing::time::Timestamp;
use proxy_pairing::types::{PairingCode, PairingState};
use proxy_pairing::vouching_queue::{VouchQueueStatus, VouchingQueue};

const ALICE: u128 = 0xA11CE;
const BOB: u128 = 0xB0B;
const CAROL: u128 = 0xCA401;
const SESSION: u128 = 0x5E55;

struct Peer {
    info: DeviceInfo,
    handler: PairingProtocolHandler,
    registry: DeviceRegistry,
    mail: Vec<Outbound>,
}

fn t(secs: i64) -> Timestamp {
    Timestamp::new(secs, 0).unwrap()
}

fn peer(id: u128, name: &str, seed: u8) -> Peer {
    let identity = NetworkIdentity::from_secret_key(vec![seed; 32]).unwrap();
    let node = identity.node_id();
    let info = DeviceInfo {
        device_id: id,
        device_name: name.to_string(),
        device_slug: name.to_lowercase(),
        os_version: "TestOS 1".to_string(),
        app_version: "2.0.0".to_string(),
        network_fingerprint: NetworkFingerprint { node_id: hex::encode(&node), public_key: node },
        last_seen: t(0),
    };
    let mut handler = PairingProtocolHandler::new(identity, true);
    handler.init_vouching_queue(VouchingQueue::new());
    Peer { info: info.clone(), handler, registry: DeviceRegistry::new(info), mail: Vec::new() }
}

fn node(p: &Peer) -> Vec<u8> {
    p.handler.node_id()
}

/// Makes `a` know `b` as a directly paired device.
fn know(a: &mut Peer, b: &Peer, connected: bool, now: Timestamp) {
    a.registry.complete_pairing(
        b.info.clone(),
        SessionKeys::from_shared_secret(vec![b.info.device_id as u8; 32]),
        Some(node(b)),
        PairingType::Direct,
        None,
        now,
    );
    assert!(a.registry.set_connection(b.info.device_id, Some(node(b)), connected));
}

/// Completes a direct pairing of `a` with `b` on `a`'s side.
fn complete_direct(a: &mut Peer, b: &Peer, now: Timestamp) -> bool {
    let code = PairingCode { session_id: SESSION, secret: vec![0x5e; 16], expires_at: t(1_000_000) };
    a.handler.start_pairing_session_with_id(SESSION, code, now).unwrap();
    a.handler.complete_pairing_session(
        &a.registry,
        SESSION,
        b.info.clone(),
        node(b),
        Some(vec![0x77; 32]),
        now,
    )
}

/// Moves what `from` has decided to send into its mail bag, and returns the
/// messages for `to`.
fn collect(from: &mut Peer, to: &Peer) -> Vec<PairingMessage> {
    from.mail.extend(from.handler.take_outbound());
    let target = node(to);
    let mut for_target = Vec::new();
    let mut rest = Vec::new();
    for item in from.mail.drain(..) {
        match item {
            Outbound::Message { node_id, message } if node_id == target => for_target.push(message),
            other => rest.push(other),
        }
    }
    from.mail = rest;
    for_target
}

fn handle(
    to: &mut Peer,
    from_node: &[u8],
    message: PairingMessage,
    now: Timestamp,
) -> Result<Option<PairingMessage>, NetworkingError> {
    to.handler.handle_pairing_message(&mut to.registry, message, from_node, now)
}

/// Delivers every message that `from` has for `to`; returns how many there were.
fn deliver(from: &mut Peer, to: &mut Peer, now: Timestamp) -> usize {
    let messages = collect(from, to);
    let count = messages.len();
    let sender = node(from);
    for message in messages {
        assert_eq!(handle(to, &sender, message, now).unwrap(), None);
    }
    count
}

fn drain(p: &mut Peer, now: Timestamp) {
    p.handler.process_vouching_queue(&p.registry, now).unwrap();
}

fn vouch_status(p: &Peer, target: u128) -> (VouchStatus, Option<String>) {
    let session = p.handler.get_vouching_session(SESSION).unwrap();
    let vouch = session.vouches.iter().find(|v| v.device_id == target).unwrap();
    (vouch.status, vouch.reason.clone())
}

/// Alice is paired with Bob and Carol; Bob and Carol know Alice.
fn trio(carol_online: bool) -> (Peer, Peer, Peer) {
    let mut alice = peer(ALICE, "Alice", 1);
    let mut bob = peer(BOB, "Bob", 2);
    let mut carol = peer(CAROL, "Carol", 3);
    know(&mut alice, &carol, carol_online, t(10));
    know(&mut carol, &alice, true, t(10));
    know(&mut alice, &bob, true, t(20));
    know(&mut bob, &alice, true, t(20));
    (alice, bob, carol)
}

#[test]
fn direct_pairing_smoke() {
    let mut alice = peer(ALICE, "Alice", 1);
    let mut bob = peer(BOB, "Bob", 2);

    let session_id = alice.handler.start_pairing_session(t(100)).unwrap();
    let code = alice.handler.get_current_pairing_code().unwrap();
    assert_eq!(code.session_id(), session_id);
    assert_eq!(code.secret().len(), 16);
    assert_eq!(code.expires_at, t(400));
    assert_eq!(PairingCode::from_secret(code.secret.clone(), t(100)), code);
    assert_eq!(alice.handler.get_active_sessions()[0].state, PairingState::WaitingForConnection);

    bob.handler.join_pairing_session(session_id, code.clone(), t(101)).unwrap();
    assert_eq!(bob.handler.get_active_sessions()[0].state, PairingState::Scanning);

    know(&mut alice, &bob, true, t(102));
    know(&mut bob, &alice, true, t(102));
    let secret = code.secret.clone();
    assert!(alice.handler.complete_pairing_session(
        &alice.registry,
        session_id,
        bob.info.clone(),
        node(&bob),
        Some(secret.clone()),
        t(102),
    ));
    assert!(bob.handler.complete_pairing_session(
        &bob.registry,
        session_id,
        alice.info.clone(),
        node(&alice),
        Some(secret),
        t(102),
    ));

    assert_eq!(alice.handler.get_active_sessions()[0].state, PairingState::Completed);
    assert_eq!(bob.handler.get_active_sessions()[0].state, PairingState::Completed);
    let bob_at_alice = alice.registry.get_paired_device(BOB).unwrap();
    assert_eq!(bob_at_alice.pairing_type, PairingType::Direct);
    assert_eq!(bob_at_alice.trust_level, TrustLevel::Trusted);
    assert_eq!(bob_at_alice.vouched_by, None);
    let alice_at_bob = bob.registry.get_paired_device(ALICE).unwrap();
    assert_eq!(alice_at_bob.pairing_type, PairingType::Direct);

    let session = alice.handler.get_vouching_session(session_id).unwrap();
    assert_eq!(session.state, VouchingSessionState::Pending);
    assert_eq!(session.vouchee_device_id, BOB);
    assert_eq!(session.voucher_device_id, ALICE);
    let events = alice.handler.take_events();
    assert_eq!(events.len(), 2);
    assert!(matches!(events[0], PairingEvent::VouchingSessionChanged { .. }));
    assert_eq!(
        events[1],
        PairingEvent::ProxyPairingVouchingReady { session_id, vouchee_device_id: BOB }
    );
}

#[test]
fn three_device_auto_vouch() {
    let (mut alice, mut bob, mut carol) = trio(true);
    alice.handler.set_proxy_config(ProxyPairingConfig {
        auto_vouch_to_all: true,
        ..ProxyPairingConfig::default()
    });
    assert!(carol.handler.proxy_config().auto_accept_vouched);

    assert!(complete_direct(&mut alice, &bob, t(100)));
    assert_eq!(vouch_status(&alice, CAROL), (VouchStatus::Waiting, None));
    let entry = &alice.handler.queue_entries()[0];
    assert_eq!(entry.status, VouchQueueStatus::Waiting);
    assert_eq!(entry.retry_count, 1);
    assert_eq!(entry.expires_at, t(100 + 7 * 24 * 3600));

    assert_eq!(deliver(&mut alice, &mut carol, t(101)), 1);
    let bob_at_carol = carol.registry.get_paired_device(BOB).unwrap();
    assert_eq!(bob_at_carol.pairing_type, PairingType::Proxied);
    assert_eq!(bob_at_carol.vouched_by, Some(ALICE));
    assert_eq!(bob_at_carol.info, bob.info);

    assert_eq!(deliver(&mut carol, &mut alice, t(102)), 1);
    assert_eq!(vouch_status(&alice, CAROL), (VouchStatus::Accepted, None));
    let session = alice.handler.get_vouching_session(SESSION).unwrap();
    assert_eq!(session.state, VouchingSessionState::Completed);
    assert!(alice.handler.queue_entries().is_empty());

    assert_eq!(deliver(&mut alice, &mut bob, t(103)), 1);
    let carol_at_bob = bob.registry.get_paired_device(CAROL).unwrap();
    assert_eq!(carol_at_bob.pairing_type, PairingType::Proxied);
    assert_eq!(carol_at_bob.vouched_by, Some(ALICE));
    assert_eq!(carol_at_bob.info.device_name, "Carol");
    assert_eq!(carol_at_bob.session_keys.send_key, bob_at_carol.session_keys.receive_key);
    assert_eq!(carol_at_bob.session_keys.receive_key, bob_at_carol.session_keys.send_key);
    assert_ne!(carol_at_bob.session_keys.send_key, carol_at_bob.session_keys.receive_key);

    assert!(alice.registry.get_paired_device(BOB).is_some());
    assert!(alice.registry.get_paired_device(CAROL).is_some());
    assert_eq!(alice.registry.get_paired_devices().len(), 2);
    assert_eq!(bob.registry.get_paired_devices().len(), 2);
    assert_eq!(carol.registry.get_paired_devices().len(), 2);
}

#[test]
fn offline_target_is_queued_and_delivered_later() {
    let (mut alice, mut bob, mut carol) = trio(false);
    assert!(complete_direct(&mut alice, &bob, t(100)));
    let session = alice
        .handler
        .start_proxy_vouching(&alice.registry, SESSION, vec![CAROL], t(110))
        .unwrap();
    assert_eq!(session.state, VouchingSessionState::InProgress);
    assert_eq!(vouch_status(&alice, CAROL), (VouchStatus::Queued, None));
    assert_eq!(alice.handler.queue_entries()[0].status, VouchQueueStatus::Queued);
    assert_eq!(alice.handler.queue_entries()[0].retry_count, 0);
    assert_eq!(collect(&mut alice, &carol).len(), 0);

    drain(&mut alice, t(120));
    assert_eq!(vouch_status(&alice, CAROL), (VouchStatus::Queued, None));

    assert!(alice.registry.set_connection(CAROL, Some(node(&carol)), true));
    drain(&mut alice, t(130));
    assert_eq!(vouch_status(&alice, CAROL), (VouchStatus::Waiting, None));
    let entry = &alice.handler.queue_entries()[0];
    assert_eq!(entry.status, VouchQueueStatus::Waiting);
    assert_eq!(entry.retry_count, 1);
    assert_eq!(entry.last_attempt_at, Some(t(130)));

    assert_eq!(deliver(&mut alice, &mut carol, t(131)), 1);
    assert_eq!(deliver(&mut carol, &mut alice, t(132)), 1);
    assert_eq!(vouch_status(&alice, CAROL), (VouchStatus::Accepted, None));
    assert!(alice.handler.queue_entries().is_empty());

    let to_bob = collect(&mut alice, &bob);
    assert_eq!(to_bob.len(), 1);
    match &to_bob[0] {
        PairingMessage::ProxyPairingComplete { session_id, voucher_device_id, accepted_by, rejected_by } => {
            assert_eq!(*session_id, SESSION);
            assert_eq!(*voucher_device_id, ALICE);
            assert_eq!(accepted_by.len(), 1);
            assert_eq!(accepted_by[0].device_info.device_id, CAROL);
            assert!(rejected_by.is_empty());
        }
        other => panic!("unexpected: {:?}", other),
    }
    assert_eq!(handle(&mut bob, &node(&alice), to_bob.into_iter().next().unwrap(), t(133)), Ok(None));
    assert_eq!(bob.registry.get_paired_device(CAROL).unwrap().vouched_by, Some(ALICE));
}

#[test]
fn bad_signature_is_rejected() {
    let (mut alice, bob, mut carol) = trio(true);
    assert!(complete_direct(&mut alice, &bob, t(100)));
    alice
        .handler
        .start_proxy_vouching(&alice.registry, SESSION, vec![CAROL], t(110))
        .unwrap();

    let mut messages = collect(&mut alice, &carol);
    assert_eq!(messages.len(), 1);
    match &mut messages[0] {
        PairingMessage::ProxyPairingRequest { voucher_signature, .. } => {
            for byte in voucher_signature.iter_mut() {
                *byte ^= 0xff;
            }
        }
        other => panic!("unexpected: {:?}", other),
    }
    assert_eq!(handle(&mut carol, &node(&alice), messages.pop().unwrap(), t(111)), Ok(None));
    assert!(carol.registry.get_paired_device(BOB).is_none());

    let replies = collect(&mut carol, &alice);
    assert_eq!(
        replies,
        vec![PairingMessage::ProxyPairingResponse {
            session_id: SESSION,
            accepting_device_id: CAROL,
            accepted: false,
            reason: Some("Invalid voucher signature".to_string()),
        }]
    );
    assert_eq!(handle(&mut alice, &node(&carol), replies.into_iter().next().unwrap(), t(112)), Ok(None));
    assert_eq!(
        vouch_status(&alice, CAROL),
        (VouchStatus::Rejected, Some("Invalid voucher signature".to_string()))
    );
    assert!(alice.handler.queue_entries().is_empty());
}

#[test]
fn response_timeout_makes_target_unreachable() {
    let (mut alice, mut bob, carol) = trio(true);
    assert!(complete_direct(&mut alice, &bob, t(100)));
    alice
        .handler
        .start_proxy_vouching(&alice.registry, SESSION, vec![CAROL], t(110))
        .unwrap();
    assert_eq!(collect(&mut alice, &carol).len(), 1);

    drain(&mut alice, t(410));
    assert_eq!(vouch_status(&alice, CAROL), (VouchStatus::Waiting, None));
    assert_eq!(alice.handler.queue_entries().len(), 1);

    drain(&mut alice, t(411));
    assert_eq!(
        vouch_status(&alice, CAROL),
        (VouchStatus::Unreachable, Some("Proxy response timeout".to_string()))
    );
    assert!(alice.handler.queue_entries().is_empty());

    let to_bob = collect(&mut alice, &bob);
    assert_eq!(to_bob.len(), 1);
    match &to_bob[0] {
        PairingMessage::ProxyPairingComplete { accepted_by, rejected_by, .. } => {
            assert!(accepted_by.is_empty());
            assert_eq!(rejected_by.len(), 1);
            assert_eq!(rejected_by[0].device_id, CAROL);
            assert_eq!(rejected_by[0].device_name, "Carol");
            assert_eq!(rejected_by[0].reason, "Proxy response timeout");
        }
        other => panic!("unexpected: {:?}", other),
    }
    assert_eq!(deliver(&mut alice, &mut bob, t(412)), 0);
    assert!(bob.registry.get_paired_device(CAROL).is_none());
}

#[test]
fn self_vouch_target_is_invalid() {
    let (mut alice, bob, carol) = trio(true);
    assert!(complete_direct(&mut alice, &bob, t(100)));
    let session = alice
        .handler
        .start_proxy_vouching(&alice.registry, SESSION, vec![ALICE], t(110))
        .unwrap();
    assert_eq!(session.state, VouchingSessionState::Completed);
    assert_eq!(
        vouch_status(&alice, ALICE),
        (VouchStatus::Rejected, Some("Invalid vouch target".to_string()))
    );
    assert!(alice.handler.queue_entries().is_empty());
    assert!(collect(&mut alice, &carol).is_empty());
    let own_node = node(&alice);
    alice.mail.extend(alice.handler.take_outbound());
    for item in &alice.mail {
        match item {
            Outbound::Message { node_id, message } => {
                assert_ne!(node_id, &own_node);
                assert!(matches!(message, PairingMessage::ProxyPairingComplete { .. }));
            }
            Outbound::Raw { .. } => panic!("nothing raw is due"),
        }
    }
}

#[test]
fn vouchee_as_target_is_invalid() {
    let (mut alice, bob, carol) = trio(true);
    assert!(complete_direct(&mut alice, &bob, t(100)));
    let session = alice
        .handler
        .start_proxy_vouching(&alice.registry, SESSION, vec![BOB, CAROL, BOB], t(110))
        .unwrap();
    assert_eq!(session.vouches.len(), 2);
    assert_eq!(session.state, VouchingSessionState::InProgress);
    assert_eq!(
        vouch_status(&alice, BOB),
        (VouchStatus::Rejected, Some("Invalid vouch target".to_string()))
    );
    assert_eq!(vouch_status(&alice, CAROL), (VouchStatus::Waiting, None));
    assert_eq!(collect(&mut alice, &carol).len(), 1);
}

#[test]
fn unpaired_target_is_rejected() {
    let (mut alice, bob, _carol) = trio(true);
    assert!(complete_direct(&mut alice, &bob, t(100)));
    let session = alice
        .handler
        .start_proxy_vouching(&alice.registry, SESSION, vec![0xDEAD], t(110))
        .unwrap();
    assert_eq!(session.state, VouchingSessionState::Completed);
    assert_eq!(session.vouches[0].device_name, "Unknown device");
    assert_eq!(
        vouch_status(&alice, 0xDEAD),
        (VouchStatus::Rejected, Some("Target device not paired".to_string()))
    );
}

#[test]
fn empty_target_list_completes_immediately() {
    let (mut alice, mut bob, _carol) = trio(true);
    assert!(complete_direct(&mut alice, &bob, t(100)));
    alice.handler.take_events();
    let session = alice
        .handler
        .start_proxy_vouching(&alice.registry, SESSION, vec![], t(110))
        .unwrap();
    assert_eq!(session.state, VouchingSessionState::Completed);
    assert!(session.vouches.is_empty());
    let to_bob = collect(&mut alice, &bob);
    assert_eq!(
        to_bob,
        vec![PairingMessage::ProxyPairingComplete {
            session_id: SESSION,
            voucher_device_id: ALICE,
            accepted_by: vec![],
            rejected_by: vec![],
        }]
    );
    let events = alice.handler.take_events();
    assert_eq!(events.len(), 1);
    assert_eq!(handle(&mut bob, &node(&alice), to_bob.into_iter().next().unwrap(), t(111)), Ok(None));
    assert_eq!(bob.registry.get_paired_devices().len(), 1);
}

#[test]
fn vouching_needs_a_completed_pairing() {
    let (mut alice, bob, _carol) = trio(true);
    match alice.handler.start_proxy_vouching(&alice.registry, SESSION, vec![CAROL], t(110)) {
        Err(NetworkingError::Protocol(text)) => assert_eq!(
            text,
            "Pairing session not found: 00000000-0000-0000-0000-000000005e55"
        ),
        other => panic!("unexpected: {:?}", other),
    }
    let code = PairingCode { session_id: SESSION, secret: vec![1; 16], expires_at: t(1_000) };
    alice.handler.start_pairing_session_with_id(SESSION, code, t(100)).unwrap();
    match alice.handler.start_proxy_vouching(&alice.registry, SESSION, vec![CAROL], t(110)) {
        Err(NetworkingError::Protocol(text)) => assert_eq!(text, "Pairing session is not completed"),
        other => panic!("unexpected: {:?}", other),
    }
    assert!(alice.handler.get_vouching_session(SESSION).is_none());
}

#[test]
fn repeated_request_is_rejected_as_already_paired() {
    let (mut alice, bob, mut carol) = trio(true);
    assert!(complete_direct(&mut alice, &bob, t(100)));
    alice
        .handler
        .start_proxy_vouching(&alice.registry, SESSION, vec![CAROL], t(110))
        .unwrap();
    let request = collect(&mut alice, &carol).pop().unwrap();
    let copy = match &request {
        PairingMessage::ProxyPairingRequest {
            session_id,
            vouchee_device_info,
            vouchee_public_key,
            voucher_device_id,
            voucher_signature,
            timestamp,
            proxied_session_keys,
        } => PairingMessage::ProxyPairingRequest {
            session_id: *session_id,
            vouchee_device_info: vouchee_device_info.clone(),
            vouchee_public_key: vouchee_public_key.clone(),
            voucher_device_id: *voucher_device_id,
            voucher_signature: voucher_signature.clone(),
            timestamp: *timestamp,
            proxied_session_keys: proxied_session_keys.clone(),
        },
        other => panic!("unexpected: {:?}", other),
    };
    assert_eq!(handle(&mut carol, &node(&alice), request, t(111)), Ok(None));
    let paired = carol.registry.get_paired_device(BOB).unwrap();
    let devices = carol.registry.get_paired_devices();
    assert_eq!(collect(&mut carol, &alice).len(), 1);

    assert_eq!(handle(&mut carol, &node(&alice), copy, t(112)), Ok(None));
    assert_eq!(
        collect(&mut carol, &alice),
        vec![PairingMessage::ProxyPairingResponse {
            session_id: SESSION,
            accepting_device_id: CAROL,
            accepted: false,
            reason: Some("Device already paired".to_string()),
        }]
    );
    assert_eq!(carol.registry.get_paired_device(BOB).unwrap(), paired);
    assert_eq!(carol.registry.get_paired_devices(), devices);
    assert!(carol.handler.take_events().is_empty());
}

#[test]
fn stale_vouch_is_rejected_as_expired() {
    let (mut alice, bob, mut carol) = trio(true);
    assert!(complete_direct(&mut alice, &bob, t(100)));
    alice
        .handler
        .start_proxy_vouching(&alice.registry, SESSION, vec![CAROL], t(110))
        .unwrap();
    let request = collect(&mut alice, &carol).pop().unwrap();
    assert_eq!(handle(&mut carol, &node(&alice), request, t(711)), Ok(None));
    match collect(&mut carol, &alice).pop().unwrap() {
        PairingMessage::ProxyPairingResponse { accepted, reason, .. } => {
            assert!(!accepted);
            assert_eq!(reason.as_deref(), Some("Vouch signature expired"));
        }
        other => panic!("unexpected: {:?}", other),
    }
    assert!(carol.registry.get_paired_device(BOB).is_none());
}

#[test]
fn vouch_from_wrong_node_or_stranger_is_rejected() {
    let (mut alice, bob, mut carol) = trio(true);
    assert!(complete_direct(&mut alice, &bob, t(100)));
    alice
        .handler
        .start_proxy_vouching(&alice.registry, SESSION, vec![CAROL], t(110))
        .unwrap();
    let request = collect(&mut alice, &carol).pop().unwrap();
    let bob_node = node(&bob);
    assert_eq!(handle(&mut carol, &bob_node, request, t(111)), Ok(None));
    carol.mail.extend(carol.handler.take_outbound());
    match carol.mail.pop().unwrap() {
        Outbound::Message { node_id, message } => {
            assert_eq!(node_id, bob_node);
            match message {
                PairingMessage::ProxyPairingResponse { accepted, reason, .. } => {
                    assert!(!accepted);
                    assert_eq!(reason.as_deref(), Some("Voucher node mismatch"));
                }
                other => panic!("unexpected: {:?}", other),
            }
        }
        other => panic!("unexpected: {:?}", other),
    }

    let mut dave = peer(0xDA7E, "Dave", 4);
    let stranger = PairingMessage::ProxyPairingRequest {
        session_id: SESSION,
        vouchee_device_info: bob.info.clone(),
        vouchee_public_key: node(&bob),
        voucher_device_id: ALICE,
        voucher_signature: vec![0; 64],
        timestamp: t(110),
        proxied_session_keys: SessionKeys { send_key: vec![1; 32], receive_key: vec![2; 32] },
    };
    assert_eq!(handle(&mut dave, &node(&alice), stranger, t(111)), Ok(None));
    match collect(&mut dave, &alice).pop().unwrap() {
        PairingMessage::ProxyPairingResponse { reason, .. } => {
            assert_eq!(reason.as_deref(), Some("Voucher not paired"));
        }
        other => panic!("unexpected: {:?}", other),
    }
}

#[test]
fn equal_session_keys_are_rejected() {
    let (alice, bob, mut carol) = trio(true);
    let identity = NetworkIdentity::from_secret_key(vec![1; 32]).unwrap();
    let payload = proxy_pairing::keys::encode_vouch_payload(
        &proxy_pairing::keys::build_vouch_payload(SESSION, &bob.info, &node(&bob), t(110)),
    )
    .unwrap();
    let request = PairingMessage::ProxyPairingRequest {
        session_id: SESSION,
        vouchee_device_info: bob.info.clone(),
        vouchee_public_key: node(&bob),
        voucher_device_id: ALICE,
        voucher_signature: identity.sign(&payload),
        timestamp: t(110),
        proxied_session_keys: SessionKeys { send_key: vec![1; 32], receive_key: vec![1; 32] },
    };
    assert_eq!(handle(&mut carol, &node(&alice), request, t(111)), Ok(None));
    match collect(&mut carol, &alice).pop().unwrap() {
        PairingMessage::ProxyPairingResponse { accepted, reason, .. } => {
            assert!(!accepted);
            assert_eq!(reason.as_deref(), Some("Invalid session keys"));
        }
        other => panic!("unexpected: {:?}", other),
    }
}

#[test]
fn short_vouchee_key_and_bad_timestamp_fail_the_message() {
    let (alice, bob, mut carol) = trio(true);
    let request = PairingMessage::ProxyPairingRequest {
        session_id: SESSION,
        vouchee_device_info: bob.info.clone(),
        vouchee_public_key: vec![1; 31],
        voucher_device_id: ALICE,
        voucher_signature: vec![0; 64],
        timestamp: t(110),
        proxied_session_keys: SessionKeys { send_key: vec![1; 32], receive_key: vec![2; 32] },
    };
    assert_eq!(
        handle(&mut carol, &node(&alice), request, t(111)),
        Err(NetworkingError::Protocol("Invalid public key length".to_string()))
    );
    let request = PairingMessage::ProxyPairingRequest {
        session_id: SESSION,
        vouchee_device_info: bob.info.clone(),
        vouchee_public_key: node(&bob),
        voucher_device_id: ALICE,
        voucher_signature: vec![0; 64],
        timestamp: Timestamp { secs: 110, nanos: 1_000_000_000 },
        proxied_session_keys: SessionKeys { send_key: vec![1; 32], receive_key: vec![2; 32] },
    };
    assert_eq!(
        handle(&mut carol, &node(&alice), request, t(111)),
        Err(NetworkingError::Protocol("Invalid vouch timestamp".to_string()))
    );
    assert!(collect(&mut carol, &alice).is_empty());
}

#[test]
fn untrusted_or_proxied_voucher_cannot_vouch() {
    let (mut alice, bob, mut carol) = trio(true);
    // Carol knows Alice only through a proxied pairing.
    carol.registry.complete_pairing(
        alice.info.clone(),
        SessionKeys::from_shared_secret(vec![1; 32]),
        Some(node(&alice)),
        PairingType::Proxied,
        Some(0x99),
        t(10),
    );
    assert!(complete_direct(&mut alice, &bob, t(100)));
    alice
        .handler
        .start_proxy_vouching(&alice.registry, SESSION, vec![CAROL], t(110))
        .unwrap();
    let request = collect(&mut alice, &carol).pop().unwrap();
    assert_eq!(handle(&mut carol, &node(&alice), request, t(111)), Ok(None));
    match collect(&mut carol, &alice).pop().unwrap() {
        PairingMessage::ProxyPairingResponse { reason, .. } => {
            assert_eq!(reason.as_deref(), Some("Voucher not trusted for proxy pairing"));
        }
        other => panic!("unexpected: {:?}", other),
    }
}

#[test]
fn user_confirmation_accepts_or_rejects() {
    for accepted in [true, false] {
        let (mut alice, bob, mut carol) = trio(true);
        carol.handler.set_proxy_config(ProxyPairingConfig {
            auto_accept_vouched: false,
            ..ProxyPairingConfig::default()
        });
        assert!(complete_direct(&mut alice, &bob, t(100)));
            alice
            .handler
            .start_proxy_vouching(&alice.registry, SESSION, vec![CAROL], t(110))
            .unwrap();
        assert_eq!(deliver(&mut alice, &mut carol, t(111)), 1);
        assert!(carol.registry.get_paired_device(BOB).is_none());
        assert!(collect(&mut carol, &alice).is_empty());
        assert_eq!(
            carol.handler.take_events(),
            vec![PairingEvent::ProxyPairingConfirmationRequired {
                session_id: SESSION,
                vouchee_device_name: "Bob".to_string(),
                vouchee_device_os: "TestOS 1".to_string(),
                voucher_device_name: "Alice".to_string(),
                voucher_device_id: ALICE,
                expires_at: t(411),
            }]
        );

        carol
            .handler
            .confirm_proxy_pairing(&mut carol.registry, SESSION, accepted, t(120))
            .unwrap();
        assert_eq!(carol.registry.get_paired_device(BOB).is_some(), accepted);
        assert_eq!(
            carol.handler.confirm_proxy_pairing(&mut carol.registry, SESSION, accepted, t(121)),
            Err(NetworkingError::Protocol("No pending proxy confirmation found".to_string()))
        );
        assert_eq!(deliver(&mut carol, &mut alice, t(122)), 1);
        if accepted {
            assert_eq!(vouch_status(&alice, CAROL), (VouchStatus::Accepted, None));
        } else {
            assert_eq!(
                vouch_status(&alice, CAROL),
                (VouchStatus::Rejected, Some("User rejected proxy pairing".to_string()))
            );
        }
    }
}

#[test]
fn unanswered_confirmation_times_out() {
    let (mut alice, bob, mut carol) = trio(true);
    carol.handler.set_proxy_config(ProxyPairingConfig {
        auto_accept_vouched: false,
        ..ProxyPairingConfig::default()
    });
    assert!(complete_direct(&mut alice, &bob, t(100)));
    alice
        .handler
        .start_proxy_vouching(&alice.registry, SESSION, vec![CAROL], t(110))
        .unwrap();
    assert_eq!(deliver(&mut alice, &mut carol, t(111)), 1);

    carol.handler.expire_proxy_confirmations(&carol.registry, t(410));
    assert!(collect(&mut carol, &alice).is_empty());
    carol.handler.expire_proxy_confirmations(&carol.registry, t(411));
    assert_eq!(
        collect(&mut carol, &alice),
        vec![PairingMessage::ProxyPairingResponse {
            session_id: SESSION,
            accepting_device_id: CAROL,
            accepted: false,
            reason: Some("Proxy confirmation timed out".to_string()),
        }]
    );
    assert!(carol
        .handler
        .confirm_proxy_pairing(&mut carol.registry, SESSION, true, t(412))
        .is_err());
}

#[test]
fn retry_limit_makes_target_unreachable() {
    let (mut alice, bob, carol) = trio(true);
    alice.handler.set_proxy_config(ProxyPairingConfig {
        vouch_queue_retry_limit: 2,
        ..ProxyPairingConfig::default()
    });
    assert!(complete_direct(&mut alice, &bob, t(100)));
    alice.handler.close_channel();
    alice
        .handler
        .start_proxy_vouching(&alice.registry, SESSION, vec![CAROL], t(110))
        .unwrap();
    assert_eq!(vouch_status(&alice, CAROL), (VouchStatus::Queued, None));
    assert_eq!(alice.handler.queue_entries()[0].retry_count, 0);

    drain(&mut alice, t(120));
    assert_eq!(alice.handler.queue_entries()[0].retry_count, 1);
    assert_eq!(alice.handler.queue_entries()[0].status, VouchQueueStatus::Queued);
    assert_eq!(alice.handler.queue_entries()[0].last_attempt_at, Some(t(120)));
    drain(&mut alice, t(130));
    assert_eq!(alice.handler.queue_entries()[0].retry_count, 2);
    assert_eq!(vouch_status(&alice, CAROL), (VouchStatus::Queued, None));

    // The third pass finds the retries used up. Finishing the session fails,
    // since the report to the vouchee cannot be sent on a closed channel.
    assert_eq!(
        alice.handler.process_vouching_queue(&alice.registry, t(140)),
        Err(NetworkingError::ChannelClosed)
    );
    assert!(alice.handler.queue_entries().is_empty());
    assert_eq!(
        vouch_status(&alice, CAROL),
        (VouchStatus::Unreachable, Some("Vouch retry limit exceeded".to_string()))
    );
    assert!(collect(&mut alice, &carol).is_empty());
}

#[test]
fn expired_entry_is_unreachable_even_when_connected() {
    for online in [true, false] {
        let (mut alice, bob, _carol) = trio(online);
        assert!(complete_direct(&mut alice, &bob, t(100)));
        alice.handler.close_channel();
            alice
            .handler
            .start_proxy_vouching(&alice.registry, SESSION, vec![CAROL], t(110))
            .unwrap();
        let expiry: i64 = 110 + 7 * 24 * 3600;
        assert_eq!(alice.handler.queue_entries()[0].expires_at, t(expiry));
        let _ = alice.handler.process_vouching_queue(&alice.registry, t(expiry));
        assert!(alice.handler.queue_entries().is_empty());
        assert_eq!(
            vouch_status(&alice, CAROL),
            (VouchStatus::Unreachable, Some("Vouch expired".to_string()))
        );
    }
}

#[test]
fn response_for_unknown_session_is_ignored() {
    let (mut alice, _bob, carol) = trio(true);
    let stray = PairingMessage::ProxyPairingResponse {
        session_id: 0x404,
        accepting_device_id: CAROL,
        accepted: true,
        reason: None,
    };
    assert_eq!(handle(&mut alice, &node(&carol), stray, t(100)), Ok(None));
    assert!(alice.handler.get_vouching_session(0x404).is_none());
    assert!(alice.handler.take_events().is_empty());
}

#[test]
fn direct_messages_are_handed_back() {
    let (mut alice, bob, _carol) = trio(true);
    let message = PairingMessage::Complete { session_id: SESSION, success: true, reason: None };
    assert!(message.is_completion());
    assert!(!message.is_proxy());
    assert_eq!(message.kind(), "Complete");
    assert_eq!(message.session_id(), SESSION);
    let back = handle(&mut alice, &node(&bob), message, t(100)).unwrap();
    assert_eq!(
        back,
        Some(PairingMessage::Complete { session_id: SESSION, success: true, reason: None })
    );
}

#[test]
fn completed_session_is_dropped_after_an_hour() {
    let (mut alice, bob, _carol) = trio(true);
    assert!(complete_direct(&mut alice, &bob, t(100)));
    alice
        .handler
        .start_proxy_vouching(&alice.registry, SESSION, vec![], t(110))
        .unwrap();
    alice.handler.take_events();
    alice.handler.run_vouching_cleanup(t(3709));
    assert!(alice.handler.get_vouching_session(SESSION).is_some());
    assert!(alice.handler.take_events().is_empty());
    alice.handler.run_vouching_cleanup(t(3710));
    assert!(alice.handler.get_vouching_session(SESSION).is_none());
    assert_eq!(
        alice.handler.take_events(),
        vec![PairingEvent::VouchingSessionDeleted { session_id: SESSION }]
    );
}

#[test]
fn queue_entries_outlive_the_handler_but_not_their_session() {
    let (mut alice, bob, _carol) = trio(false);
    assert!(complete_direct(&mut alice, &bob, t(100)));
    alice
        .handler
        .start_proxy_vouching(&alice.registry, SESSION, vec![CAROL], t(110))
        .unwrap();
    let saved = alice.handler.queue_entries();
    assert_eq!(saved.len(), 1);

    // A new handler takes the saved queue over, entry for entry.
    let mut restarted = peer(ALICE, "Alice", 1);
    let reloaded = VouchingQueue::from_entries(alice.handler.queue_entries());
    restarted.handler.init_vouching_queue(reloaded);
    assert_eq!(restarted.handler.queue_entries(), saved);

    // The vouching session did not survive, so the drainer drops the entry.
    drain(&mut restarted, t(120));
    assert!(restarted.handler.queue_entries().is_empty());
    assert!(restarted.handler.take_outbound().is_empty());
}

/// Carol knows Alice as a trusted, directly paired device, but not as a node.
fn carol_without_alices_node() -> (Peer, Peer, Peer) {
    let (alice, bob, mut carol) = trio(true);
    assert!(carol.registry.set_connection(ALICE, None, false));
    assert_eq!(carol.registry.get_node_id_for_device(ALICE), None);
    (alice, bob, carol)
}

#[test]
fn vouch_signed_under_the_senders_own_key_is_rejected() {
    let (_alice, bob, mut carol) = carol_without_alices_node();
    let mallory = peer(0x3A110, "Mallory", 9);
    let mallory_identity = NetworkIdentity::from_secret_key(vec![9; 32]).unwrap();
    assert_eq!(mallory_identity.node_id(), node(&mallory));
    let payload = proxy_pairing::keys::encode_vouch_payload(
        &proxy_pairing::keys::build_vouch_payload(SESSION, &bob.info, &node(&bob), t(110)),
    )
    .unwrap();
    let forged = PairingMessage::ProxyPairingRequest {
        session_id: SESSION,
        vouchee_device_info: bob.info.clone(),
        vouchee_public_key: node(&bob),
        voucher_device_id: ALICE,
        voucher_signature: mallory_identity.sign(&payload),
        timestamp: t(110),
        proxied_session_keys: SessionKeys { send_key: vec![1; 32], receive_key: vec![2; 32] },
    };
    assert_eq!(handle(&mut carol, &node(&mallory), forged, t(111)), Ok(None));
    assert!(carol.registry.get_paired_device(BOB).is_none());
    assert_eq!(
        collect(&mut carol, &mallory),
        vec![PairingMessage::ProxyPairingResponse {
            session_id: SESSION,
            accepting_device_id: CAROL,
            accepted: false,
            reason: Some("Invalid voucher signature".to_string()),
        }]
    );
    assert!(carol.handler.take_events().is_empty());
}

#[test]
fn vouch_signed_by_the_voucher_is_accepted_from_an_unknown_node() {
    let (mut alice, bob, mut carol) = carol_without_alices_node();
    assert!(complete_direct(&mut alice, &bob, t(100)));
    alice
        .handler
        .start_proxy_vouching(&alice.registry, SESSION, vec![CAROL], t(110))
        .unwrap();
    assert_eq!(deliver(&mut alice, &mut carol, t(111)), 1);
    let stored = carol.registry.get_paired_device(BOB).unwrap();
    assert_eq!(stored.pairing_type, PairingType::Proxied);
    assert_eq!(stored.vouched_by, Some(ALICE));
}

#[test]
fn automatic_vouching_without_other_devices_completes_the_session() {
    let mut alice = peer(ALICE, "Alice", 1);
    let mut bob = peer(BOB, "Bob", 2);
    know(&mut alice, &bob, true, t(20));
    know(&mut bob, &alice, true, t(20));
    alice.handler.set_proxy_config(ProxyPairingConfig {
        auto_vouch_to_all: true,
        ..ProxyPairingConfig::default()
    });
    assert!(complete_direct(&mut alice, &bob, t(100)));
    let session = alice.handler.get_vouching_session(SESSION).unwrap();
    assert_eq!(session.state, VouchingSessionState::Completed);
    assert!(session.vouches.is_empty());
    assert_eq!(
        collect(&mut alice, &bob),
        vec![PairingMessage::ProxyPairingComplete {
            session_id: SESSION,
            voucher_device_id: ALICE,
            accepted_by: vec![],
            rejected_by: vec![],
        }]
    );
    let events = alice.handler.take_events();
    assert_eq!(events.len(), 3);
    assert_eq!(
        events[1],
        PairingEvent::ProxyPairingVouchingReady { session_id: SESSION, vouchee_device_id: BOB }
    );
    assert_eq!(deliver(&mut alice, &mut bob, t(101)), 0);
}

#[test]
fn failed_session_takes_no_further_direct_message() {
    let (mut alice, bob, _carol) = trio(true);
    let code = PairingCode { session_id: SESSION, secret: vec![1; 16], expires_at: t(1_000) };
    alice.handler.start_pairing_session_with_id(SESSION, code, t(100)).unwrap();
    let message = PairingMessage::Complete { session_id: SESSION, success: true, reason: None };
    assert!(alice.handler.takes_direct_message(SESSION));
    assert!(handle(&mut alice, &node(&bob), message, t(101)).unwrap().is_some());
    alice.handler.fail_session(SESSION, &NetworkingError::protocol("bad answer"));
    assert!(!alice.handler.takes_direct_message(SESSION));
    let message = PairingMessage::Complete { session_id: SESSION, success: true, reason: None };
    assert_eq!(handle(&mut alice, &node(&bob), message, t(102)), Ok(None));
    assert!(alice.handler.takes_direct_message(0x404));
}

const DAVE: u128 = 0xDA7E;
const ERIN: u128 = 0xE414;

/// Alice is paired with Bob, Carol, Dave and Erin; only Bob and those named
/// online are connected.
fn crowd(online: &[u128]) -> (Peer, Peer, Peer, Peer, Peer) {
    let mut alice = peer(ALICE, "Alice", 1);
    let bob = peer(BOB, "Bob", 2);
    let carol = peer(CAROL, "Carol", 3);
    let dave = peer(DAVE, "Dave", 4);
    let erin = peer(ERIN, "Erin", 5);
    know(&mut alice, &bob, true, t(20));
    for other in [&carol, &dave, &erin] {
        know(&mut alice, other, online.contains(&other.info.device_id), t(10));
    }
    (alice, bob, carol, dave, erin)
}

#[test]
fn first_round_stores_and_sends_what_each_target_needs() {
    let (mut alice, bob, carol, dave, _erin) = crowd(&[CAROL]);
    assert!(complete_direct(&mut alice, &bob, t(100)));
    let stranger: u128 = 0xDEAD;
    let session = alice
        .handler
        .start_proxy_vouching(
            &alice.registry,
            SESSION,
            vec![BOB, CAROL, DAVE, stranger, CAROL, ALICE],
            t(110),
        )
        .unwrap();
    let ids: Vec<u128> = session.vouches.iter().map(|v| v.device_id).collect();
    assert_eq!(ids, vec![BOB, CAROL, DAVE, stranger, ALICE]);
    assert_eq!(session.state, VouchingSessionState::InProgress);
    assert_eq!(
        vouch_status(&alice, BOB),
        (VouchStatus::Rejected, Some("Invalid vouch target".to_string()))
    );
    assert_eq!(
        vouch_status(&alice, ALICE),
        (VouchStatus::Rejected, Some("Invalid vouch target".to_string()))
    );
    assert_eq!(
        vouch_status(&alice, stranger),
        (VouchStatus::Rejected, Some("Target device not paired".to_string()))
    );
    assert_eq!(vouch_status(&alice, CAROL), (VouchStatus::Waiting, None));
    assert_eq!(vouch_status(&alice, DAVE), (VouchStatus::Queued, None));

    // The queue holds the two targets that were not rejected, and no other.
    let entries = alice.handler.queue_entries();
    assert_eq!(entries.len(), 2);
    let sent = &entries[0];
    assert_eq!((sent.session_id, sent.target_device_id), (SESSION, CAROL));
    assert_eq!(sent.status, VouchQueueStatus::Waiting);
    assert_eq!(sent.retry_count, 1);
    assert_eq!(sent.last_attempt_at, Some(t(110)));
    let kept = &entries[1];
    assert_eq!((kept.session_id, kept.target_device_id), (SESSION, DAVE));
    assert_eq!(kept.status, VouchQueueStatus::Queued);
    assert_eq!(kept.retry_count, 0);
    assert_eq!(kept.last_attempt_at, None);
    assert_eq!(kept.created_at, t(110));
    assert_eq!(kept.expires_at, t(110 + 7 * 24 * 3600));
    assert_eq!(kept.voucher_device_id, ALICE);
    assert_eq!(kept.vouchee_device_id, BOB);

    // One request went out, to the target that is connected.
    let outbound = alice.handler.take_outbound();
    assert_eq!(outbound.len(), 1);
    match &outbound[0] {
        Outbound::Message { node_id, message } => {
            assert_eq!(*node_id, node(&carol));
            match message {
                PairingMessage::ProxyPairingRequest { session_id, voucher_device_id, timestamp, proxied_session_keys, .. } => {
                    assert_eq!(*session_id, SESSION);
                    assert_eq!(*voucher_device_id, ALICE);
                    assert_eq!(*timestamp, t(110));
                    assert_eq!(*proxied_session_keys, sent.proxied_session_keys);
                }
                other => panic!("unexpected: {:?}", other),
            }
        }
        other => panic!("unexpected: {:?}", other),
    }
    assert_ne!(node(&dave), node(&carol));
}

#[test]
fn one_pass_deals_with_every_entry_of_the_queue() {
    let (mut alice, bob, _carol, _dave, _erin) = crowd(&[]);
    alice.handler.set_proxy_config(ProxyPairingConfig {
        vouch_queue_retry_limit: 2,
        ..ProxyPairingConfig::default()
    });
    assert!(complete_direct(&mut alice, &bob, t(100)));
    alice
        .handler
        .start_proxy_vouching(&alice.registry, SESSION, vec![CAROL, DAVE, ERIN], t(110))
        .unwrap();
    assert!(alice.handler.take_outbound().is_empty());

    // Carol's vouch has used up its retries and Dave's has expired; Erin's is
    // as it was stored, and Erin cannot be reached.
    let mut entries = alice.handler.queue_entries();
    assert_eq!(entries.len(), 3);
    entries[0].retry_count = 2;
    entries[1].expires_at = t(115);
    alice.handler.init_vouching_queue(VouchingQueue::from_entries(entries));

    assert_eq!(alice.handler.process_vouching_queue(&alice.registry, t(120)), Ok(()));
    let left = alice.handler.queue_entries();
    assert_eq!(left.len(), 1);
    assert_eq!((left[0].session_id, left[0].target_device_id), (SESSION, ERIN));
    assert_eq!(left[0].status, VouchQueueStatus::Queued);
    assert_eq!(left[0].retry_count, 0);
    assert_eq!(left[0].last_attempt_at, None);
    assert_eq!(left[0].expires_at, t(110 + 7 * 24 * 3600));
    assert_eq!(
        vouch_status(&alice, CAROL),
        (VouchStatus::Unreachable, Some("Vouch retry limit exceeded".to_string()))
    );
    assert_eq!(
        vouch_status(&alice, DAVE),
        (VouchStatus::Unreachable, Some("Vouch expired".to_string()))
    );
    assert_eq!(vouch_status(&alice, ERIN), (VouchStatus::Queued, None));
    assert!(alice.handler.take_outbound().is_empty());
    assert_eq!(
        alice.handler.get_vouching_session(SESSION).unwrap().state,
        VouchingSessionState::InProgress
    );
}
