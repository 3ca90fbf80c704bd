//! Tests of the direct pairing sessions: start, join, cancel, the driver and
//! the clean-up.

use proxy_pairing::device::{DeviceInfo, DeviceRegistry, NetworkFingerprint};
use proxy_pairing::error::NetworkingError;
use proxy_pairing::handler::{PairingProtocolHandler, ProtocolEvent};
use proxy_pairing::keys::NetworkIdentity;
use proxy_pairing::messages::Outbound;
use proxy_pairing::time::Timestamp;
use proxy_pairing::types::{PairingCode, PairingSession, PairingState, ResponseExchange};

fn s_at(secs: i64) -> Timestamp {
    Timestamp::new(secs, 0).unwrap()
}

fn s_handler(has_endpoint: bool) -> PairingProtocolHandler {
    PairingProtocolHandler::new(NetworkIdentity::from_secret_key(vec![9u8; 32]).unwrap(), has_endpoint)
}

fn s_code(session: u128, expires: i64) -> PairingCode {
    PairingCode { session_id: session, secret: vec![session as u8; 16], expires_at: s_at(expires) }
}

fn s_info(id: u128) -> DeviceInfo {
    DeviceInfo {
        device_id: id,
        device_name: format!("Device {}", id),
        device_slug: format!("device-{}", id),
        os_version: "TestOS 1".to_string(),
        app_version: "2.0.0".to_string(),
        network_fingerprint: NetworkFingerprint { node_id: String::new(), public_key: vec![] },
        last_seen: s_at(0),
    }
}

fn s_state(handler: &PairingProtocolHandler, id: u128) -> PairingState {
    handler
        .get_active_sessions()
        .into_iter()
        .find(|s| s.id == id)
        .map(|s| s.state)
        .unwrap()
}

#[test]
fn started_session_waits_for_connection() {
    let mut handler = s_handler(true);
    handler.start_pairing_session_with_id(7, s_code(7, 500), s_at(100)).unwrap();
    let sessions = handler.get_active_sessions();
    assert_eq!(sessions, vec![PairingSession::new(7, PairingState::WaitingForConnection, s_at(100))]);
    assert_eq!(handler.get_current_pairing_code(), Some(s_code(7, 500)));
    assert_eq!(handler.generate_shared_secret(7).unwrap(), vec![7u8; 16]);
    assert_eq!(
        handler.generate_shared_secret(8),
        Err(NetworkingError::Protocol(
            "No pairing code found for session 00000000-0000-0000-0000-000000000008".to_string()
        ))
    );
}

#[test]
fn current_code_is_the_last_stored() {
    let mut handler = s_handler(true);
    assert_eq!(handler.get_current_pairing_code(), None);
    handler.start_pairing_session_with_id(1, s_code(1, 500), s_at(100)).unwrap();
    handler.start_pairing_session_with_id(2, s_code(2, 500), s_at(101)).unwrap();
    assert_eq!(handler.get_current_pairing_code(), Some(s_code(2, 500)));
    handler.start_pairing_session_with_id(1, s_code(1, 600), s_at(102)).unwrap();
    assert_eq!(handler.get_current_pairing_code(), Some(s_code(1, 600)));
    assert_eq!(handler.get_active_sessions().len(), 2);
}

#[test]
fn join_rejects_expired_code_and_existing_session() {
    let mut handler = s_handler(true);
    assert_eq!(
        handler.join_pairing_session(7, s_code(7, 100), s_at(100)),
        Err(NetworkingError::Protocol(
            "Pairing code has expired. Please request a new code from the initiator.".to_string()
        ))
    );
    assert!(handler.get_active_sessions().is_empty());

    handler.join_pairing_session(7, s_code(7, 101), s_at(100)).unwrap();
    assert_eq!(s_state(&handler, 7), PairingState::Scanning);
    assert_eq!(
        handler.join_pairing_session(7, s_code(7, 500), s_at(100)),
        Err(NetworkingError::Protocol(
            "Session 00000000-0000-0000-0000-000000000007 already exists".to_string()
        ))
    );
    assert_eq!(handler.get_active_sessions().len(), 1);
}

#[test]
fn cancel_removes_session_and_code() {
    let mut handler = s_handler(true);
    handler.start_pairing_session_with_id(1, s_code(1, 500), s_at(100)).unwrap();
    handler.start_pairing_session_with_id(2, s_code(2, 500), s_at(100)).unwrap();
    handler.cancel_session(1).unwrap();
    assert_eq!(handler.get_active_sessions().len(), 1);
    assert!(handler.generate_shared_secret(1).is_err());
    handler.cancel_session(1).unwrap();
    assert_eq!(handler.get_active_sessions().len(), 1);
    assert_eq!(handler.get_current_pairing_code(), Some(s_code(2, 500)));
}

#[test]
fn cleanup_drops_sessions_older_than_ten_minutes() {
    let mut handler = s_handler(true);
    handler.start_pairing_session_with_id(1, s_code(1, 500), s_at(100)).unwrap();
    handler.start_pairing_session_with_id(2, s_code(2, 500), s_at(101)).unwrap();
    assert_eq!(handler.cleanup_expired_sessions(s_at(700)).unwrap(), 0);
    assert_eq!(handler.cleanup_expired_sessions(s_at(701)).unwrap(), 1);
    let left = handler.get_active_sessions();
    assert_eq!(left.len(), 1);
    assert_eq!(left[0].id, 2);
    assert!(handler.generate_shared_secret(1).is_err());
    assert!(handler.generate_shared_secret(2).is_ok());
    assert_eq!(handler.cleanup_expired_sessions(s_at(10_000)).unwrap(), 1);
    assert!(handler.get_active_sessions().is_empty());
}

#[test]
fn driver_times_out_scanning_after_five_minutes() {
    let mut handler = s_handler(true);
    handler.join_pairing_session(7, s_code(7, 10_000), s_at(100)).unwrap();
    handler.process_state_transitions(s_at(400)).unwrap();
    assert_eq!(s_state(&handler, 7), PairingState::Scanning);
    handler.process_state_transitions(s_at(401)).unwrap();
    assert_eq!(s_state(&handler, 7), PairingState::Failed { reason: "Scanning timeout".to_string() });
    handler.process_state_transitions(s_at(402)).unwrap();
    assert_eq!(s_state(&handler, 7), PairingState::Failed { reason: "Scanning timeout".to_string() });
}

#[test]
fn driver_sends_pending_responses() {
    let mut handler = s_handler(true);
    let with_node = PairingSession {
        state: PairingState::ResponsePending {
            response_data: vec![1, 2, 3],
            remote_node_id: Some(vec![8u8; 32]),
        },
        ..PairingSession::new(1, PairingState::Scanning, s_at(100))
    };
    let without_node = PairingSession {
        state: PairingState::ResponsePending { response_data: vec![4], remote_node_id: None },
        ..PairingSession::new(2, PairingState::Scanning, s_at(100))
    };
    let waiting = PairingSession::new(3, PairingState::WaitingForConnection, s_at(100));
    assert_eq!(handler.load_persisted_sessions(vec![]).unwrap(), 0);
    assert_eq!(handler.load_persisted_sessions(vec![with_node, without_node, waiting]).unwrap(), 3);

    handler.process_state_transitions(s_at(101)).unwrap();
    assert_eq!(s_state(&handler, 1), PairingState::ResponseSent);
    assert_eq!(
        s_state(&handler, 2),
        PairingState::Failed { reason: "No remote node ID for response".to_string() }
    );
    assert_eq!(s_state(&handler, 3), PairingState::WaitingForConnection);
    assert_eq!(
        handler.take_outbound(),
        vec![Outbound::Raw { node_id: vec![8u8; 32], data: vec![1, 2, 3] }]
    );
    handler.process_state_transitions(s_at(102)).unwrap();
    assert!(handler.take_outbound().is_empty());
}

#[test]
fn driver_fails_pending_response_on_closed_channel() {
    let mut handler = s_handler(true);
    let pending = PairingSession {
        state: PairingState::ResponsePending {
            response_data: vec![1, 2, 3],
            remote_node_id: Some(vec![8u8; 32]),
        },
        ..PairingSession::new(1, PairingState::Scanning, s_at(100))
    };
    handler.load_persisted_sessions(vec![pending]).unwrap();
    handler.close_channel();
    handler.process_state_transitions(s_at(101)).unwrap();
    assert_eq!(
        s_state(&handler, 1),
        PairingState::Failed { reason: "Internal channel closed".to_string() }
    );
    assert!(handler.take_outbound().is_empty());
}

#[test]
fn failed_session_keeps_its_first_reason() {
    let mut handler = s_handler(true);
    handler.start_pairing_session_with_id(1, s_code(1, 500), s_at(100)).unwrap();
    handler.fail_session(1, &NetworkingError::protocol("bad challenge"));
    assert_eq!(
        s_state(&handler, 1),
        PairingState::Failed { reason: "Protocol error: bad challenge".to_string() }
    );
    handler.fail_session(1, &NetworkingError::Transport("later".to_string()));
    assert_eq!(
        s_state(&handler, 1),
        PairingState::Failed { reason: "Protocol error: bad challenge".to_string() }
    );
    handler.fail_session(99, &NetworkingError::ChannelClosed);
    assert_eq!(handler.get_active_sessions().len(), 1);

    let registry = DeviceRegistry::new(s_info(1));
    assert!(!handler.complete_pairing_session(&registry, 1, s_info(2), vec![2; 32], None, s_at(101)));
    assert!(handler.get_vouching_session(1).is_none());
}

#[test]
fn response_exchange_outcomes() {
    let outcomes = vec![
        (ResponseExchange::Undecodable, Some("Failed to deserialize Response")),
        (ResponseExchange::Completed, None),
        (ResponseExchange::UnexpectedMessage, Some("Unexpected response type")),
        (ResponseExchange::NoReply, Some("No Complete message received")),
        (
            ResponseExchange::SendFailed { error: NetworkingError::Transport("reset".to_string()) },
            Some("Send failed: Transport error: reset"),
        ),
    ];
    for (outcome, reason) in outcomes {
        let mut handler = s_handler(true);
        handler.join_pairing_session(1, s_code(1, 500), s_at(100)).unwrap();
        assert!(handler.begin_response_exchange(1));
        assert_eq!(s_state(&handler, 1), PairingState::ResponseSent);
        handler.finish_response_exchange(1, &outcome);
        match reason {
            Some(text) => {
                assert_eq!(s_state(&handler, 1), PairingState::Failed { reason: text.to_string() })
            }
            None => assert_eq!(s_state(&handler, 1), PairingState::ResponseSent),
        }
    }
}

#[test]
fn response_exchange_needs_an_endpoint() {
    let mut handler = s_handler(false);
    handler.join_pairing_session(1, s_code(1, 500), s_at(100)).unwrap();
    assert!(!handler.begin_response_exchange(1));
    assert_eq!(
        s_state(&handler, 1),
        PairingState::Failed { reason: "No endpoint available".to_string() }
    );
}

#[test]
fn completed_session_keeps_its_state_when_response_is_sent() {
    let mut handler = s_handler(true);
    let registry = DeviceRegistry::new(s_info(1));
    handler.join_pairing_session(1, s_code(1, 500), s_at(100)).unwrap();
    assert!(handler.complete_pairing_session(&registry, 1, s_info(2), vec![2; 32], None, s_at(101)));
    assert!(handler.begin_response_exchange(1));
    assert_eq!(s_state(&handler, 1), PairingState::Completed);
    let session = &handler.get_active_sessions()[0];
    assert_eq!(session.remote_device_id, Some(2));
    assert_eq!(session.remote_public_key, Some(vec![2; 32]));
    assert_eq!(session.created_at, s_at(100));
}

#[test]
fn disconnect_drops_sessions_with_that_device() {
    let mut handler = s_handler(true);
    let registry = DeviceRegistry::new(s_info(1));
    handler.start_pairing_session_with_id(1, s_code(1, 500), s_at(100)).unwrap();
    handler.start_pairing_session_with_id(2, s_code(2, 500), s_at(100)).unwrap();
    assert!(handler.complete_pairing_session(&registry, 1, s_info(5), vec![5; 32], None, s_at(101)));
    handler.handle_event(ProtocolEvent::DeviceConnected { device_id: 5 }).unwrap();
    assert_eq!(handler.get_active_sessions().len(), 2);
    handler.handle_event(ProtocolEvent::DeviceDisconnected { device_id: 5 }).unwrap();
    let left = handler.get_active_sessions();
    assert_eq!(left.len(), 1);
    assert_eq!(left[0].id, 2);
}

#[test]
fn device_info_carries_identity_fingerprint() {
    let handler = s_handler(true);
    let registry = DeviceRegistry::new(s_info(1));
    let info = handler.get_device_info(&registry, s_at(55)).unwrap();
    assert_eq!(info.device_id, 1);
    assert_eq!(info.device_name, "Device 1");
    assert_eq!(info.last_seen, s_at(55));
    assert_eq!(info.network_fingerprint.public_key, handler.node_id());
    assert_eq!(info.network_fingerprint.node_id, hex::encode(handler.node_id()));
}

#[test]
fn node_maps_to_paired_device_or_derived_id() {
    let handler = s_handler(true);
    let mut registry = DeviceRegistry::new(s_info(1));
    registry.complete_pairing(
        s_info(2),
        proxy_pairing::device::SessionKeys::from_shared_secret(vec![1; 32]),
        Some(vec![0x22; 32]),
        proxy_pairing::device::PairingType::Direct,
        None,
        s_at(0),
    );
    assert_eq!(handler.get_device_id_for_node(&registry, &[0x22; 32]), 2);
    assert_eq!(registry.get_device_by_node(&[0x22; 32]), Some(2));
    assert_eq!(registry.get_device_by_node(&[0x23; 32]), None);
    assert_eq!(
        handler.get_device_id_for_node(&registry, &[0x23; 32]),
        proxy_pairing::keys::device_id_for_node(&[0x23; 32])
    );
    assert!(registry.is_node_connected(2) == false);
    assert!(!registry.set_connection(3, None, true));
    assert!(registry.set_connection(2, Some(vec![0x24; 32]), true));
    assert!(registry.is_node_connected(2));
    assert_eq!(registry.get_node_id_for_device(2), Some(vec![0x24; 32]));
    assert_eq!(registry.get_node_id_for_device(3), None);
}

#[test]
fn fire_and_forget_fails_on_closed_channel() {
    let mut handler = s_handler(true);
    let message = proxy_pairing::messages::PairingMessage::Complete {
        session_id: 1,
        success: false,
        reason: Some("no".to_string()),
    };
    handler.send_pairing_message_fire_and_forget(&[1; 32], message).unwrap();
    assert_eq!(handler.take_outbound().len(), 1);
    handler.close_channel();
    let message = proxy_pairing::messages::PairingMessage::Complete {
        session_id: 1,
        success: false,
        reason: None,
    };
    assert_eq!(
        handler.send_pairing_message_fire_and_forget(&[1; 32], message),
        Err(NetworkingError::ChannelClosed)
    );
    assert!(handler.take_outbound().is_empty());
}

#[test]
fn code_is_stored_under_the_session_it_was_given_for() {
    let mut handler = s_handler(true);
    handler.join_pairing_session(7, s_code(9, 500), s_at(100)).unwrap();
    let stored = PairingCode { session_id: 7, ..s_code(9, 500) };
    assert_eq!(handler.get_current_pairing_code(), Some(stored));
    assert_eq!(handler.generate_shared_secret(7).unwrap(), vec![9u8; 16]);
    assert!(handler.generate_shared_secret(9).is_err());
    handler.start_pairing_session_with_id(8, s_code(9, 500), s_at(100)).unwrap();
    assert_eq!(handler.generate_shared_secret(8).unwrap(), vec![9u8; 16]);
    handler.cancel_session(7).unwrap();
    assert!(handler.generate_shared_secret(7).is_err());
    assert_eq!(handler.cleanup_expired_sessions(s_at(10_000)).unwrap(), 1);
    assert!(handler.generate_shared_secret(8).is_err());
    assert_eq!(handler.get_current_pairing_code(), None);
}
