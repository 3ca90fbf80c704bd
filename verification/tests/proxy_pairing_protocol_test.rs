//! Tests of the protocol's data types on their own.

use chrono::Utc;
use proxy_pairing::device::{DeviceInfo, NetworkFingerprint, PairingType, SessionKeys};
use proxy_pairing::proxy::{
    VouchPayload, VouchState, VouchStatus, VouchingSession, VouchingSessionState,
};
use proxy_pairing::time::Timestamp;
use uuid::Uuid;

fn protocol_now() -> Timestamp {
    let now = Utc::now();
    Timestamp { secs: now.timestamp(), nanos: now.timestamp_subsec_nanos() % 1_000_000_000 }
}

fn protocol_id() -> u128 {
    Uuid::new_v4().as_u128()
}

#[test]
fn test_vouching_session_creation() {
    let session_id = protocol_id();
    let vouchee_device_id = protocol_id();
    let voucher_device_id = protocol_id();

    let session = VouchingSession {
        id: session_id,
        vouchee_device_id,
        vouchee_device_name: "Test Device".to_string(),
        voucher_device_id,
        created_at: protocol_now(),
        state: VouchingSessionState::Pending,
        vouches: vec![],
    };

    assert_eq!(session.id, session_id);
    assert_eq!(session.vouchee_device_id, vouchee_device_id);
    assert_eq!(session.voucher_device_id, voucher_device_id);
    assert!(matches!(session.state, VouchingSessionState::Pending));
    assert_eq!(session.vouches.len(), 0);
}

#[test]
fn test_vouch_state_lifecycle() {
    let device_id = protocol_id();

    let mut vouch = VouchState {
        device_id,
        device_name: "Target Device".to_string(),
        status: VouchStatus::Selected,
        updated_at: protocol_now(),
        reason: None,
    };

    assert!(matches!(vouch.status, VouchStatus::Selected));

    vouch.status = VouchStatus::Queued;
    vouch.updated_at = protocol_now();
    assert!(matches!(vouch.status, VouchStatus::Queued));

    vouch.status = VouchStatus::Waiting;
    vouch.updated_at = protocol_now();
    assert!(matches!(vouch.status, VouchStatus::Waiting));

    vouch.status = VouchStatus::Accepted;
    vouch.updated_at = protocol_now();
    assert!(matches!(vouch.status, VouchStatus::Accepted));
    assert_eq!(vouch.reason, None);
}

#[test]
fn test_vouch_rejection_with_reason() {
    let device_id = protocol_id();

    let vouch = VouchState {
        device_id,
        device_name: "Target Device".to_string(),
        status: VouchStatus::Rejected,
        updated_at: protocol_now(),
        reason: Some("User rejected proxy pairing".to_string()),
    };

    assert!(matches!(vouch.status, VouchStatus::Rejected));
    assert_eq!(vouch.reason.as_ref().unwrap(), "User rejected proxy pairing");
}

#[test]
fn test_vouching_session_with_multiple_vouches() {
    let session_id = protocol_id();
    let vouchee_device_id = protocol_id();
    let voucher_device_id = protocol_id();

    let device1 = protocol_id();
    let device2 = protocol_id();
    let device3 = protocol_id();

    let mut session = VouchingSession {
        id: session_id,
        vouchee_device_id,
        vouchee_device_name: "New Device".to_string(),
        voucher_device_id,
        created_at: protocol_now(),
        state: VouchingSessionState::InProgress,
        vouches: vec![
            VouchState {
                device_id: device1,
                device_name: "Device 1".to_string(),
                status: VouchStatus::Accepted,
                updated_at: protocol_now(),
                reason: None,
            },
            VouchState {
                device_id: device2,
                device_name: "Device 2".to_string(),
                status: VouchStatus::Waiting,
                updated_at: protocol_now(),
                reason: None,
            },
            VouchState {
                device_id: device3,
                device_name: "Device 3".to_string(),
                status: VouchStatus::Queued,
                updated_at: protocol_now(),
                reason: None,
            },
        ],
    };

    assert_eq!(session.vouches.len(), 3);

    let accepted = session
        .vouches
        .iter()
        .filter(|v| matches!(v.status, VouchStatus::Accepted))
        .count();
    let waiting = session
        .vouches
        .iter()
        .filter(|v| matches!(v.status, VouchStatus::Waiting))
        .count();
    let queued = session
        .vouches
        .iter()
        .filter(|v| matches!(v.status, VouchStatus::Queued))
        .count();

    assert_eq!(accepted, 1);
    assert_eq!(waiting, 1);
    assert_eq!(queued, 1);
    assert_eq!(session.pending_count(), 2);
    assert!(!session.all_terminal());

    session.vouches[1].status = VouchStatus::Accepted;
    session.vouches[2].status = VouchStatus::Rejected;
    session.vouches[2].reason = Some("Offline".to_string());

    let all_terminal = session.vouches.iter().all(|v| {
        matches!(
            v.status,
            VouchStatus::Accepted | VouchStatus::Rejected | VouchStatus::Unreachable
        )
    });

    assert!(all_terminal);
    assert!(session.all_terminal());
    session.state = VouchingSessionState::Completed;
    assert!(matches!(session.state, VouchingSessionState::Completed));
}

#[test]
fn test_vouch_payload_structure() {
    let session_id = protocol_id();
    let vouchee_device_id = protocol_id();
    let vouchee_public_key: Vec<u8> = vec![1, 2, 3, 4, 5];

    let device_info = DeviceInfo {
        device_id: vouchee_device_id,
        device_name: "Test Device".to_string(),
        device_slug: "test-device".to_string(),
        os_version: "Test OS 1.0".to_string(),
        app_version: "1.0.0".to_string(),
        network_fingerprint: NetworkFingerprint {
            node_id: "test_node_id".to_string(),
            public_key: vouchee_public_key.clone(),
        },
        last_seen: protocol_now(),
    };

    let timestamp = protocol_now();

    let payload = VouchPayload {
        vouchee_device_id,
        vouchee_public_key: vouchee_public_key.clone(),
        vouchee_device_info: device_info.clone(),
        timestamp,
        session_id,
    };

    assert_eq!(payload.vouchee_device_id, vouchee_device_id);
    assert_eq!(payload.vouchee_public_key, vouchee_public_key);
    assert_eq!(payload.vouchee_device_info.device_id, vouchee_device_id);
    assert_eq!(payload.session_id, session_id);

    let built = proxy_pairing::keys::build_vouch_payload(
        session_id,
        &device_info,
        &vouchee_public_key,
        timestamp,
    );
    assert_eq!(built, payload);
}

#[test]
fn test_pairing_type_serialization() {
    let direct = PairingType::Direct;
    let direct_json = serde_json::to_string(direct.as_str()).unwrap();
    assert_eq!(direct_json, "\"Direct\"");
    let direct_name: String = serde_json::from_str(&direct_json).unwrap();
    let direct_deserialized = PairingType::from_str(&direct_name).unwrap();
    assert!(matches!(direct_deserialized, PairingType::Direct));

    let proxied = PairingType::Proxied;
    let proxied_json = serde_json::to_string(proxied.as_str()).unwrap();
    assert_eq!(proxied_json, "\"Proxied\"");
    let proxied_name: String = serde_json::from_str(&proxied_json).unwrap();
    let proxied_deserialized = PairingType::from_str(&proxied_name).unwrap();
    assert!(matches!(proxied_deserialized, PairingType::Proxied));

    assert_eq!(PairingType::from_str("direct"), None);
}

#[test]
fn test_vouching_session_state_transitions() {
    let mut session = VouchingSession {
        id: protocol_id(),
        vouchee_device_id: protocol_id(),
        vouchee_device_name: "Test Device".to_string(),
        voucher_device_id: protocol_id(),
        created_at: protocol_now(),
        state: VouchingSessionState::Pending,
        vouches: vec![],
    };

    assert!(matches!(session.state, VouchingSessionState::Pending));

    session.state = VouchingSessionState::InProgress;
    assert!(matches!(session.state, VouchingSessionState::InProgress));

    session.state = VouchingSessionState::Completed;
    assert!(matches!(session.state, VouchingSessionState::Completed));
}

#[test]
fn test_session_keys_for_proxy_pairing() {
    let shared_secret = vec![42u8; 32];
    let session_keys = SessionKeys::from_shared_secret(shared_secret);

    assert_eq!(session_keys.send_key.len(), 32);
    assert_eq!(session_keys.receive_key.len(), 32);
    assert_ne!(session_keys.send_key, session_keys.receive_key);
}

#[test]
fn test_vouch_status_enum_values() {
    let _selected = VouchStatus::Selected;
    let _queued = VouchStatus::Queued;
    let _waiting = VouchStatus::Waiting;
    let _accepted = VouchStatus::Accepted;
    let _rejected = VouchStatus::Rejected;
    let _unreachable = VouchStatus::Unreachable;

    let terminal_statuses = vec![
        VouchStatus::Accepted,
        VouchStatus::Rejected,
        VouchStatus::Unreachable,
    ];

    for status in terminal_statuses {
        assert!(matches!(
            status,
            VouchStatus::Accepted | VouchStatus::Rejected | VouchStatus::Unreachable
        ));
        assert!(status.is_terminal());
    }
    assert!(!VouchStatus::Selected.is_terminal());
    assert!(!VouchStatus::Queued.is_terminal());
    assert!(!VouchStatus::Waiting.is_terminal());
}

#[test]
fn test_vouching_session_cleanup_timing() {
    let session = VouchingSession {
        id: protocol_id(),
        vouchee_device_id: protocol_id(),
        vouchee_device_name: "Test Device".to_string(),
        voucher_device_id: protocol_id(),
        created_at: protocol_now(),
        state: VouchingSessionState::Completed,
        vouches: vec![],
    };

    let cleanup_delay: u64 = 3600;
    let cleanup_time = session.created_at.plus_seconds(cleanup_delay);

    assert!(!cleanup_time.at_or_before(&session.created_at));
    assert!(cleanup_time.elapsed_at_least(&session.created_at, cleanup_delay));
    assert!(!cleanup_time.elapsed_exceeds(&session.created_at, cleanup_delay));
    assert_eq!(
        proxy_pairing::vouching::VOUCHING_RETENTION_SECONDS,
        cleanup_delay
    );
}
