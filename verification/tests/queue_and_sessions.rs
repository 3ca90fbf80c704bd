//! Tests of the vouch queue, the vouching sessions and the pairing sessions.

use proxy_pairing::device::{DeviceInfo, NetworkFingerprint, SessionKeys};
use proxy_pairing::proxy::{VouchStatus, VouchingSession, VouchingSessionState};
use proxy_pairing::time::Timestamp;
use proxy_pairing::vouching_queue::{VouchQueueStatus, VouchingQueue, VouchingQueueEntry};

fn q_at(secs: i64) -> Timestamp {
    Timestamp::new(secs, 0).unwrap()
}

fn q_info(id: u128, name: &str) -> DeviceInfo {
    DeviceInfo {
        device_id: id,
        device_name: name.to_string(),
        device_slug: name.to_lowercase(),
        os_version: "TestOS 1".to_string(),
        app_version: "2.0.0".to_string(),
        network_fingerprint: NetworkFingerprint {
            node_id: format!("node-{}", id),
            public_key: vec![id as u8; 32],
        },
        last_seen: q_at(0),
    }
}

fn q_entry(session: u128, target: u128, expires: i64) -> VouchingQueueEntry {
    VouchingQueueEntry {
        session_id: session,
        target_device_id: target,
        voucher_device_id: 1,
        vouchee_device_id: 2,
        vouchee_device_info: q_info(2, "Bob"),
        vouchee_public_key: vec![2u8; 32],
        voucher_signature: vec![9u8; 64],
        proxied_session_keys: SessionKeys { send_key: vec![1u8; 32], receive_key: vec![2u8; 32] },
        created_at: q_at(0),
        expires_at: q_at(expires),
        status: VouchQueueStatus::Queued,
        retry_count: 0,
        last_attempt_at: None,
    }
}

#[test]
fn queue_status_names_round_trip() {
    assert_eq!(VouchQueueStatus::Queued.as_str(), "queued");
    assert_eq!(VouchQueueStatus::Waiting.as_str(), "waiting");
    assert_eq!(VouchQueueStatus::from_str("waiting"), VouchQueueStatus::Waiting);
    assert_eq!(VouchQueueStatus::from_str("queued"), VouchQueueStatus::Queued);
    assert_eq!(VouchQueueStatus::from_str("anything else"), VouchQueueStatus::Queued);
    assert_eq!(VouchQueueStatus::from_str(""), VouchQueueStatus::Queued);
    for status in [VouchQueueStatus::Queued, VouchQueueStatus::Waiting] {
        assert_eq!(VouchQueueStatus::from_str(status.as_str()), status);
    }
}

#[test]
fn upsert_replaces_entry_with_same_key() {
    let mut queue = VouchingQueue::new();
    queue.upsert_entry(&q_entry(10, 100, 50));
    queue.upsert_entry(&q_entry(10, 101, 50));
    assert_eq!(queue.len(), 2);

    let mut replacement = q_entry(10, 100, 99);
    replacement.retry_count = 3;
    queue.upsert_entry(&replacement);
    assert_eq!(queue.len(), 2);
    let entries = queue.list_entries();
    assert_eq!(entries[0], replacement);
    assert_eq!(entries[1], q_entry(10, 101, 50));

    queue.upsert_entry(&replacement);
    assert_eq!(queue.list_entries(), entries);
}

#[test]
fn same_target_in_other_session_is_another_row() {
    let mut queue = VouchingQueue::new();
    queue.upsert_entry(&q_entry(10, 100, 50));
    queue.upsert_entry(&q_entry(11, 100, 50));
    assert_eq!(queue.len(), 2);
    assert!(queue.get_entry(10, 100).is_some());
    assert!(queue.get_entry(11, 100).is_some());
    assert!(queue.get_entry(11, 101).is_none());
}

#[test]
fn update_status_changes_delivery_state_in_place() {
    let mut queue = VouchingQueue::new();
    queue.upsert_entry(&q_entry(10, 100, 50));
    queue.upsert_entry(&q_entry(10, 101, 50));
    queue.update_status(10, 100, VouchQueueStatus::Waiting, 1, Some(q_at(7)));
    let entry = queue.get_entry(10, 100).unwrap();
    assert_eq!(entry.status, VouchQueueStatus::Waiting);
    assert_eq!(entry.retry_count, 1);
    assert_eq!(entry.last_attempt_at, Some(q_at(7)));
    assert_eq!(entry.expires_at, q_at(50));
    assert_eq!(queue.get_entry(10, 101).unwrap(), q_entry(10, 101, 50));

    queue.update_status(99, 100, VouchQueueStatus::Waiting, 4, Some(q_at(8)));
    assert_eq!(queue.len(), 2);
    assert_eq!(queue.get_entry(10, 100).unwrap().retry_count, 1);
}

#[test]
fn remove_entry_is_idempotent() {
    let mut queue = VouchingQueue::new();
    queue.upsert_entry(&q_entry(10, 100, 50));
    queue.upsert_entry(&q_entry(10, 101, 50));
    queue.remove_entry(10, 100);
    assert_eq!(queue.len(), 1);
    queue.remove_entry(10, 100);
    assert_eq!(queue.len(), 1);
    assert!(queue.get_entry(10, 100).is_none());
    assert!(queue.get_entry(10, 101).is_some());
}

#[test]
fn remove_expired_deletes_entries_at_or_before_now() {
    let mut queue = VouchingQueue::new();
    queue.upsert_entry(&q_entry(10, 100, 50));
    queue.upsert_entry(&q_entry(10, 101, 60));
    queue.upsert_entry(&q_entry(10, 102, 61));
    queue.upsert_entry(&q_entry(10, 103, 10));
    assert_eq!(queue.remove_expired(q_at(60)), 3);
    let left = queue.list_entries();
    assert_eq!(left.len(), 1);
    assert_eq!(left[0].target_device_id, 102);
    assert_eq!(queue.remove_expired(q_at(60)), 0);
}

#[test]
fn queue_reloads_with_identical_contents() {
    let mut queue = VouchingQueue::new();
    queue.upsert_entry(&q_entry(10, 100, 50));
    queue.upsert_entry(&q_entry(11, 101, 60));
    queue.update_status(11, 101, VouchQueueStatus::Waiting, 2, Some(q_at(5)));
    let saved = queue.list_entries();
    let reloaded = VouchingQueue::from_entries(queue.list_entries());
    assert_eq!(reloaded.list_entries(), saved);
}

#[test]
fn vouch_update_completes_session_when_all_are_final() {
    let mut session = VouchingSession::new(1, 2, "Bob".to_string(), 3, q_at(0));
    session.begin(vec![(10, "Carol".to_string()), (11, "Dave".to_string())], q_at(1));
    assert_eq!(session.state, VouchingSessionState::InProgress);
    assert_eq!(session.vouches.len(), 2);
    assert_eq!(session.vouches[0].status, VouchStatus::Selected);
    assert_eq!(session.pending_count(), 2);

    assert!(!session.apply_status(10, VouchStatus::Waiting, None, q_at(2)));
    assert!(!session.apply_status(10, VouchStatus::Accepted, None, q_at(3)));
    assert_eq!(session.state, VouchingSessionState::InProgress);
    assert!(session.apply_status(11, VouchStatus::Rejected, Some("No".to_string()), q_at(4)));
    assert_eq!(session.state, VouchingSessionState::Completed);
    assert_eq!(session.vouches[1].reason.as_deref(), Some("No"));
    assert_eq!(session.vouches[1].updated_at, q_at(4));
    assert_eq!(session.pending_count(), 0);
}

#[test]
fn final_vouch_and_completed_session_do_not_change() {
    let mut session = VouchingSession::new(1, 2, "Bob".to_string(), 3, q_at(0));
    session.begin(vec![(10, "Carol".to_string()), (11, "Dave".to_string())], q_at(1));
    session.apply_status(10, VouchStatus::Accepted, None, q_at(2));
    assert!(!session.accepts_update(10));
    assert!(!session.apply_status(10, VouchStatus::Rejected, Some("late".to_string()), q_at(3)));
    assert_eq!(session.vouches[0].status, VouchStatus::Accepted);
    assert_eq!(session.vouches[0].reason, None);

    session.apply_status(11, VouchStatus::Unreachable, None, q_at(4));
    assert_eq!(session.state, VouchingSessionState::Completed);
    let before = session.clone();
    assert!(!session.apply_status(12, VouchStatus::Waiting, None, q_at(5)));
    assert_eq!(session, before);
}

#[test]
fn unknown_target_is_recorded_as_unknown_device() {
    let mut session = VouchingSession::new(1, 2, "Bob".to_string(), 3, q_at(0));
    assert!(!session.apply_status(10, VouchStatus::Waiting, None, q_at(1)));
    assert_eq!(session.state, VouchingSessionState::Pending);
    assert_eq!(session.vouches[0].device_name, "Unknown device");
    assert!(session.apply_status(10, VouchStatus::Accepted, None, q_at(2)));
    assert_eq!(session.state, VouchingSessionState::Completed);
}

#[test]
fn session_without_targets_is_completed_at_once() {
    let mut session = VouchingSession::new(1, 2, "Bob".to_string(), 3, q_at(0));
    assert_eq!(session.state, VouchingSessionState::Pending);
    assert!(session.all_terminal());
    session.begin(vec![], q_at(1));
    assert_eq!(session.state, VouchingSessionState::Completed);
    assert!(session.vouches.is_empty());
}

#[test]
fn well_formedness_can_be_checked_at_run_time() {
    let mut session = VouchingSession::new(1, 2, "Bob".to_string(), 3, q_at(0));
    assert!(session.is_well_formed());
    session.begin(vec![(10, "Carol".to_string()), (11, "Dave".to_string())], q_at(1));
    assert!(session.is_well_formed());
    session.state = VouchingSessionState::Completed;
    assert!(!session.is_well_formed());
    session.state = VouchingSessionState::InProgress;
    session.vouches[1].device_id = 10;
    assert!(!session.is_well_formed());
    session.vouches[1].device_id = 11;
    session.vouches[0].status = VouchStatus::Accepted;
    session.vouches[1].status = VouchStatus::Unreachable;
    assert!(!session.is_well_formed());
    session.state = VouchingSessionState::Completed;
    assert!(session.is_well_formed());

    let mut entry = q_entry(1, 2, 50);
    assert!(entry.is_well_formed());
    entry.status = VouchQueueStatus::Waiting;
    assert!(!entry.is_well_formed());
    entry.last_attempt_at = Some(q_at(3));
    assert!(entry.is_well_formed());
    entry.expires_at = Timestamp { secs: 5, nanos: 1_000_000_000 };
    assert!(!entry.is_well_formed());
    assert!(!Timestamp { secs: 5, nanos: 1_000_000_000 }.is_valid());
    assert!(q_at(5).is_valid());

    let mut registry = proxy_pairing::device::DeviceRegistry::new(q_info(1, "Alice"));
    assert!(registry.is_well_formed());
    registry.complete_pairing(
        q_info(2, "Bob"),
        SessionKeys::from_shared_secret(vec![2; 32]),
        None,
        proxy_pairing::device::PairingType::Direct,
        None,
        q_at(0),
    );
    registry.complete_pairing(
        q_info(2, "Bobby"),
        SessionKeys::from_shared_secret(vec![3; 32]),
        None,
        proxy_pairing::device::PairingType::Direct,
        None,
        q_at(1),
    );
    assert_eq!(registry.devices.len(), 1);
    assert_eq!(registry.get_paired_device(2).unwrap().info.device_name, "Bobby");
    assert!(registry.is_well_formed());
    let copy = registry.get_paired_device(2).unwrap();
    registry.devices.push(copy);
    assert!(!registry.is_well_formed());
}

#[test]
fn stored_waiting_entry_without_a_time_counts_as_queued() {
    assert_eq!(VouchQueueStatus::restored("waiting", &Some(q_at(5))), VouchQueueStatus::Waiting);
    assert_eq!(VouchQueueStatus::restored("waiting", &None), VouchQueueStatus::Queued);
    assert_eq!(VouchQueueStatus::restored("queued", &Some(q_at(5))), VouchQueueStatus::Queued);
    assert_eq!(VouchQueueStatus::restored("queued", &None), VouchQueueStatus::Queued);
}
