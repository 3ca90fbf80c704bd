//! Tests of framing, time, keys and signatures.

use ed25519_dalek::Verifier;
use proxy_pairing::error::NetworkingError;
use proxy_pairing::framing::{
    decode_frame, decode_frame_length, encode_frame, encode_length, stream_step, FrameStatus,
    StreamAction, StreamEvent, StreamPhase, MAX_MESSAGE_SIZE,
};
use proxy_pairing::device::{DeviceInfo, NetworkFingerprint, SessionKeys};
use proxy_pairing::keys::{
    build_vouch_payload, derive_proxy_session_keys, derive_proxy_shared_secret,
    device_id_for_node, encode_vouch_payload, generate_challenge, proxy_context_text,
    sign_vouch_payload, verify_vouch_signature, vouch_is_fresh, NetworkIdentity,
};
use proxy_pairing::proxy::VouchPayload;
use proxy_pairing::text::bytes_equal;
use proxy_pairing::time::Timestamp;

fn at(secs: i64, nanos: u32) -> Timestamp {
    Timestamp::new(secs, nanos).unwrap()
}

#[test]
fn frame_carries_big_endian_length() {
    let payload: Vec<u8> = vec![7u8; 258];
    let frame = encode_frame(&payload).unwrap();
    assert_eq!(&frame[..4], &[0u8, 0, 1, 2]);
    assert_eq!(&frame[4..], &payload[..]);
    assert_eq!(encode_length(0x0102_0304), [1u8, 2, 3, 4]);
    assert_eq!(decode_frame_length(&[0, 0, 1, 2]).unwrap(), 258);
}

#[test]
fn frame_round_trip_with_trailing_bytes() {
    let payload: Vec<u8> = b"{\"Complete\":{}}".to_vec();
    let mut buffer = encode_frame(&payload).unwrap();
    buffer.extend_from_slice(&[9, 9, 9]);
    match decode_frame(&buffer).unwrap() {
        FrameStatus::Complete { payload: read, consumed } => {
            assert_eq!(read, payload);
            assert_eq!(consumed, 4 + payload.len());
        }
        FrameStatus::Incomplete => panic!("frame should be whole"),
    }
    assert!(matches!(decode_frame(&buffer[..3]).unwrap(), FrameStatus::Incomplete));
    assert!(matches!(decode_frame(&buffer[..10]).unwrap(), FrameStatus::Incomplete));
}

#[test]
fn frame_of_exactly_one_mebibyte_is_accepted() {
    assert_eq!(decode_frame_length(&[0, 0x10, 0, 0]).unwrap(), MAX_MESSAGE_SIZE);
    let payload: Vec<u8> = vec![0u8; MAX_MESSAGE_SIZE];
    assert_eq!(encode_frame(&payload).unwrap().len(), MAX_MESSAGE_SIZE + 4);
}

#[test]
fn oversized_frame_is_rejected() {
    match decode_frame_length(&[0, 0x10, 0, 1]) {
        Err(NetworkingError::Protocol(text)) => assert_eq!(text, "Message too large"),
        other => panic!("unexpected: {:?}", other),
    }
    assert!(decode_frame(&[0xff, 0xff, 0xff, 0xff, 1, 2]).is_err());
    let payload: Vec<u8> = vec![0u8; MAX_MESSAGE_SIZE + 1];
    assert!(matches!(encode_frame(&payload), Err(NetworkingError::Protocol(_))));
}

#[test]
fn oversized_header_closes_stream() {
    let step = stream_step(
        StreamPhase::AwaitingHeader,
        &StreamEvent::HeaderRead { prefix: [0, 0x10, 0, 1] },
    );
    assert_eq!(step, (StreamPhase::Closed, StreamAction::Close));
    let again = stream_step(StreamPhase::Closed, &StreamEvent::HeaderRead { prefix: [0, 0, 0, 1] });
    assert_eq!(again, (StreamPhase::Closed, StreamAction::Close));
}

#[test]
fn stream_goes_round_until_completion() {
    let (phase, action) =
        stream_step(StreamPhase::AwaitingHeader, &StreamEvent::HeaderRead { prefix: [0, 0, 0, 5] });
    assert_eq!(phase, StreamPhase::AwaitingBody { len: 5 });
    assert_eq!(action, StreamAction::ReadBody { len: 5 });
    let (phase, action) = stream_step(phase, &StreamEvent::BodyRead { decoded: true });
    assert_eq!((phase, action), (StreamPhase::Handling, StreamAction::Dispatch));
    let (phase, action) = stream_step(
        phase,
        &StreamEvent::Handled { ok: true, reply_written: true, was_completion: false },
    );
    assert_eq!((phase, action), (StreamPhase::AwaitingHeader, StreamAction::ReadHeader));
    let closing = stream_step(
        StreamPhase::Handling,
        &StreamEvent::Handled { ok: true, reply_written: true, was_completion: true },
    );
    assert_eq!(closing, (StreamPhase::Closed, StreamAction::Close));
    let failed = stream_step(
        StreamPhase::Handling,
        &StreamEvent::Handled { ok: false, reply_written: true, was_completion: false },
    );
    assert_eq!(failed, (StreamPhase::Closed, StreamAction::Close));
    let garbage = stream_step(StreamPhase::AwaitingBody { len: 5 }, &StreamEvent::BodyRead { decoded: false });
    assert_eq!(garbage, (StreamPhase::Closed, StreamAction::Close));
    let eof = stream_step(StreamPhase::AwaitingHeader, &StreamEvent::ReadFailed);
    assert_eq!(eof, (StreamPhase::Closed, StreamAction::Close));
}

#[test]
fn timestamps_compare_by_seconds_then_nanoseconds() {
    assert!(at(10, 5).at_or_before(&at(10, 5)));
    assert!(at(10, 5).at_or_before(&at(10, 6)));
    assert!(!at(11, 0).at_or_before(&at(10, 999_999_999)));
    assert!(at(-1, 999_999_999).at_or_before(&at(0, 0)));
    assert!(Timestamp::new(0, 1_000_000_000).is_none());
}

#[test]
fn elapsed_time_is_exact_to_the_nanosecond() {
    let start = at(100, 500);
    assert!(!at(400, 500).elapsed_exceeds(&start, 300));
    assert!(at(400, 501).elapsed_exceeds(&start, 300));
    assert!(at(400, 500).elapsed_at_least(&start, 300));
    assert!(!at(400, 499).elapsed_at_least(&start, 300));
    assert!(at(401, 0).elapsed_exceeds(&start, 300));
    assert!(!at(99, 0).elapsed_exceeds(&start, 0));
    assert!(!at(i64::MAX, 0).elapsed_exceeds(&at(i64::MIN, 0), u64::MAX));
    assert!(at(i64::MAX, 1).elapsed_exceeds(&at(i64::MIN, 0), u64::MAX));
    assert!(at(i64::MAX, 0).elapsed_at_least(&at(i64::MIN, 0), u64::MAX));
}

#[test]
fn plus_seconds_saturates() {
    assert_eq!(at(100, 7).plus_seconds(604_800), at(604_900, 7));
    assert_eq!(at(i64::MAX - 5, 7).plus_seconds(10), at(i64::MAX, 7));
    assert_eq!(at(-10, 0).plus_seconds(u64::MAX), at(i64::MAX, 0));
}

#[test]
fn vouch_freshness_boundary() {
    let signed = at(1_000, 0);
    assert!(vouch_is_fresh(&signed, &at(1_600, 0), 600));
    assert!(!vouch_is_fresh(&signed, &at(1_600, 1), 600));
    assert!(vouch_is_fresh(&signed, &at(900, 0), 600));
}

#[test]
fn bytes_equal_compares_contents() {
    assert!(bytes_equal(&[1, 2, 3], &[1, 2, 3]));
    assert!(!bytes_equal(&[1, 2, 3], &[1, 2, 4]));
    assert!(!bytes_equal(&[1, 2, 3], &[1, 2]));
    assert!(bytes_equal(&[], &[]));
}

#[test]
fn context_string_binds_all_parties() {
    let voucher: u128 = 0xa1a2a3a4_b1b2_c1c2_d1d2_d3d4d5d6d7d8;
    let target: u128 = 1;
    let vouchee: u128 = 0xffffffff_ffff_ffff_ffff_ffffffffffff;
    let text = proxy_context_text(voucher, target, vouchee, &[0x00, 0x0f, 0xa0, 0xff]);
    assert_eq!(
        text,
        "spacedrive-proxy-pairing-a1a2a3a4-b1b2-c1c2-d1d2-d3d4d5d6d7d8:\
         00000000-0000-0000-0000-000000000001:\
         ffffffff-ffff-ffff-ffff-ffffffffffff:000fa0ff"
    );
}

#[test]
fn shared_secret_is_hkdf_of_base_secret_and_context() {
    let voucher: u128 = 0x11;
    let target: u128 = 0x22;
    let vouchee: u128 = 0x33;
    let key: Vec<u8> = vec![0xab; 32];
    let base: Vec<u8> = vec![5u8; 32];
    let secret = derive_proxy_shared_secret(voucher, target, vouchee, &key, &base).unwrap();

    let context = format!(
        "spacedrive-proxy-pairing-{}:{}:{}:{}",
        uuid::Uuid::from_u128(voucher),
        uuid::Uuid::from_u128(target),
        uuid::Uuid::from_u128(vouchee),
        hex::encode(&key)
    );
    let hk = hkdf::Hkdf::<sha2::Sha256>::new(None, &base);
    let mut expected = [0u8; 32];
    hk.expand(context.as_bytes(), &mut expected).unwrap();
    assert_eq!(secret, expected.to_vec());
    assert_ne!(secret, base);

    let other = derive_proxy_shared_secret(voucher, 0x23, vouchee, &key, &base).unwrap();
    assert_ne!(secret, other);
}

#[test]
fn derived_session_keys_mirror_each_other() {
    let key: Vec<u8> = vec![0xab; 32];
    let base: Vec<u8> = vec![5u8; 32];
    let (receiver, vouchee) = derive_proxy_session_keys(1, 2, 3, &key, &base).unwrap();
    assert_ne!(receiver.send_key, receiver.receive_key);
    assert_eq!(receiver.send_key.len(), 32);
    assert_eq!(receiver.receive_key.len(), 32);
    assert_eq!(vouchee.send_key, receiver.receive_key);
    assert_eq!(vouchee.receive_key, receiver.send_key);
    assert!(receiver.is_valid());
    assert!(vouchee.is_valid());

    let secret = derive_proxy_shared_secret(1, 2, 3, &key, &base).unwrap();
    assert_eq!(receiver, SessionKeys::from_shared_secret(secret));
}

#[test]
fn session_keys_come_from_labelled_hkdf() {
    let secret: Vec<u8> = vec![42u8; 32];
    let keys = SessionKeys::from_shared_secret(secret.clone());
    let hk = hkdf::Hkdf::<sha2::Sha256>::new(None, &secret);
    let mut send = [0u8; 32];
    let mut receive = [0u8; 32];
    hk.expand(b"spacedrive-send-key", &mut send).unwrap();
    hk.expand(b"spacedrive-receive-key", &mut receive).unwrap();
    assert_eq!(keys.send_key, send.to_vec());
    assert_eq!(keys.receive_key, receive.to_vec());
    let swapped = keys.clone().swap_keys();
    assert_eq!(swapped.send_key, keys.receive_key);
    assert_eq!(swapped.swap_keys(), keys);
}

#[test]
fn session_keys_with_equal_halves_are_invalid() {
    let same = SessionKeys { send_key: vec![1, 2, 3], receive_key: vec![1, 2, 3] };
    assert!(!same.is_valid());
    let uneven = SessionKeys { send_key: vec![1, 2, 3], receive_key: vec![1, 2] };
    assert!(!uneven.is_valid());
    let good = SessionKeys { send_key: vec![1, 2, 3], receive_key: vec![1, 2, 4] };
    assert!(good.is_valid());
}

#[test]
fn identity_needs_a_32_byte_secret() {
    assert!(NetworkIdentity::from_secret_key(vec![1u8; 31]).is_none());
    assert!(NetworkIdentity::from_secret_key(vec![1u8; 33]).is_none());
    let identity = NetworkIdentity::from_secret_key(vec![1u8; 32]).unwrap();
    let expected = ed25519_dalek::SigningKey::from_bytes(&[1u8; 32]).verifying_key();
    assert_eq!(identity.node_id(), expected.to_bytes().to_vec());
}

fn sample_payload(name: &str, at: Timestamp) -> VouchPayload {
    let info = DeviceInfo {
        device_id: 0xB0B,
        device_name: name.to_string(),
        device_slug: "bob".to_string(),
        os_version: "TestOS 1".to_string(),
        app_version: "2.0.0".to_string(),
        network_fingerprint: NetworkFingerprint {
            node_id: "node-bob".to_string(),
            public_key: vec![2u8; 32],
        },
        last_seen: Timestamp { secs: 1_700_000_000, nanos: 5 },
    };
    build_vouch_payload(0x5E55, &info, &[2u8; 32], at)
}

#[test]
fn payload_is_encoded_as_bincode_document() {
    let at = Timestamp { secs: 1_700_000_100, nanos: 123_000_000 };
    let encoded = encode_vouch_payload(&sample_payload("Bob", at)).unwrap();
    let expected = bincode::serialize(&(
        uuid::Uuid::from_u128(0xB0B),
        vec![2u8; 32],
        (
            uuid::Uuid::from_u128(0xB0B),
            "Bob",
            "bob",
            "TestOS 1",
            "2.0.0",
            ("node-bob", vec![2u8; 32]),
            chrono::DateTime::from_timestamp(1_700_000_000, 5).unwrap(),
        ),
        chrono::DateTime::from_timestamp(1_700_000_100, 123_000_000).unwrap(),
        uuid::Uuid::from_u128(0x5E55),
    ))
    .unwrap();
    assert_eq!(encoded, expected);
    // The layout: a length-prefixed identifier comes first.
    assert_eq!(&encoded[..8], &16u64.to_le_bytes());
    assert_eq!(&encoded[8..24], &0xB0Bu128.to_be_bytes());
    assert_ne!(encoded, encode_vouch_payload(&sample_payload("Bobby", at)).unwrap());
    let later = Timestamp { secs: 1_700_000_101, nanos: 123_000_000 };
    assert_ne!(encoded, encode_vouch_payload(&sample_payload("Bob", later)).unwrap());
}

#[test]
fn payload_with_time_out_of_range_cannot_be_encoded() {
    let far = Timestamp { secs: i64::MAX, nanos: 0 };
    assert_eq!(
        encode_vouch_payload(&sample_payload("Bob", far)),
        Err(NetworkingError::Serialization("Vouch payload cannot be encoded".to_string()))
    );
    let identity = NetworkIdentity::from_secret_key(vec![7u8; 32]).unwrap();
    assert!(sign_vouch_payload(&identity, &sample_payload("Bob", far)).is_err());
    let signature = sign_vouch_payload(&identity, &sample_payload("Bob", Timestamp { secs: 1, nanos: 0 })).unwrap();
    assert_eq!(
        verify_vouch_signature(&sample_payload("Bob", far), &signature, &identity.node_id()),
        Err(NetworkingError::Serialization("Vouch payload cannot be encoded".to_string()))
    );
}

#[test]
fn signature_verifies_under_the_signers_key_only() {
    let identity = NetworkIdentity::from_secret_key(vec![7u8; 32]).unwrap();
    let other = NetworkIdentity::from_secret_key(vec![8u8; 32]).unwrap();
    let at = Timestamp { secs: 1_700_000_100, nanos: 0 };
    let payload = sample_payload("Bob", at);
    let signature = sign_vouch_payload(&identity, &payload).unwrap();
    assert_eq!(signature.len(), 64);
    assert_eq!(signature, identity.sign(&encode_vouch_payload(&payload).unwrap()));

    let key = ed25519_dalek::VerifyingKey::from_bytes(&identity.node_id().try_into().unwrap()).unwrap();
    let parsed = ed25519_dalek::Signature::from_slice(&signature).unwrap();
    assert!(key.verify(&encode_vouch_payload(&payload).unwrap(), &parsed).is_ok());

    assert_eq!(verify_vouch_signature(&payload, &signature, &identity.node_id()).unwrap(), true);
    assert_eq!(verify_vouch_signature(&payload, &signature, &other.node_id()).unwrap(), false);
    let renamed = sample_payload("Mallory", at);
    assert_eq!(verify_vouch_signature(&renamed, &signature, &identity.node_id()).unwrap(), false);
    let mut flipped = signature.clone();
    flipped[10] ^= 0xff;
    assert_eq!(verify_vouch_signature(&payload, &flipped, &identity.node_id()).unwrap(), false);
}

#[test]
fn signature_check_rejects_malformed_input() {
    let identity = NetworkIdentity::from_secret_key(vec![7u8; 32]).unwrap();
    let payload = sample_payload("Bob", Timestamp { secs: 1_700_000_100, nanos: 0 });
    let signature = sign_vouch_payload(&identity, &payload).unwrap();
    match verify_vouch_signature(&payload, &signature, &[1u8; 31]) {
        Err(NetworkingError::Protocol(text)) => assert_eq!(text, "Invalid voucher public key length"),
        other => panic!("unexpected: {:?}", other),
    }
    match verify_vouch_signature(&payload, &signature[..63], &identity.node_id()) {
        Err(NetworkingError::Protocol(text)) => assert_eq!(text, "Invalid signature length"),
        other => panic!("unexpected: {:?}", other),
    }
    // Look for 32 bytes that are not the encoding of a curve point.
    let mut checked = false;
    for fill in 0u8..=255 {
        let candidate = [fill; 32];
        if ed25519_dalek::VerifyingKey::from_bytes(&candidate).is_err() {
            match verify_vouch_signature(&payload, &signature, &candidate) {
                Err(NetworkingError::Protocol(text)) => assert_eq!(text, "Invalid voucher public key"),
                other => panic!("unexpected: {:?}", other),
            }
            checked = true;
            break;
        }
    }
    assert!(checked);
}

#[test]
fn device_id_for_unknown_node_is_hash_prefix() {
    let node: Vec<u8> = vec![3u8; 32];
    let mut hasher = blake3::Hasher::new();
    hasher.update(b"spacedrive-device-id");
    hasher.update(&node);
    let hash = hasher.finalize();
    let mut bytes = [0u8; 16];
    bytes.copy_from_slice(&hash.as_bytes()[..16]);
    assert_eq!(device_id_for_node(&node), uuid::Uuid::from_bytes(bytes).as_u128());
    assert_ne!(device_id_for_node(&node), device_id_for_node(&[4u8; 32]));
}

#[test]
fn challenge_has_32_bytes() {
    let first = generate_challenge().unwrap();
    let second = generate_challenge().unwrap();
    assert_eq!(first.len(), 32);
    assert_eq!(second.len(), 32);
    assert_ne!(first, second);
}

#[test]
fn error_message_names_kind_and_detail() {
    assert_eq!(NetworkingError::protocol("bad").message(), "Protocol error: bad");
    assert_eq!(NetworkingError::Transport("io".to_string()).message(), "Transport error: io");
    assert_eq!(
        NetworkingError::Serialization("json".to_string()).message(),
        "Serialization error: json"
    );
    assert_eq!(NetworkingError::Storage("db".to_string()).message(), "Storage error: db");
    assert_eq!(NetworkingError::NotFound("x".to_string()).message(), "Not found: x");
    assert_eq!(NetworkingError::ChannelClosed.message(), "Pairing command channel closed");
}
