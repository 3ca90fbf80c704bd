//! Vouch signatures and the keys that a proxied pairing rests on.

use crate::crypto::PUBLIC_KEY_LENGTH;
use crate::crypto::SECRET_KEY_LENGTH;
use crate::crypto::SIGNATURE_LENGTH;
use crate::crypto::bincode_vouch_document;
use crate::crypto::blake3_digest;
use crate::crypto::serialize_vouch_document;
use crate::crypto::blake3_hash;
use crate::crypto::ed25519_key_decodes;
use crate::crypto::ed25519_key_is_valid;
use crate::crypto::ed25519_public_from_secret;
use crate::crypto::ed25519_public_key;
use crate::crypto::ed25519_sign;
use crate::crypto::ed25519_signature;
use crate::crypto::ed25519_verifies;
use crate::crypto::ed25519_verify;
use crate::crypto::hex_chars;
use crate::crypto::hex_encode;
use crate::crypto::hkdf_expand_32;
use crate::crypto::hkdf_sha256_32;
use crate::crypto::hyphenated;
use crate::crypto::random_bytes;
use crate::crypto::uuid_text;
use crate::device::DeviceInfo;
use crate::device::SessionKeys;
use crate::device::keys_from_secret;
use crate::error::ErrorView;
use crate::error::NetworkingError;
use crate::proxy::VouchPayload;
use crate::proxy::VouchPayloadView;
use crate::text::be_value;
use crate::text::copy_bytes;
use crate::text::leading_u128;
use crate::time::Timestamp;
use vstd::prelude::*;
use vstd::string::*;
use vstd::utf8::encode_utf8;

verus! {

/// Length in bytes of a pairing challenge.
pub const CHALLENGE_LENGTH: usize = 32;

/// The long-term identity of this device on the network: an Ed25519 key pair.
/// The public key is the device's node identity.
#[derive(Debug)]
pub struct NetworkIdentity {
    secret_key: Vec<u8>,
    node_id: Vec<u8>,
}

impl NetworkIdentity {
    /// The secret key, as bytes.
    pub closed spec fn secret(&self) -> Seq<u8> {
        self.secret_key@
    }

    /// The public key, as bytes.
    pub closed spec fn public(&self) -> Seq<u8> {
        self.node_id@
    }

    /// The secret key has its length, and the public key is the one that
    /// belongs to it. This holds of every identity.
    #[verifier::type_invariant]
    pub closed spec fn wf(&self) -> bool {
        &&& self.secret_key@.len() == SECRET_KEY_LENGTH
        &&& self.node_id@ == ed25519_public_key(self.secret_key@)
        &&& self.node_id@.len() == PUBLIC_KEY_LENGTH
        &&& ed25519_key_decodes(self.node_id@)
    }

    /// The identity with the given secret key; `None` where the key does not
    /// have 32 bytes.
    pub fn from_secret_key(secret_key: Vec<u8>) -> (r: Option<NetworkIdentity>)
        ensures
            r is Some <==> secret_key@.len() == SECRET_KEY_LENGTH,
            r matches Some(identity) ==> identity.secret() == secret_key@ && identity.public()
                == ed25519_public_key(secret_key@),
    {
        if secret_key.len() != SECRET_KEY_LENGTH {
            return None;
        }
        let node_id = ed25519_public_from_secret(secret_key.as_slice());
        Some(NetworkIdentity { secret_key, node_id })
    }

    /// The node identity: the public key, which has 32 bytes, is the encoding
    /// of a curve point, and belongs to the secret key.
    pub fn node_id(&self) -> (id: Vec<u8>)
        ensures
            id@ == self.public(),
            id@ == ed25519_public_key(self.secret()),
            id@.len() == PUBLIC_KEY_LENGTH,
            ed25519_key_decodes(id@),
    {
        proof {
            use_type_invariant(self);
        }
        self.node_id.clone()
    }

    /// Signs a message with the secret key. The signature verifies under the
    /// identity's public key.
    pub fn sign(&self, message: &[u8]) -> (signature: Vec<u8>)
        ensures
            signature@ == ed25519_signature(self.secret(), message@),
            signature@.len() == SIGNATURE_LENGTH,
            ed25519_verifies(self.public(), message@, signature@),
    {
        proof {
            use_type_invariant(self);
        }
        ed25519_sign(self.secret_key.as_slice(), message)
    }
}

/// The document that a voucher signs for a vouchee.
pub fn build_vouch_payload(
    session_id: u128,
    vouchee_device_info: &DeviceInfo,
    vouchee_public_key: &[u8],
    timestamp: Timestamp,
) -> (payload: VouchPayload)
    ensures
        payload@ == (VouchPayloadView {
            vouchee_device_id: vouchee_device_info.device_id,
            vouchee_public_key: vouchee_public_key@,
            vouchee_device_info: vouchee_device_info@,
            timestamp,
            session_id,
        }),
{
    VouchPayload {
        vouchee_device_id: vouchee_device_info.device_id,
        vouchee_public_key: copy_bytes(vouchee_public_key),
        vouchee_device_info: vouchee_device_info.clone(),
        timestamp,
        session_id,
    }
}

/// The bytes of a vouch payload that the voucher signs, if the payload can be
/// encoded.
pub open spec fn payload_encoding(payload: VouchPayloadView) -> Option<Seq<u8>> {
    bincode_vouch_document(
        payload.vouchee_device_id,
        payload.vouchee_public_key,
        payload.vouchee_device_info.device_id,
        payload.vouchee_device_info.device_name,
        payload.vouchee_device_info.device_slug,
        payload.vouchee_device_info.os_version,
        payload.vouchee_device_info.app_version,
        payload.vouchee_device_info.node_id,
        payload.vouchee_device_info.public_key,
        payload.vouchee_device_info.last_seen.secs,
        payload.vouchee_device_info.last_seen.nanos,
        payload.timestamp.secs,
        payload.timestamp.nanos,
        payload.session_id,
    )
}

/// The error for a vouch payload that cannot be encoded.
pub open spec fn encoding_error() -> ErrorView {
    ErrorView::Serialization("Vouch payload cannot be encoded"@)
}

/// Encodes a vouch payload as the voucher signs it.
pub fn encode_vouch_payload(payload: &VouchPayload) -> (r: Result<Vec<u8>, NetworkingError>)
    ensures
        match payload_encoding(payload@) {
            Some(bytes) => r matches Ok(encoded) && encoded@ == bytes,
            None => r matches Err(e) && e@ == encoding_error(),
        },
{
    let info = &payload.vouchee_device_info;
    match serialize_vouch_document(
        payload.vouchee_device_id,
        payload.vouchee_public_key.as_slice(),
        info.device_id,
        info.device_name.as_str(),
        info.device_slug.as_str(),
        info.os_version.as_str(),
        info.app_version.as_str(),
        info.network_fingerprint.node_id.as_str(),
        info.network_fingerprint.public_key.as_slice(),
        info.last_seen.secs,
        info.last_seen.nanos,
        payload.timestamp.secs,
        payload.timestamp.nanos,
        payload.session_id,
    ) {
        Some(bytes) => Ok(bytes),
        None => Err(
            NetworkingError::Serialization("Vouch payload cannot be encoded".to_string()),
        ),
    }
}

/// The signature of a voucher over a vouch payload, if the payload can be
/// encoded.
pub open spec fn payload_signature(secret_key: Seq<u8>, payload: VouchPayloadView) -> Option<Seq<u8>> {
    match payload_encoding(payload) {
        Some(bytes) => Some(ed25519_signature(secret_key, bytes)),
        None => None,
    }
}

/// Signs a vouch payload with the voucher's identity. The signature verifies
/// under the identity's public key.
pub fn sign_vouch_payload(identity: &NetworkIdentity, payload: &VouchPayload) -> (r: Result<
    Vec<u8>,
    NetworkingError,
>)
    ensures
        match payload_signature(identity.secret(), payload@) {
            Some(expected) => r matches Ok(signature) && signature@ == expected
                && signature@.len() == SIGNATURE_LENGTH && ed25519_verifies(
                identity.public(),
                payload_encoding(payload@)->0,
                signature@,
            ),
            None => r matches Err(e) && e@ == encoding_error(),
        },
{
    match encode_vouch_payload(payload) {
        Ok(bytes) => Ok(identity.sign(bytes.as_slice())),
        Err(e) => Err(e),
    }
}

/// The outcome of checking a vouch signature: an error for a key or a
/// signature that cannot be one or a payload that cannot be encoded, and
/// otherwise whether the signature verifies the encoded payload under the key.
pub open spec fn signature_check(payload: VouchPayloadView, signature: Seq<u8>, public_key: Seq<u8>) -> Result<
    bool,
    ErrorView,
> {
    if public_key.len() != PUBLIC_KEY_LENGTH {
        Err(ErrorView::Protocol("Invalid voucher public key length"@))
    } else if signature.len() != SIGNATURE_LENGTH {
        Err(ErrorView::Protocol("Invalid signature length"@))
    } else if payload_encoding(payload) is None {
        Err(encoding_error())
    } else if !ed25519_key_decodes(public_key) {
        Err(ErrorView::Protocol("Invalid voucher public key"@))
    } else {
        Ok(ed25519_verifies(public_key, payload_encoding(payload)->0, signature))
    }
}

/// Checks the signature of a vouch payload against a public key.
pub fn verify_vouch_signature(payload: &VouchPayload, signature: &[u8], public_key_bytes: &[u8]) -> (r:
    Result<bool, NetworkingError>)
    ensures
        match signature_check(payload@, signature@, public_key_bytes@) {
            Ok(valid) => r == Ok::<bool, NetworkingError>(valid),
            Err(error) => r matches Err(e) && e@ == error,
        },
{
    if public_key_bytes.len() != PUBLIC_KEY_LENGTH {
        return Err(NetworkingError::protocol("Invalid voucher public key length"));
    }
    if signature.len() != SIGNATURE_LENGTH {
        return Err(NetworkingError::protocol("Invalid signature length"));
    }
    let encoded = match encode_vouch_payload(payload) {
        Ok(bytes) => bytes,
        Err(e) => {
            return Err(e);
        },
    };
    if !ed25519_key_is_valid(public_key_bytes) {
        return Err(NetworkingError::protocol("Invalid voucher public key"));
    }
    Ok(ed25519_verify(public_key_bytes, encoded.as_slice(), signature))
}

/// Whether a vouch signed at `timestamp` is still fresh at `now`: its age is at
/// most `max_age` seconds.
pub open spec fn spec_vouch_is_fresh(timestamp: Timestamp, now: Timestamp, max_age: u64) -> bool {
    now.as_nanos() - timestamp.as_nanos() <= max_age * 1_000_000_000
}

/// Whether a vouch signed at `timestamp` is still fresh at `now`.
pub fn vouch_is_fresh(timestamp: &Timestamp, now: &Timestamp, max_age: u64) -> (r: bool)
    requires
        timestamp.wf(),
        now.wf(),
    ensures
        r == spec_vouch_is_fresh(*timestamp, *now, max_age),
{
    !now.elapsed_exceeds(timestamp, max_age)
}

/// The context that binds a derived secret to the voucher, the target, the
/// vouchee and the vouchee's public key.
pub open spec fn proxy_context(voucher: u128, target: u128, vouchee: u128, vouchee_public_key: Seq<u8>) -> Seq<
    char,
> {
    "spacedrive-proxy-pairing-"@ + hyphenated(voucher) + ":"@ + hyphenated(target) + ":"@
        + hyphenated(vouchee) + ":"@ + hex_chars(vouchee_public_key)
}

/// The secret that the target and the vouchee share, derived from the secret
/// of the direct pairing between voucher and vouchee.
pub open spec fn proxy_shared_secret(
    voucher: u128,
    target: u128,
    vouchee: u128,
    vouchee_public_key: Seq<u8>,
    base_secret: Seq<u8>,
) -> Seq<u8> {
    hkdf_sha256_32(
        base_secret,
        encode_utf8(proxy_context(voucher, target, vouchee, vouchee_public_key)),
    )
}

/// Spells the context of a key derivation.
pub fn proxy_context_text(voucher: u128, target: u128, vouchee: u128, vouchee_public_key: &[u8]) -> (text:
    String)
    ensures
        text@ == proxy_context(voucher, target, vouchee, vouchee_public_key@),
{
    let mut text = "spacedrive-proxy-pairing-".to_string();
    text.append(uuid_text(voucher).as_str());
    text.append(":");
    text.append(uuid_text(target).as_str());
    text.append(":");
    text.append(uuid_text(vouchee).as_str());
    text.append(":");
    text.append(hex_encode(vouchee_public_key).as_str());
    text
}

/// Derives the secret that the target and the vouchee share: HKDF-SHA256 over
/// the base secret, expanded to 32 bytes under the context of the derivation.
pub fn derive_proxy_shared_secret(
    voucher_device_id: u128,
    target_device_id: u128,
    vouchee_device_id: u128,
    vouchee_public_key: &[u8],
    base_secret: &[u8],
) -> (r: Result<Vec<u8>, NetworkingError>)
    ensures
        r matches Ok(secret) && secret@ == proxy_shared_secret(
            voucher_device_id,
            target_device_id,
            vouchee_device_id,
            vouchee_public_key@,
            base_secret@,
        ) && secret@.len() == 32,
{
    let context = proxy_context_text(
        voucher_device_id,
        target_device_id,
        vouchee_device_id,
        vouchee_public_key,
    );
    Ok(hkdf_expand_32(base_secret, context.as_str().as_bytes()))
}

/// The error for derived keys that cannot serve: the send key and the receive
/// key are the same.
pub open spec fn invalid_keys_error() -> ErrorView {
    ErrorView::Protocol("Invalid session keys"@)
}

/// Derives the keys of a proxied pairing. The first pair is the target's, the
/// second the vouchee's: the same keys with send and receive exchanged. Every
/// key has 32 bytes. Keys whose send and receive halves are the same are
/// refused.
pub fn derive_proxy_session_keys(
    voucher_device_id: u128,
    target_device_id: u128,
    vouchee_device_id: u128,
    vouchee_public_key: &[u8],
    base_secret: &[u8],
) -> (r: Result<(SessionKeys, SessionKeys), NetworkingError>)
    ensures
        ({
            let keys = keys_from_secret(
                proxy_shared_secret(
                    voucher_device_id,
                    target_device_id,
                    vouchee_device_id,
                    vouchee_public_key@,
                    base_secret@,
                ),
            );
            if keys.wf() {
                r matches Ok((receiver_keys, vouchee_keys)) && receiver_keys@ == keys
                    && vouchee_keys@ == keys.swapped() && receiver_keys.send_key@.len() == 32
                    && receiver_keys.receive_key@.len() == 32 && vouchee_keys.send_key@.len()
                    == 32 && vouchee_keys.receive_key@.len() == 32
            } else {
                r matches Err(e) && e@ == invalid_keys_error()
            }
        }),
{
    let shared_secret = match derive_proxy_shared_secret(
        voucher_device_id,
        target_device_id,
        vouchee_device_id,
        vouchee_public_key,
        base_secret,
    ) {
        Ok(secret) => secret,
        Err(e) => {
            return Err(e);
        },
    };
    let receiver_keys = SessionKeys::from_shared_secret(shared_secret);
    if !receiver_keys.is_valid() {
        return Err(NetworkingError::protocol("Invalid session keys"));
    }
    let vouchee_keys = receiver_keys.clone().swap_keys();
    Ok((receiver_keys, vouchee_keys))
}

/// The prefix under which a node identity is hashed into a device identifier.
pub open spec fn device_id_domain() -> Seq<u8> {
    "spacedrive-device-id".spec_bytes()
}

/// The device identifier that stands for a node which no paired device is
/// known as: the first sixteen bytes of a BLAKE3 digest, read as a number.
pub open spec fn spec_device_id_for_node(node_id: Seq<u8>) -> nat {
    be_value(blake3_digest(device_id_domain() + node_id).subrange(0, 16))
}

/// Derives a device identifier from a node identity.
pub fn device_id_for_node(node_id: &[u8]) -> (id: u128)
    ensures
        id == spec_device_id_for_node(node_id@),
{
    let mut input: Vec<u8> = copy_bytes("spacedrive-device-id".as_bytes());
    input.extend_from_slice(node_id);
    assert(input@ =~= device_id_domain() + node_id@);
    let digest = blake3_hash(input.as_slice());
    leading_u128(digest.as_slice())
}

/// A fresh pairing challenge: 32 random bytes.
pub fn generate_challenge() -> (r: Result<Vec<u8>, NetworkingError>)
    ensures
        r matches Ok(challenge) && challenge@.len() == CHALLENGE_LENGTH,
{
    Ok(random_bytes(CHALLENGE_LENGTH))
}

} // verus!
