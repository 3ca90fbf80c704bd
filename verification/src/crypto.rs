//! The cryptographic and encoding primitives that the pairing rules rest on.
//!
//! Each function here hands its arguments to a library outside this crate. Its
//! contract is taken on trust: it names the result, and states of it only what
//! that library documents.

use ed25519_dalek::Signer;
use ed25519_dalek::Verifier;
use rand::RngCore;
use uuid::Uuid;
use vstd::prelude::*;

verus! {

/// Length in bytes of an Ed25519 public key, and of a node identity.
pub const PUBLIC_KEY_LENGTH: usize = 32;

/// Length in bytes of an Ed25519 secret key.
pub const SECRET_KEY_LENGTH: usize = 32;

/// Length in bytes of an Ed25519 signature.
pub const SIGNATURE_LENGTH: usize = 64;

/// Length in bytes of a derived secret and of a session key.
pub const DERIVED_KEY_LENGTH: usize = 32;

/// The 32 bytes that HKDF-SHA256 yields for input key material `ikm` and
/// context `info`, with no salt.
pub uninterp spec fn hkdf_sha256_32(ikm: Seq<u8>, info: Seq<u8>) -> Seq<u8>;

/// Whether 32 bytes are the encoding of a point that can serve as an Ed25519
/// public key.
pub uninterp spec fn ed25519_key_decodes(public_key: Seq<u8>) -> bool;

/// Whether `signature` is a valid Ed25519 signature of `message` under
/// `public_key`.
pub uninterp spec fn ed25519_verifies(public_key: Seq<u8>, message: Seq<u8>, signature: Seq<u8>) -> bool;

/// The Ed25519 signature of `message` under `secret_key`.
pub uninterp spec fn ed25519_signature(secret_key: Seq<u8>, message: Seq<u8>) -> Seq<u8>;

/// The Ed25519 public key that belongs to `secret_key`.
pub uninterp spec fn ed25519_public_key(secret_key: Seq<u8>) -> Seq<u8>;

/// The BLAKE3 digest of `input`.
pub uninterp spec fn blake3_digest(input: Seq<u8>) -> Seq<u8>;

/// The bytes that `bincode::serialize` yields for a vouch document: the
/// vouchee's identifier and public key, the vouchee's description (identifier,
/// name, slug, system, version, node name, public key and time last seen), the
/// time of signing, and the session. `None` where a time lies outside the range
/// of `chrono` or the document cannot be serialised.
pub uninterp spec fn bincode_vouch_document(
    vouchee_device_id: u128,
    vouchee_public_key: Seq<u8>,
    device_id: u128,
    device_name: Seq<char>,
    device_slug: Seq<char>,
    os_version: Seq<char>,
    app_version: Seq<char>,
    node_id: Seq<char>,
    public_key: Seq<u8>,
    last_seen_secs: i64,
    last_seen_nanos: u32,
    timestamp_secs: i64,
    timestamp_nanos: u32,
    session_id: u128,
) -> Option<Seq<u8>>;

/// The lower-case hexadecimal digit for a value below 16.
pub open spec fn hex_digit(n: int) -> char {
    "0123456789abcdef"@[n]
}

/// Two lower-case hexadecimal digits for each byte, the high half first.
pub open spec fn hex_chars(bytes: Seq<u8>) -> Seq<char> {
    Seq::new(
        2 * bytes.len(),
        |i: int|
            if i % 2 == 0 {
                hex_digit(bytes[i / 2] as int / 16)
            } else {
                hex_digit(bytes[i / 2] as int % 16)
            },
    )
}

/// The sixteen bytes of an identifier, most significant first.
pub open spec fn id_bytes(id: u128) -> Seq<u8> {
    Seq::new(16, |i: int| ((id >> ((8 * (15 - i)) as u128)) & 0xff) as u8)
}

/// An identifier in its hyphenated form: 32 lower-case hexadecimal digits in
/// groups of 8, 4, 4, 4 and 12.
pub open spec fn hyphenated(id: u128) -> Seq<char> {
    let h = hex_chars(id_bytes(id));
    h.subrange(0, 8) + seq!['-'] + h.subrange(8, 12) + seq!['-'] + h.subrange(12, 16) + seq!['-']
        + h.subrange(16, 20) + seq!['-'] + h.subrange(20, 32)
}

/// Calls `hkdf::Hkdf::<Sha256>::new` without a salt and `expand` for 32 bytes.
/// Trusted: the result is the named HKDF output and has 32 bytes. `expand`
/// fails only for more than 8160 bytes, so it succeeds here.
#[verifier::external_body]
pub(crate) fn hkdf_expand_32(ikm: &[u8], info: &[u8]) -> (okm: Vec<u8>)
    ensures
        okm@ == hkdf_sha256_32(ikm@, info@),
        okm@.len() == DERIVED_KEY_LENGTH,
{
    let hk = hkdf::Hkdf::<sha2::Sha256>::new(None, ikm);
    let mut okm = [0u8; 32];
    match hk.expand(info, &mut okm) {
        Ok(()) => okm.to_vec(),
        Err(_) => Vec::new(),
    }
}

/// Calls `ed25519_dalek::VerifyingKey::from_bytes`. Trusted: the result says
/// whether the 32 bytes decode to a public key.
#[verifier::external_body]
pub(crate) fn ed25519_key_is_valid(public_key: &[u8]) -> (r: bool)
    requires
        public_key@.len() == PUBLIC_KEY_LENGTH,
    ensures
        r == ed25519_key_decodes(public_key@),
{
    match <[u8; 32]>::try_from(public_key) {
        Ok(bytes) => ed25519_dalek::VerifyingKey::from_bytes(&bytes).is_ok(),
        Err(_) => false,
    }
}

/// Calls `ed25519_dalek::Verifier::verify` on a decoded key and signature.
/// Trusted: the result says whether the signature verifies.
#[verifier::external_body]
pub(crate) fn ed25519_verify(public_key: &[u8], message: &[u8], signature: &[u8]) -> (r: bool)
    requires
        public_key@.len() == PUBLIC_KEY_LENGTH,
        signature@.len() == SIGNATURE_LENGTH,
        ed25519_key_decodes(public_key@),
    ensures
        r == ed25519_verifies(public_key@, message@, signature@),
{
    let key = match <[u8; 32]>::try_from(public_key) {
        Ok(bytes) => ed25519_dalek::VerifyingKey::from_bytes(&bytes).ok(),
        Err(_) => None,
    };
    match (key, ed25519_dalek::Signature::from_slice(signature)) {
        (Some(key), Ok(signature)) => key.verify(message, &signature).is_ok(),
        _ => false,
    }
}

/// Calls `ed25519_dalek::Signer::sign` with the key made by
/// `SigningKey::from_bytes`. Trusted: the result is the named signature, has 64
/// bytes, and verifies under the public key of the same secret key.
#[verifier::external_body]
pub(crate) fn ed25519_sign(secret_key: &[u8], message: &[u8]) -> (signature: Vec<u8>)
    requires
        secret_key@.len() == SECRET_KEY_LENGTH,
    ensures
        signature@ == ed25519_signature(secret_key@, message@),
        signature@.len() == SIGNATURE_LENGTH,
        ed25519_verifies(ed25519_public_key(secret_key@), message@, signature@),
{
    match <[u8; 32]>::try_from(secret_key) {
        Ok(bytes) => ed25519_dalek::SigningKey::from_bytes(&bytes).sign(message).to_bytes().to_vec(),
        Err(_) => Vec::new(),
    }
}

/// Calls `ed25519_dalek::SigningKey::verifying_key`. Trusted: the result is the
/// named public key, has 32 bytes and decodes.
#[verifier::external_body]
pub(crate) fn ed25519_public_from_secret(secret_key: &[u8]) -> (public_key: Vec<u8>)
    requires
        secret_key@.len() == SECRET_KEY_LENGTH,
    ensures
        public_key@ == ed25519_public_key(secret_key@),
        public_key@.len() == PUBLIC_KEY_LENGTH,
        ed25519_key_decodes(public_key@),
{
    match <[u8; 32]>::try_from(secret_key) {
        Ok(bytes) => ed25519_dalek::SigningKey::from_bytes(&bytes).verifying_key().to_bytes().to_vec(),
        Err(_) => Vec::new(),
    }
}

/// Calls `bincode::serialize` on a vouch document, laid out as a voucher signs
/// it: identifiers as `uuid::Uuid`, times as `chrono::DateTime<Utc>`, the
/// vouchee's description nested as a document of its own. Trusted: the result
/// is the named encoding of the arguments.
#[verifier::external_body]
pub(crate) fn serialize_vouch_document(
    vouchee_device_id: u128,
    vouchee_public_key: &[u8],
    device_id: u128,
    device_name: &str,
    device_slug: &str,
    os_version: &str,
    app_version: &str,
    node_id: &str,
    public_key: &[u8],
    last_seen_secs: i64,
    last_seen_nanos: u32,
    timestamp_secs: i64,
    timestamp_nanos: u32,
    session_id: u128,
) -> (bytes: Option<Vec<u8>>)
    ensures
        match bytes {
            Some(b) => Some(b@),
            None => None,
        } == bincode_vouch_document(
            vouchee_device_id,
            vouchee_public_key@,
            device_id,
            device_name@,
            device_slug@,
            os_version@,
            app_version@,
            node_id@,
            public_key@,
            last_seen_secs,
            last_seen_nanos,
            timestamp_secs,
            timestamp_nanos,
            session_id,
        ),
{
    let last_seen = chrono::DateTime::from_timestamp(last_seen_secs, last_seen_nanos)?;
    let timestamp = chrono::DateTime::from_timestamp(timestamp_secs, timestamp_nanos)?;
    let fingerprint = (node_id, public_key.to_vec());
    let info =
        (Uuid::from_u128(device_id), device_name, device_slug, os_version, app_version, fingerprint, last_seen);
    let document = (
        Uuid::from_u128(vouchee_device_id),
        vouchee_public_key.to_vec(),
        info,
        timestamp,
        Uuid::from_u128(session_id),
    );
    bincode::serialize(&document).ok()
}

/// Calls `blake3::hash`. Trusted: the result is the named digest and has 32
/// bytes.
#[verifier::external_body]
pub(crate) fn blake3_hash(input: &[u8]) -> (digest: Vec<u8>)
    ensures
        digest@ == blake3_digest(input@),
        digest@.len() == 32,
{
    blake3::hash(input).as_bytes().to_vec()
}

/// Calls `hex::encode`. Trusted: the result holds two lower-case hexadecimal
/// digits for each byte.
#[verifier::external_body]
pub(crate) fn hex_encode(bytes: &[u8]) -> (text: String)
    ensures
        text@ == hex_chars(bytes@),
{
    hex::encode(bytes)
}

/// Formats an identifier with `uuid::Uuid`'s `Display`. Trusted: the result is
/// the hyphenated lower-case form of the identifier's big-endian bytes.
#[verifier::external_body]
pub(crate) fn uuid_text(id: u128) -> (text: String)
    ensures
        text@ == hyphenated(id),
{
    Uuid::from_u128(id).to_string()
}

/// Fills a buffer from `rand::thread_rng`. Trusted: the result has `len` bytes;
/// nothing is said of their values.
#[verifier::external_body]
pub(crate) fn random_bytes(len: usize) -> (bytes: Vec<u8>)
    ensures
        bytes@.len() == len,
{
    let mut bytes = vec![0u8; len];
    rand::thread_rng().fill_bytes(&mut bytes);
    bytes
}

} // verus!
