//! How a target judges a vouch that reaches it.

use crate::config::ProxyPairingConfig;
use crate::crypto::PUBLIC_KEY_LENGTH;
use crate::device::DeviceInfo;
use crate::device::DeviceInfoView;
use crate::device::DeviceRegistry;
use crate::device::PairingType;
use crate::device::RegistryView;
use crate::device::SessionKeys;
use crate::device::SessionKeysView;
use crate::device::TrustLevel;
use crate::error::ErrorView;
use crate::error::NetworkingError;
use crate::keys::build_vouch_payload;
use crate::keys::signature_check;
use crate::proxy::VouchPayloadView;
use crate::keys::spec_vouch_is_fresh;
use crate::keys::verify_vouch_signature;
use crate::keys::vouch_is_fresh;
use crate::text::bytes_equal;
use crate::time::Timestamp;
use vstd::prelude::*;
use vstd::string::*;

verus! {

/// What a target makes of a vouch.
#[derive(Debug)]
pub enum VouchVerdict {
    /// The vouch is refused, and the voucher is told why.
    Reject { reason: String },
    /// The vouch cannot even be judged; the stream that brought it is closed.
    Fail { error: NetworkingError },
    /// The vouch is accepted without asking the user.
    Accept,
    /// The vouch is in order; the user has to decide.
    AskUser,
}

/// The mathematical value of a [`VouchVerdict`].
pub ghost enum VerdictView {
    Reject { reason: Seq<char> },
    Fail { error: ErrorView },
    Accept,
    AskUser,
}

impl View for VouchVerdict {
    type V = VerdictView;

    open spec fn view(&self) -> VerdictView {
        match self {
            VouchVerdict::Reject { reason } => VerdictView::Reject { reason: reason@ },
            VouchVerdict::Fail { error } => VerdictView::Fail { error: error@ },
            VouchVerdict::Accept => VerdictView::Accept,
            VouchVerdict::AskUser => VerdictView::AskUser,
        }
    }
}

/// A vouch as it reaches a target.
pub ghost struct IncomingVouch {
    pub session_id: u128,
    pub vouchee: DeviceInfoView,
    pub vouchee_public_key: Seq<u8>,
    pub voucher_device_id: u128,
    pub voucher_signature: Seq<u8>,
    pub timestamp: Timestamp,
    pub proxied_session_keys: SessionKeysView,
    /// The node that sent the vouch, as the transport authenticated it.
    pub remote_node_id: Seq<u8>,
}

impl IncomingVouch {
    /// The document that the voucher has signed, as the vouch states it.
    pub open spec fn payload(self) -> VouchPayloadView {
        VouchPayloadView {
            vouchee_device_id: self.vouchee.device_id,
            vouchee_public_key: self.vouchee_public_key,
            vouchee_device_info: self.vouchee,
            timestamp: self.timestamp,
            session_id: self.session_id,
        }
    }
}

/// Whether the registry knows the voucher as another node than the sender.
pub open spec fn sender_is_not_voucher(registry: RegistryView, vouch: IncomingVouch) -> bool {
    registry.node_of(vouch.voucher_device_id) matches Some(node) && node != vouch.remote_node_id
}

/// The long-term public key under which the registry knows a paired voucher: a
/// vouch is checked against this key, whoever sent it.
pub open spec fn voucher_key(registry: RegistryView, voucher: u128) -> Seq<u8> {
    registry.device(voucher).info.public_key
}

/// Whether the voucher is paired directly and trusted.
pub open spec fn voucher_is_trusted(registry: RegistryView, voucher: u128) -> bool {
    registry.is_paired(voucher) && registry.device(voucher).trust_level == TrustLevel::Trusted
        && registry.device(voucher).pairing_type == PairingType::Direct
}

/// Whether a vouch passes every check of a target: the sender is not known to
/// be another node than the voucher, the voucher is paired directly and
/// trusted, the vouchee's key has its length, the signature verifies under the
/// voucher's registered public key, the vouch is fresh, the vouchee is not
/// paired yet, and the two session keys differ.
pub open spec fn vouch_validates(
    config: ProxyPairingConfig,
    registry: RegistryView,
    vouch: IncomingVouch,
    now: Timestamp,
) -> bool {
    &&& !sender_is_not_voucher(registry, vouch)
    &&& voucher_is_trusted(registry, vouch.voucher_device_id)
    &&& vouch.vouchee_public_key.len() == PUBLIC_KEY_LENGTH
    &&& signature_check(
        vouch.payload(),
        vouch.voucher_signature,
        voucher_key(registry, vouch.voucher_device_id),
    ) == Ok::<bool, ErrorView>(true)
    &&& spec_vouch_is_fresh(vouch.timestamp, now, config.vouch_signature_max_age)
    &&& !registry.is_paired(vouch.vouchee.device_id)
    &&& vouch.proxied_session_keys.send_key != vouch.proxied_session_keys.receive_key
}

/// What a target makes of a vouch. The checks are made in a fixed order, and
/// the first that fails decides. The signature is checked under the public key
/// that the registry holds for the voucher, not under the sender's.
pub open spec fn vouch_verdict(
    config: ProxyPairingConfig,
    registry: RegistryView,
    vouch: IncomingVouch,
    now: Timestamp,
) -> VerdictView {
    if sender_is_not_voucher(registry, vouch) {
        VerdictView::Reject { reason: "Voucher node mismatch"@ }
    } else if !registry.is_paired(vouch.voucher_device_id) {
        VerdictView::Reject { reason: "Voucher not paired"@ }
    } else if vouch.vouchee_public_key.len() != PUBLIC_KEY_LENGTH {
        VerdictView::Fail { error: ErrorView::Protocol("Invalid public key length"@) }
    } else {
        match signature_check(
            vouch.payload(),
            vouch.voucher_signature,
            voucher_key(registry, vouch.voucher_device_id),
        ) {
            Err(error) => VerdictView::Fail { error },
            Ok(valid) => {
                if !valid {
                    VerdictView::Reject { reason: "Invalid voucher signature"@ }
                } else if !spec_vouch_is_fresh(
                    vouch.timestamp,
                    now,
                    config.vouch_signature_max_age,
                ) {
                    VerdictView::Reject { reason: "Vouch signature expired"@ }
                } else if registry.is_paired(vouch.vouchee.device_id) {
                    VerdictView::Reject { reason: "Device already paired"@ }
                } else if !voucher_is_trusted(registry, vouch.voucher_device_id) {
                    VerdictView::Reject { reason: "Voucher not trusted for proxy pairing"@ }
                } else if vouch.proxied_session_keys.send_key
                    == vouch.proxied_session_keys.receive_key {
                    VerdictView::Reject { reason: "Invalid session keys"@ }
                } else if config.auto_accept_vouched {
                    VerdictView::Accept
                } else {
                    VerdictView::AskUser
                }
            },
        }
    }
}

/// A vouch is accepted, or put before the user, exactly when it passes every
/// check; which of the two depends on the configuration alone.
pub proof fn law_verdict_follows_validation(
    config: ProxyPairingConfig,
    registry: RegistryView,
    vouch: IncomingVouch,
    now: Timestamp,
)
    ensures
        vouch_validates(config, registry, vouch, now) <==> (vouch_verdict(
            config,
            registry,
            vouch,
            now,
        ) is Accept || vouch_verdict(config, registry, vouch, now) is AskUser),
        vouch_verdict(config, registry, vouch, now) is Accept ==> config.auto_accept_vouched,
        vouch_verdict(config, registry, vouch, now) is AskUser ==> !config.auto_accept_vouched,
{
}

/// A vouch whose signature does not verify under the voucher's registered
/// public key is never accepted and never put before the user, whatever key the
/// sender holds. Where every check before the signature passes, the vouch is
/// rejected as having an invalid voucher signature.
pub proof fn law_signature_must_verify_under_vouchers_key(
    config: ProxyPairingConfig,
    registry: RegistryView,
    vouch: IncomingVouch,
    now: Timestamp,
)
    requires
        signature_check(
            vouch.payload(),
            vouch.voucher_signature,
            voucher_key(registry, vouch.voucher_device_id),
        ) == Ok::<bool, ErrorView>(false),
    ensures
        !(vouch_verdict(config, registry, vouch, now) is Accept),
        !(vouch_verdict(config, registry, vouch, now) is AskUser),
        (!sender_is_not_voucher(registry, vouch) && registry.is_paired(vouch.voucher_device_id)
            && vouch.vouchee_public_key.len() == PUBLIC_KEY_LENGTH) ==> vouch_verdict(
            config,
            registry,
            vouch,
            now,
        ) == (VerdictView::Reject { reason: "Invalid voucher signature"@ }),
{
}

/// Judges a vouch that reached this device.
pub fn evaluate_vouch(
    config: &ProxyPairingConfig,
    registry: &DeviceRegistry,
    session_id: u128,
    vouchee_device_info: &DeviceInfo,
    vouchee_public_key: &[u8],
    voucher_device_id: u128,
    voucher_signature: &[u8],
    timestamp: &Timestamp,
    proxied_session_keys: &SessionKeys,
    remote_node_id: &[u8],
    now: &Timestamp,
) -> (verdict: VouchVerdict)
    requires
        registry.wf(),
        timestamp.wf(),
        now.wf(),
    ensures
        verdict@ == vouch_verdict(
            *config,
            registry@,
            IncomingVouch {
                session_id,
                vouchee: vouchee_device_info@,
                vouchee_public_key: vouchee_public_key@,
                voucher_device_id,
                voucher_signature: voucher_signature@,
                timestamp: *timestamp,
                proxied_session_keys: proxied_session_keys@,
                remote_node_id: remote_node_id@,
            },
            *now,
        ),
{
    let voucher = registry.get_paired_device(voucher_device_id);
    match registry.get_node_id_for_device(voucher_device_id) {
        Some(node) => {
            if !bytes_equal(node.as_slice(), remote_node_id) {
                return VouchVerdict::Reject { reason: "Voucher node mismatch".to_string() };
            }
        },
        None => {},
    }
    let voucher = match voucher {
        Some(v) => v,
        None => {
            return VouchVerdict::Reject { reason: "Voucher not paired".to_string() };
        },
    };
    if vouchee_public_key.len() != PUBLIC_KEY_LENGTH {
        return VouchVerdict::Fail { error: NetworkingError::protocol("Invalid public key length") };
    }
    let payload = build_vouch_payload(session_id, vouchee_device_info, vouchee_public_key, *timestamp);
    match verify_vouch_signature(
        &payload,
        voucher_signature,
        voucher.info.network_fingerprint.public_key.as_slice(),
    ) {
        Err(error) => {
            return VouchVerdict::Fail { error };
        },
        Ok(valid) => {
            if !valid {
                return VouchVerdict::Reject { reason: "Invalid voucher signature".to_string() };
            }
        },
    }
    if !vouch_is_fresh(timestamp, now, config.vouch_signature_max_age) {
        return VouchVerdict::Reject { reason: "Vouch signature expired".to_string() };
    }
    if registry.position(vouchee_device_info.device_id).is_some() {
        return VouchVerdict::Reject { reason: "Device already paired".to_string() };
    }
    if voucher.trust_level != TrustLevel::Trusted || voucher.pairing_type != PairingType::Direct {
        return VouchVerdict::Reject {
            reason: "Voucher not trusted for proxy pairing".to_string(),
        };
    }
    if bytes_equal(
        proxied_session_keys.send_key.as_slice(),
        proxied_session_keys.receive_key.as_slice(),
    ) {
        return VouchVerdict::Reject { reason: "Invalid session keys".to_string() };
    }
    if config.auto_accept_vouched {
        VouchVerdict::Accept
    } else {
        VouchVerdict::AskUser
    }
}

} // verus!
