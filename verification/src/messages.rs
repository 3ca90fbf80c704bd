//! The messages of the pairing protocol, and the events it reports.

use crate::device::DeviceInfo;
use crate::device::DeviceInfoView;
use crate::device::SessionKeys;
use crate::device::SessionKeysView;
use crate::proxy::AcceptedDevice;
use crate::proxy::AcceptedDeviceView;
use crate::proxy::RejectedDevice;
use crate::proxy::RejectedDeviceView;
use crate::proxy::VouchingSession;
use crate::proxy::VouchingSessionView;
use crate::text::opt_text;
use crate::time::Timestamp;
use vstd::prelude::*;

verus! {

/// A message exchanged between two devices during pairing.
#[derive(Debug, PartialEq, Eq)]
pub enum PairingMessage {
    /// Joiner to initiator: "pair with me".
    PairingRequest { session_id: u128, device_info: DeviceInfo, public_key: Vec<u8> },
    /// Initiator to joiner: "prove that you know the code".
    Challenge { session_id: u128, challenge: Vec<u8>, device_info: DeviceInfo },
    /// Joiner to initiator: the answer to the challenge.
    Response { session_id: u128, response: Vec<u8>, device_info: DeviceInfo },
    /// Initiator to joiner: how the pairing ended.
    Complete { session_id: u128, success: bool, reason: Option<String> },
    /// Voucher to target: "trust this new device".
    ProxyPairingRequest {
        session_id: u128,
        vouchee_device_info: DeviceInfo,
        vouchee_public_key: Vec<u8>,
        voucher_device_id: u128,
        voucher_signature: Vec<u8>,
        timestamp: Timestamp,
        proxied_session_keys: SessionKeys,
    },
    /// Target to voucher: "I accept this vouch", or not.
    ProxyPairingResponse {
        session_id: u128,
        accepting_device_id: u128,
        accepted: bool,
        reason: Option<String>,
    },
    /// Voucher to vouchee: "these devices accepted you".
    ProxyPairingComplete {
        session_id: u128,
        voucher_device_id: u128,
        accepted_by: Vec<AcceptedDevice>,
        rejected_by: Vec<RejectedDevice>,
    },
}

/// The mathematical value of a [`PairingMessage`].
pub ghost enum MessageView {
    PairingRequest { session_id: u128, device_info: DeviceInfoView, public_key: Seq<u8> },
    Challenge { session_id: u128, challenge: Seq<u8>, device_info: DeviceInfoView },
    Response { session_id: u128, response: Seq<u8>, device_info: DeviceInfoView },
    Complete { session_id: u128, success: bool, reason: Option<Seq<char>> },
    ProxyPairingRequest {
        session_id: u128,
        vouchee_device_info: DeviceInfoView,
        vouchee_public_key: Seq<u8>,
        voucher_device_id: u128,
        voucher_signature: Seq<u8>,
        timestamp: Timestamp,
        proxied_session_keys: SessionKeysView,
    },
    ProxyPairingResponse {
        session_id: u128,
        accepting_device_id: u128,
        accepted: bool,
        reason: Option<Seq<char>>,
    },
    ProxyPairingComplete {
        session_id: u128,
        voucher_device_id: u128,
        accepted_by: Seq<AcceptedDeviceView>,
        rejected_by: Seq<RejectedDeviceView>,
    },
}

impl MessageView {
    /// The session that the message belongs to.
    pub open spec fn session_id(self) -> u128 {
        match self {
            MessageView::PairingRequest { session_id, .. } => session_id,
            MessageView::Challenge { session_id, .. } => session_id,
            MessageView::Response { session_id, .. } => session_id,
            MessageView::Complete { session_id, .. } => session_id,
            MessageView::ProxyPairingRequest { session_id, .. } => session_id,
            MessageView::ProxyPairingResponse { session_id, .. } => session_id,
            MessageView::ProxyPairingComplete { session_id, .. } => session_id,
        }
    }

    /// Whether the message belongs to the proxy extension rather than to a
    /// direct pairing.
    pub open spec fn is_proxy(self) -> bool {
        self is ProxyPairingRequest || self is ProxyPairingResponse || self is ProxyPairingComplete
    }
}

impl View for PairingMessage {
    type V = MessageView;

    open spec fn view(&self) -> MessageView {
        match self {
            PairingMessage::PairingRequest { session_id, device_info, public_key } => {
                MessageView::PairingRequest {
                    session_id: *session_id,
                    device_info: device_info@,
                    public_key: public_key@,
                }
            },
            PairingMessage::Challenge { session_id, challenge, device_info } => {
                MessageView::Challenge {
                    session_id: *session_id,
                    challenge: challenge@,
                    device_info: device_info@,
                }
            },
            PairingMessage::Response { session_id, response, device_info } => {
                MessageView::Response {
                    session_id: *session_id,
                    response: response@,
                    device_info: device_info@,
                }
            },
            PairingMessage::Complete { session_id, success, reason } => MessageView::Complete {
                session_id: *session_id,
                success: *success,
                reason: opt_text(*reason),
            },
            PairingMessage::ProxyPairingRequest {
                session_id,
                vouchee_device_info,
                vouchee_public_key,
                voucher_device_id,
                voucher_signature,
                timestamp,
                proxied_session_keys,
            } => MessageView::ProxyPairingRequest {
                session_id: *session_id,
                vouchee_device_info: vouchee_device_info@,
                vouchee_public_key: vouchee_public_key@,
                voucher_device_id: *voucher_device_id,
                voucher_signature: voucher_signature@,
                timestamp: *timestamp,
                proxied_session_keys: proxied_session_keys@,
            },
            PairingMessage::ProxyPairingResponse {
                session_id,
                accepting_device_id,
                accepted,
                reason,
            } => MessageView::ProxyPairingResponse {
                session_id: *session_id,
                accepting_device_id: *accepting_device_id,
                accepted: *accepted,
                reason: opt_text(*reason),
            },
            PairingMessage::ProxyPairingComplete {
                session_id,
                voucher_device_id,
                accepted_by,
                rejected_by,
            } => MessageView::ProxyPairingComplete {
                session_id: *session_id,
                voucher_device_id: *voucher_device_id,
                accepted_by: accepted_by@.map_values(|d: AcceptedDevice| d@),
                rejected_by: rejected_by@.map_values(|d: RejectedDevice| d@),
            },
        }
    }
}

impl PairingMessage {
    /// The session that the message belongs to.
    pub fn session_id(&self) -> (id: u128)
        ensures
            id == self@.session_id(),
    {
        match self {
            PairingMessage::PairingRequest { session_id, .. } => *session_id,
            PairingMessage::Challenge { session_id, .. } => *session_id,
            PairingMessage::Response { session_id, .. } => *session_id,
            PairingMessage::Complete { session_id, .. } => *session_id,
            PairingMessage::ProxyPairingRequest { session_id, .. } => *session_id,
            PairingMessage::ProxyPairingResponse { session_id, .. } => *session_id,
            PairingMessage::ProxyPairingComplete { session_id, .. } => *session_id,
        }
    }

    /// Whether the message belongs to the proxy extension rather than to a
    /// direct pairing.
    pub fn is_proxy(&self) -> (r: bool)
        ensures
            r == self@.is_proxy(),
    {
        match self {
            PairingMessage::ProxyPairingRequest { .. } => true,
            PairingMessage::ProxyPairingResponse { .. } => true,
            PairingMessage::ProxyPairingComplete { .. } => true,
            _ => false,
        }
    }

    /// Whether the message is one that the initiator of a direct pairing
    /// answers: a pairing request, or the answer to a challenge.
    pub fn is_for_initiator(&self) -> (r: bool)
        ensures
            r == (self@ is PairingRequest || self@ is Response),
    {
        match self {
            PairingMessage::PairingRequest { .. } => true,
            PairingMessage::Response { .. } => true,
            _ => false,
        }
    }

    /// Whether the message is one that the joiner of a direct pairing acts on:
    /// a challenge, or the initiator's verdict.
    pub fn is_for_joiner(&self) -> (r: bool)
        ensures
            r == (self@ is Challenge || self@ is Complete),
    {
        match self {
            PairingMessage::Challenge { .. } => true,
            PairingMessage::Complete { .. } => true,
            _ => false,
        }
    }

    /// Whether the message ends a direct pairing, and with it the stream that
    /// carried it.
    pub fn is_completion(&self) -> (r: bool)
        ensures
            r == (self@ is Complete),
    {
        match self {
            PairingMessage::Complete { .. } => true,
            _ => false,
        }
    }

    /// The name of the message's kind.
    pub fn kind(&self) -> (name: &'static str)
        ensures
            name@ == match self@ {
                MessageView::PairingRequest { .. } => "PairingRequest"@,
                MessageView::Challenge { .. } => "Challenge"@,
                MessageView::Response { .. } => "Response"@,
                MessageView::Complete { .. } => "Complete"@,
                MessageView::ProxyPairingRequest { .. } => "ProxyPairingRequest"@,
                MessageView::ProxyPairingResponse { .. } => "ProxyPairingResponse"@,
                MessageView::ProxyPairingComplete { .. } => "ProxyPairingComplete"@,
            },
    {
        match self {
            PairingMessage::PairingRequest { .. } => "PairingRequest",
            PairingMessage::Challenge { .. } => "Challenge",
            PairingMessage::Response { .. } => "Response",
            PairingMessage::Complete { .. } => "Complete",
            PairingMessage::ProxyPairingRequest { .. } => "ProxyPairingRequest",
            PairingMessage::ProxyPairingResponse { .. } => "ProxyPairingResponse",
            PairingMessage::ProxyPairingComplete { .. } => "ProxyPairingComplete",
        }
    }
}

/// What is to be sent to a node: either a message of the protocol, or bytes
/// that were encoded before they were handed to the handler.
#[derive(Debug, PartialEq, Eq)]
pub enum Outbound {
    Message { node_id: Vec<u8>, message: PairingMessage },
    Raw { node_id: Vec<u8>, data: Vec<u8> },
}

/// The mathematical value of an [`Outbound`].
pub ghost enum OutboundView {
    Message { node_id: Seq<u8>, message: MessageView },
    Raw { node_id: Seq<u8>, data: Seq<u8> },
}

impl View for Outbound {
    type V = OutboundView;

    open spec fn view(&self) -> OutboundView {
        match self {
            Outbound::Message { node_id, message } => OutboundView::Message {
                node_id: node_id@,
                message: message@,
            },
            Outbound::Raw { node_id, data } => OutboundView::Raw { node_id: node_id@, data: data@ },
        }
    }
}

/// What the pairing subsystem reports to the rest of the application.
#[derive(Debug, PartialEq, Eq)]
pub enum PairingEvent {
    /// A vouching session changed; the session is given as it is now.
    VouchingSessionChanged { session: VouchingSession },
    /// A vouching session was dropped after its retention time.
    VouchingSessionDeleted { session_id: u128 },
    /// A direct pairing completed, and the new device can be vouched for.
    ProxyPairingVouchingReady { session_id: u128, vouchee_device_id: u128 },
    /// A vouch arrived that the user has to decide on.
    ProxyPairingConfirmationRequired {
        session_id: u128,
        vouchee_device_name: String,
        vouchee_device_os: String,
        voucher_device_name: String,
        voucher_device_id: u128,
        expires_at: Timestamp,
    },
}

/// The mathematical value of a [`PairingEvent`].
pub ghost enum EventView {
    VouchingSessionChanged { session: VouchingSessionView },
    VouchingSessionDeleted { session_id: u128 },
    ProxyPairingVouchingReady { session_id: u128, vouchee_device_id: u128 },
    ProxyPairingConfirmationRequired {
        session_id: u128,
        vouchee_device_name: Seq<char>,
        vouchee_device_os: Seq<char>,
        voucher_device_name: Seq<char>,
        voucher_device_id: u128,
        expires_at: Timestamp,
    },
}

impl View for PairingEvent {
    type V = EventView;

    open spec fn view(&self) -> EventView {
        match self {
            PairingEvent::VouchingSessionChanged { session } => EventView::VouchingSessionChanged {
                session: session@,
            },
            PairingEvent::VouchingSessionDeleted { session_id } => {
                EventView::VouchingSessionDeleted { session_id: *session_id }
            },
            PairingEvent::ProxyPairingVouchingReady { session_id, vouchee_device_id } => {
                EventView::ProxyPairingVouchingReady {
                    session_id: *session_id,
                    vouchee_device_id: *vouchee_device_id,
                }
            },
            PairingEvent::ProxyPairingConfirmationRequired {
                session_id,
                vouchee_device_name,
                vouchee_device_os,
                voucher_device_name,
                voucher_device_id,
                expires_at,
            } => EventView::ProxyPairingConfirmationRequired {
                session_id: *session_id,
                vouchee_device_name: vouchee_device_name@,
                vouchee_device_os: vouchee_device_os@,
                voucher_device_name: voucher_device_name@,
                voucher_device_id: *voucher_device_id,
                expires_at: *expires_at,
            },
        }
    }
}

} // verus!
