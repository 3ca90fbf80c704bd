//! Direct pairing sessions, their codes and their states.

use crate::crypto::blake3_digest;
use crate::crypto::blake3_hash;
use crate::crypto::random_bytes;
use crate::device::DeviceInfo;
use crate::error::ErrorView;
use crate::error::NetworkingError;
use crate::device::DeviceInfoView;
use crate::text::be_value;
use crate::text::copy_bytes;
use crate::text::copy_opt_bytes;
use crate::text::leading_u128;
use crate::text::lemma_sixteen_bytes_fit;
use crate::text::opt_bytes;
use crate::time::Timestamp;
use vstd::prelude::*;
use vstd::string::*;

verus! {

/// Seconds after which a pairing session is dropped, whatever its state.
pub const SESSION_TIMEOUT_SECONDS: u64 = 600;

/// Seconds after which a session that still scans for its peer has failed.
pub const SCANNING_TIMEOUT_SECONDS: u64 = 300;

/// Seconds for which a fresh pairing code can be used.
pub const PAIRING_CODE_LIFETIME_SECONDS: u64 = 300;

/// The side that a device takes in a direct pairing.
#[derive(Clone, Copy, Debug, PartialEq, Eq, Structural)]
pub enum PairingRole {
    Initiator,
    Joiner,
}

/// Where a direct pairing stands.
#[derive(Debug, PartialEq, Eq)]
pub enum PairingState {
    /// Initiator: the code is out, no peer has connected yet.
    WaitingForConnection,
    /// Initiator: a challenge was sent to the peer.
    ChallengeSent,
    /// Initiator: the peer's answer is awaited.
    AwaitingResponse,
    /// Joiner: the initiator is being looked for.
    Scanning,
    /// Joiner: an answer is ready and has to be sent to the given node.
    ResponsePending { response_data: Vec<u8>, remote_node_id: Option<Vec<u8>> },
    /// Joiner: the answer was sent.
    ResponseSent,
    /// The pairing succeeded.
    Completed,
    /// The pairing failed, for the given reason.
    Failed { reason: String },
}

/// The mathematical value of a [`PairingState`].
pub ghost enum PairingStateView {
    WaitingForConnection,
    ChallengeSent,
    AwaitingResponse,
    Scanning,
    ResponsePending { response_data: Seq<u8>, remote_node_id: Option<Seq<u8>> },
    ResponseSent,
    Completed,
    Failed { reason: Seq<char> },
}

impl PairingStateView {
    /// How far a pairing has come: the steps of either side count from zero
    /// to the completed pairing, and a failed pairing stands beyond them all.
    pub open spec fn rank(self) -> nat {
        match self {
            PairingStateView::WaitingForConnection => 0,
            PairingStateView::Scanning => 0,
            PairingStateView::ChallengeSent => 1,
            PairingStateView::ResponsePending { .. } => 1,
            PairingStateView::AwaitingResponse => 2,
            PairingStateView::ResponseSent => 2,
            PairingStateView::Completed => 3,
            PairingStateView::Failed { .. } => 4,
        }
    }
}

impl View for PairingState {
    type V = PairingStateView;

    open spec fn view(&self) -> PairingStateView {
        match self {
            PairingState::WaitingForConnection => PairingStateView::WaitingForConnection,
            PairingState::ChallengeSent => PairingStateView::ChallengeSent,
            PairingState::AwaitingResponse => PairingStateView::AwaitingResponse,
            PairingState::Scanning => PairingStateView::Scanning,
            PairingState::ResponsePending { response_data, remote_node_id } => {
                PairingStateView::ResponsePending {
                    response_data: response_data@,
                    remote_node_id: opt_bytes(*remote_node_id),
                }
            },
            PairingState::ResponseSent => PairingStateView::ResponseSent,
            PairingState::Completed => PairingStateView::Completed,
            PairingState::Failed { reason } => PairingStateView::Failed { reason: reason@ },
        }
    }
}

impl Clone for PairingState {
    fn clone(&self) -> (r: Self)
        ensures
            r@ == self@,
    {
        match self {
            PairingState::WaitingForConnection => PairingState::WaitingForConnection,
            PairingState::ChallengeSent => PairingState::ChallengeSent,
            PairingState::AwaitingResponse => PairingState::AwaitingResponse,
            PairingState::Scanning => PairingState::Scanning,
            PairingState::ResponsePending { response_data, remote_node_id } => {
                PairingState::ResponsePending {
                    response_data: response_data.clone(),
                    remote_node_id: copy_opt_bytes(remote_node_id),
                }
            },
            PairingState::ResponseSent => PairingState::ResponseSent,
            PairingState::Completed => PairingState::Completed,
            PairingState::Failed { reason } => PairingState::Failed { reason: reason.clone() },
        }
    }
}

impl PairingState {
    /// Whether the pairing succeeded.
    pub fn is_completed(&self) -> (r: bool)
        ensures
            r == (self@ is Completed),
    {
        match self {
            PairingState::Completed => true,
            _ => false,
        }
    }

    /// Whether the pairing failed.
    pub fn is_failed(&self) -> (r: bool)
        ensures
            r == (self@ is Failed),
    {
        match self {
            PairingState::Failed { .. } => true,
            _ => false,
        }
    }
}

/// One attempt at a direct pairing.
#[derive(Debug, PartialEq, Eq)]
pub struct PairingSession {
    pub id: u128,
    pub state: PairingState,
    pub remote_device_id: Option<u128>,
    pub remote_device_info: Option<DeviceInfo>,
    pub remote_public_key: Option<Vec<u8>>,
    /// The secret that both sides derived from the pairing code, once known.
    pub shared_secret: Option<Vec<u8>>,
    pub created_at: Timestamp,
}

/// What an optional device description holds.
pub open spec fn opt_info(o: Option<DeviceInfo>) -> Option<DeviceInfoView> {
    match o {
        Some(d) => Some(d@),
        None => None,
    }
}

/// The mathematical value of a [`PairingSession`].
pub ghost struct PairingSessionView {
    pub id: u128,
    pub state: PairingStateView,
    pub remote_device_id: Option<u128>,
    pub remote_device_info: Option<DeviceInfoView>,
    pub remote_public_key: Option<Seq<u8>>,
    pub shared_secret: Option<Seq<u8>>,
    pub created_at: Timestamp,
}

impl PairingSessionView {
    /// A session that was just created in the given state.
    pub open spec fn fresh(id: u128, state: PairingStateView, now: Timestamp) -> PairingSessionView {
        PairingSessionView {
            id,
            state,
            remote_device_id: None,
            remote_device_info: None,
            remote_public_key: None,
            shared_secret: None,
            created_at: now,
        }
    }

    /// Whether the session is older than the session timeout at the given time.
    pub open spec fn expired_at(self, now: Timestamp) -> bool {
        now.as_nanos() - self.created_at.as_nanos() > SESSION_TIMEOUT_SECONDS * 1_000_000_000
    }

    /// Whether the session has scanned for longer than allowed at the given
    /// time.
    pub open spec fn scanned_too_long_at(self, now: Timestamp) -> bool {
        now.as_nanos() - self.created_at.as_nanos() > SCANNING_TIMEOUT_SECONDS * 1_000_000_000
    }
}

impl View for PairingSession {
    type V = PairingSessionView;

    open spec fn view(&self) -> PairingSessionView {
        PairingSessionView {
            id: self.id,
            state: self.state@,
            remote_device_id: self.remote_device_id,
            remote_device_info: opt_info(self.remote_device_info),
            remote_public_key: opt_bytes(self.remote_public_key),
            shared_secret: opt_bytes(self.shared_secret),
            created_at: self.created_at,
        }
    }
}

impl Clone for PairingSession {
    fn clone(&self) -> (r: Self)
        ensures
            r@ == self@,
    {
        PairingSession {
            id: self.id,
            state: self.state.clone(),
            remote_device_id: self.remote_device_id,
            remote_device_info: match &self.remote_device_info {
                Some(d) => Some(d.clone()),
                None => None,
            },
            remote_public_key: copy_opt_bytes(&self.remote_public_key),
            shared_secret: copy_opt_bytes(&self.shared_secret),
            created_at: self.created_at,
        }
    }
}

impl PairingSession {
    /// A session that was just created in the given state.
    pub fn new(id: u128, state: PairingState, now: Timestamp) -> (s: PairingSession)
        ensures
            s@ == PairingSessionView::fresh(id, state@, now),
    {
        PairingSession {
            id,
            state,
            remote_device_id: None,
            remote_device_info: None,
            remote_public_key: None,
            shared_secret: None,
            created_at: now,
        }
    }
}

/// The short secret that the two sides of a direct pairing share out of band.
#[derive(Debug, PartialEq, Eq)]
pub struct PairingCode {
    pub session_id: u128,
    pub secret: Vec<u8>,
    pub expires_at: Timestamp,
}

/// The mathematical value of a [`PairingCode`].
pub ghost struct PairingCodeView {
    pub session_id: u128,
    pub secret: Seq<u8>,
    pub expires_at: Timestamp,
}

impl PairingCodeView {
    /// Whether the code can no longer be used at the given time.
    pub open spec fn expired_at(self, now: Timestamp) -> bool {
        self.expires_at.as_nanos() <= now.as_nanos()
    }
}

impl View for PairingCode {
    type V = PairingCodeView;

    open spec fn view(&self) -> PairingCodeView {
        PairingCodeView {
            session_id: self.session_id,
            secret: self.secret@,
            expires_at: self.expires_at,
        }
    }
}

impl Clone for PairingCode {
    fn clone(&self) -> (r: Self)
        ensures
            r@ == self@,
    {
        PairingCode {
            session_id: self.session_id,
            secret: self.secret.clone(),
            expires_at: self.expires_at,
        }
    }
}

/// Length in bytes of the secret of a generated pairing code.
pub const PAIRING_SECRET_LENGTH: usize = 16;

/// The prefix under which a code's secret is hashed into a session identifier.
pub open spec fn session_id_domain() -> Seq<u8> {
    "spacedrive-pairing-session".spec_bytes()
}

/// The session that a code with the given secret belongs to: the first sixteen
/// bytes of a BLAKE3 digest of the secret, read as a number.
pub open spec fn session_id_for_secret(secret: Seq<u8>) -> nat {
    be_value(blake3_digest(session_id_domain() + secret).subrange(0, 16))
}

impl PairingCode {
    /// The code with the given secret, good for five minutes from now.
    pub fn from_secret(secret: Vec<u8>, now: Timestamp) -> (code: PairingCode)
        ensures
            code@ == (PairingCodeView {
                session_id: session_id_for_secret(secret@) as u128,
                secret: secret@,
                expires_at: now.spec_plus_seconds(PAIRING_CODE_LIFETIME_SECONDS),
            }),
            session_id_for_secret(secret@) <= u128::MAX,
            now.wf() ==> code.expires_at.wf(),
    {
        let mut input: Vec<u8> = copy_bytes("spacedrive-pairing-session".as_bytes());
        input.extend_from_slice(secret.as_slice());
        assert(input@ =~= session_id_domain() + secret@);
        let digest = blake3_hash(input.as_slice());
        let id = leading_u128(digest.as_slice());
        proof {
            lemma_sixteen_bytes_fit(digest@.subrange(0, 16));
        }
        PairingCode {
            session_id: id,
            secret,
            expires_at: now.plus_seconds(PAIRING_CODE_LIFETIME_SECONDS),
        }
    }

    /// A fresh code with a random secret, good for five minutes from now.
    pub fn generate(now: Timestamp) -> (code: PairingCode)
        ensures
            code.secret@.len() == PAIRING_SECRET_LENGTH,
            code.session_id == session_id_for_secret(code.secret@),
            code.expires_at == now.spec_plus_seconds(PAIRING_CODE_LIFETIME_SECONDS),
            now.wf() ==> code.expires_at.wf(),
    {
        PairingCode::from_secret(random_bytes(PAIRING_SECRET_LENGTH), now)
    }

    /// The session that the code belongs to.
    pub fn session_id(&self) -> (id: u128)
        ensures
            id == self.session_id,
    {
        self.session_id
    }

    /// The secret bytes of the code.
    pub fn secret(&self) -> (secret: &[u8])
        ensures
            secret@ == self.secret@,
    {
        self.secret.as_slice()
    }

    /// Whether the code can no longer be used at the given time.
    pub fn is_expired(&self, now: &Timestamp) -> (r: bool)
        requires
            self.expires_at.wf(),
            now.wf(),
        ensures
            r == self@.expired_at(*now),
    {
        self.expires_at.at_or_before(now)
    }
}

/// How the exchange ended in which a joiner sent its answer to the challenge
/// and waited for the initiator's verdict.
#[derive(Debug)]
pub enum ResponseExchange {
    /// The answer that was to be sent could not be read back as a message.
    Undecodable,
    /// The initiator's verdict arrived.
    Completed,
    /// The initiator answered with another message than its verdict.
    UnexpectedMessage,
    /// The initiator did not answer.
    NoReply,
    /// The answer could not be sent.
    SendFailed { error: NetworkingError },
}

/// The mathematical value of a [`ResponseExchange`].
pub ghost enum ExchangeView {
    Undecodable,
    Completed,
    UnexpectedMessage,
    NoReply,
    SendFailed { error: ErrorView },
}

impl View for ResponseExchange {
    type V = ExchangeView;

    open spec fn view(&self) -> ExchangeView {
        match self {
            ResponseExchange::Undecodable => ExchangeView::Undecodable,
            ResponseExchange::Completed => ExchangeView::Completed,
            ResponseExchange::UnexpectedMessage => ExchangeView::UnexpectedMessage,
            ResponseExchange::NoReply => ExchangeView::NoReply,
            ResponseExchange::SendFailed { error } => ExchangeView::SendFailed { error: error@ },
        }
    }
}

impl ExchangeView {
    /// Why the session has failed after the exchange, if it has.
    pub open spec fn failure(self) -> Option<Seq<char>> {
        match self {
            ExchangeView::Undecodable => Some("Failed to deserialize Response"@),
            ExchangeView::Completed => None,
            ExchangeView::UnexpectedMessage => Some("Unexpected response type"@),
            ExchangeView::NoReply => Some("No Complete message received"@),
            ExchangeView::SendFailed { error } => Some("Send failed: "@ + error.message()),
        }
    }
}

} // verus!
