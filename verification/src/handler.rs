//! The pairing protocol handler.
//!
//! The handler owns the direct pairing sessions, the vouching sessions and
//! the vouch queue of one device, and decides what happens to them when a
//! message arrives, a user acts, or time passes. It performs no I/O: the
//! caller hands it the registry of paired devices and the current time, and
//! takes what is to be sent and reported from the outbox.

use crate::config::ProxyPairingConfig;
use crate::crypto::hex_chars;
use crate::crypto::hex_encode;
use crate::crypto::uuid_text;
use crate::device::DeviceInfo;
use crate::device::DeviceInfoView;
use crate::device::DeviceRegistry;
use crate::device::NetworkFingerprint;
use crate::device::PairingType;
use crate::device::SessionKeys;
use crate::error::ErrorView;
use crate::error::NetworkingError;
use crate::keyed::distinct_ids;
use crate::keys::NetworkIdentity;
use crate::keys::build_vouch_payload;
use crate::keys::sign_vouch_payload;
use crate::vouching_queue::queue_wf;
use crate::keys::derive_proxy_session_keys;
use crate::keys::device_id_for_node;
use crate::keys::spec_device_id_for_node;
use crate::messages::EventView;
use crate::messages::Outbound;
use crate::messages::PairingEvent;
use crate::messages::PairingMessage;
use crate::model::HandlerView;
use crate::types::ResponseExchange;
use crate::model::VouchContext;
use crate::model::accepted_stored_upto;
use crate::model::auto_targets_upto;
use crate::model::error_of;
use crate::model::lemma_drained_upto_stops;
use crate::model::lemma_vouched_upto_stops;
use crate::model::map_queue;
use crate::model::named_targets;
use crate::model::no_code_error;
use crate::model::target_name;
use crate::outbox::Outbox;
use crate::outbox::OutboxView;
use crate::pending::CleanupSchedule;
use crate::pending::PendingConfirmations;
use crate::pending::PendingProxyConfirmation;
use crate::proxy::AcceptedDevice;
use crate::proxy::RejectedDevice;
use crate::proxy::VouchStatus;
use crate::proxy::VouchingSession;
use crate::sessions::PairingSessions;
use crate::sessions::SessionsView;
use crate::sessions::loaded_upto;
use crate::text::copy_bytes;
use crate::text::opt_bytes;
use crate::text::opt_text;
use crate::time::NANOS_PER_SECOND;
use crate::time::SECONDS_PER_WEEK;
use crate::time::Timestamp;
use crate::types::PAIRING_CODE_LIFETIME_SECONDS;
use crate::types::PAIRING_SECRET_LENGTH;
use crate::types::PairingCode;
use crate::types::PairingCodeView;
use crate::types::PairingSession;
use crate::types::PairingState;
use crate::types::session_id_for_secret;
use crate::verdict::IncomingVouch;
use crate::verdict::VouchVerdict;
use crate::verdict::evaluate_vouch;
use crate::vouching::KeyCache;
use crate::vouching::VOUCHING_RETENTION_SECONDS;
use crate::vouching::VouchingSessions;
use crate::vouching::completion_report;
use crate::vouching::has_vouching;
use crate::vouching::lemma_with_vouching;
use crate::vouching::vouching_at;
use crate::vouching::with_vouching;
use crate::vouching_queue::QueueEntryView;
use crate::vouching_queue::VouchQueueStatus;
use crate::vouching_queue::VouchingQueue;
use crate::vouching_queue::VouchingQueueEntry;
use crate::vouching_queue::upserted;
use crate::vouching_queue::with_delivery;
use crate::vouching_queue::without_entry;
use vstd::prelude::*;
use vstd::string::*;

verus! {

/// The pairing state of one device.
#[derive(Debug)]
pub struct PairingProtocolHandler {
    identity: NetworkIdentity,
    pairing: PairingSessions,
    proxy_config: ProxyPairingConfig,
    vouching_sessions: VouchingSessions,
    vouching_keys: KeyCache,
    vouching_queue: Option<VouchingQueue>,
    pending_proxy_confirmations: PendingConfirmations,
    cleanup: CleanupSchedule,
    outbox: Outbox,
    has_endpoint: bool,
}

/// What an optional queue holds.
pub open spec fn opt_queue(q: Option<VouchingQueue>) -> Option<Seq<crate::vouching_queue::QueueEntryView>> {
    match q {
        Some(q) => Some(q@),
        None => None,
    }
}

impl View for PairingProtocolHandler {
    type V = HandlerView;

    closed spec fn view(&self) -> HandlerView {
        HandlerView {
            node_id: self.identity.public(),
            secret_key: self.identity.secret(),
            pairing: self.pairing@,
            config: self.proxy_config,
            vouching: self.vouching_sessions@,
            keys: self.vouching_keys@,
            queue: opt_queue(self.vouching_queue),
            pending: self.pending_proxy_confirmations@,
            cleanup: self.cleanup@,
            outbox: self.outbox@,
            has_endpoint: self.has_endpoint,
        }
    }
}

impl PairingProtocolHandler {
    /// Every part of the state is well-formed.
    pub closed spec fn wf(&self) -> bool {
        self@.wf()
    }

    /// The mathematical state of a well-formed handler is well-formed: no
    /// session, key, queue entry or pending vouch occurs twice, and every
    /// vouching session is completed exactly when all its vouches are final (a
    /// pending session without targets aside).
    pub proof fn law_state_is_well_formed(&self)
        requires
            self.wf(),
        ensures
            self@.wf(),
    {
    }

    /// A handler without sessions, with the default options, an open channel
    /// and no queue.
    pub fn new(identity: NetworkIdentity, has_endpoint: bool) -> (h: PairingProtocolHandler)
        ensures
            h.wf(),
            h@.node_id == identity.public(),
            h@.secret_key == identity.secret(),
            h@.pairing.sessions.len() == 0,
            h@.pairing.codes.len() == 0,
            h@.config == ProxyPairingConfig::spec_default(),
            h@.vouching.len() == 0,
            h@.keys.len() == 0,
            h@.queue is None,
            h@.pending.len() == 0,
            h@.cleanup.len() == 0,
            h@.outbox == (OutboxView { messages: Seq::empty(), events: Seq::empty(), open: true }),
            h@.has_endpoint == has_endpoint,
    {
        PairingProtocolHandler {
            identity,
            pairing: PairingSessions::new(),
            proxy_config: ProxyPairingConfig::default(),
            vouching_sessions: VouchingSessions::new(),
            vouching_keys: KeyCache::new(),
            vouching_queue: None,
            pending_proxy_confirmations: PendingConfirmations::new(),
            cleanup: CleanupSchedule::new(),
            outbox: Outbox::new(),
            has_endpoint,
        }
    }

    /// Sets the options of proxy pairing.
    pub fn set_proxy_config(&mut self, config: ProxyPairingConfig)
        requires
            old(self).wf(),
        ensures
            final(self).wf(),
            final(self)@ == (HandlerView { config, ..old(self)@ }),
    {
        self.proxy_config = config;
    }

    /// The options of proxy pairing.
    pub fn proxy_config(&self) -> (config: ProxyPairingConfig)
        ensures
            config == self@.config,
    {
        self.proxy_config
    }

    /// Attaches a vouch queue, in place of the one that was attached before.
    pub fn init_vouching_queue(&mut self, queue: VouchingQueue)
        requires
            old(self).wf(),
            queue.wf(),
        ensures
            final(self).wf(),
            final(self)@ == (HandlerView { queue: Some(queue@), ..old(self)@ }),
    {
        self.vouching_queue = Some(queue);
    }

    /// The entries of the vouch queue; none where no queue is attached.
    pub fn queue_entries(&self) -> (entries: Vec<crate::vouching_queue::VouchingQueueEntry>)
        ensures
            entries@.map_values(|e: crate::vouching_queue::VouchingQueueEntry| e@) == match self@.queue {
                Some(q) => q,
                None => Seq::empty(),
            },
    {
        match &self.vouching_queue {
            Some(q) => q.list_entries(),
            None => {
                let entries: Vec<crate::vouching_queue::VouchingQueueEntry> = Vec::new();
                assert(entries@.map_values(|e: crate::vouching_queue::VouchingQueueEntry| e@)
                    =~= Seq::empty());
                entries
            },
        }
    }

    /// Records that the channel to the network is gone: from now on every send
    /// fails.
    pub fn close_channel(&mut self)
        requires
            old(self).wf(),
        ensures
            final(self).wf(),
            final(self)@ == (HandlerView {
                outbox: OutboxView { open: false, ..old(self)@.outbox },
                ..old(self)@
            }),
    {
        self.outbox.close();
    }

    /// Takes the messages that wait to be sent.
    pub fn take_outbound(&mut self) -> (messages: Vec<Outbound>)
        requires
            old(self).wf(),
        ensures
            final(self).wf(),
            messages@.map_values(|o: Outbound| o@) == old(self)@.outbox.messages,
            final(self)@ == (HandlerView {
                outbox: OutboxView { messages: Seq::empty(), ..old(self)@.outbox },
                ..old(self)@
            }),
    {
        self.outbox.take_messages()
    }

    /// Takes the events that wait to be reported.
    pub fn take_events(&mut self) -> (events: Vec<PairingEvent>)
        requires
            old(self).wf(),
        ensures
            final(self).wf(),
            events@.map_values(|e: PairingEvent| e@) == old(self)@.outbox.events,
            final(self)@ == (HandlerView {
                outbox: OutboxView { events: Seq::empty(), ..old(self)@.outbox },
                ..old(self)@
            }),
    {
        self.outbox.take_events()
    }

    /// Hands a message for a node to the outbox, without waiting for its
    /// delivery. Fails where the channel to the network is gone.
    pub fn send_pairing_message_fire_and_forget(&mut self, node_id: &[u8], message: PairingMessage) -> (r:
        Result<(), NetworkingError>)
        requires
            old(self).wf(),
        ensures
            final(self).wf(),
            final(self)@ == old(self)@.sent(node_id@, message@),
            error_of(r) == if old(self)@.outbox.open {
                None
            } else {
                Some(ErrorView::ChannelClosed)
            },
    {
        self.outbox.send(copy_bytes(node_id), message)
    }

    /// The node identity of this device.
    pub fn node_id(&self) -> (id: Vec<u8>)
        ensures
            id@ == self@.node_id,
    {
        self.identity.node_id()
    }

    /// What this device says of itself right now: what the registry holds for
    /// it, with the fingerprint of the handler's identity and the current time.
    pub fn get_device_info(&self, registry: &DeviceRegistry, now: Timestamp) -> (r: Result<
        DeviceInfo,
        NetworkingError,
    >)
        ensures
            r matches Ok(info) && info@ == (DeviceInfoView {
                node_id: hex_chars(self@.node_id),
                public_key: self@.node_id,
                last_seen: now,
                ..registry@.local_device
            }),
    {
        let mut info = registry.get_local_device_info();
        let node_id = self.identity.node_id();
        info.network_fingerprint = NetworkFingerprint {
            node_id: hex_encode(node_id.as_slice()),
            public_key: node_id,
        };
        info.last_seen = now;
        Ok(info)
    }

    /// The device that a node stands for: the paired device that was seen as
    /// that node, or an identifier derived from the node's identity.
    pub fn get_device_id_for_node(&self, registry: &DeviceRegistry, node_id: &[u8]) -> (id: u128)
        ensures
            (forall|j: int|
                0 <= j < registry@.devices.len() ==> registry@.devices[j].node_id != Some(node_id@))
                ==> id == spec_device_id_for_node(node_id@),
            (exists|j: int|
                0 <= j < registry@.devices.len() && registry@.devices[j].node_id == Some(node_id@))
                ==> exists|j: int|
                0 <= j < registry@.devices.len() && registry@.devices[j].node_id == Some(node_id@)
                    && registry@.devices[j].info.device_id == id,
    {
        match registry.get_device_by_node(node_id) {
            Some(id) => id,
            None => device_id_for_node(node_id),
        }
    }
}

/// Direct pairing sessions.
impl PairingProtocolHandler {
    /// Starts a pairing session as initiator, under a fresh code. Returns the
    /// session's identifier, which the code determines.
    pub fn start_pairing_session(&mut self, now: Timestamp) -> (r: Result<u128, NetworkingError>)
        requires
            old(self).wf(),
            now.wf(),
        ensures
            final(self).wf(),
            r matches Ok(id) && final(self)@.pairing.codes.len() > 0 && final(self)@
                == old(self)@.pairing_started(id, final(self)@.pairing.codes.last(), now) && ({
                let code = final(self)@.pairing.codes.last();
                &&& code.session_id == id
                &&& id == session_id_for_secret(code.secret)
                &&& code.secret.len() == PAIRING_SECRET_LENGTH
                &&& code.expires_at == now.spec_plus_seconds(PAIRING_CODE_LIFETIME_SECONDS)
            }),
    {
        let code = PairingCode::generate(now);
        let id = code.session_id();
        match self.start_pairing_session_with_id(id, code, now) {
            Ok(()) => Ok(id),
            Err(e) => Err(e),
        }
    }

    /// Starts a pairing session as initiator, with the given identifier and
    /// code. A session with that identifier is replaced. The code is stored as
    /// the code of that session, whatever session it names itself.
    pub fn start_pairing_session_with_id(
        &mut self,
        session_id: u128,
        pairing_code: PairingCode,
        now: Timestamp,
    ) -> (r: Result<(), NetworkingError>)
        requires
            old(self).wf(),
            pairing_code.expires_at.wf(),
            now.wf(),
        ensures
            final(self).wf(),
            r is Ok,
            final(self)@ == old(self)@.pairing_started(session_id, pairing_code@, now),
            final(self)@.pairing.has_session(session_id),
            final(self)@.pairing.has_code(session_id),
            final(self)@.pairing.code(session_id) == (PairingCodeView {
                session_id,
                ..pairing_code@
            }),
            final(self)@.pairing.codes.len() > 0,
            final(self)@.pairing.codes.last() == final(self)@.pairing.code(session_id),
    {
        self.pairing.put_session(
            PairingSession::new(session_id, PairingState::WaitingForConnection, now),
        );
        self.pairing.put_code(
            PairingCode {
                session_id,
                secret: pairing_code.secret,
                expires_at: pairing_code.expires_at,
            },
        );
        Ok(())
    }

    /// Joins a pairing session of another device, with the code that the other
    /// device showed. Fails where the code has expired or the session exists
    /// already. The code is stored as the code of that session, whatever session
    /// it names itself.
    pub fn join_pairing_session(
        &mut self,
        session_id: u128,
        pairing_code: PairingCode,
        now: Timestamp,
    ) -> (r: Result<(), NetworkingError>)
        requires
            old(self).wf(),
            pairing_code.expires_at.wf(),
            now.wf(),
        ensures
            final(self).wf(),
            error_of(r) == old(self)@.join_obstacle(session_id, pairing_code@, now),
            final(self)@ == old(self)@.pairing_joined(session_id, pairing_code@, now),
            r is Ok ==> final(self)@.pairing.has_session(session_id),
            r is Ok ==> final(self)@.pairing.has_code(session_id),
            r is Ok ==> final(self)@.pairing.code(session_id) == (PairingCodeView {
                session_id,
                ..pairing_code@
            }),
    {
        if pairing_code.is_expired(&now) {
            return Err(
                NetworkingError::protocol(
                    "Pairing code has expired. Please request a new code from the initiator.",
                ),
            );
        }
        if self.pairing.get_session(session_id).is_some() {
            return Err(
                NetworkingError::Protocol(
                    "Session ".to_string().concat(uuid_text(session_id).as_str()).concat(
                        " already exists",
                    ),
                ),
            );
        }
        self.pairing.put_session(PairingSession::new(session_id, PairingState::Scanning, now));
        self.pairing.put_code(
            PairingCode {
                session_id,
                secret: pairing_code.secret,
                expires_at: pairing_code.expires_at,
            },
        );
        Ok(())
    }

    /// Cancels a pairing session: the session and its code are dropped.
    pub fn cancel_session(&mut self, session_id: u128) -> (r: Result<(), NetworkingError>)
        requires
            old(self).wf(),
        ensures
            final(self).wf(),
            r is Ok,
            final(self)@ == (HandlerView {
                pairing: old(self)@.pairing.without(session_id),
                ..old(self)@
            }),
    {
        self.pairing.remove(session_id);
        Ok(())
    }

    /// The pairing sessions, in the order in which they were created.
    pub fn get_active_sessions(&self) -> (r: Vec<PairingSession>)
        ensures
            r@.map_values(|s: PairingSession| s@) == self@.pairing.sessions,
    {
        self.pairing.get_active_sessions()
    }

    /// The pairing code that was stored last, if there is any.
    pub fn get_current_pairing_code(&self) -> (r: Option<PairingCode>)
        ensures
            r is Some <==> self@.pairing.codes.len() > 0,
            r matches Some(c) ==> c@ == self@.pairing.codes.last(),
    {
        self.pairing.get_current_pairing_code()
    }

    /// The secret that a pairing session shares with its peer where the
    /// session itself holds none: the secret of the session's code.
    pub fn generate_shared_secret(&self, session_id: u128) -> (r: Result<Vec<u8>, NetworkingError>)
        requires
            self.wf(),
        ensures
            self@.pairing.has_code(session_id) ==> (r matches Ok(secret) && secret@
                == self@.pairing.code(session_id).secret),
            !self@.pairing.has_code(session_id) ==> (r matches Err(e) && e@ == no_code_error(
                session_id,
            )),
    {
        match self.pairing.get_code(session_id) {
            Some(code) => Ok(code.secret),
            None => Err(
                NetworkingError::Protocol(
                    "No pairing code found for session ".to_string().concat(
                        uuid_text(session_id).as_str(),
                    ),
                ),
            ),
        }
    }

    /// Whether a message of a direct pairing for the given session is still
    /// dealt with: a session that has failed takes no further message.
    pub fn takes_direct_message(&self, session_id: u128) -> (r: bool)
        requires
            self.wf(),
        ensures
            r == self@.takes_direct_message(session_id),
    {
        match self.pairing.get_session(session_id) {
            Some(s) => !s.state.is_failed(),
            None => true,
        }
    }

    /// Whether messages for a pairing session are still dealt with: the
    /// handler holds the session, and the session has not failed.
    pub fn session_is_open(&self, session_id: u128) -> (r: bool)
        requires
            self.wf(),
        ensures
            r == (self@.pairing.has_session(session_id) && !(self@.pairing.session(
                session_id,
            ).state is Failed)),
    {
        match self.pairing.get_session(session_id) {
            Some(s) => !s.state.is_failed(),
            None => false,
        }
    }

    /// Drops the pairing sessions that are older than ten minutes, with their
    /// codes, and returns how many sessions were dropped.
    pub fn cleanup_expired_sessions(&mut self, now: Timestamp) -> (r: Result<usize, NetworkingError>)
        requires
            old(self).wf(),
            now.wf(),
        ensures
            final(self).wf(),
            final(self)@ == (HandlerView {
                pairing: old(self)@.pairing.cleaned(now),
                ..old(self)@
            }),
            r matches Ok(n) && n == old(self)@.pairing.sessions.len()
                - final(self)@.pairing.sessions.len(),
    {
        Ok(self.pairing.cleanup_expired_sessions(now))
    }

    /// One round of the driver over the pairing sessions: sends the answers
    /// that wait to be sent, and fails the sessions that cannot go on.
    pub fn process_state_transitions(&mut self, now: Timestamp) -> (r: Result<(), NetworkingError>)
        requires
            old(self).wf(),
            now.wf(),
        ensures
            final(self).wf(),
            r is Ok,
            final(self)@ == old(self)@.pairing_driven(now),
    {
        let open = self.outbox.is_open();
        let sent = self.pairing.process_state_transitions(now, open);
        self.outbox.extend(sent);
        Ok(())
    }

    /// Takes pairing sessions that were saved earlier in place of the current
    /// ones, and returns how many were given. Nothing changes where none is
    /// given.
    pub fn load_persisted_sessions(&mut self, sessions: Vec<PairingSession>) -> (r: Result<
        usize,
        NetworkingError,
    >)
        requires
            old(self).wf(),
            forall|i: int| 0 <= i < sessions.len() ==> (#[trigger] sessions[i]).created_at.wf(),
        ensures
            final(self).wf(),
            r == Ok::<usize, NetworkingError>(sessions.len()),
            final(self)@ == if sessions.len() == 0 {
                old(self)@
            } else {
                HandlerView {
                    pairing: loaded_upto(
                        SessionsView { sessions: Seq::empty(), codes: old(self)@.pairing.codes },
                        sessions@.map_values(|s: PairingSession| s@),
                        sessions.len() as nat,
                    ),
                    ..old(self)@
                }
            },
    {
        let count = sessions.len();
        if count > 0 {
            self.pairing.replace_sessions(sessions);
        }
        Ok(count)
    }

    /// Reacts to what happened to a device: the pairing sessions with a device
    /// that disconnected are dropped.
    pub fn handle_event(&mut self, event: ProtocolEvent) -> (r: Result<(), NetworkingError>)
        requires
            old(self).wf(),
        ensures
            final(self).wf(),
            r is Ok,
            final(self)@ == match event {
                ProtocolEvent::DeviceDisconnected { device_id } => HandlerView {
                    pairing: old(self)@.pairing.without_device(device_id),
                    ..old(self)@
                },
                ProtocolEvent::DeviceConnected { device_id } => old(self)@,
            },
    {
        match event {
            ProtocolEvent::DeviceDisconnected { device_id } => {
                self.pairing.remove_sessions_of_device(device_id);
            },
            ProtocolEvent::DeviceConnected { device_id } => {},
        }
        Ok(())
    }

    /// Records that handling a message of a pairing session failed: the
    /// session has failed, with the error's text as the reason.
    pub fn fail_session(&mut self, session_id: u128, error: &NetworkingError)
        requires
            old(self).wf(),
        ensures
            final(self).wf(),
            final(self)@ == (HandlerView {
                pairing: old(self)@.pairing.failed(session_id, error@.message()),
                ..old(self)@
            }),
    {
        self.pairing.fail(session_id, error.message());
    }

    /// Records that a joiner's answer to a challenge is ready to be sent, and
    /// returns whether it can be: without an endpoint the session fails.
    pub fn begin_response_exchange(&mut self, session_id: u128) -> (can_send: bool)
        requires
            old(self).wf(),
        ensures
            final(self).wf(),
            can_send == old(self)@.has_endpoint,
            final(self)@ == old(self)@.exchange_begun(session_id),
    {
        self.pairing.mark_response_sent(session_id);
        if !self.has_endpoint {
            self.pairing.fail(session_id, "No endpoint available".to_string());
        }
        self.has_endpoint
    }

    /// Records how the exchange of a joiner's answer ended: any outcome but the
    /// initiator's verdict fails the session.
    pub fn finish_response_exchange(&mut self, session_id: u128, outcome: &ResponseExchange)
        requires
            old(self).wf(),
        ensures
            final(self).wf(),
            final(self)@ == old(self)@.exchange_ended(session_id, outcome@),
    {
        match outcome {
            ResponseExchange::Undecodable => {
                self.pairing.fail(session_id, "Failed to deserialize Response".to_string());
            },
            ResponseExchange::Completed => {},
            ResponseExchange::UnexpectedMessage => {
                self.pairing.fail(session_id, "Unexpected response type".to_string());
            },
            ResponseExchange::NoReply => {
                self.pairing.fail(session_id, "No Complete message received".to_string());
            },
            ResponseExchange::SendFailed { error } => {
                self.pairing.fail(
                    session_id,
                    "Send failed: ".to_string().concat(error.message().as_str()),
                );
            },
        }
    }

    /// Records that a direct pairing succeeded with the given peer, and creates
    /// the vouching session for the peer. Returns whether the session is
    /// completed now: a session that the handler does not hold, or that has
    /// failed, stays as it is.
    pub fn complete_pairing_session(
        &mut self,
        registry: &DeviceRegistry,
        session_id: u128,
        peer: DeviceInfo,
        public_key: Vec<u8>,
        shared_secret: Option<Vec<u8>>,
        now: Timestamp,
    ) -> (done: bool)
        requires
            old(self).wf(),
            registry.wf(),
            now.wf(),
        ensures
            final(self).wf(),
            done == (old(self)@.pairing.has_session(session_id) && !(old(self)@.pairing.session(
                session_id,
            ).state is Failed)),
            final(self)@ == old(self)@.pairing_completed(
                registry@,
                session_id,
                peer@,
                public_key@,
                opt_bytes(shared_secret),
                now,
            ),
    {
        let vouchee = peer.clone();
        if !self.pairing.complete(session_id, peer, public_key, shared_secret) {
            return false;
        }
        let _ = self.create_vouching_session(registry, session_id, &vouchee, now);
        true
    }
}

/// Vouching, on the voucher's side.
impl PairingProtocolHandler {
    /// The vouching session with the given identifier, if the handler holds it.
    pub fn get_vouching_session(&self, session_id: u128) -> (r: Option<VouchingSession>)
        requires
            self.wf(),
        ensures
            r is Some <==> has_vouching(self@.vouching, session_id),
            r matches Some(s) ==> s@ == vouching_at(self@.vouching, session_id) && s.wf(),
    {
        self.vouching_sessions.get(session_id)
    }

    /// Creates the vouching session for a device that was just paired
    /// directly, and starts to vouch it to all other paired devices where the
    /// configuration says so.
    pub fn create_vouching_session(
        &mut self,
        registry: &DeviceRegistry,
        session_id: u128,
        vouchee_device_info: &DeviceInfo,
        now: Timestamp,
    ) -> (r: Result<(), NetworkingError>)
        requires
            old(self).wf(),
            registry.wf(),
            now.wf(),
        ensures
            final(self).wf(),
            r is Ok,
            final(self)@ == old(self)@.vouching_created(
                registry@,
                session_id,
                vouchee_device_info@,
                now,
            ),
    {
        let session = VouchingSession::new(
            session_id,
            vouchee_device_info.device_id,
            vouchee_device_info.device_name.clone(),
            registry.local_device.device_id,
            now,
        );
        let snapshot = session.clone();
        proof {
            lemma_with_vouching(self@.vouching, session@);
        }
        self.vouching_sessions.put(session);
        self.outbox.emit(PairingEvent::VouchingSessionChanged { session: snapshot });
        self.outbox.emit(
            PairingEvent::ProxyPairingVouchingReady {
                session_id,
                vouchee_device_id: vouchee_device_info.device_id,
            },
        );
        if self.proxy_config.auto_vouch_to_all {
            let mut targets: Vec<u128> = Vec::new();
            let mut i: usize = 0;
            while i < registry.devices.len()
                invariant
                    i <= registry.devices.len(),
                    targets@ == auto_targets_upto(registry@, vouchee_device_info.device_id, i as nat),
                decreases registry.devices.len() - i,
            {
                let id = registry.devices[i].info.device_id;
                assert(registry@.devices[i as int].info.device_id == id);
                if id != registry.local_device.device_id && id != vouchee_device_info.device_id {
                    targets.push(id);
                }
                i += 1;
            }
            let _ = self.start_proxy_vouching(registry, session_id, targets, now);
        }
        Ok(())
    }

    /// What vouching for the vouchee of a pairing session starts from: the
    /// vouchee's description and key, and the secret to derive keys from.
    fn vouching_inputs(&self, session_id: u128) -> (r: Result<
        (DeviceInfo, Vec<u8>, Vec<u8>),
        NetworkingError,
    >)
        requires
            self.wf(),
        ensures
            match self@.vouching_obstacle(session_id) {
                Some(error) => r matches Err(e) && e@ == error,
                None => r matches Ok(inputs) && ({
                    let s = self@.pairing.session(session_id);
                    &&& inputs.0@ == s.remote_device_info->0
                    &&& inputs.1@ == s.remote_public_key->0
                    &&& inputs.2@ == match s.shared_secret {
                        Some(secret) => secret,
                        None => self@.pairing.code(session_id).secret,
                    }
                }),
            },
    {
        let session = match self.pairing.get_session(session_id) {
            Some(s) => s,
            None => {
                return Err(
                    NetworkingError::Protocol(
                        "Pairing session not found: ".to_string().concat(
                            uuid_text(session_id).as_str(),
                        ),
                    ),
                );
            },
        };
        if !session.state.is_completed() {
            return Err(NetworkingError::protocol("Pairing session is not completed"));
        }
        let vouchee = match session.remote_device_info {
            Some(info) => info,
            None => {
                return Err(NetworkingError::protocol("Missing vouchee device info"));
            },
        };
        let vouchee_public_key = match session.remote_public_key {
            Some(key) => key,
            None => {
                return Err(NetworkingError::protocol("Missing vouchee public key"));
            },
        };
        let base_secret = match session.shared_secret {
            Some(secret) => secret,
            None => match self.pairing.get_code(session_id) {
                Some(code) => code.secret,
                None => {
                    return Err(
                        NetworkingError::Protocol(
                            "No pairing code found for session ".to_string().concat(
                                uuid_text(session_id).as_str(),
                            ),
                        ),
                    );
                },
            },
        };
        Ok((vouchee, vouchee_public_key, base_secret))
    }

    /// Seeds the vouching session of a pairing session with the given targets,
    /// and reports it.
    fn seed_vouching_session(
        &mut self,
        registry: &DeviceRegistry,
        session_id: u128,
        vouchee: &DeviceInfo,
        targets: &Vec<u128>,
        now: Timestamp,
    )
        requires
            old(self).wf(),
            registry.wf(),
            targets@.no_duplicates(),
            old(self)@.vouching_obstacle(session_id) is None,
            vouchee@ == old(self)@.pairing.session(session_id).remote_device_info->0,
        ensures
            final(self).wf(),
            ({
                let seeded = old(self)@.vouching_base(registry@, session_id, now).started(
                    named_targets(registry@, targets@),
                    now,
                );
                final(self)@ == (HandlerView {
                    vouching: with_vouching(old(self)@.vouching, seeded),
                    ..old(self)@
                }).emitted(EventView::VouchingSessionChanged { session: seeded })
            }),
    {
        let mut named: Vec<(u128, String)> = Vec::new();
        let mut i: usize = 0;
        while i < targets.len()
            invariant
                i <= targets.len(),
                registry.wf(),
                named@.len() == i,
                forall|j: int|
                    0 <= j < i ==> named@[j].0 == targets@[j] && named@[j].1@ == target_name(
                        registry@,
                        targets@[j],
                    ),
            decreases targets.len() - i,
        {
            let name = match registry.position(targets[i]) {
                Some(p) => registry.devices[p].info.device_name.clone(),
                None => "Unknown device".to_string(),
            };
            named.push((targets[i], name));
            i += 1;
        }
        assert(named@.map_values(|t: (u128, String)| t.0) =~= targets@);
        assert(named@.map_values(|t: (u128, String)| (t.0, t.1@)) =~= named_targets(
            registry@,
            targets@,
        ));
        let mut session = match self.vouching_sessions.get(session_id) {
            Some(s) => s,
            None => VouchingSession::new(
                session_id,
                vouchee.device_id,
                vouchee.device_name.clone(),
                registry.local_device.device_id,
                now,
            ),
        };
        session.begin(named, now);
        let snapshot = session.clone();
        proof {
            lemma_with_vouching(self@.vouching, session@);
        }
        self.vouching_sessions.put(session);
        self.outbox.emit(PairingEvent::VouchingSessionChanged { session: snapshot });
    }

    /// Vouches the vouchee to the given targets, one after another, and stops
    /// at the first error.
    fn vouch_targets(&mut self, registry: &DeviceRegistry, request: &VouchRequest, targets: &Vec<u128>) -> (r:
        Result<(), NetworkingError>)
        requires
            old(self).wf(),
            registry.wf(),
            request.now.wf(),
        ensures
            final(self).wf(),
            (final(self)@, error_of(r)) == old(self)@.vouched_upto(
                registry@,
                request@,
                targets@,
                targets@.len(),
            ),
    {
        let ghost begun = self@;
        let mut k: usize = 0;
        while k < targets.len()
            invariant
                k <= targets.len(),
                self.wf(),
                registry.wf(),
                request.now.wf(),
                begun == old(self)@,
                (self@, None::<ErrorView>) == begun.vouched_upto(
                    registry@,
                    request@,
                    targets@,
                    k as nat,
                ),
            decreases targets.len() - k,
        {
            match self.vouch_target(registry, request, targets[k]) {
                Ok(()) => {},
                Err(e) => {
                    proof {
                        lemma_vouched_upto_stops(
                            begun,
                            registry@,
                            request@,
                            targets@,
                            (k + 1) as nat,
                            targets@.len(),
                        );
                    }
                    return Err(e);
                },
            }
            k += 1;
        }
        Ok(())
    }

    /// Starts to vouch the vouchee of a completed pairing session to the given
    /// targets. Returns the vouching session as it is after the first round.
    pub fn start_proxy_vouching(
        &mut self,
        registry: &DeviceRegistry,
        session_id: u128,
        target_device_ids: Vec<u128>,
        now: Timestamp,
    ) -> (r: Result<VouchingSession, NetworkingError>)
        requires
            old(self).wf(),
            registry.wf(),
            now.wf(),
        ensures
            final(self).wf(),
            final(self)@ == old(self)@.vouching_started(
                registry@,
                session_id,
                target_device_ids@,
                now,
            ).0,
            match old(self)@.vouching_started(
                registry@,
                session_id,
                target_device_ids@,
                now,
            ).1 {
                Ok(session) => r matches Ok(s) && s@ == session,
                Err(error) => r matches Err(e) && e@ == error,
            },
    {
        let (vouchee, vouchee_public_key, base_secret) = match self.vouching_inputs(session_id) {
            Ok(inputs) => inputs,
            Err(e) => {
                return Err(e);
            },
        };
        let targets = distinct_ids(&target_device_ids);
        self.seed_vouching_session(registry, session_id, &vouchee, &targets, now);
        let done = if targets.len() == 0 {
            self.finalize_vouching_session(registry, session_id, now)
        } else {
            let request = VouchRequest {
                session_id,
                voucher: registry.local_device.device_id,
                vouchee,
                vouchee_public_key,
                base_secret,
                now,
            };
            self.vouch_targets(registry, &request, &targets)
        };
        match done {
            Ok(()) => {},
            Err(e) => {
                return Err(e);
            },
        }
        match self.vouching_sessions.get(session_id) {
            Some(s) => Ok(s),
            None => Err(NetworkingError::protocol("Vouching session missing")),
        }
    }

    /// Vouches the vouchee to one target.
    fn vouch_target(&mut self, registry: &DeviceRegistry, request: &VouchRequest, target: u128) -> (r:
        Result<(), NetworkingError>)
        requires
            old(self).wf(),
            registry.wf(),
            request.now.wf(),
        ensures
            final(self).wf(),
            (final(self)@, error_of(r)) == old(self)@.vouched(registry@, request@, target),
    {
        let session_id = request.session_id;
        let now = request.now;
        if target == request.voucher || target == request.vouchee.device_id {
            return self.update_vouch_status(
                registry,
                session_id,
                target,
                VouchStatus::Rejected,
                Some("Invalid vouch target".to_string()),
                now,
            );
        }
        if registry.position(target).is_none() {
            return self.update_vouch_status(
                registry,
                session_id,
                target,
                VouchStatus::Rejected,
                Some("Target device not paired".to_string()),
                now,
            );
        }
        let payload = build_vouch_payload(
            session_id,
            &request.vouchee,
            request.vouchee_public_key.as_slice(),
            now,
        );
        let signature = match sign_vouch_payload(&self.identity, &payload) {
            Ok(signature) => signature,
            Err(e) => {
                return Err(e);
            },
        };
        let (receiver_keys, vouchee_keys) = match derive_proxy_session_keys(
            request.voucher,
            target,
            request.vouchee.device_id,
            request.vouchee_public_key.as_slice(),
            request.base_secret.as_slice(),
        ) {
            Ok(keys) => keys,
            Err(e) => {
                return Err(e);
            },
        };
        let can_send = self.has_endpoint && registry.is_node_connected(target) && self.outbox.is_open();
        let node_id = registry.get_node_id_for_device(target);
        self.vouching_keys.insert(session_id, target, vouchee_keys);
        let entry = VouchingQueueEntry {
            session_id,
            target_device_id: target,
            voucher_device_id: request.voucher,
            vouchee_device_id: request.vouchee.device_id,
            vouchee_device_info: request.vouchee.clone(),
            vouchee_public_key: request.vouchee_public_key.clone(),
            voucher_signature: signature.clone(),
            proxied_session_keys: receiver_keys.clone(),
            created_at: now,
            expires_at: now.plus_seconds(SECONDS_PER_WEEK),
            status: VouchQueueStatus::Queued,
            retry_count: 0,
            last_attempt_at: None,
        };
        self.queue_upsert(&entry);
        match node_id {
            Some(node_id) => {
                if can_send {
                    let message = PairingMessage::ProxyPairingRequest {
                        session_id,
                        vouchee_device_info: request.vouchee.clone(),
                        vouchee_public_key: request.vouchee_public_key.clone(),
                        voucher_device_id: request.voucher,
                        voucher_signature: signature,
                        timestamp: now,
                        proxied_session_keys: receiver_keys,
                    };
                    let sent = self.outbox.send(node_id, message);
                    assert(sent is Ok);
                    self.queue_update(session_id, target, VouchQueueStatus::Waiting, 1, Some(now));
                    return self.update_vouch_status(
                        registry,
                        session_id,
                        target,
                        VouchStatus::Waiting,
                        None,
                        now,
                    );
                }
            },
            None => {},
        }
        self.update_vouch_status(registry, session_id, target, VouchStatus::Queued, None, now)
    }

    /// Gives the vouch for a target of a session a new status, and finishes the
    /// session when no vouch is left open.
    pub fn update_vouch_status(
        &mut self,
        registry: &DeviceRegistry,
        session_id: u128,
        device_id: u128,
        status: VouchStatus,
        reason: Option<String>,
        now: Timestamp,
    ) -> (r: Result<(), NetworkingError>)
        requires
            old(self).wf(),
            registry.wf(),
            now.wf(),
        ensures
            final(self).wf(),
            (final(self)@, error_of(r)) == old(self)@.status_updated(
                registry@,
                session_id,
                device_id,
                status,
                opt_text(reason),
                now,
            ),
    {
        let mut session = match self.vouching_sessions.get(session_id) {
            Some(s) => s,
            None => {
                return Err(
                    NetworkingError::Protocol(
                        "Vouching session not found: ".to_string().concat(
                            uuid_text(session_id).as_str(),
                        ),
                    ),
                );
            },
        };
        if !session.accepts_update(device_id) {
            return Ok(());
        }
        match status {
            VouchStatus::Rejected | VouchStatus::Unreachable => {
                self.vouching_keys.remove(session_id, device_id);
            },
            _ => {},
        }
        let completed = session.apply_status(device_id, status, reason, now);
        let snapshot = session.clone();
        proof {
            lemma_with_vouching(self@.vouching, session@);
        }
        self.vouching_sessions.put(session);
        self.outbox.emit(PairingEvent::VouchingSessionChanged { session: snapshot });
        if completed {
            return self.finalize_vouching_session(registry, session_id, now);
        }
        Ok(())
    }

    /// Finishes a vouching session: reports to the vouchee who accepted and who
    /// did not, drops the session's keys and schedules the session to be
    /// dropped.
    pub fn finalize_vouching_session(
        &mut self,
        registry: &DeviceRegistry,
        session_id: u128,
        now: Timestamp,
    ) -> (r: Result<(), NetworkingError>)
        requires
            old(self).wf(),
            registry.wf(),
            now.wf(),
        ensures
            final(self).wf(),
            (final(self)@, error_of(r)) == old(self)@.finalized(registry@, session_id, now),
    {
        let session = match self.vouching_sessions.get(session_id) {
            Some(s) => s,
            None => {
                return Err(
                    NetworkingError::Protocol(
                        "Vouching session not found: ".to_string().concat(
                            uuid_text(session_id).as_str(),
                        ),
                    ),
                );
            },
        };
        let (accepted_by, rejected_by) = completion_report(&session, registry, &self.vouching_keys);
        match registry.get_node_id_for_device(session.vouchee_device_id) {
            Some(node_id) => {
                let message = PairingMessage::ProxyPairingComplete {
                    session_id,
                    voucher_device_id: session.voucher_device_id,
                    accepted_by,
                    rejected_by,
                };
                match self.outbox.send(node_id, message) {
                    Ok(()) => {},
                    Err(e) => {
                        return Err(e);
                    },
                }
            },
            None => {},
        }
        self.vouching_keys.purge_session(session_id);
        self.cleanup.schedule(session_id, now.plus_seconds(VOUCHING_RETENTION_SECONDS));
        Ok(())
    }

    /// Handles a target's answer to a vouch of this device.
    pub fn handle_proxy_pairing_response(
        &mut self,
        registry: &DeviceRegistry,
        session_id: u128,
        accepting_device_id: u128,
        accepted: bool,
        reason: Option<String>,
        now: Timestamp,
    ) -> (r: Result<(), NetworkingError>)
        requires
            old(self).wf(),
            registry.wf(),
            now.wf(),
        ensures
            final(self).wf(),
            (final(self)@, error_of(r)) == old(self)@.vouch_answered(
                registry@,
                session_id,
                accepting_device_id,
                accepted,
                opt_text(reason),
                now,
            ),
    {
        if !self.vouching_sessions.contains(session_id) {
            return Ok(());
        }
        let status = if accepted {
            VouchStatus::Accepted
        } else {
            VouchStatus::Rejected
        };
        self.queue_remove(session_id, accepting_device_id);
        self.update_vouch_status(registry, session_id, accepting_device_id, status, reason, now)
    }

    /// Drops the vouching sessions whose retention time has passed, together
    /// with their keys, and reports their deletion.
    #[verifier::loop_isolation(false)]
    pub fn run_vouching_cleanup(&mut self, now: Timestamp)
        requires
            old(self).wf(),
            now.wf(),
        ensures
            final(self).wf(),
            final(self)@ == old(self)@.vouching_cleaned(now),
    {
        let due = self.cleanup.take_due(now);
        let ghost begun = self@;
        let mut i: usize = 0;
        while i < due.len()
            invariant
                i <= due.len(),
                self.wf(),
                self@ == begun.sessions_dropped_upto(due@, i as nat),
            decreases due.len() - i,
        {
            self.vouching_sessions.remove(due[i].session_id);
            self.vouching_keys.purge_session(due[i].session_id);
            self.outbox.emit(PairingEvent::VouchingSessionDeleted { session_id: due[i].session_id });
            i += 1;
        }
    }
}

/// The drainer of the vouch queue.
impl PairingProtocolHandler {
    /// Stores a vouch in the queue, if a queue is attached.
    fn queue_upsert(&mut self, entry: &VouchingQueueEntry)
        requires
            old(self).wf(),
            entry.wf(),
        ensures
            final(self).wf(),
            final(self)@ == (HandlerView {
                queue: map_queue(old(self)@.queue, |q: Seq<QueueEntryView>| upserted(q, entry@)),
                ..old(self)@
            }),
    {
        match &mut self.vouching_queue {
            Some(q) => {
                q.upsert_entry(entry);
            },
            None => {},
        }
    }

    /// Changes the delivery state of a queued vouch, if a queue is attached.
    fn queue_update(
        &mut self,
        session_id: u128,
        target: u128,
        status: VouchQueueStatus,
        retry_count: u32,
        last_attempt_at: Option<Timestamp>,
    )
        requires
            old(self).wf(),
            last_attempt_at matches Some(t) ==> t.wf(),
            status == VouchQueueStatus::Waiting ==> last_attempt_at is Some,
        ensures
            final(self).wf(),
            final(self)@ == (HandlerView {
                queue: map_queue(
                    old(self)@.queue,
                    |q: Seq<QueueEntryView>|
                        with_delivery(q, session_id, target, status, retry_count, last_attempt_at),
                ),
                ..old(self)@
            }),
    {
        match &mut self.vouching_queue {
            Some(q) => {
                q.update_status(session_id, target, status, retry_count, last_attempt_at);
            },
            None => {},
        }
    }

    /// Takes a vouch out of the queue, if a queue is attached.
    fn queue_remove(&mut self, session_id: u128, target: u128)
        requires
            old(self).wf(),
        ensures
            final(self).wf(),
            final(self)@ == (HandlerView {
                queue: map_queue(
                    old(self)@.queue,
                    |q: Seq<QueueEntryView>| without_entry(q, session_id, target),
                ),
                ..old(self)@
            }),
    {
        match &mut self.vouching_queue {
            Some(q) => {
                q.remove_entry(session_id, target);
            },
            None => {},
        }
    }

    /// Gives up a queued vouch: takes it out of the queue and marks it as
    /// unreachable.
    fn give_up(
        &mut self,
        registry: &DeviceRegistry,
        entry: &VouchingQueueEntry,
        reason: &str,
        now: Timestamp,
    ) -> (r: Result<(), NetworkingError>)
        requires
            old(self).wf(),
            registry.wf(),
            now.wf(),
        ensures
            final(self).wf(),
            (final(self)@, error_of(r)) == old(self)@.given_up(registry@, entry@, reason@, now),
    {
        self.queue_remove(entry.session_id, entry.target_device_id);
        self.update_vouch_status(
            registry,
            entry.session_id,
            entry.target_device_id,
            VouchStatus::Unreachable,
            Some(reason.to_string()),
            now,
        )
    }

    /// Looks at one queued vouch as the drainer does.
    pub fn process_queue_entry(
        &mut self,
        registry: &DeviceRegistry,
        entry: &VouchingQueueEntry,
        now: Timestamp,
    ) -> (r: Result<(), NetworkingError>)
        requires
            old(self).wf(),
            registry.wf(),
            entry.wf(),
            now.wf(),
        ensures
            final(self).wf(),
            (final(self)@, error_of(r)) == old(self)@.drained(registry@, entry@, now),
    {
        if !self.vouching_sessions.contains(entry.session_id) {
            self.queue_remove(entry.session_id, entry.target_device_id);
            return Ok(());
        }
        if entry.expires_at.at_or_before(&now) {
            return self.give_up(registry, entry, "Vouch expired", now);
        }
        if entry.retry_count >= self.proxy_config.vouch_queue_retry_limit {
            return self.give_up(registry, entry, "Vouch retry limit exceeded", now);
        }
        if entry.status == VouchQueueStatus::Waiting {
            let overdue = match &entry.last_attempt_at {
                Some(t) => now.elapsed_exceeds(t, self.proxy_config.vouch_response_timeout),
                None => false,
            };
            if overdue {
                return self.give_up(registry, entry, "Proxy response timeout", now);
            }
            return Ok(());
        }
        if !self.has_endpoint || !registry.is_node_connected(entry.target_device_id) {
            return Ok(());
        }
        let node_id = match registry.get_node_id_for_device(entry.target_device_id) {
            Some(n) => n,
            None => {
                return Ok(());
            },
        };
        let payload = build_vouch_payload(
            entry.session_id,
            &entry.vouchee_device_info,
            entry.vouchee_public_key.as_slice(),
            now,
        );
        let signature = match sign_vouch_payload(&self.identity, &payload) {
            Ok(signature) => signature,
            Err(e) => {
                return Err(e);
            },
        };
        let retries: u32 = entry.retry_count + 1;
        let message = PairingMessage::ProxyPairingRequest {
            session_id: entry.session_id,
            vouchee_device_info: entry.vouchee_device_info.clone(),
            vouchee_public_key: entry.vouchee_public_key.clone(),
            voucher_device_id: entry.voucher_device_id,
            voucher_signature: signature,
            timestamp: now,
            proxied_session_keys: entry.proxied_session_keys.clone(),
        };
        match self.outbox.send(node_id, message) {
            Ok(()) => {},
            Err(_) => {
                self.queue_update(
                    entry.session_id,
                    entry.target_device_id,
                    VouchQueueStatus::Queued,
                    retries,
                    Some(now),
                );
                return Ok(());
            },
        }
        self.queue_update(
            entry.session_id,
            entry.target_device_id,
            VouchQueueStatus::Waiting,
            retries,
            Some(now),
        );
        self.update_vouch_status(
            registry,
            entry.session_id,
            entry.target_device_id,
            VouchStatus::Waiting,
            None,
            now,
        )
    }

    /// One pass of the drainer over the vouch queue as it stands.
    pub fn process_vouching_queue(&mut self, registry: &DeviceRegistry, now: Timestamp) -> (r: Result<
        (),
        NetworkingError,
    >)
        requires
            old(self).wf(),
            registry.wf(),
            now.wf(),
        ensures
            final(self).wf(),
            (final(self)@, error_of(r)) == old(self)@.queue_drained(registry@, now),
    {
        let ghost before = self@;
        let entries = match &self.vouching_queue {
            Some(q) => q.list_entries(),
            None => {
                return Ok(());
            },
        };
        let ghost snapshot = entries@.map_values(|e: VouchingQueueEntry| e@);
        proof {
            self.law_state_is_well_formed();
        }
        let mut i: usize = 0;
        while i < entries.len()
            invariant
                i <= entries.len(),
                self.wf(),
                registry.wf(),
                now.wf(),
                before == old(self)@,
                before.queue == Some(snapshot),
                snapshot == entries@.map_values(|e: VouchingQueueEntry| e@),
                queue_wf(snapshot),
                (self@, None::<ErrorView>) == before.drained_upto(registry@, snapshot, now, i as nat),
            decreases entries.len() - i,
        {
            assert(entries[i as int]@ == snapshot[i as int]);
            assert(snapshot[i as int].wf());
            match self.process_queue_entry(registry, &entries[i], now) {
                Ok(()) => {},
                Err(e) => {
                    proof {
                        lemma_drained_upto_stops(
                            before,
                            registry@,
                            snapshot,
                            now,
                            (i + 1) as nat,
                            snapshot.len(),
                        );
                    }
                    return Err(e);
                },
            }
            i += 1;
        }
        Ok(())
    }
}

/// Vouching, on the target's side.
impl PairingProtocolHandler {
    /// Answers a vouch: tells the node that sent it whether this device
    /// accepts.
    fn reply(
        &mut self,
        registry: &DeviceRegistry,
        node_id: &[u8],
        session_id: u128,
        accepted: bool,
        reason: Option<String>,
    ) -> (r: Result<(), NetworkingError>)
        requires
            old(self).wf(),
        ensures
            final(self).wf(),
            (final(self)@, error_of(r)) == old(self)@.replied(
                registry@,
                node_id@,
                session_id,
                accepted,
                opt_text(reason),
            ),
    {
        let message = PairingMessage::ProxyPairingResponse {
            session_id,
            accepting_device_id: registry.local_device.device_id,
            accepted,
            reason,
        };
        self.outbox.send(copy_bytes(node_id), message)
    }

    /// Handles a vouch that reached this device. `remote_node_id` is the node
    /// that sent the vouch, as the transport authenticated it.
    pub fn handle_proxy_pairing_request(
        &mut self,
        registry: &mut DeviceRegistry,
        session_id: u128,
        vouchee_device_info: DeviceInfo,
        vouchee_public_key: Vec<u8>,
        voucher_device_id: u128,
        voucher_signature: Vec<u8>,
        timestamp: Timestamp,
        proxied_session_keys: SessionKeys,
        remote_node_id: &[u8],
        now: Timestamp,
    ) -> (r: Result<(), NetworkingError>)
        requires
            old(self).wf(),
            old(registry).wf(),
            timestamp.wf(),
            now.wf(),
        ensures
            final(self).wf(),
            final(registry).wf(),
            (final(self)@, final(registry)@, error_of(r)) == old(self)@.vouch_requested(
                old(registry)@,
                IncomingVouch {
                    session_id,
                    vouchee: vouchee_device_info@,
                    vouchee_public_key: vouchee_public_key@,
                    voucher_device_id,
                    voucher_signature: voucher_signature@,
                    timestamp,
                    proxied_session_keys: proxied_session_keys@,
                    remote_node_id: remote_node_id@,
                },
                now,
            ),
    {
        let verdict = evaluate_vouch(
            &self.proxy_config,
            registry,
            session_id,
            &vouchee_device_info,
            vouchee_public_key.as_slice(),
            voucher_device_id,
            voucher_signature.as_slice(),
            &timestamp,
            &proxied_session_keys,
            remote_node_id,
            &now,
        );
        match verdict {
            VouchVerdict::Reject { reason } => self.reply(
                registry,
                remote_node_id,
                session_id,
                false,
                Some(reason),
            ),
            VouchVerdict::Fail { error } => Err(error),
            VouchVerdict::Accept => {
                let r = self.reply(registry, remote_node_id, session_id, true, None);
                registry.complete_pairing(
                    vouchee_device_info,
                    proxied_session_keys,
                    None,
                    PairingType::Proxied,
                    Some(voucher_device_id),
                    now,
                );
                r
            },
            VouchVerdict::AskUser => {
                let voucher_device_name = match registry.get_paired_device(voucher_device_id) {
                    Some(d) => d.info.device_name,
                    None => "Unknown device".to_string(),
                };
                let event = PairingEvent::ProxyPairingConfirmationRequired {
                    session_id,
                    vouchee_device_name: vouchee_device_info.device_name.clone(),
                    vouchee_device_os: vouchee_device_info.os_version.clone(),
                    voucher_device_name: voucher_device_name.clone(),
                    voucher_device_id,
                    expires_at: now.plus_seconds(self.proxy_config.vouch_response_timeout),
                };
                self.pending_proxy_confirmations.insert(
                    PendingProxyConfirmation {
                        session_id,
                        voucher_device_id,
                        voucher_device_name,
                        vouchee_device_info,
                        vouchee_public_key,
                        proxied_session_keys,
                        created_at: now,
                        timeout_seconds: self.proxy_config.vouch_response_timeout,
                    },
                );
                self.outbox.emit(event);
                Ok(())
            },
        }
    }

    /// Records the user's decision on a pending vouch.
    pub fn confirm_proxy_pairing(
        &mut self,
        registry: &mut DeviceRegistry,
        session_id: u128,
        accepted: bool,
        now: Timestamp,
    ) -> (r: Result<(), NetworkingError>)
        requires
            old(self).wf(),
            old(registry).wf(),
            now.wf(),
        ensures
            final(self).wf(),
            final(registry).wf(),
            (final(self)@, final(registry)@, error_of(r)) == old(self)@.vouch_confirmed(
                old(registry)@,
                session_id,
                accepted,
                now,
            ),
    {
        let pending = match self.pending_proxy_confirmations.take(session_id) {
            Some(p) => p,
            None => {
                return Err(NetworkingError::protocol("No pending proxy confirmation found"));
            },
        };
        let voucher_node_id = registry.get_node_id_for_device(pending.voucher_device_id);
        let r = match voucher_node_id {
            Some(node_id) => {
                let reason = if accepted {
                    None
                } else {
                    Some("User rejected proxy pairing".to_string())
                };
                self.reply(registry, node_id.as_slice(), session_id, accepted, reason)
            },
            None => Ok(()),
        };
        if accepted {
            registry.complete_pairing(
                pending.vouchee_device_info,
                pending.proxied_session_keys,
                None,
                PairingType::Proxied,
                Some(pending.voucher_device_id),
                now,
            );
        }
        r
    }

    /// Drops the pending vouches whose time for the user's decision has run
    /// out, and tells their vouchers.
    #[verifier::loop_isolation(false)]
    pub fn expire_proxy_confirmations(&mut self, registry: &DeviceRegistry, now: Timestamp)
        requires
            old(self).wf(),
            registry.wf(),
            now.wf(),
        ensures
            final(self).wf(),
            final(self)@ == old(self)@.confirmations_expired(registry@, now),
    {
        let timed_out = self.pending_proxy_confirmations.take_timed_out(now);
        let ghost begun = self@;
        let ghost views = timed_out@.map_values(|p: PendingProxyConfirmation| p@);
        let mut i: usize = 0;
        while i < timed_out.len()
            invariant
                i <= timed_out.len(),
                self.wf(),
                self@ == begun.timeouts_notified_upto(registry@, views, i as nat),
            decreases timed_out.len() - i,
        {
            assert(timed_out[i as int]@ == views[i as int]);
            match registry.get_node_id_for_device(timed_out[i].voucher_device_id) {
                Some(node_id) => {
                    let _ = self.reply(
                        registry,
                        node_id.as_slice(),
                        timed_out[i].session_id,
                        false,
                        Some("Proxy confirmation timed out".to_string()),
                    );
                },
                None => {},
            }
            i += 1;
        }
    }
}

/// Vouching, on the vouchee's side, and the dispatch of messages.
impl PairingProtocolHandler {
    /// Handles the report of a voucher that ends a vouching session for this
    /// device as the vouchee: every device that accepted is stored as paired
    /// through the voucher. The devices that did not accept change nothing.
    pub fn handle_proxy_pairing_complete(
        &self,
        registry: &mut DeviceRegistry,
        session_id: u128,
        voucher_device_id: u128,
        accepted_by: Vec<AcceptedDevice>,
        rejected_by: Vec<RejectedDevice>,
        now: Timestamp,
    ) -> (r: Result<(), NetworkingError>)
        requires
            old(registry).wf(),
        ensures
            r is Ok,
            final(registry).wf(),
            final(registry)@ == accepted_stored_upto(
                old(registry)@,
                voucher_device_id,
                accepted_by@.map_values(|d: AcceptedDevice| d@),
                now,
                accepted_by@.len(),
            ),
    {
        let ghost before = registry@;
        let ghost accepted = accepted_by@.map_values(|d: AcceptedDevice| d@);
        let mut i: usize = 0;
        while i < accepted_by.len()
            invariant
                i <= accepted_by.len(),
                registry.wf(),
                accepted == accepted_by@.map_values(|d: AcceptedDevice| d@),
                registry@ == accepted_stored_upto(before, voucher_device_id, accepted, now, i as nat),
            decreases accepted_by.len() - i,
        {
            let device = accepted_by[i].clone();
            registry.complete_pairing(
                device.device_info,
                device.session_keys,
                None,
                PairingType::Proxied,
                Some(voucher_device_id),
                now,
            );
            i += 1;
        }
        Ok(())
    }

    /// Handles a message that a node sent. The messages of the proxy extension
    /// are dealt with here; a message of a direct pairing is handed back for
    /// the direct pairing to deal with.
    pub fn handle_pairing_message(
        &mut self,
        registry: &mut DeviceRegistry,
        message: PairingMessage,
        remote_node_id: &[u8],
        now: Timestamp,
    ) -> (r: Result<Option<PairingMessage>, NetworkingError>)
        requires
            old(self).wf(),
            old(registry).wf(),
            now.wf(),
        ensures
            final(self).wf(),
            final(registry).wf(),
            final(self)@ == old(self)@.message_handled(
                old(registry)@,
                message@,
                remote_node_id@,
                now,
            ).0,
            final(registry)@ == old(self)@.message_handled(
                old(registry)@,
                message@,
                remote_node_id@,
                now,
            ).1,
            match old(self)@.message_handled(
                old(registry)@,
                message@,
                remote_node_id@,
                now,
            ).2 {
                Ok(Some(direct)) => r matches Ok(Some(m)) && m@ == direct,
                Ok(None) => r matches Ok(None),
                Err(error) => r matches Err(e) && e@ == error,
            },
    {
        match message {
            PairingMessage::ProxyPairingRequest {
                session_id,
                vouchee_device_info,
                vouchee_public_key,
                voucher_device_id,
                voucher_signature,
                timestamp,
                proxied_session_keys,
            } => {
                if timestamp.nanos >= NANOS_PER_SECOND {
                    return Err(NetworkingError::protocol("Invalid vouch timestamp"));
                }
                match self.handle_proxy_pairing_request(
                    registry,
                    session_id,
                    vouchee_device_info,
                    vouchee_public_key,
                    voucher_device_id,
                    voucher_signature,
                    timestamp,
                    proxied_session_keys,
                    remote_node_id,
                    now,
                ) {
                    Ok(()) => Ok(None),
                    Err(e) => Err(e),
                }
            },
            PairingMessage::ProxyPairingResponse {
                session_id,
                accepting_device_id,
                accepted,
                reason,
            } => {
                match self.handle_proxy_pairing_response(
                    registry,
                    session_id,
                    accepting_device_id,
                    accepted,
                    reason,
                    now,
                ) {
                    Ok(()) => Ok(None),
                    Err(e) => Err(e),
                }
            },
            PairingMessage::ProxyPairingComplete {
                session_id,
                voucher_device_id,
                accepted_by,
                rejected_by,
            } => {
                match self.handle_proxy_pairing_complete(
                    registry,
                    session_id,
                    voucher_device_id,
                    accepted_by,
                    rejected_by,
                    now,
                ) {
                    Ok(()) => Ok(None),
                    Err(e) => Err(e),
                }
            },
            direct => {
                if self.takes_direct_message(direct.session_id()) {
                    Ok(Some(direct))
                } else {
                    Ok(None)
                }
            },
        }
    }
}

/// What happened to a device on the network.
#[derive(Clone, Copy, Debug, PartialEq, Eq, Structural)]
pub enum ProtocolEvent {
    DeviceConnected { device_id: u128 },
    DeviceDisconnected { device_id: u128 },
}

/// What a voucher knows when it vouches for a vouchee.
struct VouchRequest {
    session_id: u128,
    voucher: u128,
    vouchee: DeviceInfo,
    vouchee_public_key: Vec<u8>,
    base_secret: Vec<u8>,
    now: Timestamp,
}

impl View for VouchRequest {
    type V = VouchContext;

    closed spec fn view(&self) -> VouchContext {
        VouchContext {
            session_id: self.session_id,
            voucher: self.voucher,
            vouchee: self.vouchee@,
            vouchee_public_key: self.vouchee_public_key@,
            base_secret: self.base_secret@,
            now: self.now,
        }
    }
}

} // verus!
