//! The pairing handler as a state machine over mathematical values.
//!
//! Every operation of the handler is described here as a function from the
//! state before it, the registry and the operation's arguments to the state
//! after it. The handler's contracts refer to these functions.

use crate::config::ProxyPairingConfig;
use crate::crypto::hyphenated;
use crate::device::DeviceInfoView;
use crate::device::PairedDeviceView;
use crate::device::PairingType;
use crate::device::RegistryView;
use crate::device::SessionKeysView;
use crate::device::TrustLevel;
use crate::device::keys_from_secret;
use crate::error::ErrorView;
use crate::error::NetworkingError;
use crate::types::ExchangeView;
use crate::keyed::distinct;
use crate::keys::encoding_error;
use crate::keys::invalid_keys_error;
use crate::keys::payload_signature;
use crate::keys::proxy_shared_secret;
use crate::messages::EventView;
use crate::messages::MessageView;
use crate::outbox::OutboxView;
use crate::pending::PendingView;
use crate::pending::ScheduledCleanup;
use crate::pending::due_upto;
use crate::pending::has_pending;
use crate::pending::pending_at;
use crate::pending::pending_wf;
use crate::pending::schedule_wf;
use crate::pending::timed_out_upto;
use crate::pending::with_pending;
use crate::pending::without_pending;
use crate::proxy::AcceptedDeviceView;
use crate::proxy::VouchPayloadView;
use crate::proxy::VouchStatus;
use crate::proxy::VouchingSessionState;
use crate::proxy::VouchingSessionView;
use crate::proxy::unknown_device_name;
use crate::sessions::SessionsView;
use crate::sessions::code_expired_error;
use crate::sessions::session_exists_error;
use crate::time::SECONDS_PER_WEEK;
use crate::time::Timestamp;
use crate::types::PairingCodeView;
use crate::types::PairingSessionView;
use crate::types::PairingStateView;
use crate::verdict::IncomingVouch;
use crate::verdict::VerdictView;
use crate::verdict::vouch_verdict;
use crate::vouching::CachedKeysView;
use crate::vouching::VOUCHING_RETENTION_SECONDS;
use crate::vouching::accepted_upto;
use crate::vouching::has_vouching;
use crate::vouching::key_ids;
use crate::vouching::rejected_upto;
use crate::vouching::vouching_at;
use crate::vouching::vouching_wf;
use crate::vouching::with_keys;
use crate::vouching::with_vouching;
use crate::vouching::without_keys;
use crate::vouching::without_session_keys;
use crate::vouching::without_vouching;
use crate::vouching_queue::QueueEntryView;
use crate::vouching_queue::VouchQueueStatus;
use crate::vouching_queue::queue_wf;
use crate::vouching_queue::upserted;
use crate::vouching_queue::with_delivery;
use crate::vouching_queue::without_entry;
use vstd::prelude::*;

verus! {

/// The mathematical value of a pairing handler.
pub ghost struct HandlerView {
    /// The public key of the device's identity: its node identity.
    pub node_id: Seq<u8>,
    /// The secret key of the device's identity.
    pub secret_key: Seq<u8>,
    /// The direct pairing sessions and their codes.
    pub pairing: SessionsView,
    /// The options of proxy pairing.
    pub config: ProxyPairingConfig,
    /// The vouching sessions that this device runs as a voucher.
    pub vouching: Seq<VouchingSessionView>,
    /// The keys derived for the vouchees of those sessions.
    pub keys: Seq<CachedKeysView>,
    /// The vouches that wait for delivery, once a queue is attached.
    pub queue: Option<Seq<QueueEntryView>>,
    /// The vouches that the user of this device has to decide on.
    pub pending: Seq<PendingView>,
    /// The vouching sessions that are due to be dropped.
    pub cleanup: Seq<ScheduledCleanup>,
    /// What is to be sent and reported.
    pub outbox: OutboxView,
    /// Whether the device has an endpoint to reach other nodes through.
    pub has_endpoint: bool,
}

/// The error of a result without a value.
pub open spec fn error_of(r: Result<(), NetworkingError>) -> Option<ErrorView> {
    match r {
        Ok(_) => None,
        Err(e) => Some(e@),
    }
}

/// The error for a vouching session that the handler does not hold.
pub open spec fn vouching_not_found_error(session_id: u128) -> ErrorView {
    ErrorView::Protocol("Vouching session not found: "@ + hyphenated(session_id))
}

/// What a voucher knows when it vouches for a vouchee: the session, the two
/// devices, the secret of their direct pairing, and the time.
pub ghost struct VouchContext {
    pub session_id: u128,
    pub voucher: u128,
    pub vouchee: DeviceInfoView,
    pub vouchee_public_key: Seq<u8>,
    pub base_secret: Seq<u8>,
    pub now: Timestamp,
}

impl VouchContext {
    /// The document that the voucher signs.
    pub open spec fn payload(self) -> VouchPayloadView {
        VouchPayloadView {
            vouchee_device_id: self.vouchee.device_id,
            vouchee_public_key: self.vouchee_public_key,
            vouchee_device_info: self.vouchee,
            timestamp: self.now,
            session_id: self.session_id,
        }
    }

    /// The keys for a target and the vouchee, as the target holds them.
    pub open spec fn receiver_keys(self, target: u128) -> SessionKeysView {
        keys_from_secret(
            proxy_shared_secret(
                self.voucher,
                target,
                self.vouchee.device_id,
                self.vouchee_public_key,
                self.base_secret,
            ),
        )
    }

    /// The request that asks a target to trust the vouchee, under the given
    /// signature.
    pub open spec fn request(self, target: u128, signature: Seq<u8>) -> MessageView {
        MessageView::ProxyPairingRequest {
            session_id: self.session_id,
            vouchee_device_info: self.vouchee,
            vouchee_public_key: self.vouchee_public_key,
            voucher_device_id: self.voucher,
            voucher_signature: signature,
            timestamp: self.now,
            proxied_session_keys: self.receiver_keys(target),
        }
    }

    /// The queue entry under which the vouch for a target is stored: queued,
    /// never sent, and good for seven days.
    pub open spec fn queue_entry(self, target: u128, signature: Seq<u8>) -> QueueEntryView {
        QueueEntryView {
            session_id: self.session_id,
            target_device_id: target,
            voucher_device_id: self.voucher,
            vouchee_device_id: self.vouchee.device_id,
            vouchee_device_info: self.vouchee,
            vouchee_public_key: self.vouchee_public_key,
            voucher_signature: signature,
            proxied_session_keys: self.receiver_keys(target),
            created_at: self.now,
            expires_at: self.now.spec_plus_seconds(SECONDS_PER_WEEK),
            status: VouchQueueStatus::Queued,
            retry_count: 0,
            last_attempt_at: None,
        }
    }
}

/// The name under which a target is recorded: the name that the registry has
/// for it, or "Unknown device".
pub open spec fn target_name(registry: RegistryView, target: u128) -> Seq<char> {
    if registry.is_paired(target) {
        registry.device(target).info.device_name
    } else {
        unknown_device_name()
    }
}

/// The targets of a vouching session, each with the name to record for it.
pub open spec fn named_targets(registry: RegistryView, targets: Seq<u128>) -> Seq<(u128, Seq<char>)> {
    targets.map_values(|t: u128| (t, target_name(registry, t)))
}

/// The error for a pairing session that has not been completed yet: vouching
/// needs a completed pairing.
pub open spec fn pairing_not_completed_error() -> ErrorView {
    ErrorView::Protocol("Pairing session is not completed"@)
}

/// The error for a pairing session that the handler does not hold.
pub open spec fn pairing_not_found_error(session_id: u128) -> ErrorView {
    ErrorView::Protocol("Pairing session not found: "@ + hyphenated(session_id))
}

/// The error for a pairing session without a shared secret and without a code
/// to derive one from.
pub open spec fn no_code_error(session_id: u128) -> ErrorView {
    ErrorView::Protocol("No pairing code found for session "@ + hyphenated(session_id))
}

/// The queue, if there is one, after a change.
pub open spec fn map_queue(
    queue: Option<Seq<QueueEntryView>>,
    change: spec_fn(Seq<QueueEntryView>) -> Seq<QueueEntryView>,
) -> Option<Seq<QueueEntryView>> {
    match queue {
        Some(q) => Some(change(q)),
        None => None,
    }
}

impl HandlerView {
    /// Every part of the state is well-formed.
    pub open spec fn wf(self) -> bool {
        &&& self.pairing.wf()
        &&& vouching_wf(self.vouching)
        &&& key_ids(self.keys).no_duplicates()
        &&& self.queue matches Some(q) ==> queue_wf(q)
        &&& pending_wf(self.pending)
        &&& schedule_wf(self.cleanup)
    }

    /// The state after a message was handed to the outbox.
    pub open spec fn sent(self, node_id: Seq<u8>, message: MessageView) -> HandlerView {
        HandlerView { outbox: self.outbox.sent(node_id, message), ..self }
    }

    /// The state after an event was reported.
    pub open spec fn emitted(self, event: EventView) -> HandlerView {
        HandlerView { outbox: self.outbox.emitted(event), ..self }
    }

    /// The report that ends a vouching session: who accepted the vouchee, and
    /// who did not.
    pub open spec fn completion_message(self, registry: RegistryView, session_id: u128) -> MessageView {
        let s = vouching_at(self.vouching, session_id);
        MessageView::ProxyPairingComplete {
            session_id,
            voucher_device_id: s.voucher_device_id,
            accepted_by: accepted_upto(s.vouches, registry, self.keys, session_id, s.vouches.len()),
            rejected_by: rejected_upto(s.vouches, s.vouches.len()),
        }
    }

    /// The state after a vouching session was finished, and the error if it
    /// could not be. The report goes to the vouchee where the vouchee's node is
    /// known; then the session's keys are dropped and the session is scheduled
    /// to be dropped after its retention time. Where the report cannot be sent,
    /// nothing changes.
    pub open spec fn finalized(self, registry: RegistryView, session_id: u128, now: Timestamp) -> (
        HandlerView,
        Option<ErrorView>,
    ) {
        if !has_vouching(self.vouching, session_id) {
            (self, Some(vouching_not_found_error(session_id)))
        } else {
            let vouchee = vouching_at(self.vouching, session_id).vouchee_device_id;
            if registry.node_of(vouchee) is Some && !self.outbox.open {
                (self, Some(ErrorView::ChannelClosed))
            } else {
                let reported = if registry.node_of(vouchee) is Some {
                    self.sent(
                        registry.node_of(vouchee)->0,
                        self.completion_message(registry, session_id),
                    )
                } else {
                    self
                };
                (
                    HandlerView {
                        keys: without_session_keys(self.keys, session_id),
                        cleanup: self.cleanup.push(
                            ScheduledCleanup {
                                session_id,
                                due: now.spec_plus_seconds(VOUCHING_RETENTION_SECONDS),
                            },
                        ),
                        ..reported
                    },
                    None,
                )
            }
        }
    }

    /// The state after the vouch for a target of a session got a new status,
    /// and the error if there is one. A change that the session does not take
    /// leaves the state as it is. One that it takes drops the cached keys where
    /// the target refused or could not be reached, is reported as an event, and
    /// finishes the session when it leaves no vouch open.
    pub open spec fn status_updated(
        self,
        registry: RegistryView,
        session_id: u128,
        device_id: u128,
        status: VouchStatus,
        reason: Option<Seq<char>>,
        now: Timestamp,
    ) -> (HandlerView, Option<ErrorView>) {
        if !has_vouching(self.vouching, session_id) {
            (self, Some(vouching_not_found_error(session_id)))
        } else {
            let s = vouching_at(self.vouching, session_id);
            if !s.accepts_update(device_id) {
                (self, None)
            } else {
                let changed = s.with_status(device_id, status, reason, now);
                let after = HandlerView {
                    keys: if status == VouchStatus::Rejected || status
                        == VouchStatus::Unreachable {
                        without_keys(self.keys, session_id, device_id)
                    } else {
                        self.keys
                    },
                    vouching: with_vouching(self.vouching, changed),
                    ..self
                }.emitted(EventView::VouchingSessionChanged { session: changed });
                if s.completes_with(device_id, status, reason, now) {
                    after.finalized(registry, session_id, now)
                } else {
                    (after, None)
                }
            }
        }
    }

    /// Whether a request to a target can be sent right now: the device has an
    /// endpoint, the target is connected, and its node is known.
    pub open spec fn can_reach(self, registry: RegistryView, target: u128) -> bool {
        self.has_endpoint && registry.is_connected(target) && registry.node_of(target) is Some
    }

    /// The state after the vouchee was vouched to one target, and the error if
    /// there is one. A target that is the voucher or the vouchee, or that is
    /// not paired, is rejected. For any other target the payload is signed, the
    /// keys are derived and cached, the vouch is stored in the queue, and the
    /// request is sent where
    /// the target can be reached: the vouch then waits for the answer, and is
    /// queued otherwise.
    pub open spec fn vouched(self, registry: RegistryView, ctx: VouchContext, target: u128) -> (
        HandlerView,
        Option<ErrorView>,
    ) {
        if target == ctx.voucher || target == ctx.vouchee.device_id {
            self.status_updated(
                registry,
                ctx.session_id,
                target,
                VouchStatus::Rejected,
                Some("Invalid vouch target"@),
                ctx.now,
            )
        } else if !registry.is_paired(target) {
            self.status_updated(
                registry,
                ctx.session_id,
                target,
                VouchStatus::Rejected,
                Some("Target device not paired"@),
                ctx.now,
            )
        } else if payload_signature(self.secret_key, ctx.payload()) is None {
            (self, Some(encoding_error()))
        } else if !ctx.receiver_keys(target).wf() {
            (self, Some(invalid_keys_error()))
        } else {
            let signature = payload_signature(self.secret_key, ctx.payload())->0;
            let stored = HandlerView {
                keys: with_keys(
                    self.keys,
                    CachedKeysView {
                        session_id: ctx.session_id,
                        device_id: target,
                        keys: ctx.receiver_keys(target).swapped(),
                    },
                ),
                queue: map_queue(
                    self.queue,
                    |q: Seq<QueueEntryView>| upserted(q, ctx.queue_entry(target, signature)),
                ),
                ..self
            };
            if self.can_reach(registry, target) && self.outbox.open {
                HandlerView {
                    queue: map_queue(
                        stored.queue,
                        |q: Seq<QueueEntryView>|
                            with_delivery(
                                q,
                                ctx.session_id,
                                target,
                                VouchQueueStatus::Waiting,
                                1,
                                Some(ctx.now),
                            ),
                    ),
                    ..stored.sent(registry.node_of(target)->0, ctx.request(target, signature))
                }.status_updated(
                    registry,
                    ctx.session_id,
                    target,
                    VouchStatus::Waiting,
                    None,
                    ctx.now,
                )
            } else {
                stored.status_updated(
                    registry,
                    ctx.session_id,
                    target,
                    VouchStatus::Queued,
                    None,
                    ctx.now,
                )
            }
        }
    }

    /// The state after the vouchee was vouched to the first `n` targets, one
    /// after another, and the error that stopped the work, if there is one.
    pub open spec fn vouched_upto(
        self,
        registry: RegistryView,
        ctx: VouchContext,
        targets: Seq<u128>,
        n: nat,
    ) -> (HandlerView, Option<ErrorView>)
        decreases n,
    {
        if n == 0 {
            (self, None)
        } else {
            let before = self.vouched_upto(registry, ctx, targets, (n - 1) as nat);
            if before.1 is Some {
                before
            } else {
                before.0.vouched(registry, ctx, targets[n - 1])
            }
        }
    }

    /// The vouching session that vouching starts from: the one that the handler
    /// holds for the pairing session, or a new one.
    pub open spec fn vouching_base(self, registry: RegistryView, session_id: u128, now: Timestamp) -> VouchingSessionView {
        if has_vouching(self.vouching, session_id) {
            vouching_at(self.vouching, session_id)
        } else {
            VouchingSessionView {
                id: session_id,
                vouchee_device_id: self.pairing.session(session_id).remote_device_info->0.device_id,
                vouchee_device_name: self.pairing.session(
                    session_id,
                ).remote_device_info->0.device_name,
                voucher_device_id: registry.local_device.device_id,
                created_at: now,
                state: VouchingSessionState::Pending,
                vouches: Seq::empty(),
            }
        }
    }

    /// Why vouching cannot start for a pairing session, if it cannot: the
    /// session is unknown or not completed, or it lacks the vouchee's
    /// description, the vouchee's key, or a secret to derive keys from.
    pub open spec fn vouching_obstacle(self, session_id: u128) -> Option<ErrorView> {
        if !self.pairing.has_session(session_id) {
            Some(pairing_not_found_error(session_id))
        } else if !(self.pairing.session(session_id).state is Completed) {
            Some(pairing_not_completed_error())
        } else if self.pairing.session(session_id).remote_device_info is None {
            Some(ErrorView::Protocol("Missing vouchee device info"@))
        } else if self.pairing.session(session_id).remote_public_key is None {
            Some(ErrorView::Protocol("Missing vouchee public key"@))
        } else if self.pairing.session(session_id).shared_secret is None && !self.pairing.has_code(
            session_id,
        ) {
            Some(no_code_error(session_id))
        } else {
            None
        }
    }

    /// What the voucher knows when it vouches for the vouchee of a completed
    /// pairing session. The secret is the session's, or the secret of the
    /// session's code where the session has none.
    pub open spec fn vouch_context(
        self,
        registry: RegistryView,
        session_id: u128,
        now: Timestamp,
    ) -> VouchContext {
        let s = self.pairing.session(session_id);
        VouchContext {
            session_id,
            voucher: registry.local_device.device_id,
            vouchee: s.remote_device_info->0,
            vouchee_public_key: s.remote_public_key->0,
            base_secret: match s.shared_secret {
                Some(secret) => secret,
                None => self.pairing.code(session_id).secret,
            },
            now,
        }
    }

    /// The state after vouching was started for a completed pairing session,
    /// and the vouching session as it is afterwards, or the error. Repeated
    /// targets count once. The session is seeded with the targets and reported
    /// as an event; without targets it is completed and finished at once, and
    /// otherwise the vouchee is vouched to one target after another.
    pub open spec fn vouching_started(
        self,
        registry: RegistryView,
        session_id: u128,
        targets: Seq<u128>,
        now: Timestamp,
    ) -> (HandlerView, Result<VouchingSessionView, ErrorView>) {
        if self.vouching_obstacle(session_id) is Some {
            (self, Err(self.vouching_obstacle(session_id)->0))
        } else {
            let seeded = self.vouching_base(registry, session_id, now).started(
                named_targets(registry, distinct(targets)),
                now,
            );
            let begun = HandlerView {
                vouching: with_vouching(self.vouching, seeded),
                ..self
            }.emitted(EventView::VouchingSessionChanged { session: seeded });
            let done = if distinct(targets).len() == 0 {
                begun.finalized(registry, session_id, now)
            } else {
                begun.vouched_upto(
                    registry,
                    self.vouch_context(registry, session_id, now),
                    distinct(targets),
                    distinct(targets).len(),
                )
            };
            if done.1 is Some {
                (done.0, Err(done.1->0))
            } else if !has_vouching(done.0.vouching, session_id) {
                (done.0, Err(ErrorView::Protocol("Vouching session missing"@)))
            } else {
                (done.0, Ok(vouching_at(done.0.vouching, session_id)))
            }
        }
    }
}

/// The registry entry of a device that was paired through a voucher.
pub open spec fn proxied_device(
    info: DeviceInfoView,
    keys: SessionKeysView,
    voucher: u128,
    now: Timestamp,
) -> PairedDeviceView {
    PairedDeviceView {
        info,
        session_keys: keys,
        node_id: None,
        connected: false,
        trust_level: TrustLevel::Trusted,
        pairing_type: PairingType::Proxied,
        vouched_by: Some(voucher),
        paired_at: now,
    }
}

/// The registry after the first `n` devices of a completion report were stored
/// as paired through the voucher.
pub open spec fn accepted_stored_upto(
    registry: RegistryView,
    voucher: u128,
    accepted_by: Seq<AcceptedDeviceView>,
    now: Timestamp,
    n: nat,
) -> RegistryView
    decreases n,
{
    if n == 0 {
        registry
    } else {
        accepted_stored_upto(registry, voucher, accepted_by, now, (n - 1) as nat).with_device(
            proxied_device(
                accepted_by[n - 1].device_info,
                accepted_by[n - 1].session_keys,
                voucher,
                now,
            ),
        )
    }
}

/// The answer of a target to a vouch.
pub open spec fn vouch_response(
    registry: RegistryView,
    session_id: u128,
    accepted: bool,
    reason: Option<Seq<char>>,
) -> MessageView {
    MessageView::ProxyPairingResponse {
        session_id,
        accepting_device_id: registry.local_device.device_id,
        accepted,
        reason,
    }
}

impl HandlerView {
    /// The state after an answer to a vouch was sent to a node, and the error
    /// where the channel is gone.
    pub open spec fn replied(
        self,
        registry: RegistryView,
        node_id: Seq<u8>,
        session_id: u128,
        accepted: bool,
        reason: Option<Seq<char>>,
    ) -> (HandlerView, Option<ErrorView>) {
        if self.outbox.open {
            (self.sent(node_id, vouch_response(registry, session_id, accepted, reason)), None)
        } else {
            (self, Some(ErrorView::ChannelClosed))
        }
    }

    /// The state and the registry after a vouch reached this device, and the
    /// error if there is one. A vouch that fails a check is answered with a
    /// rejection, or, where it cannot even be judged, with an error. A vouch
    /// that passes is accepted at once where the configuration says so: the
    /// vouchee is stored as paired through the voucher, and the voucher is told.
    /// Otherwise it is put before the user.
    pub open spec fn vouch_requested(
        self,
        registry: RegistryView,
        vouch: IncomingVouch,
        now: Timestamp,
    ) -> (HandlerView, RegistryView, Option<ErrorView>) {
        match vouch_verdict(self.config, registry, vouch, now) {
            VerdictView::Reject { reason } => {
                let r = self.replied(registry, vouch.remote_node_id, vouch.session_id, false, Some(reason));
                (r.0, registry, r.1)
            },
            VerdictView::Fail { error } => (self, registry, Some(error)),
            VerdictView::Accept => {
                let r = self.replied(registry, vouch.remote_node_id, vouch.session_id, true, None);
                (
                    r.0,
                    registry.with_device(
                        proxied_device(
                            vouch.vouchee,
                            vouch.proxied_session_keys,
                            vouch.voucher_device_id,
                            now,
                        ),
                    ),
                    r.1,
                )
            },
            VerdictView::AskUser => (
                HandlerView {
                    pending: with_pending(
                        self.pending,
                        PendingView {
                            session_id: vouch.session_id,
                            voucher_device_id: vouch.voucher_device_id,
                            voucher_device_name: registry.device(
                                vouch.voucher_device_id,
                            ).info.device_name,
                            vouchee_device_info: vouch.vouchee,
                            vouchee_public_key: vouch.vouchee_public_key,
                            proxied_session_keys: vouch.proxied_session_keys,
                            created_at: now,
                            timeout_seconds: self.config.vouch_response_timeout,
                        },
                    ),
                    ..self
                }.emitted(
                    EventView::ProxyPairingConfirmationRequired {
                        session_id: vouch.session_id,
                        vouchee_device_name: vouch.vouchee.device_name,
                        vouchee_device_os: vouch.vouchee.os_version,
                        voucher_device_name: registry.device(
                            vouch.voucher_device_id,
                        ).info.device_name,
                        voucher_device_id: vouch.voucher_device_id,
                        expires_at: now.spec_plus_seconds(self.config.vouch_response_timeout),
                    },
                ),
                registry,
                None,
            ),
        }
    }

    /// The state and the registry after the user decided on a pending vouch,
    /// and the error if there is one. The pending entry is gone either way. An
    /// accepted vouchee is stored as paired through the voucher. The voucher is
    /// told the decision where its node is known.
    pub open spec fn vouch_confirmed(
        self,
        registry: RegistryView,
        session_id: u128,
        accepted: bool,
        now: Timestamp,
    ) -> (HandlerView, RegistryView, Option<ErrorView>) {
        if !has_pending(self.pending, session_id) {
            (self, registry, Some(ErrorView::Protocol("No pending proxy confirmation found"@)))
        } else {
            let p = pending_at(self.pending, session_id);
            let taken = HandlerView { pending: without_pending(self.pending, session_id), ..self };
            let stored = if accepted {
                registry.with_device(
                    proxied_device(
                        p.vouchee_device_info,
                        p.proxied_session_keys,
                        p.voucher_device_id,
                        now,
                    ),
                )
            } else {
                registry
            };
            match registry.node_of(p.voucher_device_id) {
                Some(node) => {
                    let r = taken.replied(
                        registry,
                        node,
                        session_id,
                        accepted,
                        if accepted {
                            None
                        } else {
                            Some("User rejected proxy pairing"@)
                        },
                    );
                    (r.0, stored, r.1)
                },
                None => (taken, stored, None),
            }
        }
    }

    /// The state after a target answered a vouch, and the error if there is
    /// one. An answer for a session that the handler does not hold changes
    /// nothing. Otherwise the vouch leaves the queue, and its status becomes
    /// accepted or rejected.
    pub open spec fn vouch_answered(
        self,
        registry: RegistryView,
        session_id: u128,
        accepting_device_id: u128,
        accepted: bool,
        reason: Option<Seq<char>>,
        now: Timestamp,
    ) -> (HandlerView, Option<ErrorView>) {
        if !has_vouching(self.vouching, session_id) {
            (self, None)
        } else {
            HandlerView {
                queue: map_queue(
                    self.queue,
                    |q: Seq<QueueEntryView>| without_entry(q, session_id, accepting_device_id),
                ),
                ..self
            }.status_updated(
                registry,
                session_id,
                accepting_device_id,
                if accepted {
                    VouchStatus::Accepted
                } else {
                    VouchStatus::Rejected
                },
                reason,
                now,
            )
        }
    }
}

/// The paired devices among the first `n` that a new device is vouched to
/// when vouching is automatic: all but the voucher and the vouchee.
pub open spec fn auto_targets_upto(registry: RegistryView, vouchee: u128, n: nat) -> Seq<u128>
    decreases n,
{
    if n == 0 {
        Seq::empty()
    } else {
        let id = registry.devices[n - 1].info.device_id;
        if id != registry.local_device.device_id && id != vouchee {
            auto_targets_upto(registry, vouchee, (n - 1) as nat).push(id)
        } else {
            auto_targets_upto(registry, vouchee, (n - 1) as nat)
        }
    }
}

/// The paired devices that a new device is vouched to when vouching is
/// automatic.
pub open spec fn auto_targets(registry: RegistryView, vouchee: u128) -> Seq<u128> {
    auto_targets_upto(registry, vouchee, registry.devices.len())
}

impl HandlerView {
    /// The state after a pairing session was started as initiator. The code is
    /// stored as the code of that session, whatever session it names itself.
    pub open spec fn pairing_started(self, session_id: u128, code: PairingCodeView, now: Timestamp) -> HandlerView {
        HandlerView {
            pairing: self.pairing.with_session(
                PairingSessionView::fresh(session_id, PairingStateView::WaitingForConnection, now),
            ).with_code(PairingCodeView { session_id, ..code }),
            ..self
        }
    }

    /// Why a pairing session cannot be joined, if it cannot: the code has
    /// expired, or the session exists already.
    pub open spec fn join_obstacle(self, session_id: u128, code: PairingCodeView, now: Timestamp) -> Option<
        ErrorView,
    > {
        if code.expired_at(now) {
            Some(code_expired_error())
        } else if self.pairing.has_session(session_id) {
            Some(session_exists_error(session_id))
        } else {
            None
        }
    }

    /// The state after a pairing session was joined. The code is stored as the
    /// code of that session, whatever session it names itself.
    pub open spec fn pairing_joined(self, session_id: u128, code: PairingCodeView, now: Timestamp) -> HandlerView {
        if self.join_obstacle(session_id, code, now) is Some {
            self
        } else {
            HandlerView {
                pairing: self.pairing.with_session(
                    PairingSessionView::fresh(session_id, PairingStateView::Scanning, now),
                ).with_code(PairingCodeView { session_id, ..code }),
                ..self
            }
        }
    }

    /// Whether a message of a direct pairing is still dealt with: a session
    /// that has failed takes no further message.
    pub open spec fn takes_direct_message(self, session_id: u128) -> bool {
        !(self.pairing.has_session(session_id) && self.pairing.session(session_id).state is Failed)
    }

    /// The state after the driver went over the pairing sessions: what it
    /// sends is added to the outbox.
    pub open spec fn pairing_driven(self, now: Timestamp) -> HandlerView {
        HandlerView {
            pairing: self.pairing.driven(now, self.outbox.open),
            outbox: OutboxView {
                messages: self.outbox.messages + self.pairing.dispatches(self.outbox.open),
                ..self.outbox
            },
            ..self
        }
    }

    /// The state after a joiner's answer to a challenge was made ready: the
    /// session's answer counts as sent, and fails at once where the device has
    /// no endpoint to send it through.
    pub open spec fn exchange_begun(self, session_id: u128) -> HandlerView {
        HandlerView {
            pairing: if self.has_endpoint {
                self.pairing.response_sent(session_id)
            } else {
                self.pairing.response_sent(session_id).failed(session_id, "No endpoint available"@)
            },
            ..self
        }
    }

    /// The state after the exchange of a joiner's answer ended.
    pub open spec fn exchange_ended(self, session_id: u128, outcome: ExchangeView) -> HandlerView {
        match outcome.failure() {
            Some(reason) => HandlerView { pairing: self.pairing.failed(session_id, reason), ..self },
            None => self,
        }
    }

    /// The state after a pending vouching session was set up for a device that
    /// was just paired directly, before any vouching: the session is reported,
    /// and so is that the device can be vouched for.
    pub open spec fn vouching_announced(
        self,
        registry: RegistryView,
        session_id: u128,
        vouchee: DeviceInfoView,
        now: Timestamp,
    ) -> HandlerView {
        let session = VouchingSessionView {
            id: session_id,
            vouchee_device_id: vouchee.device_id,
            vouchee_device_name: vouchee.device_name,
            voucher_device_id: registry.local_device.device_id,
            created_at: now,
            state: VouchingSessionState::Pending,
            vouches: Seq::empty(),
        };
        HandlerView {
            vouching: with_vouching(self.vouching, session),
            ..self
        }.emitted(EventView::VouchingSessionChanged { session }).emitted(
            EventView::ProxyPairingVouchingReady {
                session_id,
                vouchee_device_id: vouchee.device_id,
            },
        )
    }

    /// The state after a vouching session was created for a device that was
    /// just paired directly. The session is reported, and so is that the device
    /// can be vouched for. Where vouching is automatic, vouching starts at once
    /// for every other paired device; with none, the session is completed and
    /// finished at once. An error of that start is not passed on.
    pub open spec fn vouching_created(
        self,
        registry: RegistryView,
        session_id: u128,
        vouchee: DeviceInfoView,
        now: Timestamp,
    ) -> HandlerView {
        let announced = self.vouching_announced(registry, session_id, vouchee, now);
        if self.config.auto_vouch_to_all {
            announced.vouching_started(
                registry,
                session_id,
                auto_targets(registry, vouchee.device_id),
                now,
            ).0
        } else {
            announced
        }
    }

    /// The state after a direct pairing succeeded: the pairing session is
    /// completed, and a vouching session is created for the new device. A
    /// session that the handler does not hold, or that has failed, changes
    /// nothing.
    pub open spec fn pairing_completed(
        self,
        registry: RegistryView,
        session_id: u128,
        peer: DeviceInfoView,
        public_key: Seq<u8>,
        shared_secret: Option<Seq<u8>>,
        now: Timestamp,
    ) -> HandlerView {
        if self.pairing.has_session(session_id) && !(self.pairing.session(session_id).state is Failed) {
            HandlerView {
                pairing: self.pairing.completed(session_id, peer, public_key, shared_secret),
                ..self
            }.vouching_created(registry, session_id, peer, now)
        } else {
            self
        }
    }
}

/// The error for a vouch whose time of signing is not a well-formed time.
pub open spec fn invalid_timestamp_error() -> ErrorView {
    ErrorView::Protocol("Invalid vouch timestamp"@)
}

impl HandlerView {
    /// The state and the registry after a message from a node was handled, and
    /// the outcome: the message itself where it belongs to a direct pairing and
    /// is left to the caller, nothing where it was dealt with or where it
    /// belongs to a pairing session that has failed, or the error.
    pub open spec fn message_handled(
        self,
        registry: RegistryView,
        message: MessageView,
        remote_node_id: Seq<u8>,
        now: Timestamp,
    ) -> (HandlerView, RegistryView, Result<Option<MessageView>, ErrorView>) {
        match message {
            MessageView::ProxyPairingRequest {
                session_id,
                vouchee_device_info,
                vouchee_public_key,
                voucher_device_id,
                voucher_signature,
                timestamp,
                proxied_session_keys,
            } => {
                if !timestamp.wf() {
                    (self, registry, Err(invalid_timestamp_error()))
                } else {
                    let r = self.vouch_requested(
                        registry,
                        IncomingVouch {
                            session_id,
                            vouchee: vouchee_device_info,
                            vouchee_public_key,
                            voucher_device_id,
                            voucher_signature,
                            timestamp,
                            proxied_session_keys,
                            remote_node_id,
                        },
                        now,
                    );
                    (
                        r.0,
                        r.1,
                        match r.2 {
                            Some(e) => Err(e),
                            None => Ok(None),
                        },
                    )
                }
            },
            MessageView::ProxyPairingResponse { session_id, accepting_device_id, accepted, reason } => {
                let r = self.vouch_answered(
                    registry,
                    session_id,
                    accepting_device_id,
                    accepted,
                    reason,
                    now,
                );
                (
                    r.0,
                    registry,
                    match r.1 {
                        Some(e) => Err(e),
                        None => Ok(None),
                    },
                )
            },
            MessageView::ProxyPairingComplete {
                session_id,
                voucher_device_id,
                accepted_by,
                rejected_by,
            } => (
                self,
                accepted_stored_upto(registry, voucher_device_id, accepted_by, now, accepted_by.len()),
                Ok(None),
            ),
            _ => {
                if self.takes_direct_message(message.session_id()) {
                    (self, registry, Ok(Some(message)))
                } else {
                    (self, registry, Ok(None))
                }
            },
        }
    }
}

impl HandlerView {
    /// The document that the voucher signs when it sends a queued vouch again.
    pub open spec fn queued_payload(entry: QueueEntryView, now: Timestamp) -> VouchPayloadView {
        VouchPayloadView {
            vouchee_device_id: entry.vouchee_device_info.device_id,
            vouchee_public_key: entry.vouchee_public_key,
            vouchee_device_info: entry.vouchee_device_info,
            timestamp: now,
            session_id: entry.session_id,
        }
    }

    /// The request that is sent again for a queued vouch, under the given
    /// signature.
    pub open spec fn queued_request(entry: QueueEntryView, signature: Seq<u8>, now: Timestamp) -> MessageView {
        MessageView::ProxyPairingRequest {
            session_id: entry.session_id,
            vouchee_device_info: entry.vouchee_device_info,
            vouchee_public_key: entry.vouchee_public_key,
            voucher_device_id: entry.voucher_device_id,
            voucher_signature: signature,
            timestamp: now,
            proxied_session_keys: entry.proxied_session_keys,
        }
    }

    /// The state after a queued vouch left the queue as undeliverable, and the
    /// error if there is one: the vouch becomes unreachable for the given
    /// reason.
    pub open spec fn given_up(
        self,
        registry: RegistryView,
        entry: QueueEntryView,
        reason: Seq<char>,
        now: Timestamp,
    ) -> (HandlerView, Option<ErrorView>) {
        HandlerView {
            queue: map_queue(
                self.queue,
                |q: Seq<QueueEntryView>| without_entry(q, entry.session_id, entry.target_device_id),
            ),
            ..self
        }.status_updated(
            registry,
            entry.session_id,
            entry.target_device_id,
            VouchStatus::Unreachable,
            Some(reason),
            now,
        )
    }

    /// Whether a vouch that waits for its answer has waited too long.
    pub open spec fn response_overdue(self, entry: QueueEntryView, now: Timestamp) -> bool {
        entry.last_attempt_at matches Some(t) && now.as_nanos() - t.as_nanos()
            > self.config.vouch_response_timeout * 1_000_000_000
    }

    /// The state after the drainer looked at one queued vouch, and the error if
    /// there is one. In this order: a vouch whose session is gone is dropped; a
    /// vouch that has expired, has used up its retries, or has waited too long
    /// for its answer is given up; a vouch that waits for its answer is left
    /// alone; a queued vouch whose target can be reached is signed anew and sent
    /// again and waits from now on, and stays queued with one more retry where
    /// the send fails.
    pub open spec fn drained(
        self,
        registry: RegistryView,
        entry: QueueEntryView,
        now: Timestamp,
    ) -> (HandlerView, Option<ErrorView>) {
        if !has_vouching(self.vouching, entry.session_id) {
            (
                HandlerView {
                    queue: map_queue(
                        self.queue,
                        |q: Seq<QueueEntryView>|
                            without_entry(q, entry.session_id, entry.target_device_id),
                    ),
                    ..self
                },
                None,
            )
        } else if entry.expired_at(now) {
            self.given_up(registry, entry, "Vouch expired"@, now)
        } else if entry.retry_count >= self.config.vouch_queue_retry_limit {
            self.given_up(registry, entry, "Vouch retry limit exceeded"@, now)
        } else if entry.status == VouchQueueStatus::Waiting {
            if self.response_overdue(entry, now) {
                self.given_up(registry, entry, "Proxy response timeout"@, now)
            } else {
                (self, None)
            }
        } else if !self.can_reach(registry, entry.target_device_id) {
            (self, None)
        } else if payload_signature(self.secret_key, Self::queued_payload(entry, now)) is None {
            (self, Some(encoding_error()))
        } else if !self.outbox.open {
            (
                HandlerView {
                    queue: map_queue(
                        self.queue,
                        |q: Seq<QueueEntryView>|
                            with_delivery(
                                q,
                                entry.session_id,
                                entry.target_device_id,
                                VouchQueueStatus::Queued,
                                (entry.retry_count + 1) as u32,
                                Some(now),
                            ),
                    ),
                    ..self
                },
                None,
            )
        } else {
            HandlerView {
                queue: map_queue(
                    self.queue,
                    |q: Seq<QueueEntryView>|
                        with_delivery(
                            q,
                            entry.session_id,
                            entry.target_device_id,
                            VouchQueueStatus::Waiting,
                            (entry.retry_count + 1) as u32,
                            Some(now),
                        ),
                ),
                ..self.sent(
                    registry.node_of(entry.target_device_id)->0,
                    Self::queued_request(
                        entry,
                        payload_signature(self.secret_key, Self::queued_payload(entry, now))->0,
                        now,
                    ),
                )
            }.status_updated(
                registry,
                entry.session_id,
                entry.target_device_id,
                VouchStatus::Waiting,
                None,
                now,
            )
        }
    }

    /// The state after the drainer looked at the first `n` of the given
    /// entries, and the error that stopped it, if there is one.
    pub open spec fn drained_upto(
        self,
        registry: RegistryView,
        entries: Seq<QueueEntryView>,
        now: Timestamp,
        n: nat,
    ) -> (HandlerView, Option<ErrorView>)
        decreases n,
    {
        if n == 0 {
            (self, None)
        } else {
            let before = self.drained_upto(registry, entries, now, (n - 1) as nat);
            if before.1 is Some {
                before
            } else {
                before.0.drained(registry, entries[n - 1], now)
            }
        }
    }

    /// The state after one pass of the drainer over the queue as it stands, and
    /// the error if there is one. Without a queue nothing happens.
    pub open spec fn queue_drained(self, registry: RegistryView, now: Timestamp) -> (
        HandlerView,
        Option<ErrorView>,
    ) {
        match self.queue {
            None => (self, None),
            Some(q) => self.drained_upto(registry, q, now, q.len()),
        }
    }

    /// The state after the vouchers of the first `n` of the given vouches were
    /// told that the user's time ran out. A voucher whose node is not known is
    /// not told.
    pub open spec fn timeouts_notified_upto(
        self,
        registry: RegistryView,
        timed_out: Seq<PendingView>,
        n: nat,
    ) -> HandlerView
        decreases n,
    {
        if n == 0 {
            self
        } else {
            let before = self.timeouts_notified_upto(registry, timed_out, (n - 1) as nat);
            match registry.node_of(timed_out[n - 1].voucher_device_id) {
                Some(node) => before.sent(
                    node,
                    vouch_response(
                        registry,
                        timed_out[n - 1].session_id,
                        false,
                        Some("Proxy confirmation timed out"@),
                    ),
                ),
                None => before,
            }
        }
    }

    /// The state after the pending vouches whose time has run out were dropped
    /// and their vouchers told.
    pub open spec fn confirmations_expired(self, registry: RegistryView, now: Timestamp) -> HandlerView {
        HandlerView {
            pending: timed_out_upto(self.pending, now, false, self.pending.len()),
            ..self
        }.timeouts_notified_upto(
            registry,
            timed_out_upto(self.pending, now, true, self.pending.len()),
            timed_out_upto(self.pending, now, true, self.pending.len()).len(),
        )
    }

    /// The state after the first `n` of the given vouching sessions were
    /// dropped: each session is gone with its keys, and its deletion is
    /// reported.
    pub open spec fn sessions_dropped_upto(self, due: Seq<ScheduledCleanup>, n: nat) -> HandlerView
        decreases n,
    {
        if n == 0 {
            self
        } else {
            let before = self.sessions_dropped_upto(due, (n - 1) as nat);
            HandlerView {
                vouching: without_vouching(before.vouching, due[n - 1].session_id),
                keys: without_session_keys(before.keys, due[n - 1].session_id),
                ..before
            }.emitted(EventView::VouchingSessionDeleted { session_id: due[n - 1].session_id })
        }
    }

    /// The state after the vouching sessions that are due were dropped.
    pub open spec fn vouching_cleaned(self, now: Timestamp) -> HandlerView {
        HandlerView {
            cleanup: due_upto(self.cleanup, now, false, self.cleanup.len()),
            ..self
        }.sessions_dropped_upto(
            due_upto(self.cleanup, now, true, self.cleanup.len()),
            due_upto(self.cleanup, now, true, self.cleanup.len()).len(),
        )
    }
}

/// Once the drainer has stopped on an error, it stays stopped.
pub proof fn lemma_drained_upto_stops(
    h: HandlerView,
    registry: RegistryView,
    entries: Seq<QueueEntryView>,
    now: Timestamp,
    n: nat,
    m: nat,
)
    requires
        n <= m,
        h.drained_upto(registry, entries, now, n).1 is Some,
    ensures
        h.drained_upto(registry, entries, now, m) == h.drained_upto(registry, entries, now, n),
    decreases m,
{
    if n < m {
        lemma_drained_upto_stops(h, registry, entries, now, n, (m - 1) as nat);
    }
}

/// Once vouching has stopped on an error, it stays stopped: going over more
/// targets changes nothing.
pub proof fn lemma_vouched_upto_stops(
    h: HandlerView,
    registry: RegistryView,
    ctx: VouchContext,
    targets: Seq<u128>,
    n: nat,
    m: nat,
)
    requires
        n <= m,
        h.vouched_upto(registry, ctx, targets, n).1 is Some,
    ensures
        h.vouched_upto(registry, ctx, targets, m) == h.vouched_upto(registry, ctx, targets, n),
    decreases m,
{
    if n < m {
        lemma_vouched_upto_stops(h, registry, ctx, targets, n, (m - 1) as nat);
    }
}

} // verus!
