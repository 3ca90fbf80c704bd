//! What holds of the pairing rules as a whole.
//!
//! Each statement here is proved from the definitions in the other modules. The
//! statements speak of the mathematical state of the handler, which every
//! operation of the handler is bound to by its contract.

use crate::config::ProxyPairingConfig;
use crate::crypto::PUBLIC_KEY_LENGTH;
use crate::crypto::SIGNATURE_LENGTH;
use crate::crypto::ed25519_key_decodes;
use crate::crypto::ed25519_verifies;
use crate::device::DeviceInfoView;
use crate::device::RegistryView;
use crate::device::SessionKeysView;
use crate::device::device_ids;
use crate::error::ErrorView;
use crate::keyed::distinct;
use crate::keyed::lemma_distinct;
use crate::keyed::lemma_index_of_unique;
use crate::keyed::lemma_push_unique;
use crate::keys::payload_encoding;
use crate::keys::payload_signature;
use crate::keys::signature_check;
use crate::proxy::VouchPayloadView;
use crate::messages::EventView;
use crate::messages::MessageView;
use crate::messages::OutboundView;
use crate::model::HandlerView;
use crate::model::VouchContext;
use crate::model::map_queue;
use crate::model::auto_targets;
use crate::model::auto_targets_upto;
use crate::model::named_targets;
use crate::model::proxied_device;
use crate::model::vouch_response;
use crate::pending::ScheduledCleanup;
use crate::proxy::VouchStateView;
use crate::proxy::VouchStatus;
use crate::proxy::VouchingSessionState;
use crate::proxy::VouchingSessionView;
use crate::proxy::all_terminal;
use crate::proxy::lemma_started_wf;
use crate::proxy::lemma_with_status_wf;
use crate::proxy::vouch_ids;
use crate::sessions::SessionsView;
use crate::sessions::driven;
use crate::sessions::session_ids;
use crate::time::Timestamp;
use crate::types::PairingSessionView;
use crate::verdict::IncomingVouch;
use crate::verdict::VerdictView;
use crate::verdict::vouch_verdict;
use crate::vouching::CachedKeysView;
use crate::vouching::accepted_upto;
use crate::vouching::has_vouching;
use crate::vouching::lemma_other_sessions;
use crate::vouching::lemma_with_vouching;
use crate::vouching::rejected_upto;
use crate::vouching::vouching_at;
use crate::vouching::vouching_ids;
use crate::vouching::vouching_wf;
use crate::vouching::with_keys;
use crate::vouching::with_vouching;
use crate::vouching_queue::QueueEntryView;
use crate::vouching_queue::VouchQueueStatus;
use crate::vouching_queue::entry_keys;
use crate::vouching_queue::has_entry;
use crate::vouching_queue::lemma_remove_entry;
use crate::vouching_queue::queue_wf;
use crate::vouching_queue::upserted;
use crate::vouching_queue::upserted_all;
use crate::vouching_queue::with_delivery;
use crate::vouching_queue::without_entry;
use crate::device::lemma_with_device;
use crate::device::PairingType;
use crate::model::accepted_stored_upto;
use crate::proxy::AcceptedDeviceView;
use vstd::prelude::*;

verus! {

/// A vouching session is completed exactly when every one of its vouches is
/// final. This holds of every well-formed session but one that was created and
/// has no targets yet: that one is pending, though none of its vouches is open.
pub proof fn law_completed_iff_all_vouches_final(s: VouchingSessionView)
    requires
        s.wf(),
        !(s.state == VouchingSessionState::Pending && s.vouches.len() == 0),
    ensures
        s.state == VouchingSessionState::Completed <==> all_terminal(s.vouches),
{
}

/// Every vouching session that a well-formed handler holds is well-formed, and
/// so is completed exactly when every one of its vouches is final (a pending
/// session without targets aside).
pub proof fn law_handler_sessions_are_well_formed(h: HandlerView, session_id: u128)
    requires
        h.wf(),
        has_vouching(h.vouching, session_id),
    ensures
        vouching_at(h.vouching, session_id).wf(),
        vouching_at(h.vouching, session_id).id == session_id,
{
    let i = vouching_ids(h.vouching).index_of(session_id);
    assert(0 <= i < h.vouching.len() && vouching_ids(h.vouching)[i] == session_id);
    assert(h.vouching[i].wf());
}

/// A vouch that has reached its final status keeps it, and a completed session
/// stays as it is: no change of a vouch is taken any more.
pub proof fn law_final_vouches_stay(
    s: VouchingSessionView,
    device_id: u128,
    status: VouchStatus,
    reason: Option<Seq<char>>,
    now: Timestamp,
)
    requires
        s.wf(),
        s.state == VouchingSessionState::Completed || (s.has_vouch(device_id) && s.vouch(
            device_id,
        ).status.spec_is_terminal()),
    ensures
        s.with_status(device_id, status, reason, now) == s,
{
}

/// The driver never moves a pairing session backwards: it keeps the session's
/// identifier and time of creation, and leaves its state where it is or moves
/// it on, to a later step or to failure.
pub proof fn law_driver_only_advances(s: PairingSessionView, now: Timestamp, channel_open: bool)
    ensures
        driven(s, now, channel_open).id == s.id,
        driven(s, now, channel_open).created_at == s.created_at,
        driven(s, now, channel_open).state.rank() >= s.state.rank(),
        s.state is Failed || s.state is Completed ==> driven(s, now, channel_open) == s,
{
}

/// Failing a session, completing it, and recording that its answer was sent
/// keep the session's identifier and time of creation and never move its state
/// backwards; a failed session stays as it is.
pub proof fn law_session_states_only_advance(
    table: SessionsView,
    id: u128,
    reason: Seq<char>,
    peer: DeviceInfoView,
    public_key: Seq<u8>,
    shared_secret: Option<Seq<u8>>,
)
    requires
        table.wf(),
        table.has_session(id),
    ensures
        ({
            let before = table.session(id);
            let failed = table.failed(id, reason);
            let sent = table.response_sent(id);
            let completed = table.completed(id, peer, public_key, shared_secret);
            &&& failed.has_session(id) && sent.has_session(id) && completed.has_session(id)
            &&& failed.session(id).state.rank() >= before.state.rank()
            &&& sent.session(id).state.rank() >= before.state.rank()
            &&& completed.session(id).state.rank() >= before.state.rank()
            &&& failed.session(id).id == id && failed.session(id).created_at == before.created_at
            &&& sent.session(id).id == id && sent.session(id).created_at == before.created_at
            &&& completed.session(id).id == id && completed.session(id).created_at
                == before.created_at
            &&& before.state is Failed ==> failed == table && sent == table && completed == table
        }),
{
    let ids = session_ids(table.sessions);
    let i = ids.index_of(id);
    assert(0 <= i < ids.len() && ids[i] == id);
    assert(table.sessions[i].id == id);
    let failed = table.failed(id, reason);
    let sent = table.response_sent(id);
    let completed = table.completed(id, peer, public_key, shared_secret);
    assert(session_ids(failed.sessions) =~= ids);
    assert(session_ids(sent.sessions) =~= ids);
    assert(session_ids(completed.sessions) =~= ids);
}

/// Exchanging send and receive gives the peer's view of a pair of keys: the
/// peer sends with the key that this side receives with, and the other way
/// round. Exchanging twice gives the pair back, and keys that differ still
/// differ after the exchange.
pub proof fn law_swapped_keys_are_the_peers_view(keys: SessionKeysView)
    ensures
        keys.swapped().send_key == keys.receive_key,
        keys.swapped().receive_key == keys.send_key,
        keys.swapped().swapped() == keys,
        keys.wf() <==> keys.swapped().wf(),
{
}

/// The keys that a voucher caches for the vouchee are the keys that it sends
/// to the target with send and receive exchanged, and both pairs are made of
/// two different keys: vouching stops with an error where the derivation
/// yields anything else.
pub proof fn law_vouched_keys_differ(
    h: HandlerView,
    registry: RegistryView,
    ctx: VouchContext,
    target: u128,
    signature: Seq<u8>,
)
    requires
        target != ctx.voucher,
        target != ctx.vouchee.device_id,
        registry.is_paired(target),
        h.vouched(registry, ctx, target).1 is None,
    ensures
        ctx.receiver_keys(target).wf(),
        ctx.receiver_keys(target).swapped().wf(),
        ctx.request(target, signature) matches MessageView::ProxyPairingRequest {
            proxied_session_keys,
            ..
        }
            && proxied_session_keys == ctx.receiver_keys(target),
{
    if !ctx.receiver_keys(target).wf() {
        assert(h.vouched(registry, ctx, target).1 is Some);
    }
}

/// A queue that is read back entry by entry is the queue that was stored: the
/// same entries in the same order.
pub proof fn law_queue_survives_reload(entries: Seq<QueueEntryView>, n: nat)
    requires
        queue_wf(entries),
        n <= entries.len(),
    ensures
        upserted_all(Seq::empty(), entries, n) == entries.subrange(0, n as int),
    decreases n,
{
    if n == 0 {
        assert(entries.subrange(0, 0) =~= Seq::<QueueEntryView>::empty());
    } else {
        law_queue_survives_reload(entries, (n - 1) as nat);
        let prev = entries.subrange(0, n - 1);
        let e = entries[n - 1];
        assert(entry_keys(prev) =~= entry_keys(entries).subrange(0, n - 1));
        if has_entry(prev, e.session_id, e.target_device_id) {
            let j = choose|j: int| 0 <= j < prev.len() && entry_keys(prev)[j] == e.key();
            assert(entry_keys(entries)[j] == entry_keys(entries)[n - 1]);
        }
        assert(upserted(prev, e) =~= entries.subrange(0, n as int));
    }
}

/// The signature check of a vouch passes exactly when the key has 32 bytes and
/// is the encoding of a curve point, the signature has 64 bytes, the payload
/// can be encoded, and the signature verifies the encoded payload under the
/// key.
pub proof fn law_valid_signature_passes_check(
    payload: VouchPayloadView,
    signature: Seq<u8>,
    public_key: Seq<u8>,
)
    ensures
        signature_check(payload, signature, public_key) == Ok::<bool, ErrorView>(true) <==> (
        public_key.len() == PUBLIC_KEY_LENGTH && signature.len() == SIGNATURE_LENGTH
            && ed25519_key_decodes(public_key) && payload_encoding(payload) is Some
            && ed25519_verifies(public_key, payload_encoding(payload)->0, signature)),
{
}

/// A vouch for a device that is paired already is never accepted and never
/// put before the user.
pub proof fn law_paired_vouchee_is_refused(
    config: ProxyPairingConfig,
    registry: RegistryView,
    vouch: IncomingVouch,
    now: Timestamp,
)
    requires
        registry.is_paired(vouch.vouchee.device_id),
    ensures
        !(vouch_verdict(config, registry, vouch, now) is Accept),
        !(vouch_verdict(config, registry, vouch, now) is AskUser),
{
}

/// After a vouch was accepted, the same vouch is rejected because the device
/// is paired already, and changes nothing but the outbox: the registry, the
/// sessions, the queue and the pending vouches stay as they are.
pub proof fn law_repeated_vouch_is_rejected(
    h: HandlerView,
    registry: RegistryView,
    vouch: IncomingVouch,
    now: Timestamp,
)
    requires
        registry.wf(),
        vouch_verdict(h.config, registry, vouch, now) is Accept,
    ensures
        ({
            let first = h.vouch_requested(registry, vouch, now);
            let second = first.0.vouch_requested(first.1, vouch, now);
            &&& first.1.wf()
            &&& first.1.is_paired(vouch.vouchee.device_id)
            &&& vouch_verdict(first.0.config, first.1, vouch, now) == (VerdictView::Reject {
                reason: "Device already paired"@,
            })
            &&& second.1 == first.1
            &&& second.0 == (HandlerView { outbox: second.0.outbox, ..first.0 })
            &&& first.0.outbox.open ==> second.0.outbox.messages == first.0.outbox.messages.push(
                OutboundView::Message {
                    node_id: vouch.remote_node_id,
                    message: vouch_response(
                        first.1,
                        vouch.session_id,
                        false,
                        Some("Device already paired"@),
                    ),
                },
            )
        }),
{
    let device = proxied_device(vouch.vouchee, vouch.proxied_session_keys, vouch.voucher_device_id, now);
    let stored = registry.with_device(device);
    let ids = device_ids(registry.devices);
    assert(!registry.is_paired(vouch.vouchee.device_id));
    assert(registry.is_paired(vouch.voucher_device_id));
    assert(device_ids(stored.devices) =~= ids.push(vouch.vouchee.device_id));
    lemma_push_unique(ids, vouch.vouchee.device_id);
    lemma_index_of_unique(device_ids(stored.devices), vouch.vouchee.device_id, ids.len() as int);
    let v = ids.index_of(vouch.voucher_device_id);
    assert(0 <= v < ids.len() && ids[v] == vouch.voucher_device_id);
    lemma_index_of_unique(device_ids(stored.devices), vouch.voucher_device_id, v);
    assert(stored.devices[v] == registry.devices[v]);
}

/// Starting to vouch without targets completes the session at once, and the
/// report to the vouchee names no device: none accepted, none rejected.
pub proof fn law_vouching_without_targets_completes(
    h: HandlerView,
    registry: RegistryView,
    session_id: u128,
    now: Timestamp,
)
    requires
        h.wf(),
        h.vouching_obstacle(session_id) is None,
    ensures
        ({
            let r = h.vouching_started(registry, session_id, Seq::empty(), now);
            let vouchee = h.vouching_base(registry, session_id, now).vouchee_device_id;
            &&& has_vouching(r.0.vouching, session_id)
            &&& vouching_at(r.0.vouching, session_id).state == VouchingSessionState::Completed
            &&& vouching_at(r.0.vouching, session_id).vouches.len() == 0
            &&& h.completion_message(registry, session_id) is ProxyPairingComplete
            &&& (registry.node_of(vouchee) is Some && h.outbox.open) ==> (r.1 is Ok
                && r.0.outbox.messages == h.outbox.messages.push(
                OutboundView::Message {
                    node_id: registry.node_of(vouchee)->0,
                    message: MessageView::ProxyPairingComplete {
                        session_id,
                        voucher_device_id: h.vouching_base(
                            registry,
                            session_id,
                            now,
                        ).voucher_device_id,
                        accepted_by: Seq::empty(),
                        rejected_by: Seq::empty(),
                    },
                },
            ))
        }),
{
    let targets = Seq::<u128>::empty();
    assert(distinct(targets) =~= Seq::<u128>::empty());
    let named = named_targets(registry, distinct(targets));
    assert(named =~= Seq::<(u128, Seq<char>)>::empty());
    let base = h.vouching_base(registry, session_id, now);
    assert(named.map_values(|t: (u128, Seq<char>)| t.0) =~= Seq::<u128>::empty());
    lemma_started_wf(base, named, now);
    let seeded = base.started(named, now);
    assert(seeded.vouches =~= Seq::<VouchStateView>::empty());
    if has_vouching(h.vouching, session_id) {
        law_handler_sessions_are_well_formed(h, session_id);
    }
    assert(seeded.id == session_id);
    lemma_with_vouching(h.vouching, seeded);
    let begun = HandlerView { vouching: with_vouching(h.vouching, seeded), ..h }.emitted(
        EventView::VouchingSessionChanged { session: seeded },
    );
    assert(vouching_at(begun.vouching, session_id) == seeded);
    assert(accepted_upto(seeded.vouches, registry, begun.keys, session_id, 0) =~= Seq::empty());
    assert(rejected_upto(seeded.vouches, 0) =~= Seq::empty());
}

/// Finishing a vouching session leaves no key of the session in the cache,
/// schedules the session to be dropped an hour later, and keeps the session
/// itself as it is, so that it can still be looked at. The keys of other
/// sessions stay.
pub proof fn law_finalization_purges_keys(
    h: HandlerView,
    registry: RegistryView,
    session_id: u128,
    now: Timestamp,
)
    requires
        h.finalized(registry, session_id, now).1 is None,
    ensures
        ({
            let after = h.finalized(registry, session_id, now).0;
            &&& after.vouching == h.vouching
            &&& forall|i: int| 0 <= i < after.keys.len() ==> (#[trigger] after.keys[i]).session_id != session_id
            &&& after.cleanup == h.cleanup.push(
                ScheduledCleanup { session_id, due: now.spec_plus_seconds(3600) },
            )
            &&& after.queue == h.queue
            &&& after.pairing == h.pairing
        }),
{
    lemma_other_sessions(h.keys, session_id, h.keys.len());
}

/// A change of one vouch that the session takes shows in the state afterwards:
/// the session holds the vouch with its new status and reason, whether or not
/// the change finished the session.
pub proof fn law_status_update_shows(
    h: HandlerView,
    registry: RegistryView,
    session_id: u128,
    device_id: u128,
    status: VouchStatus,
    reason: Option<Seq<char>>,
    now: Timestamp,
)
    requires
        h.wf(),
        has_vouching(h.vouching, session_id),
        vouching_at(h.vouching, session_id).accepts_update(device_id),
    ensures
        ({
            let after = h.status_updated(registry, session_id, device_id, status, reason, now).0;
            &&& has_vouching(after.vouching, session_id)
            &&& vouching_at(after.vouching, session_id) == vouching_at(
                h.vouching,
                session_id,
            ).with_status(device_id, status, reason, now)
            &&& vouching_at(after.vouching, session_id).has_vouch(device_id)
            &&& vouching_at(after.vouching, session_id).vouch(device_id).status == status
            &&& vouching_at(after.vouching, session_id).vouch(device_id).reason == reason
            &&& after.queue == h.queue
        }),
{
    law_handler_sessions_are_well_formed(h, session_id);
    let s = vouching_at(h.vouching, session_id);
    let changed = s.with_status(device_id, status, reason, now);
    lemma_with_status_wf(s, device_id, status, reason, now);
    lemma_with_vouching(h.vouching, changed);
    let vouches = changed.vouches;
    if s.has_vouch(device_id) {
        let i = vouch_ids(s.vouches).index_of(device_id);
        assert(0 <= i < s.vouches.len() && vouch_ids(s.vouches)[i] == device_id);
        assert(vouch_ids(vouches) =~= vouch_ids(s.vouches));
        lemma_index_of_unique(vouch_ids(vouches), device_id, i);
    } else {
        assert(vouch_ids(vouches) =~= vouch_ids(s.vouches).push(device_id));
        lemma_index_of_unique(vouch_ids(vouches), device_id, s.vouches.len() as int);
    }
}

/// How the first round of vouching leaves one target: rejected where the target
/// is the voucher or the vouchee, or is not paired; waiting where the request
/// could be sent; queued otherwise.
pub open spec fn first_round_outcome(
    h: HandlerView,
    registry: RegistryView,
    ctx: VouchContext,
    target: u128,
) -> (VouchStatus, Option<Seq<char>>) {
    if target == ctx.voucher || target == ctx.vouchee.device_id {
        (VouchStatus::Rejected, Some("Invalid vouch target"@))
    } else if !registry.is_paired(target) {
        (VouchStatus::Rejected, Some("Target device not paired"@))
    } else if h.can_reach(registry, target) && h.outbox.open {
        (VouchStatus::Waiting, None)
    } else {
        (VouchStatus::Queued, None)
    }
}

/// Where a session stands in the middle of the first round: the first `n`
/// targets have their outcome, and the others are still selected.
pub open spec fn first_round_upto(
    start: HandlerView,
    h: HandlerView,
    registry: RegistryView,
    ctx: VouchContext,
    targets: Seq<u128>,
    n: nat,
) -> bool {
    &&& vouching_wf(h.vouching)
    &&& has_vouching(h.vouching, ctx.session_id)
    &&& h.outbox.open == start.outbox.open
    &&& h.has_endpoint == start.has_endpoint
    &&& vouch_ids(vouching_at(h.vouching, ctx.session_id).vouches) == targets
    &&& vouching_at(h.vouching, ctx.session_id).state != VouchingSessionState::Pending
    &&& forall|j: int|
        0 <= j < n && j < targets.len() ==> {
            let v = #[trigger] vouching_at(h.vouching, ctx.session_id).vouches[j];
            (v.status, v.reason) == first_round_outcome(start, registry, ctx, targets[j])
        }
    &&& forall|j: int|
        n <= j < targets.len() ==> (#[trigger] vouching_at(
            h.vouching,
            ctx.session_id,
        ).vouches[j]).status == VouchStatus::Selected
}

/// A change of one vouch that the session takes replaces the session by the
/// changed one and touches no other session, and leaves the channel and the
/// endpoint as they are.
pub proof fn lemma_status_update_effect(
    h: HandlerView,
    registry: RegistryView,
    session_id: u128,
    device_id: u128,
    status: VouchStatus,
    reason: Option<Seq<char>>,
    now: Timestamp,
)
    requires
        vouching_wf(h.vouching),
        has_vouching(h.vouching, session_id),
        vouching_at(h.vouching, session_id).accepts_update(device_id),
    ensures
        ({
            let after = h.status_updated(registry, session_id, device_id, status, reason, now).0;
            &&& vouching_wf(after.vouching)
            &&& has_vouching(after.vouching, session_id)
            &&& vouching_at(after.vouching, session_id) == vouching_at(
                h.vouching,
                session_id,
            ).with_status(device_id, status, reason, now)
            &&& after.outbox.open == h.outbox.open
            &&& after.has_endpoint == h.has_endpoint
            &&& after.queue == h.queue
        }),
{
    let i = vouching_ids(h.vouching).index_of(session_id);
    assert(0 <= i < h.vouching.len() && vouching_ids(h.vouching)[i] == session_id);
    assert(h.vouching[i].wf());
    let s = vouching_at(h.vouching, session_id);
    let changed = s.with_status(device_id, status, reason, now);
    lemma_with_status_wf(s, device_id, status, reason, now);
    lemma_with_vouching(h.vouching, changed);
}

/// Vouching to one target that the session still has as selected gives the
/// target its outcome and touches no other vouch.
pub proof fn lemma_vouched_effect(
    start: HandlerView,
    h: HandlerView,
    registry: RegistryView,
    ctx: VouchContext,
    targets: Seq<u128>,
    n: nat,
)
    requires
        n < targets.len(),
        targets.no_duplicates(),
        first_round_upto(start, h, registry, ctx, targets, n),
        h.vouched(registry, ctx, targets[n as int]).1 is None,
    ensures
        first_round_upto(
            start,
            h.vouched(registry, ctx, targets[n as int]).0,
            registry,
            ctx,
            targets,
            n + 1,
        ),
{
    let sid = ctx.session_id;
    let target = targets[n as int];
    let s = vouching_at(h.vouching, sid);
    let i = vouching_ids(h.vouching).index_of(sid);
    assert(0 <= i < h.vouching.len() && vouching_ids(h.vouching)[i] == sid);
    assert(h.vouching[i].wf());
    assert(vouch_ids(s.vouches)[n as int] == target);
    lemma_index_of_unique(vouch_ids(s.vouches), target, n as int);
    assert(s.vouches[n as int].status == VouchStatus::Selected);
    assert(!all_terminal(s.vouches));
    assert(s.accepts_update(target));
    let outcome = first_round_outcome(start, registry, ctx, target);
    let after = h.vouched(registry, ctx, target).0;
    // Whatever was stored and sent before the status changed left the
    // vouching sessions, the channel and the endpoint alone.
    let signature = payload_signature(h.secret_key, ctx.payload())->0;
    let stored = HandlerView {
        keys: with_keys(
            h.keys,
            CachedKeysView {
                session_id: sid,
                device_id: target,
                keys: ctx.receiver_keys(target).swapped(),
            },
        ),
        queue: map_queue(
            h.queue,
            |q: Seq<QueueEntryView>| upserted(q, ctx.queue_entry(target, signature)),
        ),
        ..h
    };
    let sent = HandlerView {
        queue: map_queue(
            stored.queue,
            |q: Seq<QueueEntryView>|
                with_delivery(
                    q,
                    sid,
                    target,
                    VouchQueueStatus::Waiting,
                    1,
                    Some(ctx.now),
                ),
        ),
        ..stored.sent(registry.node_of(target)->0, ctx.request(target, signature))
    };
    lemma_status_update_effect(h, registry, sid, target, outcome.0, outcome.1, ctx.now);
    lemma_status_update_effect(stored, registry, sid, target, outcome.0, outcome.1, ctx.now);
    lemma_status_update_effect(sent, registry, sid, target, outcome.0, outcome.1, ctx.now);
    let changed = s.with_status(target, outcome.0, outcome.1, ctx.now);
    assert(vouching_at(after.vouching, sid) == changed);
    assert(vouch_ids(changed.vouches) =~= targets);
    assert forall|j: int| 0 <= j < n + 1 && j < targets.len() implies {
        let v = #[trigger] vouching_at(after.vouching, sid).vouches[j];
        (v.status, v.reason) == first_round_outcome(start, registry, ctx, targets[j])
    } by {
        if j < n {
            assert(changed.vouches[j] == s.vouches[j]);
        }
    }
    assert forall|j: int| n + 1 <= j < targets.len() implies (#[trigger] vouching_at(
        after.vouching,
        sid,
    ).vouches[j]).status == VouchStatus::Selected by {
        assert(changed.vouches[j] == s.vouches[j]);
    }
}

/// Vouching to the first `n` targets without an error gives each of them its
/// outcome and leaves the others selected.
pub proof fn lemma_first_round(
    start: HandlerView,
    registry: RegistryView,
    ctx: VouchContext,
    targets: Seq<u128>,
    n: nat,
)
    requires
        n <= targets.len(),
        targets.no_duplicates(),
        first_round_upto(start, start, registry, ctx, targets, 0),
        start.vouched_upto(registry, ctx, targets, n).1 is None,
    ensures
        first_round_upto(
            start,
            start.vouched_upto(registry, ctx, targets, n).0,
            registry,
            ctx,
            targets,
            n,
        ),
    decreases n,
{
    if n > 0 {
        let before = start.vouched_upto(registry, ctx, targets, (n - 1) as nat);
        lemma_first_round(start, registry, ctx, targets, (n - 1) as nat);
        lemma_vouched_effect(start, before.0, registry, ctx, targets, (n - 1) as nat);
    }
}

/// The first round of vouching leaves no target behind: when vouching has
/// started without an error, the session holds one vouch for each target,
/// repeated targets counted once and in the order given, and each vouch is
/// rejected, waiting or queued as the target's outcome says. None is left
/// selected.
pub proof fn law_first_round_settles_every_target(
    h: HandlerView,
    registry: RegistryView,
    session_id: u128,
    targets: Seq<u128>,
    now: Timestamp,
)
    requires
        h.wf(),
        h.vouching_started(registry, session_id, targets, now).1 is Ok,
    ensures
        ({
            let session = h.vouching_started(registry, session_id, targets, now).1->Ok_0;
            let ctx = h.vouch_context(registry, session_id, now);
            &&& session.wf()
            &&& session.id == session_id
            &&& session.state != VouchingSessionState::Pending
            &&& vouch_ids(session.vouches) == distinct(targets)
            &&& forall|j: int|
                0 <= j < session.vouches.len() ==> {
                    let v = #[trigger] session.vouches[j];
                    &&& (v.status, v.reason) == first_round_outcome(
                        h,
                        registry,
                        ctx,
                        distinct(targets)[j],
                    )
                    &&& v.status != VouchStatus::Selected
                }
        }),
{
    let chosen = distinct(targets);
    lemma_distinct(targets, targets.len());
    let named = named_targets(registry, chosen);
    let base = h.vouching_base(registry, session_id, now);
    assert(named.map_values(|t: (u128, Seq<char>)| t.0) =~= chosen);
    lemma_started_wf(base, named, now);
    let seeded = base.started(named, now);
    if has_vouching(h.vouching, session_id) {
        law_handler_sessions_are_well_formed(h, session_id);
    }
    assert(seeded.id == session_id);
    lemma_with_vouching(h.vouching, seeded);
    let begun = HandlerView { vouching: with_vouching(h.vouching, seeded), ..h }.emitted(
        EventView::VouchingSessionChanged { session: seeded },
    );
    let ctx = h.vouch_context(registry, session_id, now);
    assert(vouch_ids(seeded.vouches) =~= chosen);
    if chosen.len() == 0 {
        assert(begun.finalized(registry, session_id, now).0.vouching == begun.vouching);
    } else {
        let done = begun.vouched_upto(registry, ctx, chosen, chosen.len());
        assert(first_round_upto(begun, begun, registry, ctx, chosen, 0));
        lemma_first_round(begun, registry, ctx, chosen, chosen.len());
        let session = vouching_at(done.0.vouching, session_id);
        let i = vouching_ids(done.0.vouching).index_of(session_id);
        assert(0 <= i < done.0.vouching.len() && vouching_ids(done.0.vouching)[i] == session_id);
        assert(done.0.vouching[i].wf());
        assert forall|j: int| 0 <= j < session.vouches.len() implies {
            let v = #[trigger] session.vouches[j];
            &&& (v.status, v.reason) == first_round_outcome(h, registry, ctx, chosen[j])
            &&& v.status != VouchStatus::Selected
        } by {
            assert(vouch_ids(session.vouches)[j] == chosen[j]);
            assert(first_round_outcome(begun, registry, ctx, chosen[j]) == first_round_outcome(
                h,
                registry,
                ctx,
                chosen[j],
            ));
        }
    }
}

/// A target's answer settles its vouch: where the session takes the change,
/// the vouch is accepted or rejected as the target said, with the target's
/// reason, and the queue holds no entry for the target any more.
pub proof fn law_answer_settles_vouch(
    h: HandlerView,
    registry: RegistryView,
    session_id: u128,
    accepting_device_id: u128,
    accepted: bool,
    reason: Option<Seq<char>>,
    now: Timestamp,
)
    requires
        h.wf(),
        has_vouching(h.vouching, session_id),
        vouching_at(h.vouching, session_id).accepts_update(accepting_device_id),
    ensures
        ({
            let after = h.vouch_answered(
                registry,
                session_id,
                accepting_device_id,
                accepted,
                reason,
                now,
            ).0;
            let vouch = vouching_at(after.vouching, session_id).vouch(accepting_device_id);
            &&& vouching_at(after.vouching, session_id).has_vouch(accepting_device_id)
            &&& vouch.status == if accepted {
                VouchStatus::Accepted
            } else {
                VouchStatus::Rejected
            }
            &&& vouch.reason == reason
            &&& after.queue matches Some(q) ==> !has_entry(q, session_id, accepting_device_id)
        }),
{
    let removed = HandlerView {
        queue: map_queue(
            h.queue,
            |q: Seq<QueueEntryView>| without_entry(q, session_id, accepting_device_id),
        ),
        ..h
    };
    match h.queue {
        Some(q) => {
            lemma_remove_entry(q, session_id, accepting_device_id);
        },
        None => {},
    }
    law_status_update_shows(
        removed,
        registry,
        session_id,
        accepting_device_id,
        if accepted {
            VouchStatus::Accepted
        } else {
            VouchStatus::Rejected
        },
        reason,
        now,
    );
}

/// Whether one of the first `n` targets refused or could not be reached and is
/// the given device.
pub open spec fn failed_among(vouches: Seq<VouchStateView>, n: nat, device_id: u128) -> bool {
    exists|j: int| 0 <= j < n && (#[trigger] vouches[j]).failed() && vouches[j].device_id == device_id
}

/// The report that ends a vouching session names every target that refused or
/// could not be reached, with the reason recorded for it or "Vouch rejected"
/// where none was; and it names no other device as rejected.
pub proof fn law_report_names_the_rejected(vouches: Seq<VouchStateView>, n: nat)
    requires
        n <= vouches.len(),
    ensures
        rejected_upto(vouches, n).len() <= n,
        forall|j: int|
            0 <= j < n && (#[trigger] vouches[j]).failed() ==> rejected_upto(vouches, n).contains(
                vouches[j].rejection(),
            ),
        forall|k: int|
            0 <= k < rejected_upto(vouches, n).len() ==> failed_among(
                vouches,
                n,
                (#[trigger] rejected_upto(vouches, n)[k]).device_id,
            ),
    decreases n,
{
    if n > 0 {
        law_report_names_the_rejected(vouches, (n - 1) as nat);
        let prev = rejected_upto(vouches, (n - 1) as nat);
        let this = rejected_upto(vouches, n);
        assert forall|j: int| 0 <= j < n && (#[trigger] vouches[j]).failed() implies this.contains(
            vouches[j].rejection(),
        ) by {
            if j < n - 1 {
                let k = choose|k: int| 0 <= k < prev.len() && prev[k] == vouches[j].rejection();
                assert(this[k] == prev[k]);
            } else {
                assert(this[prev.len() as int] == vouches[j].rejection());
            }
        }
        assert forall|k: int| 0 <= k < this.len() implies failed_among(
            vouches,
            n,
            (#[trigger] this[k]).device_id,
        ) by {
            if k < prev.len() {
                assert(this[k] == prev[k]);
                assert(failed_among(vouches, (n - 1) as nat, prev[k].device_id));
                let j = choose|j: int|
                    0 <= j < n - 1 && (#[trigger] vouches[j]).failed() && vouches[j].device_id
                        == prev[k].device_id;
                assert(0 <= j < n && vouches[j].failed());
            } else {
                assert(vouches[n - 1].failed());
                assert(this[k] == vouches[n - 1].rejection());
            }
        }
    }
}

/// After a voucher's report was taken in, every device that the report names
/// as accepting is paired: it is found in the registry as paired through the
/// voucher, trusted, with the description and the keys that the report gives
/// for it. Where the report names a device more than once, the last mention
/// counts. Devices that the report does not name as accepting are found as
/// before, and the registry stays well-formed.
pub proof fn law_accepted_devices_are_stored(
    registry: RegistryView,
    voucher: u128,
    accepted_by: Seq<AcceptedDeviceView>,
    now: Timestamp,
    n: nat,
)
    requires
        registry.wf(),
        n <= accepted_by.len(),
    ensures
        accepted_stored_upto(registry, voucher, accepted_by, now, n).wf(),
        accepted_stored_upto(registry, voucher, accepted_by, now, n).local_device
            == registry.local_device,
        forall|i: int|
            0 <= i < n && (forall|j: int|
                i < j < n ==> accepted_by[j].device_info.device_id
                    != accepted_by[i].device_info.device_id) ==> {
                let after = accepted_stored_upto(registry, voucher, accepted_by, now, n);
                let id = (#[trigger] accepted_by[i]).device_info.device_id;
                &&& after.is_paired(id)
                &&& after.device(id) == proxied_device(
                    accepted_by[i].device_info,
                    accepted_by[i].session_keys,
                    voucher,
                    now,
                )
                &&& after.device(id).pairing_type == PairingType::Proxied
                &&& after.device(id).vouched_by == Some(voucher)
            },
        forall|id: u128|
            #![trigger accepted_stored_upto(registry, voucher, accepted_by, now, n).is_paired(id)]
            (forall|i: int| 0 <= i < n ==> accepted_by[i].device_info.device_id != id) ==> {
                &&& accepted_stored_upto(registry, voucher, accepted_by, now, n).is_paired(id)
                    <==> registry.is_paired(id)
                &&& registry.is_paired(id) ==> accepted_stored_upto(
                    registry,
                    voucher,
                    accepted_by,
                    now,
                    n,
                ).device(id) == registry.device(id)
            },
    decreases n,
{
    if n > 0 {
        law_accepted_devices_are_stored(registry, voucher, accepted_by, now, (n - 1) as nat);
        let before = accepted_stored_upto(registry, voucher, accepted_by, now, (n - 1) as nat);
        let last = accepted_by[n - 1];
        let stored = proxied_device(last.device_info, last.session_keys, voucher, now);
        lemma_with_device(before, stored);
        let after = before.with_device(stored);
        assert(after == accepted_stored_upto(registry, voucher, accepted_by, now, n));
        assert forall|i: int|
            0 <= i < n && (forall|j: int|
                i < j < n ==> accepted_by[j].device_info.device_id
                    != accepted_by[i].device_info.device_id) implies {
            let id = (#[trigger] accepted_by[i]).device_info.device_id;
            &&& after.is_paired(id)
            &&& after.device(id) == proxied_device(
                accepted_by[i].device_info,
                accepted_by[i].session_keys,
                voucher,
                now,
            )
            &&& after.device(id).pairing_type == PairingType::Proxied
            &&& after.device(id).vouched_by == Some(voucher)
        } by {
            let id = accepted_by[i].device_info.device_id;
            if i < n - 1 {
                assert(accepted_by[n - 1].device_info.device_id != id);
                assert(before.is_paired(id));
                assert(after.is_paired(id));
                assert(after.device(id) == before.device(id));
            }
        }
        assert forall|id: u128|
            #![trigger after.is_paired(id)]
            (forall|i: int| 0 <= i < n ==> accepted_by[i].device_info.device_id != id) implies {
            &&& after.is_paired(id) <==> registry.is_paired(id)
            &&& registry.is_paired(id) ==> after.device(id) == registry.device(id)
        } by {
            assert(accepted_by[n - 1].device_info.device_id != id);
            assert(before.is_paired(id) <==> registry.is_paired(id));
            assert(after.is_paired(id) <==> before.is_paired(id));
            if registry.is_paired(id) {
                assert(after.device(id) == before.device(id));
            }
        }
    }
}

/// The devices that a new device is vouched to when vouching is automatic are
/// the paired devices other than this device and the new one, each once, in
/// the order of the registry.
pub proof fn lemma_auto_targets(registry: RegistryView, vouchee: u128, n: nat)
    requires
        registry.wf(),
        n <= registry.devices.len(),
    ensures
        auto_targets_upto(registry, vouchee, n).no_duplicates(),
        forall|id: u128|
            auto_targets_upto(registry, vouchee, n).contains(id) <==> (id
                != registry.local_device.device_id && id != vouchee && exists|i: int|
                0 <= i < n && device_ids(registry.devices)[i] == id),
    decreases n,
{
    if n > 0 {
        lemma_auto_targets(registry, vouchee, (n - 1) as nat);
        let prev = auto_targets_upto(registry, vouchee, (n - 1) as nat);
        let this = auto_targets_upto(registry, vouchee, n);
        let ids = device_ids(registry.devices);
        let last = registry.devices[n - 1].info.device_id;
        assert(ids[n - 1] == last);
        let taken = last != registry.local_device.device_id && last != vouchee;
        if taken {
            if prev.contains(last) {
                let i = choose|i: int| 0 <= i < n - 1 && ids[i] == last;
                assert(ids[i] == ids[n - 1]);
            }
            lemma_push_unique(prev, last);
        }
        assert forall|id: u128|
            this.contains(id) <==> (id != registry.local_device.device_id && id != vouchee
                && exists|i: int| 0 <= i < n && ids[i] == id) by {
            if this.contains(id) {
                let k = choose|k: int| 0 <= k < this.len() && this[k] == id;
                if k < prev.len() {
                    assert(prev[k] == id);
                    assert(prev.contains(id));
                    let i = choose|i: int| 0 <= i < n - 1 && ids[i] == id;
                    assert(0 <= i < n && ids[i] == id);
                } else {
                    assert(id == last);
                }
            }
            if id != registry.local_device.device_id && id != vouchee && exists|i: int|
                0 <= i < n && ids[i] == id {
                let i = choose|i: int| 0 <= i < n && ids[i] == id;
                if i < n - 1 {
                    assert(prev.contains(id));
                    let k = choose|k: int| 0 <= k < prev.len() && prev[k] == id;
                    assert(this[k] == id);
                } else {
                    assert(this[prev.len() as int] == id);
                }
            }
        }
    }
}

/// Where vouching is automatic and starts without an error, the vouching
/// session that is created for a new device does not stay pending, and holds
/// one vouch for every paired device other than this device and the new one:
/// with no such device, the session is completed at once.
pub proof fn law_automatic_vouching_reaches_every_other_device(
    h: HandlerView,
    registry: RegistryView,
    session_id: u128,
    vouchee: DeviceInfoView,
    now: Timestamp,
)
    requires
        h.wf(),
        registry.wf(),
        h.config.auto_vouch_to_all,
        h.vouching_announced(registry, session_id, vouchee, now).vouching_started(
            registry,
            session_id,
            auto_targets(registry, vouchee.device_id),
            now,
        ).1 is Ok,
    ensures
        ({
            let after = h.vouching_created(registry, session_id, vouchee, now);
            let session = vouching_at(after.vouching, session_id);
            &&& has_vouching(after.vouching, session_id)
            &&& session.state != VouchingSessionState::Pending
            &&& vouch_ids(session.vouches) == auto_targets(registry, vouchee.device_id)
            &&& auto_targets(registry, vouchee.device_id).no_duplicates()
            &&& auto_targets(registry, vouchee.device_id).len() == 0 ==> session.state
                == VouchingSessionState::Completed
            &&& forall|id: u128|
                session.has_vouch(id) <==> (registry.is_paired(id) && id
                    != registry.local_device.device_id && id != vouchee.device_id)
        }),
{
    let targets = auto_targets(registry, vouchee.device_id);
    let fresh = VouchingSessionView {
        id: session_id,
        vouchee_device_id: vouchee.device_id,
        vouchee_device_name: vouchee.device_name,
        voucher_device_id: registry.local_device.device_id,
        created_at: now,
        state: VouchingSessionState::Pending,
        vouches: Seq::empty(),
    };
    assert(vouch_ids(fresh.vouches) =~= Seq::<u128>::empty());
    lemma_with_vouching(h.vouching, fresh);
    let created = h.vouching_announced(registry, session_id, vouchee, now);
    assert(created.wf());
    lemma_auto_targets(registry, vouchee.device_id, registry.devices.len());
    lemma_distinct(targets, targets.len());
    assert(targets.subrange(0, targets.len() as int) =~= targets);
    law_first_round_settles_every_target(created, registry, session_id, targets, now);
    let started = created.vouching_started(registry, session_id, targets, now);
    assert(has_vouching(started.0.vouching, session_id));
    let session = vouching_at(started.0.vouching, session_id);
    if targets.len() == 0 {
        assert(all_terminal(session.vouches));
    }
    assert forall|id: u128|
        session.has_vouch(id) <==> (registry.is_paired(id) && id != registry.local_device.device_id
            && id != vouchee.device_id) by {
        if registry.is_paired(id) {
            let i = choose|i: int|
                0 <= i < device_ids(registry.devices).len() && device_ids(registry.devices)[i]
                    == id;
            assert(0 <= i < registry.devices.len() && device_ids(registry.devices)[i] == id);
        }
    }
}

/// A target that is the voucher itself or the vouchee is rejected as an
/// invalid target: nothing is sent to it, and nothing is stored in the queue
/// for it.
pub proof fn law_invalid_target_is_rejected(
    h: HandlerView,
    registry: RegistryView,
    ctx: VouchContext,
    target: u128,
)
    requires
        h.wf(),
        target == ctx.voucher || target == ctx.vouchee.device_id,
        has_vouching(h.vouching, ctx.session_id),
        vouching_at(h.vouching, ctx.session_id).accepts_update(target),
    ensures
        ({
            let after = h.vouched(registry, ctx, target).0;
            &&& vouching_at(after.vouching, ctx.session_id).has_vouch(target)
            &&& vouching_at(after.vouching, ctx.session_id).vouch(target).status
                == VouchStatus::Rejected
            &&& vouching_at(after.vouching, ctx.session_id).vouch(target).reason == Some(
                "Invalid vouch target"@,
            )
            &&& after.queue == h.queue
            &&& h.vouched(registry, ctx, target) == h.status_updated(
                registry,
                ctx.session_id,
                target,
                VouchStatus::Rejected,
                Some("Invalid vouch target"@),
                ctx.now,
            )
        }),
{
    law_status_update_shows(
        h,
        registry,
        ctx.session_id,
        target,
        VouchStatus::Rejected,
        Some("Invalid vouch target"@),
        ctx.now,
    );
}

/// The queue after an entry was given up does not hold the entry any more.
pub proof fn lemma_given_up_leaves_queue(
    h: HandlerView,
    registry: RegistryView,
    entry: QueueEntryView,
    reason: Seq<char>,
    now: Timestamp,
)
    requires
        h.wf(),
        has_vouching(h.vouching, entry.session_id),
        vouching_at(h.vouching, entry.session_id).accepts_update(entry.target_device_id),
    ensures
        ({
            let after = h.given_up(registry, entry, reason, now).0;
            &&& after.queue matches Some(q) ==> !has_entry(
                q,
                entry.session_id,
                entry.target_device_id,
            )
            &&& after.queue is Some <==> h.queue is Some
            &&& vouching_at(after.vouching, entry.session_id).has_vouch(entry.target_device_id)
            &&& vouching_at(after.vouching, entry.session_id).vouch(
                entry.target_device_id,
            ).status == VouchStatus::Unreachable
            &&& vouching_at(after.vouching, entry.session_id).vouch(
                entry.target_device_id,
            ).reason == Some(reason)
        }),
{
    let removed = HandlerView {
        queue: map_queue(
            h.queue,
            |q: Seq<QueueEntryView>| without_entry(q, entry.session_id, entry.target_device_id),
        ),
        ..h
    };
    match h.queue {
        Some(q) => {
            lemma_remove_entry(q, entry.session_id, entry.target_device_id);
        },
        None => {},
    }
    law_status_update_shows(
        removed,
        registry,
        entry.session_id,
        entry.target_device_id,
        VouchStatus::Unreachable,
        Some(reason),
        now,
    );
}

/// A queued vouch that has used up its retries is given up when the drainer
/// comes to it: it leaves the queue, and its status becomes unreachable.
pub proof fn law_retry_limit_gives_up(
    h: HandlerView,
    registry: RegistryView,
    entry: QueueEntryView,
    now: Timestamp,
)
    requires
        h.wf(),
        has_vouching(h.vouching, entry.session_id),
        vouching_at(h.vouching, entry.session_id).accepts_update(entry.target_device_id),
        !entry.expired_at(now),
        entry.retry_count >= h.config.vouch_queue_retry_limit,
    ensures
        ({
            let after = h.drained(registry, entry, now).0;
            &&& after.queue matches Some(q) ==> !has_entry(
                q,
                entry.session_id,
                entry.target_device_id,
            )
            &&& vouching_at(after.vouching, entry.session_id).vouch(
                entry.target_device_id,
            ).status == VouchStatus::Unreachable
            &&& vouching_at(after.vouching, entry.session_id).vouch(
                entry.target_device_id,
            ).reason == Some("Vouch retry limit exceeded"@)
        }),
{
    lemma_given_up_leaves_queue(h, registry, entry, "Vouch retry limit exceeded"@, now);
}

/// A queued vouch that has expired is given up when the drainer comes to it,
/// whatever the registry says of the target: whether the target is paired,
/// connected or known as a node makes no difference.
pub proof fn law_expiry_gives_up(
    h: HandlerView,
    registry: RegistryView,
    entry: QueueEntryView,
    now: Timestamp,
)
    requires
        h.wf(),
        has_vouching(h.vouching, entry.session_id),
        vouching_at(h.vouching, entry.session_id).accepts_update(entry.target_device_id),
        entry.expired_at(now),
    ensures
        ({
            let after = h.drained(registry, entry, now).0;
            &&& after.queue matches Some(q) ==> !has_entry(
                q,
                entry.session_id,
                entry.target_device_id,
            )
            &&& vouching_at(after.vouching, entry.session_id).vouch(
                entry.target_device_id,
            ).status == VouchStatus::Unreachable
            &&& vouching_at(after.vouching, entry.session_id).vouch(
                entry.target_device_id,
            ).reason == Some("Vouch expired"@)
        }),
{
    lemma_given_up_leaves_queue(h, registry, entry, "Vouch expired"@, now);
}

} // verus!
