//! What the first round of vouching leaves in the queue, in the key cache and
//! in the outbox, target by target.

use crate::device::RegistryView;
use crate::keys::payload_signature;
use crate::laws::first_round_outcome;
use crate::laws::first_round_upto;
use crate::laws::law_handler_sessions_are_well_formed;
use crate::laws::lemma_first_round;
use crate::laws::lemma_status_update_effect;
use crate::laws::lemma_vouched_effect;
use crate::messages::EventView;
use crate::messages::OutboundView;
use crate::model::map_queue;
use crate::model::named_targets;
use crate::model::HandlerView;
use crate::model::VouchContext;
use crate::keyed::distinct;
use crate::keyed::lemma_distinct;
use crate::keyed::lemma_index_of_unique;
use crate::proxy::all_terminal;
use crate::proxy::lemma_started_wf;
use crate::proxy::vouch_ids;
use crate::proxy::VouchStatus;
use crate::time::Timestamp;
use crate::vouching::has_keys;
use crate::vouching::has_vouching;
use crate::vouching::key_ids;
use crate::vouching::keys_at;
use crate::vouching::lemma_with_keys;
use crate::vouching::lemma_with_vouching;
use crate::vouching::lemma_without_keys;
use crate::vouching::lemma_without_session_keys;
use crate::vouching::vouching_at;
use crate::vouching::vouching_ids;
use crate::vouching::with_keys;
use crate::vouching::with_vouching;
use crate::vouching::without_keys;
use crate::vouching::without_session_keys;
use crate::vouching::CachedKeysView;
use crate::vouching_queue::entry_index;
use crate::vouching_queue::entry_same;
use crate::vouching_queue::has_entry;
use crate::vouching_queue::law_upsert_keeps_one_entry_per_key;
use crate::vouching_queue::lemma_upserted_frame;
use crate::vouching_queue::lemma_with_delivery_frame;
use crate::vouching_queue::lemma_with_delivery_wf;
use crate::vouching_queue::queue_wf;
use crate::vouching_queue::upserted;
use crate::vouching_queue::with_delivery;
use crate::vouching_queue::QueueEntryView;
use crate::vouching_queue::VouchQueueStatus;
use vstd::prelude::*;

verus! {

/// The queue entry that the first round leaves for a target that it could not
/// reject: the entry as it was stored, and marked as sent once where the
/// request went out.
pub open spec fn first_round_entry(
    ctx: VouchContext,
    target: u128,
    signature: Seq<u8>,
    status: VouchStatus,
) -> QueueEntryView {
    if status == VouchStatus::Waiting {
        QueueEntryView {
            status: VouchQueueStatus::Waiting,
            retry_count: 1,
            last_attempt_at: Some(ctx.now),
            ..ctx.queue_entry(target, signature)
        }
    } else {
        ctx.queue_entry(target, signature)
    }
}

/// What the first round leaves behind for one target. For a rejected target:
/// no cached keys, and the queue holds for it what it held before. For any
/// other target: the vouchee's keys are cached, and the queue, where there is
/// one, holds the target's entry, queued without a retry or waiting after one
/// attempt, good for seven days.
pub open spec fn target_settled(
    start: HandlerView,
    h: HandlerView,
    registry: RegistryView,
    ctx: VouchContext,
    target: u128,
) -> bool {
    let status = first_round_outcome(start, registry, ctx, target).0;
    let signature = payload_signature(start.secret_key, ctx.payload())->0;
    if status == VouchStatus::Rejected {
        &&& !has_keys(h.keys, ctx.session_id, target)
        &&& queue_untouched(start, h, ctx.session_id, target)
    } else {
        &&& has_keys(h.keys, ctx.session_id, target)
        &&& keys_at(h.keys, ctx.session_id, target) == ctx.receiver_keys(target).swapped()
        &&& h.queue matches Some(q) ==> has_entry(q, ctx.session_id, target) && q[entry_index(
            q,
            ctx.session_id,
            target,
        )] == first_round_entry(ctx, target, signature, status)
    }
}

/// Whether the queue holds for a session and target what it held at the start.
pub open spec fn queue_untouched(start: HandlerView, h: HandlerView, session_id: u128, target: u128) -> bool {
    start.queue matches Some(before) ==> (h.queue matches Some(after) && entry_same(
        after,
        before,
        session_id,
        target,
    ))
}

/// The requests that the first round sends for the first `n` targets, in
/// order: one to the node of every target that can be reached, and none for any
/// other target.
pub open spec fn requests_upto(
    start: HandlerView,
    registry: RegistryView,
    ctx: VouchContext,
    targets: Seq<u128>,
    n: nat,
) -> Seq<OutboundView>
    decreases n,
{
    if n == 0 {
        Seq::empty()
    } else if first_round_outcome(start, registry, ctx, targets[n - 1]).0 == VouchStatus::Waiting {
        requests_upto(start, registry, ctx, targets, (n - 1) as nat).push(
            OutboundView::Message {
                node_id: registry.node_of(targets[n - 1])->0,
                message: ctx.request(
                    targets[n - 1],
                    payload_signature(start.secret_key, ctx.payload())->0,
                ),
            },
        )
    } else {
        requests_upto(start, registry, ctx, targets, (n - 1) as nat)
    }
}

/// Whether a list of messages is another with one more at its end, which is the
/// report that ends a vouching session.
pub open spec fn report_added(before: Seq<OutboundView>, after: Seq<OutboundView>) -> bool {
    &&& after.len() == before.len() + 1
    &&& after.drop_last() == before
    &&& after.last() matches OutboundView::Message { message, .. }
    &&& message is ProxyPairingComplete
}

/// Whether the messages of a state are those of the start, then the requests
/// for the first `n` targets, and then, where the round is over and has
/// completed the session, the report to the vouchee.
pub open spec fn round_messages(
    start: HandlerView,
    h: HandlerView,
    registry: RegistryView,
    ctx: VouchContext,
    targets: Seq<u128>,
    n: nat,
) -> bool {
    let sent = start.outbox.messages + requests_upto(start, registry, ctx, targets, n);
    ||| h.outbox.messages == sent
    ||| (n == targets.len() && report_added(sent, h.outbox.messages))
}

/// Where the stores stand in the middle of the first round: the first `n`
/// targets are settled, the queue holds for the others what it held at the
/// start, and the outbox holds the requests for the first `n` targets.
pub open spec fn first_round_stores_upto(
    start: HandlerView,
    h: HandlerView,
    registry: RegistryView,
    ctx: VouchContext,
    targets: Seq<u128>,
    n: nat,
) -> bool {
    &&& h.secret_key == start.secret_key
    &&& (h.queue is Some <==> start.queue is Some)
    &&& h.queue matches Some(q) ==> queue_wf(q)
    &&& n < targets.len() ==> key_ids(h.keys).no_duplicates()
    &&& forall|j: int|
        0 <= j < n && j < targets.len() ==> target_settled(
            start,
            h,
            registry,
            ctx,
            #[trigger] targets[j],
        )
    &&& forall|j: int|
        n <= j < targets.len() ==> queue_untouched(start, h, ctx.session_id, #[trigger] targets[j])
    &&& round_messages(start, h, registry, ctx, targets, n)
}

/// What a change of one vouch that the session takes, and that ends without an
/// error, does to the stores: the queue and the identity stay; the keys of the
/// target are dropped where the target refused or could not be reached; and
/// where the change completes the session, the session's keys are dropped and
/// at most the report to the vouchee is sent.
pub proof fn lemma_status_update_stores(
    h: HandlerView,
    registry: RegistryView,
    session_id: u128,
    device_id: u128,
    status: VouchStatus,
    reason: Option<Seq<char>>,
    now: Timestamp,
)
    requires
        has_vouching(h.vouching, session_id),
        vouching_at(h.vouching, session_id).accepts_update(device_id),
        h.status_updated(registry, session_id, device_id, status, reason, now).1 is None,
    ensures
        ({
            let after = h.status_updated(registry, session_id, device_id, status, reason, now).0;
            let completes = vouching_at(h.vouching, session_id).completes_with(
                device_id,
                status,
                reason,
                now,
            );
            let kept = if status == VouchStatus::Rejected || status == VouchStatus::Unreachable {
                without_keys(h.keys, session_id, device_id)
            } else {
                h.keys
            };
            &&& after.secret_key == h.secret_key
            &&& after.queue == h.queue
            &&& !completes ==> after.keys == kept && after.outbox.messages == h.outbox.messages
            &&& completes ==> after.keys == without_session_keys(kept, session_id)
            &&& completes ==> (after.outbox.messages == h.outbox.messages || report_added(
                h.outbox.messages,
                after.outbox.messages,
            ))
        }),
{
    let s = vouching_at(h.vouching, session_id);
    let changed = s.with_status(device_id, status, reason, now);
    let kept = if status == VouchStatus::Rejected || status == VouchStatus::Unreachable {
        without_keys(h.keys, session_id, device_id)
    } else {
        h.keys
    };
    let updated = HandlerView { keys: kept, vouching: with_vouching(h.vouching, changed), ..h }.emitted(
        EventView::VouchingSessionChanged { session: changed },
    );
    if s.completes_with(device_id, status, reason, now) {
        let after = updated.finalized(registry, session_id, now).0;
        let vouchee = vouching_at(updated.vouching, session_id).vouchee_device_id;
        if registry.node_of(vouchee) is Some {
            assert(after.outbox.messages == updated.outbox.messages.push(
                OutboundView::Message {
                    node_id: registry.node_of(vouchee)->0,
                    message: updated.completion_message(registry, session_id),
                },
            ));
            assert(after.outbox.messages.drop_last() =~= h.outbox.messages);
        }
    }
}

/// In the middle of the first round the next target still takes a change of
/// its vouch: the session is not completed and the vouch is selected.
pub proof fn lemma_next_target_is_open(
    start: HandlerView,
    h: HandlerView,
    registry: RegistryView,
    ctx: VouchContext,
    targets: Seq<u128>,
    n: nat,
)
    requires
        n < targets.len(),
        targets.no_duplicates(),
        first_round_upto(start, h, registry, ctx, targets, n),
    ensures
        vouching_at(h.vouching, ctx.session_id).wf(),
        vouching_at(h.vouching, ctx.session_id).accepts_update(targets[n as int]),
        vouching_at(h.vouching, ctx.session_id).has_vouch(targets[n as int]),
        vouch_ids(vouching_at(h.vouching, ctx.session_id).vouches).index_of(targets[n as int]) == n,
{
    let sid = ctx.session_id;
    let target = targets[n as int];
    let s = vouching_at(h.vouching, sid);
    let i = vouching_ids(h.vouching).index_of(sid);
    assert(0 <= i < h.vouching.len() && vouching_ids(h.vouching)[i] == sid);
    assert(h.vouching[i].wf());
    assert(vouch_ids(s.vouches)[n as int] == target);
    lemma_index_of_unique(vouch_ids(s.vouches), target, n as int);
    assert(s.vouches[n as int].status == VouchStatus::Selected);
    assert(!all_terminal(s.vouches));
}

/// A round that the last change completed has rejected every target.
pub proof fn lemma_completed_round_rejected_all(
    start: HandlerView,
    after: HandlerView,
    registry: RegistryView,
    ctx: VouchContext,
    targets: Seq<u128>,
    n: nat,
)
    requires
        n <= targets.len(),
        first_round_upto(start, after, registry, ctx, targets, n),
        all_terminal(vouching_at(after.vouching, ctx.session_id).vouches),
    ensures
        n == targets.len(),
        forall|j: int|
            0 <= j < targets.len() ==> first_round_outcome(
                start,
                registry,
                ctx,
                #[trigger] targets[j],
            ).0 == VouchStatus::Rejected,
{
    let vouches = vouching_at(after.vouching, ctx.session_id).vouches;
    assert(vouch_ids(vouches).len() == targets.len());
    if n < targets.len() {
        assert(vouches[n as int].status.spec_is_terminal());
    }
    assert forall|j: int| 0 <= j < targets.len() implies first_round_outcome(
        start,
        registry,
        ctx,
        #[trigger] targets[j],
    ).0 == VouchStatus::Rejected by {
        assert(vouches[j].status.spec_is_terminal());
    }
}

/// Rejecting the next target of the first round keeps the stores as the round
/// leaves them: nothing is cached, queued or sent for the target.
pub proof fn lemma_rejected_target_stores(
    start: HandlerView,
    h: HandlerView,
    registry: RegistryView,
    ctx: VouchContext,
    targets: Seq<u128>,
    n: nat,
)
    requires
        n < targets.len(),
        targets.no_duplicates(),
        first_round_upto(start, h, registry, ctx, targets, n),
        first_round_stores_upto(start, h, registry, ctx, targets, n),
        first_round_outcome(start, registry, ctx, targets[n as int]).0 == VouchStatus::Rejected,
        h.vouched(registry, ctx, targets[n as int]).1 is None,
    ensures
        first_round_stores_upto(
            start,
            h.vouched(registry, ctx, targets[n as int]).0,
            registry,
            ctx,
            targets,
            n + 1,
        ),
{
    let sid = ctx.session_id;
    let target = targets[n as int];
    let outcome = first_round_outcome(start, registry, ctx, target);
    let s = vouching_at(h.vouching, sid);
    let after = h.vouched(registry, ctx, target).0;
    lemma_next_target_is_open(start, h, registry, ctx, targets, n);
    lemma_vouched_effect(start, h, registry, ctx, targets, n);
    assert(h.vouched(registry, ctx, target) == h.status_updated(
        registry,
        sid,
        target,
        VouchStatus::Rejected,
        outcome.1,
        ctx.now,
    ));
    lemma_status_update_stores(h, registry, sid, target, VouchStatus::Rejected, outcome.1, ctx.now);
    lemma_status_update_effect(
        h,
        registry,
        sid,
        target,
        VouchStatus::Rejected,
        outcome.1,
        ctx.now,
    );
    let completes = s.completes_with(target, VouchStatus::Rejected, outcome.1, ctx.now);
    let kept = without_keys(h.keys, sid, target);
    if completes {
        lemma_completed_round_rejected_all(start, after, registry, ctx, targets, n + 1);
    }
    assert forall|j: int| 0 <= j < n + 1 && j < targets.len() implies target_settled(
        start,
        after,
        registry,
        ctx,
        #[trigger] targets[j],
    ) by {
        let t = targets[j];
        if j < n {
            assert(target_settled(start, h, registry, ctx, targets[j]));
        }
        lemma_without_keys(h.keys, sid, target, sid, t);
        if completes {
            lemma_without_session_keys(kept, sid, kept.len(), sid, t);
        }
    }
    assert forall|j: int| n + 1 <= j < targets.len() implies queue_untouched(
        start,
        after,
        sid,
        #[trigger] targets[j],
    ) by {
        assert(queue_untouched(start, h, sid, targets[j]));
    }
    if !completes {
        lemma_without_keys(h.keys, sid, target, sid, target);
    }
    assert(requests_upto(start, registry, ctx, targets, n + 1) == requests_upto(
        start,
        registry,
        ctx,
        targets,
        n,
    ));
}

/// Vouching to the next target of the first round, where the target is not
/// rejected, caches the vouchee's keys for it, stores its queue entry, and sends
/// the request where the target can be reached; what the round left for the
/// other targets stays.
pub proof fn lemma_vouched_target_stores(
    start: HandlerView,
    h: HandlerView,
    registry: RegistryView,
    ctx: VouchContext,
    targets: Seq<u128>,
    n: nat,
)
    requires
        n < targets.len(),
        targets.no_duplicates(),
        ctx.now.wf(),
        first_round_upto(start, h, registry, ctx, targets, n),
        first_round_stores_upto(start, h, registry, ctx, targets, n),
        first_round_outcome(start, registry, ctx, targets[n as int]).0 != VouchStatus::Rejected,
        h.vouched(registry, ctx, targets[n as int]).1 is None,
    ensures
        first_round_stores_upto(
            start,
            h.vouched(registry, ctx, targets[n as int]).0,
            registry,
            ctx,
            targets,
            n + 1,
        ),
{
    let sid = ctx.session_id;
    let target = targets[n as int];
    let outcome = first_round_outcome(start, registry, ctx, target);
    let s = vouching_at(h.vouching, sid);
    let after = h.vouched(registry, ctx, target).0;
    lemma_next_target_is_open(start, h, registry, ctx, targets, n);
    lemma_vouched_effect(start, h, registry, ctx, targets, n);
    let signature = payload_signature(h.secret_key, ctx.payload())->0;
    let cached = CachedKeysView {
        session_id: sid,
        device_id: target,
        keys: ctx.receiver_keys(target).swapped(),
    };
    let entry = ctx.queue_entry(target, signature);
    let stored = HandlerView {
        keys: with_keys(h.keys, cached),
        queue: map_queue(h.queue, |q: Seq<QueueEntryView>| upserted(q, entry)),
        ..h
    };
    let sent = HandlerView {
        queue: map_queue(
            stored.queue,
            |q: Seq<QueueEntryView>|
                with_delivery(q, sid, target, VouchQueueStatus::Waiting, 1, Some(ctx.now)),
        ),
        ..stored.sent(registry.node_of(target)->0, ctx.request(target, signature))
    };
    let waits = outcome.0 == VouchStatus::Waiting;
    let last = if waits {
        sent
    } else {
        stored
    };
    assert(h.vouched(registry, ctx, target) == last.status_updated(
        registry,
        sid,
        target,
        outcome.0,
        None,
        ctx.now,
    ));
    assert(vouching_at(last.vouching, sid) == s);
    let changed = s.vouches_with_status(target, outcome.0, None, ctx.now);
    assert(!changed[n as int].status.spec_is_terminal());
    assert(!s.completes_with(target, outcome.0, None, ctx.now));
    lemma_status_update_stores(last, registry, sid, target, outcome.0, None, ctx.now);
    assert(after.keys == stored.keys);
    assert(after.queue == last.queue);
    assert(entry.wf());
    assert forall|j: int| 0 <= j < n + 1 && j < targets.len() implies target_settled(
        start,
        after,
        registry,
        ctx,
        #[trigger] targets[j],
    ) by {
        let t = targets[j];
        if j < n {
            assert(target_settled(start, h, registry, ctx, targets[j]));
        } else {
            assert(queue_untouched(start, h, sid, targets[j]));
        }
        lemma_with_keys(h.keys, cached, sid, t);
        if h.queue is Some {
            let q = h.queue->0;
            law_upsert_keeps_one_entry_per_key(q, entry);
            lemma_with_delivery_frame(
                upserted(q, entry),
                sid,
                target,
                VouchQueueStatus::Waiting,
                1,
                Some(ctx.now),
                sid,
                t,
            );
            if j < n {
                lemma_upserted_frame(q, entry, sid, t);
            }
        }
    }
    assert forall|j: int| n + 1 <= j < targets.len() implies queue_untouched(
        start,
        after,
        sid,
        #[trigger] targets[j],
    ) by {
        let t = targets[j];
        assert(queue_untouched(start, h, sid, targets[j]));
        if h.queue is Some {
            let q = h.queue->0;
            law_upsert_keeps_one_entry_per_key(q, entry);
            lemma_upserted_frame(q, entry, sid, t);
            lemma_with_delivery_frame(
                upserted(q, entry),
                sid,
                target,
                VouchQueueStatus::Waiting,
                1,
                Some(ctx.now),
                sid,
                t,
            );
        }
    }
    lemma_with_keys(h.keys, cached, sid, target);
    if h.queue is Some {
        let q = h.queue->0;
        law_upsert_keeps_one_entry_per_key(q, entry);
        lemma_with_delivery_wf(
            upserted(q, entry),
            sid,
            target,
            VouchQueueStatus::Waiting,
            1,
            Some(ctx.now),
        );
    }
    let before = requests_upto(start, registry, ctx, targets, n);
    if waits {
        let request = OutboundView::Message {
            node_id: registry.node_of(target)->0,
            message: ctx.request(target, signature),
        };
        assert(requests_upto(start, registry, ctx, targets, n + 1) == before.push(request));
        assert(after.outbox.messages == h.outbox.messages.push(request));
        assert(start.outbox.messages + before.push(request) =~= (start.outbox.messages
            + before).push(request));
    } else {
        assert(requests_upto(start, registry, ctx, targets, n + 1) == before);
    }
}

/// Vouching to the first `n` targets without an error leaves the stores as the
/// round leaves them for these targets, and as they were for the others.
pub proof fn lemma_first_round_stores(
    start: HandlerView,
    registry: RegistryView,
    ctx: VouchContext,
    targets: Seq<u128>,
    n: nat,
)
    requires
        n <= targets.len(),
        targets.no_duplicates(),
        ctx.now.wf(),
        first_round_upto(start, start, registry, ctx, targets, 0),
        first_round_stores_upto(start, start, registry, ctx, targets, 0),
        start.vouched_upto(registry, ctx, targets, n).1 is None,
    ensures
        first_round_stores_upto(
            start,
            start.vouched_upto(registry, ctx, targets, n).0,
            registry,
            ctx,
            targets,
            n,
        ),
    decreases n,
{
    if n > 0 {
        let m = (n - 1) as nat;
        let before = start.vouched_upto(registry, ctx, targets, m);
        lemma_first_round_stores(start, registry, ctx, targets, m);
        lemma_first_round(start, registry, ctx, targets, m);
        if first_round_outcome(start, registry, ctx, targets[m as int]).0 == VouchStatus::Rejected {
            lemma_rejected_target_stores(start, before.0, registry, ctx, targets, m);
        } else {
            lemma_vouched_target_stores(start, before.0, registry, ctx, targets, m);
        }
    }
}

/// The requests of a round depend on the state at its start only through the
/// identity, the endpoint and the channel.
pub proof fn lemma_requests_depend_on_identity(
    a: HandlerView,
    b: HandlerView,
    registry: RegistryView,
    ctx: VouchContext,
    targets: Seq<u128>,
    n: nat,
)
    requires
        a.secret_key == b.secret_key,
        a.has_endpoint == b.has_endpoint,
        a.outbox.open == b.outbox.open,
    ensures
        requests_upto(a, registry, ctx, targets, n) == requests_upto(b, registry, ctx, targets, n),
    decreases n,
{
    if n > 0 {
        lemma_requests_depend_on_identity(a, b, registry, ctx, targets, (n - 1) as nat);
    }
}

/// What the first round of vouching stores and sends. When vouching has started
/// without an error, then for every target, repeated ones counted once:
/// a target that was rejected has no cached keys, and the queue holds for it
/// what it held before; for any other target the vouchee's keys are cached and
/// the queue, where the handler has one, holds its entry, queued with no retry
/// and no attempt where the target could not be reached, waiting after one
/// attempt where the request went out, and good for seven days. The messages
/// are those that were there, then one request for each target that could be
/// reached, in the order of the targets, and then at most the report to the
/// vouchee, which is sent only where the round has settled every target.
pub proof fn law_first_round_stores_what_it_sends(
    h: HandlerView,
    registry: RegistryView,
    session_id: u128,
    targets: Seq<u128>,
    now: Timestamp,
)
    requires
        h.wf(),
        now.wf(),
        h.vouching_started(registry, session_id, targets, now).1 is Ok,
    ensures
        ({
            let after = h.vouching_started(registry, session_id, targets, now).0;
            let ctx = h.vouch_context(registry, session_id, now);
            let chosen = distinct(targets);
            &&& forall|j: int|
                0 <= j < chosen.len() ==> target_settled(
                    h,
                    after,
                    registry,
                    ctx,
                    #[trigger] chosen[j],
                )
            &&& round_messages(h, after, registry, ctx, chosen, chosen.len())
            &&& (after.queue is Some <==> h.queue is Some)
            &&& after.secret_key == h.secret_key
        }),
{
    let chosen = distinct(targets);
    lemma_distinct(targets, targets.len());
    let named = named_targets(registry, chosen);
    let base = h.vouching_base(registry, session_id, now);
    assert(named.map_values(|t: (u128, Seq<char>)| t.0) =~= chosen);
    lemma_started_wf(base, named, now);
    let seeded = base.started(named, now);
    if has_vouching(h.vouching, session_id) {
        law_handler_sessions_are_well_formed(h, session_id);
    }
    assert(seeded.id == session_id);
    lemma_with_vouching(h.vouching, seeded);
    let begun = HandlerView { vouching: with_vouching(h.vouching, seeded), ..h }.emitted(
        EventView::VouchingSessionChanged { session: seeded },
    );
    let ctx = h.vouch_context(registry, session_id, now);
    let after = h.vouching_started(registry, session_id, targets, now).0;
    assert(vouch_ids(seeded.vouches) =~= chosen);
    assert(requests_upto(h, registry, ctx, chosen, 0) =~= Seq::empty());
    assert(h.outbox.messages + Seq::<OutboundView>::empty() =~= h.outbox.messages);
    if chosen.len() == 0 {
        let vouchee = vouching_at(begun.vouching, session_id).vouchee_device_id;
        assert(after == begun.finalized(registry, session_id, now).0);
        if registry.node_of(vouchee) is Some {
            assert(after.outbox.messages.drop_last() =~= h.outbox.messages);
        }
    } else {
        assert(first_round_upto(begun, begun, registry, ctx, chosen, 0));
        assert(requests_upto(begun, registry, ctx, chosen, 0) =~= Seq::empty());
        assert(first_round_stores_upto(begun, begun, registry, ctx, chosen, 0));
        lemma_first_round_stores(begun, registry, ctx, chosen, chosen.len());
        lemma_requests_depend_on_identity(begun, h, registry, ctx, chosen, chosen.len());
        assert forall|j: int| 0 <= j < chosen.len() implies target_settled(
            h,
            after,
            registry,
            ctx,
            #[trigger] chosen[j],
        ) by {
            assert(target_settled(begun, after, registry, ctx, chosen[j]));
        }
    }
}

} // verus!
