//! What one pass of the drainer over the queue leaves of every entry.

use crate::device::RegistryView;
use crate::first_round::lemma_status_update_stores;
use crate::first_round::report_added;
use crate::keyed::lemma_index_of_unique;
use crate::keyed::lemma_push_unique;
use crate::keys::payload_signature;
use crate::messages::OutboundView;
use crate::model::map_queue;
use crate::model::HandlerView;
use crate::proxy::lemma_with_status_wf;
use crate::proxy::vouch_ids;
use crate::proxy::VouchStateView;
use crate::proxy::VouchStatus;
use crate::proxy::VouchingSessionView;
use crate::time::Timestamp;
use crate::vouching::has_vouching;
use crate::vouching::lemma_with_vouching;
use crate::vouching::vouching_at;
use crate::vouching::vouching_ids;
use crate::vouching::vouching_wf;
use crate::vouching::with_vouching;
use crate::vouching_queue::entry_index;
use crate::vouching_queue::entry_keys;
use crate::vouching_queue::entry_same;
use crate::vouching_queue::has_entry;
use crate::vouching_queue::lemma_remove_entry;
use crate::vouching_queue::lemma_with_delivery_frame;
use crate::vouching_queue::lemma_with_delivery_wf;
use crate::vouching_queue::lemma_without_entry_frame;
use crate::vouching_queue::queue_wf;
use crate::vouching_queue::with_delivery;
use crate::vouching_queue::without_entry;
use crate::vouching_queue::QueueEntryView;
use crate::vouching_queue::VouchQueueStatus;
use vstd::prelude::*;

verus! {

/// Whether one list of sessions holds for a session and target the vouch that
/// another holds: no vouch in either, or the same vouch in both. Nothing is
/// said of a session that the other list does not hold.
pub open spec fn vouch_same(
    after: Seq<VouchingSessionView>,
    before: Seq<VouchingSessionView>,
    session_id: u128,
    target: u128,
) -> bool {
    has_vouching(before, session_id) ==> {
        &&& has_vouching(after, session_id)
        &&& vouching_at(after, session_id).has_vouch(target) == vouching_at(
            before,
            session_id,
        ).has_vouch(target)
        &&& vouching_at(before, session_id).has_vouch(target) ==> vouching_at(
            after,
            session_id,
        ).vouch(target) == vouching_at(before, session_id).vouch(target)
    }
}

/// Whether a state differs from another only in what the drainer changes: the
/// sessions are the same ones, well-formed, and the identity, the options, the
/// endpoint and the channel are as they were.
pub open spec fn same_setting(after: HandlerView, before: HandlerView) -> bool {
    &&& vouching_wf(after.vouching)
    &&& forall|id: u128| has_vouching(after.vouching, id) <==> has_vouching(before.vouching, id)
    &&& after.config == before.config
    &&& after.secret_key == before.secret_key
    &&& after.has_endpoint == before.has_endpoint
    &&& after.outbox.open == before.outbox.open
}

/// A change of one vouch leaves the vouches of all other sessions and targets
/// as they are, and the queue and the setting too, whether or not the change is
/// taken and whether or not it ends in an error.
pub proof fn lemma_status_update_frame(
    h: HandlerView,
    registry: RegistryView,
    session_id: u128,
    device_id: u128,
    status: VouchStatus,
    reason: Option<Seq<char>>,
    now: Timestamp,
    s: u128,
    t: u128,
)
    requires
        vouching_wf(h.vouching),
        (s, t) != (session_id, device_id),
    ensures
        ({
            let after = h.status_updated(registry, session_id, device_id, status, reason, now).0;
            &&& same_setting(after, h)
            &&& after.queue == h.queue
            &&& vouch_same(after.vouching, h.vouching, s, t)
        }),
{
    let after = h.status_updated(registry, session_id, device_id, status, reason, now).0;
    if has_vouching(h.vouching, session_id) {
        let i = vouching_ids(h.vouching).index_of(session_id);
        assert(0 <= i < h.vouching.len() && vouching_ids(h.vouching)[i] == session_id);
        assert(h.vouching[i].wf());
        let before = vouching_at(h.vouching, session_id);
        if before.accepts_update(device_id) {
            let changed = before.with_status(device_id, status, reason, now);
            lemma_with_status_wf(before, device_id, status, reason, now);
            lemma_with_vouching(h.vouching, changed);
            assert(after.vouching == with_vouching(h.vouching, changed));
            assert(vouching_ids(after.vouching) =~= vouching_ids(h.vouching));
            if s == session_id {
                let ids = vouch_ids(before.vouches);
                if before.has_vouch(device_id) {
                    let k = ids.index_of(device_id);
                    assert(0 <= k < ids.len() && ids[k] == device_id);
                    assert(vouch_ids(changed.vouches) =~= ids);
                    if before.has_vouch(t) {
                        let j = ids.index_of(t);
                        assert(0 <= j < ids.len() && ids[j] == t);
                    }
                } else {
                    assert(vouch_ids(changed.vouches) =~= ids.push(device_id));
                    lemma_push_unique(ids, device_id);
                    if before.has_vouch(t) {
                        let j = ids.index_of(t);
                        assert(0 <= j < ids.len() && ids[j] == t);
                        lemma_index_of_unique(vouch_ids(changed.vouches), t, j);
                    } else if changed.has_vouch(t) {
                        let j = choose|j: int|
                            0 <= j < vouch_ids(changed.vouches).len() && vouch_ids(
                                changed.vouches,
                            )[j] == t;
                        assert(ids[j] == t);
                    }
                }
            } else if has_vouching(h.vouching, s) {
                let j = vouching_ids(h.vouching).index_of(s);
                assert(0 <= j < h.vouching.len() && vouching_ids(h.vouching)[j] == s);
            }
        }
    }
}

/// The vouch that a session holds for a target after a change that it takes:
/// the vouch that it had, with the new status, reason and time; or a new one
/// for a target that had none.
pub proof fn lemma_changed_vouch(
    s: VouchingSessionView,
    device_id: u128,
    status: VouchStatus,
    reason: Option<Seq<char>>,
    now: Timestamp,
)
    requires
        s.wf(),
        s.accepts_update(device_id),
    ensures
        s.with_status(device_id, status, reason, now).has_vouch(device_id),
        s.has_vouch(device_id) ==> s.with_status(device_id, status, reason, now).vouch(device_id)
            == (VouchStateView { status, reason, updated_at: now, ..s.vouch(device_id) }),
{
    let changed = s.with_status(device_id, status, reason, now);
    let ids = vouch_ids(s.vouches);
    if s.has_vouch(device_id) {
        let i = ids.index_of(device_id);
        assert(0 <= i < ids.len() && ids[i] == device_id);
        assert(vouch_ids(changed.vouches) =~= ids);
    } else {
        assert(vouch_ids(changed.vouches) =~= ids.push(device_id));
        lemma_push_unique(ids, device_id);
        lemma_index_of_unique(vouch_ids(changed.vouches), device_id, ids.len() as int);
    }
}

/// Why the drainer gives a queued vouch up, if it does: the vouch has expired,
/// has used up its retries, or has waited too long for its answer.
pub open spec fn give_up_reason(h: HandlerView, entry: QueueEntryView, now: Timestamp) -> Option<
    Seq<char>,
> {
    if entry.expired_at(now) {
        Some("Vouch expired"@)
    } else if entry.retry_count >= h.config.vouch_queue_retry_limit {
        Some("Vouch retry limit exceeded"@)
    } else if entry.status == VouchQueueStatus::Waiting && h.response_overdue(entry, now) {
        Some("Proxy response timeout"@)
    } else {
        None
    }
}

/// Whether the drainer leaves a queued vouch alone: it gives no reason to give
/// the vouch up, and the vouch waits for its answer or its target cannot be
/// reached.
pub open spec fn left_alone(
    h: HandlerView,
    registry: RegistryView,
    entry: QueueEntryView,
    now: Timestamp,
) -> bool {
    give_up_reason(h, entry, now) is None && (entry.status == VouchQueueStatus::Waiting
        || !h.can_reach(registry, entry.target_device_id))
}

/// Whether a list of sessions holds a vouch for a session and target that has
/// not reached its final status.
pub open spec fn vouch_is_open(sessions: Seq<VouchingSessionView>, session_id: u128, target: u128) -> bool {
    &&& has_vouching(sessions, session_id)
    &&& vouching_at(sessions, session_id).has_vouch(target)
    &&& !vouching_at(sessions, session_id).vouch(target).status.spec_is_terminal()
}

/// Whether a list of sessions holds for a session and target the vouch that
/// another held, with a new status and reason, changed at the given time.
pub open spec fn vouch_became(
    after: Seq<VouchingSessionView>,
    before: Seq<VouchingSessionView>,
    session_id: u128,
    target: u128,
    status: VouchStatus,
    reason: Option<Seq<char>>,
    now: Timestamp,
) -> bool {
    &&& has_vouching(after, session_id)
    &&& vouching_at(after, session_id).has_vouch(target)
    &&& vouching_at(after, session_id).vouch(target) == (VouchStateView {
        status,
        reason,
        updated_at: now,
        ..vouching_at(before, session_id).vouch(target)
    })
}

/// Whether the drainer sends the request for an entry again: the session is
/// there, there is no reason to give the vouch up, the vouch is queued and its
/// target can be reached, and the channel is open.
pub open spec fn is_sent_again(
    h: HandlerView,
    registry: RegistryView,
    entry: QueueEntryView,
    now: Timestamp,
) -> bool {
    &&& has_vouching(h.vouching, entry.session_id)
    &&& give_up_reason(h, entry, now) is None
    &&& !left_alone(h, registry, entry, now)
    &&& h.outbox.open
}

/// The request that the drainer sends again for an entry, signed anew at the
/// time of the pass and addressed to the target's node.
pub open spec fn resent_request(
    h: HandlerView,
    registry: RegistryView,
    entry: QueueEntryView,
    now: Timestamp,
) -> OutboundView {
    OutboundView::Message {
        node_id: registry.node_of(entry.target_device_id)->0,
        message: HandlerView::queued_request(
            entry,
            payload_signature(h.secret_key, HandlerView::queued_payload(entry, now))->0,
            now,
        ),
    }
}

/// Whether a message is the report that ends a vouching session.
pub open spec fn is_report(m: OutboundView) -> bool {
    m matches OutboundView::Message { message, .. } && message is ProxyPairingComplete
}

/// Whether the messages of `after` are those of `g`, then the request for the
/// entry where the drainer sends it again, and then at most one report.
pub open spec fn step_messages(
    g: HandlerView,
    after: HandlerView,
    registry: RegistryView,
    entry: QueueEntryView,
    now: Timestamp,
) -> bool {
    let base = if is_sent_again(g, registry, entry, now) {
        g.outbox.messages.push(resent_request(g, registry, entry, now))
    } else {
        g.outbox.messages
    };
    after.outbox.messages == base || report_added(base, after.outbox.messages)
}

/// Whether every message that a pass has added since it began in `h` is
/// accounted for: it is a report that ends a session, or the request for one of
/// the first `n` entries that the drainer sends again.
pub open spec fn pass_messages(
    h: HandlerView,
    g: HandlerView,
    registry: RegistryView,
    q: Seq<QueueEntryView>,
    now: Timestamp,
    n: nat,
) -> bool {
    &&& h.outbox.messages.len() <= g.outbox.messages.len()
    &&& forall|k: int|
        0 <= k < h.outbox.messages.len() ==> #[trigger] g.outbox.messages[k]
            == h.outbox.messages[k]
    &&& forall|k: int|
        h.outbox.messages.len() <= k < g.outbox.messages.len() ==> is_report(
            #[trigger] g.outbox.messages[k],
        ) || resent_among(h, registry, q, now, n, g.outbox.messages[k])
}

/// Whether a message is the request for one of the first `n` entries that the
/// drainer sends again.
pub open spec fn resent_among(
    h: HandlerView,
    registry: RegistryView,
    q: Seq<QueueEntryView>,
    now: Timestamp,
    n: nat,
    m: OutboundView,
) -> bool {
    exists|j: int|
        0 <= j < n && j < q.len() && #[trigger] is_sent_again(h, registry, q[j], now) && m
            == resent_request(h, registry, q[j], now)
}

/// What a pass of the drainer that began in `h` and has come to `after` has
/// made of an entry that the queue held when the pass began.
///
/// An entry whose session is gone has left the queue. An entry that is given up
/// has left the queue, and its vouch, if it was open, is unreachable for the
/// reason. An entry that is left alone is in the queue as it was, and so is its
/// vouch. Any other entry was sent again: it is in the queue with one more
/// retry and the time of the pass, and it waits, as its vouch does if it was
/// open; where the channel is gone it stays queued, and its vouch stays as it
/// was.
pub open spec fn entry_passed(
    h: HandlerView,
    after: HandlerView,
    registry: RegistryView,
    entry: QueueEntryView,
    now: Timestamp,
) -> bool {
    let sid = entry.session_id;
    let t = entry.target_device_id;
    let q = after.queue->0;
    if !has_vouching(h.vouching, sid) {
        !has_entry(q, sid, t)
    } else if give_up_reason(h, entry, now) is Some {
        &&& !has_entry(q, sid, t)
        &&& vouch_is_open(h.vouching, sid, t) ==> vouch_became(
            after.vouching,
            h.vouching,
            sid,
            t,
            VouchStatus::Unreachable,
            give_up_reason(h, entry, now),
            now,
        )
    } else if left_alone(h, registry, entry, now) {
        &&& has_entry(q, sid, t)
        &&& q[entry_index(q, sid, t)] == entry
        &&& vouch_same(after.vouching, h.vouching, sid, t)
    } else {
        &&& has_entry(q, sid, t)
        &&& q[entry_index(q, sid, t)] == (QueueEntryView {
            status: if h.outbox.open {
                VouchQueueStatus::Waiting
            } else {
                VouchQueueStatus::Queued
            },
            retry_count: (entry.retry_count + 1) as u32,
            last_attempt_at: Some(now),
            ..entry
        })
        &&& h.outbox.open && vouch_is_open(h.vouching, sid, t) ==> vouch_became(
            after.vouching,
            h.vouching,
            sid,
            t,
            VouchStatus::Waiting,
            None,
            now,
        )
        &&& !h.outbox.open ==> vouch_same(after.vouching, h.vouching, sid, t)
    }
}

/// What the drainer does when it looks at one entry of the queue: the entry is
/// dropped, given up, left alone or sent again as its state says, and the
/// entries and vouches of all other sessions and targets stay as they are.
pub proof fn lemma_drained_effect(
    g: HandlerView,
    registry: RegistryView,
    entry: QueueEntryView,
    now: Timestamp,
    s: u128,
    t: u128,
)
    requires
        vouching_wf(g.vouching),
        now.wf(),
        g.queue matches Some(q) && queue_wf(q) && has_entry(
            q,
            entry.session_id,
            entry.target_device_id,
        ) && q[entry_index(q, entry.session_id, entry.target_device_id)] == entry,
        g.drained(registry, entry, now).1 is None,
    ensures
        ({
            let after = g.drained(registry, entry, now).0;
            &&& same_setting(after, g)
            &&& after.queue matches Some(q) && queue_wf(q)
            &&& entry_passed(g, after, registry, entry, now)
            &&& step_messages(g, after, registry, entry, now)
            &&& (s, t) != entry.key() ==> entry_same(after.queue->0, g.queue->0, s, t)
                && vouch_same(after.vouching, g.vouching, s, t)
        }),
{
    let sid = entry.session_id;
    let target = entry.target_device_id;
    let q = g.queue->0;
    let after = g.drained(registry, entry, now).0;
    let reason = give_up_reason(g, entry, now);
    if !has_vouching(g.vouching, sid) {
        lemma_remove_entry(q, sid, target);
        if (s, t) != entry.key() {
            lemma_without_entry_frame(q, sid, target, s, t);
        }
    } else {
        let i = vouching_ids(g.vouching).index_of(sid);
        assert(0 <= i < g.vouching.len() && vouching_ids(g.vouching)[i] == sid);
        assert(g.vouching[i].wf());
        let session = vouching_at(g.vouching, sid);
        if reason is Some {
            let removed = HandlerView {
                queue: map_queue(g.queue, |q: Seq<QueueEntryView>| without_entry(q, sid, target)),
                ..g
            };
            assert(after == removed.status_updated(
                registry,
                sid,
                target,
                VouchStatus::Unreachable,
                reason,
                now,
            ).0);
            lemma_remove_entry(q, sid, target);
            lemma_update_shows(removed, registry, sid, target, VouchStatus::Unreachable, reason, now);
            if (s, t) != entry.key() {
                lemma_without_entry_frame(q, sid, target, s, t);
                lemma_status_update_frame(
                    removed,
                    registry,
                    sid,
                    target,
                    VouchStatus::Unreachable,
                    reason,
                    now,
                    s,
                    t,
                );
            }
        } else if left_alone(g, registry, entry, now) {
        } else {
            let retries = (entry.retry_count + 1) as u32;
            if g.outbox.open {
                let sent = HandlerView {
                    queue: map_queue(
                        g.queue,
                        |q: Seq<QueueEntryView>|
                            with_delivery(
                                q,
                                sid,
                                target,
                                VouchQueueStatus::Waiting,
                                retries,
                                Some(now),
                            ),
                    ),
                    ..g.sent(
                        registry.node_of(target)->0,
                        HandlerView::queued_request(
                            entry,
                            payload_signature(g.secret_key, HandlerView::queued_payload(entry, now))->0,
                            now,
                        ),
                    )
                };
                assert(after == sent.status_updated(
                    registry,
                    sid,
                    target,
                    VouchStatus::Waiting,
                    None,
                    now,
                ).0);
                lemma_with_delivery_wf(q, sid, target, VouchQueueStatus::Waiting, retries, Some(now));
                lemma_with_delivery_frame(
                    q,
                    sid,
                    target,
                    VouchQueueStatus::Waiting,
                    retries,
                    Some(now),
                    s,
                    t,
                );
                lemma_update_shows(sent, registry, sid, target, VouchStatus::Waiting, None, now);
                if (s, t) != entry.key() {
                    lemma_status_update_frame(
                        sent,
                        registry,
                        sid,
                        target,
                        VouchStatus::Waiting,
                        None,
                        now,
                        s,
                        t,
                    );
                }
            } else {
                lemma_with_delivery_wf(q, sid, target, VouchQueueStatus::Queued, retries, Some(now));
                lemma_with_delivery_frame(
                    q,
                    sid,
                    target,
                    VouchQueueStatus::Queued,
                    retries,
                    Some(now),
                    s,
                    t,
                );
            }
        }
    }
}

/// A change of one vouch that ends without an error leaves the setting and the
/// queue as they are and sends at most the report that ends the session; where
/// the vouch was open, the session holds it afterwards with the new status and
/// reason.
pub proof fn lemma_update_shows(
    h: HandlerView,
    registry: RegistryView,
    session_id: u128,
    device_id: u128,
    status: VouchStatus,
    reason: Option<Seq<char>>,
    now: Timestamp,
)
    requires
        vouching_wf(h.vouching),
        has_vouching(h.vouching, session_id),
        h.status_updated(registry, session_id, device_id, status, reason, now).1 is None,
    ensures
        ({
            let after = h.status_updated(registry, session_id, device_id, status, reason, now).0;
            &&& same_setting(after, h)
            &&& after.queue == h.queue
            &&& after.outbox.messages == h.outbox.messages || report_added(
                h.outbox.messages,
                after.outbox.messages,
            )
            &&& vouch_is_open(h.vouching, session_id, device_id) ==> vouch_became(
                after.vouching,
                h.vouching,
                session_id,
                device_id,
                status,
                reason,
                now,
            )
        }),
{
    let other: u128 = if device_id == 0 {
        1
    } else {
        0
    };
    lemma_status_update_frame(h, registry, session_id, device_id, status, reason, now, session_id, other);
    let i = vouching_ids(h.vouching).index_of(session_id);
    assert(0 <= i < h.vouching.len() && vouching_ids(h.vouching)[i] == session_id);
    assert(h.vouching[i].wf());
    let s = vouching_at(h.vouching, session_id);
    if s.accepts_update(device_id) {
        lemma_status_update_stores(h, registry, session_id, device_id, status, reason, now);
    }
    if vouch_is_open(h.vouching, session_id, device_id) {
        let k = vouch_ids(s.vouches).index_of(device_id);
        assert(0 <= k < s.vouches.len() && vouch_ids(s.vouches)[k] == device_id);
        assert(!s.vouches[k].status.spec_is_terminal());
        assert(s.accepts_update(device_id));
        let changed = s.with_status(device_id, status, reason, now);
        lemma_with_status_wf(s, device_id, status, reason, now);
        lemma_with_vouching(h.vouching, changed);
        lemma_changed_vouch(s, device_id, status, reason, now);
    }
}

/// Where a pass of the drainer over the entries `q` stands after it has looked
/// at the first `n` of them: these have been dealt with, and the others are in
/// the queue as they were, with their vouches.
pub open spec fn pass_upto(
    h: HandlerView,
    g: HandlerView,
    registry: RegistryView,
    q: Seq<QueueEntryView>,
    now: Timestamp,
    n: nat,
) -> bool {
    &&& same_setting(g, h)
    &&& g.queue matches Some(left) && queue_wf(left)
    &&& pass_messages(h, g, registry, q, now, n)
    &&& forall|j: int| 0 <= j < n && j < q.len() ==> entry_passed(h, g, registry, #[trigger] q[j], now)
    &&& forall|j: int|
        n <= j < q.len() ==> {
            let e = #[trigger] q[j];
            &&& has_entry(g.queue->0, e.session_id, e.target_device_id)
            &&& g.queue->0[entry_index(g.queue->0, e.session_id, e.target_device_id)] == e
            &&& vouch_same(g.vouching, h.vouching, e.session_id, e.target_device_id)
        }
}

/// Looking at the next entry deals with it and leaves what the pass has made of
/// the entries before it, and the entries after it, as they are.
pub proof fn lemma_pass_step(
    h: HandlerView,
    g: HandlerView,
    registry: RegistryView,
    q: Seq<QueueEntryView>,
    now: Timestamp,
    n: nat,
)
    requires
        n < q.len(),
        queue_wf(q),
        now.wf(),
        vouching_wf(h.vouching),
        pass_upto(h, g, registry, q, now, n),
        g.drained(registry, q[n as int], now).1 is None,
    ensures
        pass_upto(h, g.drained(registry, q[n as int], now).0, registry, q, now, n + 1),
{
    let e = q[n as int];
    let after = g.drained(registry, e, now).0;
    lemma_drained_effect(g, registry, e, now, e.session_id, e.target_device_id);
    assert(give_up_reason(g, e, now) == give_up_reason(h, e, now));
    assert(left_alone(g, registry, e, now) == left_alone(h, registry, e, now));
    assert(entry_passed(h, after, registry, e, now));
    assert(is_sent_again(g, registry, e, now) == is_sent_again(h, registry, e, now));
    assert(resent_request(g, registry, e, now) == resent_request(h, registry, e, now));
    assert forall|k: int|
        h.outbox.messages.len() <= k < after.outbox.messages.len() implies is_report(
        #[trigger] after.outbox.messages[k],
    ) || resent_among(h, registry, q, now, n + 1, after.outbox.messages[k]) by {
        let m = after.outbox.messages[k];
        if k < g.outbox.messages.len() {
            assert(m == g.outbox.messages[k]);
            if !is_report(m) {
                let j = choose|j: int|
                    0 <= j < n && j < q.len() && #[trigger] is_sent_again(h, registry, q[j], now)
                        && m == resent_request(h, registry, q[j], now);
                assert(is_sent_again(h, registry, q[j], now));
            }
        } else if !is_report(m) {
            assert(is_sent_again(h, registry, q[n as int], now));
            assert(m == resent_request(h, registry, q[n as int], now));
        }
    }
    assert forall|j: int| 0 <= j < n + 1 && j < q.len() implies entry_passed(
        h,
        after,
        registry,
        #[trigger] q[j],
        now,
    ) by {
        if j < n {
            let o = q[j];
            assert(entry_keys(q)[j] == o.key() && entry_keys(q)[n as int] == e.key());
            assert(entry_passed(h, g, registry, q[j], now));
            lemma_drained_effect(g, registry, e, now, o.session_id, o.target_device_id);
        }
    }
    assert forall|j: int| n + 1 <= j < q.len() implies {
        let o = #[trigger] q[j];
        &&& has_entry(after.queue->0, o.session_id, o.target_device_id)
        &&& after.queue->0[entry_index(after.queue->0, o.session_id, o.target_device_id)] == o
        &&& vouch_same(after.vouching, h.vouching, o.session_id, o.target_device_id)
    } by {
        let o = q[j];
        assert(entry_keys(q)[j] == o.key() && entry_keys(q)[n as int] == e.key());
        lemma_drained_effect(g, registry, e, now, o.session_id, o.target_device_id);
    }
}

/// A pass over the first `n` entries that ends without an error has dealt with
/// each of them.
pub proof fn lemma_pass(
    h: HandlerView,
    registry: RegistryView,
    q: Seq<QueueEntryView>,
    now: Timestamp,
    n: nat,
)
    requires
        n <= q.len(),
        now.wf(),
        vouching_wf(h.vouching),
        h.queue == Some(q),
        queue_wf(q),
        h.drained_upto(registry, q, now, n).1 is None,
    ensures
        pass_upto(h, h.drained_upto(registry, q, now, n).0, registry, q, now, n),
    decreases n,
{
    if n == 0 {
        assert forall|j: int| 0 <= j < q.len() implies {
            let e = #[trigger] q[j];
            &&& has_entry(q, e.session_id, e.target_device_id)
            &&& q[entry_index(q, e.session_id, e.target_device_id)] == e
        } by {
            assert(entry_keys(q)[j] == q[j].key());
            lemma_index_of_unique(entry_keys(q), q[j].key(), j);
        }
    } else {
        let m = (n - 1) as nat;
        lemma_pass(h, registry, q, now, m);
        lemma_pass_step(h, h.drained_upto(registry, q, now, m).0, registry, q, now, m);
    }
}

/// One pass of the drainer deals with every entry that the queue held when the
/// pass began, whatever else the queue holds. When the pass ends without an
/// error:
///
/// - an entry whose vouching session is gone has left the queue;
/// - an entry that has expired, has used up its retries, or has waited too long
///   for its answer has left the queue, and its vouch, if it was open, is
///   unreachable, with "Vouch expired", "Vouch retry limit exceeded" or "Proxy
///   response timeout" as the reason; expiry counts first, whether or not the
///   target can be reached;
/// - an entry that waits for its answer, or whose target cannot be reached, is
///   in the queue as it was, and so is its vouch;
/// - any other entry is in the queue with one more retry and the time of the
///   pass, waiting where the request went out and queued where the channel is
///   gone.
///
/// The messages that were there stay, and every message that the pass adds is
/// the request for an entry of the last kind, or the report that ends a
/// session: nothing is sent for an entry that is dropped, given up or left
/// alone.
pub proof fn law_pass_deals_with_every_entry(h: HandlerView, registry: RegistryView, now: Timestamp)
    requires
        h.wf(),
        now.wf(),
        h.queue is Some,
        h.queue_drained(registry, now).1 is None,
    ensures
        ({
            let after = h.queue_drained(registry, now).0;
            let q = h.queue->0;
            &&& after.queue matches Some(left) && queue_wf(left)
            &&& forall|j: int| 0 <= j < q.len() ==> entry_passed(h, after, registry, #[trigger] q[j], now)
            &&& pass_messages(h, after, registry, q, now, q.len())
        }),
{
    let q = h.queue->0;
    lemma_pass(h, registry, q, now, q.len());
}

} // verus!
