//! The queue of vouches that wait for delivery to their targets.
//!
//! The queue holds at most one entry for each pair of session and target. An
//! entry stays until the target has answered, the vouch has expired, or the
//! retries are used up.

use crate::device::DeviceInfo;
use crate::device::DeviceInfoView;
use crate::device::SessionKeys;
use crate::device::SessionKeysView;
use crate::keyed::lemma_absent;
use crate::keyed::lemma_index_of_unique;
use crate::keyed::lemma_push_unique;
use crate::keyed::lemma_remove_unique;
use crate::time::Timestamp;
use vstd::prelude::*;
use vstd::string::*;

verus! {

/// Whether a queued vouch still has to be sent, or was sent and waits for the
/// target's answer.
#[derive(Clone, Copy, Debug, PartialEq, Eq, Structural)]
pub enum VouchQueueStatus {
    Queued,
    Waiting,
}

impl VouchQueueStatus {
    /// The name under which the status is stored.
    pub open spec fn spec_as_str(self) -> Seq<char> {
        match self {
            VouchQueueStatus::Queued => "queued"@,
            VouchQueueStatus::Waiting => "waiting"@,
        }
    }

    /// The status that a stored name stands for: waiting for "waiting", queued
    /// for any other.
    pub open spec fn spec_from_str(value: Seq<char>) -> VouchQueueStatus {
        if value == "waiting"@ {
            VouchQueueStatus::Waiting
        } else {
            VouchQueueStatus::Queued
        }
    }

    /// The name under which the status is stored.
    pub fn as_str(&self) -> (name: &'static str)
        ensures
            name@ == self.spec_as_str(),
    {
        match self {
            VouchQueueStatus::Queued => "queued",
            VouchQueueStatus::Waiting => "waiting",
        }
    }

    /// The status of a stored entry, given the name stored for it and the time
    /// stored for its last attempt: an entry that is stored as waiting but does
    /// not say since when counts as not sent yet.
    pub open spec fn spec_restored(value: Seq<char>, last_attempt_at: Option<Timestamp>) -> VouchQueueStatus {
        if last_attempt_at is Some {
            VouchQueueStatus::spec_from_str(value)
        } else {
            VouchQueueStatus::Queued
        }
    }

    /// The status of a stored entry, given the name and the time of the last
    /// attempt that were stored for it. The result keeps the rule that a
    /// waiting entry says when the vouch was last sent.
    pub fn restored(value: &str, last_attempt_at: &Option<Timestamp>) -> (status: VouchQueueStatus)
        ensures
            status == VouchQueueStatus::spec_restored(value@, *last_attempt_at),
            status == VouchQueueStatus::Waiting ==> last_attempt_at is Some,
    {
        match last_attempt_at {
            Some(_) => VouchQueueStatus::from_str(value),
            None => VouchQueueStatus::Queued,
        }
    }

    /// The status that a stored name stands for.
    pub fn from_str(value: &str) -> (status: VouchQueueStatus)
        ensures
            status == VouchQueueStatus::spec_from_str(value@),
    {
        if value.to_string() == "waiting".to_string() {
            VouchQueueStatus::Waiting
        } else {
            VouchQueueStatus::Queued
        }
    }
}

/// Storing a status under its name and reading the name back gives the same
/// status.
pub proof fn law_status_name_round_trip(status: VouchQueueStatus)
    ensures
        VouchQueueStatus::spec_from_str(status.spec_as_str()) == status,
{
    reveal_strlit("queued");
    reveal_strlit("waiting");
    assert("queued"@.len() != "waiting"@.len());
}

/// One vouch that waits for delivery to one target.
#[derive(Debug, PartialEq, Eq)]
pub struct VouchingQueueEntry {
    pub session_id: u128,
    pub target_device_id: u128,
    pub voucher_device_id: u128,
    pub vouchee_device_id: u128,
    pub vouchee_device_info: DeviceInfo,
    pub vouchee_public_key: Vec<u8>,
    pub voucher_signature: Vec<u8>,
    /// The keys for the target and the vouchee, as the target holds them.
    pub proxied_session_keys: SessionKeys,
    pub created_at: Timestamp,
    pub expires_at: Timestamp,
    pub status: VouchQueueStatus,
    pub retry_count: u32,
    pub last_attempt_at: Option<Timestamp>,
}

/// The mathematical value of a [`VouchingQueueEntry`].
pub ghost struct QueueEntryView {
    pub session_id: u128,
    pub target_device_id: u128,
    pub voucher_device_id: u128,
    pub vouchee_device_id: u128,
    pub vouchee_device_info: DeviceInfoView,
    pub vouchee_public_key: Seq<u8>,
    pub voucher_signature: Seq<u8>,
    pub proxied_session_keys: SessionKeysView,
    pub created_at: Timestamp,
    pub expires_at: Timestamp,
    pub status: VouchQueueStatus,
    pub retry_count: u32,
    pub last_attempt_at: Option<Timestamp>,
}

impl QueueEntryView {
    /// The key of the entry: its session and its target.
    pub open spec fn key(self) -> (u128, u128) {
        (self.session_id, self.target_device_id)
    }

    /// The times are well-formed, and an entry that waits for an answer says
    /// when the vouch was last sent.
    pub open spec fn wf(self) -> bool {
        &&& self.created_at.wf()
        &&& self.expires_at.wf()
        &&& self.last_attempt_at matches Some(t) ==> t.wf()
        &&& self.status == VouchQueueStatus::Waiting ==> self.last_attempt_at is Some
    }

    /// Whether the entry has expired at the given time.
    pub open spec fn expired_at(self, now: Timestamp) -> bool {
        self.expires_at.as_nanos() <= now.as_nanos()
    }
}

impl View for VouchingQueueEntry {
    type V = QueueEntryView;

    open spec fn view(&self) -> QueueEntryView {
        QueueEntryView {
            session_id: self.session_id,
            target_device_id: self.target_device_id,
            voucher_device_id: self.voucher_device_id,
            vouchee_device_id: self.vouchee_device_id,
            vouchee_device_info: self.vouchee_device_info@,
            vouchee_public_key: self.vouchee_public_key@,
            voucher_signature: self.voucher_signature@,
            proxied_session_keys: self.proxied_session_keys@,
            created_at: self.created_at,
            expires_at: self.expires_at,
            status: self.status,
            retry_count: self.retry_count,
            last_attempt_at: self.last_attempt_at,
        }
    }
}

impl Clone for VouchingQueueEntry {
    fn clone(&self) -> (r: Self)
        ensures
            r@ == self@,
    {
        VouchingQueueEntry {
            session_id: self.session_id,
            target_device_id: self.target_device_id,
            voucher_device_id: self.voucher_device_id,
            vouchee_device_id: self.vouchee_device_id,
            vouchee_device_info: self.vouchee_device_info.clone(),
            vouchee_public_key: self.vouchee_public_key.clone(),
            voucher_signature: self.voucher_signature.clone(),
            proxied_session_keys: self.proxied_session_keys.clone(),
            created_at: self.created_at,
            expires_at: self.expires_at,
            status: self.status,
            retry_count: self.retry_count,
            last_attempt_at: self.last_attempt_at,
        }
    }
}

impl VouchingQueueEntry {
    /// The times are well-formed, and an entry that waits for an answer says
    /// when the vouch was last sent.
    pub open spec fn wf(&self) -> bool {
        self@.wf()
    }

    /// Whether the times are well-formed and an entry that waits for an answer
    /// says when the vouch was last sent.
    pub fn is_well_formed(&self) -> (r: bool)
        ensures
            r == self.wf(),
    {
        let attempt_ok = match &self.last_attempt_at {
            Some(t) => t.is_valid(),
            None => self.status == VouchQueueStatus::Queued,
        };
        self.created_at.is_valid() && self.expires_at.is_valid() && attempt_ok
    }
}

/// The keys of a list of entries, in order.
pub open spec fn entry_keys(entries: Seq<QueueEntryView>) -> Seq<(u128, u128)> {
    entries.map_values(|e: QueueEntryView| e.key())
}

/// Every entry is well-formed and no key occurs twice.
pub open spec fn queue_wf(entries: Seq<QueueEntryView>) -> bool {
    &&& entry_keys(entries).no_duplicates()
    &&& forall|i: int| 0 <= i < entries.len() ==> (#[trigger] entries[i]).wf()
}

/// Whether a list of entries holds one for the given session and target.
pub open spec fn has_entry(entries: Seq<QueueEntryView>, session_id: u128, target: u128) -> bool {
    entry_keys(entries).contains((session_id, target))
}

/// Where the entry for the given session and target stands.
pub open spec fn entry_index(entries: Seq<QueueEntryView>, session_id: u128, target: u128) -> int {
    entry_keys(entries).index_of((session_id, target))
}

/// The entries after one was stored: it replaces the entry with its key, in
/// that entry's place, or is added at the end.
pub open spec fn upserted(entries: Seq<QueueEntryView>, entry: QueueEntryView) -> Seq<QueueEntryView> {
    if has_entry(entries, entry.session_id, entry.target_device_id) {
        entries.update(entry_index(entries, entry.session_id, entry.target_device_id), entry)
    } else {
        entries.push(entry)
    }
}

/// The entries after the delivery state of one was changed. Nothing changes
/// where no entry has the key.
pub open spec fn with_delivery(
    entries: Seq<QueueEntryView>,
    session_id: u128,
    target: u128,
    status: VouchQueueStatus,
    retry_count: u32,
    last_attempt_at: Option<Timestamp>,
) -> Seq<QueueEntryView> {
    if has_entry(entries, session_id, target) {
        let i = entry_index(entries, session_id, target);
        entries.update(i, QueueEntryView { status, retry_count, last_attempt_at, ..entries[i] })
    } else {
        entries
    }
}

/// The entries after the one with the given key was taken out. Nothing changes
/// where no entry has the key.
pub open spec fn without_entry(entries: Seq<QueueEntryView>, session_id: u128, target: u128) -> Seq<
    QueueEntryView,
> {
    if has_entry(entries, session_id, target) {
        entries.remove(entry_index(entries, session_id, target))
    } else {
        entries
    }
}

/// Those of the first `n` entries that have not expired at the given time, in
/// order.
pub open spec fn unexpired_upto(entries: Seq<QueueEntryView>, now: Timestamp, n: nat) -> Seq<
    QueueEntryView,
>
    decreases n,
{
    if n == 0 {
        Seq::empty()
    } else if entries[n - 1].expired_at(now) {
        unexpired_upto(entries, now, (n - 1) as nat)
    } else {
        unexpired_upto(entries, now, (n - 1) as nat).push(entries[n - 1])
    }
}

/// The entries that have not expired at the given time, in order.
pub open spec fn unexpired(entries: Seq<QueueEntryView>, now: Timestamp) -> Seq<QueueEntryView> {
    unexpired_upto(entries, now, entries.len())
}

/// Storing an entry keeps one entry per key: the queue stays well-formed, the
/// stored entry is the one found under its key, and the number of entries grows
/// by one for a new key and not at all for a key that was there.
pub proof fn law_upsert_keeps_one_entry_per_key(entries: Seq<QueueEntryView>, entry: QueueEntryView)
    requires
        queue_wf(entries),
        entry.wf(),
    ensures
        queue_wf(upserted(entries, entry)),
        has_entry(upserted(entries, entry), entry.session_id, entry.target_device_id),
        upserted(entries, entry)[entry_index(
            upserted(entries, entry),
            entry.session_id,
            entry.target_device_id,
        )] == entry,
        upserted(entries, entry).len() == if has_entry(
            entries,
            entry.session_id,
            entry.target_device_id,
        ) {
            entries.len()
        } else {
            entries.len() + 1
        },
{
    let after = upserted(entries, entry);
    let k = entry.key();
    if has_entry(entries, entry.session_id, entry.target_device_id) {
        let i = entry_index(entries, entry.session_id, entry.target_device_id);
        assert(entry_keys(after) =~= entry_keys(entries));
        assert(after[i] == entry);
    } else {
        assert(entry_keys(after) =~= entry_keys(entries).push(k));
        lemma_push_unique(entry_keys(entries), k);
        lemma_index_of_unique(entry_keys(after), k, entries.len() as int);
    }
}

/// Storing the same entry twice gives what storing it once gives.
pub proof fn law_upsert_idempotent(entries: Seq<QueueEntryView>, entry: QueueEntryView)
    requires
        queue_wf(entries),
        entry.wf(),
    ensures
        upserted(upserted(entries, entry), entry) == upserted(entries, entry),
{
    law_upsert_keeps_one_entry_per_key(entries, entry);
    let once = upserted(entries, entry);
    assert(upserted(once, entry) =~= once);
}

/// Taking an entry out leaves the queue well-formed and without that key;
/// taking it out again changes nothing.
pub proof fn lemma_remove_entry(entries: Seq<QueueEntryView>, session_id: u128, target: u128)
    requires
        queue_wf(entries),
    ensures
        queue_wf(without_entry(entries, session_id, target)),
        !has_entry(without_entry(entries, session_id, target), session_id, target),
        without_entry(without_entry(entries, session_id, target), session_id, target)
            == without_entry(entries, session_id, target),
        forall|s: u128, t: u128|
            (s, t) != (session_id, target) ==> (has_entry(
                without_entry(entries, session_id, target),
                s,
                t,
            ) <==> has_entry(entries, s, t)),
{
    if has_entry(entries, session_id, target) {
        let i = entry_index(entries, session_id, target);
        let after = entries.remove(i);
        assert(entry_keys(after) =~= entry_keys(entries).remove(i));
        lemma_remove_unique(entry_keys(entries), i);
    }
}

/// A change of an entry's delivery state leaves the queue well-formed, given
/// that an entry set to wait says when the vouch was sent.
pub proof fn lemma_with_delivery_wf(
    entries: Seq<QueueEntryView>,
    session_id: u128,
    target: u128,
    status: VouchQueueStatus,
    retry_count: u32,
    last_attempt_at: Option<Timestamp>,
)
    requires
        queue_wf(entries),
        last_attempt_at matches Some(t) ==> t.wf(),
        status == VouchQueueStatus::Waiting ==> last_attempt_at is Some,
    ensures
        queue_wf(with_delivery(entries, session_id, target, status, retry_count, last_attempt_at)),
        forall|s: u128, t: u128|
            has_entry(
                with_delivery(entries, session_id, target, status, retry_count, last_attempt_at),
                s,
                t,
            ) <==> has_entry(entries, s, t),
{
    let after = with_delivery(entries, session_id, target, status, retry_count, last_attempt_at);
    assert(entry_keys(after) =~= entry_keys(entries));
}

/// Whether one list of entries holds for a session and target what another
/// holds: no entry in either, or the same entry in both.
pub open spec fn entry_same(
    after: Seq<QueueEntryView>,
    before: Seq<QueueEntryView>,
    session_id: u128,
    target: u128,
) -> bool {
    &&& has_entry(after, session_id, target) == has_entry(before, session_id, target)
    &&& has_entry(before, session_id, target) ==> after[entry_index(after, session_id, target)]
        == before[entry_index(before, session_id, target)]
}

/// Storing an entry leaves the entries of all other keys as they are.
pub proof fn lemma_upserted_frame(entries: Seq<QueueEntryView>, entry: QueueEntryView, s: u128, t: u128)
    requires
        queue_wf(entries),
        entry.wf(),
        (s, t) != entry.key(),
    ensures
        entry_same(upserted(entries, entry), entries, s, t),
{
    let after = upserted(entries, entry);
    let keys = entry_keys(entries);
    law_upsert_keeps_one_entry_per_key(entries, entry);
    if has_entry(entries, entry.session_id, entry.target_device_id) {
        let i = entry_index(entries, entry.session_id, entry.target_device_id);
        assert(0 <= i < keys.len() && keys[i] == entry.key());
        assert(entry_keys(after) =~= keys);
        if has_entry(entries, s, t) {
            let j = entry_index(entries, s, t);
            assert(0 <= j < keys.len() && keys[j] == (s, t));
        }
    } else {
        assert(entry_keys(after) =~= keys.push(entry.key()));
        if has_entry(entries, s, t) {
            let j = entry_index(entries, s, t);
            assert(0 <= j < keys.len() && keys[j] == (s, t));
            lemma_index_of_unique(entry_keys(after), (s, t), j);
        } else if has_entry(after, s, t) {
            let j = choose|j: int| 0 <= j < entry_keys(after).len() && entry_keys(after)[j] == (s, t);
            assert(keys[j] == (s, t));
        }
    }
}

/// Taking an entry out leaves the entries of all other keys as they are.
pub proof fn lemma_without_entry_frame(
    entries: Seq<QueueEntryView>,
    session_id: u128,
    target: u128,
    s: u128,
    t: u128,
)
    requires
        queue_wf(entries),
        (s, t) != (session_id, target),
    ensures
        entry_same(without_entry(entries, session_id, target), entries, s, t),
{
    let after = without_entry(entries, session_id, target);
    let keys = entry_keys(entries);
    lemma_remove_entry(entries, session_id, target);
    if has_entry(entries, session_id, target) && has_entry(entries, s, t) {
        let i = entry_index(entries, session_id, target);
        assert(0 <= i < keys.len() && keys[i] == (session_id, target));
        let j = entry_index(entries, s, t);
        assert(0 <= j < keys.len() && keys[j] == (s, t));
        let moved = if j < i {
            j
        } else {
            j - 1
        };
        assert(entry_keys(after) =~= keys.remove(i));
        assert(entry_keys(after)[moved] == (s, t));
        lemma_index_of_unique(entry_keys(after), (s, t), moved);
        assert(after[moved] == entries[j]);
    }
}

/// A change of one entry's delivery state shows in that entry, and leaves the
/// entries of all other keys as they are.
pub proof fn lemma_with_delivery_frame(
    entries: Seq<QueueEntryView>,
    session_id: u128,
    target: u128,
    status: VouchQueueStatus,
    retry_count: u32,
    last_attempt_at: Option<Timestamp>,
    s: u128,
    t: u128,
)
    requires
        queue_wf(entries),
    ensures
        ({
            let after = with_delivery(
                entries,
                session_id,
                target,
                status,
                retry_count,
                last_attempt_at,
            );
            &&& (s, t) != (session_id, target) ==> entry_same(after, entries, s, t)
            &&& has_entry(entries, session_id, target) ==> has_entry(after, session_id, target)
                && after[entry_index(after, session_id, target)] == (QueueEntryView {
                status,
                retry_count,
                last_attempt_at,
                ..entries[entry_index(entries, session_id, target)]
            })
        }),
{
    let after = with_delivery(entries, session_id, target, status, retry_count, last_attempt_at);
    let keys = entry_keys(entries);
    assert(entry_keys(after) =~= keys);
    if has_entry(entries, session_id, target) {
        let i = entry_index(entries, session_id, target);
        assert(0 <= i < keys.len() && keys[i] == (session_id, target));
        if has_entry(entries, s, t) {
            let j = entry_index(entries, s, t);
            assert(0 <= j < keys.len() && keys[j] == (s, t));
        }
    }
}

/// The vouches that wait for delivery, at most one for each session and target.
#[derive(Debug)]
pub struct VouchingQueue {
    entries: Vec<VouchingQueueEntry>,
}

impl View for VouchingQueue {
    type V = Seq<QueueEntryView>;

    closed spec fn view(&self) -> Seq<QueueEntryView> {
        self.entries@.map_values(|e: VouchingQueueEntry| e@)
    }
}

impl VouchingQueue {
    /// Every entry is well-formed and no key occurs twice.
    pub open spec fn wf(&self) -> bool {
        queue_wf(self@)
    }

    /// An empty queue.
    pub fn new() -> (q: VouchingQueue)
        ensures
            q.wf(),
            q@ == Seq::<QueueEntryView>::empty(),
            forall|session_id: u128, target: u128| !has_entry(q@, session_id, target),
    {
        let q = VouchingQueue { entries: Vec::new() };
        assert(q@ =~= Seq::<QueueEntryView>::empty());
        assert(entry_keys(q@) =~= Seq::<(u128, u128)>::empty());
        q
    }

    /// A queue that holds the given entries, in their order; of entries with
    /// one key only the last is kept, in the place of the first.
    pub fn from_entries(entries: Vec<VouchingQueueEntry>) -> (q: VouchingQueue)
        requires
            forall|i: int| 0 <= i < entries.len() ==> (#[trigger] entries[i]).wf(),
        ensures
            q.wf(),
            q@ == upserted_all(Seq::empty(), entries@.map_values(|e: VouchingQueueEntry| e@), entries.len() as nat),
    {
        let mut q = VouchingQueue::new();
        let ghost all = entries@.map_values(|e: VouchingQueueEntry| e@);
        let mut i: usize = 0;
        while i < entries.len()
            invariant
                i <= entries.len(),
                q.wf(),
                all == entries@.map_values(|e: VouchingQueueEntry| e@),
                forall|i: int| 0 <= i < entries.len() ==> (#[trigger] entries[i]).wf(),
                q@ == upserted_all(Seq::empty(), all, i as nat),
            decreases entries.len() - i,
        {
            q.upsert_entry(&entries[i]);
            i += 1;
        }
        q
    }

    /// How many entries the queue holds.
    pub fn len(&self) -> (n: usize)
        ensures
            n == self@.len(),
    {
        self.entries.len()
    }

    /// The place of the entry for a session and target.
    fn position(&self, session_id: u128, target: u128) -> (r: Option<usize>)
        requires
            self.wf(),
        ensures
            r is Some <==> has_entry(self@, session_id, target),
            r matches Some(i) ==> i < self.entries.len() && i == entry_index(
                self@,
                session_id,
                target,
            ),
    {
        let mut i: usize = 0;
        while i < self.entries.len()
            invariant
                i <= self.entries.len(),
                self.wf(),
                forall|j: int| 0 <= j < i ==> entry_keys(self@)[j] != (session_id, target),
            decreases self.entries.len() - i,
        {
            if self.entries[i].session_id == session_id && self.entries[i].target_device_id
                == target {
                proof {
                    lemma_index_of_unique(entry_keys(self@), (session_id, target), i as int);
                }
                return Some(i);
            }
            i += 1;
        }
        proof {
            lemma_absent(entry_keys(self@), (session_id, target));
        }
        None
    }

    /// The entry for a session and target, if the queue holds one.
    pub fn get_entry(&self, session_id: u128, target: u128) -> (r: Option<VouchingQueueEntry>)
        requires
            self.wf(),
        ensures
            r is Some <==> has_entry(self@, session_id, target),
            r matches Some(e) ==> e@ == self@[entry_index(self@, session_id, target)],
    {
        match self.position(session_id, target) {
            Some(i) => Some(self.entries[i].clone()),
            None => None,
        }
    }

    /// Stores an entry: it replaces the entry with the same session and target,
    /// or is added.
    pub fn upsert_entry(&mut self, entry: &VouchingQueueEntry)
        requires
            old(self).wf(),
            entry.wf(),
        ensures
            final(self).wf(),
            final(self)@ == upserted(old(self)@, entry@),
            has_entry(final(self)@, entry.session_id, entry.target_device_id),
            final(self)@[entry_index(final(self)@, entry.session_id, entry.target_device_id)]
                == entry@,
            final(self)@.len() == if has_entry(
                old(self)@,
                entry.session_id,
                entry.target_device_id,
            ) {
                old(self)@.len()
            } else {
                old(self)@.len() + 1
            },
    {
        let ghost before = self@;
        proof {
            law_upsert_keeps_one_entry_per_key(before, entry@);
        }
        match self.position(entry.session_id, entry.target_device_id) {
            Some(i) => {
                self.entries.set(i, entry.clone());
                assert(self@ =~= upserted(before, entry@));
            },
            None => {
                self.entries.push(entry.clone());
                assert(self@ =~= upserted(before, entry@));
            },
        }
    }

    /// All entries, in the order in which their keys were first stored.
    pub fn list_entries(&self) -> (entries: Vec<VouchingQueueEntry>)
        ensures
            entries@.map_values(|e: VouchingQueueEntry| e@) == self@,
    {
        let mut out: Vec<VouchingQueueEntry> = Vec::new();
        let mut i: usize = 0;
        while i < self.entries.len()
            invariant
                i <= self.entries.len(),
                out@.len() == i,
                forall|j: int| 0 <= j < i ==> out@[j]@ == self@[j],
            decreases self.entries.len() - i,
        {
            out.push(self.entries[i].clone());
            i += 1;
        }
        assert(out@.map_values(|e: VouchingQueueEntry| e@) =~= self@);
        out
    }

    /// Changes the delivery state of the entry for a session and target. Where
    /// the queue holds no such entry, nothing changes.
    pub fn update_status(
        &mut self,
        session_id: u128,
        target_device_id: u128,
        status: VouchQueueStatus,
        retry_count: u32,
        last_attempt_at: Option<Timestamp>,
    )
        requires
            old(self).wf(),
            last_attempt_at matches Some(t) ==> t.wf(),
            status == VouchQueueStatus::Waiting ==> last_attempt_at is Some,
        ensures
            final(self).wf(),
            final(self)@ == with_delivery(
                old(self)@,
                session_id,
                target_device_id,
                status,
                retry_count,
                last_attempt_at,
            ),
    {
        let ghost before = self@;
        proof {
            lemma_with_delivery_wf(
                before,
                session_id,
                target_device_id,
                status,
                retry_count,
                last_attempt_at,
            );
        }
        match self.position(session_id, target_device_id) {
            Some(i) => {
                let mut entry = self.entries[i].clone();
                entry.status = status;
                entry.retry_count = retry_count;
                entry.last_attempt_at = last_attempt_at;
                self.entries.set(i, entry);
                assert(self@ =~= with_delivery(
                    before,
                    session_id,
                    target_device_id,
                    status,
                    retry_count,
                    last_attempt_at,
                ));
            },
            None => {},
        }
    }

    /// Takes out the entry for a session and target. Where the queue holds no
    /// such entry, nothing changes.
    pub fn remove_entry(&mut self, session_id: u128, target_device_id: u128)
        requires
            old(self).wf(),
        ensures
            final(self).wf(),
            final(self)@ == without_entry(old(self)@, session_id, target_device_id),
            !has_entry(final(self)@, session_id, target_device_id),
            final(self)@.len() == if has_entry(old(self)@, session_id, target_device_id) {
                old(self)@.len() - 1
            } else {
                old(self)@.len() as int
            },
    {
        let ghost before = self@;
        proof {
            lemma_remove_entry(before, session_id, target_device_id);
        }
        match self.position(session_id, target_device_id) {
            Some(i) => {
                self.entries.remove(i);
                assert(self@ =~= without_entry(before, session_id, target_device_id));
            },
            None => {},
        }
    }

    /// Takes out every entry that has expired at the given time, and returns
    /// how many there were.
    pub fn remove_expired(&mut self, now: Timestamp) -> (removed: u64)
        requires
            old(self).wf(),
            now.wf(),
        ensures
            final(self).wf(),
            final(self)@ == unexpired(old(self)@, now),
            removed == old(self)@.len() - final(self)@.len(),
    {
        let ghost before = self@;
        let mut kept: Vec<VouchingQueueEntry> = Vec::new();
        let ghost mut origin: Seq<int> = Seq::empty();
        let mut i: usize = 0;
        while i < self.entries.len()
            invariant
                i <= self.entries.len(),
                self@ == before,
                queue_wf(before),
                now.wf(),
                kept@.len() <= i,
                kept@.map_values(|e: VouchingQueueEntry| e@) == unexpired_upto(before, now, i as nat),
                origin.len() == kept@.len(),
                forall|a: int| 0 <= a < origin.len() ==> 0 <= #[trigger] origin[a] < i && kept@[a]@ == before[origin[a]],
                forall|a: int, b: int| 0 <= a < b < origin.len() ==> origin[a] < origin[b],
            decreases self.entries.len() - i,
        {
            assert(before[i as int].wf());
            assert(self.entries[i as int]@ == before[i as int]);
            if !self.entries[i].expires_at.at_or_before(&now) {
                kept.push(self.entries[i].clone());
                proof {
                    origin = origin.push(i as int);
                }
                assert(kept@.map_values(|e: VouchingQueueEntry| e@) =~= unexpired_upto(
                    before,
                    now,
                    i as nat,
                ).push(before[i as int]));
            }
            i += 1;
        }
        let removed: usize = self.entries.len() - kept.len();
        self.entries = kept;
        proof {
            let after = self@;
            assert forall|a: int, b: int|
                0 <= a < after.len() && 0 <= b < after.len() && a != b implies entry_keys(after)[a]
                != entry_keys(after)[b] by {
                assert(entry_keys(before)[origin[a]] == before[origin[a]].key());
                assert(entry_keys(before)[origin[b]] == before[origin[b]].key());
                if a < b {
                    assert(origin[a] < origin[b]);
                } else {
                    assert(origin[b] < origin[a]);
                }
            }
            assert forall|a: int| 0 <= a < after.len() implies (#[trigger] after[a]).wf() by {
                assert(after[a] == before[origin[a]]);
            }
        }
        removed as u64
    }
}

/// The entries after the first `n` of a list were stored one after another.
pub open spec fn upserted_all(entries: Seq<QueueEntryView>, added: Seq<QueueEntryView>, n: nat) -> Seq<
    QueueEntryView,
>
    decreases n,
{
    if n == 0 {
        entries
    } else {
        upserted(upserted_all(entries, added, (n - 1) as nat), added[n - 1])
    }
}

} // verus!
