//! What waits for a later time: the vouches that a user has to decide on, and
//! the vouching sessions that are due to be dropped.

use crate::device::DeviceInfo;
use crate::device::DeviceInfoView;
use crate::device::SessionKeys;
use crate::device::SessionKeysView;
use crate::keyed::lemma_absent;
use crate::keyed::lemma_index_of_unique;
use crate::keyed::lemma_push_unique;
use crate::keyed::lemma_remove_unique;
use crate::keyed::lemma_subsequence_unique;
use crate::time::Timestamp;
use vstd::prelude::*;

verus! {

/// A vouch that the user of a target device has to decide on.
#[derive(Debug, PartialEq, Eq)]
pub struct PendingProxyConfirmation {
    pub session_id: u128,
    pub voucher_device_id: u128,
    pub voucher_device_name: String,
    pub vouchee_device_info: DeviceInfo,
    pub vouchee_public_key: Vec<u8>,
    pub proxied_session_keys: SessionKeys,
    pub created_at: Timestamp,
    /// Seconds that the user has for the decision.
    pub timeout_seconds: u64,
}

/// The mathematical value of a [`PendingProxyConfirmation`].
pub ghost struct PendingView {
    pub session_id: u128,
    pub voucher_device_id: u128,
    pub voucher_device_name: Seq<char>,
    pub vouchee_device_info: DeviceInfoView,
    pub vouchee_public_key: Seq<u8>,
    pub proxied_session_keys: SessionKeysView,
    pub created_at: Timestamp,
    pub timeout_seconds: u64,
}

impl PendingView {
    /// Whether the time for the decision has run out at the given time.
    pub open spec fn timed_out_at(self, now: Timestamp) -> bool {
        now.as_nanos() - self.created_at.as_nanos() >= self.timeout_seconds * 1_000_000_000
    }
}

impl View for PendingProxyConfirmation {
    type V = PendingView;

    open spec fn view(&self) -> PendingView {
        PendingView {
            session_id: self.session_id,
            voucher_device_id: self.voucher_device_id,
            voucher_device_name: self.voucher_device_name@,
            vouchee_device_info: self.vouchee_device_info@,
            vouchee_public_key: self.vouchee_public_key@,
            proxied_session_keys: self.proxied_session_keys@,
            created_at: self.created_at,
            timeout_seconds: self.timeout_seconds,
        }
    }
}

impl Clone for PendingProxyConfirmation {
    fn clone(&self) -> (r: Self)
        ensures
            r@ == self@,
    {
        PendingProxyConfirmation {
            session_id: self.session_id,
            voucher_device_id: self.voucher_device_id,
            voucher_device_name: self.voucher_device_name.clone(),
            vouchee_device_info: self.vouchee_device_info.clone(),
            vouchee_public_key: self.vouchee_public_key.clone(),
            proxied_session_keys: self.proxied_session_keys.clone(),
            created_at: self.created_at,
            timeout_seconds: self.timeout_seconds,
        }
    }
}

/// The sessions of a list of pending confirmations, in order.
pub open spec fn pending_ids(pending: Seq<PendingView>) -> Seq<u128> {
    pending.map_values(|p: PendingView| p.session_id)
}

/// No session occurs twice, and all times are well-formed.
pub open spec fn pending_wf(pending: Seq<PendingView>) -> bool {
    &&& pending_ids(pending).no_duplicates()
    &&& forall|i: int| 0 <= i < pending.len() ==> (#[trigger] pending[i]).created_at.wf()
}

/// Whether a confirmation is pending for the given session.
pub open spec fn has_pending(pending: Seq<PendingView>, session_id: u128) -> bool {
    pending_ids(pending).contains(session_id)
}

/// The confirmation that is pending for the given session.
pub open spec fn pending_at(pending: Seq<PendingView>, session_id: u128) -> PendingView {
    pending[pending_ids(pending).index_of(session_id)]
}

/// The pending confirmations after one was stored, in place of an earlier one
/// for its session.
pub open spec fn with_pending(pending: Seq<PendingView>, p: PendingView) -> Seq<PendingView> {
    if has_pending(pending, p.session_id) {
        pending.update(pending_ids(pending).index_of(p.session_id), p)
    } else {
        pending.push(p)
    }
}

/// The pending confirmations without the one for the given session.
pub open spec fn without_pending(pending: Seq<PendingView>, session_id: u128) -> Seq<PendingView> {
    if has_pending(pending, session_id) {
        pending.remove(pending_ids(pending).index_of(session_id))
    } else {
        pending
    }
}

/// Those of the first `n` pending confirmations whose time has run out, or has
/// not, at the given time.
pub open spec fn timed_out_upto(pending: Seq<PendingView>, now: Timestamp, out: bool, n: nat) -> Seq<
    PendingView,
>
    decreases n,
{
    if n == 0 {
        Seq::empty()
    } else if pending[n - 1].timed_out_at(now) == out {
        timed_out_upto(pending, now, out, (n - 1) as nat).push(pending[n - 1])
    } else {
        timed_out_upto(pending, now, out, (n - 1) as nat)
    }
}

/// The vouches that wait for the user's decision, at most one per session.
#[derive(Debug)]
pub struct PendingConfirmations {
    entries: Vec<PendingProxyConfirmation>,
}

impl View for PendingConfirmations {
    type V = Seq<PendingView>;

    closed spec fn view(&self) -> Seq<PendingView> {
        self.entries@.map_values(|p: PendingProxyConfirmation| p@)
    }
}

impl PendingConfirmations {
    /// No session occurs twice, and all times are well-formed.
    pub open spec fn wf(&self) -> bool {
        pending_wf(self@)
    }

    /// No pending confirmation.
    pub fn new() -> (p: PendingConfirmations)
        ensures
            p.wf(),
            p@ == Seq::<PendingView>::empty(),
    {
        let p = PendingConfirmations { entries: Vec::new() };
        assert(p@ =~= Seq::<PendingView>::empty());
        assert(pending_ids(p@) =~= Seq::<u128>::empty());
        p
    }

    /// The place of the confirmation for a session.
    fn position(&self, session_id: u128) -> (r: Option<usize>)
        requires
            self.wf(),
        ensures
            r is Some <==> has_pending(self@, session_id),
            r matches Some(i) ==> i < self.entries.len() && i == pending_ids(self@).index_of(
                session_id,
            ),
    {
        let mut i: usize = 0;
        while i < self.entries.len()
            invariant
                i <= self.entries.len(),
                self.wf(),
                forall|j: int| 0 <= j < i ==> pending_ids(self@)[j] != session_id,
            decreases self.entries.len() - i,
        {
            if self.entries[i].session_id == session_id {
                proof {
                    lemma_index_of_unique(pending_ids(self@), session_id, i as int);
                }
                return Some(i);
            }
            i += 1;
        }
        proof {
            lemma_absent(pending_ids(self@), session_id);
        }
        None
    }

    /// Whether a confirmation is pending for the given session.
    pub fn contains(&self, session_id: u128) -> (r: bool)
        requires
            self.wf(),
        ensures
            r == has_pending(self@, session_id),
    {
        self.position(session_id).is_some()
    }

    /// Stores a pending confirmation, in place of an earlier one for its
    /// session.
    pub fn insert(&mut self, pending: PendingProxyConfirmation)
        requires
            old(self).wf(),
            pending.created_at.wf(),
        ensures
            final(self).wf(),
            final(self)@ == with_pending(old(self)@, pending@),
    {
        let ghost before = self@;
        let id = pending.session_id;
        match self.position(id) {
            Some(i) => {
                self.entries.set(i, pending);
                assert(self@ =~= with_pending(before, pending@));
                assert(pending_ids(self@) =~= pending_ids(before));
            },
            None => {
                self.entries.push(pending);
                assert(self@ =~= with_pending(before, pending@));
                assert(pending_ids(self@) =~= pending_ids(before).push(id));
                proof {
                    lemma_push_unique(pending_ids(before), id);
                }
            },
        }
    }

    /// Takes out the confirmation that is pending for a session, if there is
    /// one.
    pub fn take(&mut self, session_id: u128) -> (r: Option<PendingProxyConfirmation>)
        requires
            old(self).wf(),
        ensures
            final(self).wf(),
            final(self)@ == without_pending(old(self)@, session_id),
            r is Some <==> has_pending(old(self)@, session_id),
            r matches Some(p) ==> p@ == pending_at(old(self)@, session_id) && p.created_at.wf(),
    {
        let ghost before = self@;
        match self.position(session_id) {
            Some(i) => {
                assert(before[i as int].created_at.wf());
                let taken = self.entries.remove(i);
                assert(self@ =~= without_pending(before, session_id));
                assert(pending_ids(self@) =~= pending_ids(before).remove(i as int));
                proof {
                    lemma_remove_unique(pending_ids(before), i as int);
                }
                Some(taken)
            },
            None => None,
        }
    }

    /// Takes out the confirmations whose time has run out at the given time,
    /// in the order in which they were stored.
    pub fn take_timed_out(&mut self, now: Timestamp) -> (r: Vec<PendingProxyConfirmation>)
        requires
            old(self).wf(),
            now.wf(),
        ensures
            final(self).wf(),
            final(self)@ == timed_out_upto(old(self)@, now, false, old(self)@.len()),
            r@.map_values(|p: PendingProxyConfirmation| p@) == timed_out_upto(
                old(self)@,
                now,
                true,
                old(self)@.len(),
            ),
    {
        let ghost before = self@;
        let mut kept: Vec<PendingProxyConfirmation> = Vec::new();
        let mut taken: Vec<PendingProxyConfirmation> = Vec::new();
        let ghost mut origin: Seq<int> = Seq::empty();
        let mut i: usize = 0;
        while i < self.entries.len()
            invariant
                i <= self.entries.len(),
                self@ == before,
                pending_wf(before),
                now.wf(),
                kept@.map_values(|p: PendingProxyConfirmation| p@) == timed_out_upto(
                    before,
                    now,
                    false,
                    i as nat,
                ),
                taken@.map_values(|p: PendingProxyConfirmation| p@) == timed_out_upto(
                    before,
                    now,
                    true,
                    i as nat,
                ),
                origin.len() == kept@.len(),
                forall|a: int| 0 <= a < origin.len() ==> 0 <= #[trigger] origin[a] < i && kept@[a]@ == before[origin[a]],
                forall|a: int, b: int| 0 <= a < b < origin.len() ==> origin[a] < origin[b],
            decreases self.entries.len() - i,
        {
            let ghost kept_before = kept@.map_values(|p: PendingProxyConfirmation| p@);
            let ghost taken_before = taken@.map_values(|p: PendingProxyConfirmation| p@);
            assert(self.entries[i as int]@ == before[i as int]);
            assert(before[i as int].created_at.wf());
            if now.elapsed_at_least(&self.entries[i].created_at, self.entries[i].timeout_seconds) {
                taken.push(self.entries[i].clone());
                assert(taken@.map_values(|p: PendingProxyConfirmation| p@) =~= taken_before.push(
                    before[i as int],
                ));
            } else {
                kept.push(self.entries[i].clone());
                proof {
                    origin = origin.push(i as int);
                }
                assert(kept@.map_values(|p: PendingProxyConfirmation| p@) =~= kept_before.push(
                    before[i as int],
                ));
            }
            i += 1;
        }
        self.entries = kept;
        proof {
            let after = self@;
            lemma_subsequence_unique(pending_ids(before), pending_ids(after), origin);
            assert forall|a: int| 0 <= a < after.len() implies (#[trigger] after[a]).created_at.wf() by {
                assert(after[a] == before[origin[a]]);
            }
        }
        taken
    }
}

/// A vouching session that is to be dropped at a given time.
#[derive(Clone, Copy, Debug, PartialEq, Eq, Structural)]
pub struct ScheduledCleanup {
    pub session_id: u128,
    pub due: Timestamp,
}

impl ScheduledCleanup {
    /// Whether the time to drop the session has come at the given time.
    pub open spec fn due_at(self, now: Timestamp) -> bool {
        self.due.as_nanos() <= now.as_nanos()
    }
}

/// Those of the first `n` scheduled cleanups that are due, or are not, at the
/// given time.
pub open spec fn due_upto(schedule: Seq<ScheduledCleanup>, now: Timestamp, due: bool, n: nat) -> Seq<
    ScheduledCleanup,
>
    decreases n,
{
    if n == 0 {
        Seq::empty()
    } else if schedule[n - 1].due_at(now) == due {
        due_upto(schedule, now, due, (n - 1) as nat).push(schedule[n - 1])
    } else {
        due_upto(schedule, now, due, (n - 1) as nat)
    }
}

/// All due times are well-formed.
pub open spec fn schedule_wf(schedule: Seq<ScheduledCleanup>) -> bool {
    forall|i: int| 0 <= i < schedule.len() ==> (#[trigger] schedule[i]).due.wf()
}

/// The vouching sessions that are to be dropped, each with its time.
#[derive(Debug)]
pub struct CleanupSchedule {
    entries: Vec<ScheduledCleanup>,
}

impl View for CleanupSchedule {
    type V = Seq<ScheduledCleanup>;

    closed spec fn view(&self) -> Seq<ScheduledCleanup> {
        self.entries@
    }
}

impl CleanupSchedule {
    /// All due times are well-formed.
    pub open spec fn wf(&self) -> bool {
        schedule_wf(self@)
    }

    /// An empty schedule.
    pub fn new() -> (s: CleanupSchedule)
        ensures
            s.wf(),
            s@ == Seq::<ScheduledCleanup>::empty(),
    {
        CleanupSchedule { entries: Vec::new() }
    }

    /// Schedules a session to be dropped at the given time.
    pub fn schedule(&mut self, session_id: u128, due: Timestamp)
        requires
            old(self).wf(),
            due.wf(),
        ensures
            final(self).wf(),
            final(self)@ == old(self)@.push(ScheduledCleanup { session_id, due }),
    {
        self.entries.push(ScheduledCleanup { session_id, due });
    }

    /// Takes out the cleanups that are due at the given time, in the order in
    /// which they were scheduled.
    pub fn take_due(&mut self, now: Timestamp) -> (r: Vec<ScheduledCleanup>)
        requires
            old(self).wf(),
            now.wf(),
        ensures
            final(self).wf(),
            final(self)@ == due_upto(old(self)@, now, false, old(self)@.len()),
            r@ == due_upto(old(self)@, now, true, old(self)@.len()),
    {
        let ghost before = self@;
        let mut kept: Vec<ScheduledCleanup> = Vec::new();
        let mut taken: Vec<ScheduledCleanup> = Vec::new();
        let mut i: usize = 0;
        while i < self.entries.len()
            invariant
                i <= self.entries.len(),
                self@ == before,
                schedule_wf(before),
                now.wf(),
                kept@ == due_upto(before, now, false, i as nat),
                taken@ == due_upto(before, now, true, i as nat),
                schedule_wf(kept@),
            decreases self.entries.len() - i,
        {
            assert(before[i as int].due.wf());
            if self.entries[i].due.at_or_before(&now) {
                taken.push(self.entries[i]);
            } else {
                kept.push(self.entries[i]);
            }
            i += 1;
        }
        self.entries = kept;
        taken
    }
}

} // verus!
