//! The books that a voucher keeps: its vouching sessions, the keys it derived
//! for the vouchees, and the sessions that are due to be dropped.

use crate::device::DeviceRegistry;
use crate::device::RegistryView;
use crate::device::SessionKeys;
use crate::device::SessionKeysView;
use crate::keyed::lemma_absent;
use crate::keyed::lemma_index_of_unique;
use crate::keyed::lemma_push_unique;
use crate::keyed::lemma_remove_unique;
use crate::proxy::AcceptedDevice;
use crate::proxy::AcceptedDeviceView;
use crate::proxy::RejectedDevice;
use crate::proxy::RejectedDeviceView;
use crate::proxy::VouchStateView;
use crate::proxy::VouchStatus;
use crate::proxy::VouchingSession;
use crate::proxy::VouchingSessionView;
use crate::keyed::lemma_subsequence_unique;
use vstd::prelude::*;
use vstd::string::*;

verus! {

/// Seconds for which a completed vouching session can still be looked at.
pub const VOUCHING_RETENTION_SECONDS: u64 = 3600;

/// The identifiers of a list of vouching sessions, in order.
pub open spec fn vouching_ids(sessions: Seq<VouchingSessionView>) -> Seq<u128> {
    sessions.map_values(|s: VouchingSessionView| s.id)
}

/// No session occurs twice, and every session is well-formed.
pub open spec fn vouching_wf(sessions: Seq<VouchingSessionView>) -> bool {
    &&& vouching_ids(sessions).no_duplicates()
    &&& forall|i: int| 0 <= i < sessions.len() ==> (#[trigger] sessions[i]).wf()
}

/// Whether a list holds the vouching session with the given identifier.
pub open spec fn has_vouching(sessions: Seq<VouchingSessionView>, id: u128) -> bool {
    vouching_ids(sessions).contains(id)
}

/// Where the vouching session with the given identifier stands.
pub open spec fn vouching_index(sessions: Seq<VouchingSessionView>, id: u128) -> int {
    vouching_ids(sessions).index_of(id)
}

/// The vouching session with the given identifier.
pub open spec fn vouching_at(sessions: Seq<VouchingSessionView>, id: u128) -> VouchingSessionView {
    sessions[vouching_index(sessions, id)]
}

/// The sessions after one was stored: it replaces the session with its
/// identifier, or is added at the end.
pub open spec fn with_vouching(sessions: Seq<VouchingSessionView>, s: VouchingSessionView) -> Seq<
    VouchingSessionView,
> {
    if has_vouching(sessions, s.id) {
        sessions.update(vouching_index(sessions, s.id), s)
    } else {
        sessions.push(s)
    }
}

/// The sessions without the one with the given identifier.
pub open spec fn without_vouching(sessions: Seq<VouchingSessionView>, id: u128) -> Seq<
    VouchingSessionView,
> {
    if has_vouching(sessions, id) {
        sessions.remove(vouching_index(sessions, id))
    } else {
        sessions
    }
}

/// Storing a well-formed session keeps the sessions well-formed, and the
/// stored session is the one found under its identifier.
pub proof fn lemma_with_vouching(sessions: Seq<VouchingSessionView>, s: VouchingSessionView)
    requires
        vouching_wf(sessions),
        s.wf(),
    ensures
        vouching_wf(with_vouching(sessions, s)),
        has_vouching(with_vouching(sessions, s), s.id),
        vouching_at(with_vouching(sessions, s), s.id) == s,
        forall|id: u128|
            id != s.id ==> (has_vouching(with_vouching(sessions, s), id) <==> has_vouching(
                sessions,
                id,
            )),
{
    let after = with_vouching(sessions, s);
    if has_vouching(sessions, s.id) {
        let i = vouching_index(sessions, s.id);
        assert(vouching_ids(after) =~= vouching_ids(sessions));
    } else {
        assert(vouching_ids(after) =~= vouching_ids(sessions).push(s.id));
        lemma_push_unique(vouching_ids(sessions), s.id);
        lemma_index_of_unique(vouching_ids(after), s.id, sessions.len() as int);
        assert forall|id: u128| id != s.id implies (has_vouching(after, id) <==> has_vouching(
            sessions,
            id,
        )) by {
            if has_vouching(after, id) {
                let j = choose|j: int| 0 <= j < after.len() && vouching_ids(after)[j] == id;
                assert(vouching_ids(sessions)[j] == id);
            }
            if has_vouching(sessions, id) {
                let j = choose|j: int| 0 <= j < sessions.len() && vouching_ids(sessions)[j] == id;
                assert(vouching_ids(after)[j] == id);
            }
        }
    }
}

/// Dropping a session keeps the sessions well-formed, and the session is gone.
pub proof fn lemma_without_vouching(sessions: Seq<VouchingSessionView>, id: u128)
    requires
        vouching_wf(sessions),
    ensures
        vouching_wf(without_vouching(sessions, id)),
        !has_vouching(without_vouching(sessions, id), id),
{
    if has_vouching(sessions, id) {
        let i = vouching_index(sessions, id);
        let after = sessions.remove(i);
        assert(vouching_ids(after) =~= vouching_ids(sessions).remove(i));
        lemma_remove_unique(vouching_ids(sessions), i);
    }
}

/// The vouching sessions of a voucher.
#[derive(Debug)]
pub struct VouchingSessions {
    sessions: Vec<VouchingSession>,
}

impl View for VouchingSessions {
    type V = Seq<VouchingSessionView>;

    closed spec fn view(&self) -> Seq<VouchingSessionView> {
        self.sessions@.map_values(|s: VouchingSession| s@)
    }
}

impl VouchingSessions {
    /// No session occurs twice, and every session is well-formed.
    pub open spec fn wf(&self) -> bool {
        vouching_wf(self@)
    }

    /// A book without sessions.
    pub fn new() -> (b: VouchingSessions)
        ensures
            b.wf(),
            b@ == Seq::<VouchingSessionView>::empty(),
    {
        let b = VouchingSessions { sessions: Vec::new() };
        assert(b@ =~= Seq::<VouchingSessionView>::empty());
        assert(vouching_ids(b@) =~= Seq::<u128>::empty());
        b
    }

    /// The place of the session with the given identifier.
    fn position(&self, id: u128) -> (r: Option<usize>)
        requires
            self.wf(),
        ensures
            r is Some <==> has_vouching(self@, id),
            r matches Some(i) ==> i < self.sessions.len() && i == vouching_index(self@, id),
    {
        let mut i: usize = 0;
        while i < self.sessions.len()
            invariant
                i <= self.sessions.len(),
                self.wf(),
                forall|j: int| 0 <= j < i ==> vouching_ids(self@)[j] != id,
            decreases self.sessions.len() - i,
        {
            if self.sessions[i].id == id {
                proof {
                    lemma_index_of_unique(vouching_ids(self@), id, i as int);
                }
                return Some(i);
            }
            i += 1;
        }
        proof {
            lemma_absent(vouching_ids(self@), id);
        }
        None
    }

    /// Whether the book holds the session with the given identifier.
    pub fn contains(&self, id: u128) -> (r: bool)
        requires
            self.wf(),
        ensures
            r == has_vouching(self@, id),
    {
        self.position(id).is_some()
    }

    /// The session with the given identifier, if the book holds it.
    pub fn get(&self, id: u128) -> (r: Option<VouchingSession>)
        requires
            self.wf(),
        ensures
            r is Some <==> has_vouching(self@, id),
            r matches Some(s) ==> s@ == vouching_at(self@, id) && s.wf(),
    {
        match self.position(id) {
            Some(i) => {
                assert(self@[i as int].wf());
                Some(self.sessions[i].clone())
            },
            None => None,
        }
    }

    /// Stores a session: it replaces the session with its identifier, or is
    /// added.
    pub fn put(&mut self, session: VouchingSession)
        requires
            old(self).wf(),
            session.wf(),
        ensures
            final(self).wf(),
            final(self)@ == with_vouching(old(self)@, session@),
    {
        let ghost before = self@;
        proof {
            lemma_with_vouching(before, session@);
        }
        match self.position(session.id) {
            Some(i) => {
                self.sessions.set(i, session);
                assert(self@ =~= with_vouching(before, session@));
            },
            None => {
                self.sessions.push(session);
                assert(self@ =~= with_vouching(before, session@));
            },
        }
    }

    /// Drops the session with the given identifier; nothing changes where the
    /// book does not hold it.
    pub fn remove(&mut self, id: u128)
        requires
            old(self).wf(),
        ensures
            final(self).wf(),
            final(self)@ == without_vouching(old(self)@, id),
    {
        let ghost before = self@;
        proof {
            lemma_without_vouching(before, id);
        }
        match self.position(id) {
            Some(i) => {
                self.sessions.remove(i);
                assert(self@ =~= without_vouching(before, id));
            },
            None => {},
        }
    }
}

/// The keys that a voucher derived for one vouchee and one target, as the
/// vouchee holds them.
#[derive(Debug)]
pub struct CachedKeys {
    pub session_id: u128,
    pub device_id: u128,
    pub keys: SessionKeys,
}

/// The mathematical value of a [`CachedKeys`].
pub ghost struct CachedKeysView {
    pub session_id: u128,
    pub device_id: u128,
    pub keys: SessionKeysView,
}

impl View for CachedKeys {
    type V = CachedKeysView;

    open spec fn view(&self) -> CachedKeysView {
        CachedKeysView { session_id: self.session_id, device_id: self.device_id, keys: self.keys@ }
    }
}

/// The sessions and targets of a list of cached keys, in order.
pub open spec fn key_ids(keys: Seq<CachedKeysView>) -> Seq<(u128, u128)> {
    keys.map_values(|k: CachedKeysView| (k.session_id, k.device_id))
}

/// Whether keys are cached for the given session and target.
pub open spec fn has_keys(keys: Seq<CachedKeysView>, session_id: u128, device_id: u128) -> bool {
    key_ids(keys).contains((session_id, device_id))
}

/// The keys cached for the given session and target.
pub open spec fn keys_at(keys: Seq<CachedKeysView>, session_id: u128, device_id: u128) -> SessionKeysView {
    keys[key_ids(keys).index_of((session_id, device_id))].keys
}

/// The cache after keys were stored for a session and target.
pub open spec fn with_keys(keys: Seq<CachedKeysView>, entry: CachedKeysView) -> Seq<CachedKeysView> {
    if has_keys(keys, entry.session_id, entry.device_id) {
        keys.update(key_ids(keys).index_of((entry.session_id, entry.device_id)), entry)
    } else {
        keys.push(entry)
    }
}

/// The cache without the keys for the given session and target.
pub open spec fn without_keys(keys: Seq<CachedKeysView>, session_id: u128, device_id: u128) -> Seq<
    CachedKeysView,
> {
    if has_keys(keys, session_id, device_id) {
        keys.remove(key_ids(keys).index_of((session_id, device_id)))
    } else {
        keys
    }
}

/// Those of the first `n` cached keys that belong to another session than the
/// given one.
pub open spec fn other_sessions_upto(keys: Seq<CachedKeysView>, session_id: u128, n: nat) -> Seq<
    CachedKeysView,
>
    decreases n,
{
    if n == 0 {
        Seq::empty()
    } else if keys[n - 1].session_id == session_id {
        other_sessions_upto(keys, session_id, (n - 1) as nat)
    } else {
        other_sessions_upto(keys, session_id, (n - 1) as nat).push(keys[n - 1])
    }
}

/// The cache without any keys of the given session.
pub open spec fn without_session_keys(keys: Seq<CachedKeysView>, session_id: u128) -> Seq<
    CachedKeysView,
> {
    other_sessions_upto(keys, session_id, keys.len())
}

/// What is left of the first `n` cached keys after a session's keys were
/// dropped belongs to other sessions.
pub proof fn lemma_other_sessions(keys: Seq<CachedKeysView>, session_id: u128, n: nat)
    requires
        n <= keys.len(),
    ensures
        forall|i: int|
            0 <= i < other_sessions_upto(keys, session_id, n).len() ==> (
            #[trigger] other_sessions_upto(keys, session_id, n)[i]).session_id != session_id,
    decreases n,
{
    if n > 0 {
        lemma_other_sessions(keys, session_id, (n - 1) as nat);
        let prev = other_sessions_upto(keys, session_id, (n - 1) as nat);
        let this = other_sessions_upto(keys, session_id, n);
        assert forall|i: int| 0 <= i < this.len() implies (#[trigger] this[i]).session_id
            != session_id by {
            if i < prev.len() {
                assert(this[i] == prev[i]);
            }
        }
    }
}

/// Storing keys keeps one entry per session and target. The stored keys are
/// found under their session and target, and all other keys are found as
/// before.
pub proof fn lemma_with_keys(keys: Seq<CachedKeysView>, entry: CachedKeysView, s: u128, d: u128)
    requires
        key_ids(keys).no_duplicates(),
    ensures
        key_ids(with_keys(keys, entry)).no_duplicates(),
        has_keys(with_keys(keys, entry), entry.session_id, entry.device_id),
        keys_at(with_keys(keys, entry), entry.session_id, entry.device_id) == entry.keys,
        (s, d) != (entry.session_id, entry.device_id) ==> (has_keys(with_keys(keys, entry), s, d)
            == has_keys(keys, s, d) && (has_keys(keys, s, d) ==> keys_at(
            with_keys(keys, entry),
            s,
            d,
        ) == keys_at(keys, s, d))),
{
    let after = with_keys(keys, entry);
    let ids = key_ids(keys);
    let k = (entry.session_id, entry.device_id);
    if has_keys(keys, entry.session_id, entry.device_id) {
        let i = ids.index_of(k);
        assert(0 <= i < ids.len() && ids[i] == k);
        assert(key_ids(after) =~= ids);
        if has_keys(keys, s, d) {
            let j = ids.index_of((s, d));
            assert(0 <= j < ids.len() && ids[j] == (s, d));
        }
    } else {
        assert(key_ids(after) =~= ids.push(k));
        lemma_push_unique(ids, k);
        lemma_index_of_unique(key_ids(after), k, ids.len() as int);
        if has_keys(keys, s, d) {
            let j = ids.index_of((s, d));
            assert(0 <= j < ids.len() && ids[j] == (s, d));
            lemma_index_of_unique(key_ids(after), (s, d), j);
        } else if has_keys(after, s, d) && (s, d) != k {
            let j = choose|j: int| 0 <= j < key_ids(after).len() && key_ids(after)[j] == (s, d);
            assert(ids[j] == (s, d));
        }
    }
}

/// Dropping keys keeps one entry per session and target. The dropped keys are
/// gone, and all other keys are found as before.
pub proof fn lemma_without_keys(keys: Seq<CachedKeysView>, session_id: u128, device_id: u128, s: u128, d: u128)
    requires
        key_ids(keys).no_duplicates(),
    ensures
        key_ids(without_keys(keys, session_id, device_id)).no_duplicates(),
        !has_keys(without_keys(keys, session_id, device_id), session_id, device_id),
        (s, d) != (session_id, device_id) ==> (has_keys(
            without_keys(keys, session_id, device_id),
            s,
            d,
        ) == has_keys(keys, s, d) && (has_keys(keys, s, d) ==> keys_at(
            without_keys(keys, session_id, device_id),
            s,
            d,
        ) == keys_at(keys, s, d))),
{
    let after = without_keys(keys, session_id, device_id);
    let ids = key_ids(keys);
    if has_keys(keys, session_id, device_id) {
        let i = ids.index_of((session_id, device_id));
        assert(0 <= i < ids.len() && ids[i] == (session_id, device_id));
        assert(key_ids(after) =~= ids.remove(i));
        lemma_remove_unique(ids, i);
        if (s, d) != (session_id, device_id) && has_keys(keys, s, d) {
            let j = ids.index_of((s, d));
            assert(0 <= j < ids.len() && ids[j] == (s, d));
            let j2 = if j < i { j } else { j - 1 };
            assert(key_ids(after)[j2] == (s, d));
            lemma_index_of_unique(key_ids(after), (s, d), j2);
            assert(after[j2] == keys[j]);
        }
    }
}

/// Dropping the keys of a session leaves none of that session, and adds none.
pub proof fn lemma_without_session_keys(keys: Seq<CachedKeysView>, session_id: u128, n: nat, s: u128, d: u128)
    requires
        n <= keys.len(),
    ensures
        !has_keys(other_sessions_upto(keys, session_id, n), session_id, d),
        has_keys(other_sessions_upto(keys, session_id, n), s, d) ==> has_keys(keys, s, d),
    decreases n,
{
    let this = other_sessions_upto(keys, session_id, n);
    lemma_other_sessions(keys, session_id, n);
    if has_keys(this, session_id, d) {
        let j = choose|j: int| 0 <= j < key_ids(this).len() && key_ids(this)[j] == (session_id, d);
        assert(this[j].session_id == session_id);
    }
    if n > 0 {
        lemma_without_session_keys(keys, session_id, (n - 1) as nat, s, d);
        let prev = other_sessions_upto(keys, session_id, (n - 1) as nat);
        if has_keys(this, s, d) {
            let j = choose|j: int| 0 <= j < key_ids(this).len() && key_ids(this)[j] == (s, d);
            if j < prev.len() {
                assert(key_ids(prev)[j] == (s, d));
            } else {
                assert(key_ids(keys)[n - 1] == (s, d));
            }
        }
    }
}

/// The keys that a voucher holds for the vouchees of its sessions until the
/// sessions are finished.
#[derive(Debug)]
pub struct KeyCache {
    entries: Vec<CachedKeys>,
}

impl View for KeyCache {
    type V = Seq<CachedKeysView>;

    closed spec fn view(&self) -> Seq<CachedKeysView> {
        self.entries@.map_values(|k: CachedKeys| k@)
    }
}

impl KeyCache {
    /// No pair of session and target occurs twice.
    pub open spec fn wf(&self) -> bool {
        key_ids(self@).no_duplicates()
    }

    /// An empty cache.
    pub fn new() -> (c: KeyCache)
        ensures
            c.wf(),
            c@ == Seq::<CachedKeysView>::empty(),
    {
        let c = KeyCache { entries: Vec::new() };
        assert(c@ =~= Seq::<CachedKeysView>::empty());
        assert(key_ids(c@) =~= Seq::<(u128, u128)>::empty());
        c
    }

    /// The place of the keys for a session and target.
    fn position(&self, session_id: u128, device_id: u128) -> (r: Option<usize>)
        requires
            self.wf(),
        ensures
            r is Some <==> has_keys(self@, session_id, device_id),
            r matches Some(i) ==> i < self.entries.len() && i == key_ids(self@).index_of(
                (session_id, device_id),
            ),
    {
        let mut i: usize = 0;
        while i < self.entries.len()
            invariant
                i <= self.entries.len(),
                self.wf(),
                forall|j: int| 0 <= j < i ==> key_ids(self@)[j] != (session_id, device_id),
            decreases self.entries.len() - i,
        {
            if self.entries[i].session_id == session_id && self.entries[i].device_id == device_id {
                proof {
                    lemma_index_of_unique(key_ids(self@), (session_id, device_id), i as int);
                }
                return Some(i);
            }
            i += 1;
        }
        proof {
            lemma_absent(key_ids(self@), (session_id, device_id));
        }
        None
    }

    /// The keys for a session and target, if they are cached.
    pub fn get(&self, session_id: u128, device_id: u128) -> (r: Option<SessionKeys>)
        requires
            self.wf(),
        ensures
            r is Some <==> has_keys(self@, session_id, device_id),
            r matches Some(k) ==> k@ == keys_at(self@, session_id, device_id),
    {
        match self.position(session_id, device_id) {
            Some(i) => Some(self.entries[i].keys.clone()),
            None => None,
        }
    }

    /// Stores the keys for a session and target, in place of earlier ones.
    pub fn insert(&mut self, session_id: u128, device_id: u128, keys: SessionKeys)
        requires
            old(self).wf(),
        ensures
            final(self).wf(),
            final(self)@ == with_keys(
                old(self)@,
                CachedKeysView { session_id, device_id, keys: keys@ },
            ),
    {
        let ghost before = self@;
        let ghost entry = CachedKeysView { session_id, device_id, keys: keys@ };
        match self.position(session_id, device_id) {
            Some(i) => {
                self.entries.set(i, CachedKeys { session_id, device_id, keys });
                assert(self@ =~= with_keys(before, entry));
                assert(key_ids(self@) =~= key_ids(before));
            },
            None => {
                self.entries.push(CachedKeys { session_id, device_id, keys });
                assert(self@ =~= with_keys(before, entry));
                assert(key_ids(self@) =~= key_ids(before).push((session_id, device_id)));
                proof {
                    lemma_push_unique(key_ids(before), (session_id, device_id));
                }
            },
        }
    }

    /// Drops the keys for a session and target, if they are cached.
    pub fn remove(&mut self, session_id: u128, device_id: u128)
        requires
            old(self).wf(),
        ensures
            final(self).wf(),
            final(self)@ == without_keys(old(self)@, session_id, device_id),
    {
        let ghost before = self@;
        match self.position(session_id, device_id) {
            Some(i) => {
                self.entries.remove(i);
                assert(self@ =~= without_keys(before, session_id, device_id));
                assert(key_ids(self@) =~= key_ids(before).remove(i as int));
                proof {
                    lemma_remove_unique(key_ids(before), i as int);
                }
            },
            None => {},
        }
    }

    /// Drops all keys of a session.
    pub fn purge_session(&mut self, session_id: u128)
        requires
            old(self).wf(),
        ensures
            final(self).wf(),
            final(self)@ == without_session_keys(old(self)@, session_id),
    {
        let ghost before = self@;
        let mut kept: Vec<CachedKeys> = Vec::new();
        let ghost mut origin: Seq<int> = Seq::empty();
        let mut i: usize = 0;
        while i < self.entries.len()
            invariant
                i <= self.entries.len(),
                self@ == before,
                key_ids(before).no_duplicates(),
                kept@.map_values(|k: CachedKeys| k@) == other_sessions_upto(
                    before,
                    session_id,
                    i as nat,
                ),
                origin.len() == kept@.len(),
                forall|a: int| 0 <= a < origin.len() ==> 0 <= #[trigger] origin[a] < i && kept@[a]@ == before[origin[a]],
                forall|a: int, b: int| 0 <= a < b < origin.len() ==> origin[a] < origin[b],
            decreases self.entries.len() - i,
        {
            let ghost kept_before = kept@.map_values(|k: CachedKeys| k@);
            assert(self.entries[i as int]@ == before[i as int]);
            if self.entries[i].session_id != session_id {
                kept.push(
                    CachedKeys {
                        session_id: self.entries[i].session_id,
                        device_id: self.entries[i].device_id,
                        keys: self.entries[i].keys.clone(),
                    },
                );
                proof {
                    origin = origin.push(i as int);
                }
                assert(kept@.map_values(|k: CachedKeys| k@) =~= kept_before.push(before[i as int]));
            }
            i += 1;
        }
        self.entries = kept;
        proof {
            lemma_subsequence_unique(key_ids(before), key_ids(self@), origin);
        }
    }
}

/// The devices among the first `n` targets that accepted, each with what the
/// registry says of it and the keys cached for it. A target that the registry
/// does not know, or that no keys are cached for, is passed over.
pub open spec fn accepted_upto(
    vouches: Seq<VouchStateView>,
    registry: RegistryView,
    keys: Seq<CachedKeysView>,
    session_id: u128,
    n: nat,
) -> Seq<AcceptedDeviceView>
    decreases n,
{
    if n == 0 {
        Seq::empty()
    } else {
        let v = vouches[n - 1];
        let before = accepted_upto(vouches, registry, keys, session_id, (n - 1) as nat);
        if v.status == VouchStatus::Accepted && registry.is_paired(v.device_id) && has_keys(
            keys,
            session_id,
            v.device_id,
        ) {
            before.push(
                AcceptedDeviceView {
                    device_info: registry.device(v.device_id).info,
                    session_keys: keys_at(keys, session_id, v.device_id),
                },
            )
        } else {
            before
        }
    }
}

/// The devices among the first `n` targets that refused or could not be
/// reached, each with the reason recorded for it.
pub open spec fn rejected_upto(vouches: Seq<VouchStateView>, n: nat) -> Seq<RejectedDeviceView>
    decreases n,
{
    if n == 0 {
        Seq::empty()
    } else if vouches[n - 1].failed() {
        rejected_upto(vouches, (n - 1) as nat).push(vouches[n - 1].rejection())
    } else {
        rejected_upto(vouches, (n - 1) as nat)
    }
}

/// The report of a vouching session to its vouchee: who accepted, and who did
/// not.
pub fn completion_report(session: &VouchingSession, registry: &DeviceRegistry, keys: &KeyCache) -> (r: (
    Vec<AcceptedDevice>,
    Vec<RejectedDevice>,
))
    requires
        registry.wf(),
        keys.wf(),
    ensures
        r.0@.map_values(|d: AcceptedDevice| d@) == accepted_upto(
            session@.vouches,
            registry@,
            keys@,
            session.id,
            session@.vouches.len(),
        ),
        r.1@.map_values(|d: RejectedDevice| d@) == rejected_upto(
            session@.vouches,
            session@.vouches.len(),
        ),
{
    let mut accepted: Vec<AcceptedDevice> = Vec::new();
    let mut rejected: Vec<RejectedDevice> = Vec::new();
    let mut i: usize = 0;
    while i < session.vouches.len()
        invariant
            i <= session.vouches.len(),
            registry.wf(),
            keys.wf(),
            accepted@.map_values(|d: AcceptedDevice| d@) == accepted_upto(
                session@.vouches,
                registry@,
                keys@,
                session.id,
                i as nat,
            ),
            rejected@.map_values(|d: RejectedDevice| d@) == rejected_upto(
                session@.vouches,
                i as nat,
            ),
        decreases session.vouches.len() - i,
    {
        let ghost accepted_before = accepted@.map_values(|d: AcceptedDevice| d@);
        let ghost rejected_before = rejected@.map_values(|d: RejectedDevice| d@);
        let vouch = &session.vouches[i];
        assert(vouch@ == session@.vouches[i as int]);
        match vouch.status {
            VouchStatus::Accepted => {
                let device = registry.get_paired_device(vouch.device_id);
                let cached = keys.get(session.id, vouch.device_id);
                match (device, cached) {
                    (Some(device), Some(cached)) => {
                        let entry = AcceptedDevice {
                            device_info: device.info,
                            session_keys: cached,
                        };
                        accepted.push(entry);
                        assert(accepted@.map_values(|d: AcceptedDevice| d@) =~= accepted_before.push(
                            entry@,
                        ));
                    },
                    _ => {},
                }
            },
            VouchStatus::Rejected | VouchStatus::Unreachable => {
                let reason = match &vouch.reason {
                    Some(r) => r.clone(),
                    None => "Vouch rejected".to_string(),
                };
                let entry = RejectedDevice {
                    device_id: vouch.device_id,
                    device_name: vouch.device_name.clone(),
                    reason,
                };
                rejected.push(entry);
                assert(rejected@.map_values(|d: RejectedDevice| d@) =~= rejected_before.push(
                    entry@,
                ));
            },
            _ => {},
        }
        i += 1;
    }
    (accepted, rejected)
}

} // verus!
