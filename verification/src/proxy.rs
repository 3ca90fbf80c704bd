//! Vouching sessions: one device introduces a newly paired device to others.

use crate::device::DeviceInfo;
use crate::device::DeviceInfoView;
use crate::device::SessionKeys;
use crate::device::SessionKeysView;
use crate::keyed::all_distinct;
use crate::keyed::lemma_absent;
use crate::keyed::lemma_index_of_unique;
use crate::keyed::lemma_push_unique;
use crate::text::copy_text;
use crate::text::opt_text;
use crate::time::Timestamp;
use vstd::prelude::*;
use vstd::string::*;

verus! {

/// The document that a voucher signs: who is vouched for, under which key, in
/// which session and when.
#[derive(Debug, PartialEq, Eq)]
pub struct VouchPayload {
    pub vouchee_device_id: u128,
    pub vouchee_public_key: Vec<u8>,
    pub vouchee_device_info: DeviceInfo,
    pub timestamp: Timestamp,
    pub session_id: u128,
}

/// The mathematical value of a [`VouchPayload`].
pub ghost struct VouchPayloadView {
    pub vouchee_device_id: u128,
    pub vouchee_public_key: Seq<u8>,
    pub vouchee_device_info: DeviceInfoView,
    pub timestamp: Timestamp,
    pub session_id: u128,
}

impl View for VouchPayload {
    type V = VouchPayloadView;

    open spec fn view(&self) -> VouchPayloadView {
        VouchPayloadView {
            vouchee_device_id: self.vouchee_device_id,
            vouchee_public_key: self.vouchee_public_key@,
            vouchee_device_info: self.vouchee_device_info@,
            timestamp: self.timestamp,
            session_id: self.session_id,
        }
    }
}

/// A device that accepted a vouch, with the keys that it and the vouchee will
/// use, as the vouchee holds them.
#[derive(Debug, PartialEq, Eq)]
pub struct AcceptedDevice {
    pub device_info: DeviceInfo,
    pub session_keys: SessionKeys,
}

/// The mathematical value of an [`AcceptedDevice`].
pub ghost struct AcceptedDeviceView {
    pub device_info: DeviceInfoView,
    pub session_keys: SessionKeysView,
}

impl View for AcceptedDevice {
    type V = AcceptedDeviceView;

    open spec fn view(&self) -> AcceptedDeviceView {
        AcceptedDeviceView { device_info: self.device_info@, session_keys: self.session_keys@ }
    }
}

impl Clone for AcceptedDevice {
    fn clone(&self) -> (r: Self)
        ensures
            r@ == self@,
    {
        AcceptedDevice {
            device_info: self.device_info.clone(),
            session_keys: self.session_keys.clone(),
        }
    }
}

/// A device that did not accept a vouch, and why.
#[derive(Debug, PartialEq, Eq)]
pub struct RejectedDevice {
    pub device_id: u128,
    pub device_name: String,
    pub reason: String,
}

/// The mathematical value of a [`RejectedDevice`].
pub ghost struct RejectedDeviceView {
    pub device_id: u128,
    pub device_name: Seq<char>,
    pub reason: Seq<char>,
}

impl View for RejectedDevice {
    type V = RejectedDeviceView;

    open spec fn view(&self) -> RejectedDeviceView {
        RejectedDeviceView {
            device_id: self.device_id,
            device_name: self.device_name@,
            reason: self.reason@,
        }
    }
}

impl Clone for RejectedDevice {
    fn clone(&self) -> (r: Self)
        ensures
            r@ == self@,
    {
        RejectedDevice {
            device_id: self.device_id,
            device_name: self.device_name.clone(),
            reason: self.reason.clone(),
        }
    }
}

/// Where a vouching session stands as a whole.
#[derive(Clone, Copy, Debug, PartialEq, Eq, Structural)]
pub enum VouchingSessionState {
    /// Created; no target has been chosen yet.
    Pending,
    /// Vouches are under way.
    InProgress,
    /// Every vouch has reached its final status.
    Completed,
}

/// Where the vouch to one target stands.
#[derive(Clone, Copy, Debug, PartialEq, Eq, Structural)]
pub enum VouchStatus {
    /// Chosen as a target; nothing was sent or stored yet.
    Selected,
    /// Stored for a target that could not be reached.
    Queued,
    /// Sent; the target has not answered yet.
    Waiting,
    /// The target accepted.
    Accepted,
    /// The target refused, or the vouch was refused before it was sent.
    Rejected,
    /// The target never answered in time.
    Unreachable,
}

impl VouchStatus {
    /// Accepted, rejected and unreachable are final.
    pub open spec fn spec_is_terminal(self) -> bool {
        self == VouchStatus::Accepted || self == VouchStatus::Rejected || self
            == VouchStatus::Unreachable
    }

    /// Whether the status is final.
    #[verifier::when_used_as_spec(spec_is_terminal)]
    pub fn is_terminal(self) -> (r: bool)
        ensures
            r == self.spec_is_terminal(),
    {
        match self {
            VouchStatus::Accepted | VouchStatus::Rejected | VouchStatus::Unreachable => true,
            _ => false,
        }
    }

    /// Selected, queued and waiting vouches are still open.
    pub open spec fn spec_is_pending(self) -> bool {
        !self.spec_is_terminal()
    }
}

/// The status of the vouch to one target, inside a [`VouchingSession`].
#[derive(Debug, PartialEq, Eq)]
pub struct VouchState {
    pub device_id: u128,
    pub device_name: String,
    pub status: VouchStatus,
    pub updated_at: Timestamp,
    pub reason: Option<String>,
}

/// The mathematical value of a [`VouchState`].
pub ghost struct VouchStateView {
    pub device_id: u128,
    pub device_name: Seq<char>,
    pub status: VouchStatus,
    pub updated_at: Timestamp,
    pub reason: Option<Seq<char>>,
}

impl VouchStateView {
    /// Whether the target refused the vouch or could not be reached.
    pub open spec fn failed(self) -> bool {
        self.status == VouchStatus::Rejected || self.status == VouchStatus::Unreachable
    }

    /// How a target that refused or could not be reached is named in the report
    /// to the vouchee: with the reason recorded for it, or "Vouch rejected"
    /// where none was.
    pub open spec fn rejection(self) -> RejectedDeviceView {
        RejectedDeviceView {
            device_id: self.device_id,
            device_name: self.device_name,
            reason: match self.reason {
                Some(r) => r,
                None => "Vouch rejected"@,
            },
        }
    }
}

impl View for VouchState {
    type V = VouchStateView;

    open spec fn view(&self) -> VouchStateView {
        VouchStateView {
            device_id: self.device_id,
            device_name: self.device_name@,
            status: self.status,
            updated_at: self.updated_at,
            reason: opt_text(self.reason),
        }
    }
}

impl Clone for VouchState {
    fn clone(&self) -> (r: Self)
        ensures
            r@ == self@,
    {
        VouchState {
            device_id: self.device_id,
            device_name: self.device_name.clone(),
            status: self.status,
            updated_at: self.updated_at,
            reason: copy_text(&self.reason),
        }
    }
}

/// The name recorded for a target that the registry does not know.
pub open spec fn unknown_device_name() -> Seq<char> {
    "Unknown device"@
}

/// The targets of a list of vouches, in order.
pub open spec fn vouch_ids(vouches: Seq<VouchStateView>) -> Seq<u128> {
    vouches.map_values(|v: VouchStateView| v.device_id)
}

/// Whether every vouch of a list has reached its final status.
pub open spec fn all_terminal(vouches: Seq<VouchStateView>) -> bool {
    forall|i: int| 0 <= i < vouches.len() ==> (#[trigger] vouches[i]).status.spec_is_terminal()
}

/// How many vouches among the first `n` are still open.
pub open spec fn pending_upto(vouches: Seq<VouchStateView>, n: nat) -> nat
    decreases n,
{
    if n == 0 {
        0
    } else if vouches[n - 1].status.spec_is_pending() {
        pending_upto(vouches, (n - 1) as nat) + 1
    } else {
        pending_upto(vouches, (n - 1) as nat)
    }
}

/// One "introduce the vouchee to these targets" operation of a voucher.
#[derive(Debug, PartialEq, Eq)]
pub struct VouchingSession {
    /// The identifier of the direct pairing session that it follows.
    pub id: u128,
    pub vouchee_device_id: u128,
    pub vouchee_device_name: String,
    pub voucher_device_id: u128,
    pub created_at: Timestamp,
    pub state: VouchingSessionState,
    /// One entry per target, in the order in which the targets were chosen.
    pub vouches: Vec<VouchState>,
}

/// The mathematical value of a [`VouchingSession`].
pub ghost struct VouchingSessionView {
    pub id: u128,
    pub vouchee_device_id: u128,
    pub vouchee_device_name: Seq<char>,
    pub voucher_device_id: u128,
    pub created_at: Timestamp,
    pub state: VouchingSessionState,
    pub vouches: Seq<VouchStateView>,
}

impl VouchingSessionView {
    /// No target occurs twice, and the session is completed exactly when every
    /// vouch is final; the one exception is a pending session without targets,
    /// which is not completed although none of its vouches is open.
    pub open spec fn wf(self) -> bool {
        &&& vouch_ids(self.vouches).no_duplicates()
        &&& self.state == VouchingSessionState::Completed ==> all_terminal(self.vouches)
        &&& all_terminal(self.vouches) ==> self.state == VouchingSessionState::Completed || (
        self.state == VouchingSessionState::Pending && self.vouches.len() == 0)
    }

    /// Whether the session has a vouch for a target.
    pub open spec fn has_vouch(self, device_id: u128) -> bool {
        vouch_ids(self.vouches).contains(device_id)
    }

    /// The vouch for a target that has one.
    pub open spec fn vouch(self, device_id: u128) -> VouchStateView {
        self.vouches[vouch_ids(self.vouches).index_of(device_id)]
    }

    /// Whether a change of the vouch for a target is taken: the session is not
    /// completed, and the vouch, if there is one, is not final.
    pub open spec fn accepts_update(self, device_id: u128) -> bool {
        self.state != VouchingSessionState::Completed && !(self.has_vouch(device_id)
            && self.vouch(device_id).status.spec_is_terminal())
    }

    /// The vouches after the vouch for a target got a new status: the target's
    /// entry is changed in place, or added at the end for a target without one.
    pub open spec fn vouches_with_status(
        self,
        device_id: u128,
        status: VouchStatus,
        reason: Option<Seq<char>>,
        now: Timestamp,
    ) -> Seq<VouchStateView> {
        if self.has_vouch(device_id) {
            self.vouches.update(
                vouch_ids(self.vouches).index_of(device_id),
                VouchStateView { status, reason, updated_at: now, ..self.vouch(device_id) },
            )
        } else {
            self.vouches.push(
                VouchStateView {
                    device_id,
                    device_name: unknown_device_name(),
                    status,
                    updated_at: now,
                    reason,
                },
            )
        }
    }

    /// The session after a change of the vouch for a target. A change that is
    /// not taken leaves the session as it is. One that is taken completes the
    /// session when it leaves no vouch open.
    pub open spec fn with_status(
        self,
        device_id: u128,
        status: VouchStatus,
        reason: Option<Seq<char>>,
        now: Timestamp,
    ) -> VouchingSessionView {
        if self.accepts_update(device_id) {
            let vouches = self.vouches_with_status(device_id, status, reason, now);
            VouchingSessionView {
                vouches,
                state: if all_terminal(vouches) {
                    VouchingSessionState::Completed
                } else {
                    self.state
                },
                ..self
            }
        } else {
            self
        }
    }

    /// Whether a change of the vouch for a target completes the session.
    pub open spec fn completes_with(
        self,
        device_id: u128,
        status: VouchStatus,
        reason: Option<Seq<char>>,
        now: Timestamp,
    ) -> bool {
        self.accepts_update(device_id) && all_terminal(
            self.vouches_with_status(device_id, status, reason, now),
        )
    }

    /// The session after vouching was started for a list of targets, each given
    /// with the name to record: every target is selected, and the session is in
    /// progress, or completed at once where there is no target.
    pub open spec fn started(self, targets: Seq<(u128, Seq<char>)>, now: Timestamp) -> VouchingSessionView {
        VouchingSessionView {
            state: if targets.len() == 0 {
                VouchingSessionState::Completed
            } else {
                VouchingSessionState::InProgress
            },
            vouches: targets.map_values(
                |t: (u128, Seq<char>)|
                    VouchStateView {
                        device_id: t.0,
                        device_name: t.1,
                        status: VouchStatus::Selected,
                        updated_at: now,
                        reason: None,
                    },
            ),
            ..self
        }
    }

    /// How many vouches are still open.
    pub open spec fn pending_count(self) -> nat {
        pending_upto(self.vouches, self.vouches.len())
    }
}

impl View for VouchingSession {
    type V = VouchingSessionView;

    open spec fn view(&self) -> VouchingSessionView {
        VouchingSessionView {
            id: self.id,
            vouchee_device_id: self.vouchee_device_id,
            vouchee_device_name: self.vouchee_device_name@,
            voucher_device_id: self.voucher_device_id,
            created_at: self.created_at,
            state: self.state,
            vouches: self.vouches@.map_values(|v: VouchState| v@),
        }
    }
}

impl Clone for VouchingSession {
    fn clone(&self) -> (r: Self)
        ensures
            r@ == self@,
    {
        let mut vouches: Vec<VouchState> = Vec::new();
        let mut i: usize = 0;
        while i < self.vouches.len()
            invariant
                i <= self.vouches.len(),
                vouches@.len() == i,
                forall|j: int| 0 <= j < i ==> vouches@[j]@ == self.vouches@[j]@,
            decreases self.vouches.len() - i,
        {
            vouches.push(self.vouches[i].clone());
            i += 1;
        }
        let r = VouchingSession {
            id: self.id,
            vouchee_device_id: self.vouchee_device_id,
            vouchee_device_name: self.vouchee_device_name.clone(),
            voucher_device_id: self.voucher_device_id,
            created_at: self.created_at,
            state: self.state,
            vouches,
        };
        assert(r@.vouches =~= self@.vouches);
        r
    }
}

/// A change of one vouch leaves a well-formed session well-formed, and the
/// session is completed afterwards exactly when the change completed it or it
/// was completed before.
pub proof fn lemma_with_status_wf(
    s: VouchingSessionView,
    device_id: u128,
    status: VouchStatus,
    reason: Option<Seq<char>>,
    now: Timestamp,
)
    requires
        s.wf(),
    ensures
        s.with_status(device_id, status, reason, now).wf(),
        s.with_status(device_id, status, reason, now).state == VouchingSessionState::Completed
            <==> (s.state == VouchingSessionState::Completed || s.completes_with(
            device_id,
            status,
            reason,
            now,
        )),
{
    if s.accepts_update(device_id) {
        let vouches = s.vouches_with_status(device_id, status, reason, now);
        if s.has_vouch(device_id) {
            assert(vouch_ids(vouches) =~= vouch_ids(s.vouches));
        } else {
            assert(vouch_ids(vouches) =~= vouch_ids(s.vouches).push(device_id));
            lemma_push_unique(vouch_ids(s.vouches), device_id);
        }
        assert(vouches.len() > 0);
    }
}

/// Starting to vouch for targets that are all different leaves a session
/// well-formed.
pub proof fn lemma_started_wf(s: VouchingSessionView, targets: Seq<(u128, Seq<char>)>, now: Timestamp)
    requires
        targets.map_values(|t: (u128, Seq<char>)| t.0).no_duplicates(),
    ensures
        s.started(targets, now).wf(),
        targets.len() == 0 <==> s.started(targets, now).state == VouchingSessionState::Completed,
{
    let r = s.started(targets, now);
    assert(vouch_ids(r.vouches) =~= targets.map_values(|t: (u128, Seq<char>)| t.0));
    if targets.len() > 0 {
        assert(!r.vouches[0].status.spec_is_terminal());
    }
}

impl VouchingSession {
    /// No target occurs twice, and the session is completed exactly when every
    /// vouch is final (a pending session without targets aside).
    pub open spec fn wf(&self) -> bool {
        self@.wf()
    }

    /// Whether no target occurs twice and the session is completed exactly when
    /// every vouch is final (a pending session without targets aside).
    pub fn is_well_formed(&self) -> (r: bool)
        ensures
            r == self.wf(),
    {
        let mut ids: Vec<u128> = Vec::new();
        let mut i: usize = 0;
        while i < self.vouches.len()
            invariant
                i <= self.vouches.len(),
                ids@ == vouch_ids(self@.vouches).subrange(0, i as int),
            decreases self.vouches.len() - i,
        {
            ids.push(self.vouches[i].device_id);
            assert(ids@ =~= vouch_ids(self@.vouches).subrange(0, i as int + 1));
            i += 1;
        }
        assert(ids@ =~= vouch_ids(self@.vouches));
        if !all_distinct(&ids) {
            return false;
        }
        let all_final = self.all_terminal();
        match self.state {
            VouchingSessionState::Completed => all_final,
            VouchingSessionState::InProgress => !all_final,
            VouchingSessionState::Pending => !all_final || self.vouches.len() == 0,
        }
    }

    /// A session that waits for its targets to be chosen.
    pub fn new(
        id: u128,
        vouchee_device_id: u128,
        vouchee_device_name: String,
        voucher_device_id: u128,
        now: Timestamp,
    ) -> (s: VouchingSession)
        ensures
            s.wf(),
            s@ == (VouchingSessionView {
                id,
                vouchee_device_id,
                vouchee_device_name: vouchee_device_name@,
                voucher_device_id,
                created_at: now,
                state: VouchingSessionState::Pending,
                vouches: Seq::empty(),
            }),
    {
        let s = VouchingSession {
            id,
            vouchee_device_id,
            vouchee_device_name,
            voucher_device_id,
            created_at: now,
            state: VouchingSessionState::Pending,
            vouches: Vec::new(),
        };
        assert(s@.vouches =~= Seq::empty());
        assert(vouch_ids(s@.vouches) =~= Seq::<u128>::empty());
        s
    }

    /// The place of the vouch for a target.
    pub fn position(&self, device_id: u128) -> (r: Option<usize>)
        requires
            vouch_ids(self@.vouches).no_duplicates(),
        ensures
            r is Some <==> self@.has_vouch(device_id),
            r matches Some(i) ==> i < self.vouches.len() && i == vouch_ids(
                self@.vouches,
            ).index_of(device_id) && self.vouches[i as int].device_id == device_id,
    {
        let mut i: usize = 0;
        while i < self.vouches.len()
            invariant
                i <= self.vouches.len(),
                vouch_ids(self@.vouches).no_duplicates(),
                forall|j: int| 0 <= j < i ==> vouch_ids(self@.vouches)[j] != device_id,
            decreases self.vouches.len() - i,
        {
            if self.vouches[i].device_id == device_id {
                proof {
                    lemma_index_of_unique(vouch_ids(self@.vouches), device_id, i as int);
                }
                return Some(i);
            }
            i += 1;
        }
        proof {
            lemma_absent(vouch_ids(self@.vouches), device_id);
        }
        None
    }

    /// Whether every vouch has reached its final status.
    pub fn all_terminal(&self) -> (r: bool)
        ensures
            r == all_terminal(self@.vouches),
    {
        let mut i: usize = 0;
        while i < self.vouches.len()
            invariant
                i <= self.vouches.len(),
                forall|j: int| 0 <= j < i ==> (#[trigger] self@.vouches[j]).status.spec_is_terminal(),
            decreases self.vouches.len() - i,
        {
            if !self.vouches[i].status.is_terminal() {
                assert(!self@.vouches[i as int].status.spec_is_terminal());
                return false;
            }
            i += 1;
        }
        true
    }

    /// How many vouches are still open: selected, queued or waiting.
    pub fn pending_count(&self) -> (n: usize)
        ensures
            n == self@.pending_count(),
    {
        let mut n: usize = 0;
        let mut i: usize = 0;
        while i < self.vouches.len()
            invariant
                i <= self.vouches.len(),
                n <= i,
                n == pending_upto(self@.vouches, i as nat),
            decreases self.vouches.len() - i,
        {
            if !self.vouches[i].status.is_terminal() {
                n += 1;
            }
            i += 1;
        }
        n
    }

    /// Whether a change of the vouch for a target would be taken.
    pub fn accepts_update(&self, device_id: u128) -> (r: bool)
        requires
            self.wf(),
        ensures
            r == self@.accepts_update(device_id),
    {
        if self.state == VouchingSessionState::Completed {
            return false;
        }
        match self.position(device_id) {
            Some(i) => !self.vouches[i].status.is_terminal(),
            None => true,
        }
    }

    /// Starts vouching for the given targets, each with the name to record for
    /// it. Earlier vouches of the session are dropped; every target is
    /// selected. The session is in progress afterwards, or completed at once
    /// where there is no target.
    pub fn begin(&mut self, targets: Vec<(u128, String)>, now: Timestamp)
        requires
            targets@.map_values(|t: (u128, String)| t.0).no_duplicates(),
        ensures
            final(self).wf(),
            final(self)@ == old(self)@.started(
                targets@.map_values(|t: (u128, String)| (t.0, t.1@)),
                now,
            ),
    {
        let ghost before = self@;
        let ghost seeded = targets@.map_values(|t: (u128, String)| (t.0, t.1@));
        let mut vouches: Vec<VouchState> = Vec::new();
        let mut i: usize = 0;
        while i < targets.len()
            invariant
                i <= targets.len(),
                vouches@.len() == i,
                forall|j: int|
                    0 <= j < i ==> vouches@[j]@ == (VouchStateView {
                        device_id: targets@[j].0,
                        device_name: targets@[j].1@,
                        status: VouchStatus::Selected,
                        updated_at: now,
                        reason: None,
                    }),
            decreases targets.len() - i,
        {
            vouches.push(
                VouchState {
                    device_id: targets[i].0,
                    device_name: targets[i].1.clone(),
                    status: VouchStatus::Selected,
                    updated_at: now,
                    reason: None,
                },
            );
            i += 1;
        }
        self.state = if targets.len() == 0 {
            VouchingSessionState::Completed
        } else {
            VouchingSessionState::InProgress
        };
        self.vouches = vouches;
        proof {
            assert(seeded.map_values(|t: (u128, Seq<char>)| t.0) =~= targets@.map_values(
                |t: (u128, String)| t.0,
            ));
            lemma_started_wf(before, seeded, now);
            assert(self@.vouches =~= before.started(seeded, now).vouches);
        }
    }

    /// Gives the vouch for a target a new status. The change is taken unless
    /// the session is completed or that vouch is final already; a target
    /// without a vouch gets one under the name "Unknown device". Returns
    /// whether the change completed the session.
    pub fn apply_status(
        &mut self,
        device_id: u128,
        status: VouchStatus,
        reason: Option<String>,
        now: Timestamp,
    ) -> (completed: bool)
        requires
            old(self).wf(),
        ensures
            final(self).wf(),
            final(self)@ == old(self)@.with_status(device_id, status, opt_text(reason), now),
            completed == old(self)@.completes_with(device_id, status, opt_text(reason), now),
    {
        let ghost before = self@;
        proof {
            lemma_with_status_wf(before, device_id, status, opt_text(reason), now);
        }
        if self.state == VouchingSessionState::Completed {
            return false;
        }
        match self.position(device_id) {
            Some(i) => {
                if self.vouches[i].status.is_terminal() {
                    return false;
                }
                let updated = VouchState {
                    device_id,
                    device_name: self.vouches[i].device_name.clone(),
                    status,
                    updated_at: now,
                    reason,
                };
                self.vouches.set(i, updated);
                assert(self@.vouches =~= before.vouches_with_status(
                    device_id,
                    status,
                    opt_text(reason),
                    now,
                ));
            },
            None => {
                self.vouches.push(
                    VouchState {
                        device_id,
                        device_name: "Unknown device".to_string(),
                        status,
                        updated_at: now,
                        reason,
                    },
                );
                assert(self@.vouches =~= before.vouches_with_status(
                    device_id,
                    status,
                    opt_text(reason),
                    now,
                ));
            },
        }
        let completed = self.all_terminal();
        if completed {
            self.state = VouchingSessionState::Completed;
        }
        completed
    }
}

} // verus!
