//! The table of direct pairing sessions and their codes, with the driver that
//! moves the sessions on.

use crate::crypto::hyphenated;
use crate::device::DeviceInfo;
use crate::device::DeviceInfoView;
use crate::error::ErrorView;
use crate::keyed::lemma_absent;
use crate::keyed::lemma_index_of_unique;
use crate::keyed::lemma_push_unique;
use crate::keyed::lemma_remove_unique;
use crate::keyed::lemma_subsequence_unique;
use crate::messages::Outbound;
use crate::messages::OutboundView;
use crate::text::opt_bytes;
use crate::time::Timestamp;
use crate::types::PairingCode;
use crate::types::PairingCodeView;
use crate::types::PairingSession;
use crate::types::PairingSessionView;
use crate::types::PairingState;
use crate::types::PairingStateView;
use crate::types::SCANNING_TIMEOUT_SECONDS;
use crate::types::SESSION_TIMEOUT_SECONDS;
use vstd::prelude::*;
use vstd::string::*;

verus! {

/// The identifiers of a list of sessions, in order.
pub open spec fn session_ids(sessions: Seq<PairingSessionView>) -> Seq<u128> {
    sessions.map_values(|s: PairingSessionView| s.id)
}

/// The sessions of a list of codes, in order.
pub open spec fn code_ids(codes: Seq<PairingCodeView>) -> Seq<u128> {
    codes.map_values(|c: PairingCodeView| c.session_id)
}

/// What the driver makes of one session: an answer that waits to be sent is
/// sent, or the session fails where there is no node to send it to or no
/// channel to send it on; a session that has scanned for too long fails; any
/// other session is left as it is.
pub open spec fn driven(s: PairingSessionView, now: Timestamp, channel_open: bool) -> PairingSessionView {
    match s.state {
        PairingStateView::ResponsePending { response_data, remote_node_id } => {
            if remote_node_id is None {
                PairingSessionView {
                    state: PairingStateView::Failed { reason: "No remote node ID for response"@ },
                    ..s
                }
            } else if channel_open {
                PairingSessionView { state: PairingStateView::ResponseSent, ..s }
            } else {
                PairingSessionView {
                    state: PairingStateView::Failed { reason: "Internal channel closed"@ },
                    ..s
                }
            }
        },
        PairingStateView::Scanning => {
            if s.scanned_too_long_at(now) {
                PairingSessionView {
                    state: PairingStateView::Failed { reason: "Scanning timeout"@ },
                    ..s
                }
            } else {
                s
            }
        },
        _ => s,
    }
}

/// What the driver sends for one session, if anything.
pub open spec fn dispatch_of(s: PairingSessionView, channel_open: bool) -> Option<OutboundView> {
    match s.state {
        PairingStateView::ResponsePending { response_data, remote_node_id } => {
            if channel_open && remote_node_id is Some {
                Some(OutboundView::Raw { node_id: remote_node_id->0, data: response_data })
            } else {
                None
            }
        },
        _ => None,
    }
}

/// What the driver sends for the first `n` sessions, in order.
pub open spec fn dispatches_upto(sessions: Seq<PairingSessionView>, channel_open: bool, n: nat) -> Seq<
    OutboundView,
>
    decreases n,
{
    if n == 0 {
        Seq::empty()
    } else {
        match dispatch_of(sessions[n - 1], channel_open) {
            Some(out) => dispatches_upto(sessions, channel_open, (n - 1) as nat).push(out),
            None => dispatches_upto(sessions, channel_open, (n - 1) as nat),
        }
    }
}

/// Those of the first `n` sessions that are not older than the session
/// timeout, in order.
pub open spec fn live_upto(sessions: Seq<PairingSessionView>, now: Timestamp, n: nat) -> Seq<
    PairingSessionView,
>
    decreases n,
{
    if n == 0 {
        Seq::empty()
    } else if sessions[n - 1].expired_at(now) {
        live_upto(sessions, now, (n - 1) as nat)
    } else {
        live_upto(sessions, now, (n - 1) as nat).push(sessions[n - 1])
    }
}

/// Whether a code belongs to a session that is older than the session timeout.
pub open spec fn code_outlived(
    sessions: Seq<PairingSessionView>,
    code: PairingCodeView,
    now: Timestamp,
) -> bool {
    session_ids(sessions).contains(code.session_id) && sessions[session_ids(sessions).index_of(
        code.session_id,
    )].expired_at(now)
}

/// Those of the first `n` codes whose session is not older than the session
/// timeout, in order.
pub open spec fn live_codes_upto(
    sessions: Seq<PairingSessionView>,
    codes: Seq<PairingCodeView>,
    now: Timestamp,
    n: nat,
) -> Seq<PairingCodeView>
    decreases n,
{
    if n == 0 {
        Seq::empty()
    } else if code_outlived(sessions, codes[n - 1], now) {
        live_codes_upto(sessions, codes, now, (n - 1) as nat)
    } else {
        live_codes_upto(sessions, codes, now, (n - 1) as nat).push(codes[n - 1])
    }
}

/// Those of the first `n` sessions whose peer is not the given device.
pub open spec fn unrelated_upto(sessions: Seq<PairingSessionView>, device_id: u128, n: nat) -> Seq<
    PairingSessionView,
>
    decreases n,
{
    if n == 0 {
        Seq::empty()
    } else if sessions[n - 1].remote_device_id == Some(device_id) {
        unrelated_upto(sessions, device_id, (n - 1) as nat)
    } else {
        unrelated_upto(sessions, device_id, (n - 1) as nat).push(sessions[n - 1])
    }
}

/// The table after the first `n` of the given sessions were stored one after
/// another.
pub open spec fn loaded_upto(table: SessionsView, sessions: Seq<PairingSessionView>, n: nat) -> SessionsView
    decreases n,
{
    if n == 0 {
        table
    } else {
        loaded_upto(table, sessions, (n - 1) as nat).with_session(sessions[n - 1])
    }
}

/// The mathematical value of a [`PairingSessions`].
pub ghost struct SessionsView {
    pub sessions: Seq<PairingSessionView>,
    pub codes: Seq<PairingCodeView>,
}

impl SessionsView {
    /// No session and no code occurs twice, and all times are well-formed.
    pub open spec fn wf(self) -> bool {
        &&& session_ids(self.sessions).no_duplicates()
        &&& code_ids(self.codes).no_duplicates()
        &&& forall|i: int| 0 <= i < self.sessions.len() ==> (#[trigger] self.sessions[i]).created_at.wf()
        &&& forall|i: int| 0 <= i < self.codes.len() ==> (#[trigger] self.codes[i]).expires_at.wf()
    }

    /// Whether there is a session with the given identifier.
    pub open spec fn has_session(self, id: u128) -> bool {
        session_ids(self.sessions).contains(id)
    }

    /// Where the session with the given identifier stands.
    pub open spec fn session_index(self, id: u128) -> int {
        session_ids(self.sessions).index_of(id)
    }

    /// The session with the given identifier.
    pub open spec fn session(self, id: u128) -> PairingSessionView {
        self.sessions[self.session_index(id)]
    }

    /// Whether there is a code for the given session.
    pub open spec fn has_code(self, id: u128) -> bool {
        code_ids(self.codes).contains(id)
    }

    /// The code for the given session.
    pub open spec fn code(self, id: u128) -> PairingCodeView {
        self.codes[code_ids(self.codes).index_of(id)]
    }

    /// The table after a session was stored: it replaces the session with its
    /// identifier, or is added at the end.
    pub open spec fn with_session(self, s: PairingSessionView) -> SessionsView {
        if self.has_session(s.id) {
            SessionsView { sessions: self.sessions.update(self.session_index(s.id), s), ..self }
        } else {
            SessionsView { sessions: self.sessions.push(s), ..self }
        }
    }

    /// The table after a code was stored: the code moves to the end, where the
    /// most recent code stands, and an earlier code for its session is dropped.
    pub open spec fn with_code(self, c: PairingCodeView) -> SessionsView {
        if self.has_code(c.session_id) {
            SessionsView {
                codes: self.codes.remove(code_ids(self.codes).index_of(c.session_id)).push(c),
                ..self
            }
        } else {
            SessionsView { codes: self.codes.push(c), ..self }
        }
    }

    /// The table without the session with the given identifier and its code.
    pub open spec fn without(self, id: u128) -> SessionsView {
        SessionsView {
            sessions: if self.has_session(id) {
                self.sessions.remove(self.session_index(id))
            } else {
                self.sessions
            },
            codes: if self.has_code(id) {
                self.codes.remove(code_ids(self.codes).index_of(id))
            } else {
                self.codes
            },
        }
    }

    /// The table after the session with the given identifier got a new state.
    /// Nothing changes where there is no such session.
    pub open spec fn with_state(self, id: u128, state: PairingStateView) -> SessionsView {
        if self.has_session(id) {
            SessionsView {
                sessions: self.sessions.update(
                    self.session_index(id),
                    PairingSessionView { state, ..self.session(id) },
                ),
                ..self
            }
        } else {
            self
        }
    }

    /// The table after the session with the given identifier failed. A session
    /// that has failed before keeps its first reason.
    pub open spec fn failed(self, id: u128, reason: Seq<char>) -> SessionsView {
        if self.has_session(id) && !(self.session(id).state is Failed) {
            self.with_state(id, PairingStateView::Failed { reason })
        } else {
            self
        }
    }

    /// The table after the answer of the session with the given identifier was
    /// sent. A session that is completed or has failed stays as it is.
    pub open spec fn response_sent(self, id: u128) -> SessionsView {
        if self.has_session(id) && !(self.session(id).state is Completed) && !(self.session(
            id,
        ).state is Failed) {
            self.with_state(id, PairingStateView::ResponseSent)
        } else {
            self
        }
    }

    /// The table after the pairing of the session with the given identifier
    /// succeeded with the given peer. A session that has failed stays as it is.
    pub open spec fn completed(
        self,
        id: u128,
        info: DeviceInfoView,
        public_key: Seq<u8>,
        shared_secret: Option<Seq<u8>>,
    ) -> SessionsView {
        if self.has_session(id) && !(self.session(id).state is Failed) {
            SessionsView {
                sessions: self.sessions.update(
                    self.session_index(id),
                    PairingSessionView {
                        state: PairingStateView::Completed,
                        remote_device_id: Some(info.device_id),
                        remote_device_info: Some(info),
                        remote_public_key: Some(public_key),
                        shared_secret,
                        ..self.session(id)
                    },
                ),
                ..self
            }
        } else {
            self
        }
    }

    /// The table after the driver went over every session.
    pub open spec fn driven(self, now: Timestamp, channel_open: bool) -> SessionsView {
        SessionsView {
            sessions: self.sessions.map_values(
                |s: PairingSessionView| driven(s, now, channel_open),
            ),
            ..self
        }
    }

    /// What the driver sends when it goes over every session.
    pub open spec fn dispatches(self, channel_open: bool) -> Seq<OutboundView> {
        dispatches_upto(self.sessions, channel_open, self.sessions.len())
    }

    /// The table without the sessions that are older than the session timeout,
    /// and without their codes.
    pub open spec fn cleaned(self, now: Timestamp) -> SessionsView {
        SessionsView {
            sessions: live_upto(self.sessions, now, self.sessions.len()),
            codes: live_codes_upto(self.sessions, self.codes, now, self.codes.len()),
        }
    }

    /// The table without the sessions whose peer is the given device.
    pub open spec fn without_device(self, device_id: u128) -> SessionsView {
        SessionsView {
            sessions: unrelated_upto(self.sessions, device_id, self.sessions.len()),
            ..self
        }
    }
}

/// The error of joining a session that exists already.
pub open spec fn session_exists_error(id: u128) -> ErrorView {
    ErrorView::Protocol("Session "@ + hyphenated(id) + " already exists"@)
}

/// The error of joining with a code that has expired.
pub open spec fn code_expired_error() -> ErrorView {
    ErrorView::Protocol(
        "Pairing code has expired. Please request a new code from the initiator."@,
    )
}

/// The direct pairing sessions of a device, each with the code it was started
/// or joined with.
#[derive(Debug)]
pub struct PairingSessions {
    sessions: Vec<PairingSession>,
    codes: Vec<PairingCode>,
}

impl View for PairingSessions {
    type V = SessionsView;

    closed spec fn view(&self) -> SessionsView {
        SessionsView {
            sessions: self.sessions@.map_values(|s: PairingSession| s@),
            codes: self.codes@.map_values(|c: PairingCode| c@),
        }
    }
}

impl PairingSessions {
    /// No session and no code occurs twice, and all times are well-formed.
    pub open spec fn wf(&self) -> bool {
        self@.wf()
    }

    /// A table without sessions.
    pub fn new() -> (t: PairingSessions)
        ensures
            t.wf(),
            t@.sessions.len() == 0,
            t@.codes.len() == 0,
    {
        let t = PairingSessions { sessions: Vec::new(), codes: Vec::new() };
        assert(session_ids(t@.sessions) =~= Seq::<u128>::empty());
        assert(code_ids(t@.codes) =~= Seq::<u128>::empty());
        t
    }

    /// The place of the session with the given identifier.
    fn position(&self, id: u128) -> (r: Option<usize>)
        requires
            self.wf(),
        ensures
            r is Some <==> self@.has_session(id),
            r matches Some(i) ==> i < self.sessions.len() && i == self@.session_index(id),
    {
        let mut i: usize = 0;
        while i < self.sessions.len()
            invariant
                i <= self.sessions.len(),
                self.wf(),
                forall|j: int| 0 <= j < i ==> session_ids(self@.sessions)[j] != id,
            decreases self.sessions.len() - i,
        {
            if self.sessions[i].id == id {
                proof {
                    lemma_index_of_unique(session_ids(self@.sessions), id, i as int);
                }
                return Some(i);
            }
            i += 1;
        }
        proof {
            lemma_absent(session_ids(self@.sessions), id);
        }
        None
    }

    /// The place of the code for the given session.
    fn code_position(&self, id: u128) -> (r: Option<usize>)
        requires
            self.wf(),
        ensures
            r is Some <==> self@.has_code(id),
            r matches Some(i) ==> i < self.codes.len() && i == code_ids(self@.codes).index_of(id),
    {
        let mut i: usize = 0;
        while i < self.codes.len()
            invariant
                i <= self.codes.len(),
                self.wf(),
                forall|j: int| 0 <= j < i ==> code_ids(self@.codes)[j] != id,
            decreases self.codes.len() - i,
        {
            if self.codes[i].session_id == id {
                proof {
                    lemma_index_of_unique(code_ids(self@.codes), id, i as int);
                }
                return Some(i);
            }
            i += 1;
        }
        proof {
            lemma_absent(code_ids(self@.codes), id);
        }
        None
    }

    /// The session with the given identifier, if there is one.
    pub fn get_session(&self, id: u128) -> (r: Option<PairingSession>)
        requires
            self.wf(),
        ensures
            r is Some <==> self@.has_session(id),
            r matches Some(s) ==> s@ == self@.session(id),
    {
        match self.position(id) {
            Some(i) => Some(self.sessions[i].clone()),
            None => None,
        }
    }

    /// The code for the given session, if there is one.
    pub fn get_code(&self, id: u128) -> (r: Option<PairingCode>)
        requires
            self.wf(),
        ensures
            r is Some <==> self@.has_code(id),
            r matches Some(c) ==> c@ == self@.code(id),
    {
        match self.code_position(id) {
            Some(i) => Some(self.codes[i].clone()),
            None => None,
        }
    }

    /// All sessions, in the order in which they were created.
    pub fn get_active_sessions(&self) -> (r: Vec<PairingSession>)
        ensures
            r@.map_values(|s: PairingSession| s@) == self@.sessions,
    {
        let mut out: Vec<PairingSession> = Vec::new();
        let mut i: usize = 0;
        while i < self.sessions.len()
            invariant
                i <= self.sessions.len(),
                out@.len() == i,
                forall|j: int| 0 <= j < i ==> out@[j]@ == self@.sessions[j],
            decreases self.sessions.len() - i,
        {
            out.push(self.sessions[i].clone());
            i += 1;
        }
        assert(out@.map_values(|s: PairingSession| s@) =~= self@.sessions);
        out
    }

    /// The code that was stored last, if there is any.
    pub fn get_current_pairing_code(&self) -> (r: Option<PairingCode>)
        ensures
            r is Some <==> self@.codes.len() > 0,
            r matches Some(c) ==> c@ == self@.codes.last(),
    {
        if self.codes.len() == 0 {
            None
        } else {
            Some(self.codes[self.codes.len() - 1].clone())
        }
    }

    /// Stores a session: it replaces the session with its identifier, or is
    /// added.
    pub fn put_session(&mut self, session: PairingSession)
        requires
            old(self).wf(),
            session.created_at.wf(),
        ensures
            final(self).wf(),
            final(self)@ == old(self)@.with_session(session@),
            final(self)@.has_session(session.id),
            final(self)@.session(session.id) == session@,
    {
        let ghost before = self@;
        let id = session.id;
        match self.position(id) {
            Some(i) => {
                self.sessions.set(i, session);
                assert(self@.sessions =~= before.sessions.update(i as int, session@));
                assert(session_ids(self@.sessions) =~= session_ids(before.sessions));
                assert(self@.codes =~= before.codes);
                proof {
                    lemma_index_of_unique(session_ids(self@.sessions), id, i as int);
                }
            },
            None => {
                self.sessions.push(session);
                assert(self@.sessions =~= before.sessions.push(session@));
                assert(session_ids(self@.sessions) =~= session_ids(before.sessions).push(id));
                assert(self@.codes =~= before.codes);
                proof {
                    lemma_push_unique(session_ids(before.sessions), id);
                    lemma_index_of_unique(
                        session_ids(self@.sessions),
                        id,
                        before.sessions.len() as int,
                    );
                }
            },
        }
    }

    /// Stores a code as the most recent one; an earlier code for its session is
    /// dropped.
    pub fn put_code(&mut self, code: PairingCode)
        requires
            old(self).wf(),
            code.expires_at.wf(),
        ensures
            final(self).wf(),
            final(self)@ == old(self)@.with_code(code@),
            final(self)@.sessions == old(self)@.sessions,
            final(self)@.has_code(code.session_id),
            final(self)@.code(code.session_id) == code@,
    {
        let ghost before = self@;
        let id = code.session_id;
        match self.code_position(id) {
            Some(i) => {
                self.codes.remove(i);
                assert(self@.codes =~= before.codes.remove(i as int));
                assert(code_ids(self@.codes) =~= code_ids(before.codes).remove(i as int));
                proof {
                    lemma_remove_unique(code_ids(before.codes), i as int);
                }
            },
            None => {},
        }
        let ghost middle = self@;
        self.codes.push(code);
        assert(self@.codes =~= middle.codes.push(code@));
        assert(code_ids(self@.codes) =~= code_ids(middle.codes).push(id));
        assert(self@.sessions =~= before.sessions);
        proof {
            lemma_push_unique(code_ids(middle.codes), id);
            lemma_index_of_unique(code_ids(self@.codes), id, middle.codes.len() as int);
        }
    }

    /// Drops the session with the given identifier and its code.
    pub fn remove(&mut self, id: u128)
        requires
            old(self).wf(),
        ensures
            final(self).wf(),
            final(self)@ == old(self)@.without(id),
            !final(self)@.has_session(id),
            !final(self)@.has_code(id),
    {
        let ghost before = self@;
        match self.position(id) {
            Some(i) => {
                self.sessions.remove(i);
                assert(self@.sessions =~= before.sessions.remove(i as int));
                assert(session_ids(self@.sessions) =~= session_ids(before.sessions).remove(
                    i as int,
                ));
                proof {
                    lemma_remove_unique(session_ids(before.sessions), i as int);
                }
            },
            None => {
                assert(self@.sessions =~= before.sessions);
            },
        }
        assert(self@.codes =~= before.codes);
        match self.code_position(id) {
            Some(i) => {
                self.codes.remove(i);
                assert(self@.codes =~= before.codes.remove(i as int));
                assert(code_ids(self@.codes) =~= code_ids(before.codes).remove(i as int));
                proof {
                    lemma_remove_unique(code_ids(before.codes), i as int);
                }
            },
            None => {},
        }
    }

    /// Gives the session with the given identifier a new state; returns
    /// whether there is such a session.
    fn set_state(&mut self, id: u128, state: PairingState) -> (found: bool)
        requires
            old(self).wf(),
        ensures
            final(self).wf(),
            found == old(self)@.has_session(id),
            final(self)@ == old(self)@.with_state(id, state@),
    {
        let ghost before = self@;
        match self.position(id) {
            Some(i) => {
                let mut session = self.sessions[i].clone();
                session.state = state;
                self.sessions.set(i, session);
                assert(self@.sessions =~= before.sessions.update(i as int, session@));
                assert(session_ids(self@.sessions) =~= session_ids(before.sessions));
                assert(self@.codes =~= before.codes);
                true
            },
            None => false,
        }
    }

    /// Marks the session with the given identifier as failed for the given
    /// reason. A session that has failed before keeps its first reason; where
    /// there is no such session, nothing changes.
    pub fn fail(&mut self, id: u128, reason: String)
        requires
            old(self).wf(),
        ensures
            final(self).wf(),
            final(self)@ == old(self)@.failed(id, reason@),
    {
        match self.position(id) {
            Some(i) => {
                if !self.sessions[i].state.is_failed() {
                    self.set_state(id, PairingState::Failed { reason });
                }
            },
            None => {},
        }
    }

    /// Records that the answer of the session with the given identifier was
    /// sent. A session that is completed or has failed stays as it is.
    pub fn mark_response_sent(&mut self, id: u128)
        requires
            old(self).wf(),
        ensures
            final(self).wf(),
            final(self)@ == old(self)@.response_sent(id),
    {
        match self.position(id) {
            Some(i) => {
                if !self.sessions[i].state.is_failed() && !self.sessions[i].state.is_completed() {
                    self.set_state(id, PairingState::ResponseSent);
                }
            },
            None => {},
        }
    }

    /// Records that the pairing of the session with the given identifier
    /// succeeded with the given peer; returns whether the session is completed
    /// now. A session that has failed stays as it is.
    pub fn complete(
        &mut self,
        id: u128,
        info: DeviceInfo,
        public_key: Vec<u8>,
        shared_secret: Option<Vec<u8>>,
    ) -> (done: bool)
        requires
            old(self).wf(),
        ensures
            final(self).wf(),
            final(self)@ == old(self)@.completed(id, info@, public_key@, opt_bytes(shared_secret)),
            done == (old(self)@.has_session(id) && !(old(self)@.session(id).state is Failed)),
    {
        let ghost before = self@;
        match self.position(id) {
            Some(i) => {
                if self.sessions[i].state.is_failed() {
                    return false;
                }
                let session = PairingSession {
                    id,
                    state: PairingState::Completed,
                    remote_device_id: Some(info.device_id),
                    remote_device_info: Some(info),
                    remote_public_key: Some(public_key),
                    shared_secret,
                    created_at: self.sessions[i].created_at,
                };
                self.sessions.set(i, session);
                assert(self@.sessions =~= before.sessions.update(i as int, session@));
                assert(session_ids(self@.sessions) =~= session_ids(before.sessions));
                assert(self@.codes =~= before.codes);
                true
            },
            None => false,
        }
    }

    /// Takes the given sessions in place of the ones that the table holds; of
    /// sessions with one identifier the last is kept. The codes stay.
    pub fn replace_sessions(&mut self, sessions: Vec<PairingSession>)
        requires
            old(self).wf(),
            forall|i: int| 0 <= i < sessions.len() ==> (#[trigger] sessions[i]).created_at.wf(),
        ensures
            final(self).wf(),
            final(self)@ == loaded_upto(
                SessionsView { sessions: Seq::empty(), codes: old(self)@.codes },
                sessions@.map_values(|s: PairingSession| s@),
                sessions.len() as nat,
            ),
    {
        let ghost views = sessions@.map_values(|s: PairingSession| s@);
        let ghost start = SessionsView { sessions: Seq::empty(), codes: self@.codes };
        self.sessions = Vec::new();
        assert(self@.sessions =~= Seq::empty());
        assert(session_ids(self@.sessions) =~= Seq::<u128>::empty());
        let mut i: usize = 0;
        while i < sessions.len()
            invariant
                i <= sessions.len(),
                self.wf(),
                views == sessions@.map_values(|s: PairingSession| s@),
                forall|i: int| 0 <= i < sessions.len() ==> (#[trigger] sessions[i]).created_at.wf(),
                self@ == loaded_upto(start, views, i as nat),
            decreases sessions.len() - i,
        {
            self.put_session(sessions[i].clone());
            i += 1;
        }
    }

    /// Goes over every session once: sends the answers that wait to be sent,
    /// and fails the sessions that cannot go on. Returns what is to be sent.
    pub fn process_state_transitions(&mut self, now: Timestamp, channel_open: bool) -> (sent: Vec<
        Outbound,
    >)
        requires
            old(self).wf(),
            now.wf(),
        ensures
            final(self).wf(),
            final(self)@ == old(self)@.driven(now, channel_open),
            sent@.map_values(|o: Outbound| o@) == old(self)@.dispatches(channel_open),
    {
        let ghost before = self@;
        let mut sent: Vec<Outbound> = Vec::new();
        let mut i: usize = 0;
        while i < self.sessions.len()
            invariant
                i <= self.sessions.len(),
                self.sessions.len() == before.sessions.len(),
                before.wf(),
                now.wf(),
                self@.codes == before.codes,
                forall|j: int| 0 <= j < i ==> self@.sessions[j] == driven(before.sessions[j], now, channel_open),
                forall|j: int| i <= j < before.sessions.len() ==> self@.sessions[j] == before.sessions[j],
                sent@.map_values(|o: Outbound| o@) == dispatches_upto(
                    before.sessions,
                    channel_open,
                    i as nat,
                ),
            decreases self.sessions.len() - i,
        {
            let ghost sent_before = sent@.map_values(|o: Outbound| o@);
            assert(self@.sessions[i as int] == before.sessions[i as int]);
            assert(before.sessions[i as int].created_at.wf());
            let next: Option<PairingState> = match &self.sessions[i].state {
                PairingState::ResponsePending { response_data, remote_node_id } => {
                    match remote_node_id {
                        Some(node_id) => {
                            if channel_open {
                                sent.push(
                                    Outbound::Raw {
                                        node_id: node_id.clone(),
                                        data: response_data.clone(),
                                    },
                                );
                                Some(PairingState::ResponseSent)
                            } else {
                                Some(
                                    PairingState::Failed {
                                        reason: "Internal channel closed".to_string(),
                                    },
                                )
                            }
                        },
                        None => Some(
                            PairingState::Failed {
                                reason: "No remote node ID for response".to_string(),
                            },
                        ),
                    }
                },
                PairingState::Scanning => {
                    if now.elapsed_exceeds(&self.sessions[i].created_at, SCANNING_TIMEOUT_SECONDS) {
                        Some(PairingState::Failed { reason: "Scanning timeout".to_string() })
                    } else {
                        None
                    }
                },
                _ => None,
            };
            proof {
                match dispatch_of(before.sessions[i as int], channel_open) {
                    Some(out) => {
                        assert(sent@.map_values(|o: Outbound| o@) =~= sent_before.push(out));
                    },
                    None => {
                        assert(sent@.map_values(|o: Outbound| o@) =~= sent_before);
                    },
                }
            }
            match next {
                Some(state) => {
                    let mut session = self.sessions[i].clone();
                    session.state = state;
                    let ghost prior = self@;
                    self.sessions.set(i, session);
                    assert(self@.sessions =~= prior.sessions.update(i as int, session@));
                    assert(self@.codes =~= prior.codes);
                },
                None => {},
            }
            i += 1;
        }
        assert(self@.sessions =~= before.sessions.map_values(
            |s: PairingSessionView| driven(s, now, channel_open),
        ));
        assert(session_ids(self@.sessions) =~= session_ids(before.sessions));
        sent
    }

    /// Drops the sessions that are older than the session timeout, together
    /// with their codes, and returns how many sessions were dropped.
    pub fn cleanup_expired_sessions(&mut self, now: Timestamp) -> (dropped: usize)
        requires
            old(self).wf(),
            now.wf(),
        ensures
            final(self).wf(),
            final(self)@ == old(self)@.cleaned(now),
            dropped == old(self)@.sessions.len() - final(self)@.sessions.len(),
    {
        let ghost before = self@;
        let mut codes: Vec<PairingCode> = Vec::new();
        let ghost mut code_origin: Seq<int> = Seq::empty();
        let mut c: usize = 0;
        while c < self.codes.len()
            invariant
                c <= self.codes.len(),
                self@ == before,
                before.wf(),
                now.wf(),
                codes@.map_values(|x: PairingCode| x@) == live_codes_upto(
                    before.sessions,
                    before.codes,
                    now,
                    c as nat,
                ),
                code_origin.len() == codes@.len(),
                forall|a: int| 0 <= a < code_origin.len() ==> 0 <= #[trigger] code_origin[a] < c && codes@[a]@ == before.codes[code_origin[a]],
                forall|a: int, b: int| 0 <= a < b < code_origin.len() ==> code_origin[a] < code_origin[b],
            decreases self.codes.len() - c,
        {
            let ghost kept_before = codes@.map_values(|x: PairingCode| x@);
            assert(self.codes[c as int]@ == before.codes[c as int]);
            let outlived = match self.position(self.codes[c].session_id) {
                Some(s) => {
                    assert(self.sessions[s as int]@ == before.sessions[s as int]);
                    assert(before.sessions[s as int].created_at.wf());
                    now.elapsed_exceeds(&self.sessions[s].created_at, SESSION_TIMEOUT_SECONDS)
                },
                None => false,
            };
            if !outlived {
                codes.push(self.codes[c].clone());
                proof {
                    code_origin = code_origin.push(c as int);
                }
                assert(codes@.map_values(|x: PairingCode| x@) =~= kept_before.push(
                    before.codes[c as int],
                ));
            }
            c += 1;
        }
        let mut sessions: Vec<PairingSession> = Vec::new();
        let ghost mut origin: Seq<int> = Seq::empty();
        let mut i: usize = 0;
        while i < self.sessions.len()
            invariant
                i <= self.sessions.len(),
                self@ == before,
                before.wf(),
                now.wf(),
                sessions@.len() <= i,
                sessions@.map_values(|x: PairingSession| x@) == live_upto(
                    before.sessions,
                    now,
                    i as nat,
                ),
                origin.len() == sessions@.len(),
                forall|a: int| 0 <= a < origin.len() ==> 0 <= #[trigger] origin[a] < i && sessions@[a]@ == before.sessions[origin[a]],
                forall|a: int, b: int| 0 <= a < b < origin.len() ==> origin[a] < origin[b],
            decreases self.sessions.len() - i,
        {
            let ghost kept_before = sessions@.map_values(|x: PairingSession| x@);
            assert(self.sessions[i as int]@ == before.sessions[i as int]);
            assert(before.sessions[i as int].created_at.wf());
            if !now.elapsed_exceeds(&self.sessions[i].created_at, SESSION_TIMEOUT_SECONDS) {
                sessions.push(self.sessions[i].clone());
                proof {
                    origin = origin.push(i as int);
                }
                assert(sessions@.map_values(|x: PairingSession| x@) =~= kept_before.push(
                    before.sessions[i as int],
                ));
            }
            i += 1;
        }
        let dropped: usize = self.sessions.len() - sessions.len();
        self.sessions = sessions;
        self.codes = codes;
        proof {
            let after = self@;
            assert(after.sessions =~= live_upto(before.sessions, now, before.sessions.len()));
            assert(after.codes =~= live_codes_upto(
                before.sessions,
                before.codes,
                now,
                before.codes.len(),
            ));
            lemma_subsequence_unique(
                session_ids(before.sessions),
                session_ids(after.sessions),
                origin,
            );
            lemma_subsequence_unique(code_ids(before.codes), code_ids(after.codes), code_origin);
            assert forall|a: int| 0 <= a < after.sessions.len() implies (
            #[trigger] after.sessions[a]).created_at.wf() by {
                assert(after.sessions[a] == before.sessions[origin[a]]);
            }
            assert forall|a: int| 0 <= a < after.codes.len() implies (
            #[trigger] after.codes[a]).expires_at.wf() by {
                assert(after.codes[a] == before.codes[code_origin[a]]);
            }
        }
        dropped
    }

    /// Drops the sessions whose peer is the given device.
    pub fn remove_sessions_of_device(&mut self, device_id: u128)
        requires
            old(self).wf(),
        ensures
            final(self).wf(),
            final(self)@ == old(self)@.without_device(device_id),
    {
        let ghost before = self@;
        let mut sessions: Vec<PairingSession> = Vec::new();
        let ghost mut origin: Seq<int> = Seq::empty();
        let mut i: usize = 0;
        while i < self.sessions.len()
            invariant
                i <= self.sessions.len(),
                self@ == before,
                before.wf(),
                sessions@.map_values(|x: PairingSession| x@) == unrelated_upto(
                    before.sessions,
                    device_id,
                    i as nat,
                ),
                origin.len() == sessions@.len(),
                forall|a: int| 0 <= a < origin.len() ==> 0 <= #[trigger] origin[a] < i && sessions@[a]@ == before.sessions[origin[a]],
                forall|a: int, b: int| 0 <= a < b < origin.len() ==> origin[a] < origin[b],
            decreases self.sessions.len() - i,
        {
            let ghost kept_before = sessions@.map_values(|x: PairingSession| x@);
            assert(self.sessions[i as int]@ == before.sessions[i as int]);
            let related = match self.sessions[i].remote_device_id {
                Some(d) => d == device_id,
                None => false,
            };
            if !related {
                sessions.push(self.sessions[i].clone());
                proof {
                    origin = origin.push(i as int);
                }
                assert(sessions@.map_values(|x: PairingSession| x@) =~= kept_before.push(
                    before.sessions[i as int],
                ));
            }
            i += 1;
        }
        self.sessions = sessions;
        proof {
            let after = self@;
            assert(after.codes =~= before.codes);
            lemma_subsequence_unique(
                session_ids(before.sessions),
                session_ids(after.sessions),
                origin,
            );
            assert forall|a: int| 0 <= a < after.sessions.len() implies (
            #[trigger] after.sessions[a]).created_at.wf() by {
                assert(after.sessions[a] == before.sessions[origin[a]]);
            }
        }
    }
}

} // verus!
