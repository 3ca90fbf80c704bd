//! The operations that a client of the application can ask for: vouch a
//! device, decide on a vouch, and look at a vouching session.

use crate::device::DeviceRegistry;
use crate::handler::PairingProtocolHandler;
use crate::proxy::VouchingSession;
use crate::time::Timestamp;
use crate::vouching::has_vouching;
use crate::vouching::vouching_at;
use vstd::prelude::*;
use vstd::string::*;

verus! {

/// Why an action could not be carried out.
#[derive(Debug, PartialEq, Eq)]
pub enum ActionError {
    Internal(String),
}

/// The request to vouch the device of a completed pairing to other devices.
#[derive(Debug, PartialEq, Eq)]
pub struct PairVouchInput {
    pub session_id: u128,
    pub target_device_ids: Vec<u128>,
}

/// The answer to a [`PairVouchInput`].
#[derive(Clone, Copy, Debug, PartialEq, Eq, Structural)]
pub struct PairVouchOutput {
    pub success: bool,
    /// How many vouches are still open after the first round.
    pub pending_count: u32,
}

/// The action that vouches the device of a completed pairing to other devices.
#[derive(Debug, PartialEq, Eq)]
pub struct PairVouchAction {
    pub session_id: u128,
    pub target_device_ids: Vec<u128>,
}

/// A count as a 32-bit number, held at the largest where it does not fit.
pub open spec fn clamped(n: nat) -> u32 {
    if n > u32::MAX {
        u32::MAX
    } else {
        n as u32
    }
}

impl PairVouchAction {
    /// The action for a request.
    pub fn from_input(input: PairVouchInput) -> (r: Result<PairVouchAction, String>)
        ensures
            r matches Ok(a) && a.session_id == input.session_id && a.target_device_ids
                == input.target_device_ids,
    {
        Ok(
            PairVouchAction {
                session_id: input.session_id,
                target_device_ids: input.target_device_ids,
            },
        )
    }

    /// The name of the action.
    pub fn action_kind(&self) -> (kind: &'static str)
        ensures
            kind@ == "network.pair.vouch"@,
    {
        "network.pair.vouch"
    }

    /// Starts vouching, and reports how many vouches are still open.
    pub fn execute(
        self,
        handler: &mut PairingProtocolHandler,
        registry: &DeviceRegistry,
        now: Timestamp,
    ) -> (r: Result<PairVouchOutput, ActionError>)
        requires
            old(handler).wf(),
            registry.wf(),
            now.wf(),
        ensures
            final(handler).wf(),
            final(handler)@ == old(handler)@.vouching_started(
                registry@,
                self.session_id,
                self.target_device_ids@,
                now,
            ).0,
            match old(handler)@.vouching_started(
                registry@,
                self.session_id,
                self.target_device_ids@,
                now,
            ).1 {
                Ok(session) => r == Ok::<PairVouchOutput, ActionError>(
                    PairVouchOutput { success: true, pending_count: clamped(session.pending_count()) },
                ),
                Err(error) => r matches Err(ActionError::Internal(text)) && text@
                    == error.message(),
            },
    {
        match handler.start_proxy_vouching(
            registry,
            self.session_id,
            self.target_device_ids,
            now,
        ) {
            Ok(session) => {
                let pending = session.pending_count();
                let pending_count: u32 = if pending > u32::MAX as usize {
                    u32::MAX
                } else {
                    pending as u32
                };
                Ok(PairVouchOutput { success: true, pending_count })
            },
            Err(e) => Err(ActionError::Internal(e.message())),
        }
    }
}

/// The user's decision on a vouch that reached this device.
#[derive(Clone, Copy, Debug, PartialEq, Eq, Structural)]
pub struct PairConfirmProxyInput {
    pub session_id: u128,
    pub accepted: bool,
}

/// The answer to a [`PairConfirmProxyInput`].
#[derive(Debug, PartialEq, Eq)]
pub struct PairConfirmProxyOutput {
    pub success: bool,
    pub error: Option<String>,
}

/// The action that records the user's decision on a vouch.
#[derive(Clone, Copy, Debug, PartialEq, Eq, Structural)]
pub struct PairConfirmProxyAction {
    pub session_id: u128,
    pub accepted: bool,
}

impl PairConfirmProxyAction {
    /// The action for a request.
    pub fn from_input(input: PairConfirmProxyInput) -> (r: Result<PairConfirmProxyAction, String>)
        ensures
            r == Ok::<PairConfirmProxyAction, String>(
                PairConfirmProxyAction { session_id: input.session_id, accepted: input.accepted },
            ),
    {
        Ok(PairConfirmProxyAction { session_id: input.session_id, accepted: input.accepted })
    }

    /// The name of the action.
    pub fn action_kind(&self) -> (kind: &'static str)
        ensures
            kind@ == "network.pair.confirmProxy"@,
    {
        "network.pair.confirmProxy"
    }

    /// Records the decision, and reports whether that worked.
    pub fn execute(
        self,
        handler: &mut PairingProtocolHandler,
        registry: &mut DeviceRegistry,
        now: Timestamp,
    ) -> (r: Result<PairConfirmProxyOutput, ActionError>)
        requires
            old(handler).wf(),
            old(registry).wf(),
            now.wf(),
        ensures
            final(handler).wf(),
            final(registry).wf(),
            final(handler)@ == old(handler)@.vouch_confirmed(
                old(registry)@,
                self.session_id,
                self.accepted,
                now,
            ).0,
            final(registry)@ == old(handler)@.vouch_confirmed(
                old(registry)@,
                self.session_id,
                self.accepted,
                now,
            ).1,
            r matches Ok(output) && match old(handler)@.vouch_confirmed(
                old(registry)@,
                self.session_id,
                self.accepted,
                now,
            ).2 {
                None => output.success && output.error is None,
                Some(error) => !output.success && (output.error matches Some(text) && text@
                    == error.message()),
            },
    {
        match handler.confirm_proxy_pairing(registry, self.session_id, self.accepted, now) {
            Ok(()) => Ok(PairConfirmProxyOutput { success: true, error: None }),
            Err(e) => Ok(PairConfirmProxyOutput { success: false, error: Some(e.message()) }),
        }
    }
}

/// The request for a vouching session.
#[derive(Clone, Copy, Debug, PartialEq, Eq, Structural)]
pub struct VouchingSessionInput {
    pub session_id: u128,
}

/// The answer to a [`VouchingSessionInput`].
#[derive(Debug, PartialEq, Eq)]
pub struct VouchingSessionOutput {
    pub session: Option<VouchingSession>,
}

/// The query for a vouching session.
#[derive(Clone, Copy, Debug, PartialEq, Eq, Structural)]
pub struct VouchingSessionQuery {
    pub session_id: u128,
}

impl VouchingSessionQuery {
    /// The query for a request.
    pub fn from_input(input: VouchingSessionInput) -> (r: Result<VouchingSessionQuery, String>)
        ensures
            r == Ok::<VouchingSessionQuery, String>(
                VouchingSessionQuery { session_id: input.session_id },
            ),
    {
        Ok(VouchingSessionQuery { session_id: input.session_id })
    }

    /// The vouching session as the handler holds it, if it holds it.
    pub fn execute(self, handler: &PairingProtocolHandler) -> (r: VouchingSessionOutput)
        requires
            handler.wf(),
        ensures
            r.session is Some <==> has_vouching(handler@.vouching, self.session_id),
            r.session matches Some(s) ==> s@ == vouching_at(handler@.vouching, self.session_id),
    {
        VouchingSessionOutput { session: handler.get_vouching_session(self.session_id) }
    }
}

} // verus!
