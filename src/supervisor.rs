//! The session supervisor's decisions: when to poll the network, open a
//! transport, start a session and tear it down. Each session starts from
//! fresh state; nothing survives a reconnect.
use vstd::prelude::*;

use crate::sender::{Sender, WriteOutcome};

verus! {

/// What the send half asks of the supervisor.
#[derive(Clone, Copy, Debug, PartialEq, Eq, Structural)]
pub enum SessionOutcome {
    /// Keep the session.
    Continue,
    /// End the session and open a new one (request ids are used up).
    Reconnect,
    /// The write-retry budget is spent: abandon the session.
    FatalAfterRetries,
}

#[derive(Clone, Copy, Debug, PartialEq, Eq, Structural)]
pub enum SupervisorState {
    /// The link or the address is not there yet.
    WaitingForNetwork,
    /// A transport to the pool is being opened.
    Connecting,
    /// A session runs over an open transport.
    Running,
    /// The session was torn down; its tasks are being joined.
    Cooling,
}

#[derive(Clone, Copy, Debug, PartialEq, Eq, Structural)]
pub enum SupervisorEvent {
    /// Result of polling the network stack: whether it is usable.
    NetworkPolled(bool),
    /// Result of opening the transport: whether it connected.
    ConnectResult(bool),
    /// What the running session reported.
    Session(SessionOutcome),
    /// Both halves of the torn-down session have ended and the grace period
    /// is over.
    GraceElapsed,
}

#[derive(Clone, Copy, Debug, PartialEq, Eq, Structural)]
pub enum SupervisorAction {
    /// Poll the network stack again after the poll interval.
    PollNetwork,
    /// Open a new transport to the pool.
    OpenTransport,
    /// Create a fresh sender and queue and start both halves.
    StartSession,
    /// Leave the session running.
    KeepRunning,
    /// Close the transport, stop and join both halves, then wait the grace
    /// period.
    TeardownSession,
    /// The event does not apply in this state; nothing to do.
    Nothing,
}

/// The supervisor's transition function.
pub open spec fn supervise(
    st: SupervisorState,
    ev: SupervisorEvent,
) -> (SupervisorState, SupervisorAction) {
    match (st, ev) {
        (SupervisorState::WaitingForNetwork, SupervisorEvent::NetworkPolled(ready)) => {
            if ready {
                (SupervisorState::Connecting, SupervisorAction::OpenTransport)
            } else {
                (SupervisorState::WaitingForNetwork, SupervisorAction::PollNetwork)
            }
        },
        (SupervisorState::Connecting, SupervisorEvent::ConnectResult(ok)) => {
            if ok {
                (SupervisorState::Running, SupervisorAction::StartSession)
            } else {
                (SupervisorState::Connecting, SupervisorAction::OpenTransport)
            }
        },
        (SupervisorState::Running, SupervisorEvent::Session(o)) => {
            if o == SessionOutcome::Continue {
                (SupervisorState::Running, SupervisorAction::KeepRunning)
            } else {
                (SupervisorState::Cooling, SupervisorAction::TeardownSession)
            }
        },
        (SupervisorState::Cooling, SupervisorEvent::GraceElapsed) => {
            (SupervisorState::Connecting, SupervisorAction::OpenTransport)
        },
        _ => (st, SupervisorAction::Nothing),
    }
}

/// One supervisor step: the next state and the action to perform.
pub fn supervisor_step(st: SupervisorState, ev: SupervisorEvent) -> (r: (
    SupervisorState,
    SupervisorAction,
))
    ensures
        r == supervise(st, ev),
{
    match (st, ev) {
        (SupervisorState::WaitingForNetwork, SupervisorEvent::NetworkPolled(ready)) => {
            if ready {
                (SupervisorState::Connecting, SupervisorAction::OpenTransport)
            } else {
                (SupervisorState::WaitingForNetwork, SupervisorAction::PollNetwork)
            }
        },
        (SupervisorState::Connecting, SupervisorEvent::ConnectResult(ok)) => {
            if ok {
                (SupervisorState::Running, SupervisorAction::StartSession)
            } else {
                (SupervisorState::Connecting, SupervisorAction::OpenTransport)
            }
        },
        (SupervisorState::Running, SupervisorEvent::Session(o)) => {
            if matches!(o, SessionOutcome::Continue) {
                (SupervisorState::Running, SupervisorAction::KeepRunning)
            } else {
                (SupervisorState::Cooling, SupervisorAction::TeardownSession)
            }
        },
        (SupervisorState::Cooling, SupervisorEvent::GraceElapsed) => {
            (SupervisorState::Connecting, SupervisorAction::OpenTransport)
        },
        _ => (st, SupervisorAction::Nothing),
    }
}

/// What the session asks of the supervisor once a write was reported.
pub open spec fn outcome_of(s: Sender, w: WriteOutcome) -> SessionOutcome {
    if w == WriteOutcome::RaiseFatal {
        SessionOutcome::FatalAfterRetries
    } else if s.id == u64::MAX {
        SessionOutcome::Reconnect
    } else {
        SessionOutcome::Continue
    }
}

/// The session's outcome after the sender `s` answered a write with `w`: the
/// fatal signal when the retry budget is spent, a reconnect when the id space
/// is used up, otherwise carry on.
pub fn session_outcome(s: &Sender, w: WriteOutcome) -> (o: SessionOutcome)
    ensures
        o == outcome_of(*s, w),
{
    if matches!(w, WriteOutcome::RaiseFatal) {
        SessionOutcome::FatalAfterRetries
    } else if s.id == u64::MAX {
        SessionOutcome::Reconnect
    } else {
        SessionOutcome::Continue
    }
}

} // verus!
