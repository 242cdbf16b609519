//! The send half: one outstanding request at a time, correlation by exact id,
//! and the bounded write-retry policy.
use vstd::prelude::*;

use crate::protocol::{
    after_reply, method_of, next_setup_state, request_method, verdict_of, Request, Response,
    SetupState,
};

verus! {

/// Write failures tolerated in one session; one more raises the fatal signal.
pub const MAX_WRITE_RETRIES: u32 = 5;

/// Where the sender stands with respect to the transport.
#[derive(Clone, Copy, Debug, PartialEq, Eq, Structural)]
pub enum Phase {
    /// The request for the current stage and id is to be written.
    Ready,
    /// The request with the current id was written; its response is awaited.
    Awaiting,
    /// The retry budget is spent and the fatal signal was raised; nothing more
    /// is sent in this session.
    Halted,
}

/// What the caller does after reporting a write.
#[derive(Clone, Copy, Debug, PartialEq, Eq, Structural)]
pub enum WriteOutcome {
    /// The request is out; wait for its response.
    Sent,
    /// The write failed within budget; write the same request again.
    Retry,
    /// The write failed and the budget is spent: raise the fatal signal.
    RaiseFatal,
    /// No request was outstanding for writing; nothing changed.
    Ignored,
}

/// Per-session state of the send half. A new session starts from `new`.
#[derive(Clone, Copy, Debug, PartialEq, Eq, Structural)]
pub struct Sender {
    pub state: SetupState,
    /// Id of the current request; raised on every completed round trip.
    pub id: u64,
    /// Write failures so far in this session; never lowered.
    pub retries: u32,
    pub phase: Phase,
}

impl Sender {
    /// The retry counter stays within budget until the sender halts, and
    /// halts exactly when it goes one past the budget.
    pub open spec fn wf(self) -> bool {
        if self.phase == Phase::Halted {
            self.retries == MAX_WRITE_RETRIES + 1
        } else {
            self.retries <= MAX_WRITE_RETRIES
        }
    }

    pub open spec fn initial() -> Sender {
        Sender { state: SetupState::Configure, id: 0, retries: 0, phase: Phase::Ready }
    }

    /// The request to write now, if any.
    pub open spec fn pending(self) -> Option<Request> {
        if self.phase == Phase::Ready {
            match method_of(self.state) {
                Some(m) => Some(Request { id: self.id, method: m }),
                None => None,
            }
        } else {
            None
        }
    }

    /// The sender's state and answer after a write is reported.
    pub open spec fn write_step(self, written: bool) -> (Sender, WriteOutcome) {
        if self.pending() is None {
            (self, WriteOutcome::Ignored)
        } else if written {
            (Sender { phase: Phase::Awaiting, ..self }, WriteOutcome::Sent)
        } else if self.retries + 1 > MAX_WRITE_RETRIES {
            (
                Sender { retries: (self.retries + 1) as u32, phase: Phase::Halted, ..self },
                WriteOutcome::RaiseFatal,
            )
        } else {
            (Sender { retries: (self.retries + 1) as u32, ..self }, WriteOutcome::Retry)
        }
    }

    /// Whether a response with this id answers the outstanding request.
    pub open spec fn answers(self, id: u64) -> bool {
        self.phase == Phase::Awaiting && id == self.id
    }

    /// The sender after a response comes off the correlation queue. One that
    /// does not answer the outstanding request is dropped without effect.
    pub open spec fn reply_step(self, r: Response) -> Sender {
        if self.answers(r.id) {
            Sender {
                state: after_reply(self.state, verdict_of(r)),
                id: (self.id + 1) as u64,
                phase: Phase::Ready,
                ..self
            }
        } else {
            self
        }
    }

    /// A sender for a fresh session: Configure, id 0, no failures.
    pub fn new() -> (s: Sender)
        ensures
            s == Sender::initial(),
            s.wf(),
    {
        Sender { state: SetupState::Configure, id: 0, retries: 0, phase: Phase::Ready }
    }

    /// The request to encode and write now: the current stage's request with
    /// the current id, while ready and not yet mining.
    pub fn next_request(&self) -> (r: Option<Request>)
        ensures
            r == self.pending(),
    {
        match self.phase {
            Phase::Ready => match request_method(self.state) {
                Some(m) => Some(Request { id: self.id, method: m }),
                None => None,
            },
            _ => None,
        }
    }

    /// Reports whether the pending request was written in full. A failure
    /// counts against the budget; going past it halts the sender.
    pub fn on_write(&mut self, written: bool) -> (out: WriteOutcome)
        requires
            old(self).wf(),
        ensures
            (*final(self), out) == old(self).write_step(written),
            final(self).wf(),
    {
        if self.next_request().is_none() {
            return WriteOutcome::Ignored;
        }
        if written {
            self.phase = Phase::Awaiting;
            WriteOutcome::Sent
        } else if self.retries + 1 > MAX_WRITE_RETRIES {
            self.retries = self.retries + 1;
            self.phase = Phase::Halted;
            WriteOutcome::RaiseFatal
        } else {
            self.retries = self.retries + 1;
            WriteOutcome::Retry
        }
    }

    /// Hands the sender a response from the correlation queue. Only one whose
    /// id equals the outstanding request's id is used: it completes the round
    /// trip, moves the stage by the transition table and raises the id.
    /// Returns whether it was used.
    pub fn on_response(&mut self, r: &Response) -> (used: bool)
        requires
            old(self).wf(),
            old(self).id < u64::MAX,
        ensures
            used == old(self).answers(r.id),
            final(self).wf(),
            *final(self) == old(self).reply_step(*r),
    {
        if matches!(self.phase, Phase::Awaiting) && r.id == self.id {
            self.state = next_setup_state(self.state, r);
            self.id = self.id + 1;
            self.phase = Phase::Ready;
            true
        } else {
            false
        }
    }
}

} // verus!
