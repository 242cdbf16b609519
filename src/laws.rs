//! Properties of the send half over whole sequences of events, proved from
//! the step functions that the executable code is held to.
use vstd::prelude::*;

use crate::protocol::{
    advance, after_reply, Response, SetupState, Verdict, NOT_SUBSCRIBED,
    UNAUTHORIZED_WORKER,
};
use crate::sender::{Phase, Sender, WriteOutcome, MAX_WRITE_RETRIES};

verus! {

/// Something that happens to the send half: a write is reported, or a
/// response comes off the correlation queue.
pub enum SenderEvent {
    Write(bool),
    Reply(Response),
}

/// The sender after one event.
pub open spec fn step(s: Sender, e: SenderEvent) -> Sender {
    match e {
        SenderEvent::Write(ok) => s.write_step(ok).0,
        SenderEvent::Reply(r) => s.reply_step(r),
    }
}

/// Whether an event raises the fatal signal.
pub open spec fn raises(s: Sender, e: SenderEvent) -> bool {
    match e {
        SenderEvent::Write(ok) => s.write_step(ok).1 == WriteOutcome::RaiseFatal,
        SenderEvent::Reply(_) => false,
    }
}

/// The sender after a sequence of events.
pub open spec fn run(s: Sender, es: Seq<SenderEvent>) -> Sender
    decreases es.len(),
{
    if es.len() == 0 {
        s
    } else {
        run(step(s, es[0]), es.drop_first())
    }
}

/// How many events of the sequence raise the fatal signal.
pub open spec fn fatal_count(s: Sender, es: Seq<SenderEvent>) -> nat
    decreases es.len(),
{
    if es.len() == 0 {
        0
    } else {
        (if raises(s, es[0]) {
            1nat
        } else {
            0nat
        }) + fatal_count(step(s, es[0]), es.drop_first())
    }
}

/// The sender after taking the responses `rs` off the queue in order.
pub open spec fn replay(s: Sender, rs: Seq<Response>) -> Sender
    decreases rs.len(),
{
    if rs.len() == 0 {
        s
    } else {
        replay(s.reply_step(rs[0]), rs.drop_first())
    }
}

/// However responses arrive (reordered, duplicated, stale), any run of them
/// none of which carries the outstanding request's id leaves the sender
/// exactly as it was.
pub proof fn lemma_unanswered_replies_are_inert(s: Sender, rs: Seq<Response>)
    requires
        forall|i: int| 0 <= i < rs.len() ==> !s.answers(#[trigger] rs[i].id),
    ensures
        replay(s, rs) == s,
    decreases rs.len(),
{
    if rs.len() > 0 {
        assert(!s.answers(rs[0].id));
        assert forall|i: int| 0 <= i < rs.len() - 1 implies !s.answers(#[trigger] rs.drop_first()[i].id) by {
            assert(rs.drop_first()[i] == rs[i + 1]);
        }
        lemma_unanswered_replies_are_inert(s, rs.drop_first());
    }
}

/// The sender changes on a response only if the response carries the
/// outstanding request's id.
pub proof fn lemma_only_matching_reply_changes_sender(s: Sender, r: Response)
    ensures
        s.reply_step(r) != s ==> s.phase == Phase::Awaiting && r.id == s.id,
{
}

/// A response delivered twice is used once: the duplicate finds no request
/// outstanding under its id.
pub proof fn lemma_duplicate_reply_is_inert(s: Sender, r: Response)
    ensures
        s.reply_step(r).reply_step(r) == s.reply_step(r),
{
}

/// A response to an earlier request of the session is never used.
pub proof fn lemma_stale_reply_is_inert(s: Sender, r: Response)
    requires
        r.id < s.id,
    ensures
        s.reply_step(r) == s,
{
}

/// Request ids only move forward: a completed round trip raises the id by
/// one, and no other event changes it, so no id is used twice in a session.
pub proof fn lemma_id_moves_only_on_round_trip(s: Sender, e: SenderEvent)
    requires
        s.id < u64::MAX,
    ensures
        step(s, e).id == s.id + (if e is Reply && s.answers(e->Reply_0.id) {
            1int
        } else {
            0int
        }),
{
}

/// A pool error with a code other than "Unauthorized worker" and "Not
/// subscribed" leaves the setup stage as it was, in every stage.
pub proof fn lemma_other_error_codes_keep_stage(s: Sender, r: Response)
    requires
        r.result is Err,
        r.result->Err_0.code != UNAUTHORIZED_WORKER,
        r.result->Err_0.code != NOT_SUBSCRIBED,
    ensures
        s.reply_step(r).state == s.state,
{
}

/// While authorizing, "Unauthorized worker" retries Authorize and "Not
/// subscribed" rewinds to Connect; either way the id moves on.
pub proof fn lemma_authorize_error_codes(s: Sender, r: Response)
    requires
        s.state == SetupState::Authorize,
        s.answers(r.id),
        s.id < u64::MAX,
        r.result is Err,
    ensures
        r.result->Err_0.code == UNAUTHORIZED_WORKER ==> s.reply_step(r).state
            == SetupState::Authorize,
        r.result->Err_0.code == NOT_SUBSCRIBED ==> s.reply_step(r).state == SetupState::Connect,
        s.reply_step(r).id == s.id + 1,
        s.reply_step(r).phase == Phase::Ready,
{
}

/// The stage never moves past where a success would take it: a reply either
/// advances by one stage on success or, on error, keeps or rewinds it.
pub proof fn lemma_stage_never_skips(s: SetupState, v: Verdict)
    ensures
        after_reply(s, v) == advance(s) || after_reply(s, v) == s || (s == SetupState::Authorize
            && after_reply(s, v) == SetupState::Connect),
{
}

/// The retry counter grows by one on each reported write failure while a
/// request is pending, and is otherwise unchanged: no event lowers it.
pub proof fn lemma_retries_grow_only_on_write_failure(s: Sender, e: SenderEvent)
    requires
        s.wf(),
    ensures
        step(s, e).wf(),
        step(s, e).retries == s.retries + (if e == SenderEvent::Write(false) && s.pending() is Some {
            1int
        } else {
            0int
        }),
{
}

/// Over any sequence of events the retry counter never decreases.
pub proof fn lemma_retries_never_drop(s: Sender, es: Seq<SenderEvent>)
    requires
        s.wf(),
    ensures
        run(s, es).wf(),
        run(s, es).retries >= s.retries,
    decreases es.len(),
{
    if es.len() > 0 {
        lemma_retries_grow_only_on_write_failure(s, es[0]);
        lemma_retries_never_drop(step(s, es[0]), es.drop_first());
    }
}

/// Once halted, the sender stays halted, sends nothing and raises nothing.
pub proof fn lemma_halted_is_final(s: Sender, es: Seq<SenderEvent>)
    requires
        s.phase == Phase::Halted,
    ensures
        run(s, es) == s,
        fatal_count(s, es) == 0,
        s.pending() is None,
    decreases es.len(),
{
    if es.len() > 0 {
        lemma_halted_is_final(step(s, es[0]), es.drop_first());
    }
}

/// Within a session the fatal signal is raised at most once, whatever the
/// events.
pub proof fn lemma_fatal_raised_at_most_once(s: Sender, es: Seq<SenderEvent>)
    requires
        s.wf(),
    ensures
        fatal_count(s, es) <= 1,
    decreases es.len(),
{
    if es.len() > 0 {
        let t = step(s, es[0]);
        lemma_retries_grow_only_on_write_failure(s, es[0]);
        if raises(s, es[0]) {
            lemma_halted_is_final(t, es.drop_first());
        } else {
            lemma_fatal_raised_at_most_once(t, es.drop_first());
        }
    }
}

/// Six write failures in a row, from a sender with a request pending and no
/// failure yet, raise the fatal signal exactly once, on the sixth; after it
/// the sender is halted and offers no further request. Five do not raise it.
pub proof fn lemma_sixth_write_failure_raises(s: Sender)
    requires
        s.wf(),
        s.retries == 0,
        s.pending() is Some,
    ensures
        fatal_count(s, Seq::new(5, |i: int| SenderEvent::Write(false))) == 0,
        run(s, Seq::new(5, |i: int| SenderEvent::Write(false))).pending() is Some,
        fatal_count(s, Seq::new(6, |i: int| SenderEvent::Write(false))) == 1,
        run(s, Seq::new(6, |i: int| SenderEvent::Write(false))).phase == Phase::Halted,
        run(s, Seq::new(6, |i: int| SenderEvent::Write(false))).pending() is None,
{
    let f5 = Seq::new(5, |i: int| SenderEvent::Write(false));
    let f6 = Seq::new(6, |i: int| SenderEvent::Write(false));
    lemma_run_failures(s, 6);
    lemma_run_failures(s, 5);
    reveal_with_fuel(raised_times, 7);
    reveal_with_fuel(fail_times, 7);
    assert(raised_times(s, 5) == 0);
    assert(raised_times(s, 6) == 1);
    assert(f6 =~= failures(6));
    assert(f5 =~= failures(5));
    assert(MAX_WRITE_RETRIES == 5);
}

spec fn failures(n: nat) -> Seq<SenderEvent> {
    Seq::new(n, |i: int| SenderEvent::Write(false))
}

spec fn fail_times(s: Sender, n: nat) -> Sender
    decreases n,
{
    if n == 0 {
        s
    } else {
        fail_times(step(s, SenderEvent::Write(false)), (n - 1) as nat)
    }
}

spec fn raised_times(s: Sender, n: nat) -> nat
    decreases n,
{
    if n == 0 {
        0
    } else {
        (if raises(s, SenderEvent::Write(false)) {
            1nat
        } else {
            0nat
        }) + raised_times(step(s, SenderEvent::Write(false)), (n - 1) as nat)
    }
}

proof fn lemma_run_failures(s: Sender, n: nat)
    ensures
        run(s, failures(n)) == fail_times(s, n),
        fatal_count(s, failures(n)) == raised_times(s, n),
    decreases n,
{
    if n > 0 {
        assert(failures(n).drop_first() =~= failures((n - 1) as nat));
        lemma_run_failures(step(s, SenderEvent::Write(false)), (n - 1) as nat);
    }
}

} // verus!
