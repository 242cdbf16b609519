use stratum_session::channel::{await_reply, receive, CorrelationQueue, Inbound};
use stratum_session::protocol::{
    next_setup_state, request_method, Method, ProtocolError, Request, Response, SetupState,
};
use stratum_session::sender::{Phase, Sender, WriteOutcome};
use stratum_session::supervisor::{
    session_outcome, supervisor_step, SessionOutcome, SupervisorAction, SupervisorEvent,
    SupervisorState,
};

fn ok(id: u64) -> Response {
    Response { id, result: Ok(b"true".to_vec()) }
}

fn err(id: u64, code: i64) -> Response {
    Response { id, result: Err(ProtocolError { code, message: String::from("pool error") }) }
}

/// Writes the pending request, publishes `reply` and lets the sender wait.
fn round_trip(s: &mut Sender, q: &mut CorrelationQueue, reply: Response) -> bool {
    assert_eq!(s.on_write(true), WriteOutcome::Sent);
    assert!(receive(q, Inbound::Reply(reply)));
    await_reply(s, q)
}

#[test]
fn fresh_sender_sends_configure_with_id_zero() {
    let s = Sender::new();
    assert_eq!(s.next_request(), Some(Request { id: 0, method: Method::Configure }));
    assert_eq!(s.retries, 0);
}

#[test]
fn scenario_unauthorized_worker_then_success_reaches_mining() {
    let mut s = Sender::new();
    let mut q = CorrelationQueue::new();
    assert!(round_trip(&mut s, &mut q, ok(0)));
    assert_eq!((s.state, s.id), (SetupState::Connect, 1));
    assert_eq!(s.next_request(), Some(Request { id: 1, method: Method::Connect }));
    assert!(round_trip(&mut s, &mut q, ok(1)));
    assert_eq!((s.state, s.id), (SetupState::Authorize, 2));
    assert!(round_trip(&mut s, &mut q, err(2, 24)));
    assert_eq!((s.state, s.id), (SetupState::Authorize, 3));
    assert_eq!(s.next_request(), Some(Request { id: 3, method: Method::Authorize }));
    assert!(round_trip(&mut s, &mut q, ok(3)));
    assert_eq!(s.state, SetupState::Mining);
    assert_eq!(s.next_request(), None);
}

#[test]
fn scenario_not_subscribed_rewinds_to_connect() {
    let mut s = Sender::new();
    let mut q = CorrelationQueue::new();
    assert!(round_trip(&mut s, &mut q, ok(0)));
    assert!(round_trip(&mut s, &mut q, ok(1)));
    assert_eq!(s.state, SetupState::Authorize);
    assert!(round_trip(&mut s, &mut q, err(2, 25)));
    assert_eq!(s.state, SetupState::Connect);
    assert_eq!(s.next_request(), Some(Request { id: 3, method: Method::Connect }));
}

#[test]
fn scenario_write_failures_raise_fatal_once() {
    for stage in [SetupState::Configure, SetupState::Connect, SetupState::Authorize] {
        let mut s = Sender { state: stage, id: 7, retries: 0, phase: Phase::Ready };
        for _ in 0..5 {
            assert_eq!(s.on_write(false), WriteOutcome::Retry);
            assert_eq!(s.next_request().map(|r| r.id), Some(7));
        }
        assert_eq!(s.on_write(false), WriteOutcome::RaiseFatal);
        assert_eq!(s.phase, Phase::Halted);
        assert_eq!(s.retries, 6);
        assert_eq!(s.next_request(), None);
        assert_eq!(s.on_write(false), WriteOutcome::Ignored);
        assert_eq!(s.on_write(true), WriteOutcome::Ignored);
        assert_eq!(s.retries, 6);
    }
}

#[test]
fn scenario_zero_length_read_publishes_nothing() {
    let mut s = Sender::new();
    let mut q = CorrelationQueue::new();
    assert_eq!(s.on_write(true), WriteOutcome::Sent);
    assert!(!receive(&mut q, Inbound::EndOfStream));
    assert_eq!(q.len(), 0);
    assert!(!await_reply(&mut s, &mut q));
    assert_eq!(s.phase, Phase::Awaiting);
    assert_eq!((s.state, s.id), (SetupState::Configure, 0));
    assert!(round_trip_after_wait(&mut s, &mut q));
}

fn round_trip_after_wait(s: &mut Sender, q: &mut CorrelationQueue) -> bool {
    assert!(receive(q, Inbound::Reply(ok(0))));
    await_reply(s, q)
}

#[test]
fn failed_reads_and_undecodable_bytes_publish_nothing() {
    let mut q = CorrelationQueue::new();
    assert!(!receive(&mut q, Inbound::ReadFailed));
    assert!(!receive(&mut q, Inbound::Undecodable));
    assert!(!receive(&mut q, Inbound::Notification));
    assert_eq!(q.len(), 0);
}

#[test]
fn stale_and_duplicate_replies_are_discarded() {
    let mut s = Sender::new();
    let mut q = CorrelationQueue::new();
    assert!(round_trip(&mut s, &mut q, ok(0)));
    assert_eq!(s.on_write(true), WriteOutcome::Sent);
    q.publish(ok(0));
    q.publish(err(9, 25));
    q.publish(ok(0));
    assert!(!await_reply(&mut s, &mut q));
    assert_eq!((s.state, s.id, s.phase), (SetupState::Connect, 1, Phase::Awaiting));
    q.publish(ok(5));
    q.publish(ok(1));
    q.publish(ok(1));
    assert!(await_reply(&mut s, &mut q));
    assert_eq!((s.state, s.id), (SetupState::Authorize, 2));
    assert_eq!(q.len(), 1);
    assert_eq!(s.on_write(true), WriteOutcome::Sent);
    assert!(!await_reply(&mut s, &mut q));
    assert_eq!((s.state, s.id), (SetupState::Authorize, 2));
}

#[test]
fn reply_before_write_is_not_used() {
    let mut s = Sender::new();
    assert!(!s.on_response(&ok(0)));
    assert_eq!(s, Sender::new());
}

#[test]
fn other_error_codes_keep_the_stage() {
    for (stage, id) in [(SetupState::Configure, 0), (SetupState::Connect, 4), (SetupState::Authorize, 9)] {
        for code in [-1, 0, 20, 21, 22, 23, 26] {
            let mut s = Sender { state: stage, id, retries: 2, phase: Phase::Awaiting };
            assert!(s.on_response(&err(id, code)));
            assert_eq!((s.state, s.id, s.retries, s.phase), (stage, id + 1, 2, Phase::Ready));
        }
    }
}

#[test]
fn codes_24_and_25_outside_authorize_keep_the_stage() {
    for stage in [SetupState::Configure, SetupState::Connect] {
        for code in [24, 25] {
            assert_eq!(next_setup_state(stage, &err(0, code)), stage);
        }
    }
}

#[test]
fn success_advances_one_stage() {
    assert_eq!(next_setup_state(SetupState::Configure, &ok(0)), SetupState::Connect);
    assert_eq!(next_setup_state(SetupState::Connect, &ok(0)), SetupState::Authorize);
    assert_eq!(next_setup_state(SetupState::Authorize, &ok(0)), SetupState::Mining);
    assert_eq!(next_setup_state(SetupState::Mining, &ok(0)), SetupState::Mining);
    assert_eq!(request_method(SetupState::Mining), None);
    assert_eq!(request_method(SetupState::Authorize), Some(Method::Authorize));
}

#[test]
fn retry_counter_survives_successful_round_trips() {
    let mut s = Sender::new();
    let mut q = CorrelationQueue::new();
    assert_eq!(s.on_write(false), WriteOutcome::Retry);
    assert_eq!(s.on_write(false), WriteOutcome::Retry);
    assert!(round_trip(&mut s, &mut q, ok(0)));
    assert_eq!(s.retries, 2);
    for _ in 0..3 {
        assert_eq!(s.on_write(false), WriteOutcome::Retry);
    }
    assert_eq!(s.on_write(false), WriteOutcome::RaiseFatal);
    assert_eq!(s.retries, 6);
}

#[test]
fn full_queue_drops_the_oldest() {
    let mut q = CorrelationQueue::new();
    for id in 0..6u64 {
        q.publish(ok(id));
    }
    assert_eq!(q.len(), 4);
    assert_eq!(q.next().map(|r| r.id), Some(2));
    assert_eq!(q.next().map(|r| r.id), Some(3));
    assert_eq!(q.next().map(|r| r.id), Some(4));
    assert_eq!(q.next().map(|r| r.id), Some(5));
    assert_eq!(q.next(), None);
}

#[test]
fn queue_keeps_arrival_order() {
    let mut q = CorrelationQueue::new();
    assert!(receive(&mut q, Inbound::Reply(err(3, 25))));
    assert!(receive(&mut q, Inbound::Reply(ok(1))));
    assert_eq!(q.next(), Some(err(3, 25)));
    assert_eq!(q.next(), Some(ok(1)));
}

#[test]
fn supervisor_runs_the_session_lifecycle() {
    let mut st = SupervisorState::WaitingForNetwork;
    let steps = [
        (SupervisorEvent::NetworkPolled(false), SupervisorState::WaitingForNetwork, SupervisorAction::PollNetwork),
        (SupervisorEvent::NetworkPolled(true), SupervisorState::Connecting, SupervisorAction::OpenTransport),
        (SupervisorEvent::ConnectResult(false), SupervisorState::Connecting, SupervisorAction::OpenTransport),
        (SupervisorEvent::ConnectResult(true), SupervisorState::Running, SupervisorAction::StartSession),
        (SupervisorEvent::Session(SessionOutcome::Continue), SupervisorState::Running, SupervisorAction::KeepRunning),
        (SupervisorEvent::Session(SessionOutcome::FatalAfterRetries), SupervisorState::Cooling, SupervisorAction::TeardownSession),
        (SupervisorEvent::ConnectResult(true), SupervisorState::Cooling, SupervisorAction::Nothing),
        (SupervisorEvent::GraceElapsed, SupervisorState::Connecting, SupervisorAction::OpenTransport),
        (SupervisorEvent::ConnectResult(true), SupervisorState::Running, SupervisorAction::StartSession),
        (SupervisorEvent::Session(SessionOutcome::Reconnect), SupervisorState::Cooling, SupervisorAction::TeardownSession),
    ];
    for (ev, next, action) in steps {
        let (n, a) = supervisor_step(st, ev);
        assert_eq!((n, a), (next, action));
        st = n;
    }
}

#[test]
fn session_outcome_follows_the_write_answer() {
    let s = Sender::new();
    assert_eq!(session_outcome(&s, WriteOutcome::Sent), SessionOutcome::Continue);
    assert_eq!(session_outcome(&s, WriteOutcome::Retry), SessionOutcome::Continue);
    assert_eq!(session_outcome(&s, WriteOutcome::RaiseFatal), SessionOutcome::FatalAfterRetries);
    let spent = Sender { id: u64::MAX, ..Sender::new() };
    assert_eq!(session_outcome(&spent, WriteOutcome::Sent), SessionOutcome::Reconnect);
}
