//! Requests, responses and the setup handshake's transition table.
use vstd::prelude::*;

verus! {

/// Pool error code: "Unauthorized worker".
pub const UNAUTHORIZED_WORKER: i64 = 24;

/// Pool error code: "Not subscribed".
pub const NOT_SUBSCRIBED: i64 = 25;

/// Stage of the setup handshake. `Mining` is terminal.
#[derive(Clone, Copy, Debug, PartialEq, Eq, Structural)]
pub enum SetupState {
    Configure,
    Connect,
    Authorize,
    Mining,
}

/// The request class sent in a setup stage.
#[derive(Clone, Copy, Debug, PartialEq, Eq, Structural)]
pub enum Method {
    Configure,
    Connect,
    Authorize,
}

/// A request: its session-scoped id and its class. Credentials and the
/// client name are added by the encoder.
#[derive(Clone, Copy, Debug, PartialEq, Eq, Structural)]
pub struct Request {
    pub id: u64,
    pub method: Method,
}

/// An error reported by the pool in a well-formed response.
#[derive(Debug, PartialEq, Eq)]
pub struct ProtocolError {
    pub code: i64,
    pub message: String,
}

/// A decoded response: the id of the request it answers and its result.
/// The payload is an owned copy of the bytes received.
#[derive(Debug, PartialEq, Eq)]
pub struct Response {
    pub id: u64,
    pub result: Result<Vec<u8>, ProtocolError>,
}

/// What a response says, as far as the handshake is concerned.
pub enum Verdict {
    Success,
    Failure(i64),
}

pub open spec fn verdict_of(r: Response) -> Verdict {
    match r.result {
        Ok(_) => Verdict::Success,
        Err(e) => Verdict::Failure(e.code),
    }
}

/// The request class that a setup stage sends; none once mining.
pub open spec fn method_of(s: SetupState) -> Option<Method> {
    match s {
        SetupState::Configure => Some(Method::Configure),
        SetupState::Connect => Some(Method::Connect),
        SetupState::Authorize => Some(Method::Authorize),
        SetupState::Mining => None,
    }
}

/// The stage that follows a successful round trip.
pub open spec fn advance(s: SetupState) -> SetupState {
    match s {
        SetupState::Configure => SetupState::Connect,
        SetupState::Connect => SetupState::Authorize,
        SetupState::Authorize => SetupState::Mining,
        SetupState::Mining => SetupState::Mining,
    }
}

/// The stage after the pool reports error `code`. Only Authorize rewinds:
/// "Unauthorized worker" retries Authorize, "Not subscribed" goes back to
/// Connect. Every other code, and every code in another stage, keeps the stage.
pub open spec fn after_error(s: SetupState, code: int) -> SetupState {
    if s == SetupState::Authorize && code == UNAUTHORIZED_WORKER {
        SetupState::Authorize
    } else if s == SetupState::Authorize && code == NOT_SUBSCRIBED {
        SetupState::Connect
    } else {
        s
    }
}

/// The stage after a completed round trip with the given verdict.
pub open spec fn after_reply(s: SetupState, v: Verdict) -> SetupState {
    match v {
        Verdict::Success => advance(s),
        Verdict::Failure(code) => after_error(s, code as int),
    }
}

/// The request class for a setup stage.
pub fn request_method(s: SetupState) -> (m: Option<Method>)
    ensures
        m == method_of(s),
{
    match s {
        SetupState::Configure => Some(Method::Configure),
        SetupState::Connect => Some(Method::Connect),
        SetupState::Authorize => Some(Method::Authorize),
        SetupState::Mining => None,
    }
}

/// The stage after a completed round trip whose response is `r`.
pub fn next_setup_state(s: SetupState, r: &Response) -> (n: SetupState)
    ensures
        n == after_reply(s, verdict_of(*r)),
{
    match &r.result {
        Ok(_) => match s {
            SetupState::Configure => SetupState::Connect,
            SetupState::Connect => SetupState::Authorize,
            SetupState::Authorize => SetupState::Mining,
            SetupState::Mining => SetupState::Mining,
        },
        Err(e) => {
            if matches!(s, SetupState::Authorize) && e.code == UNAUTHORIZED_WORKER {
                SetupState::Authorize
            } else if matches!(s, SetupState::Authorize) && e.code == NOT_SUBSCRIBED {
                SetupState::Connect
            } else {
                s
            }
        },
    }
}

} // verus!
