//! What the gateway tells its caller, and the step between decoding a request
//! and touching a backend.

use vstd::prelude::*;

verus! {

/// Status code sent with a successful outcome.
pub const STATUS_OK: u16 = 200;

/// Status code sent with every failed outcome, whoever caused the failure.
pub const STATUS_FAILURE: u16 = 500;

/// The three ways a request can end.
#[derive(Clone, Copy, Debug, PartialEq, Eq, Structural)]
pub enum OutcomeKind {
    /// The backend performed the operation.
    Success,
    /// The request could not be decoded; no backend was contacted.
    BadRequest,
    /// Building the connection or performing the operation failed.
    ServerError,
}

/// The answer to one request: how it ended and the text sent back.
#[derive(Clone, Debug, PartialEq, Eq)]
pub struct Outcome {
    pub kind: OutcomeKind,
    pub body: String,
}

/// Mathematical model of an [`Outcome`].
pub ghost struct OutcomeView {
    pub kind: OutcomeKind,
    pub body: Seq<char>,
}

impl View for Outcome {
    type V = OutcomeView;

    open spec fn view(&self) -> OutcomeView {
        OutcomeView { kind: self.kind, body: self.body@ }
    }
}

/// The status code that goes with each kind of outcome: failures are not told
/// apart by code, only by text.
pub open spec fn status_of(kind: OutcomeKind) -> u16 {
    match kind {
        OutcomeKind::Success => 200,
        OutcomeKind::BadRequest => 500,
        OutcomeKind::ServerError => 500,
    }
}

/// The empty success.
pub open spec fn success_view() -> OutcomeView {
    OutcomeView { kind: OutcomeKind::Success, body: Seq::<char>::empty() }
}

/// The outcome of a request that could not be decoded.
pub open spec fn bad_request_view(reason: Seq<char>) -> OutcomeView {
    OutcomeView { kind: OutcomeKind::BadRequest, body: reason }
}

/// The outcome of a backend call that failed for `reason`.
pub open spec fn server_error_view(reason: Seq<char>) -> OutcomeView {
    OutcomeView { kind: OutcomeKind::ServerError, body: reason }
}

/// The outcome that reports the result of a backend call.
pub open spec fn respond_view(result: Result<(), String>) -> OutcomeView {
    match result {
        Ok(_) => success_view(),
        Err(reason) => server_error_view(reason@),
    }
}

impl Outcome {
    /// The empty success.
    pub fn success() -> (outcome: Outcome)
        ensures
            outcome@ == success_view(),
    {
        Outcome { kind: OutcomeKind::Success, body: String::new() }
    }

    /// The failure of a request whose decoding failed for `reason`.
    pub fn bad_request(reason: String) -> (outcome: Outcome)
        ensures
            outcome@ == bad_request_view(reason@),
    {
        Outcome { kind: OutcomeKind::BadRequest, body: reason }
    }

    /// The failure of a backend call that failed for `reason`.
    pub fn server_error(reason: String) -> (outcome: Outcome)
        ensures
            outcome@ == server_error_view(reason@),
    {
        Outcome { kind: OutcomeKind::ServerError, body: reason }
    }

    /// A success that carries `body`, as a liveness probe sends it.
    pub fn greeting(body: &str) -> (outcome: Outcome)
        ensures
            outcome@ == (OutcomeView { kind: OutcomeKind::Success, body: body@ }),
    {
        Outcome { kind: OutcomeKind::Success, body: String::from_str(body) }
    }

    /// The status code to send.
    pub fn status(&self) -> (code: u16)
        ensures
            code == status_of(self.kind),
            code == STATUS_OK <==> self.kind == OutcomeKind::Success,
            code == STATUS_FAILURE <==> self.kind != OutcomeKind::Success,
    {
        match self.kind {
            OutcomeKind::Success => STATUS_OK,
            OutcomeKind::BadRequest => STATUS_FAILURE,
            OutcomeKind::ServerError => STATUS_FAILURE,
        }
    }

    /// Whether the request failed.
    pub fn is_failure(&self) -> (failed: bool)
        ensures
            failed == (self.kind != OutcomeKind::Success),
            failed == (status_of(self.kind) == STATUS_FAILURE),
    {
        match self.kind {
            OutcomeKind::Success => false,
            OutcomeKind::BadRequest => true,
            OutcomeKind::ServerError => true,
        }
    }
}

/// Maps the result of the one backend call of a request to its outcome: an
/// empty success, or a server error whose body is the failure text as it came.
pub fn respond(result: Result<(), String>) -> (outcome: Outcome)
    ensures
        outcome@ == respond_view(result),
{
    match result {
        Ok(_) => Outcome::success(),
        Err(reason) => Outcome::server_error(reason),
    }
}

/// What a handler decides once the request body has been decoded: either the
/// backend is called with `C`, or the caller is answered at once.
#[derive(Clone, Debug)]
pub enum Step<C> {
    /// Perform this one backend call, then report its result with [`respond`].
    Invoke(C),
    /// Answer without contacting any backend.
    Reply(Outcome),
}

/// Whatever reason a failed backend call gives, the caller receives status 500
/// and exactly that reason as body; the body is empty only if the reason is.
pub proof fn failed_call_is_server_error(reason: String)
    ensures
        status_of(respond_view(Err(reason)).kind) == STATUS_FAILURE,
        respond_view(Err(reason)).body == reason@,
        reason@.len() > 0 ==> respond_view(Err(reason)).body.len() > 0,
{
}

} // verus!
