//! The HTTP side of the loop: what a request carries and what its result means.
//!
//! A request is one authenticated `POST` with an empty body to a fixed path on
//! the server, raced as a whole against a single timeout. The driver performs
//! it and reports a [`Reply`]; this module decides what is sent, classifies
//! the reply and picks the LED signal that tells the user about it. A failed
//! request is not retried here: the next heartbeat or the next use of the
//! button is the next attempt.

use vstd::prelude::*;
use vstd::string::*;
use crate::led::{
    led_pattern_done, led_pattern_error, led_pattern_ping, lemma_signals_play_differently,
    pattern_actions, LedAction, Signal,
};

verus! {

/// The status code that counts as success.
pub const STATUS_OK: u16 = 200;

/// How long a request may take, connecting and sending together, in milliseconds.
pub const REQUEST_TIMEOUT_MS: u64 = 5000;

/// The size of the buffer that receives the response, in bytes.
pub const RESPONSE_CAPACITY: usize = 1024;

/// The two requests that the device makes.
#[derive(Clone, Copy, Debug, PartialEq, Eq, Structural)]
pub enum Endpoint {
    /// The periodic keep-alive.
    Ping,
    /// The record of one use of the button.
    Record,
}

/// Why a request failed.
#[derive(Clone, Copy, Debug, PartialEq, Eq, Structural)]
pub enum FailureReason {
    /// The network layer reported an error while connecting or transmitting.
    ConnectError,
    /// The timeout elapsed before the request completed.
    Timeout,
    /// A response arrived, with a status other than OK.
    NonOkStatus,
}

/// The result of one request.
#[derive(Clone, Copy, Debug, PartialEq, Eq, Structural)]
pub enum RequestOutcome {
    Success,
    Failure(FailureReason),
}

/// What the driver saw when it raced a request against its timeout.
#[derive(Clone, Copy, Debug, PartialEq, Eq, Structural)]
pub enum Reply {
    /// The timer won the race; the request was abandoned.
    TimedOut,
    /// The network layer gave up with an error.
    TransportError,
    /// The server answered with this status code.
    Response { status: u16 },
}

/// Everything the driver needs to perform one request.
#[derive(Debug, PartialEq, Eq)]
pub struct Request {
    /// Where the request goes; see [`Endpoint::path`].
    pub endpoint: Endpoint,
    /// The value of the `Authorization` header, the only header sent.
    pub authorization: String,
    /// The deadline for the whole request, in milliseconds.
    pub timeout_ms: u64,
    /// The size of the response buffer, in bytes.
    pub response_capacity: usize,
}

impl Endpoint {
    /// The path of this endpoint on the server.
    pub open spec fn spec_path(self) -> Seq<char> {
        match self {
            Endpoint::Ping => "/api/sleeping/ping"@,
            Endpoint::Record => "/api/sleeping/record"@,
        }
    }

    /// The path of this endpoint on the server.
    pub fn path(self) -> (path: &'static str)
        ensures
            path@ == self.spec_path(),
    {
        match self {
            Endpoint::Ping => "/api/sleeping/ping",
            Endpoint::Record => "/api/sleeping/record",
        }
    }
}

/// The name of the one header that every request carries.
pub fn authorization_header() -> (name: &'static str)
    ensures
        name@ == "Authorization"@,
{
    "Authorization"
}

/// The value of the `Authorization` header for the given shared secret.
pub fn authorization(shared_secret: &str) -> (value: String)
    ensures
        value@ == "SharedSecret "@ + shared_secret@,
{
    String::from_str("SharedSecret ").concat(shared_secret)
}

/// The request to `endpoint`, authenticated with `shared_secret`.
pub fn request(endpoint: Endpoint, shared_secret: &str) -> (request: Request)
    ensures
        request.endpoint == endpoint,
        request.authorization@ == "SharedSecret "@ + shared_secret@,
        request.timeout_ms == REQUEST_TIMEOUT_MS,
        request.response_capacity == RESPONSE_CAPACITY,
{
    Request {
        endpoint,
        authorization: authorization(shared_secret),
        timeout_ms: REQUEST_TIMEOUT_MS,
        response_capacity: RESPONSE_CAPACITY,
    }
}

/// How a reply is classified: a timeout and a transport error are failures of
/// their own kind, and a response is a success exactly when its status is OK.
pub open spec fn outcome_of(reply: Reply) -> RequestOutcome {
    match reply {
        Reply::TimedOut => RequestOutcome::Failure(FailureReason::Timeout),
        Reply::TransportError => RequestOutcome::Failure(FailureReason::ConnectError),
        Reply::Response { status } => if status == STATUS_OK {
            RequestOutcome::Success
        } else {
            RequestOutcome::Failure(FailureReason::NonOkStatus)
        },
    }
}

/// The signal that reports `outcome` of a request to `endpoint`: every failure
/// looks the same, a success says which request it was.
pub open spec fn feedback(endpoint: Endpoint, outcome: RequestOutcome) -> Signal {
    match outcome {
        RequestOutcome::Success => match endpoint {
            Endpoint::Ping => Signal::Ping,
            Endpoint::Record => Signal::Done,
        },
        RequestOutcome::Failure(_) => Signal::Error,
    }
}

impl RequestOutcome {
    /// Whether the request succeeded.
    pub fn is_success(&self) -> (success: bool)
        ensures
            success == (*self == RequestOutcome::Success),
    {
        match self {
            RequestOutcome::Success => true,
            RequestOutcome::Failure(_) => false,
        }
    }
}

/// Classifies the reply to one request.
pub fn sleeping_request(reply: Reply) -> (outcome: RequestOutcome)
    ensures
        outcome == outcome_of(reply),
{
    match reply {
        Reply::TimedOut => RequestOutcome::Failure(FailureReason::Timeout),
        Reply::TransportError => RequestOutcome::Failure(FailureReason::ConnectError),
        Reply::Response { status } => {
            if status == STATUS_OK {
                RequestOutcome::Success
            } else {
                RequestOutcome::Failure(FailureReason::NonOkStatus)
            }
        },
    }
}

/// Handles the reply to a ping: plays the ping pattern when it succeeded and
/// the error pattern when it did not.
pub fn sleeping_ping(reply: Reply, script: &mut Vec<LedAction>) -> (outcome: RequestOutcome)
    ensures
        outcome == outcome_of(reply),
        final(script)@ == old(script)@ + pattern_actions(
            feedback(Endpoint::Ping, outcome_of(reply)).pattern(),
        ),
{
    let outcome = sleeping_request(reply);
    if outcome.is_success() {
        led_pattern_ping(script);
    } else {
        led_pattern_error(script);
    }
    outcome
}

/// Handles the reply to a record request: plays the done pattern when it
/// succeeded and the error pattern when it did not.
pub fn sleeping_record(reply: Reply, script: &mut Vec<LedAction>) -> (outcome: RequestOutcome)
    ensures
        outcome == outcome_of(reply),
        final(script)@ == old(script)@ + pattern_actions(
            feedback(Endpoint::Record, outcome_of(reply)).pattern(),
        ),
{
    let outcome = sleeping_request(reply);
    if outcome.is_success() {
        led_pattern_done(script);
    } else {
        led_pattern_error(script);
    }
    outcome
}

/// A request whose timer fires first fails with `Timeout`, whatever else was
/// going on, and a request fails with `Timeout` only then.
pub proof fn lemma_timeout_is_failure(reply: Reply)
    ensures
        outcome_of(reply) == RequestOutcome::Failure(FailureReason::Timeout) <==> reply
            == Reply::TimedOut,
{
}

/// A request succeeds exactly when a response with status OK arrived.
pub proof fn lemma_success_needs_ok(reply: Reply)
    ensures
        outcome_of(reply) == RequestOutcome::Success <==> reply == (Reply::Response {
            status: STATUS_OK,
        }),
{
}

/// The success signal of an endpoint is shown exactly for a response with
/// status OK; every other reply shows the error signal; and the two are
/// played differently, so the one can never be taken for the other.
pub proof fn lemma_feedback_tells_outcome(endpoint: Endpoint, reply: Reply)
    ensures
        reply == (Reply::Response { status: STATUS_OK }) ==> feedback(endpoint, outcome_of(reply))
            == feedback(endpoint, RequestOutcome::Success),
        reply != (Reply::Response { status: STATUS_OK }) ==> feedback(endpoint, outcome_of(reply))
            == Signal::Error,
        feedback(endpoint, RequestOutcome::Success) != Signal::Error,
        pattern_actions(feedback(endpoint, RequestOutcome::Success).pattern()) != pattern_actions(
            Signal::Error.pattern(),
        ),
{
    lemma_signals_play_differently(feedback(endpoint, RequestOutcome::Success), Signal::Error);
}

} // verus!
