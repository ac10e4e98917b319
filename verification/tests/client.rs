use pico_button::client::{
    authorization, authorization_header, request, sleeping_ping, sleeping_record,
    sleeping_request, Endpoint, FailureReason, Reply, RequestOutcome, REQUEST_TIMEOUT_MS,
    RESPONSE_CAPACITY, STATUS_OK,
};
use pico_button::led::{led_pattern, LedAction, Signal};

fn played(signal: Signal) -> Vec<LedAction> {
    let mut script = Vec::new();
    led_pattern(&mut script, signal.pattern());
    script
}

#[test]
fn status_ok_is_200() {
    assert_eq!(STATUS_OK, 200);
}

#[test]
fn response_with_ok_status_is_success() {
    assert_eq!(
        sleeping_request(Reply::Response { status: 200 }),
        RequestOutcome::Success
    );
    assert!(sleeping_request(Reply::Response { status: 200 }).is_success());
}

#[test]
fn response_with_other_status_is_non_ok() {
    for status in [0u16, 100, 199, 201, 204, 301, 404, 500, 503, u16::MAX] {
        let outcome = sleeping_request(Reply::Response { status });
        assert_eq!(outcome, RequestOutcome::Failure(FailureReason::NonOkStatus));
        assert!(!outcome.is_success());
    }
}

#[test]
fn unanswered_request_fails_with_timeout() {
    assert_eq!(
        sleeping_request(Reply::TimedOut),
        RequestOutcome::Failure(FailureReason::Timeout)
    );
}

#[test]
fn transport_error_fails_with_connect_error() {
    assert_eq!(
        sleeping_request(Reply::TransportError),
        RequestOutcome::Failure(FailureReason::ConnectError)
    );
}

#[test]
fn endpoints_have_their_paths() {
    assert_eq!(Endpoint::Ping.path(), "/api/sleeping/ping");
    assert_eq!(Endpoint::Record.path(), "/api/sleeping/record");
}

#[test]
fn authorization_carries_the_shared_secret() {
    assert_eq!(authorization_header(), "Authorization");
    assert_eq!(authorization("hunter2"), "SharedSecret hunter2");
    assert_eq!(authorization(""), "SharedSecret ");
}

#[test]
fn request_is_bounded_in_time_and_space() {
    let ping = request(Endpoint::Ping, "hunter2");
    assert_eq!(ping.endpoint, Endpoint::Ping);
    assert_eq!(ping.authorization, "SharedSecret hunter2");
    assert_eq!(ping.timeout_ms, 5_000);
    assert_eq!(ping.timeout_ms, REQUEST_TIMEOUT_MS);
    assert_eq!(ping.response_capacity, 1024);
    assert_eq!(ping.response_capacity, RESPONSE_CAPACITY);

    let record = request(Endpoint::Record, "other");
    assert_eq!(record.endpoint, Endpoint::Record);
    assert_eq!(record.authorization, "SharedSecret other");
    assert_eq!(record.timeout_ms, 5_000);
}

#[test]
fn ping_success_plays_ping_pattern() {
    let mut script = Vec::new();
    let outcome = sleeping_ping(Reply::Response { status: 200 }, &mut script);
    assert_eq!(outcome, RequestOutcome::Success);
    assert_eq!(script, played(Signal::Ping));
}

#[test]
fn ping_failure_plays_error_pattern() {
    for reply in [
        Reply::TimedOut,
        Reply::TransportError,
        Reply::Response { status: 500 },
    ] {
        let mut script = Vec::new();
        let outcome = sleeping_ping(reply, &mut script);
        assert!(!outcome.is_success());
        assert_eq!(script, played(Signal::Error));
        assert_ne!(script, played(Signal::Ping));
    }
}

#[test]
fn record_with_status_200_plays_done_never_error() {
    let mut script = Vec::new();
    let outcome = sleeping_record(Reply::Response { status: 200 }, &mut script);
    assert_eq!(outcome, RequestOutcome::Success);
    assert_eq!(script, played(Signal::Done));
    assert_ne!(script, played(Signal::Error));
}

#[test]
fn record_with_status_500_or_dropped_connection_plays_error_never_done() {
    let mut script = Vec::new();
    let outcome = sleeping_record(Reply::Response { status: 500 }, &mut script);
    assert_eq!(outcome, RequestOutcome::Failure(FailureReason::NonOkStatus));
    assert_eq!(script, played(Signal::Error));
    assert_ne!(script, played(Signal::Done));

    let mut script = Vec::new();
    let outcome = sleeping_record(Reply::TransportError, &mut script);
    assert_eq!(outcome, RequestOutcome::Failure(FailureReason::ConnectError));
    assert_eq!(script, played(Signal::Error));
    assert_ne!(script, played(Signal::Done));

    let mut script = Vec::new();
    let outcome = sleeping_record(Reply::TimedOut, &mut script);
    assert_eq!(outcome, RequestOutcome::Failure(FailureReason::Timeout));
    assert_eq!(script, played(Signal::Error));
}

#[test]
fn feedback_is_appended_to_the_script() {
    let mut script = vec![LedAction::Switch { on: true }];
    sleeping_record(Reply::Response { status: 200 }, &mut script);
    let mut expected = vec![LedAction::Switch { on: true }];
    expected.extend(played(Signal::Done));
    assert_eq!(script, expected);
}
