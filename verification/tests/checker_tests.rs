use upquack::checker::{build_check_result, ProbeOutcome};
use upquack::domain::{DomainStatus, HttpCode};

#[test]
fn success_codes_classify_as_up() {
    let r = build_check_result(ProbeOutcome::Response(200), 1000, 42);
    assert_eq!(r.timestamp_ms, 1000);
    assert_eq!(r.status, DomainStatus::Up);
    assert_eq!(r.http_code, Some(HttpCode::Success));
    assert_eq!(r.response_time_ms, Some(42));
    assert_eq!(r.error_message, None);

    let r = build_check_result(ProbeOutcome::Response(204), 1000, 3);
    assert_eq!(r.status, DomainStatus::Up);
    assert_eq!(r.http_code, Some(HttpCode::Other(204)));
}

#[test]
fn non_success_codes_classify_as_down() {
    let r = build_check_result(ProbeOutcome::Response(404), 1000, 10);
    assert_eq!(r.status, DomainStatus::Down);
    assert_eq!(r.http_code, Some(HttpCode::Other(404)));
    assert_eq!(r.response_time_ms, Some(10));

    let r = build_check_result(ProbeOutcome::Response(500), 1000, 10);
    assert_eq!(r.status, DomainStatus::Down);
    assert_eq!(r.http_code, Some(HttpCode::ServerError));

    let r = build_check_result(ProbeOutcome::Response(301), 1000, 10);
    assert_eq!(r.status, DomainStatus::Down);
    assert_eq!(r.http_code, Some(HttpCode::Other(301)));
}

#[test]
fn a_timeout_is_an_error_tagged_timeout() {
    let r = build_check_result(ProbeOutcome::TimedOut("deadline elapsed".to_string()), 7, 0);
    assert_eq!(r.status, DomainStatus::Error("deadline elapsed".to_string()));
    assert_eq!(r.http_code, Some(HttpCode::Timeout));
    assert_eq!(r.response_time_ms, None);
    assert_eq!(r.error_message, Some("deadline elapsed".to_string()));
}

#[test]
fn a_transport_failure_is_an_error_tagged_network() {
    let r = build_check_result(
        ProbeOutcome::NetworkFailure("connection refused".to_string()),
        7,
        0,
    );
    assert_eq!(r.status, DomainStatus::Error("connection refused".to_string()));
    assert_eq!(r.http_code, Some(HttpCode::NetworkError));
    assert_eq!(r.response_time_ms, None);
    assert_eq!(r.error_message, Some("connection refused".to_string()));
}

#[test]
fn status_codes_bucket_for_display() {
    assert_eq!(HttpCode::from_status_code(200), HttpCode::Success);
    assert_eq!(HttpCode::from_status_code(500), HttpCode::ServerError);
    assert_eq!(HttpCode::from_status_code(503), HttpCode::ServerError);
    assert_eq!(HttpCode::from_status_code(599), HttpCode::ServerError);
    assert_eq!(HttpCode::from_status_code(404), HttpCode::Other(404));
    assert_eq!(HttpCode::from_status_code(201), HttpCode::Other(201));
}
