use cssh::error::CsshError;
use cssh::protocol::{ExecuteRequest, ExecuteResponse};
use cssh::server::{
    authorize, connection_step, constant_time_token_eq, execution_response, Authorization,
    BruteForceGuard, ConnectionStep, ReadOutcome, MAX_FAILURES_BEFORE_DELAY,
};

fn request_with_token(token: &str) -> ExecuteRequest {
    ExecuteRequest {
        args: vec!["echo".to_string(), "test".to_string()],
        token: token.to_string(),
    }
}

#[test]
fn constant_time_token_eq_compares_correctly() {
    assert!(constant_time_token_eq("abc", "abc"));
    assert!(!constant_time_token_eq("abc", "def"));
    assert!(!constant_time_token_eq("abc", "abcd"));
    assert!(!constant_time_token_eq("", "a"));
    assert!(constant_time_token_eq("", ""));
}

#[test]
fn constant_time_token_eq_compares_non_ascii_tokens() {
    assert!(constant_time_token_eq("トークン", "トークン"));
    assert!(!constant_time_token_eq("トークン", "トークソ"));
}

#[test]
fn brute_force_guard_records_failures_and_resets_on_success() {
    let mut guard = BruteForceGuard::new();
    assert!(!guard.record_failure());
    assert!(!guard.record_failure());
    assert!(guard.record_failure());
    guard.record_success();
    assert!(!guard.record_failure());
}

#[test]
fn delay_is_required_from_the_threshold_on() {
    let mut guard = BruteForceGuard::new();
    assert!(!guard.delay_required());
    for _ in 0..MAX_FAILURES_BEFORE_DELAY {
        guard.record_failure();
    }
    assert_eq!(guard.consecutive_failures(), 3);
    assert!(guard.delay_required());
    guard.record_failure();
    assert!(guard.delay_required());
    guard.record_success();
    assert_eq!(guard.consecutive_failures(), 0);
    assert!(!guard.delay_required());
}

#[test]
fn request_without_expected_token_is_accepted() {
    let mut guard = BruteForceGuard::new();
    guard.record_failure();
    let verdict = authorize(&request_with_token("anything"), None, &mut guard);
    assert!(matches!(verdict, Authorization::Accepted));
    assert_eq!(guard.consecutive_failures(), 1);
}

#[test]
fn request_with_correct_token_is_accepted_and_resets_failures() {
    let mut guard = BruteForceGuard::new();
    guard.record_failure();
    guard.record_failure();
    let verdict = authorize(
        &request_with_token("valid_token_123"),
        Some("valid_token_123"),
        &mut guard,
    );
    assert!(matches!(verdict, Authorization::Accepted));
    assert_eq!(guard.consecutive_failures(), 0);
}

#[test]
fn request_with_wrong_token_is_refused() {
    let mut guard = BruteForceGuard::new();
    let verdict = authorize(
        &request_with_token("wrong_token"),
        Some("correct_token"),
        &mut guard,
    );
    match verdict {
        Authorization::Rejected(response) => {
            assert_eq!(response.exit_code, 1);
            assert!(response.stdout.is_empty());
            assert_eq!(
                String::from_utf8_lossy(&response.stderr),
                "authentication failed"
            );
        }
        Authorization::Accepted => panic!("a wrong token must be refused"),
    }
    assert_eq!(guard.consecutive_failures(), 1);
}

#[test]
fn execution_error_does_not_leak_details() {
    let error = CsshError::Execution("/nonexistent/binary/xyz: not found".to_string());
    let response = execution_response(Err(error));
    let stderr = String::from_utf8_lossy(&response.stderr);
    assert_eq!(stderr, "command execution failed");
    assert!(!stderr.contains("/nonexistent"));
    assert_eq!(response.exit_code, 1);
}

#[test]
fn execution_result_is_passed_on_unchanged() {
    let result = ExecuteResponse {
        exit_code: 7,
        stdout: b"out".to_vec(),
        stderr: b"err".to_vec(),
    };
    assert_eq!(execution_response(Ok(result.clone())), result);
}

#[test]
fn disconnect_ends_the_connection_quietly() {
    let mut guard = BruteForceGuard::new();
    let read = ReadOutcome::Failed {
        error: CsshError::Connection("closed".to_string()),
        disconnected: true,
    };
    assert!(matches!(
        connection_step(read, Some("t"), &mut guard),
        ConnectionStep::End(Ok(()))
    ));
    assert_eq!(guard.consecutive_failures(), 0);
}

#[test]
fn other_read_failure_ends_the_connection_with_it() {
    let mut guard = BruteForceGuard::new();
    let read = ReadOutcome::Failed {
        error: CsshError::InvalidMessageLength(99),
        disconnected: false,
    };
    match connection_step(read, None, &mut guard) {
        ConnectionStep::End(Err(CsshError::InvalidMessageLength(99))) => {}
        _ => panic!("expected the read error to end the connection"),
    }
}

#[test]
fn wrong_token_is_refused_and_ends_the_connection() {
    let mut guard = BruteForceGuard::new();
    let read = ReadOutcome::Request(request_with_token("wrong_token"));
    match connection_step(read, Some("correct_token"), &mut guard) {
        ConnectionStep::RefuseAndEnd(response, CsshError::AuthenticationFailed) => {
            assert_eq!(response.exit_code, 1);
            assert_eq!(response.stderr, b"authentication failed".to_vec());
        }
        _ => panic!("expected a refusal"),
    }
    assert_eq!(guard.consecutive_failures(), 1);
}

#[test]
fn accepted_request_is_executed_and_the_connection_stays_open() {
    let mut guard = BruteForceGuard::new();
    guard.record_failure();
    let read = ReadOutcome::Request(request_with_token("token"));
    match connection_step(read, Some("token"), &mut guard) {
        ConnectionStep::Execute(request) => assert_eq!(request, request_with_token("token")),
        _ => panic!("expected the request to run"),
    }
    assert_eq!(guard.consecutive_failures(), 0);
    let read = ReadOutcome::Request(request_with_token("anything"));
    assert!(matches!(
        connection_step(read, None, &mut guard),
        ConnectionStep::Execute(_)
    ));
}
