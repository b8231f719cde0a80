use std::time::Duration;

use brik::GateError;
use brik::GateResult;

#[test]
fn test_gate_result_success() {
    let result = GateResult::success("test_data", Some(Duration::from_millis(100)));

    assert!(result.is_ok());
    assert!(!result.is_err());
    assert_eq!(result.unwrap(), "test_data");
}

#[test]
fn test_gate_result_failure() {
    let result: GateResult<String> = GateResult::failure(
        "TestGate",
        "TEST_FAILED",
        "Test failure message",
        400,
        Some(Duration::from_millis(50)),
    );

    assert!(!result.is_ok());
    assert!(result.is_err());
    assert_eq!(result.error.as_ref().unwrap().gate, "TestGate");
    assert_eq!(result.error.as_ref().unwrap().code, "TEST_FAILED");
    assert_eq!(result.error.as_ref().unwrap().http_status, 400);
}

#[test]
fn test_gate_error_display() {
    let error = GateError::new("TestGate", "TEST_CODE", "Test message", 400);
    let error_string = error.display_string();

    assert!(error_string.contains("TestGate"));
    assert!(error_string.contains("TEST_CODE"));
    assert!(error_string.contains("Test message"));
}

#[test]
fn test_gate_error_display_exact() {
    let error = GateError::new("AuthGate", "AUTH_TOKEN_MISSING", "no credential", 401);
    assert_eq!(
        error.display_string(),
        "Gate AuthGate failed with code AUTH_TOKEN_MISSING: no credential"
    );
}

#[test]
fn test_gate_result_unwrap_or() {
    let success = GateResult::success(7u32, None);
    assert_eq!(success.unwrap_or(99), 7);
    let failure: GateResult<u32> = GateResult::failure("G", "C", "m", 500, None);
    assert_eq!(failure.unwrap_or(99), 99);
}

#[test]
fn test_gate_timer_elapsed() {
    let timer = brik::GateTimer::start();
    let duration = timer.elapsed();
    assert!(duration >= Duration::from_millis(0));
}
