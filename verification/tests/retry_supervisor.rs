use krust::retry::{
    is_retryable_error, retry_step, supervise, AttemptOutcome, RetryStep, RetryVerdict,
};

fn conn_failure() -> AttemptOutcome {
    AttemptOutcome::Failed { message: "TCP connection failed: refused".to_string() }
}

fn auth_failure() -> AttemptOutcome {
    AttemptOutcome::Failed {
        message: "Authentication failed: Key auth failed: rejected".to_string(),
    }
}

fn success(code: i32) -> AttemptOutcome {
    AttemptOutcome::Completed { output: "ok".to_string(), exit_code: code }
}

#[test]
fn classifier_accepts_transient_messages() {
    assert!(is_retryable_error("TCP connection failed: refused"));
    assert!(is_retryable_error("Connection reset by peer"));
    assert!(is_retryable_error("SSH handshake failed"));
    assert!(is_retryable_error("Network is unreachable"));
    assert!(is_retryable_error("Command timeout"));
    assert!(is_retryable_error("read TIMEOUT while waiting"));
}

#[test]
fn classifier_rejects_fatal_messages() {
    assert!(!is_retryable_error("Authentication failed: all methods rejected"));
    assert!(!is_retryable_error("No identities found in SSH agent - run ssh-add"));
    assert!(!is_retryable_error("channel closed unexpectedly"));
}

#[test]
fn first_attempt_success_means_no_retries() {
    let outcomes = vec![success(0), conn_failure(), conn_failure(), conn_failure()];
    match supervise(&outcomes, 3) {
        RetryVerdict::Completed { output, exit_code, retries } => {
            assert_eq!(output, "ok");
            assert_eq!(exit_code, 0);
            assert_eq!(retries, 0);
        },
        RetryVerdict::Failed { .. } => panic!("expected success"),
    }
}

#[test]
fn transient_failures_then_success_counts_retries() {
    let outcomes = vec![conn_failure(), conn_failure(), success(0), conn_failure()];
    match supervise(&outcomes, 3) {
        RetryVerdict::Completed { retries, .. } => assert_eq!(retries, 2),
        RetryVerdict::Failed { .. } => panic!("expected success"),
    }
}

#[test]
fn auth_failure_makes_exactly_one_attempt() {
    let outcomes = vec![auth_failure(), success(0), success(0), success(0), success(0), success(0)];
    match supervise(&outcomes, 5) {
        RetryVerdict::Failed { message, retries } => {
            assert_eq!(retries, 0);
            assert!(message.contains("Authentication failed"));
        },
        RetryVerdict::Completed { .. } => panic!("expected failure"),
    }
}

#[test]
fn exhaustion_keeps_last_error() {
    let outcomes = vec![
        AttemptOutcome::Failed { message: "connection error one".to_string() },
        AttemptOutcome::Failed { message: "connection error two".to_string() },
        AttemptOutcome::Failed { message: "connection error three".to_string() },
        AttemptOutcome::Failed { message: "connection error four".to_string() },
    ];
    match supervise(&outcomes, 3) {
        RetryVerdict::Failed { message, retries } => {
            assert_eq!(retries, 3);
            assert_eq!(message, "connection error four");
        },
        RetryVerdict::Completed { .. } => panic!("expected failure"),
    }
}

#[test]
fn timeouts_are_retried_and_reported() {
    let outcomes =
        vec![AttemptOutcome::TimedOut, AttemptOutcome::TimedOut, AttemptOutcome::TimedOut];
    match supervise(&outcomes, 2) {
        RetryVerdict::Failed { message, retries } => {
            assert_eq!(retries, 2);
            assert_eq!(message, "Command timeout");
        },
        RetryVerdict::Completed { .. } => panic!("expected failure"),
    }
}

#[test]
fn panic_is_fatal_and_prefixed() {
    let outcomes = vec![
        AttemptOutcome::Panicked { message: "worker died".to_string() },
        success(0),
    ];
    match supervise(&outcomes, 1) {
        RetryVerdict::Failed { message, retries } => {
            assert_eq!(retries, 0);
            assert_eq!(message, "Task panic: worker died");
        },
        RetryVerdict::Completed { .. } => panic!("expected failure"),
    }
}

#[test]
fn nonzero_exit_code_still_completes() {
    let outcomes = vec![success(3), success(0)];
    match supervise(&outcomes, 1) {
        RetryVerdict::Completed { exit_code, retries, .. } => {
            assert_eq!(exit_code, 3);
            assert_eq!(retries, 0);
        },
        RetryVerdict::Failed { .. } => panic!("expected completion"),
    }
}

#[test]
fn backoff_delay_scales_with_attempt() {
    match retry_step(conn_failure(), 0, 3) {
        RetryStep::Backoff { delay_ms } => assert_eq!(delay_ms, 500),
        RetryStep::Finish { .. } => panic!("expected backoff"),
    }
    match retry_step(conn_failure(), 2, 3) {
        RetryStep::Backoff { delay_ms } => assert_eq!(delay_ms, 1500),
        RetryStep::Finish { .. } => panic!("expected backoff"),
    }
    match retry_step(conn_failure(), 3, 3) {
        RetryStep::Finish { verdict } => match verdict {
            RetryVerdict::Failed { retries, .. } => assert_eq!(retries, 3),
            RetryVerdict::Completed { .. } => panic!("expected failure"),
        },
        RetryStep::Backoff { .. } => panic!("budget exhausted, expected finish"),
    }
}
