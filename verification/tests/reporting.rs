use krust::report::{finish_host_result, summarize, FieldValue, HostResult};
use krust::retry::{supervise, AttemptOutcome, RetryVerdict};
use krust::session::{clean_output, finish_output};

fn record_from(outcomes: Vec<AttemptOutcome>, max_retries: u8) -> HostResult {
    let verdict = supervise(&outcomes, max_retries);
    finish_host_result("h.example".to_string(), verdict, 1_700_000_000_000, 42)
}

#[test]
fn reported_failure_on_nonzero_exit() {
    let outcomes = vec![
        AttemptOutcome::Completed { output: "boom".to_string(), exit_code: 3 },
        AttemptOutcome::TimedOut,
    ];
    let r = record_from(outcomes, 1);
    assert!(!r.success);
    assert_eq!(r.exit_code, Some(3));
    assert_eq!(r.stderr, None);
    assert_eq!(r.stdout.as_deref(), Some("boom"));
    assert_eq!(r.retries_attempted, 0);
    let s = summarize(&vec![r]);
    assert_eq!(s.total, 1);
    assert_eq!(s.failed, 1);
    assert_eq!(s.succeeded, 0);
    assert_eq!(s.exit_code, 1);
}

#[test]
fn unreachable_host_exhausts_three_retries() {
    let outcomes = vec![
        AttemptOutcome::Failed { message: "TCP connection failed: refused".to_string() },
        AttemptOutcome::Failed { message: "TCP connection failed: refused".to_string() },
        AttemptOutcome::Failed { message: "TCP connection failed: refused".to_string() },
        AttemptOutcome::Failed { message: "TCP connection failed: refused".to_string() },
    ];
    let r = record_from(outcomes, 3);
    assert!(!r.success);
    assert_eq!(r.exit_code, None);
    assert_eq!(r.retries_attempted, 3);
    assert_eq!(r.stderr.as_deref(), Some("TCP connection failed: refused"));
    assert_eq!(r.stdout, None);
}

#[test]
fn successful_run_reports_success() {
    let outcomes = vec![AttemptOutcome::Completed { output: "done".to_string(), exit_code: 0 }];
    let r = record_from(outcomes, 0);
    assert!(r.success);
    assert_eq!(r.exit_code, Some(0));
    assert_eq!(r.stdout.as_deref(), Some("done"));
    assert_eq!(r.stdout_lines, None);
    let s = summarize(&vec![r]);
    assert_eq!(s.exit_code, 0);
    assert_eq!(s.succeeded, 1);
}

#[test]
fn multiline_output_is_split() {
    let outcomes =
        vec![AttemptOutcome::Completed { output: "one\ntwo\r\nthree".to_string(), exit_code: 0 }];
    let r = record_from(outcomes, 0);
    assert_eq!(
        r.stdout_lines,
        Some(vec!["one".to_string(), "two".to_string(), "three".to_string()])
    );
}

#[test]
fn summary_counts_mixed_results() {
    let ok = record_from(
        vec![AttemptOutcome::Completed { output: String::new(), exit_code: 0 }],
        0,
    );
    let bad = record_from(
        vec![AttemptOutcome::Failed { message: "Authentication failed: no".to_string() }],
        0,
    );
    let also_ok = record_from(
        vec![AttemptOutcome::Completed { output: String::new(), exit_code: 0 }],
        0,
    );
    let s = summarize(&vec![ok, bad, also_ok]);
    assert_eq!(s.total, 3);
    assert_eq!(s.succeeded, 2);
    assert_eq!(s.failed, 1);
    assert_eq!(s.exit_code, 1);
}

#[test]
fn empty_result_set_summarizes_cleanly() {
    let s = summarize(&Vec::new());
    assert_eq!(s.total, 0);
    assert_eq!(s.failed, 0);
    assert_eq!(s.exit_code, 0);
}

#[test]
fn filter_fields_projects_in_request_order() {
    let r = record_from(
        vec![AttemptOutcome::Completed { output: "out".to_string(), exit_code: 7 }],
        0,
    );
    let fields = vec![
        "exit_code".to_string(),
        "host".to_string(),
        "unknown".to_string(),
        "duration".to_string(),
        "stderr".to_string(),
    ];
    let entries = r.filter_fields(&fields);
    let keys: Vec<String> = entries.iter().map(|e| e.key.clone()).collect();
    assert_eq!(keys, vec!["exit_code", "hostname", "duration_ms"]);
    assert!(matches!(entries[0].value, FieldValue::Code(7)));
    match &entries[1].value {
        FieldValue::Text(t) => assert_eq!(t, "h.example"),
        _ => panic!("hostname should be text"),
    }
    assert!(matches!(entries[2].value, FieldValue::Millis(42)));
}

#[test]
fn filter_fields_includes_stderr_on_failure() {
    let r = record_from(
        vec![AttemptOutcome::Failed { message: "Authentication failed: no".to_string() }],
        0,
    );
    let fields = vec!["stderr".to_string(), "exit_code".to_string(), "success".to_string()];
    let entries = r.filter_fields(&fields);
    let keys: Vec<String> = entries.iter().map(|e| e.key.clone()).collect();
    assert_eq!(keys, vec!["stderr", "success"]);
    assert!(matches!(entries[1].value, FieldValue::Flag(false)));
}

#[test]
fn output_is_trimmed_like_the_collector() {
    assert_eq!(clean_output("result\n"), "result");
    assert_eq!(clean_output("result  \t\r\n"), "result");
    assert_eq!(clean_output("  keep leading"), "  keep leading");
}

#[test]
fn output_bytes_decoded_permissively() {
    // an invalid byte is replaced, never fatal
    let bytes = vec![b'o', b'k', 0xff, b'!', b'\n'];
    assert_eq!(finish_output(&bytes), "ok\u{fffd}!");
    // valid bytes come through unchanged, minus trailing whitespace
    let clean = vec![b'a', b' ', b'\t'];
    assert_eq!(finish_output(&clean), "a");
}
