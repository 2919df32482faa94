use hcp::drain::StreamDrainer;
use hcp::monitor::Endpoint;
use hcp::report::{
    compose_report, conclude, decimal, exit_code_after_send, failure_report, no_command_report,
    settle, Failure, RunOutcome, ABNORMAL_EXIT, CAPTURE_FAILED_EXIT,
};

fn outcome(code: Option<i32>, out: &[u8], err: &[u8]) -> RunOutcome {
    RunOutcome { code, stdout: out.to_vec(), stderr: err.to_vec() }
}

#[test]
fn decimal_values() {
    assert_eq!(decimal(0), "0");
    assert_eq!(decimal(7), "7");
    assert_eq!(decimal(10), "10");
    assert_eq!(decimal(963), "963");
    assert_eq!(decimal(-1), "-1");
    assert_eq!(decimal(i32::MAX), "2147483647");
    assert_eq!(decimal(i32::MIN), "-2147483648");
}

#[test]
fn report_layout() {
    assert_eq!(compose_report(Some(0), "", ""), "Command exited with exit code 0\n");
    assert_eq!(
        compose_report(Some(3), "a", ""),
        "Command exited with exit code 3\nstdout:\na\n"
    );
    assert_eq!(
        compose_report(Some(3), "", "b"),
        "Command exited with exit code 3\nstderr:\nb\n"
    );
    assert_eq!(
        compose_report(None, "a\n", "b"),
        "Command exited without an exit code\nstdout:\na\n\n\nstderr:\nb\n"
    );
}

#[test]
fn success_outcome() {
    let r = conclude(&outcome(Some(0), b"done\n", b""), false);
    assert_eq!(r.endpoint, Endpoint::Success);
    assert_eq!(r.exit_code, 0);
    assert!(!r.echo);
    assert_eq!(r.body, "Command exited with exit code 0\nstdout:\ndone\n\n");
}

#[test]
fn failing_outcome_passes_code_through() {
    let r = conclude(&outcome(Some(2), b"", b"oops"), false);
    assert_eq!(r.endpoint, Endpoint::Failure);
    assert_eq!(r.exit_code, 2);
    assert_eq!(r.body, "Command exited with exit code 2\nstderr:\noops\n");
}

#[test]
fn ignored_exit_code_still_reports_failure() {
    let r = conclude(&outcome(Some(7), b"", b""), true);
    assert_eq!(r.exit_code, 0);
    assert_eq!(r.endpoint, Endpoint::Failure);
    assert!(r.body.contains("exit code 7"));
}

#[test]
fn no_exit_code_is_abnormal() {
    let r = conclude(&outcome(None, b"", b""), false);
    assert_eq!(r.exit_code, ABNORMAL_EXIT);
    assert_eq!(ABNORMAL_EXIT, 963);
    assert_eq!(r.endpoint, Endpoint::Failure);
    assert_eq!(r.body, "Command exited without an exit code\n");
}

#[test]
fn binary_output_is_rendered_lossily() {
    let r = conclude(&outcome(Some(1), b"f\xffg", b""), false);
    assert_eq!(r.body, "Command exited with exit code 1\nstdout:\nf\u{FFFD}g\n");
}

#[test]
fn no_command_is_success() {
    let r = no_command_report();
    assert_eq!(r.endpoint, Endpoint::Success);
    assert_eq!(r.body, "No command given");
    assert_eq!(r.exit_code, 0);
    assert!(r.echo);
}

#[test]
fn spawn_failure_report() {
    let r = failure_report(Failure::Spawn, "No such file or directory (os error 2)");
    assert_eq!(r.endpoint, Endpoint::Failure);
    assert_eq!(r.body, "Failed to spawn process: No such file or directory (os error 2)");
    assert_eq!(r.exit_code, ABNORMAL_EXIT);
    assert!(r.echo);
}

#[test]
fn other_failure_reports() {
    let r = failure_report(Failure::Wait, "x");
    assert_eq!((r.body.as_str(), r.exit_code, r.echo), ("Failed waiting for process: x", 963, true));
    let r = failure_report(Failure::ReadStdout, "x");
    assert_eq!((r.body.as_str(), r.exit_code, r.echo), ("Error reading stdout from child: x", 693, false));
    let r = failure_report(Failure::ReadStderr, "x");
    assert_eq!((r.body.as_str(), r.exit_code, r.echo), ("Error reading stderr from child: x", 693, false));
    assert_eq!(CAPTURE_FAILED_EXIT, 693);
}

#[test]
fn settle_prefers_stdout_read_error() {
    let r = settle(Some(0), Err("bad out".to_string()), Err("bad err".to_string()), true);
    assert_eq!(r.body, "Error reading stdout from child: bad out");
    assert_eq!(r.exit_code, CAPTURE_FAILED_EXIT);
    assert_eq!(r.endpoint, Endpoint::Failure);
    let r = settle(Some(0), Ok(vec![]), Err("bad err".to_string()), false);
    assert_eq!(r.body, "Error reading stderr from child: bad err");
    assert_eq!(r.exit_code, CAPTURE_FAILED_EXIT);
}

#[test]
fn interleaved_streams_are_captured_whole() {
    let mut out = StreamDrainer::new(true);
    let mut err = StreamDrainer::new(false);
    let mut echoed = Vec::new();
    for i in 0..50u8 {
        if let Some(w) = out.feed(&[b'a' + i % 26, b'\n'][..(1 + (i % 2) as usize)]) {
            echoed.extend(w);
        }
        assert_eq!(err.feed(&[i, i]), None);
    }
    if let Some(w) = out.finish() {
        echoed.extend(w);
    }
    assert_eq!(err.finish(), None);
    let out = out.into_captured();
    let err = err.into_captured();
    assert_eq!(out.len(), 75);
    assert_eq!(err.len(), 100);
    assert_eq!(echoed, out);
    let r = settle(Some(5), Ok(out), Ok(err), false);
    assert_eq!(r.exit_code, 5);
    assert_eq!(r.endpoint, Endpoint::Failure);
    assert!(r.body.starts_with("Command exited with exit code 5\nstdout:\nab\nc"));
}

#[test]
fn lost_report_changes_exit_code() {
    let r = conclude(&outcome(Some(4), b"", b""), false);
    assert_eq!(exit_code_after_send(&r, true), 4);
    assert_eq!(exit_code_after_send(&r, false), ABNORMAL_EXIT);
    let r = no_command_report();
    assert_eq!(exit_code_after_send(&r, true), 0);
}
