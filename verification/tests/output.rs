use std::borrow::Cow;
use std::time::Duration;

use evalbox::output::{Output, Status};

#[test]
fn output_success() {
    let output = Output {
        stdout: b"hello\n".to_vec(),
        stderr: vec![],
        status: Status::Exited,
        exit_code: 0,
        duration: Duration::from_millis(100),
    };
    assert!(output.success());
    assert_eq!(output.stdout_str(), "hello\n");
}

#[test]
fn output_failure() {
    let output = Output {
        stdout: vec![],
        stderr: b"error\n".to_vec(),
        status: Status::Exited,
        exit_code: 1,
        duration: Duration::from_millis(100),
    };
    assert!(!output.success());
    assert_eq!(output.stderr_str(), "error\n");
}

fn sandbox_output(status: Status, exit_code: Option<i32>) -> evalbox::Output {
    evalbox::Output {
        stdout: b"out".to_vec(),
        stderr: b"err".to_vec(),
        status,
        duration: Duration::from_secs(2),
        exit_code,
        signal: None,
    }
}

#[test]
fn converted_output_without_exit_code_fails() {
    let output = Output::from(sandbox_output(Status::Exited, None));
    assert_eq!(output.exit_code, -1);
    assert!(!output.success());
    assert_eq!(output.stdout, b"out".to_vec());
    assert_eq!(output.stderr, b"err".to_vec());
    assert_eq!(output.duration, Duration::from_secs(2));
}

#[test]
fn converted_output_success_needs_normal_exit_and_zero() {
    assert!(Output::from(sandbox_output(Status::Exited, Some(0))).success());
    assert!(!Output::from(sandbox_output(Status::Signaled, Some(0))).success());
    assert!(!Output::from(sandbox_output(Status::Timeout, Some(0))).success());
    assert!(!Output::from(sandbox_output(Status::Exited, Some(3))).success());
    assert_eq!(Output::from(sandbox_output(Status::Exited, Some(3))).exit_code, 3);
}

#[test]
fn invalid_utf8_is_replaced() {
    let output = Output {
        stdout: vec![b'a', 0xff, b'b'],
        stderr: "héllo".as_bytes().to_vec(),
        status: Status::OutputLimitExceeded,
        exit_code: 0,
        duration: Duration::from_millis(1),
    };
    assert_eq!(output.stdout_str(), "a\u{FFFD}b");
    assert!(matches!(output.stdout_str(), Cow::Owned(_)));
    assert_eq!(output.stderr_str(), "héllo");
    assert!(matches!(output.stderr_str(), Cow::Borrowed(_)));
    assert!(!output.success());
}

#[test]
fn lossy_text_borrows_valid_and_replaces_invalid() {
    let output = Output {
        stdout: vec![0x66, 0xFF, 0x6F],
        stderr: vec![],
        status: Status::Exited,
        exit_code: 0,
        duration: Duration::from_millis(1),
    };
    let text = output.stdout_str();
    assert_eq!(text, "f\u{FFFD}o");
    assert!(matches!(text, Cow::Owned(_)));
    let empty = output.stderr_str();
    assert_eq!(empty, "");
    assert!(matches!(empty, Cow::Borrowed(_)));
}
