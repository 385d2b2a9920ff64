use std::time::Duration;

use evalbox::plan::{NotifyMode, Plan};
use evalbox::sys::windows::notify::etw::EtwConsumer;
use evalbox::sys::windows::lockdown::LockdownError;
use evalbox::{Event, Executor, ExecutorError, SandboxId};

#[test]
fn executor_refuses_to_run() {
    let result = Executor::run(Plan::new(["cmd.exe"]));
    assert!(matches!(result, Err(ExecutorError::NotImplemented)));
    let mut executor = Executor::new().unwrap();
    assert!(matches!(executor.spawn(Plan::new(["cmd.exe"])), Err(ExecutorError::NotImplemented)));
    assert_eq!(executor.active_count(), 0);
}

#[test]
fn executor_poll_empties_events() {
    let mut executor = Executor::new().unwrap();
    let mut events = vec![Event::Stdout { id: SandboxId(1), data: b"x".to_vec() }];
    executor.poll(&mut events, Some(Duration::from_millis(5))).unwrap();
    assert!(events.is_empty());
    executor.poll(&mut events, None).unwrap();
    assert!(events.is_empty());
}

#[test]
fn executor_stdin_and_kill() {
    let mut executor = Executor::new().unwrap();
    assert!(executor.kill(SandboxId(3)).is_ok());
    let err = executor.write_stdin(SandboxId(3), b"data").unwrap_err();
    assert_eq!(err.kind(), std::io::ErrorKind::Unsupported);
    assert!(executor.close_stdin(SandboxId(3)).is_ok());
}

#[test]
fn sandbox_id_text() {
    assert_eq!(SandboxId(42).to_string(), "Sandbox(42)");
    assert_eq!(SandboxId(0).to_string(), "Sandbox(0)");
    assert_eq!(SandboxId(1907).to_string(), "Sandbox(1907)");
}

#[test]
fn etw_consumer_builds() {
    for mode in [NotifyMode::Disabled, NotifyMode::Monitor, NotifyMode::Virtualize] {
        let _consumer = EtwConsumer::new(mode);
    }
}

#[test]
fn executor_error_messages() {
    let err = Executor::run(Plan::new(["cmd.exe"])).unwrap_err();
    assert_eq!(err.to_string(), "not implemented: Windows sandbox support is not yet available");
    assert_eq!(ExecutorError::CommandNotFound("py".to_string()).to_string(), "command not found: py");
    let io = std::io::Error::new(std::io::ErrorKind::Other, "boom");
    assert_eq!(ExecutorError::Workspace(io).to_string(), "workspace: boom");
    let io = std::io::Error::new(std::io::ErrorKind::Other, "denied");
    let lockdown = ExecutorError::Lockdown(LockdownError::RestrictedToken(io));
    assert_eq!(lockdown.to_string(), "lockdown: restricted token: denied");
    let io = std::io::Error::new(std::io::ErrorKind::Other, "x");
    assert_eq!(LockdownError::DesktopIsolation(io).to_string(), "desktop isolation: x");
}

#[test]
fn error_messages_from_given_io_text() {
    let io = || std::io::Error::new(std::io::ErrorKind::Other, "ignored");
    assert_eq!(ExecutorError::Monitor(io()).message_with("pipe closed"), "monitor: pipe closed");
    assert_eq!(ExecutorError::Io(io()).message_with(""), "io: ");
    assert_eq!(
        ExecutorError::Lockdown(LockdownError::JobObject(io())).message_with("no quota"),
        "lockdown: job object: no quota"
    );
    assert_eq!(
        ExecutorError::NotImplemented.message_with("anything"),
        "not implemented: Windows sandbox support is not yet available"
    );
    assert_eq!(ExecutorError::CommandNotFound("sh".to_string()).message_with("x"), "command not found: sh");
    assert_eq!(LockdownError::IntegrityLevel(io()).message_with("low"), "integrity level: low");
    let lockdown = LockdownError::AppContainer(std::io::Error::new(std::io::ErrorKind::Other, "inner"));
    assert_eq!(lockdown.wrapped_io().to_string(), "inner");
    assert_eq!(lockdown.to_string(), "app container: inner");
    let err = ExecutorError::CreateProcess(std::io::Error::new(std::io::ErrorKind::Other, "spawn failed"));
    assert_eq!(err.to_string(), "process creation: spawn failed");
}
