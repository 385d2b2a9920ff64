//! Sandbox executor for Windows: not available yet, every request that would
//! start a process is refused with `ExecutorError::NotImplemented`.

use std::time::Duration;
use vstd::prelude::*;

use crate::io_error::{io_error_kind, io_error_new, io_error_text};
use crate::plan::Plan;
use crate::text::{decimal, has_prefix, labelled, push_decimal};
use super::lockdown::LockdownError;
use super::monitor::Output;

verus! {

/// Error during sandbox execution.
#[derive(Debug)]
#[non_exhaustive]
pub enum ExecutorError {
    NotImplemented,
    Workspace(std::io::Error),
    CreateProcess(std::io::Error),
    Lockdown(LockdownError),
    Monitor(std::io::Error),
    CommandNotFound(String),
    Io(std::io::Error),
}

impl ExecutorError {
    /// The message of this error, or for errors that wrap an I/O error the
    /// text that the message begins with.
    pub open spec fn label(&self) -> Seq<char> {
        match self {
            ExecutorError::NotImplemented => "not implemented: Windows sandbox support is not yet available"@,
            ExecutorError::Workspace(_) => "workspace: "@,
            ExecutorError::CreateProcess(_) => "process creation: "@,
            ExecutorError::Lockdown(l) => "lockdown: "@ + l.label(),
            ExecutorError::Monitor(_) => "monitor: "@,
            ExecutorError::CommandNotFound(cmd) => "command not found: "@ + cmd@,
            ExecutorError::Io(_) => "io: "@,
        }
    }

    /// Whether this error wraps an I/O error, directly or through a
    /// lockdown error.
    pub open spec fn wraps_io(&self) -> bool {
        !(self is NotImplemented || self is CommandNotFound)
    }

    /// The message of this error when the I/O error it wraps reads
    /// `io_text`: the label, followed by that text for errors that wrap one.
    pub open spec fn message_for(&self, io_text: Seq<char>) -> Seq<char> {
        if self.wraps_io() {
            self.label() + io_text
        } else {
            self.label()
        }
    }

    /// The message of this error when the I/O error it wraps reads
    /// `io_text` (ignored for errors that wrap none).
    pub fn message_with(&self, io_text: &str) -> (s: String)
        ensures
            s@ == self.message_for(io_text@),
    {
        match self {
            ExecutorError::NotImplemented => String::from_str(
                "not implemented: Windows sandbox support is not yet available",
            ),
            ExecutorError::CommandNotFound(cmd) => labelled("command not found: ", cmd.as_str()),
            ExecutorError::Lockdown(l) => {
                let inner = l.message_with(io_text);
                let s = labelled("lockdown: ", inner.as_str());
                assert(s@ =~= self.message_for(io_text@));
                s
            },
            ExecutorError::Workspace(_) => labelled("workspace: ", io_text),
            ExecutorError::CreateProcess(_) => labelled("process creation: ", io_text),
            ExecutorError::Monitor(_) => labelled("monitor: ", io_text),
            ExecutorError::Io(_) => labelled("io: ", io_text),
        }
    }

    /// The message of this error: exactly the label for `NotImplemented` and
    /// `CommandNotFound`; otherwise the label followed by the display text of
    /// the wrapped I/O error, which the operating system may supply.
    pub fn to_string(&self) -> (s: String)
        ensures
            has_prefix(s@, self.label()),
            !self.wraps_io() ==> s@ == self.label(),
    {
        let s = match self {
            ExecutorError::NotImplemented => self.message_with(""),
            ExecutorError::CommandNotFound(_) => self.message_with(""),
            ExecutorError::Lockdown(l) => {
                let text = io_error_text(l.wrapped_io());
                self.message_with(text.as_str())
            },
            ExecutorError::Workspace(e) => {
                let text = io_error_text(e);
                self.message_with(text.as_str())
            },
            ExecutorError::CreateProcess(e) => {
                let text = io_error_text(e);
                self.message_with(text.as_str())
            },
            ExecutorError::Monitor(e) => {
                let text = io_error_text(e);
                self.message_with(text.as_str())
            },
            ExecutorError::Io(e) => {
                let text = io_error_text(e);
                self.message_with(text.as_str())
            },
        };
        assert(s@.take(self.label().len() as int) =~= self.label());
        s
    }
}

/// Identifier of a spawned sandbox.
#[derive(Debug, Clone, Copy, PartialEq, Eq, Hash, Structural)]
pub struct SandboxId(pub usize);

impl SandboxId {
    /// The text `Sandbox(N)`, with `N` the identifier in decimal.
    pub fn to_string(&self) -> (s: String)
        ensures
            s@ == "Sandbox("@ + decimal(self.0 as nat) + ")"@,
    {
        let mut s = String::from_str("Sandbox(");
        push_decimal(&mut s, self.0 as u64);
        s.append(")");
        s
    }
}

/// Events emitted by the executor.
#[derive(Debug)]
#[non_exhaustive]
pub enum Event {
    Completed { id: SandboxId, output: Output },
    Timeout { id: SandboxId, output: Output },
    Stdout { id: SandboxId, data: Vec<u8> },
    Stderr { id: SandboxId, data: Vec<u8> },
}

/// Runs plans in sandboxes.
pub struct Executor;

impl Executor {
    /// A new executor; creating one always succeeds.
    pub fn new() -> (r: Result<Self, std::io::Error>)
        ensures
            r is Ok,
    {
        Ok(Executor)
    }

    /// Runs `plan` to completion: not available, always
    /// `ExecutorError::NotImplemented`.
    pub fn run(plan: Plan) -> (r: Result<Output, ExecutorError>)
        ensures
            r matches Err(ExecutorError::NotImplemented),
    {
        Err(ExecutorError::NotImplemented)
    }

    /// Starts `plan` in the background: not available, always
    /// `ExecutorError::NotImplemented`.
    pub fn spawn(&mut self, plan: Plan) -> (r: Result<SandboxId, ExecutorError>)
        ensures
            *final(self) == *old(self),
            r matches Err(ExecutorError::NotImplemented),
    {
        Err(ExecutorError::NotImplemented)
    }

    /// Collects pending events into `events`, which it first empties; as no
    /// sandbox ever runs, none is pending and `events` ends empty.
    pub fn poll(&mut self, events: &mut Vec<Event>, timeout: Option<Duration>) -> (r: Result<(), std::io::Error>)
        ensures
            *final(self) == *old(self),
            r is Ok,
            final(events)@.len() == 0,
    {
        events.clear();
        Ok(())
    }

    /// Number of running sandboxes: always zero.
    pub fn active_count(&self) -> (n: usize)
        ensures
            n == 0,
    {
        0
    }

    /// Kills sandbox `id`; with nothing running there is nothing to kill and
    /// the call succeeds.
    pub fn kill(&mut self, id: SandboxId) -> (r: Result<(), std::io::Error>)
        ensures
            *final(self) == *old(self),
            r is Ok,
    {
        Ok(())
    }

    /// Writes to the stdin of sandbox `id`: unsupported, always an error of
    /// kind `Unsupported`, so no byte is ever reported as written.
    pub fn write_stdin(&mut self, id: SandboxId, data: &[u8]) -> (r: Result<usize, std::io::Error>)
        ensures
            *final(self) == *old(self),
            r matches Err(e) && io_error_kind(e) == std::io::ErrorKind::Unsupported,
    {
        Err(io_error_new(std::io::ErrorKind::Unsupported, "not implemented"))
    }

    /// Closes the stdin of sandbox `id`; succeeds.
    pub fn close_stdin(&mut self, id: SandboxId) -> (r: Result<(), std::io::Error>)
        ensures
            *final(self) == *old(self),
            r is Ok,
    {
        Ok(())
    }
}

} // verus!
