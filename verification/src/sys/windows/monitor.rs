//! The result of a sandboxed run.

use std::time::Duration;
use vstd::prelude::*;

verus! {

/// Status of the sandboxed execution.
#[derive(Debug, Clone, Copy, PartialEq, Eq, Structural)]
#[non_exhaustive]
pub enum Status {
    Exited,
    Signaled,
    Timeout,
    OutputLimitExceeded,
}

/// Output from a sandboxed execution.
#[must_use]
#[derive(Debug, Clone)]
pub struct Output {
    pub stdout: Vec<u8>,
    pub stderr: Vec<u8>,
    pub status: Status,
    pub duration: Duration,
    pub exit_code: Option<i32>,
    pub signal: Option<i32>,
}

} // verus!
