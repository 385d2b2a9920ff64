//! Execution output as handed to callers: stdout, stderr, exit code and timing.

use std::borrow::Cow;
use std::time::Duration;
use vstd::prelude::*;
use vstd::std_specs::convert::FromSpec;
use vstd::std_specs::convert::FromSpecImpl;
use vstd::utf8::{decode_utf8, valid_utf8};

pub use crate::sys::windows::monitor::Status;
use crate::sys::windows::monitor::Output as SandboxOutput;

verus! {

/// What `String::from_utf8_lossy` makes of `bytes`: the decoded text, with
/// each invalid sequence replaced by U+FFFD.
pub uninterp spec fn utf8_lossy(bytes: Seq<u8>) -> Seq<char>;

/// `String::from_utf8_lossy`. The result is the lossy decoding of `bytes`.
/// Valid UTF-8 is borrowed as it is, the text being exactly the decoded
/// bytes; otherwise a new string is allocated.
#[verifier::external_body]
fn from_utf8_lossy(bytes: &[u8]) -> (s: Cow<'_, str>)
    ensures
        s@ == utf8_lossy(bytes@),
        valid_utf8(bytes@) ==> s is Borrowed && s@ == decode_utf8(bytes@),
        !valid_utf8(bytes@) ==> s is Owned,
{
    String::from_utf8_lossy(bytes)
}

/// Exit code reported when the sandbox reports none.
pub const MISSING_EXIT_CODE: i32 = -1;

/// Output from a sandboxed execution, with the exit code defaulting to `-1`
/// when unavailable.
#[must_use]
#[derive(Debug, Clone)]
pub struct Output {
    pub stdout: Vec<u8>,
    pub stderr: Vec<u8>,
    pub status: Status,
    pub exit_code: i32,
    pub duration: Duration,
}

/// The exit code of a sandbox output, or `-1` when it has none.
pub open spec fn exit_code_or_missing(code: Option<i32>) -> i32 {
    match code {
        Some(c) => c,
        None => MISSING_EXIT_CODE,
    }
}

impl From<SandboxOutput> for Output {
    fn from(output: SandboxOutput) -> (r: Self)
        ensures
            r.status == output.status,
            r.stdout == output.stdout,
            r.stderr == output.stderr,
            r.duration == output.duration,
            output.exit_code matches Some(code) ==> r.exit_code == code,
            output.exit_code is None ==> r.exit_code == -1,
    {
        let exit_code = match output.exit_code {
            Some(c) => c,
            None => MISSING_EXIT_CODE,
        };
        Output {
            stdout: output.stdout,
            stderr: output.stderr,
            status: output.status,
            exit_code,
            duration: output.duration,
        }
    }
}

impl FromSpecImpl<SandboxOutput> for Output {
    open spec fn obeys_from_spec() -> bool {
        true
    }

    open spec fn from_spec(output: SandboxOutput) -> Self {
        Output {
            stdout: output.stdout,
            stderr: output.stderr,
            status: output.status,
            exit_code: exit_code_or_missing(output.exit_code),
            duration: output.duration,
        }
    }
}

impl Output {
    /// The run exited normally with code zero.
    pub open spec fn is_success(&self) -> bool {
        self.status == Status::Exited && self.exit_code == 0
    }

    /// Whether the run exited normally with code zero.
    pub fn success(&self) -> (r: bool)
        ensures
            r == self.is_success(),
    {
        self.status == Status::Exited && self.exit_code == 0
    }

    /// Stdout as text, borrowed when it is valid UTF-8, otherwise with each
    /// invalid sequence replaced by U+FFFD.
    pub fn stdout_str(&self) -> (s: Cow<'_, str>)
        ensures
            s@ == utf8_lossy(self.stdout@),
            valid_utf8(self.stdout@) ==> s is Borrowed && s@ == decode_utf8(self.stdout@),
            !valid_utf8(self.stdout@) ==> s is Owned,
    {
        from_utf8_lossy(self.stdout.as_slice())
    }

    /// Stderr as text, borrowed when it is valid UTF-8, otherwise with each
    /// invalid sequence replaced by U+FFFD.
    pub fn stderr_str(&self) -> (s: Cow<'_, str>)
        ensures
            s@ == utf8_lossy(self.stderr@),
            valid_utf8(self.stderr@) ==> s is Borrowed && s@ == decode_utf8(self.stderr@),
            !valid_utf8(self.stderr@) ==> s is Owned,
    {
        from_utf8_lossy(self.stderr.as_slice())
    }
}

/// Conversion keeps the run as the sandbox reported it: the same status,
/// output bytes and duration, and the reported exit code, or -1 when none was
/// reported.
pub proof fn lemma_conversion_keeps_the_run(output: SandboxOutput)
    ensures
        <Output as FromSpec<SandboxOutput>>::from_spec(output).status == output.status,
        <Output as FromSpec<SandboxOutput>>::from_spec(output).stdout == output.stdout,
        <Output as FromSpec<SandboxOutput>>::from_spec(output).stderr == output.stderr,
        <Output as FromSpec<SandboxOutput>>::from_spec(output).duration == output.duration,
        output.exit_code matches Some(code) ==> <Output as FromSpec<SandboxOutput>>::from_spec(
            output,
        ).exit_code == code,
        output.exit_code is None ==> <Output as FromSpec<SandboxOutput>>::from_spec(
            output,
        ).exit_code == -1,
{
}

/// A converted sandbox output counts as a success exactly when the sandbox
/// reports a normal exit with code zero; in particular, an output without an
/// exit code never counts as a success.
pub proof fn lemma_converted_success(output: SandboxOutput)
    ensures
        <Output as FromSpec<SandboxOutput>>::from_spec(output).is_success() <==> (output.status
            == Status::Exited && output.exit_code == Some(0i32)),
        output.exit_code is None ==> !<Output as FromSpec<SandboxOutput>>::from_spec(
            output,
        ).is_success(),
{
}

} // verus!
