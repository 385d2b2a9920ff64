//! The platform-neutral execution plan that the policy compilers translate.

use std::time::Duration;
use vstd::prelude::*;

verus! {

/// Whole seconds of a `Duration`, as `Duration::as_secs` reports them.
pub uninterp spec fn duration_whole_secs(d: Duration) -> u64;

/// `std::time::Duration::as_secs`: the number of whole seconds of `d`.
#[verifier::external_body]
pub(crate) fn duration_as_secs(d: &Duration) -> (secs: u64)
    ensures
        secs == duration_whole_secs(*d),
{
    d.as_secs()
}

/// `std::time::Duration::from_secs`: a duration of exactly `secs` seconds,
/// whose whole seconds are therefore `secs`.
#[verifier::external_body]
pub(crate) fn duration_from_secs(secs: u64) -> (d: Duration)
    ensures
        duration_whole_secs(d) == secs,
{
    Duration::from_secs(secs)
}

/// `Duration` is `Copy`: its `clone` returns the same duration.
pub assume_specification[ <Duration as Clone>::clone ](d: &Duration) -> (r: Duration)
    ensures
        r == *d,
;

/// How syscalls of the sandboxed process are observed.
#[derive(Debug, Clone, Copy, PartialEq, Eq, Structural)]
pub enum NotifyMode {
    /// No interception.
    Disabled,
    /// Observe and report filesystem syscalls.
    Monitor,
    /// Intercept filesystem syscalls and redirect them.
    Virtualize,
}

/// A host path made visible inside the sandbox.
pub struct Mount {
    /// Host path.
    pub source: String,
    /// Whether the sandbox may write under it.
    pub writable: bool,
    /// Whether the sandbox may execute files under it.
    pub executable: bool,
}

/// Overrides of the default syscall whitelist.
pub struct Syscalls {
    /// Syscall numbers to add to the whitelist.
    pub allowed: Vec<i64>,
    /// Syscall numbers to remove from the whitelist.
    pub denied: Vec<i64>,
}

impl Default for Syscalls {
    fn default() -> (s: Self)
        ensures
            s.allowed@ == Seq::<i64>::empty(),
            s.denied@ == Seq::<i64>::empty(),
    {
        Syscalls { allowed: Vec::new(), denied: Vec::new() }
    }
}

impl Syscalls {
    /// Adds `nr` to the allowed syscalls.
    pub fn allow(self, nr: i64) -> (s: Self)
        ensures
            s.allowed@ == self.allowed@.push(nr),
            s.denied@ == self.denied@,
    {
        let mut s = self;
        s.allowed.push(nr);
        s
    }

    /// Adds `nr` to the denied syscalls.
    pub fn deny(self, nr: i64) -> (s: Self)
        ensures
            s.allowed@ == self.allowed@,
            s.denied@ == self.denied@.push(nr),
    {
        let mut s = self;
        s.denied.push(nr);
        s
    }
}

/// Default memory limit: 256 MiB.
pub const DEFAULT_MEMORY_LIMIT: u64 = 268435456;

/// Default wall-clock timeout in seconds.
pub const DEFAULT_TIMEOUT_SECS: u64 = 30;

/// Default cap on stdout plus stderr: 16 MiB.
pub const DEFAULT_MAX_OUTPUT: u64 = 16777216;

/// Default process limit.
pub const DEFAULT_MAX_PIDS: u32 = 64;

/// What to run and under which limits.
pub struct Plan {
    /// Program and arguments.
    pub cmd: Vec<String>,
    /// Host paths made visible inside the sandbox.
    pub mounts: Vec<Mount>,
    /// Whether network access is denied.
    pub network_blocked: bool,
    /// Memory limit in bytes.
    pub memory_limit: u64,
    /// Wall-clock timeout.
    pub timeout: Duration,
    /// Cap on stdout plus stderr, in bytes.
    pub max_output: u64,
    /// Maximum number of processes.
    pub max_pids: u32,
    /// Syscall observation mode.
    pub notify_mode: NotifyMode,
    /// Overrides of the default syscall whitelist, if any.
    pub syscalls: Option<Syscalls>,
}

impl Plan {
    /// A plan that runs `cmd` with the secure defaults: no mounts, network
    /// blocked, 256 MiB of memory, a 30 s timeout, 16 MiB of output, 64
    /// processes, no syscall observation and the default syscall whitelist.
    pub fn new<const N: usize>(cmd: [&str; N]) -> (plan: Plan)
        ensures
            plan.cmd@.len() == N,
            forall|i: int| 0 <= i < N ==> #[trigger] plan.cmd@[i]@ == cmd[i]@,
            plan.mounts@.len() == 0,
            plan.network_blocked,
            plan.memory_limit == DEFAULT_MEMORY_LIMIT,
            duration_whole_secs(plan.timeout) == DEFAULT_TIMEOUT_SECS,
            plan.max_output == DEFAULT_MAX_OUTPUT,
            plan.max_pids == DEFAULT_MAX_PIDS,
            plan.notify_mode == NotifyMode::Disabled,
            plan.syscalls is None,
    {
        let mut args: Vec<String> = Vec::new();
        let mut i: usize = 0;
        while i < N
            invariant
                i <= N,
                args@.len() == i,
                forall|j: int| 0 <= j < i ==> #[trigger] args@[j]@ == cmd[j]@,
            decreases N - i,
        {
            args.push(cmd[i].to_owned());
            i = i + 1;
        }
        Plan {
            cmd: args,
            mounts: Vec::new(),
            network_blocked: true,
            memory_limit: DEFAULT_MEMORY_LIMIT,
            timeout: duration_from_secs(DEFAULT_TIMEOUT_SECS),
            max_output: DEFAULT_MAX_OUTPUT,
            max_pids: DEFAULT_MAX_PIDS,
            notify_mode: NotifyMode::Disabled,
            syscalls: None,
        }
    }

    /// Replaces the syscall overrides.
    pub fn syscalls(self, syscalls: Syscalls) -> (plan: Plan)
        ensures
            plan.syscalls == Some(syscalls),
            plan.cmd == self.cmd,
            plan.mounts == self.mounts,
            plan.network_blocked == self.network_blocked,
            plan.memory_limit == self.memory_limit,
            plan.timeout == self.timeout,
            plan.max_output == self.max_output,
            plan.max_pids == self.max_pids,
            plan.notify_mode == self.notify_mode,
    {
        let mut plan = self;
        plan.syscalls = Some(syscalls);
        plan
    }
}

} // verus!
