//! Security policy: plan to Linux isolation primitives.
//!
//! Translates a [`Plan`] into Landlock rules, a seccomp whitelist and
//! rlimits. Pure computation, no side effects.

use vstd::prelude::*;

use crate::plan::{duration_as_secs, duration_whole_secs, Mount, NotifyMode, Plan};
use crate::text::{is_verbatim, join_relative, join_relative_path, join_stem};

verus! {

/// A mount with its Landlock access configuration.
pub struct LandlockMount {
    pub path: String,
    pub executable: bool,
}

impl DeepView for LandlockMount {
    type V = (Seq<char>, bool);

    open spec fn deep_view(&self) -> (Seq<char>, bool) {
        (self.path@, self.executable)
    }
}

/// Compiled Landlock ruleset (paths and access).
pub struct LandlockRuleset {
    /// Read-only mount paths from the plan.
    pub readonly_mounts: Vec<LandlockMount>,
    /// Extra read-only paths (e.g. resolved binary mounts).
    pub extra_readonly_paths: Vec<String>,
    /// Writable workspace paths.
    pub write_paths: Vec<String>,
    /// Whether to block network access.
    pub network_blocked: bool,
}

/// Compiled seccomp configuration.
pub struct SeccompConfig {
    /// Final syscall whitelist: base plus allowed, minus denied.
    pub whitelist: Vec<i64>,
}

/// Compiled resource limits.
pub struct RlimitConfig {
    pub memory: u64,
    pub cpu_seconds: u64,
    pub max_fsize: u64,
    pub max_nofile: u64,
    pub max_nproc: u32,
}

/// Full compilation result.
pub struct CompiledPlan {
    pub landlock: LandlockRuleset,
    pub seccomp: SeccompConfig,
    pub rlimits: RlimitConfig,
    pub notify_mode: NotifyMode,
}

/// Open-file limit of every sandboxed process.
pub const MAX_NOFILE: u64 = 256;

/// Grace added to the doubled wall-clock timeout to obtain the CPU limit.
pub const CPU_GRACE_SECS: u64 = 60;

/// `a * b`, saturating at `u64::MAX`.
pub open spec fn saturating_mul(a: u64, b: u64) -> u64 {
    if a * b > u64::MAX {
        u64::MAX
    } else {
        (a * b) as u64
    }
}

/// `a + b`, saturating at `u64::MAX`.
pub open spec fn saturating_add(a: u64, b: u64) -> u64 {
    if a + b > u64::MAX {
        u64::MAX
    } else {
        (a + b) as u64
    }
}

/// CPU-time limit for a wall-clock timeout: twice the timeout plus a minute,
/// saturating.
pub open spec fn cpu_budget(timeout_secs: u64) -> u64 {
    saturating_add(saturating_mul(timeout_secs, 2), CPU_GRACE_SECS)
}

/// The mounts that the sandbox may only read, as (path, executable) pairs, in
/// plan order.
pub open spec fn readonly_mounts_of(mounts: Seq<Mount>) -> Seq<(Seq<char>, bool)> {
    mounts.filter(|m: Mount| !m.writable).map_values(|m: Mount| (m.source@, m.executable))
}

/// `ro` lists the mounts of `mounts` at the strictly increasing positions
/// `idx` as (path, executable) pairs, those positions being exactly the
/// mounts that are not writable.
pub open spec fn selects_readonly(mounts: Seq<Mount>, ro: Seq<(Seq<char>, bool)>, idx: Seq<int>) -> bool {
    &&& idx.len() == ro.len()
    &&& forall|i: int|
        0 <= i < idx.len() ==> {
            &&& 0 <= #[trigger] idx[i] < mounts.len()
            &&& !mounts[idx[i]].writable
            &&& ro[i] == (mounts[idx[i]].source@, mounts[idx[i]].executable)
        }
    &&& forall|i: int, j: int| 0 <= i < j < idx.len() ==> idx[i] < idx[j]
    &&& forall|k: int|
        0 <= k < mounts.len() && !(#[trigger] mounts[k]).writable ==> exists|i: int|
            0 <= i < idx.len() && idx[i] == k
}

/// The subdirectories of the workspace root that the sandbox may write.
pub open spec fn workspace_write_paths(root: Seq<char>, windows: bool) -> Seq<Seq<char>> {
    seq![
        join_relative(root, "work"@, windows),
        join_relative(root, "tmp"@, windows),
        join_relative(root, "home"@, windows),
    ]
}

/// Whether `nr` ends up in the whitelist compiled from `base` with the
/// overrides `allowed` and `denied`: a denied syscall is never whitelisted.
pub open spec fn whitelisted(base: Seq<i64>, allowed: Seq<i64>, denied: Seq<i64>, nr: i64) -> bool {
    (base.contains(nr) || allowed.contains(nr)) && !denied.contains(nr)
}

/// The resource limits compiled from `plan`.
pub open spec fn rlimits_of(plan: Plan) -> RlimitConfig {
    RlimitConfig {
        memory: plan.memory_limit,
        cpu_seconds: cpu_budget(duration_whole_secs(plan.timeout)),
        max_fsize: plan.max_output,
        max_nofile: MAX_NOFILE,
        max_nproc: plan.max_pids,
    }
}

/// A syscall on the denied list is never whitelisted, whatever the base
/// whitelist and the allowed list hold.
pub proof fn lemma_denied_never_whitelisted(base: Seq<i64>, allowed: Seq<i64>, denied: Seq<i64>, nr: i64)
    requires
        denied.contains(nr),
    ensures
        !whitelisted(base, allowed, denied, nr),
{
}

/// An allowed syscall that is not denied is whitelisted, and so is every
/// syscall of the base whitelist that is not denied.
pub proof fn lemma_undenied_whitelisted(base: Seq<i64>, allowed: Seq<i64>, denied: Seq<i64>, nr: i64)
    requires
        allowed.contains(nr) || base.contains(nr),
        !denied.contains(nr),
    ensures
        whitelisted(base, allowed, denied, nr),
{
}

/// The read-only mounts are exactly the mounts that are not writable, in plan
/// order, each with its path and executable flag: a writable mount never
/// appears, and no read-only mount is left out.
pub proof fn lemma_readonly_mounts_are_the_unwritable_ones(mounts: Seq<Mount>) -> (idx: Seq<int>)
    ensures
        selects_readonly(mounts, readonly_mounts_of(mounts), idx),
    decreases mounts.len(),
{
    reveal_with_fuel(Seq::<_>::filter, 1);
    if mounts.len() == 0 {
        assert(readonly_mounts_of(mounts) =~= Seq::<(Seq<char>, bool)>::empty());
        Seq::<int>::empty()
    } else {
        let rest = mounts.drop_last();
        let m = mounts.last();
        let n = rest.len() as int;
        let idx0 = lemma_readonly_mounts_are_the_unwritable_ones(rest);
        let ro0 = readonly_mounts_of(rest);
        assert forall|k: int| 0 <= k < n implies mounts[k] == rest[k] by {}
        if !m.writable {
            assert(readonly_mounts_of(mounts) =~= ro0.push((m.source@, m.executable)));
            let idx = idx0.push(n);
            let ro = readonly_mounts_of(mounts);
            assert forall|i: int| 0 <= i < idx.len() implies {
                &&& 0 <= #[trigger] idx[i] < mounts.len()
                &&& !mounts[idx[i]].writable
                &&& ro[i] == (mounts[idx[i]].source@, mounts[idx[i]].executable)
            } by {
                if i < idx0.len() {
                    assert(idx[i] == idx0[i]);
                    assert(0 <= idx0[i] < n);
                }
            }
            assert forall|i: int, j: int| 0 <= i < j < idx.len() implies idx[i] < idx[j] by {
                if j < idx0.len() {
                    assert(idx[i] == idx0[i] && idx[j] == idx0[j]);
                } else {
                    assert(0 <= idx0[i] < n);
                }
            }
            assert forall|k: int| 0 <= k < mounts.len() && !(#[trigger] mounts[k]).writable implies exists|i: int|
                0 <= i < idx.len() && idx[i] == k by {
                if k < n {
                    assert(!rest[k].writable);
                    let i = choose|i: int| 0 <= i < idx0.len() && idx0[i] == k;
                    assert(idx[i] == k);
                } else {
                    assert(idx[idx0.len() as int] == k);
                }
            }
            idx
        } else {
            assert(readonly_mounts_of(mounts) =~= ro0);
            let idx = idx0;
            assert forall|i: int| 0 <= i < idx.len() implies {
                &&& 0 <= #[trigger] idx[i] < mounts.len()
                &&& !mounts[idx[i]].writable
                &&& ro0[i] == (mounts[idx[i]].source@, mounts[idx[i]].executable)
            } by {
                assert(0 <= idx0[i] < n);
            }
            assert forall|k: int| 0 <= k < mounts.len() && !(#[trigger] mounts[k]).writable implies exists|i: int|
                0 <= i < idx.len() && idx[i] == k by {
                assert(k < n);
                assert(!rest[k].writable);
            }
            idx
        }
    }
}

/// Overrides never whitelist anything new beyond the allowed list: a
/// whitelisted syscall is in the base whitelist or on the allowed list, and
/// it is not on the denied list.
pub proof fn lemma_whitelisted_has_a_source(base: Seq<i64>, allowed: Seq<i64>, denied: Seq<i64>, nr: i64)
    requires
        whitelisted(base, allowed, denied, nr),
    ensures
        base.contains(nr) || allowed.contains(nr),
        !denied.contains(nr),
{
}

/// The CPU-time limit is never below the wall-clock timeout nor below the
/// one-minute grace, and it grows with the timeout.
pub proof fn lemma_cpu_budget_bounds(secs: u64, longer: u64)
    requires
        secs <= longer,
    ensures
        cpu_budget(secs) >= secs,
        cpu_budget(secs) >= CPU_GRACE_SECS,
        cpu_budget(secs) <= cpu_budget(longer),
{
}

/// The writable workspace paths are three distinct paths; unless the root
/// is a Windows verbatim path (which joining rebuilds), each is made of the
/// workspace root followed by more text.
pub proof fn lemma_write_paths_below_root(root: Seq<char>, windows: bool)
    ensures
        workspace_write_paths(root, windows).len() == 3,
        !(windows && is_verbatim(root)) ==> forall|i: int|
            0 <= i < 3 ==> {
                let p = #[trigger] workspace_write_paths(root, windows)[i];
                &&& p.len() > root.len()
                &&& p.subrange(0, root.len() as int) == root
            },
        forall|i: int, j: int|
            0 <= i < j < 3 ==> workspace_write_paths(root, windows)[i]
                != workspace_write_paths(root, windows)[j],
{
    reveal_strlit("work");
    reveal_strlit("tmp");
    reveal_strlit("home");
    let w = workspace_write_paths(root, windows);
    let stem = join_stem(root, windows);
    assert(w[0] == stem + "work"@);
    assert(w[1] == stem + "tmp"@);
    assert(w[2] == stem + "home"@);
    if !(windows && is_verbatim(root)) {
        assert(stem.subrange(0, root.len() as int) =~= root);
        assert forall|i: int| 0 <= i < 3 implies {
            let p = #[trigger] w[i];
            &&& p.len() > root.len()
            &&& p.subrange(0, root.len() as int) == root
        } by {
            assert(w[i].subrange(0, root.len() as int) =~= root);
        }
    }
    let n = stem.len() as int;
    assert(w[0][n] == 'w');
    assert(w[1][n] == 't');
    assert(w[2][n] == 'h');
}

/// Whether `v` holds `x`.
fn slice_contains(v: &[i64], x: i64) -> (found: bool)
    ensures
        found == v@.contains(x),
{
    let mut i: usize = 0;
    while i < v.len()
        invariant
            i <= v.len(),
            forall|j: int| 0 <= j < i ==> v@[j] != x,
        decreases v.len() - i,
    {
        if v[i] == x {
            return true;
        }
        i = i + 1;
    }
    false
}

/// Appends to `out`, in order, each element of `src` that `skip` does not hold
/// and that is not in `out` yet.
fn extend_unique_except(out: &mut Vec<i64>, src: &[i64], skip: &[i64])
    requires
        old(out)@.no_duplicates(),
    ensures
        final(out)@.no_duplicates(),
        forall|nr: i64|
            #[trigger] final(out)@.contains(nr) <==> (old(out)@.contains(nr) || (src@.contains(nr)
                && !skip@.contains(nr))),
{
    let mut i: usize = 0;
    while i < src.len()
        invariant
            i <= src.len(),
            out@.no_duplicates(),
            forall|nr: i64|
                #[trigger] out@.contains(nr) <==> (old(out)@.contains(nr) || (src@.take(
                    i as int,
                ).contains(nr) && !skip@.contains(nr))),
        decreases src.len() - i,
    {
        let x = src[i];
        let ghost out0 = out@;
        let in_skip = slice_contains(skip, x);
        let in_out = slice_contains(out.as_slice(), x);
        if !in_skip && !in_out {
            proof {
                assert forall|a: int, b: int|
                    0 <= a < out0.push(x).len() && 0 <= b < out0.push(x).len() && a != b implies
                    out0.push(x)[a] != out0.push(x)[b] by {
                    if a == out0.len() {
                        assert(out0.contains(out0[b]));
                    } else if b == out0.len() {
                        assert(out0.contains(out0[a]));
                    }
                }
            }
            out.push(x);
        }
        proof {
            assert(src@.take(i + 1) =~= src@.take(i as int).push(x));
            assert forall|nr: i64|
                #[trigger] out@.contains(nr) <==> (old(out)@.contains(nr) || (src@.take(
                    (i + 1) as int,
                ).contains(nr) && !skip@.contains(nr))) by {
                assert(out0.contains(nr) == (old(out)@.contains(nr) || (src@.take(i as int).contains(
                    nr,
                ) && !skip@.contains(nr))));
                assert(src@.take(i as int).push(x).contains(nr) <==> (src@.take(i as int).contains(
                    nr,
                ) || nr == x)) by {
                    let t = src@.take(i as int);
                    if t.push(x).contains(nr) && nr != x {
                        let k = choose|k: int| 0 <= k < t.push(x).len() && t.push(x)[k] == nr;
                        assert(t[k] == nr);
                    }
                    if t.contains(nr) {
                        let k = choose|k: int| 0 <= k < t.len() && t[k] == nr;
                        assert(t.push(x)[k] == nr);
                    }
                    assert(t.push(x)[t.len() as int] == x);
                }
                if !in_skip && !in_out {
                    assert(out@ == out0.push(x));
                    if out@.contains(nr) && nr != x {
                        let k = choose|k: int| 0 <= k < out@.len() && out@[k] == nr;
                        assert(out0[k] == nr);
                    }
                    if out0.contains(nr) {
                        let k = choose|k: int| 0 <= k < out0.len() && out0[k] == nr;
                        assert(out@[k] == nr);
                    }
                    assert(out@[out0.len() as int] == x);
                } else {
                    assert(out@ == out0);
                }
            }
        }
        i = i + 1;
    }
    proof {
        assert(src@.take(src@.len() as int) =~= src@);
    }
}

/// Compiles the seccomp whitelist of `plan` from the default whitelist `base`
/// (the syscalls every sandbox may make, supplied by the caller).
///
/// Without overrides the whitelist is `base` itself. With overrides it holds,
/// once each, every syscall of `base` or of the allowed list that is not on
/// the denied list.
pub fn compile_seccomp(plan: &Plan, base: &[i64]) -> (config: SeccompConfig)
    ensures
        plan.syscalls is None ==> config.whitelist@ == base@,
        plan.syscalls matches Some(s) ==> {
            &&& config.whitelist@.no_duplicates()
            &&& forall|nr: i64| #[trigger]
                config.whitelist@.contains(nr) <==> whitelisted(base@, s.allowed@, s.denied@, nr)
            &&& forall|nr: i64| #[trigger]
                config.whitelist@.contains(nr) ==> (base@.contains(nr) || s.allowed@.contains(nr))
                    && !s.denied@.contains(nr)
        },
{
    match &plan.syscalls {
        Some(syscalls) => {
            let mut whitelist: Vec<i64> = Vec::new();
            extend_unique_except(&mut whitelist, base, syscalls.denied.as_slice());
            extend_unique_except(&mut whitelist, syscalls.allowed.as_slice(), syscalls.denied.as_slice());
            SeccompConfig { whitelist }
        },
        None => SeccompConfig { whitelist: vstd::slice::slice_to_vec(base) },
    }
}

/// The read-only mounts of `mounts`, in order, with their executable flag.
pub(crate) fn readonly_mounts(mounts: &Vec<Mount>) -> (out: Vec<LandlockMount>)
    ensures
        out.deep_view() == readonly_mounts_of(mounts@),
{
    let mut out: Vec<LandlockMount> = Vec::new();
    let mut i: usize = 0;
    while i < mounts.len()
        invariant
            i <= mounts.len(),
            out.deep_view() == readonly_mounts_of(mounts@.take(i as int)),
        decreases mounts.len() - i,
    {
        let m = &mounts[i];
        let ghost pre = out.deep_view();
        proof {
            let t = mounts@.take(i + 1);
            assert(t.drop_last() =~= mounts@.take(i as int));
            assert(t.last() == *m);
            reveal_with_fuel(Seq::<_>::filter, 1);
        }
        if !m.writable {
            out.push(LandlockMount { path: m.source.clone(), executable: m.executable });
            proof {
                assert(out.deep_view() =~= pre.push((m.source@, m.executable)));
            }
        }
        i = i + 1;
    }
    proof {
        assert(mounts@.take(mounts@.len() as int) =~= mounts@);
    }
    out
}

/// Owned copies of `paths`, in order.
pub(crate) fn owned_paths(paths: &[&str]) -> (out: Vec<String>)
    ensures
        out.deep_view() == paths@.map_values(|p: &str| p@),
{
    let mut out: Vec<String> = Vec::new();
    let mut i: usize = 0;
    while i < paths.len()
        invariant
            i <= paths.len(),
            out.deep_view() =~= paths@.take(i as int).map_values(|p: &str| p@),
        decreases paths.len() - i,
    {
        let ghost pre = out.deep_view();
        out.push(paths[i].to_owned());
        proof {
            assert(paths@.take(i + 1).map_values(|p: &str| p@) =~= pre.push(paths@[i as int]@));
        }
        i = i + 1;
    }
    proof {
        assert(paths@.take(paths@.len() as int) =~= paths@);
    }
    out
}

/// The writable subdirectories `work`, `tmp` and `home` of `root`.
pub(crate) fn workspace_paths(root: &str, windows: bool) -> (out: Vec<String>)
    ensures
        out.deep_view() == workspace_write_paths(root@, windows),
{
    proof {
        reveal_strlit("work");
        reveal_strlit("tmp");
        reveal_strlit("home");
    }
    let mut out: Vec<String> = Vec::new();
    out.push(join_relative_path(root, "work", windows));
    out.push(join_relative_path(root, "tmp", windows));
    out.push(join_relative_path(root, "home", windows));
    proof {
        assert(out.deep_view() =~= workspace_write_paths(root@, windows));
    }
    out
}

/// Compiles the Landlock ruleset of `plan`: its read-only mounts, the extra
/// read-only paths, the writable `work`, `tmp` and `home` subdirectories of
/// the workspace root, and whether the network is blocked.
pub fn compile_landlock(plan: &Plan, workspace_root: &str, extra_readonly_paths: &[&str]) -> (ruleset: LandlockRuleset)
    ensures
        ruleset.readonly_mounts.deep_view() == readonly_mounts_of(plan.mounts@),
        ruleset.extra_readonly_paths.deep_view() == extra_readonly_paths@.map_values(|p: &str| p@),
        ruleset.write_paths.deep_view() == workspace_write_paths(workspace_root@, false),
        ruleset.network_blocked == plan.network_blocked,
{
    LandlockRuleset {
        readonly_mounts: readonly_mounts(&plan.mounts),
        extra_readonly_paths: owned_paths(extra_readonly_paths),
        write_paths: workspace_paths(workspace_root, false),
        network_blocked: plan.network_blocked,
    }
}

/// Twice `secs` plus a minute, saturating.
pub(crate) fn cpu_seconds_for(secs: u64) -> (cpu: u64)
    ensures
        cpu == cpu_budget(secs),
{
    let doubled = match secs.checked_mul(2) {
        Some(v) => v,
        None => u64::MAX,
    };
    doubled.saturating_add(CPU_GRACE_SECS)
}

/// Compiles the rlimits of `plan`: its memory, output and process limits, a
/// CPU-time limit of twice the timeout plus a minute, and 256 open files.
pub fn compile_rlimits(plan: &Plan) -> (rlimits: RlimitConfig)
    ensures
        rlimits == rlimits_of(*plan),
{
    RlimitConfig {
        memory: plan.memory_limit,
        cpu_seconds: cpu_seconds_for(duration_as_secs(&plan.timeout)),
        max_fsize: plan.max_output,
        max_nofile: MAX_NOFILE,
        max_nproc: plan.max_pids,
    }
}

/// Compiles `plan` into Linux isolation primitives, with `base_whitelist` as
/// the default seccomp whitelist.
pub fn compile(
    plan: &Plan,
    workspace_root: &str,
    extra_readonly_paths: &[&str],
    base_whitelist: &[i64],
) -> (compiled: CompiledPlan)
    ensures
        compiled.landlock.readonly_mounts.deep_view() == readonly_mounts_of(plan.mounts@),
        compiled.landlock.extra_readonly_paths.deep_view() == extra_readonly_paths@.map_values(
            |p: &str| p@,
        ),
        compiled.landlock.write_paths.deep_view() == workspace_write_paths(workspace_root@, false),
        compiled.landlock.network_blocked == plan.network_blocked,
        plan.syscalls is None ==> compiled.seccomp.whitelist@ == base_whitelist@,
        plan.syscalls matches Some(s) ==> {
            &&& compiled.seccomp.whitelist@.no_duplicates()
            &&& forall|nr: i64| #[trigger]
                compiled.seccomp.whitelist@.contains(nr) <==> whitelisted(
                    base_whitelist@,
                    s.allowed@,
                    s.denied@,
                    nr,
                )
            &&& forall|nr: i64| #[trigger]
                compiled.seccomp.whitelist@.contains(nr) ==> (base_whitelist@.contains(nr)
                    || s.allowed@.contains(nr)) && !s.denied@.contains(nr)
        },
        compiled.rlimits == rlimits_of(*plan),
        compiled.notify_mode == plan.notify_mode,
{
    CompiledPlan {
        landlock: compile_landlock(plan, workspace_root, extra_readonly_paths),
        seccomp: compile_seccomp(plan, base_whitelist),
        rlimits: compile_rlimits(plan),
        notify_mode: plan.notify_mode,
    }
}

} // verus!
