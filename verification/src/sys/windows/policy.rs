//! Security policy: plan to Win32 isolation primitives.
//!
//! Translates a [`Plan`] into Job Object limits, an AppContainer
//! configuration and token restrictions. Pure computation, no side effects.

use vstd::prelude::*;
use vstd::string::*;

use crate::plan::{duration_as_secs, duration_whole_secs, Mount, NotifyMode, Plan};
use crate::sys::linux::policy::{
    cpu_budget, cpu_seconds_for, lemma_readonly_mounts_are_the_unwritable_ones, readonly_mounts,
    readonly_mounts_of, rlimits_of, workspace_paths, workspace_write_paths,
};
use crate::text::{decimal, decimal_value, lemma_decimal_reads_back, push_decimal};

verus! {

/// Compiled Job Object limits.
///
/// `cpu_seconds` becomes the per-process user time limit (in 100 ns units
/// when applied), `max_pids` the active process limit.
pub struct JobObjectConfig {
    pub memory: u64,
    pub cpu_seconds: u64,
    pub max_pids: u32,
    pub max_output: u64,
}

/// Compiled AppContainer configuration.
pub struct AppContainerConfig {
    /// Unique profile name of the container.
    pub profile_name: String,
    /// Readable paths.
    pub read_paths: Vec<String>,
    /// Writable paths.
    pub write_paths: Vec<String>,
    /// Whether network access is granted.
    pub network_allowed: bool,
}

/// Compiled token restriction configuration.
pub struct TokenConfig {
    /// Untrusted integrity level (rather than low).
    pub untrusted: bool,
    /// Strip all privileges from the token.
    pub disable_all_privileges: bool,
}

/// Full compilation result for Windows.
pub struct CompiledPlan {
    pub job_object: JobObjectConfig,
    pub app_container: AppContainerConfig,
    pub token: TokenConfig,
    pub notify_mode: NotifyMode,
}

/// The Job Object limits compiled from `plan`.
pub open spec fn job_object_of(plan: Plan) -> JobObjectConfig {
    JobObjectConfig {
        memory: plan.memory_limit,
        cpu_seconds: cpu_budget(duration_whole_secs(plan.timeout)),
        max_pids: plan.max_pids,
        max_output: plan.max_output,
    }
}

/// The paths of the mounts that the sandbox may only read, in plan order.
pub open spec fn readonly_paths_of(mounts: Seq<Mount>) -> Seq<Seq<char>> {
    mounts.filter(|m: Mount| !m.writable).map_values(|m: Mount| m.source@)
}

/// The AppContainer profile name of the process `process_id`:
/// `evalbox-` followed by the identifier in decimal.
pub open spec fn profile_name_for(process_id: u32) -> Seq<char> {
    "evalbox-"@ + decimal(process_id as nat)
}

/// A profile name is `evalbox-` followed by the digits of the whole process
/// identifier: reading them back gives the identifier, so two processes never
/// share a profile.
pub proof fn lemma_profile_name_identifies_process(process_id: u32, other: u32)
    ensures
        profile_name_for(process_id).len() > 8,
        profile_name_for(process_id).take(8) == "evalbox-"@,
        decimal_value(profile_name_for(process_id).skip(8)) == process_id,
        process_id != other ==> profile_name_for(process_id) != profile_name_for(other),
{
    reveal_strlit("evalbox-");
    lemma_decimal_reads_back(process_id as nat);
    lemma_decimal_reads_back(other as nat);
    let p = profile_name_for(process_id);
    let q = profile_name_for(other);
    assert(p.take(8) =~= "evalbox-"@);
    assert(p.skip(8) =~= decimal(process_id as nat));
    assert(q.skip(8) =~= decimal(other as nat));
}

/// Compiles the Job Object limits of `plan`: its memory, process and output
/// limits, and a CPU-time limit of twice the timeout plus a minute.
pub fn compile_job_object(plan: &Plan) -> (config: JobObjectConfig)
    ensures
        config == job_object_of(*plan),
{
    JobObjectConfig {
        memory: plan.memory_limit,
        cpu_seconds: cpu_seconds_for(duration_as_secs(&plan.timeout)),
        max_pids: plan.max_pids,
        max_output: plan.max_output,
    }
}

/// The sources of the read-only mounts of `mounts`, in order: the paths of
/// the Landlock read-only mounts.
fn readonly_paths(mounts: &Vec<Mount>) -> (out: Vec<String>)
    ensures
        out.deep_view() == readonly_paths_of(mounts@),
{
    let readonly = readonly_mounts(mounts);
    let ghost ro = readonly.deep_view();
    proof {
        lemma_readable_paths_agree_across_platforms(mounts@);
    }
    let mut out: Vec<String> = Vec::new();
    let mut i: usize = 0;
    while i < readonly.len()
        invariant
            i <= readonly.len(),
            ro == readonly.deep_view(),
            out.deep_view() =~= ro.take(i as int).map_values(|m: (Seq<char>, bool)| m.0),
        decreases readonly.len() - i,
    {
        let ghost pre = out.deep_view();
        out.push(readonly[i].path.clone());
        proof {
            assert(ro[i as int] == readonly@[i as int].deep_view());
            assert(ro.take(i + 1).map_values(|m: (Seq<char>, bool)| m.0) =~= pre.push(
                readonly@[i as int].path@,
            ));
        }
        i = i + 1;
    }
    proof {
        assert(ro.take(ro.len() as int) =~= ro);
    }
    out
}

/// Compiles the AppContainer configuration of `plan` for the process
/// `process_id`: a profile named after the process, the read-only mounts as
/// readable paths, the `work`, `tmp` and `home` subdirectories of the
/// workspace root as writable paths, and network access unless blocked.
pub fn compile_app_container(plan: &Plan, workspace_root: &str, process_id: u32) -> (config: AppContainerConfig)
    ensures
        config.profile_name@ == profile_name_for(process_id),
        config.profile_name@.take(8) == "evalbox-"@,
        decimal_value(config.profile_name@.skip(8)) == process_id,
        config.read_paths.deep_view() == readonly_paths_of(plan.mounts@),
        config.write_paths.deep_view() == workspace_write_paths(workspace_root@, true),
        config.network_allowed == !plan.network_blocked,
{
    let mut profile_name = String::from_str("evalbox-");
    push_decimal(&mut profile_name, process_id as u64);
    proof {
        lemma_profile_name_identifies_process(process_id, process_id);
    }
    AppContainerConfig {
        profile_name,
        read_paths: readonly_paths(&plan.mounts),
        write_paths: workspace_paths(workspace_root, true),
        network_allowed: !plan.network_blocked,
    }
}

/// Compiles the token restrictions: always untrusted integrity with every
/// privilege stripped, whatever the plan.
pub fn compile_token(plan: &Plan) -> (config: TokenConfig)
    ensures
        config.untrusted,
        config.disable_all_privileges,
{
    TokenConfig { untrusted: true, disable_all_privileges: true }
}

/// Compiles `plan` into Win32 isolation primitives for the process
/// `process_id`.
pub fn compile(plan: &Plan, workspace_root: &str, process_id: u32) -> (compiled: CompiledPlan)
    ensures
        compiled.job_object == job_object_of(*plan),
        compiled.app_container.profile_name@ == profile_name_for(process_id),
        decimal_value(compiled.app_container.profile_name@.skip(8)) == process_id,
        compiled.app_container.read_paths.deep_view() == readonly_paths_of(plan.mounts@),
        compiled.app_container.write_paths.deep_view() == workspace_write_paths(workspace_root@, true),
        compiled.app_container.network_allowed == !plan.network_blocked,
        compiled.token.untrusted,
        compiled.token.disable_all_privileges,
        compiled.notify_mode == plan.notify_mode,
{
    CompiledPlan {
        job_object: compile_job_object(plan),
        app_container: compile_app_container(plan, workspace_root, process_id),
        token: compile_token(plan),
        notify_mode: plan.notify_mode,
    }
}

/// The two back ends impose the same limits on one plan: the Job Object
/// carries the memory, CPU-time, process and output limits that the rlimits
/// carry.
pub proof fn lemma_limits_agree_across_platforms(plan: Plan)
    ensures
        job_object_of(plan).memory == rlimits_of(plan).memory,
        job_object_of(plan).cpu_seconds == rlimits_of(plan).cpu_seconds,
        job_object_of(plan).max_pids == rlimits_of(plan).max_nproc,
        job_object_of(plan).max_output == rlimits_of(plan).max_fsize,
{
}

/// The two back ends grant read access to the same paths, in the same order:
/// the AppContainer's readable paths are the paths of the Landlock read-only
/// mounts.
pub proof fn lemma_readable_paths_agree_across_platforms(mounts: Seq<Mount>)
    ensures
        readonly_paths_of(mounts) == readonly_mounts_of(mounts).map_values(
            |m: (Seq<char>, bool)| m.0,
        ),
    decreases mounts.len(),
{
    reveal_with_fuel(Seq::<_>::filter, 1);
    let pred = |m: Mount| !m.writable;
    if mounts.len() == 0 {
        assert(readonly_paths_of(mounts) =~= Seq::<Seq<char>>::empty());
        assert(readonly_mounts_of(mounts).map_values(|m: (Seq<char>, bool)| m.0) =~= Seq::<
            Seq<char>,
        >::empty());
    } else {
        let rest = mounts.drop_last();
        lemma_readable_paths_agree_across_platforms(rest);
        let f = rest.filter(pred);
        assert(mounts.filter(pred) == if pred(mounts.last()) {
            f.push(mounts.last())
        } else {
            f
        });
        assert(readonly_paths_of(mounts) =~= readonly_mounts_of(mounts).map_values(
            |m: (Seq<char>, bool)| m.0,
        ));
    }
}

/// The readable paths are exactly the sources of the mounts that are not
/// writable, in plan order: a writable mount's path never appears, and no
/// read-only mount is left out.
pub proof fn lemma_read_paths_are_the_unwritable_ones(mounts: Seq<Mount>) -> (idx: Seq<int>)
    ensures
        idx.len() == readonly_paths_of(mounts).len(),
        forall|i: int|
            0 <= i < idx.len() ==> {
                &&& 0 <= #[trigger] idx[i] < mounts.len()
                &&& !mounts[idx[i]].writable
                &&& readonly_paths_of(mounts)[i] == mounts[idx[i]].source@
            },
        forall|i: int, j: int| 0 <= i < j < idx.len() ==> idx[i] < idx[j],
        forall|k: int|
            0 <= k < mounts.len() && !(#[trigger] mounts[k]).writable ==> exists|i: int|
                0 <= i < idx.len() && idx[i] == k,
{
    lemma_readable_paths_agree_across_platforms(mounts);
    let idx = lemma_readonly_mounts_are_the_unwritable_ones(mounts);
    let ro = readonly_mounts_of(mounts);
    assert forall|i: int| 0 <= i < idx.len() implies {
        &&& 0 <= #[trigger] idx[i] < mounts.len()
        &&& !mounts[idx[i]].writable
        &&& readonly_paths_of(mounts)[i] == mounts[idx[i]].source@
    } by {
        assert(ro[i] == (mounts[idx[i]].source@, mounts[idx[i]].executable));
        assert(readonly_paths_of(mounts)[i] == ro[i].0);
    }
    idx
}

} // verus!
