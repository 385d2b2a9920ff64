use std::time::Duration;

use evalbox::plan::{Mount, NotifyMode, Plan, Syscalls};
use evalbox::sys::linux::policy::{compile, compile_landlock, compile_rlimits, compile_seccomp};

/// A small default whitelist: read, write, open, close, exit, exit_group.
const BASE: &[i64] = &[0, 1, 2, 3, 60, 231];

#[test]
fn compile_seccomp_default() {
    let plan = Plan::new(["echo", "hello"]);
    let config = compile_seccomp(&plan, BASE);
    assert!(!config.whitelist.is_empty());
}

#[test]
fn compile_seccomp_custom() {
    let plan = Plan::new(["echo"]).syscalls(Syscalls::default().allow(9999).deny(0));
    let config = compile_seccomp(&plan, BASE);
    assert!(config.whitelist.contains(&9999));
    assert!(!config.whitelist.contains(&0));
}

#[test]
fn compile_rlimits_defaults() {
    let plan = Plan::new(["echo"]);
    let rlimits = compile_rlimits(&plan);
    assert_eq!(rlimits.memory, 256 * 1024 * 1024);
    assert_eq!(rlimits.max_nproc, 64);
    assert_eq!(rlimits.max_nofile, 256);
}

#[test]
fn compile_landlock_workspace_paths() {
    let plan = Plan::new(["echo"]);
    let ruleset = compile_landlock(&plan, "/tmp/ws", &[]);
    assert_eq!(ruleset.write_paths.len(), 3);
    assert!(ruleset.write_paths.contains(&"/tmp/ws/work".to_string()));
    assert!(ruleset.write_paths.contains(&"/tmp/ws/tmp".to_string()));
    assert!(ruleset.write_paths.contains(&"/tmp/ws/home".to_string()));
}

#[test]
fn policy_compile_full() {
    let plan = Plan::new(["echo"]);
    let compiled = compile(&plan, "/tmp/ws", &["/usr"], BASE);
    assert!(!compiled.seccomp.whitelist.is_empty());
    assert_eq!(compiled.landlock.extra_readonly_paths.len(), 1);
    assert_eq!(compiled.notify_mode, NotifyMode::Disabled);
}

#[test]
fn seccomp_without_overrides_is_the_base_unchanged() {
    let plan = Plan::new(["echo"]);
    let base = [5, 3, 5, 1];
    let config = compile_seccomp(&plan, &base);
    assert_eq!(config.whitelist, vec![5, 3, 5, 1]);
}

#[test]
fn seccomp_deny_wins_over_allow() {
    let plan = Plan::new(["echo"]).syscalls(Syscalls::default().allow(42).deny(42).deny(1));
    let config = compile_seccomp(&plan, BASE);
    assert!(!config.whitelist.contains(&42));
    assert!(!config.whitelist.contains(&1));
    assert!(config.whitelist.contains(&0));
}

#[test]
fn seccomp_overrides_give_each_syscall_once() {
    let plan = Plan::new(["echo"]).syscalls(Syscalls::default().allow(3).allow(500).allow(500));
    let base = [3, 3, 7];
    let config = compile_seccomp(&plan, &base);
    let mut sorted = config.whitelist.clone();
    sorted.sort();
    assert_eq!(sorted, vec![3, 7, 500]);
}

#[test]
fn seccomp_empty_overrides_dedup_base() {
    let plan = Plan::new(["echo"]).syscalls(Syscalls::default());
    let base = [9, 9, 8];
    let config = compile_seccomp(&plan, &base);
    let mut sorted = config.whitelist.clone();
    sorted.sort();
    assert_eq!(sorted, vec![8, 9]);
}

#[test]
fn landlock_keeps_readonly_mounts_in_order() {
    let mut plan = Plan::new(["echo"]);
    plan.mounts.push(Mount { source: "/usr".to_string(), writable: false, executable: true });
    plan.mounts.push(Mount { source: "/data".to_string(), writable: true, executable: false });
    plan.mounts.push(Mount { source: "/etc".to_string(), writable: false, executable: false });
    plan.network_blocked = false;
    let ruleset = compile_landlock(&plan, "/ws/", &["/opt/a", "/opt/b"]);
    assert_eq!(ruleset.readonly_mounts.len(), 2);
    assert_eq!(ruleset.readonly_mounts[0].path, "/usr");
    assert!(ruleset.readonly_mounts[0].executable);
    assert_eq!(ruleset.readonly_mounts[1].path, "/etc");
    assert!(!ruleset.readonly_mounts[1].executable);
    assert_eq!(ruleset.extra_readonly_paths, vec!["/opt/a".to_string(), "/opt/b".to_string()]);
    assert_eq!(
        ruleset.write_paths,
        vec!["/ws/work".to_string(), "/ws/tmp".to_string(), "/ws/home".to_string()]
    );
    assert!(!ruleset.network_blocked);
}

#[test]
fn landlock_write_paths_of_empty_root_are_relative() {
    let plan = Plan::new(["echo"]);
    let ruleset = compile_landlock(&plan, "", &[]);
    assert_eq!(ruleset.write_paths, vec!["work".to_string(), "tmp".to_string(), "home".to_string()]);
}

#[test]
fn rlimits_cpu_is_twice_timeout_plus_a_minute() {
    let mut plan = Plan::new(["echo"]);
    plan.timeout = Duration::from_millis(10_900);
    plan.max_output = 1000;
    plan.memory_limit = 77;
    plan.max_pids = 3;
    let rlimits = compile_rlimits(&plan);
    assert_eq!(rlimits.cpu_seconds, 80);
    assert_eq!(rlimits.max_fsize, 1000);
    assert_eq!(rlimits.memory, 77);
    assert_eq!(rlimits.max_nproc, 3);
    assert_eq!(compile_rlimits(&Plan::new(["echo"])).cpu_seconds, 120);
}

#[test]
fn rlimits_cpu_saturates() {
    let mut plan = Plan::new(["echo"]);
    plan.timeout = Duration::from_secs(u64::MAX / 2 + 1);
    assert_eq!(compile_rlimits(&plan).cpu_seconds, u64::MAX);
    plan.timeout = Duration::from_secs(u64::MAX / 2 - 10);
    assert_eq!(compile_rlimits(&plan).cpu_seconds, u64::MAX);
    plan.timeout = Duration::from_secs(u64::MAX / 2 - 30);
    assert_eq!(compile_rlimits(&plan).cpu_seconds, u64::MAX - 1);
}

#[test]
fn compile_passes_notify_mode_through() {
    let mut plan = Plan::new(["echo"]);
    plan.notify_mode = NotifyMode::Virtualize;
    let compiled = compile(&plan, "/tmp/ws", &[], BASE);
    assert_eq!(compiled.notify_mode, NotifyMode::Virtualize);
    assert_eq!(compiled.seccomp.whitelist, BASE.to_vec());
}

#[test]
fn plan_defaults() {
    let plan = Plan::new(["python3", "-c", "print(1)"]);
    assert_eq!(plan.cmd, vec!["python3".to_string(), "-c".to_string(), "print(1)".to_string()]);
    assert!(plan.mounts.is_empty());
    assert!(plan.network_blocked);
    assert_eq!(plan.timeout.as_secs(), 30);
    assert_eq!(plan.max_output, 16 * 1024 * 1024);
    assert!(plan.syscalls.is_none());
}
