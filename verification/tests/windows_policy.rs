use std::time::Duration;

use evalbox::plan::{Mount, NotifyMode, Plan};
use evalbox::sys::linux::policy::{compile_landlock, compile_rlimits};
use evalbox::sys::windows::policy::{compile, compile_app_container, compile_job_object, compile_token};

#[test]
fn compile_job_object_defaults() {
    let plan = Plan::new(["cmd.exe", "/c", "echo hello"]);
    let config = compile_job_object(&plan);
    assert_eq!(config.memory, 256 * 1024 * 1024);
    assert_eq!(config.max_pids, 64);
}

#[test]
fn compile_app_container_paths() {
    let plan = Plan::new(["cmd.exe"]);
    let config = compile_app_container(&plan, "C:\\Temp\\ws", 1234);
    assert_eq!(config.write_paths.len(), 3);
    assert!(!config.network_allowed);
}

#[test]
fn windows_policy_compile_full() {
    let plan = Plan::new(["cmd.exe"]);
    let compiled = compile(&plan, "C:\\Temp\\ws", 1234);
    assert!(compiled.token.untrusted);
    assert!(compiled.token.disable_all_privileges);
    assert_eq!(compiled.notify_mode, NotifyMode::Disabled);
}

#[test]
fn app_container_profile_and_paths() {
    let mut plan = Plan::new(["cmd.exe"]);
    plan.mounts.push(Mount { source: "C:\\Python".to_string(), writable: false, executable: true });
    plan.mounts.push(Mount { source: "D:\\out".to_string(), writable: true, executable: false });
    plan.network_blocked = false;
    let config = compile_app_container(&plan, "C:\\Temp\\ws", 4071);
    assert_eq!(config.profile_name, "evalbox-4071");
    assert_eq!(config.read_paths, vec!["C:\\Python".to_string()]);
    assert_eq!(
        config.write_paths,
        vec![
            "C:\\Temp\\ws\\work".to_string(),
            "C:\\Temp\\ws\\tmp".to_string(),
            "C:\\Temp\\ws\\home".to_string()
        ]
    );
    assert!(config.network_allowed);
    assert_eq!(compile_app_container(&plan, "X", 0).profile_name, "evalbox-0");
}

#[test]
fn windows_join_respects_separators_and_drives() {
    let plan = Plan::new(["cmd.exe"]);
    assert_eq!(compile_app_container(&plan, "C:\\ws\\", 1).write_paths[0], "C:\\ws\\work");
    assert_eq!(compile_app_container(&plan, "C:/ws/", 1).write_paths[1], "C:/ws/tmp");
    assert_eq!(compile_app_container(&plan, "C:", 1).write_paths[2], "C:home");
    assert_eq!(compile_app_container(&plan, "\\\\?\\C:\\ws/", 1).write_paths[0], "\\\\?\\C:\\ws/\\work");
    assert_eq!(compile_app_container(&plan, "\\\\?\\C:\\ws\\", 1).write_paths[0], "\\\\?\\C:\\ws\\work");
    assert_eq!(compile_app_container(&plan, "\\\\?\\C:", 1).write_paths[0], "\\\\?\\C:\\work");
}

#[test]
fn verbatim_roots_are_rebuilt_from_components() {
    let plan = Plan::new(["cmd.exe"]);
    let paths = |root: &str| compile_app_container(&plan, root, 1).write_paths;
    assert_eq!(paths(r"\\?\C:\a\\b")[0], r"\\?\C:\a\b\work");
    assert_eq!(paths(r"\\?\C:\a\\b\\")[1], r"\\?\C:\a\b\tmp");
    assert_eq!(paths(r"\\?\C:/x")[2], r"\\?\C:/x\home");
    assert_eq!(paths(r"\\?\C:/x\y")[2], r"\\?\C:/x\y\home");
    assert_eq!(paths(r"\\?\UNC\srv\share\x")[0], r"\\?\UNC\srv\share\x\work");
    assert_eq!(paths(r"\\?\UNC\srv\\share")[0], r"\\?\UNC\srv\share\work");
    assert_eq!(paths(r"\\?\C:\.\a")[0], r"\\?\C:\.\a\work");
}

#[test]
fn token_is_always_restricted() {
    let mut plan = Plan::new(["cmd.exe"]);
    plan.network_blocked = false;
    let token = compile_token(&plan);
    assert!(token.untrusted && token.disable_all_privileges);
}

#[test]
fn platforms_agree_on_limits_and_readable_paths() {
    let mut plan = Plan::new(["run"]);
    plan.timeout = Duration::from_secs(7);
    plan.memory_limit = 1 << 20;
    plan.max_pids = 9;
    plan.max_output = 4096;
    plan.mounts.push(Mount { source: "/a".to_string(), writable: false, executable: false });
    plan.mounts.push(Mount { source: "/b".to_string(), writable: true, executable: false });
    plan.mounts.push(Mount { source: "/c".to_string(), writable: false, executable: true });
    let rl = compile_rlimits(&plan);
    let job = compile_job_object(&plan);
    assert_eq!(rl.memory, job.memory);
    assert_eq!(rl.cpu_seconds, job.cpu_seconds);
    assert_eq!(job.cpu_seconds, 74);
    assert_eq!(rl.max_nproc, job.max_pids);
    assert_eq!(rl.max_fsize, job.max_output);
    let landlock = compile_landlock(&plan, "/ws", &[]);
    let container = compile_app_container(&plan, "/ws", 1);
    let linux_paths: Vec<String> = landlock.readonly_mounts.iter().map(|m| m.path.clone()).collect();
    assert_eq!(linux_paths, container.read_paths);
    assert_eq!(container.read_paths, vec!["/a".to_string(), "/c".to_string()]);
}
