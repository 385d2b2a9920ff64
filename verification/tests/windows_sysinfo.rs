use evalbox::sys::windows::sysinfo::{
    get_store_path, is_guix_store_path, is_nix_store_path, program_files_dir, system32_dir, SystemPaths,
    SystemType,
};

#[test]
fn test_nix_paths_always_false() {
    assert!(!is_nix_store_path(r"C:\Windows\System32"));
    assert!(get_store_path(r"C:\Windows").is_none());
}

#[test]
fn guix_paths_always_false() {
    assert!(!is_guix_store_path("/gnu/store/abc-foo"));
    assert!(!is_nix_store_path("/nix/store/abc-foo"));
    assert!(get_store_path("/nix/store/abc-foo/bin/sh").is_none());
}

#[test]
fn system_type_precedence() {
    assert_eq!(SystemType::from_environment(true, true), SystemType::Wsl);
    assert_eq!(SystemType::from_environment(true, false), SystemType::Wsl);
    assert_eq!(SystemType::from_environment(false, true), SystemType::Msys2);
    assert_eq!(SystemType::from_environment(false, false), SystemType::Standard);
}

#[test]
fn system_directories() {
    assert_eq!(system32_dir(Some("D:\\Win")), "D:\\Win\\System32");
    assert_eq!(system32_dir(Some("D:\\Win\\")), "D:\\Win\\System32");
    assert_eq!(system32_dir(None), "C:\\Windows\\System32");
    assert_eq!(system32_dir(Some(r"\\?\C:\Win\\")), r"\\?\C:\Win\System32");
    assert_eq!(program_files_dir(Some("E:\\Apps")), "E:\\Apps");
    assert_eq!(program_files_dir(None), "C:\\Program Files");
}

#[test]
fn system_paths_keep_existing_directories() {
    let paths = SystemPaths::assemble(
        SystemType::Standard,
        "C:\\Windows\\System32".to_string(),
        true,
        "C:\\Program Files".to_string(),
        false,
        None,
    );
    assert_eq!(paths.system_type, SystemType::Standard);
    assert_eq!(paths.readonly_mounts, vec!["C:\\Windows\\System32".to_string()]);
    assert_eq!(paths.default_path, "");
    let paths = SystemPaths::assemble(
        SystemType::Msys2,
        "a".to_string(),
        false,
        "b".to_string(),
        true,
        Some("C:\\bin".to_string()),
    );
    assert_eq!(paths.readonly_mounts, vec!["b".to_string()]);
    assert_eq!(paths.default_path, "C:\\bin");
}
