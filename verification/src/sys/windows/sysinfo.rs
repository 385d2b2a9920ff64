//! System detection for Windows: the decisions, taken on what the
//! environment and the filesystem report.

use vstd::prelude::*;
use vstd::string::*;

use crate::text::{join_relative, join_relative_path};

verus! {

/// Detected Windows system type. `Fhs` exists for compatibility with the
/// Linux back end and is never detected on Windows.
#[derive(Debug, Clone, Copy, PartialEq, Eq, Structural)]
pub enum SystemType {
    /// Standard Windows installation.
    Standard,
    /// Running under MSYS2 / Git Bash.
    Msys2,
    /// Running under WSL.
    Wsl,
    /// Linux only, never detected here.
    Fhs,
}

/// Detected system paths relevant to sandbox configuration.
#[derive(Debug, Clone)]
pub struct SystemPaths {
    pub system_type: SystemType,
    /// Read-only system directories (`System32`, `Program Files`).
    pub readonly_mounts: Vec<String>,
    /// Default PATH for sandboxed processes.
    pub default_path: String,
}

/// `System32` below the system root, or the standard location when the
/// system root is unknown.
pub open spec fn system32_path(system_root: Option<Seq<char>>) -> Seq<char> {
    match system_root {
        Some(root) => join_relative(root, "System32"@, true),
        None => "C:\\Windows\\System32"@,
    }
}

/// The program files directory, or the standard location when unknown.
pub open spec fn program_files_path(program_files: Option<Seq<char>>) -> Seq<char> {
    match program_files {
        Some(dir) => dir,
        None => "C:\\Program Files"@,
    }
}

impl SystemType {
    /// The system type given whether `WSL_DISTRO_NAME` and `MSYSTEM` are set:
    /// WSL first, then MSYS2, else a standard installation.
    pub fn from_environment(wsl_distro_set: bool, msystem_set: bool) -> (t: SystemType)
        ensures
            wsl_distro_set ==> t == SystemType::Wsl,
            !wsl_distro_set && msystem_set ==> t == SystemType::Msys2,
            !wsl_distro_set && !msystem_set ==> t == SystemType::Standard,
            t != SystemType::Fhs,
    {
        if wsl_distro_set {
            SystemType::Wsl
        } else if msystem_set {
            SystemType::Msys2
        } else {
            SystemType::Standard
        }
    }
}

/// The `System32` directory for the system root `system_root` (the value of
/// `SystemRoot`, if set).
pub fn system32_dir(system_root: Option<&str>) -> (dir: String)
    ensures
        dir@ == system32_path(
            match system_root {
                Some(r) => Some(r@),
                None => None,
            },
        ),
{
    match system_root {
        Some(root) => {
            proof {
                reveal_strlit("System32");
            }
            join_relative_path(root, "System32", true)
        },
        None => String::from_str("C:\\Windows\\System32"),
    }
}

/// The program files directory for the value of `ProgramFiles`, if set.
pub fn program_files_dir(program_files: Option<&str>) -> (dir: String)
    ensures
        dir@ == program_files_path(
            match program_files {
                Some(p) => Some(p@),
                None => None,
            },
        ),
{
    match program_files {
        Some(dir) => String::from_str(dir),
        None => String::from_str("C:\\Program Files"),
    }
}

impl SystemPaths {
    /// The system paths: `system32` and then `program_files` as read-only
    /// mounts, each only if it exists, and `path_var` (the value of `PATH`)
    /// as the default path, empty when unset.
    pub fn assemble(
        system_type: SystemType,
        system32: String,
        system32_exists: bool,
        program_files: String,
        program_files_exists: bool,
        path_var: Option<String>,
    ) -> (paths: SystemPaths)
        ensures
            paths.system_type == system_type,
            paths.readonly_mounts.deep_view() == (if system32_exists {
                seq![system32@]
            } else {
                Seq::<Seq<char>>::empty()
            }) + (if program_files_exists {
                seq![program_files@]
            } else {
                Seq::<Seq<char>>::empty()
            }),
            paths.default_path@ == (match path_var {
                Some(p) => p@,
                None => Seq::<char>::empty(),
            }),
    {
        let ghost s32 = system32@;
        let ghost pf = program_files@;
        let mut readonly_mounts: Vec<String> = Vec::new();
        if system32_exists {
            readonly_mounts.push(system32);
        }
        if program_files_exists {
            readonly_mounts.push(program_files);
        }
        let default_path = match path_var {
            Some(p) => p,
            None => String::new(),
        };
        proof {
            assert(readonly_mounts.deep_view() =~= (if system32_exists {
                seq![s32]
            } else {
                Seq::<Seq<char>>::empty()
            }) + (if program_files_exists {
                seq![pf]
            } else {
                Seq::<Seq<char>>::empty()
            }));
        }
        SystemPaths { system_type, readonly_mounts, default_path }
    }
}

/// Nix store paths do not exist on Windows: always false.
pub fn is_nix_store_path(path: &str) -> (r: bool)
    ensures
        !r,
{
    false
}

/// Guix store paths do not exist on Windows: always false.
pub fn is_guix_store_path(path: &str) -> (r: bool)
    ensures
        !r,
{
    false
}

/// No path lies in a package store on Windows: always `None`.
pub fn get_store_path(path: &str) -> (r: Option<String>)
    ensures
        r is None,
{
    None
}

} // verus!
