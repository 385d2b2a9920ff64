//! Policy compilation and result handling for a process sandbox.
//!
//! The library translates a platform-neutral execution [`plan::Plan`] into the
//! concrete isolation primitives of Linux (Landlock, seccomp, rlimits) and of
//! Windows (Job Object, AppContainer, restricted token), and models the
//! results that a sandboxed run hands back.

pub mod fuzz_input;
pub mod io_error;
pub mod output;
pub mod plan;
pub mod sys;
pub mod text;

pub use plan::{Mount, NotifyMode, Plan, Syscalls};
pub use sys::windows::executor::{Event, Executor, ExecutorError, SandboxId};
pub use sys::windows::monitor::{Output, Status};
