//! Windows back end.
//!
//! Resource limits become Job Object limits, filesystem and network access
//! an AppContainer, privilege reduction a restricted untrusted token.

pub mod executor;
pub mod lockdown;
pub mod monitor;
pub mod notify;
pub mod policy;
pub mod sysinfo;
