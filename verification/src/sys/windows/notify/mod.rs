//! Process monitoring and event tracing for Windows.

pub mod etw;
