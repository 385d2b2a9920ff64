//! Consumer of traced events (file, process and network activity).

use vstd::prelude::*;

use crate::plan::NotifyMode;

verus! {

/// An event observed in a sandboxed process.
#[derive(Debug)]
pub struct NotifyEvent {
    /// Process that triggered the event.
    pub pid: u32,
    /// Thread that triggered the event.
    pub tid: u32,
    /// What kind of operation was observed.
    pub event_type: EventType,
}

/// Kinds of observed operations.
#[derive(Debug, Clone, Copy)]
pub enum EventType {
    /// File operation (open, read, write, delete).
    FileIo,
    /// Process creation or termination.
    Process,
    /// Network connection attempt.
    Network,
}

/// Event consumer running in the given observation mode.
pub struct EtwConsumer {
    mode: NotifyMode,
}

impl EtwConsumer {
    /// The observation mode of the consumer.
    pub closed spec fn observed_mode(&self) -> NotifyMode {
        self.mode
    }

    /// A consumer for `mode`.
    pub fn new(mode: NotifyMode) -> (consumer: Self)
        ensures
            consumer.observed_mode() == mode,
    {
        EtwConsumer { mode }
    }
}

} // verus!
