//! Errors of the security lockdown applied at process creation.

use vstd::prelude::*;
use vstd::string::*;

use crate::io_error::io_error_text;
use crate::text::{has_prefix, labelled};

verus! {

/// Error during security lockdown.
#[derive(Debug)]
pub enum LockdownError {
    JobObject(std::io::Error),
    AppContainer(std::io::Error),
    RestrictedToken(std::io::Error),
    IntegrityLevel(std::io::Error),
    DesktopIsolation(std::io::Error),
}

impl LockdownError {
    /// The text that the message of this error begins with, naming the
    /// failed layer.
    pub open spec fn label(&self) -> Seq<char> {
        match self {
            LockdownError::JobObject(_) => "job object: "@,
            LockdownError::AppContainer(_) => "app container: "@,
            LockdownError::RestrictedToken(_) => "restricted token: "@,
            LockdownError::IntegrityLevel(_) => "integrity level: "@,
            LockdownError::DesktopIsolation(_) => "desktop isolation: "@,
        }
    }

    /// The I/O error that this error wraps.
    pub open spec fn io_source(&self) -> std::io::Error {
        match self {
            LockdownError::JobObject(e) => *e,
            LockdownError::AppContainer(e) => *e,
            LockdownError::RestrictedToken(e) => *e,
            LockdownError::IntegrityLevel(e) => *e,
            LockdownError::DesktopIsolation(e) => *e,
        }
    }

    /// The message of this error when its I/O error reads `io_text`.
    pub open spec fn message_for(&self, io_text: Seq<char>) -> Seq<char> {
        self.label() + io_text
    }

    /// The I/O error that this error wraps.
    pub fn wrapped_io(&self) -> (e: &std::io::Error)
        ensures
            *e == self.io_source(),
    {
        match self {
            LockdownError::JobObject(e) => e,
            LockdownError::AppContainer(e) => e,
            LockdownError::RestrictedToken(e) => e,
            LockdownError::IntegrityLevel(e) => e,
            LockdownError::DesktopIsolation(e) => e,
        }
    }

    /// The message of this error when its I/O error reads `io_text`: the
    /// failed layer, then that text.
    pub fn message_with(&self, io_text: &str) -> (s: String)
        ensures
            s@ == self.message_for(io_text@),
    {
        match self {
            LockdownError::JobObject(_) => labelled("job object: ", io_text),
            LockdownError::AppContainer(_) => labelled("app container: ", io_text),
            LockdownError::RestrictedToken(_) => labelled("restricted token: ", io_text),
            LockdownError::IntegrityLevel(_) => labelled("integrity level: ", io_text),
            LockdownError::DesktopIsolation(_) => labelled("desktop isolation: ", io_text),
        }
    }

    /// The message of this error: the failed layer, then the display text of
    /// the wrapped I/O error, which the operating system may supply.
    pub fn to_string(&self) -> (s: String)
        ensures
            has_prefix(s@, self.label()),
    {
        let text = io_error_text(self.wrapped_io());
        let s = self.message_with(text.as_str());
        assert(s@.take(self.label().len() as int) =~= self.label());
        s
    }
}

} // verus!
