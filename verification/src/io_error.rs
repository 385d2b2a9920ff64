//! `std::io::Error` and its kind as they appear in the library's signatures.

use vstd::prelude::*;

verus! {

/// `std::io::Error`, carried through the library without being inspected.
#[verifier::external_type_specification]
#[verifier::external_body]
pub struct ExIoError(std::io::Error);

/// `std::io::ErrorKind`, whose variants verified code names.
#[verifier::external_type_specification]
pub struct ExIoErrorKind(std::io::ErrorKind);

/// The kind of an I/O error, as `std::io::Error::kind` reports it.
pub uninterp spec fn io_error_kind(e: std::io::Error) -> std::io::ErrorKind;

/// `std::io::Error::new`: an error of kind `kind` carrying the message `msg`.
/// Its `kind()` is `kind`; nothing is stated of the message.
#[verifier::external_body]
pub(crate) fn io_error_new(kind: std::io::ErrorKind, msg: &str) -> (e: std::io::Error)
    ensures
        io_error_kind(e) == kind,
{
    std::io::Error::new(kind, msg.to_owned())
}

/// `ToString::to_string` on an I/O error: its display text. For errors that
/// come from the operating system the text is the system's, so nothing is
/// stated of it.
#[verifier::external_body]
pub(crate) fn io_error_text(e: &std::io::Error) -> String {
    e.to_string()
}

} // verus!
