//! The failures the library reports.

use vstd::prelude::*;

verus! {

/// `reqwest::Error`, the error with which the HTTP client reports a request
/// that it could not build or send, or a body that it could not read. Nothing
/// is claimed of a value of it: the library carries it, unread, from the
/// transport to the caller as the cause of a failed fetch.
#[verifier::external_type_specification]
#[verifier::external_body]
pub struct ExTransportError(reqwest::Error);

/// A GET that produced no body: the request could not be built or sent, no
/// response arrived, or the body could not be read.
#[derive(Debug)]
pub struct FetchError {
    /// What the transport reported.
    pub cause: reqwest::Error,
}

/// Why a capability could not be recovered from a slot.
#[derive(Clone, Copy, Debug, PartialEq, Eq, Structural)]
pub enum RetrieveError {
    /// The slot holds nothing.
    NotPresent,
    /// The slot holds a value that was stored under another tag.
    TagMismatch,
}

/// A function was called without an argument it cannot do without.
#[derive(Clone, Copy, Debug, PartialEq, Eq, Structural)]
pub struct MissingArgument {
    /// Position of the absent argument, counted from zero.
    pub position: usize,
}

} // verus!
