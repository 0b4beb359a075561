//! The error taxonomy of the library.
//!
//! Every public operation reports failure through [`MultiStreamError`]: a
//! kind drawn from a closed taxonomy plus a descriptive message. Nothing is
//! retried or swallowed; the decision to retry, reconnect, or abort belongs
//! to the caller.

use vstd::prelude::*;

verus! {

/// The kinds of failure the transport layer distinguishes.
#[derive(Clone, Copy, Debug, PartialEq, Eq, Structural)]
pub enum ErrorKind {
    /// A host string could not be turned into a network endpoint.
    Resolution,
    /// An underlying connect/bind/listen/accept operation failed.
    Connection,
    /// A TLS handshake failed; kept distinct from `Connection` so callers
    /// can tell transport failure from security failure.
    Handshake,
    /// The caller invoked an operation against an intent whose role does not
    /// match the call site, or omitted a credential where one was required.
    IllegalState,
    /// A send or receive failed mid-stream on a broken connection.
    Io,
}

/// A descriptive failure: an [`ErrorKind`] plus a human-readable message.
#[derive(Debug)]
pub struct MultiStreamError {
    pub kind: ErrorKind,
    pub message: String,
}

impl View for MultiStreamError {
    type V = ErrorKind;

    open spec fn view(&self) -> ErrorKind {
        self.kind
    }
}

/// The mathematical image of an operation's outcome: the view of the value
/// on success, the kind of the error on failure.
pub open spec fn result_view<T: View>(r: Result<T, MultiStreamError>) -> Result<T::V, ErrorKind> {
    match r {
        Ok(v) => Ok(v@),
        Err(e) => Err(e@),
    }
}

impl MultiStreamError {
    /// Builds an error of the given kind carrying the given message.
    pub fn new(kind: ErrorKind, message: String) -> (r: MultiStreamError)
        ensures
            r.kind == kind,
            r.message@ == message@,
    {
        MultiStreamError { kind, message }
    }
}

} // verus!
