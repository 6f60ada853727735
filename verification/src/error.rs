//! The error taxonomy: a closed set of failure kinds paired with a
//! human-readable diagnostic message.  Every fallible operation of the
//! library reports its failure through exactly one of these values.

use vstd::prelude::*;

verus! {

/// The closed set of failure kinds.
#[derive(Clone, Copy, PartialEq, Eq, Structural, Debug)]
pub enum CursedError {
    /// The running platform is not supported.
    OS,
    /// An input could not be converted to the required form.
    Parse,
    /// The OS refused to create the underlying handle.
    Initialize,
    /// An OS or capture-library socket operation failed.
    Sockets,
    /// A bounded wait elapsed before the operation completed.
    TimeOut,
    /// A caller-supplied argument named nothing on this system.
    InvalidArgument,
}

/// An error value: a kind together with the reason it was raised.
#[derive(Debug)]
pub struct CursedErrorHandle {
    pub kind: CursedError,
    pub reason: String,
}

impl CursedErrorHandle {
    /// Wraps a kind and a diagnostic message into an error value.
    pub fn new(kind: CursedError, reason: String) -> (r: Self)
        ensures
            r.kind == kind,
            r.reason == reason,
    {
        Self { kind, reason }
    }

    /// The kind this error was raised with.
    pub fn get_kind(&self) -> (k: CursedError)
        ensures
            k == self.kind,
    {
        self.kind
    }

    /// The diagnostic message this error was raised with.
    pub fn get_reason(&self) -> (r: &String)
        ensures
            r == &self.reason,
    {
        &self.reason
    }
}

} // verus!
