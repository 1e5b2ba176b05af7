//! The error returned by an attempt to run a job on a queue that is busy.
use vstd::prelude::*;
use std::io::ErrorKind;

verus! {

/// `std::io::ErrorKind`, whose variants the contracts below name.
#[verifier::external_type_specification]
pub struct ExErrorKind(std::io::ErrorKind);

/// Possible error conditions from a `try_sync()` call on the scheduler
#[derive(Clone, Copy, PartialEq, Eq, Debug, Structural)]
pub enum TrySyncError {
    /// The queue is busy, so the function has not been executed
    Busy,
}

impl TrySyncError {
    /// The I/O error kind that stands for this error: a busy queue would block.
    pub fn into_error_kind(self) -> (kind: ErrorKind)
        ensures
            kind == ErrorKind::WouldBlock,
    {
        match self {
            TrySyncError::Busy => ErrorKind::WouldBlock,
        }
    }
}

impl From<TrySyncError> for ErrorKind {
    fn from(error: TrySyncError) -> (kind: ErrorKind) {
        error.into_error_kind()
    }
}

impl vstd::std_specs::convert::FromSpecImpl<TrySyncError> for ErrorKind {
    open spec fn obeys_from_spec() -> bool {
        true
    }

    /// Every `TrySyncError` converts to `ErrorKind::WouldBlock`.
    open spec fn from_spec(error: TrySyncError) -> ErrorKind {
        ErrorKind::WouldBlock
    }
}

} // verus!
