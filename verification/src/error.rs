//! What the vault reports when a round trip fails.

use vstd::prelude::*;

verus! {

/// The ways in which a round trip to the vault can fail.
#[derive(Clone, Copy, Debug, PartialEq, Eq, Structural)]
pub enum ErrorKind {
    /// The vault could not be opened.
    StoreUnavailable,
    /// The vault holds no secret under the key.
    NotFound,
    /// The vault was reached, and the operation failed for any other reason.
    UnderlyingFailure,
}

/// A failed round trip: its kind, and the message that the vault gave for it.
#[derive(Debug, PartialEq, Eq)]
pub struct StoreError {
    pub kind: ErrorKind,
    pub message: String,
}

/// A `StoreError` as contracts speak of it: the message is a sequence of
/// characters.
pub struct StoreFault {
    pub kind: ErrorKind,
    pub message: Seq<char>,
}

impl View for StoreError {
    type V = StoreFault;

    open spec fn view(&self) -> StoreFault {
        StoreFault { kind: self.kind, message: self.message@ }
    }
}

impl Clone for StoreError {
    fn clone(&self) -> (copy: StoreError)
        ensures
            copy@ == self@,
    {
        StoreError { kind: self.kind, message: self.message.clone() }
    }
}

/// What the vault reported for one round trip, with every string taken by its
/// view.
pub open spec fn report_view<T: View>(report: Result<T, StoreError>) -> Result<T::V, StoreFault> {
    match report {
        Ok(value) => Ok(value@),
        Err(fault) => Err(fault@),
    }
}

} // verus!
