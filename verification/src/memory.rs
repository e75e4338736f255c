//! A vault of one slot that lives in memory.
//!
//! It reports as the operating system's vault does: a read or a deletion that
//! finds no secret fails with `ErrorKind::NotFound`. It is never unavailable,
//! so it gives no other failure.

use vstd::prelude::*;
use crate::error::{ErrorKind, StoreError, StoreFault};
use crate::error::report_view;

verus! {

/// The message of the failure that reports an empty slot.
pub const NOT_FOUND_MESSAGE: &'static str = "No matching entry found in secure storage";

/// The failure that reports an empty slot.
pub open spec fn not_found_fault() -> StoreFault {
    StoreFault { kind: ErrorKind::NotFound, message: NOT_FOUND_MESSAGE@ }
}

/// What a write reports: it always succeeds.
pub open spec fn write_report() -> Result<(), StoreFault> {
    Ok(())
}

/// What a read reports of a slot that holds `held`.
pub open spec fn read_report(held: Option<Seq<char>>) -> Result<Seq<char>, StoreFault> {
    match held {
        Some(secret) => Ok(secret),
        None => Err(not_found_fault()),
    }
}

/// What a deletion reports of a slot that held `held` before it.
pub open spec fn delete_report(held: Option<Seq<char>>) -> Result<(), StoreFault> {
    match held {
        Some(_) => Ok(()),
        None => Err(not_found_fault()),
    }
}

/// One slot for a secret. Its view is the secret it holds, if any.
pub struct MemoryVault {
    secret: Option<String>,
}

impl View for MemoryVault {
    type V = Option<Seq<char>>;

    closed spec fn view(&self) -> Option<Seq<char>> {
        match self.secret {
            Some(secret) => Some(secret@),
            None => None,
        }
    }
}

impl MemoryVault {
    /// A vault with an empty slot.
    pub fn new() -> (vault: MemoryVault)
        ensures
            vault@ is None,
    {
        MemoryVault { secret: None }
    }

    /// Puts `secret` in the slot, in place of what it held.
    pub fn set_password(&mut self, secret: &str) -> (report: Result<(), StoreError>)
        ensures
            report_view(report) == write_report(),
            final(self)@ == Some(secret@),
    {
        self.secret = Some(secret.to_owned());
        Ok(())
    }

    /// Reads the slot and leaves it as it is.
    pub fn get_password(&self) -> (report: Result<String, StoreError>)
        ensures
            report_view(report) == read_report(self@),
    {
        match &self.secret {
            Some(secret) => Ok(secret.clone()),
            None => Err(
                StoreError { kind: ErrorKind::NotFound, message: NOT_FOUND_MESSAGE.to_owned() },
            ),
        }
    }

    /// Empties the slot, and reports whether it held a secret.
    pub fn delete_password(&mut self) -> (report: Result<(), StoreError>)
        ensures
            report_view(report) == delete_report(old(self)@),
            final(self)@ is None,
    {
        match self.secret.take() {
            Some(_) => Ok(()),
            None => Err(
                StoreError { kind: ErrorKind::NotFound, message: NOT_FOUND_MESSAGE.to_owned() },
            ),
        }
    }
}

} // verus!
