//! The per-request slot that carries a rejection from the point where the
//! body is taken in to the catch-all renderer.
use vstd::prelude::*;
use crate::errors::JsonBodyError;

verus! {

/// Holds at most one recorded error for one request. The first error
/// written stays: later writes leave it as it is.
#[derive(Debug)]
pub struct ErrorSlot {
    error: JsonBodyError,
}

/// The slot's content after writing `e` into a slot holding `current`.
pub open spec fn after_set(current: JsonBodyError, e: JsonBodyError) -> JsonBodyError {
    if current is NoError {
        e
    } else {
        current
    }
}

/// Once an error is recorded, any further write leaves it unchanged; on a
/// fresh slot the first error written is the one that is read back.
pub proof fn lemma_first_error_kept(current: JsonBodyError, first: JsonBodyError, second: JsonBodyError)
    requires
        !(first is NoError),
    ensures
        after_set(after_set(current, first), second) == after_set(current, first),
        current is NoError ==> after_set(after_set(current, first), second) == first,
{
}

impl ErrorSlot {
    /// What the slot holds.
    pub closed spec fn content(&self) -> JsonBodyError {
        self.error
    }

    /// A fresh slot, holding no error.
    pub fn new() -> (r: ErrorSlot)
        ensures
            r.content() is NoError,
    {
        ErrorSlot { error: JsonBodyError::NoError }
    }

    /// Records `e` unless an error is already recorded; returns whether it
    /// was recorded.
    pub fn set(&mut self, e: JsonBodyError) -> (written: bool)
        ensures
            written == (old(self).content() is NoError),
            final(self).content() == after_set(old(self).content(), e),
    {
        if let JsonBodyError::NoError = self.error {
            self.error = e;
            true
        } else {
            false
        }
    }

    /// What the slot holds; reading changes nothing.
    pub fn get(&self) -> (r: &JsonBodyError)
        ensures
            *r == self.content(),
    {
        &self.error
    }
}

} // verus!
