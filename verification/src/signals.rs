//! The result carrier: an identity and either an owned payload or an error
//! text.

use vstd::prelude::*;
use crate::ident::{fresh_id, is_random_id, lemma_random_id_not_nil};

verus! {

/// Carries the outcome of an asynchronous operation to whoever waits for it.
///
/// The payload's type is chosen where the carrier is made. It must be `Send`
/// and `Sync`, so that a carrier can move to another thread and be read there
/// by several readers.
pub struct Signal<T: Send + Sync> {
    pub id: u128,
    pub result: Result<T, String>,
}

impl<T: Send + Sync> Signal<T> {
    /// Whether the carrier holds a payload.
    pub open spec fn holds_payload(&self) -> bool {
        self.result is Ok
    }

    /// Whether the carrier holds an error text.
    pub open spec fn holds_error(&self) -> bool {
        self.result is Err
    }

    /// Wraps an outcome and gives it a fresh random identity.
    pub fn new(result: Result<T, String>) -> (s: Signal<T>)
        ensures
            s.result == result,
            is_random_id(s.id),
            s.id != 0,
    {
        let id = fresh_id();
        proof {
            lemma_random_id_not_nil(id);
        }
        Signal { id, result }
    }

    /// Whether the operation succeeded.
    pub fn is_ok(&self) -> (r: bool)
        ensures
            r == self.holds_payload(),
    {
        self.result.is_ok()
    }

    /// Whether the operation failed.
    pub fn is_err(&self) -> (r: bool)
        ensures
            r == self.holds_error(),
    {
        self.result.is_err()
    }

    /// Tells the two arms apart by matching on the outcome.
    pub fn type_check(&self) -> (r: bool)
        ensures
            r == self.holds_payload(),
    {
        match &self.result {
            Ok(_) => true,
            Err(_) => false,
        }
    }
}

/// A carrier holds a payload or an error text: exactly one of the two.
pub proof fn lemma_signal_exclusive<T: Send + Sync>(s: Signal<T>)
    ensures
        s.holds_payload() != s.holds_error(),
{
}

} // verus!
