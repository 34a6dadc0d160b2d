//! Counters that hand out record ids.
use vstd::prelude::*;

use std::sync::atomic::AtomicU64;
use std::sync::atomic::Ordering;
use std::sync::Arc;

verus! {

/// A second handle on the same allocation, from `Arc::clone`; it points to the same value.
#[verifier::external_body]
pub(crate) fn share<T>(value: &Arc<T>) -> (r: Arc<T>)
    ensures
        r == *value,
{
    Arc::clone(value)
}

/// A shared counter handing out ids 1, 2, 3, ... to every holder of one of its clones.
pub struct IdSequence {
    counter: Arc<AtomicU64>,
}

impl IdSequence {
    /// The counter this handle draws from; handles with the same counter hand out ids from
    /// one sequence, so no id taken through one of them is taken through another.
    pub closed spec fn shared_counter(&self) -> AtomicU64 {
        *self.counter
    }

    /// A fresh sequence whose first id is 1.
    pub fn starting_at_one() -> IdSequence {
        IdSequence { counter: Arc::new(AtomicU64::new(1)) }
    }

    /// Another handle on the same sequence: ids taken through either are never repeated.
    pub fn clone_handle(&self) -> (r: IdSequence)
        ensures
            r.shared_counter() == self.shared_counter(),
    {
        IdSequence { counter: share(&self.counter) }
    }

    /// The next id of the sequence.
    pub(crate) fn next_id(&self) -> u64 {
        self.counter.fetch_add(1, Ordering::Relaxed)
    }
}

} // verus!
