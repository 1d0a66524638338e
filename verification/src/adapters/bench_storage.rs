//! Discard adapter for the storage port.
//!
//! Counts received records and drops every batch immediately, so pipeline
//! throughput can be measured without storage cost.  The stored sequence is
//! tracked only in ghost state.

use vstd::prelude::*;
use crate::domain::{PendView, PendingTransaction, StorageError};
use crate::ports::{Storage, pend_views};

verus! {

/// Storage that counts records and discards them.
pub struct BenchStorage {
    count: usize,
    history: Ghost<Seq<PendView>>,
}

impl BenchStorage {
    /// How many records have been received so far.
    pub closed spec fn counted(&self) -> usize {
        self.count
    }

    /// Create a discard store with a zero record count.
    pub fn new() -> (r: BenchStorage)
        ensures
            r.contents() == Seq::<PendView>::empty(),
            r.counted() == 0,
    {
        BenchStorage { count: 0, history: Ghost(Seq::empty()) }
    }

    /// The cumulative number of records received so far.
    pub fn count(&self) -> (r: usize)
        ensures
            r == self.counted(),
    {
        self.count
    }
}

impl Storage for BenchStorage {
    closed spec fn contents(&self) -> Seq<PendView> {
        self.history@
    }

    open spec fn accepts(&self, n: nat) -> bool {
        self.counted() + n <= usize::MAX
    }

    open spec fn full_capacity(&self) -> usize {
        usize::MAX
    }

    /// Add `batch.len()` to the counter and drop the batch.
    fn write_batch(&mut self, batch: Vec<PendingTransaction>) -> (r: Result<(), StorageError>)
        ensures
            r is Ok ==> final(self).counted() == old(self).counted() + batch@.len(),
    {
        if batch.len() > usize::MAX - self.count {
            Err(StorageError::CapacityExceeded { capacity: usize::MAX })
        } else {
            self.count = self.count + batch.len();
            self.history = Ghost(self.history@ + pend_views(batch@));
            Ok(())
        }
    }
}

} // verus!
