//! In-memory adapter for the storage port.
//!
//! Bounded flavour: a write that would push the store past its capacity
//! fails with `CapacityExceeded` and leaves the store unchanged.
//! `Unavailable` is part of the port contract but never returned here; it
//! is reserved for backends that can actually be unreachable.

use vstd::prelude::*;
use crate::domain::{PendView, PendingTransaction, StorageError};
use crate::ports::{Storage, pend_views};

verus! {

/// Bounded store of pending transactions backed by a vector.
pub struct InMemoryStorage {
    inner: Vec<PendingTransaction>,
    capacity: usize,
}

impl InMemoryStorage {
    /// Persisted records, oldest first.
    pub closed spec fn stored(&self) -> Seq<PendView> {
        pend_views(self.inner@)
    }

    /// The bound this store was created with.
    pub closed spec fn bound(&self) -> usize {
        self.capacity
    }

    /// Create an empty store that holds at most `capacity` records.
    pub fn new(capacity: usize) -> (r: InMemoryStorage)
        ensures
            r.stored().len() == 0,
            r.bound() == capacity,
    {
        InMemoryStorage { inner: Vec::new(), capacity }
    }

    /// The number of stored records.
    pub fn len(&self) -> (r: usize)
        ensures
            r == self.stored().len(),
    {
        self.inner.len()
    }

    /// A copy of the stored records, oldest first.
    pub fn records(&self) -> (r: Vec<PendingTransaction>)
        ensures
            pend_views(r@) == self.stored(),
    {
        let mut out: Vec<PendingTransaction> = Vec::new();
        let mut i: usize = 0;
        while i < self.inner.len()
            invariant
                i <= self.inner.len(),
                out@.len() == i,
                forall|j: int| 0 <= j < i ==> (#[trigger] out@[j])@ == self.inner@[j]@,
            decreases self.inner.len() - i,
        {
            out.push(self.inner[i].clone());
            i = i + 1;
        }
        proof {
            assert(pend_views(out@) =~= self.stored());
        }
        out
    }
}

impl Storage for InMemoryStorage {
    open spec fn contents(&self) -> Seq<PendView> {
        self.stored()
    }

    open spec fn accepts(&self, n: nat) -> bool {
        self.stored().len() + n <= self.bound()
    }

    open spec fn full_capacity(&self) -> usize {
        self.bound()
    }

    /// Append `batch`, or fail with `CapacityExceeded` if it does not fit.
    fn write_batch(&mut self, batch: Vec<PendingTransaction>) -> (r: Result<(), StorageError>)
        ensures
            !old(self).accepts(batch@.len() as nat) ==> r == Err::<(), StorageError>(
                StorageError::CapacityExceeded { capacity: old(self).bound() },
            ),
            final(self).bound() == old(self).bound(),
    {
        if batch.len() > self.capacity || self.inner.len() > self.capacity - batch.len() {
            Err(StorageError::CapacityExceeded { capacity: self.capacity })
        } else {
            let mut moved = batch;
            let ghost incoming = moved@;
            self.inner.append(&mut moved);
            proof {
                assert(pend_views(self.inner@) =~= old(self).stored() + pend_views(incoming));
            }
            Ok(())
        }
    }
}

} // verus!
