//! Adapter for the storage port standing in for an unreachable backend.
//!
//! Every write fails with `Unavailable` and stores nothing, which
//! exercises the terminal error path of the logger.

use vstd::prelude::*;
use crate::domain::{PendView, PendingTransaction, StorageError};
use crate::ports::Storage;

verus! {

/// Storage whose backend cannot be reached.
pub struct OfflineStorage {
    marker: Ghost<()>,
}

impl OfflineStorage {
    /// Create a new offline store.
    pub fn new() -> (r: OfflineStorage)
        ensures
            r.contents() == Seq::<PendView>::empty(),
    {
        OfflineStorage { marker: Ghost(()) }
    }
}

impl Storage for OfflineStorage {
    open spec fn contents(&self) -> Seq<PendView> {
        Seq::empty()
    }

    open spec fn accepts(&self, n: nat) -> bool {
        false
    }

    open spec fn full_capacity(&self) -> usize {
        0
    }

    /// Always fails with `Unavailable`; nothing is stored.
    fn write_batch(&mut self, batch: Vec<PendingTransaction>) -> (r: Result<(), StorageError>)
        ensures
            r == Err::<(), StorageError>(StorageError::Unavailable),
    {
        Err(StorageError::Unavailable)
    }
}

} // verus!
