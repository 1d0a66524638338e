//! Bounded in-memory adapter for the first buffer's write port.
//!
//! A write that would push the queue past its capacity fails with `Full`
//! and leaves the queue unchanged.

use vstd::prelude::*;
use crate::domain::{BufferError, Transaction, TxView};
use crate::ports::{Buffer1, tx_views};

verus! {

/// Bounded FIFO queue of transactions backed by a vector.
pub struct BoundedBuffer {
    inner: Vec<Transaction>,
    capacity: usize,
}

impl BoundedBuffer {
    /// Queued transactions, head first.
    pub closed spec fn queued(&self) -> Seq<TxView> {
        tx_views(self.inner@)
    }

    /// The bound this buffer was created with.
    pub closed spec fn bound(&self) -> usize {
        self.capacity
    }

    /// Create an empty buffer that holds at most `capacity` transactions.
    pub fn new(capacity: usize) -> (r: BoundedBuffer)
        ensures
            r.queued().len() == 0,
            r.bound() == capacity,
    {
        BoundedBuffer { inner: Vec::new(), capacity }
    }

    /// The number of queued transactions.
    pub fn len(&self) -> (r: usize)
        ensures
            r == self.queued().len(),
    {
        self.inner.len()
    }
}

impl Buffer1 for BoundedBuffer {
    open spec fn contents(&self) -> Seq<TxView> {
        self.queued()
    }

    open spec fn is_closed(&self) -> bool {
        false
    }

    open spec fn accepts(&self, n: nat) -> bool {
        self.queued().len() + n <= self.bound()
    }

    open spec fn full_capacity(&self) -> usize {
        self.bound()
    }

    /// Append `batch` at the tail, or fail with `Full` if it does not fit.
    fn write_batch(&mut self, batch: Vec<Transaction>) -> (r: Result<(), BufferError>)
        ensures
            !old(self).accepts(batch@.len() as nat) ==> r == Err::<(), BufferError>(
                BufferError::Full { capacity: old(self).bound() },
            ),
            final(self).bound() == old(self).bound(),
    {
        if batch.len() > self.capacity || self.inner.len() > self.capacity - batch.len() {
            Err(BufferError::Full { capacity: self.capacity })
        } else {
            let mut moved = batch;
            let ghost incoming = moved@;
            self.inner.append(&mut moved);
            proof {
                assert(tx_views(self.inner@) =~= old(self).queued() + tx_views(incoming));
            }
            Ok(())
        }
    }
}

} // verus!
