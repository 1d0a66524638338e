//! In-memory adapter for the second buffer's write and read ports.
//!
//! Bounded flavour: a write that would push the queue past its capacity
//! fails with `Full` and leaves the queue unchanged.  Reads drain from the
//! front and signal `Closed` once the queue is empty.

use vstd::prelude::*;
use crate::domain::{BufferError, InfView, InferredTransaction};
use crate::ports::{Buffer2, Buffer2Read, inf_views};

verus! {

/// Bounded FIFO queue of inferred transactions backed by a vector.
pub struct InMemoryBuffer2 {
    inner: Vec<InferredTransaction>,
    capacity: usize,
}

impl InMemoryBuffer2 {
    /// Queued records, head first.
    pub closed spec fn queued(&self) -> Seq<InfView> {
        inf_views(self.inner@)
    }

    /// The bound this buffer was created with.
    pub closed spec fn bound(&self) -> usize {
        self.capacity
    }

    /// Create an empty buffer that holds at most `capacity` records.
    pub fn new(capacity: usize) -> (r: InMemoryBuffer2)
        ensures
            r.queued().len() == 0,
            r.bound() == capacity,
    {
        InMemoryBuffer2 { inner: Vec::new(), capacity }
    }
}

impl Buffer2 for InMemoryBuffer2 {
    open spec fn contents(&self) -> Seq<InfView> {
        self.queued()
    }

    open spec fn is_closed(&self) -> bool {
        false
    }

    open spec fn accepts(&self, n: nat) -> bool {
        self.queued().len() + n <= self.bound()
    }

    open spec fn full_capacity(&self) -> usize {
        self.bound()
    }

    /// Append `batch` at the tail, or fail with `Full` if it does not fit.
    fn write_batch(&mut self, batch: Vec<InferredTransaction>) -> (r: Result<(), BufferError>)
        ensures
            !old(self).accepts(batch@.len() as nat) ==> r == Err::<(), BufferError>(
                BufferError::Full { capacity: old(self).bound() },
            ),
            final(self).bound() == old(self).bound(),
    {
        if batch.len() > self.capacity || self.inner.len() > self.capacity - batch.len() {
            Err(BufferError::Full { capacity: self.capacity })
        } else {
            let mut moved = batch;
            let ghost incoming = moved@;
            self.inner.append(&mut moved);
            proof {
                assert(inf_views(self.inner@) =~= old(self).queued() + inf_views(incoming));
            }
            Ok(())
        }
    }
}

impl Buffer2Read for InMemoryBuffer2 {
    open spec fn read_contents(&self) -> Seq<InfView> {
        self.queued()
    }

    /// Drain up to `max` records from the front; `Closed` once empty.
    fn read_batch(&mut self, max: usize) -> (r: Result<Vec<InferredTransaction>, BufferError>) {
        if self.inner.len() == 0 {
            Err(BufferError::Closed)
        } else {
            let count = if max < self.inner.len() { max } else { self.inner.len() };
            let mut tail = self.inner.split_off(count);
            core::mem::swap(&mut self.inner, &mut tail);
            proof {
                assert(inf_views(tail@) =~= old(self).queued().take(tail@.len() as int));
                assert(inf_views(self.inner@) =~= old(self).queued().skip(tail@.len() as int));
            }
            Ok(tail)
        }
    }
}

} // verus!
