//! In-memory adapter for the first buffer's write and read ports.
//!
//! The demo flavour: it grows without bound on writes, never signals
//! `Full`, and a drained buffer signals `Closed` on a read instead of
//! waiting for more data.

use vstd::prelude::*;
use crate::domain::{BufferError, Transaction, TxView};
use crate::ports::{Buffer1, Buffer1Read, tx_views};

verus! {

/// FIFO queue of transactions backed by a growable vector; reads drain from
/// the front and signal `Closed` once the queue is empty.
pub struct InMemoryBuffer {
    inner: Vec<Transaction>,
}

impl InMemoryBuffer {
    /// Queued transactions, head first.
    pub closed spec fn queued(&self) -> Seq<TxView> {
        tx_views(self.inner@)
    }

    /// Create an empty buffer.
    pub fn new() -> (r: InMemoryBuffer)
        ensures
            r.queued().len() == 0,
    {
        InMemoryBuffer { inner: Vec::new() }
    }
}

impl Buffer1 for InMemoryBuffer {
    open spec fn contents(&self) -> Seq<TxView> {
        self.queued()
    }

    open spec fn is_closed(&self) -> bool {
        false
    }

    open spec fn accepts(&self, n: nat) -> bool {
        true
    }

    open spec fn full_capacity(&self) -> usize {
        usize::MAX
    }

    /// Append `batch` at the tail.  Never fails.
    fn write_batch(&mut self, batch: Vec<Transaction>) -> (r: Result<(), BufferError>) {
        let mut moved = batch;
        let ghost incoming = moved@;
        self.inner.append(&mut moved);
        proof {
            assert(tx_views(self.inner@) =~= old(self).queued() + tx_views(incoming));
        }
        Ok(())
    }
}

impl Buffer1Read for InMemoryBuffer {
    open spec fn read_contents(&self) -> Seq<TxView> {
        self.queued()
    }

    /// Drain up to `max` transactions from the front; `Closed` once empty.
    fn read_batch(&mut self, max: usize) -> (r: Result<Vec<Transaction>, BufferError>) {
        if self.inner.len() == 0 {
            Err(BufferError::Closed)
        } else {
            let count = if max < self.inner.len() { max } else { self.inner.len() };
            let mut tail = self.inner.split_off(count);
            core::mem::swap(&mut self.inner, &mut tail);
            proof {
                assert(tx_views(tail@) =~= old(self).queued().take(tail@.len() as int));
                assert(tx_views(self.inner@) =~= old(self).queued().skip(tail@.len() as int));
            }
            Ok(tail)
        }
    }
}

} // verus!
