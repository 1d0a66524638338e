//! Buffer between consumer and logger, fit for a cooperative scheduler.
//!
//! Same discipline as
//! [`ConcurrentBuffer`](crate::adapters::concurrent_buffer::ConcurrentBuffer),
//! over inferred transactions.

use vstd::prelude::*;
use crate::domain::{BufferError, InfView, InferredTransaction};
use crate::ports::{Buffer2, inf_views};
use crate::adapters::concurrent_buffer::ReadAttempt;

verus! {

/// FIFO queue of inferred transactions with an open/closed flag, drained
/// from the head, that reports `Pending` instead of `Closed` while data may
/// still arrive.
pub struct ConcurrentBuffer2 {
    data: Vec<InferredTransaction>,
    closed: bool,
}

impl ConcurrentBuffer2 {
    /// Queued records, head first.
    pub closed spec fn queued(&self) -> Seq<InfView> {
        inf_views(self.data@)
    }

    /// Whether end-of-data has been signalled.
    pub closed spec fn closed(&self) -> bool {
        self.closed
    }

    /// Create an empty, open buffer.
    pub fn new() -> (r: ConcurrentBuffer2)
        ensures
            r.queued().len() == 0,
            !r.closed(),
    {
        ConcurrentBuffer2 { data: Vec::new(), closed: false }
    }

    /// Signal end-of-data.  Idempotent; queued items stay readable.
    pub fn close(&mut self)
        ensures
            final(self).closed(),
            final(self).queued() == old(self).queued(),
    {
        self.closed = true;
    }

    /// One non-blocking read attempt: drain up to `max` records from the
    /// head, or report why nothing can be drained right now.
    ///
    /// While the buffer is open, an empty queue yields `Pending`, never
    /// `Closed`; `Closed` comes only once the buffer is both drained and
    /// closed.  Failed attempts leave the buffer unchanged.
    pub fn try_read_batch(&mut self, max: usize) -> (r: ReadAttempt<InferredTransaction>)
        requires
            max >= 1,
        ensures
            final(self).closed() == old(self).closed(),
            match r {
                ReadAttempt::Batch(batch) => {
                    &&& old(self).queued().len() > 0
                    &&& batch@.len() == vstd::math::min(max as int, old(self).queued().len() as int)
                    &&& inf_views(batch@) == old(self).queued().take(batch@.len() as int)
                    &&& final(self).queued() == old(self).queued().skip(batch@.len() as int)
                },
                ReadAttempt::Pending => {
                    &&& old(self).queued().len() == 0
                    &&& !old(self).closed()
                    &&& final(self).queued() == old(self).queued()
                },
                ReadAttempt::Closed => {
                    &&& old(self).queued().len() == 0
                    &&& old(self).closed()
                    &&& final(self).queued() == old(self).queued()
                },
            },
    {
        if self.data.len() > 0 {
            let count = if max < self.data.len() { max } else { self.data.len() };
            let mut tail = self.data.split_off(count);
            core::mem::swap(&mut self.data, &mut tail);
            proof {
                assert(inf_views(tail@) =~= old(self).queued().take(tail@.len() as int));
                assert(inf_views(self.data@) =~= old(self).queued().skip(tail@.len() as int));
            }
            ReadAttempt::Batch(tail)
        } else if self.closed {
            ReadAttempt::Closed
        } else {
            ReadAttempt::Pending
        }
    }
}

impl Buffer2 for ConcurrentBuffer2 {
    open spec fn contents(&self) -> Seq<InfView> {
        self.queued()
    }

    open spec fn is_closed(&self) -> bool {
        self.closed()
    }

    open spec fn accepts(&self, n: nat) -> bool {
        true
    }

    open spec fn full_capacity(&self) -> usize {
        usize::MAX
    }

    /// Append `batch` at the tail if the buffer is open.
    fn write_batch(&mut self, batch: Vec<InferredTransaction>) -> (r: Result<(), BufferError>) {
        if self.closed {
            Err(BufferError::Closed)
        } else {
            let mut moved = batch;
            let ghost incoming = moved@;
            self.data.append(&mut moved);
            proof {
                assert(inf_views(self.data@) =~= old(self).queued() + inf_views(incoming));
            }
            Ok(())
        }
    }
}

} // verus!
