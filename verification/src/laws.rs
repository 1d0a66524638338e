//! Laws that tie the stage and buffer contracts together.
//!
//! The buffer ports promise that a successful write appends the whole
//! batch at the tail and a successful read drains a prefix from the head.
//! The lemmas here lift those contracts to run-long guarantees: the FIFO
//! ledger (everything read, followed by everything still queued, is
//! exactly everything written, in order), and the alarm discipline
//! corollaries of the consumer's contract.

use vstd::prelude::*;
use crate::consumer::{event_ids, fraud_ids, lemma_fraud_ids_all, lemma_fraud_ids_empty};
use crate::domain::InfView;

verus! {

/// The FIFO ledger survives a successful write.
///
/// If everything read so far (`reads`) followed by the current queue `q`
/// is exactly everything written so far (`writes`), then after a write
/// appends `w` at the tail — as the buffer ports promise — the ledger
/// still balances.
pub proof fn lemma_fifo_write_preserves<T>(reads: Seq<T>, q: Seq<T>, writes: Seq<T>, w: Seq<T>)
    requires
        reads + q == writes,
    ensures
        reads + (q + w) == writes + w,
{
    assert(reads + (q + w) =~= (reads + q) + w);
}

/// The FIFO ledger survives a successful read.
///
/// A read drains a prefix of the queue — as the buffer ports promise — so
/// appending the drained prefix to the reads and keeping the rest queued
/// leaves the ledger balanced.
pub proof fn lemma_fifo_read_preserves<T>(reads: Seq<T>, q: Seq<T>, writes: Seq<T>, k: int)
    requires
        reads + q == writes,
        0 <= k <= q.len(),
    ensures
        (reads + q.take(k)) + q.skip(k) == writes,
{
    assert(q.take(k) + q.skip(k) =~= q);
    assert((reads + q.take(k)) + q.skip(k) =~= reads + q);
}

/// FIFO, at the end of a run: once the queue is drained, the sequence
/// returned across all successful reads equals the sequence appended
/// across all successful writes.
pub proof fn lemma_fifo_drained<T>(reads: Seq<T>, q: Seq<T>, writes: Seq<T>)
    requires
        reads + q == writes,
        q.len() == 0,
    ensures
        reads == writes,
{
    assert(reads =~= reads + q);
}

/// One abstract buffer operation, as the write and read ports permit it:
/// a successful write appends its whole batch at the tail; a successful
/// read of `k` items drains `k` from the head.
pub ghost enum QueueOp<T> {
    Write(Seq<T>),
    Read(int),
}

/// The queue left after running `ops` from the initial queue `q0`.
pub open spec fn queue_after<T>(q0: Seq<T>, ops: Seq<QueueOp<T>>) -> Seq<T>
    decreases ops.len(),
{
    if ops.len() == 0 {
        q0
    } else {
        let q = queue_after(q0, ops.drop_last());
        match ops.last() {
            QueueOp::Write(w) => q + w,
            QueueOp::Read(k) => q.skip(k),
        }
    }
}

/// Everything the writes of `ops` appended, in order.
pub open spec fn written<T>(ops: Seq<QueueOp<T>>) -> Seq<T>
    decreases ops.len(),
{
    if ops.len() == 0 {
        Seq::empty()
    } else {
        match ops.last() {
            QueueOp::Write(w) => written(ops.drop_last()) + w,
            QueueOp::Read(k) => written(ops.drop_last()),
        }
    }
}

/// Everything the reads of `ops` returned, in order.
pub open spec fn read_out<T>(q0: Seq<T>, ops: Seq<QueueOp<T>>) -> Seq<T>
    decreases ops.len(),
{
    if ops.len() == 0 {
        Seq::empty()
    } else {
        match ops.last() {
            QueueOp::Write(w) => read_out(q0, ops.drop_last()),
            QueueOp::Read(k) => read_out(q0, ops.drop_last()) + queue_after(
                q0,
                ops.drop_last(),
            ).take(k),
        }
    }
}

/// Every read of `ops` drains no more than what is queued when it runs.
pub open spec fn ops_valid<T>(q0: Seq<T>, ops: Seq<QueueOp<T>>) -> bool
    decreases ops.len(),
{
    if ops.len() == 0 {
        true
    } else {
        &&& ops_valid(q0, ops.drop_last())
        &&& match ops.last() {
            QueueOp::Write(w) => true,
            QueueOp::Read(k) => 0 <= k <= queue_after(q0, ops.drop_last()).len(),
        }
    }
}

/// FIFO, over any run: what began queued plus everything written equals
/// everything read plus what remains queued, in order.  In particular a
/// reader sees items exactly in write order, with no loss, duplication or
/// reordering.
pub proof fn lemma_fifo<T>(q0: Seq<T>, ops: Seq<QueueOp<T>>)
    requires
        ops_valid(q0, ops),
    ensures
        q0 + written(ops) == read_out(q0, ops) + queue_after(q0, ops),
    decreases ops.len(),
{
    if ops.len() == 0 {
        assert(q0 + written(ops) =~= q0);
        assert(read_out(q0, ops) + queue_after(q0, ops) =~= q0);
    } else {
        let dl = ops.drop_last();
        lemma_fifo(q0, dl);
        let reads = read_out(q0, dl);
        let q = queue_after(q0, dl);
        match ops.last() {
            QueueOp::Write(w) => {
                lemma_fifo_write_preserves(reads, q, q0 + written(dl), w);
                assert(q0 + written(ops) =~= (q0 + written(dl)) + w);
                assert(reads + (q + w) =~= read_out(q0, ops) + queue_after(q0, ops));
            },
            QueueOp::Read(k) => {
                lemma_fifo_read_preserves(reads, q, q0 + written(dl), k);
                assert(q0 + written(ops) =~= q0 + written(dl));
                assert((reads + q.take(k)) + q.skip(k) =~= read_out(q0, ops) + queue_after(
                    q0,
                    ops,
                ));
            },
        }
    }
}

/// FIFO, at the end of a complete run: once the queue began empty and ends
/// drained, the sequence returned across all successful reads equals the
/// sequence appended across all successful writes.
pub proof fn lemma_fifo_complete<T>(ops: Seq<QueueOp<T>>)
    requires
        ops_valid(Seq::empty(), ops),
        queue_after(Seq::empty(), ops).len() == 0,
    ensures
        read_out(Seq::empty(), ops) == written(ops),
{
    lemma_fifo(Seq::<T>::empty(), ops);
    lemma_fifo_drained(
        read_out(Seq::<T>::empty(), ops),
        queue_after(Seq::<T>::empty(), ops),
        Seq::<T>::empty() + written(ops),
    );
    assert(Seq::<T>::empty() + written(ops) =~= written(ops));
}

/// Best-effort alarms: a batch with `k` fraudulent records causes exactly
/// `k` delivery attempts, however many of them fail.
///
/// The consumer's contract says the identifiers of the new delivery-log
/// entries are exactly the identifiers of the fraudulent records appended
/// to the second buffer; so the two counts agree.
pub proof fn lemma_alarm_attempt_count(appended: Seq<InfView>, events: Seq<(u128, bool)>)
    requires
        event_ids(events) == fraud_ids(appended),
    ensures
        events.len() == fraud_ids(appended).len(),
{
    assert(event_ids(events).len() == events.len());
}

/// All-fraud saturation: when every appended record is fraudulent, the
/// delivery log gained exactly one entry per record — alarm attempts
/// equal records persisted downstream.
pub proof fn lemma_all_fraud_alarm_count(appended: Seq<InfView>, events: Seq<(u128, bool)>)
    requires
        event_ids(events) == fraud_ids(appended),
        forall|i: int| 0 <= i < appended.len() ==> (#[trigger] appended[i]).predicted_fraud,
    ensures
        events.len() == appended.len(),
{
    lemma_fraud_ids_all(appended);
    lemma_alarm_attempt_count(appended, events);
}

/// Non-fraud quiescence: a batch with no fraudulent record causes no
/// delivery attempt at all — while the consumer's contract still hands
/// the whole batch to the second buffer.
pub proof fn lemma_non_fraud_quiescence(appended: Seq<InfView>, events: Seq<(u128, bool)>)
    requires
        event_ids(events) == fraud_ids(appended),
        forall|i: int| 0 <= i < appended.len() ==> !(#[trigger] appended[i]).predicted_fraud,
    ensures
        events.len() == 0,
{
    lemma_fraud_ids_empty(appended);
    lemma_alarm_attempt_count(appended, events);
}

} // verus!
