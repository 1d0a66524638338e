//! Port traits the pipeline core depends on: buffers, model, modelizer,
//! alarm and storage.  Each trait states its behaviour over a mathematical
//! model of the implementor, so stages are verified once, for every adapter.

use vstd::prelude::*;
use crate::domain::{
    AlarmError, BufferError, InfView, InferredTransaction, ModelVersion, ModelizerError,
    PendView, PendingTransaction, StorageError, Transaction, TxView, inference_reason_of,
    reason_of,
};

verus! {

/// Images of a sequence of transactions.
pub open spec fn tx_views(s: Seq<Transaction>) -> Seq<TxView> {
    s.map_values(|t: Transaction| t@)
}

/// Images of a sequence of inferred transactions.
pub open spec fn inf_views(s: Seq<InferredTransaction>) -> Seq<InfView> {
    s.map_values(|t: InferredTransaction| t@)
}

/// Images of a sequence of pending transactions.
pub open spec fn pend_views(s: Seq<PendingTransaction>) -> Seq<PendView> {
    s.map_values(|t: PendingTransaction| t@)
}

/// The classification flags carried by a sequence of records, in order.
pub open spec fn flags_of(s: Seq<InfView>) -> Seq<bool> {
    s.map_values(|x: InfView| x.predicted_fraud)
}

/// A prefix of a prefix: if `s1` starts with `s0` and `s2` starts with
/// `s1`, then `s2` still starts with `s0`.
pub proof fn lemma_prefix_trans<T>(s2: Seq<T>, s1: Seq<T>, s0: Seq<T>)
    requires
        s0.len() <= s1.len() <= s2.len(),
        s2.take(s1.len() as int) == s1,
        s1.take(s0.len() as int) == s0,
    ensures
        s2.take(s0.len() as int) == s0,
{
    assert forall|i: int| 0 <= i < s0.len() implies s2.take(s0.len() as int)[i] == s0[i] by {
        assert(s2.take(s1.len() as int)[i] == s1[i]);
        assert(s1.take(s0.len() as int)[i] == s0[i]);
    }
    assert(s2.take(s0.len() as int) =~= s0);
}

/// Write side of the first inter-stage buffer.
///
/// A write either appends the whole batch at the tail, or fails and leaves
/// the buffer unchanged: `Closed` once the buffer is closed, `Full` when the
/// batch does not fit.  Success is owed whenever the buffer is open and the
/// batch fits.
pub trait Buffer1: Sized {
    /// Queued transactions, head first.
    spec fn contents(&self) -> Seq<TxView>;

    /// Whether the buffer has been closed.
    spec fn is_closed(&self) -> bool;

    /// Whether a batch of `n` more items fits.
    spec fn accepts(&self, n: nat) -> bool;

    /// The capacity reported by a `Full` failure.
    spec fn full_capacity(&self) -> usize;

    /// Append `batch` at the tail.
    fn write_batch(&mut self, batch: Vec<Transaction>) -> (r: Result<(), BufferError>)
        ensures
            final(self).is_closed() == old(self).is_closed(),
            !old(self).is_closed() && old(self).accepts(batch@.len() as nat) ==> r is Ok,
            final(self).full_capacity() == old(self).full_capacity(),
            r is Ok ==> final(self).contents() == old(self).contents() + tx_views(batch@)
                && !old(self).is_closed(),
            r is Err ==> *final(self) == *old(self),
            old(self).is_closed() ==> r == Err::<(), BufferError>(BufferError::Closed),
            r == Err::<(), BufferError>(BufferError::Closed) ==> old(self).is_closed(),
            r matches Err(BufferError::Full { capacity }) ==> {
                &&& capacity == old(self).full_capacity()
                &&& !old(self).accepts(batch@.len() as nat)
            },
    ;
}

/// Read side of the first inter-stage buffer.
///
/// A read drains a non-empty prefix of up to `max` items from the head;
/// `Closed` is signalled only once nothing is left to drain.
pub trait Buffer1Read {
    /// Queued transactions, head first.
    spec fn read_contents(&self) -> Seq<TxView>;

    /// Drain up to `max` transactions from the head.
    fn read_batch(&mut self, max: usize) -> (r: Result<Vec<Transaction>, BufferError>)
        requires
            max >= 1,
        ensures
            match r {
                Ok(batch) => {
                    &&& old(self).read_contents().len() > 0
                    &&& batch@.len() == vstd::math::min(max as int, old(self).read_contents().len() as int)
                    &&& tx_views(batch@) == old(self).read_contents().take(batch@.len() as int)
                    &&& final(self).read_contents() == old(self).read_contents().skip(batch@.len() as int)
                },
                Err(e) => {
                    &&& e == BufferError::Closed
                    &&& old(self).read_contents().len() == 0
                    &&& final(self).read_contents() == old(self).read_contents()
                },
            },
    ;
}

/// Write side of the second inter-stage buffer; same discipline as
/// [`Buffer1`], over inferred transactions.
pub trait Buffer2: Sized {
    /// Queued records, head first.
    spec fn contents(&self) -> Seq<InfView>;

    /// Whether the buffer has been closed.
    spec fn is_closed(&self) -> bool;

    /// Whether a batch of `n` more items fits.
    spec fn accepts(&self, n: nat) -> bool;

    /// The capacity reported by a `Full` failure.
    spec fn full_capacity(&self) -> usize;

    /// Append `batch` at the tail.
    fn write_batch(&mut self, batch: Vec<InferredTransaction>) -> (r: Result<(), BufferError>)
        ensures
            final(self).is_closed() == old(self).is_closed(),
            !old(self).is_closed() && old(self).accepts(batch@.len() as nat) ==> r is Ok,
            final(self).full_capacity() == old(self).full_capacity(),
            r is Ok ==> final(self).contents() == old(self).contents() + inf_views(batch@)
                && !old(self).is_closed(),
            r is Err ==> *final(self) == *old(self),
            old(self).is_closed() ==> r == Err::<(), BufferError>(BufferError::Closed),
            r == Err::<(), BufferError>(BufferError::Closed) ==> old(self).is_closed(),
            r matches Err(BufferError::Full { capacity }) ==> {
                &&& capacity == old(self).full_capacity()
                &&& !old(self).accepts(batch@.len() as nat)
            },
    ;
}

/// Read side of the second inter-stage buffer; same discipline as
/// [`Buffer1Read`], over inferred transactions.
pub trait Buffer2Read {
    /// Queued records, head first.
    spec fn read_contents(&self) -> Seq<InfView>;

    /// Drain up to `max` records from the head.
    fn read_batch(&mut self, max: usize) -> (r: Result<Vec<InferredTransaction>, BufferError>)
        requires
            max >= 1,
        ensures
            match r {
                Ok(batch) => {
                    &&& old(self).read_contents().len() > 0
                    &&& batch@.len() == vstd::math::min(max as int, old(self).read_contents().len() as int)
                    &&& inf_views(batch@) == old(self).read_contents().take(batch@.len() as int)
                    &&& final(self).read_contents() == old(self).read_contents().skip(batch@.len() as int)
                },
                Err(e) => {
                    &&& e == BufferError::Closed
                    &&& old(self).read_contents().len() == 0
                    &&& final(self).read_contents() == old(self).read_contents()
                },
            },
    ;
}

/// Per-transaction classification model.
///
/// The name, the version labels and the active version are the model's
/// observable state; `classify` never moves them, so a version switch is
/// visible only to classifications that start after it completed.
pub trait Model {
    /// The model's name.
    spec fn model_name(&self) -> Seq<char>;

    /// The version string this model uses for `v`.
    spec fn label(&self, v: ModelVersion) -> Seq<char>;

    /// The currently active version.
    spec fn active(&self) -> ModelVersion;

    /// Every answer `classify` has returned so far, in call order.
    spec fn verdicts(&self) -> Seq<bool>;

    /// The reasons of all failed classifications so far, in order.
    spec fn faults(&self) -> Seq<Seq<char>>;

    /// Name of this model (e.g. `"DEMO"`).
    fn name(&self) -> (r: String)
        ensures
            r@ == self.model_name(),
    ;

    /// Version string of the currently active version (e.g. `"4"`).
    fn active_version(&self) -> (r: String)
        ensures
            r@ == self.label(self.active()),
    ;

    /// Classify one transaction as fraudulent or legitimate.
    ///
    /// A successful answer is appended to the verdict log, so callers can
    /// tie what they do with the answer to what the model actually said.
    fn classify(&mut self, tx: &Transaction) -> (r: Result<bool, ModelizerError>)
        ensures
            final(self).model_name() == old(self).model_name(),
            final(self).label(ModelVersion::N) == old(self).label(ModelVersion::N),
            final(self).label(ModelVersion::NMinus1) == old(self).label(ModelVersion::NMinus1),
            final(self).active() == old(self).active(),
            r matches Ok(b) ==> final(self).verdicts() == old(self).verdicts().push(b)
                && final(self).faults() == old(self).faults(),
            r matches Err(e) ==> e is InferenceFailed && final(self).verdicts() == old(
                self,
            ).verdicts() && final(self).faults() == old(self).faults().push(
                inference_reason_of(e),
            ),
    ;

    /// Switch the active version; takes effect on the next `classify`.
    fn switch_version(&mut self, version: ModelVersion) -> (r: Result<(), ModelizerError>)
        ensures
            final(self).model_name() == old(self).model_name(),
            final(self).label(ModelVersion::N) == old(self).label(ModelVersion::N),
            final(self).label(ModelVersion::NMinus1) == old(self).label(ModelVersion::NMinus1),
            final(self).verdicts() == old(self).verdicts(),
            final(self).faults() == old(self).faults(),
            r is Ok ==> final(self).active() == version,
            r matches Err(e) ==> final(self).active() == old(self).active() && e is SwitchFailed,
    ;
}

/// Batch inference and version switching.
///
/// One `infer` call produces exactly one record per input, in input order,
/// each carrying the name and the version label observed when the call
/// started.
pub trait Modelizer {
    /// The name stamped on produced records.
    spec fn model_name(&self) -> Seq<char>;

    /// Every classification flag this modelizer has produced so far, in
    /// order; one successful `infer` appends its whole batch's flags.
    spec fn flag_log(&self) -> Seq<bool>;

    /// The version string used for `v`.
    spec fn label(&self, v: ModelVersion) -> Seq<char>;

    /// The currently active version.
    spec fn active(&self) -> ModelVersion;

    /// Run inference on a batch of transactions.  An empty batch cannot
    /// fail: no fallible call is involved, so success is owed.
    fn infer(&mut self, batch: Vec<Transaction>) -> (r: Result<
        Vec<InferredTransaction>,
        ModelizerError,
    >)
        ensures
            batch@.len() == 0 ==> r is Ok,
            final(self).model_name() == old(self).model_name(),
            final(self).label(ModelVersion::N) == old(self).label(ModelVersion::N),
            final(self).label(ModelVersion::NMinus1) == old(self).label(ModelVersion::NMinus1),
            final(self).active() == old(self).active(),
            final(self).flag_log().take(old(self).flag_log().len() as int) == old(self).flag_log(),
            old(self).flag_log().len() <= final(self).flag_log().len(),
            match r {
                Ok(out) => {
                    &&& out@.len() == batch@.len()
                    &&& forall|i: int| 0 <= i < out@.len() ==> {
                        &&& (#[trigger] out@[i])@.transaction == batch@[i]@
                        &&& out@[i]@.model_name == old(self).model_name()
                        &&& out@[i]@.model_version == old(self).label(old(self).active())
                    }
                    &&& final(self).flag_log() == old(self).flag_log() + flags_of(inf_views(out@))
                },
                Err(e) => e is InferenceFailed,
            },
    ;

    /// Switch the active version; takes effect on the next `infer`.
    fn switch_version(&mut self, version: ModelVersion) -> (r: Result<(), ModelizerError>)
        ensures
            final(self).model_name() == old(self).model_name(),
            final(self).label(ModelVersion::N) == old(self).label(ModelVersion::N),
            final(self).label(ModelVersion::NMinus1) == old(self).label(ModelVersion::NMinus1),
            final(self).flag_log() == old(self).flag_log(),
            r is Ok ==> final(self).active() == version,
            r matches Err(e) ==> final(self).active() == old(self).active() && e is SwitchFailed,
    ;
}

/// Per-transaction fraud alert delivery.
///
/// Every call appends one entry to the delivery log: the transaction's
/// identifier and whether delivery succeeded.  Which deliveries succeed is
/// the adapter's business.
pub trait Alarm {
    /// All delivery attempts so far: `(transaction id, delivered)`.
    spec fn deliveries(&self) -> Seq<(u128, bool)>;

    /// The reasons of all failed deliveries so far, in order.
    spec fn failure_log(&self) -> Seq<Seq<char>>;

    /// Trigger a fraud alert for the given record.
    ///
    /// Every call appends one delivery-log entry; a failed call also
    /// appends the returned error's reason to the failure log.
    fn trigger(&mut self, transaction: &InferredTransaction) -> (r: Result<(), AlarmError>)
        ensures
            final(self).deliveries() == old(self).deliveries().push(
                (transaction@.transaction.id, r is Ok),
            ),
            r is Ok ==> final(self).failure_log() == old(self).failure_log(),
            r matches Err(e) ==> final(self).failure_log() == old(self).failure_log().push(
                reason_of(e),
            ),
    ;
}

/// Durable storage for pending transactions.
///
/// A write either appends the whole batch, or fails and leaves the store
/// unchanged.  Success is owed whenever the batch fits.
pub trait Storage: Sized {
    /// Persisted records, oldest first.
    spec fn contents(&self) -> Seq<PendView>;

    /// Whether a batch of `n` more records fits.
    spec fn accepts(&self, n: nat) -> bool;

    /// The capacity reported by a `CapacityExceeded` failure.
    spec fn full_capacity(&self) -> usize;

    /// Persist `batch`.
    fn write_batch(&mut self, batch: Vec<PendingTransaction>) -> (r: Result<(), StorageError>)
        ensures
            final(self).full_capacity() == old(self).full_capacity(),
            old(self).accepts(batch@.len() as nat) ==> r is Ok,
            r is Ok ==> final(self).contents() == old(self).contents() + pend_views(batch@),
            r is Err ==> *final(self) == *old(self),
            r matches Err(StorageError::CapacityExceeded { capacity }) ==> {
                &&& capacity == old(self).full_capacity()
                &&& !old(self).accepts(batch@.len() as nat)
            },
    ;
}

} // verus!
