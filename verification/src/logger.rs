//! Logger stage: reads batches of inferred transactions from the second
//! buffer, wraps each as a pending review record, and persists the whole
//! batch to storage.
//!
//! Every persisted record starts unreviewed, with no review verdict.

use vstd::prelude::*;
use crate::domain::{
    BufferError, InfView, InferredTransaction, PendView, PendingTransaction, StorageError,
};
use crate::ports::{Buffer2Read, Storage, lemma_prefix_trans};
use crate::rng::{Entropy, in_range, stream_value};

verus! {

/// Errors that can occur during logger operation.
#[derive(Debug)]
pub enum LoggerError {
    /// The supplied configuration is invalid.
    InvalidConfig { reason: String },
    /// A read from the second buffer failed.
    Read(BufferError),
    /// A storage write failed.
    Write(StorageError),
}

/// Runtime configuration for a [`Logger`]; construct via
/// [`LoggerConfig::builder`].
#[derive(Debug)]
pub struct LoggerConfig {
    /// Maximum number of records drawn per batch (sizes range over `[1, n3_max]`).
    pub n3_max: usize,
    /// Delay between successive iterations, in milliseconds.
    pub poll_interval3: u64,
    /// Optional upper bound on the number of iterations; `None` means unbounded.
    pub iterations: Option<u64>,
    /// Optional RNG seed for reproducible batch sizes; `None` seeds from the OS.
    pub seed: Option<u64>,
}

/// Builder for [`LoggerConfig`].
#[derive(Debug)]
pub struct LoggerConfigBuilder {
    n3_max: usize,
    poll_interval3: u64,
    iterations: Option<u64>,
    seed: Option<u64>,
}

impl LoggerConfig {
    /// Create a builder.  `n3_max` is the only required parameter; defaults:
    /// a 100 ms delay, no iteration cap, OS seeding.
    pub fn builder(n3_max: usize) -> (r: LoggerConfigBuilder)
        ensures
            r.staged() == (LoggerConfig {
                n3_max,
                poll_interval3: 100u64,
                iterations: None::<u64>,
                seed: None::<u64>,
            }),
    {
        LoggerConfigBuilder { n3_max, poll_interval3: 100, iterations: None, seed: None }
    }
}

impl LoggerConfigBuilder {
    /// The configuration this builder would build.
    pub closed spec fn staged(&self) -> LoggerConfig {
        LoggerConfig {
            n3_max: self.n3_max,
            poll_interval3: self.poll_interval3,
            iterations: self.iterations,
            seed: self.seed,
        }
    }

    /// Override the inter-iteration delay (milliseconds).
    pub fn poll_interval3(self, poll_interval3: u64) -> (r: LoggerConfigBuilder)
        ensures
            r.staged() == (LoggerConfig { poll_interval3, ..self.staged() }),
    {
        LoggerConfigBuilder { poll_interval3, ..self }
    }

    /// Set a finite iteration count.  Without one the logger runs until
    /// the second buffer signals `Closed`.
    pub fn iterations(self, n: u64) -> (r: LoggerConfigBuilder)
        ensures
            r.staged() == (LoggerConfig { iterations: Some(n), ..self.staged() }),
    {
        LoggerConfigBuilder { iterations: Some(n), ..self }
    }

    /// Fix the RNG seed for reproducible batch sizes.
    pub fn seed(self, seed: u64) -> (r: LoggerConfigBuilder)
        ensures
            r.staged() == (LoggerConfig { seed: Some(seed), ..self.staged() }),
    {
        LoggerConfigBuilder { seed: Some(seed), ..self }
    }

    /// Validate and build: `n3_max` must be at least 1.
    pub fn build(self) -> (r: Result<LoggerConfig, LoggerError>)
        ensures
            self.staged().n3_max == 0 ==> r is Err,
            self.staged().n3_max >= 1 ==> r == Ok::<LoggerConfig, LoggerError>(self.staged()),
            r matches Err(e) ==> e is InvalidConfig,
    {
        if self.n3_max == 0 {
            Err(LoggerError::InvalidConfig {
                reason: String::from_str("n3_max must be >= 1"),
            })
        } else {
            Ok(LoggerConfig {
                n3_max: self.n3_max,
                poll_interval3: self.poll_interval3,
                iterations: self.iterations,
                seed: self.seed,
            })
        }
    }
}

/// The records wrapped by a sequence of pending transactions, in order.
pub open spec fn infs_of(s: Seq<PendView>) -> Seq<InfView> {
    s.map_values(|x: PendView| x.inferred_transaction)
}

/// A fresh review record: unreviewed, with no verdict yet.
pub open spec fn fresh_pending(x: InfView) -> PendView {
    PendView { inferred_transaction: x, is_reviewed: false, actual_fraud: None }
}

/// Reads batches from the second buffer and persists them as pending
/// review records.
#[derive(Debug)]
pub struct Logger {
    config: LoggerConfig,
    rng: Entropy,
}

impl Logger {
    /// The configuration this logger runs with.
    pub closed spec fn config(&self) -> LoggerConfig {
        self.config
    }

    /// The logger's randomness source.
    pub closed spec fn source(&self) -> Entropy {
        self.rng
    }

    /// Create a logger from `config`, seeding the RNG from `config.seed`
    /// if set, otherwise from the OS.
    pub fn new(config: LoggerConfig) -> (r: Logger)
        ensures
            r.config() == config,
            match config.seed {
                Some(s) => r.source() == (Entropy::Seeded { seed: s, position: 0u64 }),
                None => !r.source().is_seeded(),
            },
    {
        let rng = Entropy::from_seed(config.seed);
        Logger { config, rng }
    }

    /// Draw the next batch size from `[1, n3_max]`.
    ///
    /// For callers that read from the second buffer themselves and only
    /// need the logger's sizing policy.
    pub fn draw_batch_size(&mut self) -> (r: usize)
        requires
            old(self).config().n3_max >= 1,
        ensures
            final(self).config() == old(self).config(),
            1 <= r <= old(self).config().n3_max,
            old(self).source().is_seeded() ==> {
                &&& r == in_range(
                    stream_value(old(self).source().seed(), old(self).source().position()),
                    old(self).config().n3_max as u64,
                )
                &&& final(self).source() == old(self).source().stepped()
            },
            !old(self).source().is_seeded() ==> !final(self).source().is_seeded(),
    {
        self.rng.draw_in_range(self.config.n3_max)
    }

    /// Wrap every record of `batch` as a fresh pending transaction, in
    /// order: unreviewed, with no verdict yet.
    ///
    /// This is the transforming half of [`log_once`](Logger::log_once),
    /// for callers that read from the second buffer and persist themselves.
    pub fn transform_batch(batch: Vec<InferredTransaction>) -> (r: Vec<PendingTransaction>)
        ensures
            r@.len() == batch@.len(),
            forall|i: int| 0 <= i < batch@.len() ==> (#[trigger] r@[i])@ == fresh_pending(
                batch@[i]@,
            ),
    {
        let mut pending: Vec<PendingTransaction> = Vec::new();
        let mut i: usize = 0;
        while i < batch.len()
            invariant
                i <= batch.len(),
                pending@.len() == i,
                forall|j: int| 0 <= j < i ==> (#[trigger] pending@[j])@ == fresh_pending(
                    batch@[j]@,
                ),
            decreases batch.len() - i,
        {
            pending.push(
                PendingTransaction {
                    inferred_transaction: batch[i].clone(),
                    is_reviewed: false,
                    actual_fraud: None,
                },
            );
            i = i + 1;
        }
        pending
    }

    /// Read one batch from `buf2`, wrap every record as a fresh pending
    /// transaction, and persist the whole batch.
    ///
    /// On success the storage gained exactly the drained records, in
    /// order, each unreviewed and without a verdict.
    pub fn log_once<B: Buffer2Read, S: Storage>(
        &mut self,
        buf2: &mut B,
        storage: &mut S,
    ) -> (r: Result<(), LoggerError>)
        requires
            old(self).config().n3_max >= 1,
        ensures
            final(self).config() == old(self).config(),
            final(storage).full_capacity() == old(storage).full_capacity(),
            old(self).source().is_seeded() ==> final(self).source() == old(self).source().stepped(),
            !old(self).source().is_seeded() ==> !final(self).source().is_seeded(),
            match r {
                Ok(()) => ({
                    let len0 = old(storage).contents().len() as int;
                    let taken = final(storage).contents().len() - old(storage).contents().len();
                    let appended = final(storage).contents().skip(len0);
                    &&& old(buf2).read_contents().len() > 0
                    &&& 1 <= taken <= old(self).config().n3_max
                    &&& taken <= old(buf2).read_contents().len()
                    &&& old(self).source().is_seeded() ==> taken == vstd::math::min(
                        in_range(
                            stream_value(old(self).source().seed(), old(self).source().position()),
                            old(self).config().n3_max as u64,
                        ) as int,
                        old(buf2).read_contents().len() as int,
                    )
                    &&& final(buf2).read_contents() == old(buf2).read_contents().skip(taken)
                    &&& final(storage).contents().take(len0) == old(storage).contents()
                    &&& forall|i: int| 0 <= i < taken ==> (#[trigger] appended[i]) == fresh_pending(
                        old(buf2).read_contents()[i],
                    )
                }),
                Err(LoggerError::Read(e)) => {
                    &&& e == BufferError::Closed
                    &&& old(buf2).read_contents().len() == 0
                    &&& final(buf2).read_contents() == old(buf2).read_contents()
                    &&& final(storage).contents() == old(storage).contents()
                },
                Err(LoggerError::Write(e)) => {
                    &&& final(storage).contents() == old(storage).contents()
                    &&& (e matches StorageError::CapacityExceeded { capacity } ==> capacity == old(
                        storage,
                    ).full_capacity() && !(forall|n: nat|
                        n <= old(self).config().n3_max ==> old(storage).accepts(n)))
                    &&& old(buf2).read_contents().len() > 0
                    &&& exists|m: int|
                        1 <= m <= old(buf2).read_contents().len() && final(buf2).read_contents()
                            == old(buf2).read_contents().skip(m)
                },
                Err(LoggerError::InvalidConfig { .. }) => false,
            },
            old(buf2).read_contents().len() > 0 && (forall|n: nat|
                n <= old(self).config().n3_max ==> old(storage).accepts(n)) ==> r is Ok,
    {
        let n3 = self.rng.draw_in_range(self.config.n3_max);
        let batch = match buf2.read_batch(n3) {
            Ok(b) => b,
            Err(e) => {
                return Err(LoggerError::Read(e));
            },
        };
        let ghost taken = batch@.len() as int;
        let ghost batch_views = crate::ports::inf_views(batch@);
        let pending = Self::transform_batch(batch);
        match storage.write_batch(pending) {
            Ok(()) => {
                proof {
                    assert(final(storage).contents().take(old(storage).contents().len() as int)
                        =~= old(storage).contents());
                    assert forall|j: int| 0 <= j < taken implies (#[trigger] final(storage)
                        .contents().skip(old(storage).contents().len() as int)[j]) == fresh_pending(
                        old(buf2).read_contents()[j],
                    ) by {
                        assert(batch_views[j] == old(buf2).read_contents().take(taken)[j]);
                    }
                }
                Ok(())
            },
            Err(e) => Err(LoggerError::Write(e)),
        }
    }

    /// Run the read-wrap-persist loop until stopped.
    ///
    /// Stops cleanly with `Ok` when the second buffer signals `Closed`
    /// (which it does only once drained) or when `iterations` batches have
    /// been persisted; storage failures are surfaced.  Every persisted
    /// record wraps one drained record, in drain order, unreviewed and
    /// without a verdict; on a clean run the two counts agree, and without
    /// an iteration cap the second buffer ends drained.
    #[verifier::rlimit(50)]
    pub fn run<B: Buffer2Read, S: Storage>(
        &mut self,
        buf2: &mut B,
        storage: &mut S,
    ) -> (r: Result<(), LoggerError>)
        requires
            old(self).config().n3_max >= 1,
        ensures
            final(self).config() == old(self).config(),
            old(self).source().is_seeded() ==> final(self).source().is_seeded()
                && final(self).source().seed() == old(self).source().seed(),
            !old(self).source().is_seeded() ==> !final(self).source().is_seeded(),
            old(buf2).read_contents().len() == 0 ==> r is Ok && final(storage).contents() == old(
                storage,
            ).contents(),
            old(storage).contents().len() <= final(storage).contents().len(),
            final(storage).contents().take(old(storage).contents().len() as int) == old(
                storage,
            ).contents(),
            final(buf2).read_contents().len() <= old(buf2).read_contents().len(),
            ({
                let consumed = old(buf2).read_contents().len() - final(buf2).read_contents().len();
                let appended = final(storage).contents().skip(old(storage).contents().len() as int);
                &&& final(buf2).read_contents() == old(buf2).read_contents().skip(consumed as int)
                &&& appended.len() <= consumed
                &&& infs_of(appended) == old(buf2).read_contents().take(appended.len() as int)
                &&& forall|i: int| 0 <= i < appended.len() ==> !(#[trigger] appended[i]).is_reviewed
                    && appended[i].actual_fraud is None
                &&& r is Ok ==> appended.len() == consumed
            }),
            match r {
                Ok(()) => old(self).config().iterations is Some
                    || final(buf2).read_contents().len() == 0,
                Err(e) => e is Write && (e matches LoggerError::Write(
                    StorageError::CapacityExceeded { capacity },
                ) ==> capacity == old(storage).full_capacity()),
            },
    {
        let ghost orig2 = old(buf2).read_contents();
        let ghost len0 = old(storage).contents().len() as int;
        let mut count: u64 = 0;
        proof {
            assert(old(storage).contents().take(len0) =~= old(storage).contents());
            assert(orig2.skip(0) =~= orig2);
            assert(infs_of(old(storage).contents().skip(len0)) =~= orig2.take(0));
        }
        loop
            invariant
                self.config() == old(self).config(),
                self.config().n3_max >= 1,
                orig2 == old(buf2).read_contents(),
                len0 == old(storage).contents().len() as int,
                storage.full_capacity() == old(storage).full_capacity(),
                old(self).source().is_seeded() ==> self.source().is_seeded() && self.source().seed()
                    == old(self).source().seed(),
                !old(self).source().is_seeded() ==> !self.source().is_seeded(),
                len0 <= storage.contents().len(),
                storage.contents().take(len0) == old(storage).contents(),
                buf2.read_contents().len() <= orig2.len(),
                buf2.read_contents() == orig2.skip(orig2.len() - buf2.read_contents().len()),
                storage.contents().len() - len0 == orig2.len() - buf2.read_contents().len(),
                infs_of(storage.contents().skip(len0)) == orig2.take(
                    storage.contents().len() - len0,
                ),
                forall|i: int| len0 <= i < storage.contents().len() ==> !(#[trigger] storage
                    .contents()[i]).is_reviewed && storage.contents()[i].actual_fraud is None,
            decreases buf2.read_contents().len(),
        {
            let ghost pre2 = buf2.read_contents();
            let ghost pres = storage.contents();
            match self.log_once(buf2, storage) {
                Ok(()) => {
                    proof {
                        let c1 = orig2.len() - pre2.len();
                        let t = pre2.len() - buf2.read_contents().len();
                        assert(buf2.read_contents() =~= orig2.skip(c1 + t));
                        lemma_prefix_trans(storage.contents(), pres, old(storage).contents());
                        let appended = storage.contents().skip(len0);
                        assert forall|i: int| 0 <= i < appended.len() implies (
                        #[trigger] infs_of(appended)[i]) == orig2.take(
                            storage.contents().len() - len0,
                        )[i] by {
                            if i < pres.len() - len0 {
                                assert(storage.contents().take(pres.len() as int)[i + len0]
                                    == pres[i + len0]);
                                assert(infs_of(pres.skip(len0))[i] == orig2.take(
                                    pres.len() - len0,
                                )[i]);
                            } else {
                                let j = i - (pres.len() - len0);
                                assert(storage.contents().skip(pres.len() as int)[j]
                                    == fresh_pending(pre2[j]));
                                assert(pre2[j] == orig2.skip(c1)[j]);
                            }
                        }
                        assert(infs_of(storage.contents().skip(len0)) =~= orig2.take(
                            storage.contents().len() - len0,
                        ));
                        assert forall|i: int|
                            len0 <= i < storage.contents().len() implies !(#[trigger] storage
                            .contents()[i]).is_reviewed && storage.contents()[i].actual_fraud
                            is None by {
                            if i < pres.len() {
                                assert(storage.contents().take(pres.len() as int)[i] == pres[i]);
                            } else {
                                assert(storage.contents().skip(pres.len() as int)[i - pres.len()]
                                    == storage.contents()[i]);
                            }
                        }
                    }
                },
                Err(LoggerError::Read(BufferError::Closed)) => {
                    return Ok(());
                },
                Err(e) => {
                    proof {
                        assert(!(e is Read));
                        if e is Write {
                            assert(buf2.read_contents() =~= orig2.skip(
                                orig2.len() - buf2.read_contents().len(),
                            ));
                        }
                    }
                    return Err(e);
                },
            }
            count = count.wrapping_add(1);
            if let Some(max) = self.config.iterations {
                if count >= max {
                    return Ok(());
                }
            }
        }
    }
}

} // verus!
