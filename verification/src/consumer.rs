//! Consumer stage: reads transaction batches from the first buffer, runs
//! inference, triggers fraud alarms, and writes the enriched batch to the
//! second buffer.
//!
//! Alarm delivery is best-effort: every fraudulent record gets exactly one
//! attempt, failures are collected and returned, and the batch still
//! reaches the second buffer.

use vstd::prelude::*;
use crate::domain::{AlarmError, BufferError, InfView, ModelVersion, ModelizerError, Transaction, TxView, reason_of};
use crate::ports::{Alarm, Buffer1Read, Buffer2, Modelizer, flags_of, inf_views, lemma_prefix_trans};
use crate::rng::{Entropy, in_range, stream_value};

verus! {

/// Errors that can occur during transaction consumption.
#[derive(Debug)]
pub enum ConsumerError {
    /// The supplied configuration is invalid.
    InvalidConfig { reason: String },
    /// A read from the first buffer failed.
    Read(BufferError),
    /// Inference or a version switch failed.
    Inference(ModelizerError),
    /// A write to the second buffer failed.
    Write(BufferError),
}

/// Runtime configuration for a [`Consumer`]; construct via
/// [`ConsumerConfig::builder`].
#[derive(Debug)]
pub struct ConsumerConfig {
    /// Maximum number of transactions drawn per batch (sizes range over `[1, n2_max]`).
    pub n2_max: usize,
    /// Delay between successive batch-processing iterations, in milliseconds.
    pub speed2: u64,
    /// Optional upper bound on the number of iterations; `None` means unbounded.
    pub iterations: Option<u64>,
    /// Optional RNG seed for reproducible batch sizes; `None` seeds from the OS.
    pub seed: Option<u64>,
}

/// Builder for [`ConsumerConfig`].
#[derive(Debug)]
pub struct ConsumerConfigBuilder {
    n2_max: usize,
    speed2: u64,
    iterations: Option<u64>,
    seed: Option<u64>,
}

impl ConsumerConfig {
    /// Create a builder.  `n2_max` is the only required parameter; defaults:
    /// a 100 ms delay, no iteration cap, OS seeding.
    pub fn builder(n2_max: usize) -> (r: ConsumerConfigBuilder)
        ensures
            r.staged() == (ConsumerConfig {
                n2_max,
                speed2: 100u64,
                iterations: None::<u64>,
                seed: None::<u64>,
            }),
    {
        ConsumerConfigBuilder { n2_max, speed2: 100, iterations: None, seed: None }
    }
}

impl ConsumerConfigBuilder {
    /// The configuration this builder would build.
    pub closed spec fn staged(&self) -> ConsumerConfig {
        ConsumerConfig {
            n2_max: self.n2_max,
            speed2: self.speed2,
            iterations: self.iterations,
            seed: self.seed,
        }
    }

    /// Override the inter-iteration delay (milliseconds).
    pub fn speed2(self, speed2: u64) -> (r: ConsumerConfigBuilder)
        ensures
            r.staged() == (ConsumerConfig { speed2, ..self.staged() }),
    {
        ConsumerConfigBuilder { speed2, ..self }
    }

    /// Set a finite iteration count.  Without one the consumer runs until
    /// the first buffer signals `Closed`.
    pub fn iterations(self, n: u64) -> (r: ConsumerConfigBuilder)
        ensures
            r.staged() == (ConsumerConfig { iterations: Some(n), ..self.staged() }),
    {
        ConsumerConfigBuilder { iterations: Some(n), ..self }
    }

    /// Fix the RNG seed for deterministic batch sizes.
    pub fn seed(self, seed: u64) -> (r: ConsumerConfigBuilder)
        ensures
            r.staged() == (ConsumerConfig { seed: Some(seed), ..self.staged() }),
    {
        ConsumerConfigBuilder { seed: Some(seed), ..self }
    }

    /// Validate and build: `n2_max` must be at least 1.
    pub fn build(self) -> (r: Result<ConsumerConfig, ConsumerError>)
        ensures
            self.staged().n2_max == 0 ==> r is Err,
            self.staged().n2_max >= 1 ==> r == Ok::<ConsumerConfig, ConsumerError>(self.staged()),
            r matches Err(e) ==> e is InvalidConfig,
    {
        if self.n2_max == 0 {
            Err(ConsumerError::InvalidConfig {
                reason: String::from_str("n2_max must be >= 1"),
            })
        } else {
            Ok(ConsumerConfig {
                n2_max: self.n2_max,
                speed2: self.speed2,
                iterations: self.iterations,
                seed: self.seed,
            })
        }
    }
}

/// The transactions wrapped by a sequence of records, in order.
pub open spec fn txs_of(s: Seq<InfView>) -> Seq<TxView> {
    s.map_values(|x: InfView| x.transaction)
}

/// Identifiers of the fraudulent records of `s`, in order.
pub open spec fn fraud_ids(s: Seq<InfView>) -> Seq<u128>
    decreases s.len(),
{
    if s.len() == 0 {
        Seq::empty()
    } else {
        let rest = fraud_ids(s.drop_last());
        if s.last().predicted_fraud {
            rest.push(s.last().transaction.id)
        } else {
            rest
        }
    }
}

/// Identifiers carried by a sequence of delivery-log entries.
pub open spec fn event_ids(s: Seq<(u128, bool)>) -> Seq<u128> {
    s.map_values(|e: (u128, bool)| e.0)
}

/// The reasons carried by a sequence of alarm errors, in order.
pub open spec fn reasons_of(s: Seq<AlarmError>) -> Seq<Seq<char>> {
    s.map_values(|e: AlarmError| reason_of(e))
}

/// How many of the delivery-log entries in `s` failed.
pub open spec fn undelivered(s: Seq<(u128, bool)>) -> nat
    decreases s.len(),
{
    if s.len() == 0 {
        0
    } else {
        undelivered(s.drop_last()) + if s.last().1 {
            0nat
        } else {
            1nat
        }
    }
}

/// `fraud_ids` distributes over concatenation.
pub proof fn lemma_fraud_ids_concat(a: Seq<InfView>, b: Seq<InfView>)
    ensures
        fraud_ids(a + b) == fraud_ids(a) + fraud_ids(b),
    decreases b.len(),
{
    if b.len() == 0 {
        assert(a + b =~= a);
        assert(fraud_ids(a) + fraud_ids(b) =~= fraud_ids(a));
    } else {
        lemma_fraud_ids_concat(a, b.drop_last());
        assert((a + b).drop_last() =~= a + b.drop_last());
        assert((a + b).last() == b.last());
        if b.last().predicted_fraud {
            assert(fraud_ids(a) + fraud_ids(b) =~= (fraud_ids(a) + fraud_ids(
                b.drop_last(),
            )).push(b.last().transaction.id));
        }
    }
}

/// A sequence of nothing but fraudulent records contributes one identifier
/// per record.
pub proof fn lemma_fraud_ids_all(s: Seq<InfView>)
    requires
        forall|i: int| 0 <= i < s.len() ==> (#[trigger] s[i]).predicted_fraud,
    ensures
        fraud_ids(s).len() == s.len(),
    decreases s.len(),
{
    if s.len() > 0 {
        lemma_fraud_ids_all(s.drop_last());
    }
}

/// A sequence with no fraudulent record contributes no identifiers.
pub proof fn lemma_fraud_ids_empty(s: Seq<InfView>)
    requires
        forall|i: int| 0 <= i < s.len() ==> !(#[trigger] s[i]).predicted_fraud,
    ensures
        fraud_ids(s) == Seq::<u128>::empty(),
    decreases s.len(),
{
    if s.len() > 0 {
        lemma_fraud_ids_empty(s.drop_last());
    }
}

/// If the input started drained, the run's loop invariants force the
/// second buffer and the alarm log to be untouched.
proof fn lemma_run_on_drained_input(
    orig1: Seq<TxView>,
    len2_0: int,
    alen0: int,
    buf2_0: Seq<InfView>,
    alarm_0: Seq<(u128, bool)>,
    cur1: Seq<TxView>,
    cur2: Seq<InfView>,
    cur_alarm: Seq<(u128, bool)>,
)
    requires
        orig1.len() == 0,
        len2_0 == buf2_0.len() as int,
        alen0 == alarm_0.len() as int,
        cur1.len() <= orig1.len(),
        len2_0 <= cur2.len(),
        alen0 <= cur_alarm.len(),
        cur2.take(len2_0) == buf2_0,
        cur_alarm.take(alen0) == alarm_0,
        cur2.len() - len2_0 == orig1.len() - cur1.len(),
        event_ids(cur_alarm.skip(alen0)) == fraud_ids(cur2.skip(len2_0)),
    ensures
        cur2 == buf2_0,
        cur_alarm == alarm_0,
{
    assert(cur2.len() == len2_0);
    assert(cur2 =~= cur2.take(len2_0));
    assert(cur2.skip(len2_0) =~= Seq::<InfView>::empty());
    assert(event_ids(cur_alarm.skip(alen0)).len() == cur_alarm.len() - alen0);
    assert(cur_alarm.len() == alen0);
    assert(cur_alarm =~= cur_alarm.take(alen0));
}

/// Reads batches from the first buffer, infers, triggers alarms for
/// fraudulent records, and writes all results to the second buffer.
#[derive(Debug)]
pub struct Consumer {
    config: ConsumerConfig,
    rng: Entropy,
}

impl Consumer {
    /// The configuration this consumer runs with.
    pub closed spec fn config(&self) -> ConsumerConfig {
        self.config
    }

    /// The consumer's randomness source.
    pub closed spec fn source(&self) -> Entropy {
        self.rng
    }

    /// Create a consumer from `config`, seeding the RNG from `config.seed`
    /// if set, otherwise from the OS.
    pub fn new(config: ConsumerConfig) -> (r: Consumer)
        ensures
            r.config() == config,
            match config.seed {
                Some(s) => r.source() == (Entropy::Seeded { seed: s, position: 0u64 }),
                None => !r.source().is_seeded(),
            },
    {
        let rng = Entropy::from_seed(config.seed);
        Consumer { config, rng }
    }

    /// Draw the next batch size from `[1, n2_max]`.
    ///
    /// For callers that read from the first buffer themselves and only
    /// need the consumer's sizing policy.
    pub fn draw_batch_size(&mut self) -> (r: usize)
        requires
            old(self).config().n2_max >= 1,
        ensures
            final(self).config() == old(self).config(),
            1 <= r <= old(self).config().n2_max,
            old(self).source().is_seeded() ==> {
                &&& r == in_range(
                    stream_value(old(self).source().seed(), old(self).source().position()),
                    old(self).config().n2_max as u64,
                )
                &&& final(self).source() == old(self).source().stepped()
            },
            !old(self).source().is_seeded() ==> !final(self).source().is_seeded(),
    {
        self.rng.draw_in_range(self.config.n2_max)
    }

    /// Enrich one already-read batch: infer, trigger one best-effort alarm
    /// per fraudulent record, and write the whole enriched batch to the
    /// second buffer.
    ///
    /// This is the computing half of [`consume_once`](Consumer::consume_once),
    /// for callers that read from the first buffer themselves (a cooperative
    /// scheduler reads with yields, then hands the batch here).
    ///
    /// The returned list holds exactly the errors the alarm returned, in
    /// invocation order: its reasons are the alarm's failure-log extension.
    pub fn process_batch<M: Modelizer, A: Alarm, B2: Buffer2>(
        batch: Vec<Transaction>,
        modelizer: &mut M,
        alarm: &mut A,
        buf2: &mut B2,
    ) -> (r: Result<Vec<AlarmError>, ConsumerError>)
        ensures
            final(modelizer).model_name() == old(modelizer).model_name(),
            final(modelizer).label(ModelVersion::N) == old(modelizer).label(ModelVersion::N),
            final(modelizer).label(ModelVersion::NMinus1) == old(modelizer).label(
                ModelVersion::NMinus1,
            ),
            final(modelizer).active() == old(modelizer).active(),
            final(modelizer).flag_log().take(old(modelizer).flag_log().len() as int) == old(
                modelizer,
            ).flag_log(),
            old(modelizer).flag_log().len() <= final(modelizer).flag_log().len(),
            final(buf2).is_closed() == old(buf2).is_closed(),
            old(alarm).deliveries().len() <= final(alarm).deliveries().len(),
            old(alarm).failure_log().len() <= final(alarm).failure_log().len(),
            final(alarm).failure_log().take(old(alarm).failure_log().len() as int) == old(
                alarm,
            ).failure_log(),
            match r {
                Ok(failures) => ({
                    let len2 = old(buf2).contents().len() as int;
                    let appended = final(buf2).contents().skip(len2);
                    let events = final(alarm).deliveries().skip(
                        old(alarm).deliveries().len() as int,
                    );
                    &&& final(buf2).contents().len() == old(buf2).contents().len() + batch@.len()
                    &&& final(buf2).contents().take(len2) == old(buf2).contents()
                    &&& forall|i: int| 0 <= i < batch@.len() ==> {
                        &&& (#[trigger] appended[i]).transaction == batch@[i]@
                        &&& appended[i].model_name == old(modelizer).model_name()
                        &&& appended[i].model_version == old(modelizer).label(
                            old(modelizer).active(),
                        )
                    }
                    &&& final(alarm).deliveries().take(old(alarm).deliveries().len() as int) == old(
                        alarm,
                    ).deliveries()
                    &&& flags_of(appended) == final(modelizer).flag_log().skip(
                        old(modelizer).flag_log().len() as int,
                    )
                    &&& event_ids(events) == fraud_ids(appended)
                    &&& failures@.len() == undelivered(events)
                    &&& reasons_of(failures@) == final(alarm).failure_log().skip(
                        old(alarm).failure_log().len() as int,
                    )
                }),
                Err(ConsumerError::Inference(e)) => {
                    &&& e is InferenceFailed
                    &&& final(buf2).contents() == old(buf2).contents()
                    &&& final(alarm).deliveries() == old(alarm).deliveries()
                    &&& final(alarm).failure_log() == old(alarm).failure_log()
                },
                Err(ConsumerError::Write(e)) => {
                    &&& final(buf2).contents() == old(buf2).contents()
                    &&& (e == BufferError::Closed ==> old(buf2).is_closed())
                    &&& (e matches BufferError::Full { capacity } ==> capacity == old(
                        buf2,
                    ).full_capacity() && !old(buf2).accepts(batch@.len() as nat))
                    &&& final(alarm).deliveries().take(old(alarm).deliveries().len() as int) == old(
                        alarm,
                    ).deliveries()
                },
                Err(ConsumerError::Read(..)) => false,
                Err(ConsumerError::InvalidConfig { .. }) => false,
            },
            !old(buf2).is_closed() && old(buf2).accepts(batch@.len() as nat) ==> !(r matches Err(
                ConsumerError::Write(..),
            )),
    {
        let ghost batch_views = crate::ports::tx_views(batch@);
        let ghost n = batch@.len() as int;
        let inferred = match modelizer.infer(batch) {
            Ok(v) => v,
            Err(e) => {
                return Err(ConsumerError::Inference(e));
            },
        };
        let ghost inf_snapshot = inf_views(inferred@);
        let mut failures: Vec<AlarmError> = Vec::new();
        let mut i: usize = 0;
        while i < inferred.len()
            invariant
                i <= inferred.len(),
                inf_views(inferred@) == inf_snapshot,
                inf_snapshot.len() == inferred@.len(),
                alarm.deliveries().take(old(alarm).deliveries().len() as int) == old(
                    alarm,
                ).deliveries(),
                old(alarm).deliveries().len() <= alarm.deliveries().len(),
                alarm.failure_log().take(old(alarm).failure_log().len() as int) == old(
                    alarm,
                ).failure_log(),
                old(alarm).failure_log().len() <= alarm.failure_log().len(),
                event_ids(alarm.deliveries().skip(old(alarm).deliveries().len() as int))
                    == fraud_ids(inf_snapshot.take(i as int)),
                failures@.len() == undelivered(
                    alarm.deliveries().skip(old(alarm).deliveries().len() as int),
                ),
                reasons_of(failures@) == alarm.failure_log().skip(
                    old(alarm).failure_log().len() as int,
                ),
            decreases inferred.len() - i,
        {
            let ghost pre_events = alarm.deliveries().skip(old(alarm).deliveries().len() as int);
            let ghost pre_failures = failures@;
            if inferred[i].predicted_fraud {
                let outcome = alarm.trigger(&inferred[i]);
                proof {
                    let events = alarm.deliveries().skip(old(alarm).deliveries().len() as int);
                    assert(alarm.deliveries().take(old(alarm).deliveries().len() as int)
                        =~= old(alarm).deliveries());
                    assert(alarm.failure_log().take(old(alarm).failure_log().len() as int)
                        =~= old(alarm).failure_log());
                    assert(events =~= pre_events.push(
                        (inf_snapshot[i as int].transaction.id, outcome is Ok),
                    ));
                    assert(events.drop_last() =~= pre_events);
                    assert(inf_snapshot.take(i + 1).drop_last() =~= inf_snapshot.take(i as int));
                    assert(event_ids(events) =~= fraud_ids(inf_snapshot.take(i + 1)));
                }
                match outcome {
                    Ok(()) => {},
                    Err(e) => {
                        failures.push(e);
                        proof {
                            assert(reasons_of(failures@) =~= reasons_of(pre_failures).push(
                                reason_of(e),
                            ));
                            assert(alarm.failure_log().skip(
                                old(alarm).failure_log().len() as int,
                            ) =~= reasons_of(failures@));
                        }
                    },
                }
            } else {
                proof {
                    assert(inf_snapshot.take(i + 1).drop_last() =~= inf_snapshot.take(i as int));
                    assert(event_ids(pre_events) =~= fraud_ids(inf_snapshot.take(i + 1)));
                }
            }
            i = i + 1;
        }
        proof {
            assert(inf_snapshot.take(inf_snapshot.len() as int) =~= inf_snapshot);
        }
        match buf2.write_batch(inferred) {
            Ok(()) => {
                proof {
                    assert(final(buf2).contents().take(old(buf2).contents().len() as int)
                        =~= old(buf2).contents());
                    assert(final(buf2).contents().skip(old(buf2).contents().len() as int)
                        =~= inf_snapshot);
                    assert forall|j: int| 0 <= j < n implies {
                        &&& (#[trigger] inf_snapshot[j]).transaction == batch_views[j]
                        &&& inf_snapshot[j].model_name == old(modelizer).model_name()
                        &&& inf_snapshot[j].model_version == old(modelizer).label(
                            old(modelizer).active(),
                        )
                    } by {
                        assert(inf_snapshot[j] == inferred@[j]@);
                        assert(inferred@[j]@.transaction == batch_views[j]);
                    }
                    assert(flags_of(final(buf2).contents().skip(old(buf2).contents().len() as int))
                        =~= final(modelizer).flag_log().skip(
                        old(modelizer).flag_log().len() as int,
                    ));
                }
                Ok(failures)
            },
            Err(e) => Err(ConsumerError::Write(e)),
        }
    }

    /// Read one batch, infer, trigger one best-effort alarm per fraudulent
    /// record, and write the whole enriched batch to the second buffer.
    ///
    /// On success: the records appended to the second buffer wrap exactly
    /// the transactions drained from the first, in order, each stamped with
    /// the modelizer's name and the version label observed at the start;
    /// the alarm log gained exactly one entry per fraudulent record, in
    /// order; and the returned list holds one error per failed delivery.
    pub fn consume_once<B1: Buffer1Read, M: Modelizer, A: Alarm, B2: Buffer2>(
        &mut self,
        buf1: &mut B1,
        modelizer: &mut M,
        alarm: &mut A,
        buf2: &mut B2,
    ) -> (r: Result<Vec<AlarmError>, ConsumerError>)
        requires
            old(self).config().n2_max >= 1,
        ensures
            final(self).config() == old(self).config(),
            final(modelizer).model_name() == old(modelizer).model_name(),
            final(modelizer).label(ModelVersion::N) == old(modelizer).label(ModelVersion::N),
            final(modelizer).label(ModelVersion::NMinus1) == old(modelizer).label(
                ModelVersion::NMinus1,
            ),
            final(modelizer).active() == old(modelizer).active(),
            final(modelizer).flag_log().take(old(modelizer).flag_log().len() as int) == old(
                modelizer,
            ).flag_log(),
            old(modelizer).flag_log().len() <= final(modelizer).flag_log().len(),
            final(buf2).is_closed() == old(buf2).is_closed(),
            old(alarm).deliveries().len() <= final(alarm).deliveries().len(),
            old(alarm).failure_log().len() <= final(alarm).failure_log().len(),
            final(alarm).failure_log().take(old(alarm).failure_log().len() as int) == old(
                alarm,
            ).failure_log(),
            old(self).source().is_seeded() ==> final(self).source() == old(self).source().stepped(),
            !old(self).source().is_seeded() ==> !final(self).source().is_seeded(),
            match r {
                Ok(failures) => ({
                    let len2 = old(buf2).contents().len() as int;
                    let taken = final(buf2).contents().len() - old(buf2).contents().len();
                    let appended = final(buf2).contents().skip(len2);
                    let events = final(alarm).deliveries().skip(
                        old(alarm).deliveries().len() as int,
                    );
                    &&& old(buf1).read_contents().len() > 0
                    &&& 1 <= taken <= old(self).config().n2_max
                    &&& taken <= old(buf1).read_contents().len()
                    &&& old(self).source().is_seeded() ==> taken == vstd::math::min(
                        in_range(
                            stream_value(old(self).source().seed(), old(self).source().position()),
                            old(self).config().n2_max as u64,
                        ) as int,
                        old(buf1).read_contents().len() as int,
                    )
                    &&& final(buf1).read_contents() == old(buf1).read_contents().skip(taken)
                    &&& final(buf2).contents().take(len2) == old(buf2).contents()
                    &&& forall|i: int| 0 <= i < taken ==> {
                        &&& (#[trigger] appended[i]).transaction == old(buf1).read_contents()[i]
                        &&& appended[i].model_name == old(modelizer).model_name()
                        &&& appended[i].model_version == old(modelizer).label(
                            old(modelizer).active(),
                        )
                    }
                    &&& final(alarm).deliveries().take(old(alarm).deliveries().len() as int) == old(
                        alarm,
                    ).deliveries()
                    &&& flags_of(appended) == final(modelizer).flag_log().skip(
                        old(modelizer).flag_log().len() as int,
                    )
                    &&& event_ids(events) == fraud_ids(appended)
                    &&& failures@.len() == undelivered(events)
                    &&& reasons_of(failures@) == final(alarm).failure_log().skip(
                        old(alarm).failure_log().len() as int,
                    )
                }),
                Err(ConsumerError::Read(e)) => {
                    &&& e == BufferError::Closed
                    &&& old(buf1).read_contents().len() == 0
                    &&& final(buf1).read_contents() == old(buf1).read_contents()
                    &&& final(buf2).contents() == old(buf2).contents()
                    &&& final(modelizer).flag_log() == old(modelizer).flag_log()
                    &&& final(alarm).deliveries() == old(alarm).deliveries()
                    &&& final(alarm).failure_log() == old(alarm).failure_log()
                },
                Err(ConsumerError::Inference(e)) => {
                    &&& e is InferenceFailed
                    &&& old(buf1).read_contents().len() > 0
                    &&& exists|m: int|
                        1 <= m <= old(buf1).read_contents().len() && final(buf1).read_contents()
                            == old(buf1).read_contents().skip(m)
                    &&& final(buf2).contents() == old(buf2).contents()
                    &&& final(alarm).deliveries() == old(alarm).deliveries()
                    &&& final(alarm).failure_log() == old(alarm).failure_log()
                },
                Err(ConsumerError::Write(e)) => {
                    &&& final(buf2).contents() == old(buf2).contents()
                    &&& (e == BufferError::Closed ==> old(buf2).is_closed())
                    &&& (e matches BufferError::Full { capacity } ==> capacity == old(
                        buf2,
                    ).full_capacity() && !(forall|n: nat|
                        n <= old(self).config().n2_max ==> old(buf2).accepts(n)))
                    &&& old(buf1).read_contents().len() > 0
                    &&& exists|m: int|
                        1 <= m <= old(buf1).read_contents().len() && final(buf1).read_contents()
                            == old(buf1).read_contents().skip(m)
                    &&& final(alarm).deliveries().take(old(alarm).deliveries().len() as int) == old(
                        alarm,
                    ).deliveries()
                },
                Err(ConsumerError::InvalidConfig { .. }) => false,
            },
            !old(buf2).is_closed() && (forall|n: nat|
                n <= old(self).config().n2_max ==> old(buf2).accepts(n)) ==> !(r matches Err(
                ConsumerError::Write(..),
            )),
    {
        let n2 = self.rng.draw_in_range(self.config.n2_max);
        let batch = match buf1.read_batch(n2) {
            Ok(b) => b,
            Err(e) => {
                return Err(ConsumerError::Read(e));
            },
        };
        let ghost taken = batch@.len() as int;
        let ghost batch_views = crate::ports::tx_views(batch@);
        let r = Self::process_batch(batch, modelizer, alarm, buf2);
        proof {
            match r {
                Ok(_) => {
                    let len2 = old(buf2).contents().len() as int;
                    let appended = buf2.contents().skip(len2);
                    assert forall|i: int| 0 <= i < taken implies (#[trigger] appended[i]).transaction
                        == old(buf1).read_contents()[i] by {
                        assert(batch_views[i] == old(buf1).read_contents().take(taken)[i]);
                    }
                },
                Err(_) => {
                    assert(1 <= taken <= old(buf1).read_contents().len() && buf1.read_contents()
                        == old(buf1).read_contents().skip(taken));
                },
            }
        }
        r
    }

    /// Run the consumption loop until stopped.
    ///
    /// Processes batch after batch.  Stops cleanly with `Ok` when the
    /// first buffer signals `Closed` (which it does only once drained) or
    /// when `iterations` batches have been processed; alarm failures never
    /// abort the loop; any other failure is surfaced.  Every record
    /// appended to the second buffer wraps one transaction drained from
    /// the first, in drain order, stamped with the modelizer's name and
    /// version label; on a clean run the two counts agree, the alarm log
    /// gained exactly one entry per fraudulent record appended, in order,
    /// and without an iteration cap the first buffer ends drained.
    #[verifier::rlimit(50)]
    pub fn run<B1: Buffer1Read, M: Modelizer, A: Alarm, B2: Buffer2>(
        &mut self,
        buf1: &mut B1,
        modelizer: &mut M,
        alarm: &mut A,
        buf2: &mut B2,
    ) -> (r: Result<(), ConsumerError>)
        requires
            old(self).config().n2_max >= 1,
        ensures
            final(self).config() == old(self).config(),
            final(modelizer).model_name() == old(modelizer).model_name(),
            final(modelizer).label(ModelVersion::N) == old(modelizer).label(ModelVersion::N),
            final(modelizer).label(ModelVersion::NMinus1) == old(modelizer).label(
                ModelVersion::NMinus1,
            ),
            final(modelizer).active() == old(modelizer).active(),
            final(modelizer).flag_log().take(old(modelizer).flag_log().len() as int) == old(
                modelizer,
            ).flag_log(),
            old(modelizer).flag_log().len() <= final(modelizer).flag_log().len(),
            r is Ok ==> flags_of(final(buf2).contents().skip(old(buf2).contents().len() as int))
                == final(modelizer).flag_log().skip(old(modelizer).flag_log().len() as int),
            final(buf2).is_closed() == old(buf2).is_closed(),
            old(self).source().is_seeded() ==> final(self).source().is_seeded()
                && final(self).source().seed() == old(self).source().seed(),
            !old(self).source().is_seeded() ==> !final(self).source().is_seeded(),
            old(buf2).contents().len() <= final(buf2).contents().len(),
            final(buf2).contents().take(old(buf2).contents().len() as int) == old(
                buf2,
            ).contents(),
            final(buf1).read_contents().len() <= old(buf1).read_contents().len(),
            old(alarm).deliveries().len() <= final(alarm).deliveries().len(),
            final(alarm).deliveries().take(old(alarm).deliveries().len() as int) == old(
                alarm,
            ).deliveries(),
            r is Ok ==> event_ids(
                final(alarm).deliveries().skip(old(alarm).deliveries().len() as int),
            ) == fraud_ids(final(buf2).contents().skip(old(buf2).contents().len() as int)),
            old(buf1).read_contents().len() == 0 ==> r is Ok && final(buf2).contents() == old(
                buf2,
            ).contents() && final(alarm).deliveries() == old(alarm).deliveries(),
            ({
                let consumed = old(buf1).read_contents().len() - final(buf1).read_contents().len();
                let appended = final(buf2).contents().skip(old(buf2).contents().len() as int);
                &&& final(buf1).read_contents() == old(buf1).read_contents().skip(consumed as int)
                &&& appended.len() <= consumed
                &&& txs_of(appended) == old(buf1).read_contents().take(appended.len() as int)
                &&& forall|i: int| 0 <= i < appended.len() ==> {
                    &&& (#[trigger] appended[i]).model_name == old(modelizer).model_name()
                    &&& appended[i].model_version == old(modelizer).label(old(modelizer).active())
                }
                &&& r is Ok ==> appended.len() == consumed
            }),
            match r {
                Ok(()) => old(self).config().iterations is Some
                    || final(buf1).read_contents().len() == 0,
                Err(e) => e is Inference || e is Write,
            },
    {
        let ghost orig1 = old(buf1).read_contents();
        let ghost len2_0 = old(buf2).contents().len() as int;
        let ghost alen0 = old(alarm).deliveries().len() as int;
        let ghost mlen0 = old(modelizer).flag_log().len() as int;
        let mut count: u64 = 0;
        proof {
            assert(old(buf2).contents().take(len2_0) =~= old(buf2).contents());
            assert(orig1.skip(0) =~= orig1);
            assert(txs_of(old(buf2).contents().skip(len2_0)) =~= orig1.take(0));
            assert(old(alarm).deliveries().take(alen0) =~= old(alarm).deliveries());
            assert(old(buf2).contents().skip(len2_0) =~= Seq::<InfView>::empty());
            assert(event_ids(old(alarm).deliveries().skip(alen0)) =~= fraud_ids(
                old(buf2).contents().skip(len2_0),
            ));
            assert(old(modelizer).flag_log().take(mlen0) =~= old(modelizer).flag_log());
            assert(flags_of(old(buf2).contents().skip(len2_0)) =~= old(modelizer).flag_log().skip(
                mlen0,
            ));
        }
        loop
            invariant
                self.config() == old(self).config(),
                self.config().n2_max >= 1,
                modelizer.model_name() == old(modelizer).model_name(),
                modelizer.label(ModelVersion::N) == old(modelizer).label(ModelVersion::N),
                modelizer.label(ModelVersion::NMinus1) == old(modelizer).label(
                    ModelVersion::NMinus1,
                ),
                modelizer.active() == old(modelizer).active(),
                buf2.is_closed() == old(buf2).is_closed(),
                orig1 == old(buf1).read_contents(),
                len2_0 == old(buf2).contents().len() as int,
                alen0 == old(alarm).deliveries().len() as int,
                mlen0 == old(modelizer).flag_log().len() as int,
                len2_0 <= buf2.contents().len(),
                alen0 <= alarm.deliveries().len(),
                mlen0 <= modelizer.flag_log().len(),
                alarm.deliveries().take(alen0) == old(alarm).deliveries(),
                modelizer.flag_log().take(mlen0) == old(modelizer).flag_log(),
                event_ids(alarm.deliveries().skip(alen0)) == fraud_ids(
                    buf2.contents().skip(len2_0),
                ),
                flags_of(buf2.contents().skip(len2_0)) == modelizer.flag_log().skip(mlen0),
                old(self).source().is_seeded() ==> self.source().is_seeded() && self.source().seed()
                    == old(self).source().seed(),
                !old(self).source().is_seeded() ==> !self.source().is_seeded(),
                buf2.contents().take(len2_0) == old(buf2).contents(),
                buf1.read_contents().len() <= orig1.len(),
                buf1.read_contents() == orig1.skip(
                    orig1.len() - buf1.read_contents().len(),
                ),
                buf2.contents().len() - len2_0 == orig1.len() - buf1.read_contents().len(),
                txs_of(buf2.contents().skip(len2_0)) == orig1.take(
                    buf2.contents().len() - len2_0,
                ),
                forall|i: int| len2_0 <= i < buf2.contents().len() ==> {
                    &&& (#[trigger] buf2.contents()[i]).model_name == old(
                        modelizer,
                    ).model_name()
                    &&& buf2.contents()[i].model_version == old(modelizer).label(
                        old(modelizer).active(),
                    )
                },
            decreases buf1.read_contents().len(),
        {
            let ghost pre1 = buf1.read_contents();
            let ghost pre2 = buf2.contents();
            let ghost pre_alarm = alarm.deliveries();
            let ghost pre_flags = modelizer.flag_log();
            match self.consume_once(buf1, modelizer, alarm, buf2) {
                Ok(_failures) => {
                    proof {
                        let c1 = orig1.len() - pre1.len();
                        let t = pre1.len() - buf1.read_contents().len();
                        assert(buf1.read_contents() =~= orig1.skip(c1 + t));
                        lemma_prefix_trans(buf2.contents(), pre2, old(buf2).contents());
                        lemma_prefix_trans(alarm.deliveries(), pre_alarm, old(alarm).deliveries());
                        let pre_events = pre_alarm.skip(alen0);
                        let batch_events = alarm.deliveries().skip(pre_alarm.len() as int);
                        let pre_appended = pre2.skip(len2_0);
                        let batch_appended = buf2.contents().skip(pre2.len() as int);
                        assert forall|i: int|
                            0 <= i < pre_alarm.len() - alen0 implies #[trigger] alarm.deliveries()[i
                            + alen0] == pre_alarm[i + alen0] by {
                            assert(alarm.deliveries().take(pre_alarm.len() as int)[i + alen0]
                                == pre_alarm[i + alen0]);
                        }
                        assert(alarm.deliveries().skip(alen0) =~= pre_events + batch_events);
                        assert forall|i: int|
                            0 <= i < pre2.len() - len2_0 implies #[trigger] buf2.contents()[i
                            + len2_0] == pre2[i + len2_0] by {
                            assert(buf2.contents().take(pre2.len() as int)[i + len2_0]
                                == pre2[i + len2_0]);
                        }
                        assert(buf2.contents().skip(len2_0) =~= pre_appended + batch_appended);
                        lemma_fraud_ids_concat(pre_appended, batch_appended);
                        assert(event_ids(pre_events + batch_events) =~= event_ids(pre_events)
                            + event_ids(batch_events));
                        assert(event_ids(alarm.deliveries().skip(alen0)) =~= fraud_ids(
                            buf2.contents().skip(len2_0),
                        ));
                        lemma_prefix_trans(
                            modelizer.flag_log(),
                            pre_flags,
                            old(modelizer).flag_log(),
                        );
                        let pre_fl = pre_flags.skip(mlen0);
                        let batch_fl = modelizer.flag_log().skip(pre_flags.len() as int);
                        assert forall|i: int|
                            0 <= i < pre_flags.len() - mlen0 implies #[trigger] modelizer
                            .flag_log()[i + mlen0] == pre_flags[i + mlen0] by {
                            assert(modelizer.flag_log().take(pre_flags.len() as int)[i + mlen0]
                                == pre_flags[i + mlen0]);
                        }
                        assert(modelizer.flag_log().skip(mlen0) =~= pre_fl + batch_fl);
                        assert(flags_of(buf2.contents().skip(len2_0)) =~= flags_of(pre_appended)
                            + flags_of(batch_appended));
                        assert(flags_of(buf2.contents().skip(len2_0)) =~= modelizer.flag_log().skip(
                            mlen0,
                        ));
                        let appended = buf2.contents().skip(len2_0);
                        assert forall|i: int| 0 <= i < appended.len() implies (
                        #[trigger] txs_of(appended)[i]) == orig1.take(
                            buf2.contents().len() - len2_0,
                        )[i] by {
                            if i < pre2.len() - len2_0 {
                                assert(buf2.contents().take(pre2.len() as int)[i + len2_0]
                                    == pre2[i + len2_0]);
                                assert(txs_of(pre2.skip(len2_0))[i] == orig1.take(
                                    pre2.len() - len2_0,
                                )[i]);
                            } else {
                                let j = i - (pre2.len() - len2_0);
                                assert(buf2.contents().skip(pre2.len() as int)[j].transaction
                                    == pre1[j]);
                                assert(pre1[j] == orig1.skip(c1)[j]);
                            }
                        }
                        assert(txs_of(buf2.contents().skip(len2_0)) =~= orig1.take(
                            buf2.contents().len() - len2_0,
                        ));
                        assert forall|i: int|
                            len2_0 <= i < buf2.contents().len() implies {
                            &&& (#[trigger] buf2.contents()[i]).model_name == old(
                                modelizer,
                            ).model_name()
                            &&& buf2.contents()[i].model_version == old(modelizer).label(
                                old(modelizer).active(),
                            )
                        } by {
                            if i < pre2.len() {
                                assert(buf2.contents().take(pre2.len() as int)[i] == pre2[i]);
                            } else {
                                assert(buf2.contents().skip(pre2.len() as int)[i - pre2.len()]
                                    == buf2.contents()[i]);
                            }
                        }
                    }
                },
                Err(ConsumerError::Read(BufferError::Closed)) => {
                    proof {
                        if orig1.len() == 0 {
                            lemma_run_on_drained_input(
                                orig1,
                                len2_0,
                                alen0,
                                old(buf2).contents(),
                                old(alarm).deliveries(),
                                buf1.read_contents(),
                                buf2.contents(),
                                alarm.deliveries(),
                            );
                        }
                    }
                    return Ok(());
                },
                Err(e) => {
                    proof {
                        assert(!(e is Read));
                        if e is Inference || e is Write {
                            let m = choose|m: int|
                                1 <= m <= pre1.len() && buf1.read_contents() == pre1.skip(m);
                            assert(buf1.read_contents() =~= orig1.skip(
                                orig1.len() - buf1.read_contents().len(),
                            ));
                        }
                        if e is Write {
                            lemma_prefix_trans(
                                alarm.deliveries(),
                                pre_alarm,
                                old(alarm).deliveries(),
                            );
                        } else {
                            assert(alarm.deliveries() == pre_alarm);
                        }
                        lemma_prefix_trans(
                            modelizer.flag_log(),
                            pre_flags,
                            old(modelizer).flag_log(),
                        );
                    }
                    return Err(e);
                },
            }
            count = count.wrapping_add(1);
            if let Some(max) = self.config.iterations {
                if count >= max {
                    proof {
                        if orig1.len() == 0 {
                            lemma_run_on_drained_input(
                                orig1,
                                len2_0,
                                alen0,
                                old(buf2).contents(),
                                old(alarm).deliveries(),
                                buf1.read_contents(),
                                buf2.contents(),
                                alarm.deliveries(),
                            );
                        }
                    }
                    return Ok(());
                }
            }
        }
    }

    /// Delegate a model version switch to the modelizer port.
    ///
    /// The consumer stores no version state; on success the modelizer's
    /// active version is `version`.
    pub fn switch_model_version<M: Modelizer>(
        &mut self,
        modelizer: &mut M,
        version: ModelVersion,
    ) -> (r: Result<(), ConsumerError>)
        ensures
            *final(self) == *old(self),
            final(modelizer).model_name() == old(modelizer).model_name(),
            final(modelizer).label(ModelVersion::N) == old(modelizer).label(ModelVersion::N),
            final(modelizer).label(ModelVersion::NMinus1) == old(modelizer).label(
                ModelVersion::NMinus1,
            ),
            r is Ok ==> final(modelizer).active() == version,
            r matches Err(e) ==> final(modelizer).active() == old(modelizer).active()
                && (e matches ConsumerError::Inference(i) && i is SwitchFailed),
    {
        match modelizer.switch_version(version) {
            Ok(()) => Ok(()),
            Err(e) => Err(ConsumerError::Inference(e)),
        }
    }
}

} // verus!
