//! Producer stage: synthesizes random transaction batches and writes them
//! to the first buffer.
//!
//! Batch sizes are drawn from `[1, n1_max]`; every generated transaction
//! has a version-4-shaped random identifier, an amount in cents within
//! `[1, 1_000_000]`, and a last name from a built-in pool.  A seeded
//! producer's output is a pure function of its seed and draw position.

use vstd::prelude::*;
use crate::domain::{BufferError, MAX_AMOUNT_CENTS, Transaction, TxView};
use crate::ports::{Buffer1, lemma_prefix_trans, tx_views};
use crate::rng::{Entropy, in_range, next_position, stream_value};

verus! {

/// Errors that can occur during transaction production.
#[derive(Debug)]
pub enum ProducerError {
    /// The supplied configuration is invalid.
    InvalidConfig { reason: String },
    /// A buffer write failed.
    Buffer { source: BufferError },
}

/// Runtime configuration for a [`Producer`]; construct via
/// [`ProducerConfig::builder`].
#[derive(Debug)]
pub struct ProducerConfig {
    /// Maximum number of transactions per batch (sizes range over `[1, n1_max]`).
    pub n1_max: usize,
    /// Delay between successive batch writes, in milliseconds.
    pub poll_interval1: u64,
    /// Optional upper bound on the number of iterations; `None` means unbounded.
    pub iterations: Option<u64>,
    /// Optional RNG seed for reproducible batches; `None` seeds from the OS.
    pub seed: Option<u64>,
}

/// Builder for [`ProducerConfig`].
#[derive(Debug)]
pub struct ProducerConfigBuilder {
    n1_max: usize,
    poll_interval1: u64,
    iterations: Option<u64>,
    seed: Option<u64>,
}

impl ProducerConfig {
    /// Create a builder.  `n1_max` is the only required parameter; defaults:
    /// a 100 ms delay, no iteration cap, OS seeding.
    pub fn builder(n1_max: usize) -> (r: ProducerConfigBuilder)
        ensures
            r.staged() == (ProducerConfig {
                n1_max,
                poll_interval1: 100u64,
                iterations: None::<u64>,
                seed: None::<u64>,
            }),
    {
        ProducerConfigBuilder { n1_max, poll_interval1: 100, iterations: None, seed: None }
    }
}

impl ProducerConfigBuilder {
    /// The configuration this builder would build.
    pub closed spec fn staged(&self) -> ProducerConfig {
        ProducerConfig {
            n1_max: self.n1_max,
            poll_interval1: self.poll_interval1,
            iterations: self.iterations,
            seed: self.seed,
        }
    }

    /// Override the inter-batch delay (milliseconds).
    pub fn poll_interval1(self, poll_interval1: u64) -> (r: ProducerConfigBuilder)
        ensures
            r.staged() == (ProducerConfig { poll_interval1, ..self.staged() }),
    {
        ProducerConfigBuilder { poll_interval1, ..self }
    }

    /// Set a finite iteration count.  Without one the producer runs until
    /// the buffer signals `Closed`.
    pub fn iterations(self, n: u64) -> (r: ProducerConfigBuilder)
        ensures
            r.staged() == (ProducerConfig { iterations: Some(n), ..self.staged() }),
    {
        ProducerConfigBuilder { iterations: Some(n), ..self }
    }

    /// Fix the RNG seed for deterministic output.
    pub fn seed(self, seed: u64) -> (r: ProducerConfigBuilder)
        ensures
            r.staged() == (ProducerConfig { seed: Some(seed), ..self.staged() }),
    {
        ProducerConfigBuilder { seed: Some(seed), ..self }
    }

    /// Validate and build: `n1_max` must be at least 1.
    pub fn build(self) -> (r: Result<ProducerConfig, ProducerError>)
        ensures
            self.staged().n1_max == 0 ==> r is Err,
            self.staged().n1_max >= 1 ==> r == Ok::<ProducerConfig, ProducerError>(self.staged()),
            r matches Err(e) ==> e is InvalidConfig,
    {
        if self.n1_max == 0 {
            Err(ProducerError::InvalidConfig {
                reason: String::from_str("n1_max must be >= 1"),
            })
        } else {
            Ok(ProducerConfig {
                n1_max: self.n1_max,
                poll_interval1: self.poll_interval1,
                iterations: self.iterations,
                seed: self.seed,
            })
        }
    }
}

/// The built-in pool of last names for synthetic transactions.
pub open spec fn name_pool() -> Seq<Seq<char>> {
    seq![
        "Smith"@,
        "Johnson"@,
        "Williams"@,
        "Brown"@,
        "Jones"@,
        "Garcia"@,
        "Miller"@,
        "Davis"@,
        "Wilson"@,
        "Taylor"@,
    ]
}

/// Every name in the pool is non-empty, and the pool holds ten of them.
pub proof fn lemma_name_pool_wf()
    ensures
        name_pool().len() == 10,
        forall|i: int| 0 <= i < 10 ==> (#[trigger] name_pool()[i]).len() > 0,
{
    reveal_strlit("Smith");
    reveal_strlit("Johnson");
    reveal_strlit("Williams");
    reveal_strlit("Brown");
    reveal_strlit("Jones");
    reveal_strlit("Garcia");
    reveal_strlit("Miller");
    reveal_strlit("Davis");
    reveal_strlit("Wilson");
    reveal_strlit("Taylor");
    assert forall|i: int| 0 <= i < 10 implies (#[trigger] name_pool()[i]).len() > 0 by {
        if i == 0 {
            assert(name_pool()[0].len() == 5);
        } else if i == 1 {
            assert(name_pool()[1].len() == 7);
        } else if i == 2 {
            assert(name_pool()[2].len() == 8);
        } else if i == 3 {
            assert(name_pool()[3].len() == 5);
        } else if i == 4 {
            assert(name_pool()[4].len() == 5);
        } else if i == 5 {
            assert(name_pool()[5].len() == 6);
        } else if i == 6 {
            assert(name_pool()[6].len() == 6);
        } else if i == 7 {
            assert(name_pool()[7].len() == 5);
        } else if i == 8 {
            assert(name_pool()[8].len() == 6);
        } else {
            assert(name_pool()[9].len() == 6);
        }
    }
}

/// The ten names of the pool are pairwise distinct.
pub proof fn lemma_name_pool_distinct()
    ensures
        forall|i: int, j: int|
            0 <= i < 10 && 0 <= j < 10 && i != j ==> name_pool()[i] != name_pool()[j],
{
    reveal_strlit("Smith");
    reveal_strlit("Johnson");
    reveal_strlit("Williams");
    reveal_strlit("Brown");
    reveal_strlit("Jones");
    reveal_strlit("Garcia");
    reveal_strlit("Miller");
    reveal_strlit("Davis");
    reveal_strlit("Wilson");
    reveal_strlit("Taylor");
    assert forall|i: int, j: int|
        0 <= i < 10 && 0 <= j < 10 && i != j implies name_pool()[i] != name_pool()[j] by {
        assert(name_pool()[0][0] == 'S' && name_pool()[0].len() == 5);
        assert(name_pool()[1][0] == 'J' && name_pool()[1].len() == 7);
        assert(name_pool()[2][0] == 'W' && name_pool()[2].len() == 8);
        assert(name_pool()[3][0] == 'B' && name_pool()[3].len() == 5);
        assert(name_pool()[4][0] == 'J' && name_pool()[4].len() == 5);
        assert(name_pool()[5][0] == 'G' && name_pool()[5].len() == 6);
        assert(name_pool()[6][0] == 'M' && name_pool()[6].len() == 6);
        assert(name_pool()[7][0] == 'D' && name_pool()[7].len() == 5);
        assert(name_pool()[8][0] == 'W' && name_pool()[8].len() == 6);
        assert(name_pool()[9][0] == 'T' && name_pool()[9].len() == 6);
    }
}

/// The `i`-th name of the pool, as an owned string.
fn last_name_at(i: usize) -> (r: String)
    requires
        i < 10,
    ensures
        r@ == name_pool()[i as int],
{
    if i == 0 {
        String::from_str("Smith")
    } else if i == 1 {
        String::from_str("Johnson")
    } else if i == 2 {
        String::from_str("Williams")
    } else if i == 3 {
        String::from_str("Brown")
    } else if i == 4 {
        String::from_str("Jones")
    } else if i == 5 {
        String::from_str("Garcia")
    } else if i == 6 {
        String::from_str("Miller")
    } else if i == 7 {
        String::from_str("Davis")
    } else if i == 8 {
        String::from_str("Wilson")
    } else {
        String::from_str("Taylor")
    }
}

/// A 128-bit value built from two 64-bit draws, with the version nibble set
/// to 4 and the variant bits set to the RFC form, as a version-4 UUID has.
pub open spec fn spec_uuid_v4(hi: u64, lo: u64) -> u128 {
    (((hi as u128) << 64 | (lo as u128)) & !(0xFu128 << 76) & !(0x3u128 << 62)) | (0x4u128 << 76)
        | (0x2u128 << 62)
}

/// Exec twin of [`spec_uuid_v4`].
fn uuid_v4_from(hi: u64, lo: u64) -> (r: u128)
    ensures
        r == spec_uuid_v4(hi, lo),
{
    (((hi as u128) << 64 | (lo as u128)) & !(0xFu128 << 76) & !(0x3u128 << 62)) | (0x4u128 << 76)
        | (0x2u128 << 62)
}

/// Draw position after `k` further draws.
pub open spec fn pos_plus(p: u64, k: nat) -> u64
    decreases k,
{
    if k == 0 {
        p
    } else {
        next_position(pos_plus(p, (k - 1) as nat))
    }
}

/// The size of the batch a seeded producer generates at position `p`.
pub open spec fn spec_batch_size(seed: u64, p: u64, n1_max: usize) -> usize
    recommends
        n1_max >= 1,
{
    in_range(stream_value(seed, p), n1_max as u64) as usize
}

/// The transaction a seeded producer builds from the four draws starting
/// at position `p`.
#[verifier::opaque]
pub open spec fn spec_tx(seed: u64, p: u64) -> TxView {
    TxView {
        id: spec_uuid_v4(stream_value(seed, p), stream_value(seed, pos_plus(p, 1))),
        amount_cents: in_range(stream_value(seed, pos_plus(p, 2)), MAX_AMOUNT_CENTS),
        last_name: name_pool()[(stream_value(seed, pos_plus(p, 3)) % 10) as int],
    }
}

/// The whole batch a seeded producer generates at position `p`: one size
/// draw, then four draws per transaction.
#[verifier::opaque]
pub open spec fn spec_batch(seed: u64, p: u64, n1_max: usize) -> Seq<TxView>
    recommends
        n1_max >= 1,
{
    Seq::new(
        spec_batch_size(seed, p, n1_max) as nat,
        |i: int| spec_tx(seed, pos_plus(p, (1 + 4 * i) as nat)),
    )
}

/// Generates random transaction batches and forwards them to a
/// [`Buffer1`] port.
#[derive(Debug)]
pub struct Producer {
    config: ProducerConfig,
    rng: Entropy,
}

impl Producer {
    /// The configuration this producer runs with.
    pub closed spec fn config(&self) -> ProducerConfig {
        self.config
    }

    /// The producer's randomness source.
    pub closed spec fn source(&self) -> Entropy {
        self.rng
    }

    /// Create a producer from `config`, seeding the RNG from `config.seed`
    /// if set, otherwise from the OS.
    pub fn new(config: ProducerConfig) -> (r: Producer)
        ensures
            r.config() == config,
            match config.seed {
                Some(s) => r.source() == (Entropy::Seeded { seed: s, position: 0u64 }),
                None => !r.source().is_seeded(),
            },
    {
        let rng = Entropy::from_seed(config.seed);
        Producer { config, rng }
    }

    /// Generate one batch of random transactions.
    ///
    /// The size is drawn from `[1, n1_max]`; every transaction is
    /// well-formed and its name comes from the pool.  A seeded producer's
    /// batch is exactly `spec_batch` at its current draw position.
    pub fn generate_batch(&mut self) -> (r: Vec<Transaction>)
        requires
            old(self).config().n1_max >= 1,
        ensures
            final(self).config() == old(self).config(),
            1 <= r@.len() <= old(self).config().n1_max,
            forall|i: int| 0 <= i < r@.len() ==> (#[trigger] r@[i])@.wf(),
            forall|i: int|
                0 <= i < r@.len() ==> name_pool().contains((#[trigger] r@[i])@.last_name),
            old(self).source().is_seeded() ==> {
                &&& tx_views(r@) == spec_batch(
                    old(self).source().seed(),
                    old(self).source().position(),
                    old(self).config().n1_max,
                )
                &&& final(self).source() == (Entropy::Seeded {
                    seed: old(self).source().seed(),
                    position: pos_plus(old(self).source().position(), (1 + 4 * r@.len()) as nat),
                })
            },
            !old(self).source().is_seeded() ==> !final(self).source().is_seeded(),
    {
        let ghost seed0: u64 = if self.rng.is_seeded() { self.rng.seed() } else { 0 };
        let ghost p0: u64 = if self.rng.is_seeded() { self.rng.position() } else { 0 };
        let size = self.rng.draw_in_range(self.config.n1_max);
        let mut batch: Vec<Transaction> = Vec::new();
        let mut j: usize = 0;
        proof {
            if old(self).source().is_seeded() {
                reveal(spec_batch);
                assert(pos_plus(p0, 0) == p0);
                lemma_pos_plus_succ(p0, 0);
                assert(self.source().position() == pos_plus(p0, 1));
                assert(tx_views(batch@) =~= spec_batch(seed0, p0, old(self).config().n1_max).take(
                    0,
                ));
            }
        }
        while j < size
            invariant
                j <= size,
                1 <= size <= self.config.n1_max,
                self.config == old(self).config(),
                batch@.len() == j,
                forall|i: int| 0 <= i < j ==> (#[trigger] batch@[i])@.wf(),
                forall|i: int| 0 <= i < j ==> name_pool().contains((#[trigger] batch@[i])@.last_name),
                old(self).source().is_seeded() ==> {
                    &&& size == spec_batch_size(seed0, p0, old(self).config().n1_max)
                    &&& self.source() == (Entropy::Seeded {
                        seed: seed0,
                        position: pos_plus(p0, (1 + 4 * j) as nat),
                    })
                    &&& tx_views(batch@) == spec_batch(seed0, p0, old(self).config().n1_max).take(
                        j as int,
                    )
                },
                !old(self).source().is_seeded() ==> !self.source().is_seeded(),
            decreases size - j,
        {
            let ghost p_tx: u64 = if self.rng.is_seeded() { self.rng.position() } else { 0 };
            let hi = self.rng.next();
            let lo = self.rng.next();
            let id = uuid_v4_from(hi, lo);
            let cents_raw = self.rng.next();
            let amount_cents = 1 + cents_raw % MAX_AMOUNT_CENTS;
            let name_raw = self.rng.next();
            let name_idx = (name_raw % 10) as usize;
            let last_name = last_name_at(name_idx);
            let tx = Transaction { id, amount_cents, last_name };
            proof {
                lemma_name_pool_wf();
                assert(name_pool().contains(tx@.last_name)) by {
                    assert(name_pool()[name_idx as int] == tx@.last_name);
                }
                assert(tx@.wf());
                if old(self).source().is_seeded() {
                    reveal(spec_tx);
                    let k: nat = (1 + 4 * j) as nat;
                    assert(p_tx == pos_plus(p0, k));
                    lemma_pos_plus_succ(p0, k);
                    lemma_pos_plus_succ(p0, k + 1);
                    lemma_pos_plus_succ(p0, k + 2);
                    lemma_pos_plus_succ(p0, k + 3);
                    assert(pos_plus(p_tx, 0) == p_tx);
                    lemma_pos_plus_succ(p_tx, 0);
                    lemma_pos_plus_succ(p_tx, 1);
                    lemma_pos_plus_succ(p_tx, 2);
                    assert(pos_plus(p_tx, 1) == pos_plus(p0, k + 1));
                    assert(pos_plus(p_tx, 2) == pos_plus(p0, k + 2));
                    assert(pos_plus(p_tx, 3) == pos_plus(p0, k + 3));
                    assert(hi == stream_value(seed0, p_tx));
                    assert(lo == stream_value(seed0, pos_plus(p_tx, 1)));
                    assert(cents_raw == stream_value(seed0, pos_plus(p_tx, 2)));
                    assert(name_raw == stream_value(seed0, pos_plus(p_tx, 3)));
                    assert(tx@ == spec_tx(seed0, p_tx));
                    assert(self.source().position() == pos_plus(p0, k + 4));
                }
            }
            batch.push(tx);
            j = j + 1;
            proof {
                if old(self).source().is_seeded() {
                    reveal(spec_batch);
                    assert((1 + 4 * j) as nat == (1 + 4 * (j - 1)) as nat + 4);
                    assert(spec_batch(seed0, p0, old(self).config().n1_max)[j - 1] == spec_tx(
                        seed0,
                        pos_plus(p0, (1 + 4 * (j - 1)) as nat),
                    ));
                    assert(tx_views(batch@) =~= spec_batch(
                        seed0,
                        p0,
                        old(self).config().n1_max,
                    ).take(j as int));
                }
            }
        }
        proof {
            if old(self).source().is_seeded() {
                reveal(spec_batch);
                assert(tx_views(batch@) =~= spec_batch(seed0, p0, old(self).config().n1_max));
            }
        }
        batch
    }

    /// Generate one batch and write it to `buffer`.
    ///
    /// On success the buffer gained the whole batch at its tail: between 1
    /// and `n1_max` well-formed transactions (for a seeded producer,
    /// exactly `spec_batch`).  On failure the buffer is unchanged and the
    /// buffer's error is surfaced.
    pub fn produce_once<B: Buffer1>(&mut self, buffer: &mut B) -> (r: Result<(), ProducerError>)
        requires
            old(self).config().n1_max >= 1,
        ensures
            final(self).config() == old(self).config(),
            final(buffer).is_closed() == old(buffer).is_closed(),
            final(buffer).full_capacity() == old(buffer).full_capacity(),
            old(self).source().is_seeded() ==> final(self).source().is_seeded()
                && final(self).source().seed() == old(self).source().seed(),
            !old(self).source().is_seeded() ==> !final(self).source().is_seeded(),
            old(buffer).is_closed() ==> r == Err::<(), ProducerError>(ProducerError::Buffer {
                source: BufferError::Closed,
            }),
            r == Err::<(), ProducerError>(ProducerError::Buffer { source: BufferError::Closed })
                ==> old(buffer).is_closed(),
            !old(buffer).is_closed() && (forall|n: nat|
                n <= old(self).config().n1_max ==> old(buffer).accepts(n)) ==> r is Ok,
            match r {
                Ok(()) => {
                    &&& !old(buffer).is_closed()
                    &&& old(buffer).contents().len() < final(buffer).contents().len()
                    &&& final(buffer).contents().len() <= old(buffer).contents().len() + old(
                        self,
                    ).config().n1_max
                    &&& final(buffer).contents().take(old(buffer).contents().len() as int) == old(
                        buffer,
                    ).contents()
                    &&& forall|i: int|
                        old(buffer).contents().len() <= i < final(buffer).contents().len()
                            ==> (#[trigger] final(buffer).contents()[i]).wf()
                    &&& old(self).source().is_seeded() ==> final(buffer).contents() == old(
                        buffer,
                    ).contents() + spec_batch(
                        old(self).source().seed(),
                        old(self).source().position(),
                        old(self).config().n1_max,
                    )
                },
                Err(ProducerError::Buffer { source }) => {
                    &&& *final(buffer) == *old(buffer)
                    &&& (source matches BufferError::Full { capacity } ==> {
                        &&& capacity == old(buffer).full_capacity()
                        &&& !old(buffer).is_closed()
                        &&& !(forall|n: nat|
                            n <= old(self).config().n1_max ==> old(buffer).accepts(n))
                    })
                },
                Err(ProducerError::InvalidConfig { .. }) => false,
            },
    {
        let ghost pre = *buffer;
        let batch = self.generate_batch();
        let ghost views = tx_views(batch@);
        match buffer.write_batch(batch) {
            Ok(()) => {
                proof {
                    assert(final(buffer).contents().take(pre.contents().len() as int)
                        =~= pre.contents());
                }
                Ok(())
            },
            Err(source) => Err(ProducerError::Buffer { source }),
        }
    }

    /// Run the production loop until stopped.
    ///
    /// Writes batch after batch.  Stops cleanly with `Ok` when the buffer
    /// signals `Closed` or when `iterations` batches have been written;
    /// any other buffer failure is surfaced.  Without an iteration cap the
    /// loop carries a defensive bound of `u64::MAX` batches, far beyond
    /// what any run can reach.  Whatever happens, everything already
    /// queued stays queued, in order, and only well-formed transactions
    /// are appended; on an open, unbounded buffer with an iteration cap of
    /// `m`, exactly `m` batches and at least `m` transactions are appended.
    #[verifier::rlimit(50)]
    pub fn run<B: Buffer1>(&mut self, buffer: &mut B) -> (r: Result<(), ProducerError>)
        requires
            old(self).config().n1_max >= 1,
        ensures
            final(self).config() == old(self).config(),
            final(buffer).is_closed() == old(buffer).is_closed(),
            final(buffer).contents().take(old(buffer).contents().len() as int) == old(
                buffer,
            ).contents(),
            forall|i: int|
                old(buffer).contents().len() <= i < final(buffer).contents().len()
                    ==> (#[trigger] final(buffer).contents()[i]).wf(),
            old(self).source().is_seeded() ==> final(self).source().is_seeded()
                && final(self).source().seed() == old(self).source().seed(),
            !old(self).source().is_seeded() ==> !final(self).source().is_seeded(),
            old(buffer).is_closed() ==> r is Ok && final(buffer).contents() == old(
                buffer,
            ).contents(),
            match r {
                Ok(()) => old(self).config().iterations is Some || old(buffer).is_closed()
                    || final(buffer).contents().len() >= old(buffer).contents().len() + u64::MAX,
                Err(e) => e matches ProducerError::Buffer { source: BufferError::Full { capacity } }
                    && capacity == old(buffer).full_capacity()
                    && !old(buffer).is_closed()
                    && !(forall|n: nat|
                        n <= old(self).config().n1_max ==> final(buffer).accepts(n)),
            },
            old(self).config().iterations matches Some(m) ==> final(buffer).contents().len() <= old(
                buffer,
            ).contents().len() + m * old(self).config().n1_max,
            old(self).config().iterations matches Some(m) ==> ((!old(buffer).is_closed() && (
            forall|b: B, n: nat| #[trigger] b.accepts(n))) ==> r is Ok
                && final(buffer).contents().len() >= old(buffer).contents().len() + m),
    {
        let cap: u64 = match self.config.iterations {
            Some(m) => m,
            None => u64::MAX,
        };
        let mut count: u64 = 0;
        proof {
            assert(old(buffer).contents().take(old(buffer).contents().len() as int)
                =~= old(buffer).contents());
        }
        if cap == 0 {
            return Ok(());
        }
        loop
            invariant
                count < cap,
                old(buffer).contents().len() <= buffer.contents().len(),
                self.config() == old(self).config(),
                self.config().n1_max >= 1,
                cap == match old(self).config().iterations {
                    Some(m) => m,
                    None => u64::MAX,
                },
                buffer.is_closed() == old(buffer).is_closed(),
                buffer.full_capacity() == old(buffer).full_capacity(),
                old(buffer).is_closed() ==> buffer.contents() == old(buffer).contents(),
                buffer.contents().take(old(buffer).contents().len() as int) == old(
                    buffer,
                ).contents(),
                forall|i: int|
                    old(buffer).contents().len() <= i < buffer.contents().len()
                        ==> (#[trigger] buffer.contents()[i]).wf(),
                buffer.contents().len() >= old(buffer).contents().len() + count,
                buffer.contents().len() <= old(buffer).contents().len() + count * old(
                    self,
                ).config().n1_max,
                old(self).source().is_seeded() ==> self.source().is_seeded() && self.source().seed()
                    == old(self).source().seed(),
                !old(self).source().is_seeded() ==> !self.source().is_seeded(),
            decreases cap - count,
        {
            let ghost loop_pre = *buffer;
            match self.produce_once(buffer) {
                Ok(()) => {
                    proof {
                        let oldlen = old(buffer).contents().len() as int;
                        let prelen = loop_pre.contents().len() as int;
                        lemma_prefix_trans(
                            buffer.contents(),
                            loop_pre.contents(),
                            old(buffer).contents(),
                        );
                        assert forall|i: int|
                            oldlen <= i < buffer.contents().len() implies (#[trigger] buffer
                            .contents()[i]).wf() by {
                            if i < prelen {
                                assert(buffer.contents().take(prelen)[i] == loop_pre.contents()[i]);
                            }
                        }
                    }
                },
                Err(ProducerError::Buffer { source: BufferError::Closed }) => {
                    return Ok(());
                },
                Err(e) => {
                    proof {
                        match old(self).config().iterations {
                            Some(m) => lemma_mul_le(
                                count as int,
                                m as int,
                                old(self).config().n1_max as int,
                            ),
                            None => (),
                        }
                    }
                    return Err(e);
                },
            }
            proof {
                let n1 = old(self).config().n1_max as int;
                assert((count + 1) * n1 == count * n1 + n1) by (nonlinear_arith);
            }
            count = count + 1;
            if count >= cap {
                proof {
                    if old(self).config().iterations is Some {
                        lemma_mul_le(count as int, cap as int, old(self).config().n1_max as int);
                    }
                }
                return Ok(());
            }
        }
    }
}

/// Multiplying both sides of `a <= b` by a non-negative factor keeps the order.
proof fn lemma_mul_le(a: int, b: int, c: int)
    requires
        a <= b,
        0 <= c,
    ensures
        a * c <= b * c,
{
    vstd::arithmetic::mul::lemma_mul_inequality(a, b, c);
}

/// `pos_plus(p, k + 1)` is one step past `pos_plus(p, k)`.
proof fn lemma_pos_plus_succ(p: u64, k: nat)
    ensures
        pos_plus(p, k + 1) == next_position(pos_plus(p, k)),
{
}

/// Two seeded producers with the same seed, draw position and batch cap
/// generate the same batch: seeded generation is deterministic.
pub proof fn lemma_seeded_batch_deterministic(a: Producer, b: Producer)
    requires
        a.source().is_seeded(),
        b.source().is_seeded(),
        a.source() == b.source(),
        a.config().n1_max == b.config().n1_max,
    ensures
        spec_batch(a.source().seed(), a.source().position(), a.config().n1_max) == spec_batch(
            b.source().seed(),
            b.source().position(),
            b.config().n1_max,
        ),
{
}

} // verus!
