//! DEMO model adapter for the model port.
//!
//! Named `"DEMO"`, with two versions: `"4"` (latest) and `"3"` (previous).
//! Classification is probabilistic: a 4% fraud rate at version 4, 3% at
//! version 3.  A seeded model classifies deterministically, as a pure
//! function of its seed, its draw position and its active version.

use vstd::prelude::*;
use crate::domain::{ModelVersion, ModelizerError, Transaction};
use crate::ports::Model;
use crate::rng::{Entropy, stream_value};

verus! {

/// Fraud rate of `v`, in hundredths of a percent of the draw space.
pub open spec fn fraud_rate_of(v: ModelVersion) -> u64 {
    match v {
        ModelVersion::N => 400,
        ModelVersion::NMinus1 => 300,
    }
}

/// The verdict a seeded DEMO model reaches at draw position `position`.
pub open spec fn demo_verdict(seed: u64, position: u64, v: ModelVersion) -> bool {
    stream_value(seed, position) % 10_000 < fraud_rate_of(v)
}

/// Probabilistic model: flags about 4% of transactions at version `"4"`
/// and about 3% at version `"3"`.
pub struct DemoModel {
    current_version: ModelVersion,
    rng: Entropy,
    answers: Ghost<Seq<bool>>,
}

impl DemoModel {
    /// The model's randomness source.
    pub closed spec fn source(&self) -> Entropy {
        self.rng
    }

    /// Create a DEMO model, starting at the latest version.
    ///
    /// A given seed makes classification replayable; without one the model
    /// draws from OS entropy.
    pub fn new(seed: Option<u64>) -> (r: DemoModel)
        ensures
            r.active() == ModelVersion::N,
            match seed {
                Some(s) => r.source() == (Entropy::Seeded { seed: s, position: 0u64 }),
                None => !r.source().is_seeded(),
            },
            r.verdicts() == Seq::<bool>::empty(),
    {
        DemoModel {
            current_version: ModelVersion::N,
            rng: Entropy::from_seed(seed),
            answers: Ghost(Seq::empty()),
        }
    }

    /// Fraud rate of the active version, in hundredths of a percent.
    fn fraud_rate(&self) -> (r: u64)
        ensures
            r == fraud_rate_of(self.active()),
    {
        match self.current_version {
            ModelVersion::N => 400,
            ModelVersion::NMinus1 => 300,
        }
    }
}

impl Model for DemoModel {
    open spec fn model_name(&self) -> Seq<char> {
        "DEMO"@
    }

    open spec fn label(&self, v: ModelVersion) -> Seq<char> {
        match v {
            ModelVersion::N => "4"@,
            ModelVersion::NMinus1 => "3"@,
        }
    }

    closed spec fn active(&self) -> ModelVersion {
        self.current_version
    }

    closed spec fn verdicts(&self) -> Seq<bool> {
        self.answers@
    }

    open spec fn faults(&self) -> Seq<Seq<char>> {
        Seq::empty()
    }

    /// Returns `"DEMO"`.
    fn name(&self) -> (r: String) {
        String::from_str("DEMO")
    }

    /// Returns `"4"` at version `N`, `"3"` at version `NMinus1`.
    fn active_version(&self) -> (r: String) {
        match self.current_version {
            ModelVersion::N => String::from_str("4"),
            ModelVersion::NMinus1 => String::from_str("3"),
        }
    }

    /// Draw once and flag the transaction with the active version's rate.
    ///
    /// Never fails; a seeded model's verdict is `demo_verdict` at its
    /// current draw position.
    fn classify(&mut self, tx: &Transaction) -> (r: Result<bool, ModelizerError>)
        ensures
            r is Ok,
            old(self).source().is_seeded() ==> {
                &&& r == Ok::<bool, ModelizerError>(demo_verdict(
                    old(self).source().seed(),
                    old(self).source().position(),
                    old(self).active(),
                ))
                &&& final(self).source() == old(self).source().stepped()
            },
            !old(self).source().is_seeded() ==> !final(self).source().is_seeded(),
    {
        let rate = self.fraud_rate();
        let roll = self.rng.next() % 10_000;
        let flagged = roll < rate;
        self.answers = Ghost(self.answers@.push(flagged));
        Ok(flagged)
    }

    /// Switch the active version; takes effect on the next `classify`.
    fn switch_version(&mut self, version: ModelVersion) -> (r: Result<(), ModelizerError>)
        ensures
            r is Ok,
            final(self).source() == old(self).source(),
    {
        self.current_version = version;
        Ok(())
    }
}

/// Seeded classification is deterministic: two seeded DEMO models with
/// equal seeds, draw positions and active versions classify identically.
pub proof fn lemma_demo_verdict_deterministic(a: DemoModel, b: DemoModel)
    requires
        a.source().is_seeded(),
        b.source().is_seeded(),
        a.source() == b.source(),
        a.active() == b.active(),
    ensures
        demo_verdict(a.source().seed(), a.source().position(), a.active()) == demo_verdict(
            b.source().seed(),
            b.source().position(),
            b.active(),
        ),
{
}

} // verus!
