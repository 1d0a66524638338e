//! Deterministic zero-overhead adapter for the model port.
//!
//! Always classifies transactions as legitimate: no randomness, no state,
//! no alarms downstream.  Meant for throughput measurements of the
//! pipeline itself.

use vstd::prelude::*;
use crate::domain::{ModelVersion, ModelizerError, Transaction};
use crate::ports::Model;

verus! {

/// Model that answers `false` (no fraud) for every transaction.
pub struct BenchModel {
    active_v: Ghost<ModelVersion>,
    answers: Ghost<Seq<bool>>,
}

impl BenchModel {
    /// Create a new bench model; starts at the latest version.
    pub fn new() -> (r: BenchModel)
        ensures
            r.active() == ModelVersion::N,
            r.verdicts() == Seq::<bool>::empty(),
    {
        BenchModel { active_v: Ghost(ModelVersion::N), answers: Ghost(Seq::empty()) }
    }
}

impl Model for BenchModel {
    open spec fn model_name(&self) -> Seq<char> {
        "BENCH"@
    }

    open spec fn label(&self, v: ModelVersion) -> Seq<char> {
        "1"@
    }

    closed spec fn active(&self) -> ModelVersion {
        self.active_v@
    }

    closed spec fn verdicts(&self) -> Seq<bool> {
        self.answers@
    }

    open spec fn faults(&self) -> Seq<Seq<char>> {
        Seq::empty()
    }

    /// Returns `"BENCH"`.
    fn name(&self) -> (r: String) {
        String::from_str("BENCH")
    }

    /// Returns `"1"`, the only version this model has.
    fn active_version(&self) -> (r: String) {
        String::from_str("1")
    }

    /// Always returns `Ok(false)`: no fraud.
    fn classify(&mut self, tx: &Transaction) -> (r: Result<bool, ModelizerError>)
        ensures
            r == Ok::<bool, ModelizerError>(false),
    {
        self.answers = Ghost(self.answers@.push(false));
        Ok(false)
    }

    /// Accepts the switch; both versions carry the same label here.
    fn switch_version(&mut self, version: ModelVersion) -> (r: Result<(), ModelizerError>)
        ensures
            r is Ok,
    {
        self.active_v = Ghost(version);
        Ok(())
    }
}

} // verus!
