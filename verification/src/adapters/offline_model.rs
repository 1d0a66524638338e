//! Adapter for the model port standing in for an unreachable backend.
//!
//! Every classification fails with `InferenceFailed` and every switch with
//! `SwitchFailed`, which exercises the terminal error paths of the stages.

use vstd::prelude::*;
use crate::domain::{ModelVersion, ModelizerError, Transaction};
use crate::ports::Model;

verus! {

/// Model whose backend cannot be reached.
pub struct OfflineModel {
    active_v: ModelVersion,
    fault_trail: Ghost<Seq<Seq<char>>>,
}

impl OfflineModel {
    /// Create a new offline model; nominally at the latest version.
    pub fn new() -> (r: OfflineModel)
        ensures
            r.active() == ModelVersion::N,
            r.faults() == Seq::<Seq<char>>::empty(),
    {
        OfflineModel { active_v: ModelVersion::N, fault_trail: Ghost(Seq::empty()) }
    }
}

impl Model for OfflineModel {
    open spec fn model_name(&self) -> Seq<char> {
        "OFFLINE"@
    }

    open spec fn label(&self, v: ModelVersion) -> Seq<char> {
        match v {
            ModelVersion::N => "1"@,
            ModelVersion::NMinus1 => "0"@,
        }
    }

    closed spec fn active(&self) -> ModelVersion {
        self.active_v
    }

    open spec fn verdicts(&self) -> Seq<bool> {
        Seq::empty()
    }

    closed spec fn faults(&self) -> Seq<Seq<char>> {
        self.fault_trail@
    }

    /// Returns `"OFFLINE"`.
    fn name(&self) -> (r: String) {
        String::from_str("OFFLINE")
    }

    /// Returns the label of the nominally active version.
    fn active_version(&self) -> (r: String) {
        match self.active_v {
            ModelVersion::N => String::from_str("1"),
            ModelVersion::NMinus1 => String::from_str("0"),
        }
    }

    /// Always fails with `InferenceFailed`.
    fn classify(&mut self, tx: &Transaction) -> (r: Result<bool, ModelizerError>)
        ensures
            r is Err,
    {
        self.fault_trail = Ghost(self.fault_trail@.push("model backend unreachable"@));
        Err(ModelizerError::InferenceFailed { reason: String::from_str("model backend unreachable") })
    }

    /// Always fails with `SwitchFailed`.
    fn switch_version(&mut self, version: ModelVersion) -> (r: Result<(), ModelizerError>)
        ensures
            r is Err,
    {
        Err(ModelizerError::SwitchFailed { reason: String::from_str("model backend unreachable") })
    }
}

} // verus!
