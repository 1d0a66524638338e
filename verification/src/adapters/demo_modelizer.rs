//! Demo adapter for the modelizer port.
//!
//! Classifies every transaction the same way, as configured at
//! construction: all fraudulent or all legitimate.  Stamps records with
//! model name `"DINN"` and version `"v1"` (latest) or `"v0"` (previous).

use vstd::prelude::*;
use crate::domain::{InferredTransaction, ModelVersion, ModelizerError, Transaction};
use crate::ports::Modelizer;
use crate::ports::{flags_of, inf_views};

verus! {

/// Modelizer that flags everything, or nothing.
pub struct DemoModelizer {
    always_fraud: bool,
    current_version: ModelVersion,
    classified: Ghost<nat>,
}

impl DemoModelizer {
    /// Whether every transaction is classified as fraudulent.
    pub closed spec fn flags_everything(&self) -> bool {
        self.always_fraud
    }

    /// How many transactions have been classified so far.
    pub closed spec fn classified_count(&self) -> nat {
        self.classified@
    }

    /// Create a demo modelizer, starting at the latest version.
    ///
    /// With `always_fraud` every transaction is classified as fraudulent;
    /// without it, every transaction is classified as legitimate.
    pub fn new(always_fraud: bool) -> (r: DemoModelizer)
        ensures
            r.flags_everything() == always_fraud,
            r.active() == ModelVersion::N,
            r.flag_log() == Seq::<bool>::empty(),
    {
        DemoModelizer { always_fraud, current_version: ModelVersion::N, classified: Ghost(0) }
    }
}

impl Modelizer for DemoModelizer {
    open spec fn model_name(&self) -> Seq<char> {
        "DINN"@
    }

    open spec fn label(&self, v: ModelVersion) -> Seq<char> {
        match v {
            ModelVersion::N => "v1"@,
            ModelVersion::NMinus1 => "v0"@,
        }
    }

    closed spec fn active(&self) -> ModelVersion {
        self.current_version
    }

    open spec fn flag_log(&self) -> Seq<bool> {
        Seq::new(self.classified_count(), |i: int| self.flags_everything())
    }

    /// Wrap every transaction with the configured verdict and the current
    /// version's label.  Never fails.
    fn infer(&mut self, batch: Vec<Transaction>) -> (r: Result<
        Vec<InferredTransaction>,
        ModelizerError,
    >)
        ensures
            r is Ok,
            r matches Ok(out) ==> forall|i: int|
                0 <= i < out@.len() ==> (#[trigger] out@[i])@.predicted_fraud
                    == old(self).flags_everything(),
    {
        let version_str = match self.current_version {
            ModelVersion::N => String::from_str("v1"),
            ModelVersion::NMinus1 => String::from_str("v0"),
        };
        let mut out: Vec<InferredTransaction> = Vec::new();
        let mut i: usize = 0;
        while i < batch.len()
            invariant
                i <= batch.len(),
                version_str@ == self.label(self.active()),
                out@.len() == i,
                forall|j: int| 0 <= j < i ==> {
                    &&& (#[trigger] out@[j])@.transaction == batch@[j]@
                    &&& out@[j]@.model_name == self.model_name()
                    &&& out@[j]@.model_version == self.label(self.active())
                    &&& out@[j]@.predicted_fraud == self.flags_everything()
                },
            decreases batch.len() - i,
        {
            out.push(InferredTransaction {
                transaction: batch[i].clone(),
                predicted_fraud: self.always_fraud,
                model_name: String::from_str("DINN"),
                model_version: version_str.clone(),
            });
            i = i + 1;
        }
        self.classified = Ghost(self.classified@ + out@.len());
        proof {
            assert(self.flag_log() =~= old(self).flag_log() + flags_of(inf_views(out@)));
            assert(self.flag_log().take(old(self).flag_log().len() as int)
                =~= old(self).flag_log());
        }
        Ok(out)
    }

    /// Switch the active version; takes effect on the next `infer`.
    fn switch_version(&mut self, version: ModelVersion) -> (r: Result<(), ModelizerError>)
        ensures
            r is Ok,
    {
        self.current_version = version;
        Ok(())
    }
}

} // verus!
