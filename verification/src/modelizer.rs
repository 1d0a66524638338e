//! Generic modelizer stage: implements the modelizer port by delegating
//! per-transaction classification to an injected model.
//!
//! The stage owns no classification logic.  It snapshots the model's name
//! and active version once per `infer` call, so a version switch is never
//! observable in the middle of a batch.

use vstd::prelude::*;
use crate::domain::{InferredTransaction, ModelVersion, ModelizerError, Transaction};
use crate::ports;
use crate::ports::Model;
use crate::ports::flags_of;

verus! {

/// Pipeline stage that implements the modelizer port over any model.
pub struct Modelizer<M: Model> {
    model: M,
}

impl<M: Model> Modelizer<M> {
    /// The injected model.
    pub closed spec fn model(&self) -> M {
        self.model
    }

    /// Create a new modelizer wrapping `model`.
    pub fn new(model: M) -> (r: Modelizer<M>)
        ensures
            r.model() == model,
    {
        Modelizer { model }
    }
}

impl<M: Model> ports::Modelizer for Modelizer<M> {
    open spec fn model_name(&self) -> Seq<char> {
        self.model().model_name()
    }

    open spec fn label(&self, v: ModelVersion) -> Seq<char> {
        self.model().label(v)
    }

    open spec fn active(&self) -> ModelVersion {
        self.model().active()
    }

    open spec fn flag_log(&self) -> Seq<bool> {
        self.model().verdicts()
    }

    /// Classify every transaction in `batch`, in order, stamping each
    /// record with the name and version observed at the start of the call.
    ///
    /// The stage adds no classification logic of its own: on success, the
    /// flags of the output are exactly the answers the model's `classify`
    /// appended to its verdict log, one per input, in input order.  On
    /// failure, the surfaced error is the model's own: its reason is what
    /// `classify` appended to the fault log, and nothing else changed it.
    fn infer(&mut self, batch: Vec<Transaction>) -> (r: Result<
        Vec<InferredTransaction>,
        ModelizerError,
    >)
        ensures
            r matches Ok(out) ==> final(self).model().verdicts() == old(
                self,
            ).model().verdicts() + flags_of(crate::ports::inf_views(out@))
                && final(self).model().faults() == old(self).model().faults(),
            r matches Err(e) ==> final(self).model().faults() == old(self).model().faults().push(
                crate::domain::inference_reason_of(e),
            ),
            final(self).model().verdicts().take(old(self).model().verdicts().len() as int) == old(
                self,
            ).model().verdicts(),
            old(self).model().verdicts().len() <= final(self).model().verdicts().len(),
    {
        let model_name = self.model.name();
        let model_version = self.model.active_version();
        let mut out: Vec<InferredTransaction> = Vec::new();
        let mut i: usize = 0;
        while i < batch.len()
            invariant
                i <= batch.len(),
                self.model().model_name() == old(self).model().model_name(),
                self.model().label(ModelVersion::N) == old(self).model().label(ModelVersion::N),
                self.model().label(ModelVersion::NMinus1) == old(self).model().label(
                    ModelVersion::NMinus1,
                ),
                self.model().active() == old(self).model().active(),
                model_name@ == old(self).model().model_name(),
                model_version@ == old(self).model().label(old(self).model().active()),
                out@.len() == i,
                self.model().verdicts() == old(self).model().verdicts() + flags_of(
                    crate::ports::inf_views(out@),
                ),
                self.model().faults() == old(self).model().faults(),
                forall|j: int| 0 <= j < i ==> {
                    &&& (#[trigger] out@[j])@.transaction == batch@[j]@
                    &&& out@[j]@.model_name == old(self).model().model_name()
                    &&& out@[j]@.model_version == old(self).model().label(
                        old(self).model().active(),
                    )
                },
            decreases batch.len() - i,
        {
            let answer = match self.model.classify(&batch[i]) {
                Ok(v) => v,
                Err(e) => {
                    proof {
                        assert(self.model().verdicts().take(
                            old(self).model().verdicts().len() as int,
                        ) =~= old(self).model().verdicts());
                    }
                    return Err(e);
                },
            };
            out.push(InferredTransaction {
                transaction: batch[i].clone(),
                predicted_fraud: answer,
                model_name: model_name.clone(),
                model_version: model_version.clone(),
            });
            proof {
                assert(self.model().verdicts() =~= old(self).model().verdicts() + flags_of(
                    crate::ports::inf_views(out@),
                ));
            }
            i = i + 1;
        }
        proof {
            assert(self.model().verdicts().take(old(self).model().verdicts().len() as int)
                =~= old(self).model().verdicts());
        }
        Ok(out)
    }

    /// Forward the switch to the injected model.
    fn switch_version(&mut self, version: ModelVersion) -> (r: Result<(), ModelizerError>) {
        self.model.switch_version(version)
    }
}

} // verus!
