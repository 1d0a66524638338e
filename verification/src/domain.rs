//! Shared domain types of the pipeline: transactions, their enriched and
//! pending forms, the model-version enumeration, and the error taxonomy.

use vstd::prelude::*;

verus! {

/// Smallest admissible amount, in cents (0.01).
pub const MIN_AMOUNT_CENTS: u64 = 1;
/// Largest admissible amount, in cents (10 000.00).
pub const MAX_AMOUNT_CENTS: u64 = 1_000_000;

/// A single banking transaction produced by the pipeline.
#[derive(Debug)]
pub struct Transaction {
    /// 128-bit random identifier, shaped like an RFC 4122 version-4 UUID.
    pub id: u128,
    /// Amount in whole cents, range `[1, 1_000_000]` (0.01 to 10 000.00).
    pub amount_cents: u64,
    /// Account holder last name; never empty.
    pub last_name: String,
}

/// Mathematical image of a [`Transaction`].
#[verifier::ext_equal]
pub ghost struct TxView {
    pub id: u128,
    pub amount_cents: u64,
    pub last_name: Seq<char>,
}

impl View for Transaction {
    type V = TxView;

    open spec fn view(&self) -> TxView {
        TxView { id: self.id, amount_cents: self.amount_cents, last_name: self.last_name@ }
    }
}

impl TxView {
    /// Range and non-emptiness constraints every generated transaction meets.
    pub open spec fn wf(self) -> bool {
        &&& MIN_AMOUNT_CENTS <= self.amount_cents <= MAX_AMOUNT_CENTS
        &&& self.last_name.len() > 0
    }
}

impl Clone for Transaction {
    /// A clone carries the same identifier, amount and name.
    fn clone(&self) -> (res: Transaction)
        ensures
            res@ == self@,
    {
        Transaction {
            id: self.id,
            amount_cents: self.amount_cents,
            last_name: self.last_name.clone(),
        }
    }
}

impl PartialEq for Transaction {
    /// Two transactions are equal when all their fields are.
    fn eq(&self, other: &Transaction) -> (r: bool) {
        let r = self.id == other.id && self.amount_cents == other.amount_cents
            && self.last_name == other.last_name;
        proof {
            if r {
                assert(self@ =~= other@);
            }
        }
        r
    }
}

impl vstd::std_specs::cmp::PartialEqSpecImpl for Transaction {
    open spec fn obeys_eq_spec() -> bool {
        true
    }

    open spec fn eq_spec(&self, other: &Transaction) -> bool {
        self@ == other@
    }
}

/// A transaction enriched with the classification outcome.
#[derive(Debug)]
pub struct InferredTransaction {
    /// Original transaction (composition).
    pub transaction: Transaction,
    /// `true` if the model flagged the transaction as fraudulent.
    pub predicted_fraud: bool,
    /// Name of the model used (e.g. "DEMO").
    pub model_name: String,
    /// Version string of the model used (e.g. "4").
    pub model_version: String,
}

/// Mathematical image of an [`InferredTransaction`].
#[verifier::ext_equal]
pub ghost struct InfView {
    pub transaction: TxView,
    pub predicted_fraud: bool,
    pub model_name: Seq<char>,
    pub model_version: Seq<char>,
}

impl View for InferredTransaction {
    type V = InfView;

    open spec fn view(&self) -> InfView {
        InfView {
            transaction: self.transaction@,
            predicted_fraud: self.predicted_fraud,
            model_name: self.model_name@,
            model_version: self.model_version@,
        }
    }
}

impl Clone for InferredTransaction {
    /// A clone carries the same transaction and classification outputs.
    fn clone(&self) -> (res: InferredTransaction)
        ensures
            res@ == self@,
    {
        InferredTransaction {
            transaction: self.transaction.clone(),
            predicted_fraud: self.predicted_fraud,
            model_name: self.model_name.clone(),
            model_version: self.model_version.clone(),
        }
    }
}

impl PartialEq for InferredTransaction {
    /// Two records are equal when all their fields are.
    fn eq(&self, other: &InferredTransaction) -> (r: bool) {
        let r = self.transaction == other.transaction
            && self.predicted_fraud == other.predicted_fraud
            && self.model_name == other.model_name
            && self.model_version == other.model_version;
        proof {
            if r {
                assert(self@ =~= other@);
            }
        }
        r
    }
}

impl vstd::std_specs::cmp::PartialEqSpecImpl for InferredTransaction {
    open spec fn obeys_eq_spec() -> bool {
        true
    }

    open spec fn eq_spec(&self, other: &InferredTransaction) -> bool {
        self@ == other@
    }
}

impl InferredTransaction {
    /// The identifier of the wrapped transaction.
    pub fn id(&self) -> (r: u128)
        ensures
            r == self@.transaction.id,
    {
        self.transaction.id
    }
}

/// An inferred transaction wrapped for persistence, awaiting manual review.
#[derive(Debug)]
pub struct PendingTransaction {
    /// The classified transaction being persisted.
    pub inferred_transaction: InferredTransaction,
    /// Set once an analyst has gone over the record; starts `false`.
    pub is_reviewed: bool,
    /// The analyst's finding: absent at first, later `false` or `true`.
    pub actual_fraud: Option<bool>,
}

impl Clone for PendingTransaction {
    /// A clone carries the same record and review fields.
    fn clone(&self) -> (res: PendingTransaction)
        ensures
            res@ == self@,
    {
        PendingTransaction {
            inferred_transaction: self.inferred_transaction.clone(),
            is_reviewed: self.is_reviewed,
            actual_fraud: self.actual_fraud,
        }
    }
}

/// Mathematical image of a [`PendingTransaction`].
#[verifier::ext_equal]
pub ghost struct PendView {
    pub inferred_transaction: InfView,
    pub is_reviewed: bool,
    pub actual_fraud: Option<bool>,
}

impl View for PendingTransaction {
    type V = PendView;

    open spec fn view(&self) -> PendView {
        PendView {
            inferred_transaction: self.inferred_transaction@,
            is_reviewed: self.is_reviewed,
            actual_fraud: self.actual_fraud,
        }
    }
}

/// Selectable model version for switch commands.
#[derive(Debug, Clone, Copy, PartialEq, Eq, Structural)]
pub enum ModelVersion {
    /// Latest model version (default at startup).
    N,
    /// Previous model version.
    NMinus1,
}

/// Errors from the modelizer port.
#[derive(Debug, Clone)]
pub enum ModelizerError {
    /// Inference could not be completed.
    InferenceFailed { reason: String },
    /// Version switch could not be applied.
    SwitchFailed { reason: String },
}

/// The reason a classification failed.
pub open spec fn inference_reason_of(e: ModelizerError) -> Seq<char> {
    e->InferenceFailed_reason@
}

impl ModelizerError {
    /// Human-readable rendering, e.g. `"inference failed: <reason>"`.
    pub fn message(&self) -> (r: String)
        ensures
            r@ == match self {
                ModelizerError::InferenceFailed { reason } => "inference failed: "@ + reason@,
                ModelizerError::SwitchFailed { reason } => "switch failed: "@ + reason@,
            },
    {
        match self {
            ModelizerError::InferenceFailed { reason } => {
                String::from_str("inference failed: ").concat(reason.as_str())
            },
            ModelizerError::SwitchFailed { reason } => {
                String::from_str("switch failed: ").concat(reason.as_str())
            },
        }
    }
}

/// Errors from the alarm port.
#[derive(Debug, Clone)]
pub enum AlarmError {
    /// Alarm could not be delivered.
    DeliveryFailed { reason: String },
}

/// The reason an alarm delivery failed.
pub open spec fn reason_of(e: AlarmError) -> Seq<char> {
    e->DeliveryFailed_reason@
}

impl AlarmError {
    /// Human-readable rendering, e.g. `"delivery failed: <reason>"`.
    pub fn message(&self) -> (r: String)
        ensures
            r@ == match self {
                AlarmError::DeliveryFailed { reason } => "delivery failed: "@ + reason@,
            },
    {
        match self {
            AlarmError::DeliveryFailed { reason } => {
                String::from_str("delivery failed: ").concat(reason.as_str())
            },
        }
    }
}

/// Errors a buffer implementation may return.
#[derive(Debug, Clone, PartialEq, Eq, Structural)]
pub enum BufferError {
    /// Buffer has reached its maximum capacity; carries that capacity.
    Full { capacity: usize },
    /// Buffer has been closed; no further writes are accepted.
    Closed,
}

/// Errors a storage backend may return.
#[derive(Debug, Clone, PartialEq, Eq, Structural)]
pub enum StorageError {
    /// Storage has reached its maximum capacity; carries that capacity.
    CapacityExceeded { capacity: usize },
    /// Storage cannot be reached.
    Unavailable,
}

} // verus!
