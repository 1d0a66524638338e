//! Domain types: field access, error variants and their messages.

use fraud_detection::domain::{
    AlarmError, BufferError, InferredTransaction, ModelVersion, ModelizerError, StorageError,
    Transaction,
};

#[test]
fn transaction_fields() {
    let id = uuid::Uuid::new_v4().as_u128();
    let tx = Transaction {
        id,
        amount_cents: 4200,
        last_name: "Smith".to_owned(),
    };
    assert_eq!(tx.id, id);
    assert_eq!(tx.amount_cents, 4200);
    assert_eq!(tx.last_name, "Smith");
}

#[test]
fn buffer_error_variants() {
    let full = BufferError::Full { capacity: 10 };
    let closed = BufferError::Closed;
    assert_eq!(full, BufferError::Full { capacity: 10 });
    assert_eq!(closed, BufferError::Closed);
    assert_ne!(full, closed);
}

#[test]
fn inferred_transaction_fields() {
    let id = uuid::Uuid::new_v4().as_u128();
    let tx = Transaction {
        id,
        amount_cents: 9999,
        last_name: "Dupont".to_owned(),
    };
    let inferred = InferredTransaction {
        transaction: tx.clone(),
        predicted_fraud: true,
        model_name: "DINN".to_owned(),
        model_version: "v1".to_owned(),
    };
    assert_eq!(inferred.id(), tx.id);
    assert!(inferred.predicted_fraud);
    assert_eq!(inferred.model_name, "DINN");
    assert_eq!(inferred.model_version, "v1");
    assert_eq!(inferred.transaction.id, tx.id);
    assert_eq!(inferred.transaction.amount_cents, tx.amount_cents);
    assert_eq!(inferred.transaction.last_name, tx.last_name);
}

#[test]
fn model_version_variants() {
    assert_ne!(ModelVersion::N, ModelVersion::NMinus1);
    assert_eq!(ModelVersion::N, ModelVersion::N);
    let v = ModelVersion::NMinus1;
    let w = v;
    assert_eq!(v, w);
}

#[test]
fn modelizer_error_variants() {
    let e1 = ModelizerError::InferenceFailed { reason: "oops".to_owned() };
    let e2 = ModelizerError::SwitchFailed { reason: "cant".to_owned() };
    assert_eq!(e1.message(), "inference failed: oops");
    assert_eq!(e2.message(), "switch failed: cant");
}

#[test]
fn alarm_error_variants() {
    let e = AlarmError::DeliveryFailed { reason: "timeout".to_owned() };
    assert_eq!(e.message(), "delivery failed: timeout");
}

#[test]
fn storage_error_variants() {
    let cap = StorageError::CapacityExceeded { capacity: 3 };
    assert_eq!(cap, StorageError::CapacityExceeded { capacity: 3 });
    assert_ne!(cap, StorageError::Unavailable);
}
