//! Storage adapters: accumulation, capacity atomicity, and counting.

use fraud_detection::adapters::bench_storage::BenchStorage;
use fraud_detection::adapters::in_memory_storage::InMemoryStorage;
use fraud_detection::domain::{
    InferredTransaction, PendingTransaction, StorageError, Transaction,
};
use fraud_detection::ports::Storage;

fn make_pending(id: u128) -> PendingTransaction {
    PendingTransaction {
        inferred_transaction: InferredTransaction {
            transaction: Transaction {
                id,
                amount_cents: 100,
                last_name: "Test".to_owned(),
            },
            predicted_fraud: false,
            model_name: "DEMO".to_owned(),
            model_version: "4".to_owned(),
        },
        is_reviewed: false,
        actual_fraud: None,
    }
}

fn make_batch(n: usize) -> Vec<PendingTransaction> {
    (0..n).map(|i| make_pending(i as u128)).collect()
}

#[test]
fn write_batch_stores_all_items() {
    let mut storage = InMemoryStorage::new(100);
    storage.write_batch(make_batch(5)).unwrap();
    assert_eq!(storage.len(), 5);
}

#[test]
fn capacity_exceeded_correct_value() {
    let mut storage = InMemoryStorage::new(3);
    let result = storage.write_batch(make_batch(4));
    assert!(
        matches!(result, Err(StorageError::CapacityExceeded { capacity: 3 })),
        "expected CapacityExceeded(3), got {result:?}"
    );
    // Atomicity: the failed write left nothing behind.
    assert_eq!(storage.len(), 0);
}

#[test]
fn multiple_batches_accumulate() {
    let mut storage = InMemoryStorage::new(100);
    storage.write_batch(make_batch(3)).unwrap();
    storage.write_batch(make_batch(4)).unwrap();
    assert_eq!(storage.len(), 7);
}

#[test]
fn bench_storage_counts_and_discards() {
    let mut storage = BenchStorage::new();
    assert_eq!(storage.count(), 0);
    storage.write_batch(make_batch(5)).unwrap();
    storage.write_batch(make_batch(2)).unwrap();
    assert_eq!(storage.count(), 7);
}
