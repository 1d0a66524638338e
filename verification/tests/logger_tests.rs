//! Logger: batch sizing, field-preserving transformation, persistence and
//! the loop's stop conditions.

use fraud_detection::adapters::in_memory_buffer2::InMemoryBuffer2;
use fraud_detection::adapters::in_memory_storage::InMemoryStorage;
use fraud_detection::domain::{
    BufferError, InferredTransaction, StorageError, Transaction,
};
use fraud_detection::logger::{Logger, LoggerConfig, LoggerError};
use fraud_detection::ports::Buffer2;

fn make_inferred(id: u128, predicted_fraud: bool) -> InferredTransaction {
    InferredTransaction {
        transaction: Transaction {
            id,
            amount_cents: 100,
            last_name: "Test".to_owned(),
        },
        predicted_fraud,
        model_name: "DEMO".to_owned(),
        model_version: "4".to_owned(),
    }
}

fn filled_buffer(n: usize) -> InMemoryBuffer2 {
    let mut buf = InMemoryBuffer2::new(usize::MAX);
    buf.write_batch((0..n).map(|i| make_inferred(i as u128, false)).collect())
        .unwrap();
    buf
}

/// Storage whose capacity is zero: every non-empty write is rejected.
fn full_storage() -> InMemoryStorage {
    InMemoryStorage::new(0)
}

#[test]
fn test_log_once_batch_size_in_range() {
    // n3_max = 10, buffer with 100 items, call log_once 20 times.
    let mut buf = filled_buffer(100);
    let mut storage = InMemoryStorage::new(usize::MAX);
    let cfg = LoggerConfig::builder(10).seed(1).build().unwrap();
    let mut logger = Logger::new(cfg);
    for _ in 0..20 {
        // Stop once the buffer is drained (not a failure).
        if logger.log_once(&mut buf, &mut storage).is_err() {
            break;
        }
    }
    let stored = storage.len();
    assert!((1..=100).contains(&stored));
}

#[test]
fn test_log_once_batch_capped_at_available() {
    // n3_max = 20, only 3 items available.
    let mut buf = filled_buffer(3);
    let mut storage = InMemoryStorage::new(usize::MAX);
    let cfg = LoggerConfig::builder(20).seed(1).build().unwrap();
    let mut logger = Logger::new(cfg);
    logger.log_once(&mut buf, &mut storage).unwrap();
    assert_eq!(storage.len(), 3);
}

#[test]
fn test_log_once_closed_empty_returns_error() {
    let mut buf = InMemoryBuffer2::new(usize::MAX);
    let mut storage = InMemoryStorage::new(usize::MAX);
    let cfg = LoggerConfig::builder(5).build().unwrap();
    let mut logger = Logger::new(cfg);
    let result = logger.log_once(&mut buf, &mut storage);
    assert!(
        matches!(result, Err(LoggerError::Read(BufferError::Closed))),
        "expected Err(Read(Closed)), got {result:?}"
    );
}

#[test]
fn test_transform_preserves_all_fields() {
    // Drain all 5 via run(); verify every persisted record.
    let originals: Vec<InferredTransaction> =
        (0..5).map(|i| make_inferred(i as u128, false)).collect();
    let mut buf = InMemoryBuffer2::new(usize::MAX);
    buf.write_batch(originals.clone()).unwrap();
    let mut storage = InMemoryStorage::new(usize::MAX);
    let cfg = LoggerConfig::builder(10)
        .seed(1)
        .poll_interval3(0)
        .build()
        .unwrap();
    let mut logger = Logger::new(cfg);
    logger.run(&mut buf, &mut storage).unwrap();
    let stored = storage.records();
    assert_eq!(stored.len(), 5);
    for (i, pt) in stored.iter().enumerate() {
        assert_eq!(pt.inferred_transaction.transaction.id, originals[i].transaction.id);
        assert_eq!(pt.inferred_transaction.model_name, originals[i].model_name);
        assert_eq!(pt.inferred_transaction.model_version, originals[i].model_version);
        assert_eq!(
            pt.inferred_transaction.predicted_fraud,
            originals[i].predicted_fraud
        );
        assert!(!pt.is_reviewed);
        assert!(pt.actual_fraud.is_none());
    }
}

#[test]
fn test_transform_predicted_fraud_true_preserved() {
    let mut buf = InMemoryBuffer2::new(usize::MAX);
    buf.write_batch(vec![make_inferred(1, true)]).unwrap();
    let mut storage = InMemoryStorage::new(usize::MAX);
    let cfg = LoggerConfig::builder(1).build().unwrap();
    let mut logger = Logger::new(cfg);
    logger.log_once(&mut buf, &mut storage).unwrap();
    let stored = storage.records();
    assert_eq!(stored.len(), 1);
    assert!(stored[0].inferred_transaction.predicted_fraud);
    assert!(!stored[0].is_reviewed);
    assert!(stored[0].actual_fraud.is_none());
}

#[test]
fn test_transform_predicted_fraud_false_preserved() {
    let mut buf = InMemoryBuffer2::new(usize::MAX);
    buf.write_batch(vec![make_inferred(1, false)]).unwrap();
    let mut storage = InMemoryStorage::new(usize::MAX);
    let cfg = LoggerConfig::builder(1).build().unwrap();
    let mut logger = Logger::new(cfg);
    logger.log_once(&mut buf, &mut storage).unwrap();
    let stored = storage.records();
    assert_eq!(stored.len(), 1);
    assert!(!stored[0].inferred_transaction.predicted_fraud);
    assert!(!stored[0].is_reviewed);
    assert!(stored[0].actual_fraud.is_none());
}

#[test]
fn test_persist_all_items() {
    // Drain all 8 via run(); verify the total count.
    let mut buf = filled_buffer(8);
    let mut storage = InMemoryStorage::new(usize::MAX);
    let cfg = LoggerConfig::builder(10)
        .seed(1)
        .poll_interval3(0)
        .build()
        .unwrap();
    let mut logger = Logger::new(cfg);
    logger.run(&mut buf, &mut storage).unwrap();
    assert_eq!(storage.len(), 8);
}

#[test]
fn test_persist_capacity_exceeded_propagates() {
    let mut buf = filled_buffer(1);
    let mut storage = full_storage();
    let cfg = LoggerConfig::builder(1).build().unwrap();
    let mut logger = Logger::new(cfg);
    let result = logger.log_once(&mut buf, &mut storage);
    assert!(
        matches!(
            result,
            Err(LoggerError::Write(StorageError::CapacityExceeded { capacity: 0 }))
        ),
        "expected CapacityExceeded, got {result:?}"
    );
}

#[test]
fn test_run_iteration_limit() {
    let mut buf = filled_buffer(30);
    let mut storage = InMemoryStorage::new(usize::MAX);
    let cfg = LoggerConfig::builder(5)
        .seed(1)
        .iterations(3)
        .poll_interval3(0)
        .build()
        .unwrap();
    let mut logger = Logger::new(cfg);
    let result = logger.run(&mut buf, &mut storage);
    assert!(
        result.is_ok(),
        "run with iteration limit must return Ok: {result:?}"
    );
    // At least 3 items persisted (3 iterations, each 1..=5).
    assert!((3..=15).contains(&storage.len()));
}

#[test]
fn test_run_stops_on_closed() {
    // 5 items pre-loaded; the logger must drain them and return Ok(()).
    let mut buf = filled_buffer(5);
    let mut storage = InMemoryStorage::new(usize::MAX);
    let cfg = LoggerConfig::builder(10)
        .seed(1)
        .poll_interval3(0)
        .build()
        .unwrap();
    let mut logger = Logger::new(cfg);
    let result = logger.run(&mut buf, &mut storage);
    assert!(
        result.is_ok(),
        "run must stop cleanly on closed buffer: {result:?}"
    );
}

#[test]
fn test_run_zero_delay() {
    let mut buf = filled_buffer(20);
    let mut storage = InMemoryStorage::new(usize::MAX);
    let cfg = LoggerConfig::builder(5)
        .seed(2)
        .iterations(2)
        .poll_interval3(0)
        .build()
        .unwrap();
    let mut logger = Logger::new(cfg);
    let result = logger.run(&mut buf, &mut storage);
    assert!(
        result.is_ok(),
        "zero-delay run must complete without panic: {result:?}"
    );
}

#[test]
fn test_persist_unavailable_propagates() {
    let mut buf = filled_buffer(1);
    let mut storage = fraud_detection::adapters::offline_storage::OfflineStorage::new();
    let cfg = LoggerConfig::builder(1).build().unwrap();
    let mut logger = Logger::new(cfg);
    let result = logger.log_once(&mut buf, &mut storage);
    assert!(
        matches!(result, Err(LoggerError::Write(StorageError::Unavailable))),
        "expected Unavailable, got {result:?}"
    );
}
