//! Producer: batch-size bounds, field validity, seeded determinism, and
//! the production loop's stop conditions.

use fraud_detection::adapters::bounded_buffer::BoundedBuffer;
use fraud_detection::adapters::concurrent_buffer::{ConcurrentBuffer, ReadAttempt};
use fraud_detection::domain::{BufferError, Transaction};
use fraud_detection::ports::Buffer1;
use fraud_detection::producer::{Producer, ProducerConfig, ProducerError};

fn drain_all(buffer: &mut ConcurrentBuffer) -> Vec<Transaction> {
    let mut out = Vec::new();
    loop {
        match buffer.try_read_batch(usize::MAX) {
            ReadAttempt::Batch(mut b) => out.append(&mut b),
            _ => return out,
        }
    }
}

#[test]
fn batch_size_bounds() {
    // Seed-fixed producer; generate 100 batches, verify all sizes in [1, 10]
    // and that every value in [1, 10] appears at least once.
    let config = ProducerConfig::builder(10).seed(1).build().unwrap();
    let mut producer = Producer::new(config);
    let mut seen = [false; 11];
    for _ in 0..100 {
        let batch = producer.generate_batch();
        let sz = batch.len();
        assert!((1..=10).contains(&sz), "batch size {sz} out of [1, 10]");
        seen[sz] = true;
    }
    for (i, appeared) in seen.iter().enumerate().skip(1) {
        assert!(appeared, "size {i} never appeared in 100 batches");
    }
}

#[test]
fn tx_fields_valid() {
    let config = ProducerConfig::builder(10).seed(2).build().unwrap();
    let mut producer = Producer::new(config);
    let batch = producer.generate_batch();
    assert!(!batch.is_empty());
    for tx in &batch {
        // The identifier round-trips through the uuid crate's string form.
        let parsed = uuid::Uuid::from_u128(tx.id)
            .to_string()
            .parse::<uuid::Uuid>()
            .unwrap();
        assert_eq!(parsed.as_u128(), tx.id, "id must be a valid UUID");
        assert_eq!(parsed.get_version_num(), 4, "id must be version-4 shaped");
        assert!(
            tx.amount_cents >= 1 && tx.amount_cents <= 1_000_000,
            "amount {} out of range",
            tx.amount_cents
        );
        assert!(!tx.last_name.is_empty(), "last_name must be non-empty");
    }
}

#[test]
fn seeded_rng_deterministic() {
    let c1 = ProducerConfig::builder(10).seed(99).build().unwrap();
    let c2 = ProducerConfig::builder(10).seed(99).build().unwrap();
    let batch1 = Producer::new(c1).generate_batch();
    let batch2 = Producer::new(c2).generate_batch();
    assert_eq!(batch1.len(), batch2.len(), "identical seeds must produce identical batches");
    for (a, b) in batch1.iter().zip(batch2.iter()) {
        assert_eq!(a.id, b.id);
        assert_eq!(a.amount_cents, b.amount_cents);
        assert_eq!(a.last_name, b.last_name);
    }
}

#[test]
fn produce_and_write() {
    let config = ProducerConfig::builder(10).seed(42).build().unwrap();
    let mut producer = Producer::new(config);
    let mut buffer = ConcurrentBuffer::new();

    producer.produce_once(&mut buffer).unwrap();

    let sz = drain_all(&mut buffer).len();
    assert!((1..=10).contains(&sz), "batch size {sz} out of [1, 10]");
}

#[test]
fn run_n_iterations() {
    let config = ProducerConfig::builder(10)
        .seed(7)
        .iterations(5)
        .poll_interval1(0)
        .build()
        .unwrap();
    let mut producer = Producer::new(config);
    let mut buffer = ConcurrentBuffer::new();

    producer.run(&mut buffer).unwrap();

    // 5 batches, each 1..=10 transactions.
    let total = drain_all(&mut buffer).len();
    assert!(
        (5..=50).contains(&total),
        "total tx count {total} out of expected range"
    );
}

#[test]
fn run_stops_on_closed() {
    let config = ProducerConfig::builder(10)
        .poll_interval1(0)
        .build()
        .unwrap();
    let mut producer = Producer::new(config);
    let mut buffer = ConcurrentBuffer::new();
    buffer.close();
    let result = producer.run(&mut buffer);
    assert!(result.is_ok(), "Closed must terminate cleanly: {result:?}");
}

#[test]
fn run_propagates_full() {
    let config = ProducerConfig::builder(10)
        .poll_interval1(0)
        .build()
        .unwrap();
    let mut producer = Producer::new(config);
    let mut buffer = BoundedBuffer::new(0);
    let result = producer.run(&mut buffer);
    assert!(
        matches!(
            result,
            Err(ProducerError::Buffer {
                source: BufferError::Full { .. }
            })
        ),
        "Full error must be propagated: {result:?}"
    );
}

#[test]
fn seeded_runs_fill_buffers_identically() {
    // Two seeded producers drive two buffers through a full run and leave
    // identical transaction sequences behind.
    let mk = || {
        ProducerConfig::builder(6)
            .seed(11)
            .iterations(4)
            .poll_interval1(0)
            .build()
            .unwrap()
    };
    let mut b1 = ConcurrentBuffer::new();
    let mut b2 = ConcurrentBuffer::new();
    Producer::new(mk()).run(&mut b1).unwrap();
    Producer::new(mk()).run(&mut b2).unwrap();
    let t1 = drain_all(&mut b1);
    let t2 = drain_all(&mut b2);
    assert_eq!(t1.len(), t2.len());
    for (a, b) in t1.iter().zip(t2.iter()) {
        assert_eq!(a.id, b.id);
        assert_eq!(a.amount_cents, b.amount_cents);
        assert_eq!(a.last_name, b.last_name);
    }
}

#[test]
fn seeded_draws_mix_the_seed() {
    // The seeded stream is a real expansion of the seed, not the raw seed
    // arithmetic: producers whose seeds agree modulo the batch cap still
    // draw different first sizes.
    let mut sizes = Vec::new();
    for k in 0..10u64 {
        let config = ProducerConfig::builder(10).seed(10 * k).build().unwrap();
        sizes.push(Producer::new(config).generate_batch().len());
    }
    let first = sizes[0];
    assert!(
        sizes.iter().any(|&s| s != first),
        "congruent seeds must not all draw the same size"
    );
}
