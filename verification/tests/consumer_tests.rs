//! Consumer: batch sizing, enrichment, best-effort alarms, error routing
//! and the consumption loop's stop conditions.

use fraud_detection::adapters::concurrent_buffer::ReadAttempt;
use fraud_detection::adapters::concurrent_buffer2::ConcurrentBuffer2;
use fraud_detection::adapters::demo_modelizer::DemoModelizer;
use fraud_detection::adapters::in_memory_alarm::InMemoryAlarm;
use fraud_detection::adapters::in_memory_buffer::InMemoryBuffer;
use fraud_detection::adapters::in_memory_buffer2::InMemoryBuffer2;
use fraud_detection::adapters::offline_model::OfflineModel;
use fraud_detection::consumer::{Consumer, ConsumerConfig, ConsumerError};
use fraud_detection::domain::{BufferError, InferredTransaction, ModelVersion, Transaction};
use fraud_detection::modelizer::Modelizer;
use fraud_detection::ports::Buffer1;

fn make_tx(id: u128) -> Transaction {
    Transaction {
        id,
        amount_cents: 100,
        last_name: "Test".to_owned(),
    }
}

fn filled_buffer(n: usize) -> InMemoryBuffer {
    let mut buf = InMemoryBuffer::new();
    buf.write_batch((0..n).map(|i| make_tx(i as u128)).collect())
        .unwrap();
    buf
}

fn make_consumer(n2_max: usize, seed: u64) -> Consumer {
    Consumer::new(
        ConsumerConfig::builder(n2_max)
            .seed(seed)
            .speed2(0)
            .build()
            .unwrap(),
    )
}

fn drain_all(buffer: &mut ConcurrentBuffer2) -> Vec<InferredTransaction> {
    let mut out = Vec::new();
    loop {
        match buffer.try_read_batch(usize::MAX) {
            ReadAttempt::Batch(mut b) => out.append(&mut b),
            _ => return out,
        }
    }
}

#[test]
fn batch_size_within_n2_max_range() {
    let n2_max = 10;
    let mut consumer = make_consumer(n2_max, 1);
    let mut buf1 = filled_buffer(1000);
    let mut modelizer = DemoModelizer::new(false);
    let mut alarm = InMemoryAlarm::new();
    let mut buf2 = ConcurrentBuffer2::new();

    consumer
        .consume_once(&mut buf1, &mut modelizer, &mut alarm, &mut buf2)
        .unwrap();

    let sz = drain_all(&mut buf2).len();
    assert!(sz >= 1 && sz <= n2_max, "batch size {sz} out of [1, {n2_max}]");
}

#[test]
fn batch_size_capped_by_available_data() {
    // n2_max far above the available transactions; the read caps the batch.
    let mut consumer = make_consumer(100, 1);
    let mut buf1 = filled_buffer(3);
    let mut modelizer = DemoModelizer::new(false);
    let mut alarm = InMemoryAlarm::new();
    let mut buf2 = ConcurrentBuffer2::new();

    consumer
        .consume_once(&mut buf1, &mut modelizer, &mut alarm, &mut buf2)
        .unwrap();

    assert_eq!(drain_all(&mut buf2).len(), 3);
}

#[test]
fn seeded_batch_size_is_deterministic() {
    let mut c1 = make_consumer(10, 99);
    let mut c2 = make_consumer(10, 99);
    let mut buf1_a = filled_buffer(100);
    let mut buf1_b = filled_buffer(100);
    let mut m1 = DemoModelizer::new(false);
    let mut m2 = DemoModelizer::new(false);
    let mut alarm = InMemoryAlarm::new();
    let mut buf2_a = ConcurrentBuffer2::new();
    let mut buf2_b = ConcurrentBuffer2::new();

    c1.consume_once(&mut buf1_a, &mut m1, &mut alarm, &mut buf2_a)
        .unwrap();
    c2.consume_once(&mut buf1_b, &mut m2, &mut alarm, &mut buf2_b)
        .unwrap();

    assert_eq!(
        drain_all(&mut buf2_a).len(),
        drain_all(&mut buf2_b).len(),
        "identical seeds must request identical batch sizes"
    );
}

#[test]
fn run_processes_n_iterations() {
    let mut consumer = Consumer::new(
        ConsumerConfig::builder(10)
            .seed(7)
            .iterations(3)
            .speed2(0)
            .build()
            .unwrap(),
    );
    let mut buf1 = filled_buffer(1000);
    let mut modelizer = DemoModelizer::new(false);
    let mut alarm = InMemoryAlarm::new();
    let mut buf2 = ConcurrentBuffer2::new();

    consumer
        .run(&mut buf1, &mut modelizer, &mut alarm, &mut buf2)
        .unwrap();

    // 3 iterations, each draining 1..=10 transactions into the second buffer.
    let total = drain_all(&mut buf2).len();
    assert!((3..=30).contains(&total), "expected 3 batches, got {total} records");
}

#[test]
fn run_stops_gracefully_on_closed() {
    let mut consumer = make_consumer(10, 1);
    // An empty demo buffer signals Closed immediately.
    let mut buf1 = InMemoryBuffer::new();
    let mut modelizer = DemoModelizer::new(false);
    let mut alarm = InMemoryAlarm::new();
    let mut buf2 = ConcurrentBuffer2::new();

    let result = consumer.run(&mut buf1, &mut modelizer, &mut alarm, &mut buf2);
    assert!(result.is_ok(), "Closed must terminate cleanly: {result:?}");
}

#[test]
fn consume_once_sends_full_batch_to_modelizer() {
    // 10 transactions preloaded, n2_max = 100: all 10 reach the modelizer
    // and come out enriched.
    let mut consumer = make_consumer(100, 1);
    let mut buf1 = filled_buffer(10);
    let mut modelizer = DemoModelizer::new(false);
    let mut alarm = InMemoryAlarm::new();
    let mut buf2 = ConcurrentBuffer2::new();

    consumer
        .consume_once(&mut buf1, &mut modelizer, &mut alarm, &mut buf2)
        .unwrap();

    assert_eq!(drain_all(&mut buf2).len(), 10);
}

#[test]
fn inference_error_propagates_as_consumer_error_inference() {
    let mut consumer = make_consumer(10, 1);
    let mut buf1 = filled_buffer(10);
    let mut modelizer = Modelizer::new(OfflineModel::new());
    let mut alarm = InMemoryAlarm::new();
    let mut buf2 = ConcurrentBuffer2::new();

    let result = consumer.consume_once(&mut buf1, &mut modelizer, &mut alarm, &mut buf2);
    match result {
        Err(ConsumerError::Inference(e)) => {
            assert_eq!(
                e.message(),
                "inference failed: model backend unreachable",
                "the model's own error is surfaced unchanged"
            );
        }
        other => panic!("inference failure must map to ConsumerError::Inference: {other:?}"),
    }
}

#[test]
fn inferred_tx_enrichment_fields_survive_pipeline() {
    let mut consumer = make_consumer(100, 1);
    let mut buf1 = filled_buffer(2);
    let mut modelizer = DemoModelizer::new(true);
    let mut alarm = InMemoryAlarm::new();
    let mut buf2 = ConcurrentBuffer2::new();

    consumer
        .consume_once(&mut buf1, &mut modelizer, &mut alarm, &mut buf2)
        .unwrap();

    let captured = drain_all(&mut buf2);
    assert_eq!(captured.len(), 2);
    for tx in captured.iter() {
        assert!(tx.predicted_fraud);
        assert_eq!(tx.model_name, "DINN");
        assert_eq!(tx.model_version, "v1");
    }
}

#[test]
fn all_inferred_tx_written_to_buf2_regardless_of_fraud() {
    let mut consumer = make_consumer(100, 1);
    let mut buf1 = filled_buffer(5);
    let mut modelizer = DemoModelizer::new(true); // all fraudulent
    let mut alarm = InMemoryAlarm::new();
    let mut buf2 = ConcurrentBuffer2::new();

    consumer
        .consume_once(&mut buf1, &mut modelizer, &mut alarm, &mut buf2)
        .unwrap();

    assert_eq!(drain_all(&mut buf2).len(), 5, "all 5 must reach Buffer2");
}

#[test]
fn buf2_full_propagates_as_consumer_error_write() {
    let mut consumer = make_consumer(100, 1);
    let mut buf1 = filled_buffer(5);
    let mut modelizer = DemoModelizer::new(false);
    let mut alarm = InMemoryAlarm::new();
    let mut buf2 = InMemoryBuffer2::new(0);

    let result = consumer.consume_once(&mut buf1, &mut modelizer, &mut alarm, &mut buf2);
    assert!(
        matches!(result, Err(ConsumerError::Write(BufferError::Full { .. }))),
        "Full must map to ConsumerError::Write: {result:?}"
    );
}

#[test]
fn buf2_closed_propagates_as_consumer_error_write() {
    let mut consumer = make_consumer(100, 1);
    let mut buf1 = filled_buffer(5);
    let mut modelizer = DemoModelizer::new(false);
    let mut alarm = InMemoryAlarm::new();
    let mut buf2 = ConcurrentBuffer2::new();
    buf2.close();

    let result = consumer.consume_once(&mut buf1, &mut modelizer, &mut alarm, &mut buf2);
    assert!(
        matches!(result, Err(ConsumerError::Write(BufferError::Closed))),
        "Closed must map to ConsumerError::Write: {result:?}"
    );
}

#[test]
fn exactly_n_alarms_for_n_fraudulent_tx() {
    let mut consumer = make_consumer(100, 1);
    let mut buf1 = filled_buffer(5);
    let mut modelizer = DemoModelizer::new(true); // all 5 fraudulent
    let mut alarm = InMemoryAlarm::new();
    let mut buf2 = ConcurrentBuffer2::new();

    consumer
        .consume_once(&mut buf1, &mut modelizer, &mut alarm, &mut buf2)
        .unwrap();

    assert_eq!(alarm.count(), 5, "5 alarms for 5 fraudulent tx");
}

#[test]
fn no_alarms_for_zero_fraudulent_tx() {
    let mut consumer = make_consumer(100, 1);
    let mut buf1 = filled_buffer(5);
    let mut modelizer = DemoModelizer::new(false); // none fraudulent
    let mut alarm = InMemoryAlarm::new();
    let mut buf2 = ConcurrentBuffer2::new();

    consumer
        .consume_once(&mut buf1, &mut modelizer, &mut alarm, &mut buf2)
        .unwrap();

    assert_eq!(alarm.count(), 0, "0 alarms when none fraudulent");
}

#[test]
fn zero_alarms_when_all_legitimate() {
    let mut consumer = make_consumer(100, 1);
    let mut buf1 = filled_buffer(3);
    let mut modelizer = DemoModelizer::new(false);
    let mut alarm = InMemoryAlarm::new();
    let mut buf2 = ConcurrentBuffer2::new();

    consumer
        .consume_once(&mut buf1, &mut modelizer, &mut alarm, &mut buf2)
        .unwrap();

    assert_eq!(alarm.count(), 0);
}

#[test]
fn all_alarms_attempted_on_partial_failure() {
    let mut consumer = make_consumer(100, 1);
    let mut buf1 = filled_buffer(4);
    let mut modelizer = DemoModelizer::new(true); // all 4 fraudulent
    let mut alarm = InMemoryAlarm::rejecting_all();
    let mut buf2 = ConcurrentBuffer2::new();

    let result = consumer.consume_once(&mut buf1, &mut modelizer, &mut alarm, &mut buf2);
    assert!(
        result.is_ok(),
        "alarm failures must not abort consume_once: {result:?}"
    );

    assert_eq!(alarm.count(), 4, "all 4 alarms must be attempted");
}

#[test]
fn alarm_failures_returned_in_ok_vec() {
    let mut consumer = make_consumer(100, 1);
    let mut buf1 = filled_buffer(3);
    let mut modelizer = DemoModelizer::new(true); // all 3 fraudulent
    let mut alarm = InMemoryAlarm::rejecting_all();
    let mut buf2 = ConcurrentBuffer2::new();

    let alarm_errors = consumer
        .consume_once(&mut buf1, &mut modelizer, &mut alarm, &mut buf2)
        .unwrap();

    assert_eq!(alarm_errors.len(), 3, "3 failures for 3 fraudulent tx");
    for e in &alarm_errors {
        assert_eq!(
            e.message(),
            "delivery failed: alarm sink rejects deliveries",
            "the list holds the errors the alarm returned"
        );
    }
}

#[test]
fn buf2_write_not_blocked_by_alarm_failure() {
    let mut consumer = make_consumer(100, 1);
    let mut buf1 = filled_buffer(2);
    let mut modelizer = DemoModelizer::new(true); // both fraudulent
    let mut alarm = InMemoryAlarm::rejecting_all();
    let mut buf2 = ConcurrentBuffer2::new();

    consumer
        .consume_once(&mut buf1, &mut modelizer, &mut alarm, &mut buf2)
        .unwrap();

    assert_eq!(drain_all(&mut buf2).len(), 2, "Buffer2 write must proceed");
}

#[test]
fn switch_to_n_minus1_calls_modelizer_switch_version() {
    let mut consumer = make_consumer(10, 1);
    let mut modelizer = DemoModelizer::new(false);

    consumer
        .switch_model_version(&mut modelizer, ModelVersion::NMinus1)
        .unwrap();

    // The switch reaches the modelizer: the next batch carries the
    // previous version's label.
    let mut buf1 = filled_buffer(1);
    let mut alarm = InMemoryAlarm::new();
    let mut buf2 = ConcurrentBuffer2::new();
    consumer
        .consume_once(&mut buf1, &mut modelizer, &mut alarm, &mut buf2)
        .unwrap();
    assert_eq!(drain_all(&mut buf2)[0].model_version, "v0");
}

#[test]
fn switch_to_n_calls_modelizer_switch_version() {
    let mut consumer = make_consumer(10, 1);
    let mut modelizer = DemoModelizer::new(false);

    consumer
        .switch_model_version(&mut modelizer, ModelVersion::NMinus1)
        .unwrap();
    consumer
        .switch_model_version(&mut modelizer, ModelVersion::N)
        .unwrap();

    let mut buf1 = filled_buffer(1);
    let mut alarm = InMemoryAlarm::new();
    let mut buf2 = ConcurrentBuffer2::new();
    consumer
        .consume_once(&mut buf1, &mut modelizer, &mut alarm, &mut buf2)
        .unwrap();
    assert_eq!(drain_all(&mut buf2)[0].model_version, "v1");
}

#[test]
fn switch_error_maps_to_consumer_error_inference() {
    let mut consumer = make_consumer(10, 1);
    let mut modelizer = Modelizer::new(OfflineModel::new());

    let result = consumer.switch_model_version(&mut modelizer, ModelVersion::N);

    assert!(
        matches!(result, Err(ConsumerError::Inference(_))),
        "switch failure must map to ConsumerError::Inference: {result:?}"
    );
}

#[test]
fn default_model_version_is_n() {
    // Without an explicit switch, records carry the latest version's label.
    let mut consumer = make_consumer(100, 1);
    let mut buf1 = filled_buffer(5);
    let mut modelizer = DemoModelizer::new(false);
    let mut alarm = InMemoryAlarm::new();
    let mut buf2 = ConcurrentBuffer2::new();

    consumer
        .consume_once(&mut buf1, &mut modelizer, &mut alarm, &mut buf2)
        .unwrap();

    let captured = drain_all(&mut buf2);
    assert_eq!(captured.len(), 5, "infer must be called once on the full batch");
    for tx in captured.iter() {
        assert_eq!(
            tx.model_version, "v1",
            "Consumer must not switch the version implicitly"
        );
    }
}

#[test]
fn consume_once_on_drained_input_returns_read_closed() {
    let mut consumer = make_consumer(10, 1);
    let mut buf1 = InMemoryBuffer::new();
    let mut modelizer = DemoModelizer::new(false);
    let mut alarm = InMemoryAlarm::new();
    let mut buf2 = ConcurrentBuffer2::new();

    let result = consumer.consume_once(&mut buf1, &mut modelizer, &mut alarm, &mut buf2);
    assert!(
        matches!(result, Err(ConsumerError::Read(BufferError::Closed))),
        "a drained input signals Closed: {result:?}"
    );
}
