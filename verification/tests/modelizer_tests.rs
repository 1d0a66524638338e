//! Modelizer stage: count and order preservation, enrichment fields, and
//! version-switch delegation.

use fraud_detection::adapters::demo_model::DemoModel;
use fraud_detection::domain::{ModelVersion, Transaction};
use fraud_detection::modelizer::Modelizer;
use fraud_detection::ports::Modelizer as ModelizerPort;

fn make_tx(id: u128) -> Transaction {
    Transaction {
        id,
        amount_cents: 100,
        last_name: "Test".to_owned(),
    }
}

#[test]
fn empty_batch_returns_empty() {
    let mut modelizer = Modelizer::new(DemoModel::new(Some(1)));
    let result = modelizer.infer(vec![]).unwrap();
    assert!(result.is_empty());
}

#[test]
fn batch_inference_returns_same_count_in_order() {
    let txs: Vec<Transaction> = (0..5).map(|i| make_tx(i as u128)).collect();
    let ids: Vec<u128> = txs.iter().map(|t| t.id).collect();

    let mut modelizer = Modelizer::new(DemoModel::new(Some(1)));
    let result = modelizer.infer(txs).unwrap();

    assert_eq!(result.len(), 5);
    for (i, inferred) in result.iter().enumerate() {
        assert_eq!(inferred.transaction.id, ids[i], "order mismatch at index {i}");
    }
}

#[test]
fn inferred_tx_carries_enrichment_fields() {
    let tx = make_tx(1);
    let mut modelizer = Modelizer::new(DemoModel::new(Some(1)));
    let result = modelizer.infer(vec![tx]).unwrap();

    assert_eq!(result.len(), 1);
    assert_eq!(result[0].model_name, "DEMO");
    assert_eq!(result[0].model_version, "4");
}

#[test]
fn modelizer_switch_delegates_to_model() {
    let mut modelizer = Modelizer::new(DemoModel::new(Some(1)));
    modelizer.switch_version(ModelVersion::NMinus1).unwrap();
    // The switch reached the model: the next batch carries its label for
    // the previous version.
    let result = modelizer.infer(vec![make_tx(2)]).unwrap();
    assert_eq!(
        result[0].model_version, "3",
        "switch_version must be forwarded to the model"
    );
}
