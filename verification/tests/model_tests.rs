//! DEMO model adapter: naming, version labels, seeded determinism, and
//! approximate fraud rates.

use fraud_detection::adapters::demo_model::DemoModel;
use fraud_detection::domain::{ModelVersion, Transaction};
use fraud_detection::ports::Model;

fn make_tx(id: u128) -> Transaction {
    Transaction {
        id,
        amount_cents: 100,
        last_name: "Test".to_owned(),
    }
}

#[test]
fn demo_model_name_is_demo() {
    let m = DemoModel::new(None);
    assert_eq!(m.name(), "DEMO");
}

#[test]
fn demo_model_default_active_version_is_4() {
    let m = DemoModel::new(None);
    assert_eq!(m.active_version(), "4");
}

#[test]
fn switch_to_nminus1_active_version_is_3() {
    let mut m = DemoModel::new(None);
    m.switch_version(ModelVersion::NMinus1).unwrap();
    assert_eq!(m.active_version(), "3");
}

#[test]
fn switch_to_n_active_version_is_4() {
    let mut m = DemoModel::new(None);
    m.switch_version(ModelVersion::NMinus1).unwrap();
    m.switch_version(ModelVersion::N).unwrap();
    assert_eq!(m.active_version(), "4");
}

#[test]
fn classify_seeded_is_deterministic() {
    let tx = make_tx(3);
    let mut m1 = DemoModel::new(Some(42));
    let mut m2 = DemoModel::new(Some(42));
    let results1: Vec<bool> = (0..100).map(|_| m1.classify(&tx).unwrap()).collect();
    let results2: Vec<bool> = (0..100).map(|_| m2.classify(&tx).unwrap()).collect();
    assert_eq!(
        results1, results2,
        "identical seeds must produce identical sequences"
    );
}

#[test]
fn fraud_rate_v4_is_approx_4pct() {
    let tx = make_tx(4);
    let mut m = DemoModel::new(Some(0));
    let count = 10_000usize;
    let mut fraud = 0usize;
    for _ in 0..count {
        if m.classify(&tx).unwrap() {
            fraud += 1;
        }
    }
    let rate = (fraud as f64) / (count as f64) * 100.0_f64;
    assert!(
        (3.0_f64..=5.0_f64).contains(&rate),
        "v4 fraud rate {rate:.2}% not in [3%, 5%]"
    );
}

#[test]
fn fraud_rate_v3_is_approx_3pct() {
    let tx = make_tx(5);
    let mut m = DemoModel::new(Some(0));
    m.switch_version(ModelVersion::NMinus1).unwrap();
    let count = 10_000usize;
    let mut fraud = 0usize;
    for _ in 0..count {
        if m.classify(&tx).unwrap() {
            fraud += 1;
        }
    }
    let rate = (fraud as f64) / (count as f64) * 100.0_f64;
    assert!(
        (2.0_f64..=4.0_f64).contains(&rate),
        "v3 fraud rate {rate:.2}% not in [2%, 4%]"
    );
}
