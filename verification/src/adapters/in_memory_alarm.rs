//! In-memory adapter for the alarm port.
//!
//! Records every triggered alert so callers can audit delivery attempts.
//! It can be built to reject every delivery, which exercises the
//! best-effort discipline of the consumer: alerts are still attempted once
//! per fraudulent record, and the failures are collected, never fatal.

use vstd::prelude::*;
use crate::domain::{AlarmError, InferredTransaction};
use crate::ports::Alarm;

verus! {

/// Alarm sink that keeps the identifiers of all triggered alerts.
pub struct InMemoryAlarm {
    triggered: Vec<u128>,
    reject_all: bool,
}

impl InMemoryAlarm {
    /// Whether this sink rejects every delivery.
    pub closed spec fn rejecting(&self) -> bool {
        self.reject_all
    }

    /// Create a sink that accepts every delivery.
    pub fn new() -> (r: InMemoryAlarm)
        ensures
            r.deliveries() == Seq::<(u128, bool)>::empty(),
            !r.rejecting(),
    {
        InMemoryAlarm { triggered: Vec::new(), reject_all: false }
    }

    /// Create a sink that rejects every delivery (while still recording it).
    pub fn rejecting_all() -> (r: InMemoryAlarm)
        ensures
            r.deliveries() == Seq::<(u128, bool)>::empty(),
            r.rejecting(),
    {
        InMemoryAlarm { triggered: Vec::new(), reject_all: true }
    }

    /// How many alerts have been triggered so far.
    pub fn count(&self) -> (r: usize)
        ensures
            r == self.deliveries().len(),
    {
        self.triggered.len()
    }

    /// The identifier of the `i`-th triggered alert.
    pub fn triggered_id(&self, i: usize) -> (r: u128)
        requires
            i < self.deliveries().len(),
        ensures
            r == self.deliveries()[i as int].0,
    {
        self.triggered[i]
    }
}

impl Alarm for InMemoryAlarm {
    closed spec fn deliveries(&self) -> Seq<(u128, bool)> {
        self.triggered@.map_values(|id: u128| (id, !self.reject_all))
    }

    closed spec fn failure_log(&self) -> Seq<Seq<char>> {
        if self.reject_all {
            self.triggered@.map_values(|id: u128| "alarm sink rejects deliveries"@)
        } else {
            Seq::empty()
        }
    }

    /// Record the alert; deliver it or reject it as configured.
    fn trigger(&mut self, transaction: &InferredTransaction) -> (r: Result<(), AlarmError>) {
        self.triggered.push(transaction.transaction.id);
        proof {
            assert(self.deliveries() =~= old(self).deliveries().push(
                (transaction.transaction.id, !self.reject_all),
            ));
            if self.reject_all {
                assert(self.failure_log() =~= old(self).failure_log().push(
                    "alarm sink rejects deliveries"@,
                ));
            }
        }
        if self.reject_all {
            Err(AlarmError::DeliveryFailed { reason: String::from_str("alarm sink rejects deliveries") })
        } else {
            Ok(())
        }
    }
}

} // verus!
