//! Demo adapter for the alarm port: acknowledges every alert.
//!
//! Delivery always succeeds; the delivery log is tracked only in ghost
//! state.  Use a custom adapter for real alerting.

use vstd::prelude::*;
use crate::domain::{AlarmError, InferredTransaction};
use crate::ports::Alarm;

verus! {

/// Alarm sink that accepts every alert.
pub struct LogAlarm {
    history: Ghost<Seq<(u128, bool)>>,
}

impl LogAlarm {
    /// Create a new alarm sink with an empty delivery log.
    pub fn new() -> (r: LogAlarm)
        ensures
            r.deliveries() == Seq::<(u128, bool)>::empty(),
    {
        LogAlarm { history: Ghost(Seq::empty()) }
    }
}

impl Alarm for LogAlarm {
    closed spec fn deliveries(&self) -> Seq<(u128, bool)> {
        self.history@
    }

    open spec fn failure_log(&self) -> Seq<Seq<char>> {
        Seq::empty()
    }

    /// Record the alert and report success.
    fn trigger(&mut self, transaction: &InferredTransaction) -> (r: Result<(), AlarmError>) {
        self.history = Ghost(self.history@.push((transaction.transaction.id, true)));
        Ok(())
    }
}

} // verus!
