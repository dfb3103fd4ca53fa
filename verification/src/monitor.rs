//! The monitor's bookkeeping: how many samples it has received, and the
//! alert it reports for each.
use vstd::prelude::*;
use crate::metrics::{alert_of, AlertStatus, RoomMetrics};

verus! {

/// The state of a running monitor.
pub struct Monitor {
    total_received: u64,
}

impl Monitor {
    /// The number of samples received so far.
    pub closed spec fn received(&self) -> nat {
        self.total_received as nat
    }

    /// A monitor that has received nothing yet.
    pub fn new() -> (m: Monitor)
        ensures
            m.received() == 0,
    {
        Monitor { total_received: 0 }
    }

    /// The number of samples received so far.
    pub fn total_received(&self) -> (n: u64)
        ensures
            n == self.received(),
    {
        self.total_received
    }

    /// Counts one more received sample and gives the alert to report for it.
    pub fn on_sample(&mut self, metrics: &RoomMetrics) -> (alert: AlertStatus)
        requires
            old(self).received() < u64::MAX,
        ensures
            final(self).received() == old(self).received() + 1,
            alert == alert_of(*metrics),
    {
        self.total_received = self.total_received + 1;
        metrics.alert_status()
    }
}

} // verus!
