//! Readiness monitor: turns samples of ledger activity into the readiness flag.

use vstd::prelude::*;

verus! {

/// Size of the observation window, and the activity that makes the ledger
/// ready, unless configured otherwise.
pub const DEFAULT_ACTIVITY_THRESHOLD: usize = 1000;

/// Seconds between two samples.
pub const SAMPLE_INTERVAL_SECS: u64 = 300;

/// The flag after a sample: an observed count decides, a failed query
/// leaves the flag as it was.
pub open spec fn readiness_after(previous: bool, threshold: nat, sample: Option<usize>) -> bool {
    match sample {
        Some(count) => count >= threshold,
        None => previous,
    }
}

/// Owner of the readiness flag.
#[derive(Clone, Copy, Debug)]
pub struct ReadinessMonitor {
    threshold: usize,
    ready: bool,
}

impl ReadinessMonitor {
    /// The activity count from which the ledger counts as ready.
    pub closed spec fn threshold(&self) -> nat {
        self.threshold as nat
    }

    /// The readiness flag.
    pub closed spec fn ready(&self) -> bool {
        self.ready
    }

    /// A monitor whose flag is not yet set.
    pub fn new(threshold: usize) -> (monitor: Self)
        ensures
            monitor.threshold() == threshold,
            !monitor.ready(),
    {
        ReadinessMonitor { threshold, ready: false }
    }

    /// Takes one sample: the activity count of the latest window, or `None`
    /// when the query failed. Returns the flag as it stands afterwards.
    pub fn observe(&mut self, sample: Option<usize>) -> (ready: bool)
        ensures
            final(self).threshold() == old(self).threshold(),
            final(self).ready() == readiness_after(old(self).ready(), old(self).threshold(), sample),
            ready == final(self).ready(),
    {
        match sample {
            Some(count) => {
                self.ready = count >= self.threshold;
            },
            None => {},
        }
        self.ready
    }

    /// Reads the flag.
    pub fn is_ready(&self) -> (ready: bool)
        ensures
            ready == self.ready(),
    {
        self.ready
    }

    /// Reads the threshold.
    pub fn activity_threshold(&self) -> (threshold: usize)
        ensures
            threshold == self.threshold(),
    {
        self.threshold
    }
}

} // verus!
