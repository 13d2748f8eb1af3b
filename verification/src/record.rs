//! The record produced by one probe, and the running tally of outcomes.

use vstd::prelude::*;

verus! {

/// The outcome of probing one target.
#[derive(Debug, PartialEq, Eq)]
pub struct ProbeResult {
    /// The host or endpoint that was probed.
    pub target: String,
    /// Free-form result text: a success tag or a diagnostic message.
    pub outcome: String,
    /// Human-readable duration of the probe.
    pub elapsed: String,
    /// Whether the check succeeded.
    pub succeeded: bool,
}

/// Mathematical value of a [`ProbeResult`].
pub struct ProbeRecord {
    pub target: Seq<char>,
    pub outcome: Seq<char>,
    pub elapsed: Seq<char>,
    pub succeeded: bool,
}

impl View for ProbeResult {
    type V = ProbeRecord;

    open spec fn view(&self) -> ProbeRecord {
        ProbeRecord {
            target: self.target@,
            outcome: self.outcome@,
            elapsed: self.elapsed@,
            succeeded: self.succeeded,
        }
    }
}

impl ProbeResult {
    /// An independent copy carrying the same four fields.
    pub fn duplicate(&self) -> (copy: ProbeResult)
        ensures
            copy@ == self@,
    {
        ProbeResult {
            target: self.target.clone(),
            outcome: self.outcome.clone(),
            elapsed: self.elapsed.clone(),
            succeeded: self.succeeded,
        }
    }
}

/// Running counts of succeeded and failed probes seen so far.
#[derive(Clone, Copy, Debug, PartialEq, Eq)]
pub struct RunTally {
    pub succeeded: u64,
    pub failed: u64,
}

impl RunTally {
    /// Number of outcomes counted so far.
    pub open spec fn total(&self) -> nat {
        (self.succeeded + self.failed) as nat
    }

    /// A tally with nothing counted.
    pub fn new() -> (tally: RunTally)
        ensures
            tally.succeeded == 0,
            tally.failed == 0,
    {
        RunTally { succeeded: 0, failed: 0 }
    }

    /// Counts one more outcome on the side given by `succeeded`.
    pub fn record(&mut self, succeeded: bool)
        requires
            old(self).total() < u64::MAX,
        ensures
            final(self).succeeded == old(self).succeeded + (if succeeded { 1int } else { 0int }),
            final(self).failed == old(self).failed + (if succeeded { 0int } else { 1int }),
            final(self).total() == old(self).total() + 1,
    {
        if succeeded {
            self.succeeded = self.succeeded + 1;
        } else {
            self.failed = self.failed + 1;
        }
    }

    /// Sum of both counts.
    pub fn count(&self) -> (n: u64)
        requires
            self.total() <= u64::MAX,
        ensures
            n == self.total(),
    {
        self.succeeded + self.failed
    }
}

} // verus!
