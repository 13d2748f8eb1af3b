//! The probe unit and the caller-facing batch.
//!
//! The check itself is the caller's: it runs the check, reads its clock
//! before and after, and hands the observation over. What the resulting
//! record says is decided here.

use vstd::prelude::*;
use crate::record::{ProbeRecord, ProbeResult};
use crate::timing::{duration_text, elapsed_between, elapsed_nanos, format_nanos};

verus! {

/// The outcome text of a probe whose check succeeded.
pub open spec fn success_marker() -> Seq<char> {
    "test"@
}

/// The record of a failed probe: the diagnostic as outcome text, and the
/// probe's own interval as elapsed text.
pub open spec fn failure_record(target: Seq<char>, start: u64, end: u64, message: Seq<char>)
    -> ProbeRecord {
    ProbeRecord {
        target,
        outcome: message,
        elapsed: duration_text(elapsed_nanos(start, end) as u64),
        succeeded: false,
    }
}

/// The record of one probe, from what its check reported and from the
/// clock readings taken before the check and when it finished.
pub open spec fn probe_record(
    target: Seq<char>,
    succeeded: bool,
    detail: Seq<char>,
    start: u64,
    end: u64,
) -> ProbeRecord {
    if succeeded {
        ProbeRecord {
            target,
            outcome: success_marker(),
            elapsed: duration_text(elapsed_nanos(start, end) as u64),
            succeeded: true,
        }
    } else {
        failure_record(target, start, end, detail)
    }
}

/// Builds the record of a probe that failed with the diagnostic `e`.
pub fn construct_error(hostname: &str, start: u64, end: u64, e: String) -> (response: ProbeResult)
    ensures
        response@ == failure_record(hostname@, start, end, e@),
        response@.elapsed == duration_text(elapsed_nanos(start, end) as u64),
{
    ProbeResult {
        target: String::from_str(hostname),
        outcome: e,
        elapsed: format_nanos(elapsed_between(start, end)),
        succeeded: false,
    }
}

/// Builds the record of one probe of `hostname`. `succeeded` and `detail`
/// are what the check reported; `start` and `end` are this probe's own
/// clock readings. A failed check keeps its detail as the outcome text; a
/// successful one gets the success marker.
pub fn process_host_test(hostname: &str, succeeded: bool, detail: String, start: u64, end: u64)
    -> (response: ProbeResult)
    ensures
        response@ == probe_record(hostname@, succeeded, detail@, start, end),
        response@.succeeded == succeeded,
        response@.target == hostname@,
        response@.elapsed == duration_text(elapsed_nanos(start, end) as u64),
{
    if !succeeded {
        return construct_error(hostname, start, end, detail);
    }
    ProbeResult {
        target: String::from_str(hostname),
        outcome: String::from_str("test"),
        elapsed: format_nanos(elapsed_between(start, end)),
        succeeded: true,
    }
}

/// What one worker observed of one host: the check's verdict and the two
/// clock readings around it.
#[derive(Debug, PartialEq, Eq)]
pub struct Observation {
    pub target: String,
    pub succeeded: bool,
    pub detail: String,
    pub start: u64,
    pub end: u64,
}

impl Observation {
    /// The record that this observation gives.
    pub open spec fn record(&self) -> ProbeRecord {
        probe_record(self.target@, self.succeeded, self.detail@, self.start, self.end)
    }
}

/// The caller-facing aggregation of a batch: one record per observation,
/// in the order of the input.
pub open spec fn batch_records(observations: Seq<Observation>) -> Seq<ProbeRecord> {
    Seq::new(observations.len(), |i: int| observations[i].record())
}

/// Turns the observations of a batch into its records. The result has one
/// entry per input, at the same index, whatever order the checks finished
/// in; each entry's elapsed text comes from its own pair of readings.
pub fn collect_batch(observations: &Vec<Observation>) -> (results: Vec<ProbeResult>)
    ensures
        results@.len() == observations@.len(),
        forall|i: int|
            0 <= i < observations@.len() ==> (#[trigger] results@[i])@ == observations@[i].record(),
        forall|i: int|
            0 <= i < observations@.len() ==> (#[trigger] results@[i]).target@
                == observations@[i].target@,
        results@.map_values(|r: ProbeResult| r@) == batch_records(observations@),
{
    let mut results: Vec<ProbeResult> = Vec::new();
    let mut i: usize = 0;
    while i < observations.len()
        invariant
            i <= observations@.len(),
            results@.len() == i,
            forall|k: int| 0 <= k < i ==> (#[trigger] results@[k])@ == observations@[k].record(),
        decreases observations@.len() - i,
    {
        let seen = &observations[i];
        let response = process_host_test(
            seen.target.as_str(),
            seen.succeeded,
            seen.detail.clone(),
            seen.start,
            seen.end,
        );
        results.push(response);
        i = i + 1;
    }
    assert(results@.map_values(|r: ProbeResult| r@) =~= batch_records(observations@));
    results
}

} // verus!
