//! Probe durations: the interval between two readings of one monotonic
//! clock, and its human-readable text.
//!
//! A reading is a `u64` count of nanoseconds since an anchor that the
//! caller fixes once per run.

use vstd::prelude::*;

verus! {

/// Nanoseconds from `start` to `end`; zero where `end` lies before `start`.
pub open spec fn elapsed_nanos(start: u64, end: u64) -> nat {
    if end >= start {
        (end - start) as nat
    } else {
        0
    }
}

/// The interval between two readings, never negative.
pub fn elapsed_between(start: u64, end: u64) -> (nanos: u64)
    ensures
        nanos == elapsed_nanos(start, end),
{
    if end >= start {
        end - start
    } else {
        0
    }
}

/// The text that `humantime::format_duration` displays for a duration of
/// `nanos` nanoseconds.
pub uninterp spec fn duration_text(nanos: u64) -> Seq<char>;

/// Calls `humantime::format_duration` on the `Duration` of `nanos`
/// nanoseconds and takes its `Display` text. Trusted: the text depends on
/// the duration alone (the formatter splits it into years down to
/// nanoseconds and writes the non-zero parts), so it is named by
/// [`duration_text`]; nothing more is claimed of it.
#[verifier::external_body]
pub(crate) fn format_nanos(nanos: u64) -> (text: String)
    ensures
        text@ == duration_text(nanos),
{
    humantime::format_duration(std::time::Duration::from_nanos(nanos)).to_string()
}

} // verus!
