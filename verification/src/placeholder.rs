//! A stand-in check for trying the harness without a network: a coin
//! decides the verdict, and a random number of seconds says how long the
//! caller is to pretend that the check took.

use vstd::prelude::*;

verus! {

/// Shortest wait of the stand-in check, in seconds.
pub const MIN_WAIT_SECS: u64 = 2;

/// Bound that every wait of the stand-in check stays under, in seconds.
pub const WAIT_LIMIT_SECS: u64 = 15;

/// What the stand-in check decided.
#[derive(Debug, PartialEq, Eq)]
pub struct Verdict {
    pub succeeded: bool,
    /// Diagnostic of a failed check; empty after a success.
    pub detail: String,
    /// How long the caller is to wait before it reports the verdict.
    pub wait_secs: u64,
}

/// The detail text that goes with a verdict.
pub open spec fn placeholder_detail(succeeded: bool) -> Seq<char> {
    if succeeded {
        ""@
    } else {
        "Proizoshel trolling"@
    }
}

/// Draws a `bool` with `rand::Rng::gen` from `rand::rngs::OsRng`. Trusted;
/// the value is random, so nothing is claimed of it. The generator panics
/// where the operating system's random source fails.
#[verifier::external_body]
fn flip() -> (heads: bool) {
    rand::Rng::gen(&mut rand::rngs::OsRng)
}

/// Draws a number with `rand::Rng::gen_range` from `rand::rngs::OsRng`.
/// Trusted: the method documents a value in the range from `low`
/// inclusive to `high` exclusive, and a panic where `low >= high`. The
/// generator panics where the operating system's random source fails.
#[verifier::external_body]
fn draw_between(low: u64, high: u64) -> (n: u64)
    requires
        low < high,
    ensures
        low <= n < high,
{
    rand::Rng::gen_range(&mut rand::rngs::OsRng, low, high)
}

/// The verdict for a given coin and wait.
pub fn verdict_for(heads: bool, wait_secs: u64) -> (verdict: Verdict)
    ensures
        verdict.succeeded == heads,
        verdict.detail@ == placeholder_detail(heads),
        verdict.wait_secs == wait_secs,
{
    let detail = if heads {
        String::from_str("")
    } else {
        String::from_str("Proizoshel trolling")
    };
    Verdict { succeeded: heads, detail, wait_secs }
}

/// Runs the stand-in check: flips the coin, then draws the wait. Whatever
/// is drawn, the wait lies in the documented bounds and the detail goes
/// with the verdict.
pub fn placeholder_check() -> (verdict: Verdict)
    ensures
        MIN_WAIT_SECS <= verdict.wait_secs < WAIT_LIMIT_SECS,
        verdict.detail@ == placeholder_detail(verdict.succeeded),
{
    let heads = flip();
    let wait_secs = draw_between(MIN_WAIT_SECS, WAIT_LIMIT_SECS);
    verdict_for(heads, wait_secs)
}

} // verus!
