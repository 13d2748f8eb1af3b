//! Decimal rendering of counters, and the name of a run's output.

use vstd::prelude::*;

verus! {

/// The text of one decimal digit; empty outside `0..=9`.
pub open spec fn digit_text(d: nat) -> Seq<char> {
    if d == 0 {
        "0"@
    } else if d == 1 {
        "1"@
    } else if d == 2 {
        "2"@
    } else if d == 3 {
        "3"@
    } else if d == 4 {
        "4"@
    } else if d == 5 {
        "5"@
    } else if d == 6 {
        "6"@
    } else if d == 7 {
        "7"@
    } else if d == 8 {
        "8"@
    } else if d == 9 {
        "9"@
    } else {
        Seq::empty()
    }
}

/// The decimal numeral of `n`, most significant digit first, without
/// leading zeros.
pub open spec fn decimal_text(n: nat) -> Seq<char>
    decreases n,
{
    if n < 10 {
        digit_text(n)
    } else {
        decimal_text(n / 10) + digit_text(n % 10)
    }
}

fn digit(d: u64) -> (s: &'static str)
    requires
        d < 10,
    ensures
        s@ == digit_text(d as nat),
{
    if d == 0 {
        "0"
    } else if d == 1 {
        "1"
    } else if d == 2 {
        "2"
    } else if d == 3 {
        "3"
    } else if d == 4 {
        "4"
    } else if d == 5 {
        "5"
    } else if d == 6 {
        "6"
    } else if d == 7 {
        "7"
    } else if d == 8 {
        "8"
    } else {
        "9"
    }
}

/// Renders `n` in decimal.
pub fn decimal(n: u64) -> (s: String)
    ensures
        s@ == decimal_text(n as nat),
    decreases n,
{
    if n < 10 {
        String::from_str(digit(n))
    } else {
        let head: String = decimal(n / 10);
        head.concat(digit(n % 10))
    }
}

/// The name of the output destination of a run that started
/// `started_at` seconds after the Unix epoch.
pub open spec fn incremental_name_text(started_at: u64) -> Seq<char> {
    "incremental_"@ + decimal_text(started_at as nat) + ".json"@
}

/// Names the output destination of a run after its start time, in seconds
/// since the Unix epoch.
pub fn incremental_name(started_at: u64) -> (name: String)
    ensures
        name@ == incremental_name_text(started_at),
{
    let stamp = decimal(started_at);
    String::from_str("incremental_").concat(stamp.as_str()).concat(".json")
}

} // verus!
