//! JSON text of one record.

use vstd::prelude::*;
use crate::record::{ProbeRecord, ProbeResult};

verus! {

/// `serde_json::Error`, taken as an opaque value: nothing is read from it.
#[verifier::external_type_specification]
#[verifier::external_body]
pub struct ExJsonError(serde_json::Error);

/// What `serde_json::to_string_pretty` gives for the JSON object holding
/// three string members and one boolean member under the given keys: the
/// text, or nothing where the serializer refuses the object.
pub uninterp spec fn object_text(
    k1: Seq<char>,
    v1: Seq<char>,
    k2: Seq<char>,
    v2: Seq<char>,
    k3: Seq<char>,
    v3: Seq<char>,
    k4: Seq<char>,
    v4: bool,
) -> Option<Seq<char>>;

/// Builds a `serde_json::Value::Object` from the four members and calls
/// `serde_json::to_string_pretty` on it. Trusted: whether the call returns
/// `Ok`, and with which text, depends on the eight arguments alone (the
/// object is a sorted map and the printer's indent is fixed), so both are
/// named by [`object_text`]. Nothing is claimed about which arguments give
/// a text.
#[verifier::external_body]
fn pretty_object(
    k1: &str,
    v1: &str,
    k2: &str,
    v2: &str,
    k3: &str,
    v3: &str,
    k4: &str,
    v4: bool,
) -> (text: Result<String, serde_json::Error>)
    ensures
        match text {
            Ok(t) => object_text(k1@, v1@, k2@, v2@, k3@, v3@, k4@, v4) == Some(t@),
            Err(_) => object_text(k1@, v1@, k2@, v2@, k3@, v3@, k4@, v4) is None,
        },
{
    let mut members = serde_json::Map::new();
    members.insert(k1.into(), serde_json::Value::String(v1.into()));
    members.insert(k2.into(), serde_json::Value::String(v2.into()));
    members.insert(k3.into(), serde_json::Value::String(v3.into()));
    members.insert(k4.into(), serde_json::Value::Bool(v4));
    serde_json::to_string_pretty(&serde_json::Value::Object(members))
}

/// The JSON text of a record, where the serializer gives one: an object
/// with the members `target`, `outcome`, `elapsed` and `succeeded`.
pub open spec fn record_text(record: ProbeRecord) -> Option<Seq<char>> {
    object_text(
        "target"@,
        record.target,
        "outcome"@,
        record.outcome,
        "elapsed"@,
        record.elapsed,
        "succeeded"@,
        record.succeeded,
    )
}

/// Serializes one record. `None` means that the serializer refused it,
/// which is the serializer's decision alone; the caller then skips it.
pub fn encode_record(record: &ProbeResult) -> (encoded: Option<String>)
    ensures
        match encoded {
            Some(text) => record_text(record@) == Some(text@),
            None => record_text(record@) is None,
        },
{
    accepted_text(
        pretty_object(
            "target",
            record.target.as_str(),
            "outcome",
            record.outcome.as_str(),
            "elapsed",
            record.elapsed.as_str(),
            "succeeded",
            record.succeeded,
        ),
    )
}

/// What becomes of the serializer's answer: its text where it gave one,
/// nothing where it refused.
pub fn accepted_text(answer: Result<String, serde_json::Error>) -> (encoded: Option<String>)
    ensures
        match answer {
            Ok(text) => encoded == Some(text),
            Err(_) => encoded is None,
        },
{
    match answer {
        Ok(text) => Some(text),
        Err(_) => None,
    }
}

} // verus!
