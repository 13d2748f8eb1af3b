//! A host-probing harness core: probe records, the caller-facing batch,
//! and the incremental writer that streams records into a JSON array
//! while keeping a running tally.
//!
//! Clock readings, the worker pool, the hand-off channel and the output
//! file belong to the caller; this crate holds the rules that decide what
//! a record says, what is appended to the output and when the writer stops.

pub mod record;
pub mod text;
pub mod timing;
pub mod probe;
pub mod placeholder;
pub mod encode;
pub mod container;
pub mod writer;
