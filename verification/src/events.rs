//! The timed events a wrapper hands to the shared profiler, when one is
//! installed and collection is enabled.

use vstd::prelude::*;

verus! {

/// One observed compile of a source unit.
pub struct CompileFileEvent {
    /// Wall-clock nanoseconds the previous handler took.
    pub duration_ns: u64,
    /// The location identifier the engine passed for the compiled unit.
    pub filename: String,
    /// The classified inclusion label: `"include"`, `"require"`, or empty.
    pub include_type: String,
}

/// One observed garbage-collection cycle.
pub struct GarbageCollectionEvent {
    /// Wall-clock nanoseconds the previous handler took.
    pub duration_ns: u64,
    /// Why the cycle ran: `"induced"` or `"engine"`.
    pub reason: String,
    /// Items collected, as reported by the previous handler.
    pub collected: i64,
    /// Collector runs so far, when the engine exposes a status query.
    pub runs: Option<i64>,
}

} // verus!
