//! Timeline collection core of a profiler: timed interception wrappers for a
//! host engine's "compile a source unit" and "garbage collection cycle"
//! extension points, with context classification, a diagnostic trace line,
//! and telemetry events for a shared collector.

pub mod classify;
pub mod decimal;
pub mod events;
pub mod hooks;
pub mod locals;
pub mod timing;
pub mod trace;
pub mod wrappers;

pub use classify::{
    gc_reason, include_type_label, lemma_gc_reason_induced_iff, lemma_include_classification,
    ZEND_INCLUDE, ZEND_REQUIRE,
};
pub use events::{CompileFileEvent, GarbageCollectionEvent};
pub use hooks::{timeline_minit, Hooks};
pub use locals::RequestLocals;
pub use wrappers::{
    ddog_php_prof_compile_file, ddog_php_prof_gc_collect_cycles, lemma_disabled_skips_telemetry,
    lemma_reentrancy_skips_telemetry, CompileOutcome, GcOutcome,
};
