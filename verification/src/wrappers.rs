//! The timed interception wrappers, one per extension point.
//!
//! Each wrapper invokes the previous handler, measures exactly that
//! invocation, classifies the occurrence, and decides what to hand on: a
//! diagnostic trace line, and — when the request-local state was readable
//! with collection enabled and a profiler is installed — a telemetry event.
//! The previous handler's result is always returned unchanged, whatever the
//! telemetry decisions came to: the host engine must observe identical
//! behavior with or without profiling.
//!
//! A failed borrow of the request-local state (`locals` is `None`) is an
//! expected reentrancy condition, not an error: the wrapped call still
//! happens and its result is still returned; only the telemetry is skipped.

use vstd::prelude::*;
use vstd::string::StringExecFns;

use crate::classify::{
    gc_reason, gc_reason_spec, include_label_spec, include_type_label, opt_string_view,
};
use crate::events::{CompileFileEvent, GarbageCollectionEvent};
use crate::locals::{locals_enabled, RequestLocals};
use crate::timing::timed_call;
use crate::trace::{compile_trace_line, compile_trace_spec, gc_trace_line, gc_trace_spec};

verus! {

/// Whether a call forwards its event to the profiler: the request-local
/// state was readable, its timeline flag is on, and a profiler is installed.
pub open spec fn telemetry_forwarded(
    locals: Option<&RequestLocals>,
    profiler_present: bool,
) -> bool {
    locals_enabled(locals) && profiler_present
}

/// What one compile interception produced.
pub struct CompileOutcome<R> {
    /// The previous handler's result, returned to the engine unchanged.
    pub result: R,
    /// Measured wall-clock nanoseconds of the previous handler's invocation.
    pub duration_ns: u64,
    /// The diagnostic trace line, present exactly when the request-local
    /// state was readable with collection enabled.
    pub trace_line: Option<String>,
    /// The event to forward, present exactly when additionally a profiler
    /// is installed.
    pub event: Option<CompileFileEvent>,
}

/// The compile-step wrapper. Invokes the saved previous handler with the
/// engine's arguments, times exactly that invocation, classifies the reason
/// code, and decides what telemetry to hand on.
///
/// A missing previous handler is an unrecoverable invariant violation for
/// this extension point — skipping the call would mean the engine's compile
/// step never runs — so the caller must not reach this function without
/// one, and must fail loudly instead.
pub fn ddog_php_prof_compile_file<R, F: FnOnce() -> R>(
    prev: Option<F>,
    filename: String,
    compile_type: i32,
    locals: Option<&RequestLocals>,
    profiler_present: bool,
) -> (out: CompileOutcome<R>)
    requires
        prev is Some,
        prev matches Some(handler) ==> call_requires(handler, ()),
    ensures
        prev matches Some(handler) ==> call_ensures(handler, (), out.result),
        out.trace_line is Some <==> locals_enabled(locals),
        out.trace_line matches Some(line) ==> line@ == compile_trace_spec(
            filename@,
            include_label_spec(compile_type),
            out.duration_ns as nat,
        ),
        out.event is Some <==> telemetry_forwarded(locals, profiler_present),
        out.event matches Some(e) ==> e.duration_ns == out.duration_ns,
        out.event matches Some(e) ==> e.filename@ == filename@,
        out.event matches Some(e) ==> e.include_type@ == include_label_spec(compile_type),
{
    let handler = prev.unwrap();
    let (result, duration_ns) = timed_call(handler);
    let mut trace_line: Option<String> = None;
    let mut event: Option<CompileFileEvent> = None;
    if let Some(l) = locals {
        if l.profiling_experimental_timeline_enabled {
            let label = include_type_label(compile_type);
            trace_line = Some(compile_trace_line(&filename, label, duration_ns));
            if profiler_present {
                event = Some(
                    CompileFileEvent {
                        duration_ns,
                        filename: filename.clone(),
                        include_type: String::from_str(label),
                    },
                );
            }
        }
    }
    CompileOutcome { result, duration_ns, trace_line, event }
}

/// What one garbage-collection interception produced.
pub struct GcOutcome {
    /// The previous handler's items-collected count, returned to the engine
    /// unchanged; zero when no previous handler was saved.
    pub collected: i32,
    /// Measured wall-clock nanoseconds of the previous handler's
    /// invocation; zero when no previous handler was saved.
    pub duration_ns: u64,
    /// The classified reason label, absent only in the degenerate
    /// no-previous-handler case.
    pub reason: Option<String>,
    /// The diagnostic trace line, absent only in the degenerate
    /// no-previous-handler case.
    pub trace_line: Option<String>,
    /// The event to forward, present exactly when a previous handler ran,
    /// the request-local state was readable with collection enabled, and a
    /// profiler is installed.
    pub event: Option<GarbageCollectionEvent>,
}

/// The garbage-collection wrapper. With no saved previous handler it
/// returns a neutral zero-collected result with no telemetry — a benign
/// degenerate state (for instance a misbehaving co-installed extension),
/// deliberately unlike the compile step's fatal treatment. Otherwise it
/// invokes the previous handler, times exactly that invocation, classifies
/// the reason from the active call frame's function name, and decides what
/// telemetry to hand on. `gc_runs` carries the engine's run counter when the
/// host exposes a status query, and is passed into the event unchanged.
pub fn ddog_php_prof_gc_collect_cycles<F: FnOnce() -> i32>(
    prev: Option<F>,
    frame_function_name: Option<String>,
    gc_runs: Option<i64>,
    locals: Option<&RequestLocals>,
    profiler_present: bool,
) -> (out: GcOutcome)
    requires
        prev matches Some(handler) ==> call_requires(handler, ()),
    ensures
        prev matches Some(handler) ==> call_ensures(handler, (), out.collected),
        prev is None ==> out.collected == 0,
        prev is None ==> out.duration_ns == 0,
        prev is None ==> out.reason is None && out.trace_line is None && out.event is None,
        prev is Some ==> (out.reason matches Some(reason) && reason@ == gc_reason_spec(
            opt_string_view(frame_function_name),
        )),
        prev is Some ==> (out.trace_line matches Some(line) && line@ == gc_trace_spec(
            gc_reason_spec(opt_string_view(frame_function_name)),
            out.duration_ns as nat,
        )),
        out.event is Some <==> (prev is Some && telemetry_forwarded(locals, profiler_present)),
        out.event matches Some(e) ==> e.duration_ns == out.duration_ns,
        out.event matches Some(e) ==> e.reason@ == gc_reason_spec(
            opt_string_view(frame_function_name),
        ),
        out.event matches Some(e) ==> e.collected == out.collected as i64,
        out.event matches Some(e) ==> e.runs == gc_runs,
{
    match prev {
        Some(handler) => {
            let (collected, duration_ns) = timed_call(handler);
            let reason = gc_reason(frame_function_name.as_ref());
            let trace_line = gc_trace_line(reason, duration_ns);
            let mut event: Option<GarbageCollectionEvent> = None;
            if let Some(l) = locals {
                if l.profiling_experimental_timeline_enabled && profiler_present {
                    event = Some(
                        GarbageCollectionEvent {
                            duration_ns,
                            reason: String::from_str(reason),
                            collected: collected as i64,
                            runs: gc_runs,
                        },
                    );
                }
            }
            GcOutcome {
                collected,
                duration_ns,
                reason: Some(String::from_str(reason)),
                trace_line: Some(trace_line),
                event,
            }
        },
        None => GcOutcome {
            collected: 0,
            duration_ns: 0,
            reason: None,
            trace_line: None,
            event: None,
        },
    }
}

/// When the per-request timeline flag is off, no event is forwarded to the
/// profiler, for both event types, even when a profiler is installed.
pub proof fn lemma_disabled_skips_telemetry(
    locals: Option<&RequestLocals>,
    profiler_present: bool,
)
    requires
        locals matches Some(l) ==> !l.profiling_experimental_timeline_enabled,
    ensures
        !telemetry_forwarded(locals, profiler_present),
{
}

/// Under a reentrant exclusive borrow the request-local state is not
/// readable, so nothing is traced and no event is forwarded; the wrapped
/// call itself still happens and its result is still returned.
pub proof fn lemma_reentrancy_skips_telemetry(profiler_present: bool)
    ensures
        !locals_enabled(None),
        !telemetry_forwarded(None, profiler_present),
{
}

} // verus!
