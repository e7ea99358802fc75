//! Wall-clock measurement around the previous handler's invocation.
//!
//! The timestamps come from the platform clock, so nothing can be promised
//! about the measured value; the verified part is the bracketing: the timer
//! starts immediately before the previous handler runs and stops immediately
//! after it returns, and the handler's result is passed through unchanged.

use vstd::prelude::*;

verus! {

#[verifier::external_type_specification]
#[verifier::external_body]
pub struct ExInstant(std::time::Instant);

/// Relies on `std::time::Instant::now`: an opaque timestamp of the moment of
/// the call, usable only for measuring elapsed time.
#[verifier::external_body]
fn instant_now() -> (t: std::time::Instant) {
    std::time::Instant::now()
}

/// Relies on `std::time::Instant::elapsed` and `Duration::as_nanos`: the
/// non-negative wall-clock time since `start`, in nanoseconds, truncated to
/// 64 bits. The value depends on the clock, so nothing is stated of it.
#[verifier::external_body]
fn nanos_since(start: &std::time::Instant) -> (duration_ns: u64) {
    start.elapsed().as_nanos() as u64
}

/// Invoke `handler` once and measure the wall-clock nanoseconds the
/// invocation took; the timer brackets exactly the invocation. The returned
/// value is the handler's own result, unchanged.
pub fn timed_call<R, F: FnOnce() -> R>(handler: F) -> (out: (R, u64))
    requires
        call_requires(handler, ()),
    ensures
        call_ensures(handler, (), out.0),
{
    let start = instant_now();
    let result = handler();
    let duration_ns = nanos_since(&start);
    (result, duration_ns)
}

} // verus!
