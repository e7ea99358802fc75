//! Hook installation: capturing the previous occupants of the two engine
//! extension-point slots.
//!
//! The slots themselves are mutable cells owned by the host engine; the
//! surrounding system reads them, calls `timeline_minit` with what it found,
//! and then overwrites the slots with the interception wrappers. The saved
//! previous handlers are captured exactly once, before any request runs, and
//! never reassigned; installing a second time would save the wrappers
//! themselves as "previous" and chain them into themselves, so the
//! surrounding system must call this once per process.

use vstd::prelude::*;

verus! {

/// The previous occupants of the two extension-point slots, as found at
/// installation time. `None` records that a slot was empty.
pub struct Hooks<C, G> {
    /// What the compile-step slot held before the wrapper was installed.
    pub prev_zend_compile_file: Option<C>,
    /// What the garbage-collection slot held before the wrapper was
    /// installed.
    pub prev_gc_collect_cycles: Option<G>,
}

/// Capture the current occupants of the two extension-point slots as the
/// saved previous handlers, exactly as they were found.
pub fn timeline_minit<C, G>(zend_compile_file: Option<C>, gc_collect_cycles: Option<G>) -> (hooks:
    Hooks<C, G>)
    ensures
        hooks.prev_zend_compile_file == zend_compile_file,
        hooks.prev_gc_collect_cycles == gc_collect_cycles,
{
    Hooks { prev_zend_compile_file: zend_compile_file, prev_gc_collect_cycles: gc_collect_cycles }
}

} // verus!
