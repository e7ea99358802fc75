//! The per-request state this core reads, and the outcome of trying to
//! borrow it.
//!
//! The request-local container itself is owned by the surrounding system and
//! accessed through a borrow-checked cell; a wrapper only ever sees the
//! outcome of one non-exclusive borrow attempt: `Some` with the state, or
//! `None` when the state is already exclusively borrowed elsewhere on the
//! same request (an expected reentrancy condition, never an error).

use vstd::prelude::*;

verus! {

/// The fields of the request-local state that timeline collection reads.
pub struct RequestLocals {
    /// Whether timeline collection is enabled for this request.
    pub profiling_experimental_timeline_enabled: bool,
}

/// Whether a borrow attempt yielded readable state whose timeline flag is on.
pub open spec fn locals_enabled(locals: Option<&RequestLocals>) -> bool {
    match locals {
        Some(l) => l.profiling_experimental_timeline_enabled,
        None => false,
    }
}

} // verus!
