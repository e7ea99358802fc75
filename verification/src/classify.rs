//! Context classification: why a compile happened, and why a
//! garbage-collection cycle ran.

use vstd::prelude::*;
use vstd::string::StringExecFns;

verus! {

/// Reason code the engine passes for an inclusion-mode compile.
pub const ZEND_INCLUDE: u32 = 2;

/// Reason code the engine passes for a require-mode compile.
pub const ZEND_REQUIRE: u32 = 8;

/// Label for a compile that happened for the given reason code.
pub open spec fn include_label_spec(compile_type: i32) -> Seq<char> {
    if compile_type as u32 == ZEND_INCLUDE {
        "include"@
    } else if compile_type as u32 == ZEND_REQUIRE {
        "require"@
    } else {
        ""@
    }
}

/// Classify why a compile happened: one of the two distinguished inclusion
/// modes, or the empty label for every other reason code.
pub fn include_type_label(compile_type: i32) -> (label: &'static str)
    ensures
        label@ == include_label_spec(compile_type),
{
    let t = compile_type as u32;
    if t == ZEND_INCLUDE {
        "include"
    } else if t == ZEND_REQUIRE {
        "require"
    } else {
        ""
    }
}

/// The function name whose presence at the top of the call stack marks a
/// garbage-collection cycle as requested by running code.
pub open spec fn gc_trigger_name() -> Seq<char> {
    "gc_collect_cycles"@
}

/// Reason label for a garbage-collection cycle, given the name of the
/// function active at the moment of interception (if one was resolvable).
pub open spec fn gc_reason_spec(frame_function_name: Option<Seq<char>>) -> Seq<char> {
    if frame_function_name == Some(gc_trigger_name()) {
        "induced"@
    } else {
        "engine"@
    }
}

/// View of the borrowed frame-function name handed to `gc_reason`.
pub open spec fn frame_name_view(frame_function_name: Option<&String>) -> Option<Seq<char>> {
    match frame_function_name {
        Some(name) => Some(name@),
        None => None,
    }
}

/// View of an owned frame-function name.
pub open spec fn opt_string_view(name: Option<String>) -> Option<Seq<char>> {
    match name {
        Some(s) => Some(s@),
        None => None,
    }
}

/// Why the current garbage-collection cycle ran. If the function at the top
/// of the call stack is the user-invocable trigger, running code requested
/// the cycle ("induced"); under every other name, or when no name was
/// resolvable, the engine decided on its own ("engine").
pub fn gc_reason(frame_function_name: Option<&String>) -> (reason: &'static str)
    ensures
        reason@ == gc_reason_spec(frame_name_view(frame_function_name)),
{
    match frame_function_name {
        Some(name) => {
            let trigger = String::from_str("gc_collect_cycles");
            if *name == trigger {
                "induced"
            } else {
                "engine"
            }
        },
        None => "engine",
    }
}

/// The compile classification maps the distinguished "include" and
/// "require" reason codes to their labels, and every other code to the
/// empty label.
pub proof fn lemma_include_classification(compile_type: i32)
    ensures
        compile_type as u32 == ZEND_INCLUDE ==> include_label_spec(compile_type) == "include"@,
        compile_type as u32 == ZEND_REQUIRE ==> include_label_spec(compile_type) == "require"@,
        compile_type as u32 != ZEND_INCLUDE && compile_type as u32 != ZEND_REQUIRE
            ==> include_label_spec(compile_type) == ""@,
{
}

/// The reason is "induced" exactly when the active frame's function name is
/// the trigger name; every other observed name, and an unresolvable one,
/// yields "engine".
pub proof fn lemma_gc_reason_induced_iff(frame_function_name: Option<Seq<char>>)
    ensures
        gc_reason_spec(frame_function_name) == "induced"@ <==> frame_function_name == Some(
            gc_trigger_name(),
        ),
        gc_reason_spec(frame_function_name) == "engine"@ <==> frame_function_name != Some(
            gc_trigger_name(),
        ),
{
    reveal_strlit("induced");
    reveal_strlit("engine");
    assert("induced"@.len() == 7);
    assert("engine"@.len() == 6);
}

} // verus!
