//! The diagnostic trace line each wrapper produces, specified character by
//! character. The surrounding system hands the line to its logger; this core
//! only builds it.

use vstd::prelude::*;
use vstd::string::StringExecFns;

use crate::decimal::{dec_spec, u64_to_dec};

verus! {

/// The trace line for one compile: the location, the inclusion label, and
/// the duration in nanoseconds.
pub open spec fn compile_trace_spec(filename: Seq<char>, label: Seq<char>, duration_ns: nat) -> Seq<
    char,
> {
    "Compile file \""@ + filename + "\" with include type \""@ + label + "\" took "@ + dec_spec(
        duration_ns,
    ) + " nanoseconds"@
}

/// The trace line for one garbage-collection cycle: the reason label and the
/// duration in nanoseconds.
pub open spec fn gc_trace_spec(reason: Seq<char>, duration_ns: nat) -> Seq<char> {
    "Garbage collection with reason \""@ + reason + "\" took "@ + dec_spec(duration_ns)
        + " nanoseconds"@
}

/// Build the compile trace line.
pub fn compile_trace_line(filename: &String, label: &str, duration_ns: u64) -> (line: String)
    ensures
        line@ == compile_trace_spec(filename@, label@, duration_ns as nat),
{
    let mut line = String::from_str("Compile file \"");
    line.append(filename.as_str());
    line.append("\" with include type \"");
    line.append(label);
    line.append("\" took ");
    let rendered = u64_to_dec(duration_ns);
    line.append(rendered.as_str());
    line.append(" nanoseconds");
    proof {
        assert(line@ =~= compile_trace_spec(filename@, label@, duration_ns as nat));
    }
    line
}

/// Build the garbage-collection trace line.
pub fn gc_trace_line(reason: &str, duration_ns: u64) -> (line: String)
    ensures
        line@ == gc_trace_spec(reason@, duration_ns as nat),
{
    let mut line = String::from_str("Garbage collection with reason \"");
    line.append(reason);
    line.append("\" took ");
    let rendered = u64_to_dec(duration_ns);
    line.append(rendered.as_str());
    line.append(" nanoseconds");
    proof {
        assert(line@ =~= gc_trace_spec(reason@, duration_ns as nat));
    }
    line
}

} // verus!
