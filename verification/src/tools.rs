//! Tool classification and tool-run records.
//!
//! A tool is mutating when it edits files, runs commands or performs a git
//! operation; post-tool hooks run only after batches with a mutating tool.
use vstd::prelude::*;
use crate::agent_state::{ToolCall, ToolRunRecord, ToolRunStatus};
use crate::sys::new_uuid_v4_string;
use crate::text::{chars_of, chars_eq_str, starts_with_str, has_prefix, concat2};

verus! {

/// The tools that are mutating by name.
pub open spec fn mutating_tool_names() -> Seq<Seq<char>> {
    seq![
        "edit_file"@, "write_file"@, "apply_patch"@, "bash"@, "run_command"@,
        "git_commit"@, "git_checkout"@, "git_apply"@, "git_add"@, "git_reset"@,
        "git_stash"@, "git_push"@, "git_pull"@, "git_merge"@, "git_rebase"@,
    ]
}

/// A tool is mutating when it is one of the listed tools or its name begins
/// with `git_`; every other tool is read-only.
pub open spec fn spec_is_mutating(name: Seq<char>) -> bool {
    mutating_tool_names().contains(name) || has_prefix(name, "git_"@)
}

/// Classify whether a tool is mutating based on its name.
pub fn is_mutating_tool(tool_name: &str) -> (r: bool)
    ensures
        r == spec_is_mutating(tool_name@),
{
    let name = chars_of(tool_name);
    let listed = [
        "edit_file", "write_file", "apply_patch", "bash", "run_command",
        "git_commit", "git_checkout", "git_apply", "git_add", "git_reset",
        "git_stash", "git_push", "git_pull", "git_merge", "git_rebase",
    ];
    let ghost names = mutating_tool_names();
    assert(listed@.len() == names.len());
    assert(forall|k: int| 0 <= k < names.len() ==> #[trigger] names[k] == listed@[k]@);
    let mut i: usize = 0;
    while i < 15
        invariant
            i <= 15,
            name@ == tool_name@,
            listed@.len() == 15,
            names == mutating_tool_names(),
            forall|k: int| 0 <= k < names.len() ==> #[trigger] names[k] == listed@[k]@,
            forall|k: int| 0 <= k < i ==> names[k] != name@,
        decreases 15 - i,
    {
        if chars_eq_str(&name, listed[i]) {
            assert(names[i as int] == name@);
            assert(names.contains(name@));
            assert(name@ == tool_name@);
            return true;
        }
        i = i + 1;
    }
    assert(!names.contains(name@));
    starts_with_str(&name, "git_")
}

/// Set the mutating flag of a call from its tool name, whatever the harness
/// reported.
pub fn normalize_tool_call(call: ToolCall) -> (r: ToolCall)
    ensures
        r.call_id == call.call_id,
        r.name == call.name,
        r.arguments == call.arguments,
        r.mutating == spec_is_mutating(call.name@),
{
    let mut call = call;
    call.mutating = is_mutating_tool(call.name.as_str());
    call
}

/// Whether `r` is `c` with its mutating flag set from its name.
pub open spec fn is_normalized_of(r: ToolCall, c: ToolCall) -> bool {
    &&& r.call_id == c.call_id
    &&& r.name == c.name
    &&& r.arguments == c.arguments
    &&& r.mutating == spec_is_mutating(c.name@)
}

/// Normalize a batch of tool calls, keeping their order.
pub fn normalize_tool_calls(calls: Vec<ToolCall>) -> (r: Vec<ToolCall>)
    ensures
        r@.len() == calls@.len(),
        forall|i: int| 0 <= i < r@.len() ==> is_normalized_of(#[trigger] r@[i], calls@[i]),
{
    let mut out: Vec<ToolCall> = Vec::new();
    let mut i: usize = 0;
    while i < calls.len()
        invariant
            i <= calls.len(),
            out@.len() == i,
            forall|k: int| 0 <= k < i ==> is_normalized_of(#[trigger] out@[k], calls@[k]),
        decreases calls.len() - i,
    {
        let c = calls[i].duplicate();
        out.push(normalize_tool_call(c));
        i = i + 1;
    }
    out
}

/// The prefix of every tool run id.
pub open spec fn tool_run_prefix() -> Seq<char> {
    "toolrun_"@
}

/// Whether `r` is a fresh, queued run record of `call` (first attempt, not
/// yet started, no error), with an id `toolrun_<uuid>`.
pub open spec fn is_fresh_run_of(r: ToolRunRecord, call: ToolCall) -> bool {
    &&& has_prefix(r.run_id@, tool_run_prefix())
    &&& r.run_id@.len() == tool_run_prefix().len() + 36
    &&& crate::sys::is_v4_uuid_text(r.run_id@.subrange(tool_run_prefix().len() as int, r.run_id@.len() as int))
    &&& r.call_id == call.call_id
    &&& r.tool_name == call.name
    &&& r.mutating == call.mutating
    &&& r.status == ToolRunStatus::Queued
    &&& r.started_at_ms == 0
    &&& r.finished_at_ms is None
    &&& r.attempt == 1
    &&& r.error is None
}

/// Create a new queued run record for a tool call, with id `toolrun_<uuid>`.
pub fn create_tool_run_record(call: &ToolCall) -> (r: ToolRunRecord)
    ensures
        is_fresh_run_of(r, *call),
{
    let id = new_uuid_v4_string();
    let run_id = concat2("toolrun_", id.as_str());
    proof {
        assert(run_id@.subrange(0, ("toolrun_"@).len() as int) =~= "toolrun_"@);
    }
    ToolRunRecord {
        run_id,
        call_id: call.call_id.clone(),
        tool_name: call.name.clone(),
        mutating: call.mutating,
        status: ToolRunStatus::Queued,
        started_at_ms: 0,
        finished_at_ms: None,
        attempt: 1,
        error: None,
    }
}

/// Normalize a batch of tool calls and create one run record for each.
pub fn prepare_tool_batch(calls: Vec<ToolCall>) -> (r: (Vec<ToolCall>, Vec<ToolRunRecord>))
    ensures
        r.0@.len() == calls@.len(),
        r.1@.len() == calls@.len(),
        forall|i: int| 0 <= i < calls@.len() ==> is_normalized_of(#[trigger] r.0@[i], calls@[i]),
        forall|i: int| 0 <= i < calls@.len() ==> is_fresh_run_of(#[trigger] r.1@[i], r.0@[i]),
{
    let normalized = normalize_tool_calls(calls);
    let mut records: Vec<ToolRunRecord> = Vec::new();
    let mut i: usize = 0;
    while i < normalized.len()
        invariant
            i <= normalized.len(),
            records@.len() == i,
            forall|k: int| 0 <= k < i ==> is_fresh_run_of(#[trigger] records@[k], normalized@[k]),
        decreases normalized.len() - i,
    {
        records.push(create_tool_run_record(&normalized[i]));
        i = i + 1;
    }
    (normalized, records)
}

/// Whether some run in the batch is mutating.
pub open spec fn spec_batch_has_mutating(records: Seq<ToolRunRecord>) -> bool {
    exists|i: int| 0 <= i < records.len() && #[trigger] records[i].mutating
}

/// Check if a batch of tool runs contains any mutating tools.
pub fn batch_has_mutating_tools(records: &[ToolRunRecord]) -> (r: bool)
    ensures
        r == spec_batch_has_mutating(records@),
{
    let mut i: usize = 0;
    while i < records.len()
        invariant
            i <= records.len(),
            forall|k: int| 0 <= k < i ==> !(#[trigger] records@[k]).mutating,
        decreases records.len() - i,
    {
        if records[i].mutating {
            return true;
        }
        i = i + 1;
    }
    false
}

} // verus!
