//! Post-tool hooks: which hooks a tool batch triggers, their run records,
//! the result of a hook process, and what a failure leads to.
//!
//! Running the hook process and reading hooks.json are the caller's I/O; this
//! module decides everything around them.
use vstd::prelude::*;
use crate::agent_state::{
    HookConfig, HookFailurePolicy, HookRunRecord, HookRunStatus, HookToolFilter, ToolRunRecord,
};
use crate::sys::{current_time_ms, new_uuid_v4_string};
use crate::text::{
    concat2, decimal_of_int, decimal_of_nat, has_prefix, join_lines, join_with_newlines,
    push_char, push_decimal, push_decimal_i64, push_str, string_of_str,
};

verus! {

/// Error loading the hook configuration.
#[derive(Debug, Clone)]
pub struct HookConfigError {
    pub code: String,
    pub message: String,
}

/// Whether one of `names` is `n`.
pub open spec fn names_contain(names: Seq<String>, n: Seq<char>) -> bool {
    exists|j: int| 0 <= j < names.len() && (#[trigger] names[j])@ == n
}

/// Whether a run triggers a hook with this filter: any mutating run for
/// `AnyMutating`, a run of a listed tool for `ToolNames`.
pub open spec fn run_triggers(filter: HookToolFilter, r: ToolRunRecord) -> bool {
    match filter {
        HookToolFilter::AnyMutating => r.mutating,
        HookToolFilter::ToolNames(names) => names_contain(names@, r.tool_name@),
    }
}

/// Whether some run of the batch triggers the hook.
pub open spec fn spec_hook_matches(hook: HookConfig, runs: Seq<ToolRunRecord>) -> bool {
    exists|i: int| 0 <= i < runs.len() && run_triggers(hook.tool_filter, #[trigger] runs[i])
}

/// The run ids of the runs that trigger the filter, in batch order.
pub open spec fn triggered_ids(filter: HookToolFilter, runs: Seq<ToolRunRecord>) -> Seq<Seq<char>>
    decreases runs.len(),
{
    if runs.len() == 0 {
        Seq::<Seq<char>>::empty()
    } else {
        let prev = triggered_ids(filter, runs.drop_last());
        if run_triggers(filter, runs.last()) {
            prev.push(runs.last().run_id@)
        } else {
            prev
        }
    }
}

/// The hooks that the batch triggers, in configuration order.
pub open spec fn matching_hooks(hooks: Seq<HookConfig>, runs: Seq<ToolRunRecord>) -> Seq<HookConfig>
    decreases hooks.len(),
{
    if hooks.len() == 0 {
        Seq::<HookConfig>::empty()
    } else {
        let prev = matching_hooks(hooks.drop_last(), runs);
        if spec_hook_matches(hooks.last(), runs) {
            prev.push(hooks.last())
        } else {
            prev
        }
    }
}

/// Whether the run triggers the filter.
fn run_matches_filter(filter: &HookToolFilter, r: &ToolRunRecord) -> (b: bool)
    ensures
        b == run_triggers(*filter, *r),
{
    match filter {
        HookToolFilter::AnyMutating => r.mutating,
        HookToolFilter::ToolNames(names) => {
            let mut j: usize = 0;
            while j < names.len()
                invariant
                    j <= names.len(),
                    *filter == HookToolFilter::ToolNames(*names),
                    forall|k: int| 0 <= k < j ==> (#[trigger] names@[k])@ != r.tool_name@,
                decreases names.len() - j,
            {
                if names[j] == r.tool_name {
                    assert((names@[j as int])@ == r.tool_name@);
                    assert(names_contain(names@, r.tool_name@));
                    return true;
                }
                j = j + 1;
            }
            false
        },
    }
}

/// Check if a hook's filter matches the given tool runs.
pub fn hook_matches_filter(hook: &HookConfig, tool_runs: &[ToolRunRecord]) -> (b: bool)
    ensures
        b == spec_hook_matches(*hook, tool_runs@),
{
    let mut i: usize = 0;
    while i < tool_runs.len()
        invariant
            i <= tool_runs.len(),
            forall|k: int| 0 <= k < i ==> !run_triggers(hook.tool_filter, #[trigger] tool_runs@[k]),
        decreases tool_runs.len() - i,
    {
        if run_matches_filter(&hook.tool_filter, &tool_runs[i]) {
            return true;
        }
        i = i + 1;
    }
    false
}

/// Filter the hooks that should run after the given tool runs, keeping
/// configuration order.
pub fn filter_hooks_for_batch<'a>(hooks: &'a [HookConfig], tool_runs: &[ToolRunRecord]) -> (r: Vec<&'a HookConfig>)
    ensures
        r@.len() == matching_hooks(hooks@, tool_runs@).len(),
        forall|i: int| 0 <= i < r@.len() ==> *(#[trigger] r@[i]) == matching_hooks(hooks@, tool_runs@)[i],
{
    let mut out: Vec<&'a HookConfig> = Vec::new();
    let mut i: usize = 0;
    while i < hooks.len()
        invariant
            i <= hooks.len(),
            out@.len() == matching_hooks(hooks@.take(i as int), tool_runs@).len(),
            forall|k: int| 0 <= k < out@.len() ==> *(#[trigger] out@[k]) == matching_hooks(hooks@.take(i as int), tool_runs@)[k],
        decreases hooks.len() - i,
    {
        assert(hooks@.take(i + 1).drop_last() =~= hooks@.take(i as int));
        if hook_matches_filter(&hooks[i], tool_runs) {
            out.push(&hooks[i]);
        }
        i = i + 1;
    }
    assert(hooks@.take(hooks.len() as int) =~= hooks@);
    out
}

/// Get the ids of the tool runs that triggered a hook, in batch order.
pub fn get_triggering_tool_run_ids(hook: &HookConfig, tool_runs: &[ToolRunRecord]) -> (r: Vec<String>)
    ensures
        r.deep_view() == triggered_ids(hook.tool_filter, tool_runs@),
{
    let mut out: Vec<String> = Vec::new();
    let mut i: usize = 0;
    while i < tool_runs.len()
        invariant
            i <= tool_runs.len(),
            out.deep_view() == triggered_ids(hook.tool_filter, tool_runs@.take(i as int)),
        decreases tool_runs.len() - i,
    {
        assert(tool_runs@.take(i + 1).drop_last() =~= tool_runs@.take(i as int));
        if run_matches_filter(&hook.tool_filter, &tool_runs[i]) {
            let ghost before = out.deep_view();
            out.push(tool_runs[i].run_id.clone());
            assert(out.deep_view() =~= before.push(tool_runs@[i as int].run_id@));
        }
        i = i + 1;
    }
    assert(tool_runs@.take(tool_runs.len() as int) =~= tool_runs@);
    out
}

/// Result of executing a single hook.
#[derive(Debug, Clone)]
pub struct HookExecutionResult {
    pub status: HookRunStatus,
    pub output: String,
    pub error: Option<String>,
    pub started_at_ms: u64,
    pub finished_at_ms: u64,
}

/// What became of a hook process, as the caller that ran it observed.
#[derive(Debug, Clone)]
pub enum HookProcessOutcome {
    /// The hook's command was empty; nothing was run.
    EmptyCommand,
    /// The process could not be spawned.
    SpawnFailed { error: String },
    /// The process exited with this code; `output` is its combined output.
    Exited { output: String, exit_code: i32 },
    /// Waiting for the process or reading its output failed.
    WaitFailed { error: String },
    /// The timeout elapsed first.
    TimedOut,
}

/// The program and arguments of a hook's command; `None` when it is empty.
pub fn hook_program(config: &HookConfig) -> (r: Option<(String, Vec<String>)>)
    ensures
        config.command@.len() == 0 <==> r is None,
        r matches Some(p) ==> p.0 == config.command@[0] && p.1@ == config.command@.drop_first(),
{
    if config.command.len() == 0 {
        return None;
    }
    let program = config.command[0].clone();
    let mut args: Vec<String> = Vec::new();
    let mut i: usize = 1;
    while i < config.command.len()
        invariant
            1 <= i <= config.command.len(),
            args@ == config.command@.subrange(1, i as int),
        decreases config.command.len() - i,
    {
        args.push(config.command[i].clone());
        assert(config.command@.subrange(1, i + 1) =~= config.command@.subrange(1, i as int).push(config.command@[i as int]));
        i = i + 1;
    }
    assert(config.command@.subrange(1, config.command@.len() as int) =~= config.command@.drop_first());
    Some((program, args))
}

/// The error text of a hook result, by outcome.
pub open spec fn outcome_error(outcome: HookProcessOutcome, timeout_ms: u64) -> Option<Seq<char>> {
    match outcome {
        HookProcessOutcome::EmptyCommand => Some("Hook command is empty"@),
        HookProcessOutcome::SpawnFailed { error } => Some("Failed to spawn hook process: "@ + error@),
        HookProcessOutcome::Exited { exit_code, .. } => if exit_code == 0 {
            None
        } else {
            Some("Hook exited with code "@ + decimal_of_int(exit_code as int))
        },
        HookProcessOutcome::WaitFailed { error } => Some("Hook execution error: "@ + error@),
        HookProcessOutcome::TimedOut => Some(
            "Hook timed out after "@ + decimal_of_nat(timeout_ms as nat) + " ms"@,
        ),
    }
}

/// The result of a hook run from what became of its process: success only
/// for exit code 0; the output only of a process that exited.
pub fn hook_execution_result(
    outcome: HookProcessOutcome,
    timeout_ms: u64,
    started_at_ms: u64,
    finished_at_ms: u64,
) -> (r: HookExecutionResult)
    ensures
        r.status == (if outcome matches HookProcessOutcome::Exited { exit_code, .. } && exit_code == 0 {
            HookRunStatus::Succeeded
        } else {
            HookRunStatus::Failed
        }),
        r.output@ == (match outcome {
            HookProcessOutcome::Exited { output, .. } => output@,
            _ => Seq::<char>::empty(),
        }),
        r.error.is_some() == outcome_error(outcome, timeout_ms).is_some(),
        r.error matches Some(e) ==> e@ == outcome_error(outcome, timeout_ms)->0,
        r.started_at_ms == started_at_ms,
        r.finished_at_ms == finished_at_ms,
{
    match outcome {
        HookProcessOutcome::EmptyCommand => HookExecutionResult {
            status: HookRunStatus::Failed,
            output: String::new(),
            error: Some(string_of_str("Hook command is empty")),
            started_at_ms,
            finished_at_ms,
        },
        HookProcessOutcome::SpawnFailed { error } => HookExecutionResult {
            status: HookRunStatus::Failed,
            output: String::new(),
            error: Some(concat2("Failed to spawn hook process: ", error.as_str())),
            started_at_ms,
            finished_at_ms,
        },
        HookProcessOutcome::Exited { output, exit_code } => {
            if exit_code == 0 {
                HookExecutionResult {
                    status: HookRunStatus::Succeeded,
                    output,
                    error: None,
                    started_at_ms,
                    finished_at_ms,
                }
            } else {
                let mut msg = string_of_str("Hook exited with code ");
                push_decimal_i64(&mut msg, exit_code as i64);
                HookExecutionResult {
                    status: HookRunStatus::Failed,
                    output,
                    error: Some(msg),
                    started_at_ms,
                    finished_at_ms,
                }
            }
        },
        HookProcessOutcome::WaitFailed { error } => HookExecutionResult {
            status: HookRunStatus::Failed,
            output: String::new(),
            error: Some(concat2("Hook execution error: ", error.as_str())),
            started_at_ms,
            finished_at_ms,
        },
        HookProcessOutcome::TimedOut => {
            let mut msg = string_of_str("Hook timed out after ");
            push_decimal(&mut msg, timeout_ms);
            push_str(&mut msg, " ms");
            HookExecutionResult {
                status: HookRunStatus::Failed,
                output: String::new(),
                error: Some(msg),
                started_at_ms,
                finished_at_ms,
            }
        },
    }
}

/// The combined output of a hook: its stdout lines joined by newlines, then,
/// if it wrote to stderr, its stderr lines each marked `[stderr] `, after a
/// newline when stdout gave any text.
pub open spec fn combined_output(stdout: Seq<Seq<char>>, stderr: Seq<Seq<char>>) -> Seq<char> {
    let out = join_lines(stdout);
    let err = join_lines(stderr.map_values(|l: Seq<char>| "[stderr] "@ + l));
    if stderr.len() == 0 {
        out
    } else if out.len() == 0 {
        err
    } else {
        out + seq!['\n'] + err
    }
}

/// Combine the captured stdout and stderr lines of a hook process.
pub fn combine_hook_output(stdout_lines: &Vec<String>, stderr_lines: &Vec<String>) -> (r: String)
    ensures
        r@ == combined_output(stdout_lines.deep_view(), stderr_lines.deep_view()),
{
    let mut output = join_with_newlines(stdout_lines);
    if stderr_lines.len() > 0 {
        let mut marked: Vec<String> = Vec::new();
        let mut i: usize = 0;
        while i < stderr_lines.len()
            invariant
                i <= stderr_lines.len(),
                marked.deep_view() == stderr_lines.deep_view().take(i as int).map_values(
                    |l: Seq<char>| "[stderr] "@ + l,
                ),
            decreases stderr_lines.len() - i,
        {
            let ghost before = marked.deep_view();
            let line = concat2("[stderr] ", stderr_lines[i].as_str());
            let ghost line_v = line@;
            marked.push(line);
            assert(marked.deep_view() =~= before.push(line_v));
            assert(marked.deep_view() =~= stderr_lines.deep_view().take(i + 1).map_values(
                |l: Seq<char>| "[stderr] "@ + l,
            ));
            i = i + 1;
        }
        assert(stderr_lines.deep_view().take(stderr_lines.len() as int) =~= stderr_lines.deep_view());
        let err = join_with_newlines(&marked);
        if !output.as_str().is_empty() {
            push_char(&mut output, '\n');
        }
        push_str(&mut output, err.as_str());
        proof {
            if output@.len() == 0 {
            }
        }
    }
    output
}

/// The environment variables a hook process may see.
pub fn allowed_env_keys() -> (r: Vec<&'static str>)
    ensures
        r@.len() == 14,
        r@[0]@ == "PATH"@ && r@[1]@ == "HOME"@ && r@[2]@ == "USER"@ && r@[3]@ == "LANG"@,
        r@[4]@ == "LC_ALL"@ && r@[5]@ == "TERM"@ && r@[6]@ == "SHELL"@,
        r@[7]@ == "XDG_CONFIG_HOME"@ && r@[8]@ == "XDG_DATA_HOME"@ && r@[9]@ == "XDG_CACHE_HOME"@,
        r@[10]@ == "GIT_AUTHOR_NAME"@ && r@[11]@ == "GIT_AUTHOR_EMAIL"@,
        r@[12]@ == "GIT_COMMITTER_NAME"@ && r@[13]@ == "GIT_COMMITTER_EMAIL"@,
{
    let mut r: Vec<&'static str> = Vec::new();
    r.push("PATH");
    r.push("HOME");
    r.push("USER");
    r.push("LANG");
    r.push("LC_ALL");
    r.push("TERM");
    r.push("SHELL");
    r.push("XDG_CONFIG_HOME");
    r.push("XDG_DATA_HOME");
    r.push("XDG_CACHE_HOME");
    r.push("GIT_AUTHOR_NAME");
    r.push("GIT_AUTHOR_EMAIL");
    r.push("GIT_COMMITTER_NAME");
    r.push("GIT_COMMITTER_EMAIL");
    r
}

/// The prefix of every hook run id.
pub open spec fn hook_run_prefix() -> Seq<char> {
    "hookrun_"@
}

/// Whether `id` has the form `hookrun_<uuid>`.
pub open spec fn is_hook_run_id(id: Seq<char>) -> bool {
    &&& has_prefix(id, hook_run_prefix())
    &&& id.len() == hook_run_prefix().len() + 36
    &&& crate::sys::is_v4_uuid_text(id.subrange(hook_run_prefix().len() as int, id.len() as int))
}

/// Generate a hook run id `hookrun_<uuid>`.
pub fn generate_hook_run_id() -> (r: String)
    ensures
        is_hook_run_id(r@),
{
    let id = new_uuid_v4_string();
    let r = concat2("hookrun_", id.as_str());
    assert(r@.subrange(0, hook_run_prefix().len() as int) =~= hook_run_prefix());
    r
}

/// Create the record of a hook that is about to be executed: queued, first
/// attempt, listing the runs that triggered it.
pub fn create_hook_run_record(config: &HookConfig, tool_runs: &[ToolRunRecord]) -> (r: HookRunRecord)
    ensures
        is_hook_run_id(r.run_id@),
        r.hook_name == config.name,
        r.tool_run_ids.deep_view() == triggered_ids(config.tool_filter, tool_runs@),
        r.status == HookRunStatus::Queued,
        r.started_at_ms == 0,
        r.finished_at_ms is None,
        r.attempt == 1,
        r.error is None,
{
    HookRunRecord {
        run_id: generate_hook_run_id(),
        hook_name: config.name.clone(),
        tool_run_ids: get_triggering_tool_run_ids(config, tool_runs),
        status: HookRunStatus::Queued,
        started_at_ms: 0,
        finished_at_ms: None,
        attempt: 1,
        error: None,
    }
}

/// Mark a hook run as running from `now_ms`: its status and its start time
/// change, nothing else.
pub fn mark_hook_started_at(record: &mut HookRunRecord, now_ms: u64)
    ensures
        *final(record) == (HookRunRecord { status: HookRunStatus::Running, started_at_ms: now_ms, ..*old(record) }),
{
    record.status = HookRunStatus::Running;
    record.started_at_ms = now_ms;
}

/// Mark a hook run as running, stamping its start with the current time.
/// The clock's reading is not stated; the rest is `mark_hook_started_at`'s.
pub fn mark_hook_started(record: &mut HookRunRecord)
    ensures
        final(record).status == HookRunStatus::Running,
        final(record).run_id == old(record).run_id,
        final(record).hook_name == old(record).hook_name,
        final(record).tool_run_ids == old(record).tool_run_ids,
        final(record).finished_at_ms == old(record).finished_at_ms,
        final(record).attempt == old(record).attempt,
        final(record).error == old(record).error,
{
    let now = current_time_ms();
    mark_hook_started_at(record, now);
}

/// Record the result of a hook execution: its status, finish time and error.
pub fn mark_hook_completed(record: &mut HookRunRecord, result: &HookExecutionResult)
    ensures
        final(record).status == result.status,
        final(record).finished_at_ms == Some(result.finished_at_ms),
        final(record).error == result.error,
        final(record).run_id == old(record).run_id,
        final(record).hook_name == old(record).hook_name,
        final(record).tool_run_ids == old(record).tool_run_ids,
        final(record).started_at_ms == old(record).started_at_ms,
        final(record).attempt == old(record).attempt,
{
    record.status = result.status;
    record.finished_at_ms = Some(result.finished_at_ms);
    record.error = match &result.error {
        Some(e) => Some(e.clone()),
        None => None,
    };
}

/// What to do after a hook failure.
#[derive(Debug, Clone, PartialEq, Eq, Structural)]
pub enum FailureAction {
    /// Move to the Error state and stop the hook pipeline.
    FailSession,
    /// Log a warning and go on with the next hook.
    WarnContinue,
    /// Retry the hook after a delay.
    Retry { delay_ms: u64 },
}

/// The action for a failed hook, by its policy and the attempt that failed:
/// a retry policy retries while `attempt < max_attempts` and then fails the
/// session.
pub open spec fn spec_failure_action(policy: HookFailurePolicy, attempt: u32) -> FailureAction {
    match policy {
        HookFailurePolicy::FailSession => FailureAction::FailSession,
        HookFailurePolicy::WarnContinue => FailureAction::WarnContinue,
        HookFailurePolicy::Retry { max_attempts, delay_ms } => if attempt < max_attempts {
            FailureAction::Retry { delay_ms }
        } else {
            FailureAction::FailSession
        },
    }
}

/// Get the action to take for a failed hook.
pub fn get_failure_action(config: &HookConfig, attempt: u32) -> (r: FailureAction)
    ensures
        r == spec_failure_action(config.failure_policy, attempt),
{
    match &config.failure_policy {
        HookFailurePolicy::FailSession => FailureAction::FailSession,
        HookFailurePolicy::WarnContinue => FailureAction::WarnContinue,
        HookFailurePolicy::Retry { max_attempts, delay_ms } => {
            if attempt < *max_attempts {
                FailureAction::Retry { delay_ms: *delay_ms }
            } else {
                FailureAction::FailSession
            }
        },
    }
}

/// A retry policy retries a failed hook at most `max_attempts - 1` times:
/// from attempt `max_attempts` on, a failure fails the session, and before
/// it, a failure retries after the policy's delay.
pub proof fn law_retries_are_bounded(max_attempts: u32, delay_ms: u64, attempt: u32)
    ensures
        attempt >= max_attempts ==> spec_failure_action(
            HookFailurePolicy::Retry { max_attempts, delay_ms },
            attempt,
        ) == FailureAction::FailSession,
        attempt < max_attempts ==> spec_failure_action(
            HookFailurePolicy::Retry { max_attempts, delay_ms },
            attempt,
        ) == (FailureAction::Retry { delay_ms }),
{
}

/// A hook is triggered by a batch exactly when it would list some run of
/// the batch as triggering it.
pub proof fn law_matches_iff_some_trigger(hook: HookConfig, runs: Seq<ToolRunRecord>)
    ensures
        spec_hook_matches(hook, runs) <==> triggered_ids(hook.tool_filter, runs).len() > 0,
    decreases runs.len(),
{
    if runs.len() > 0 {
        law_matches_iff_some_trigger(hook, runs.drop_last());
        if spec_hook_matches(hook, runs.drop_last()) {
            let i = choose|i: int| 0 <= i < runs.drop_last().len() && run_triggers(hook.tool_filter, #[trigger] runs.drop_last()[i]);
            assert(run_triggers(hook.tool_filter, runs[i]));
        }
        if spec_hook_matches(hook, runs) && !run_triggers(hook.tool_filter, runs.last()) {
            let i = choose|i: int| 0 <= i < runs.len() && run_triggers(hook.tool_filter, #[trigger] runs[i]);
            assert(i < runs.len() - 1);
            assert(run_triggers(hook.tool_filter, runs.drop_last()[i]));
        }
        if run_triggers(hook.tool_filter, runs.last()) {
            assert(run_triggers(hook.tool_filter, runs[runs.len() - 1]));
        }
    }
}

} // verus!
