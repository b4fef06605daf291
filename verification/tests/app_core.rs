use maestro::agent_state::{
    default_hook_timeout_ms, AgentStateKind, HookConfig, HookFailurePolicy, HookRunStatus, HookToolFilter, ToolCall,
    ToolRunRecord, ToolRunStatus,
};
use maestro::hooks::{
    combine_hook_output, create_hook_run_record, filter_hooks_for_batch, generate_hook_run_id, get_failure_action,
    get_triggering_tool_run_ids, hook_matches_filter, mark_hook_completed, mark_hook_started, mark_hook_started_at,
    FailureAction,
    HookExecutionResult,
};
use maestro::sessions::{
    checked_sums, git_status_sums_fit, GitFileStatus, parse_log_output, parse_numstat, parse_porcelain_status, session_name_for_path, spawn_session,
    try_parse_porcelain_status, AgentHarness,
};
use maestro::agent_state::AgentState;
use maestro::sys::{current_time_ms, millis_from_reading};
use maestro::session_registry::{SessionEntry, SessionRegistry};
use maestro::sessions::{AgentSession, SessionStatus};
use maestro::tools::{
    batch_has_mutating_tools, create_tool_run_record, is_mutating_tool, normalize_tool_call, prepare_tool_batch,
};

fn make_tool_run(run_id: &str, tool_name: &str, mutating: bool) -> ToolRunRecord {
    ToolRunRecord {
        run_id: run_id.to_string(),
        call_id: format!("call_{}", run_id),
        tool_name: tool_name.to_string(),
        mutating,
        status: ToolRunStatus::Succeeded,
        started_at_ms: 1000,
        finished_at_ms: Some(2000),
        attempt: 1,
        error: None,
    }
}

fn make_hook_config(name: &str, filter: HookToolFilter) -> HookConfig {
    HookConfig {
        name: name.to_string(),
        command: vec!["echo".to_string(), "test".to_string()],
        timeout_ms: 5000,
        failure_policy: HookFailurePolicy::default(),
        tool_filter: filter,
    }
}

#[test]
fn agent_state_kind_default_is_idle() {
    assert_eq!(AgentStateKind::default(), AgentStateKind::Idle);
}

#[test]
fn hook_timeout_default_is_two_minutes() {
    assert_eq!(default_hook_timeout_ms(), 120_000);
}

#[test]
fn filter_any_mutating_matches_mutating_tools() {
    let hook = make_hook_config("test", HookToolFilter::AnyMutating);
    let tool_runs = vec![make_tool_run("1", "read_file", false), make_tool_run("2", "edit_file", true)];
    assert!(hook_matches_filter(&hook, &tool_runs));
}

#[test]
fn filter_any_mutating_no_match_when_no_mutating() {
    let hook = make_hook_config("test", HookToolFilter::AnyMutating);
    let tool_runs = vec![make_tool_run("1", "read_file", false), make_tool_run("2", "grep", false)];
    assert!(!hook_matches_filter(&hook, &tool_runs));
}

#[test]
fn filter_tool_names_matches_specific_tools() {
    let hook = make_hook_config(
        "test",
        HookToolFilter::ToolNames(vec!["edit_file".to_string(), "bash".to_string()]),
    );
    let tool_runs = vec![make_tool_run("1", "read_file", false), make_tool_run("2", "bash", true)];
    assert!(hook_matches_filter(&hook, &tool_runs));
}

#[test]
fn filter_tool_names_no_match_when_no_matching_tools() {
    let hook = make_hook_config("test", HookToolFilter::ToolNames(vec!["git_commit".to_string()]));
    let tool_runs = vec![make_tool_run("1", "read_file", false), make_tool_run("2", "edit_file", true)];
    assert!(!hook_matches_filter(&hook, &tool_runs));
}

#[test]
fn filter_on_empty_batch_never_matches() {
    let hook = make_hook_config("test", HookToolFilter::AnyMutating);
    assert!(!hook_matches_filter(&hook, &[]));
}

#[test]
fn get_triggering_ids_for_any_mutating() {
    let hook = make_hook_config("test", HookToolFilter::AnyMutating);
    let tool_runs = vec![
        make_tool_run("1", "read_file", false),
        make_tool_run("2", "edit_file", true),
        make_tool_run("3", "bash", true),
    ];
    let ids = get_triggering_tool_run_ids(&hook, &tool_runs);
    assert_eq!(ids.len(), 2);
    assert!(ids.contains(&"2".to_string()));
    assert!(ids.contains(&"3".to_string()));
}

#[test]
fn get_triggering_ids_for_tool_names() {
    let hook = make_hook_config("test", HookToolFilter::ToolNames(vec!["bash".to_string()]));
    let tool_runs = vec![make_tool_run("1", "edit_file", true), make_tool_run("2", "bash", true)];
    let ids = get_triggering_tool_run_ids(&hook, &tool_runs);
    assert_eq!(ids.len(), 1);
    assert!(ids.contains(&"2".to_string()));
}

#[test]
fn filter_hooks_for_batch_returns_matching_only() {
    let hooks = vec![
        make_hook_config("mutating_hook", HookToolFilter::AnyMutating),
        make_hook_config("bash_hook", HookToolFilter::ToolNames(vec!["bash".to_string()])),
        make_hook_config("git_hook", HookToolFilter::ToolNames(vec!["git_commit".to_string()])),
    ];
    let tool_runs = vec![make_tool_run("1", "read_file", false), make_tool_run("2", "edit_file", true)];
    let filtered = filter_hooks_for_batch(&hooks, &tool_runs);
    assert_eq!(filtered.len(), 1);
    assert_eq!(filtered[0].name, "mutating_hook");
}

fn config_with_policy(policy: HookFailurePolicy) -> HookConfig {
    HookConfig {
        name: "test".to_string(),
        command: vec!["echo".to_string()],
        timeout_ms: 5000,
        failure_policy: policy,
        tool_filter: HookToolFilter::AnyMutating,
    }
}

#[test]
fn failure_action_fail_session() {
    let config = config_with_policy(HookFailurePolicy::FailSession);
    assert_eq!(get_failure_action(&config, 1), FailureAction::FailSession);
}

#[test]
fn failure_action_warn_continue() {
    let config = config_with_policy(HookFailurePolicy::WarnContinue);
    assert_eq!(get_failure_action(&config, 1), FailureAction::WarnContinue);
}

#[test]
fn failure_action_retry_under_max() {
    let config = config_with_policy(HookFailurePolicy::Retry { max_attempts: 3, delay_ms: 500 });
    assert_eq!(get_failure_action(&config, 1), FailureAction::Retry { delay_ms: 500 });
    assert_eq!(get_failure_action(&config, 2), FailureAction::Retry { delay_ms: 500 });
}

#[test]
fn failure_action_retry_exhausted_falls_back() {
    let config = config_with_policy(HookFailurePolicy::Retry { max_attempts: 3, delay_ms: 500 });
    assert_eq!(get_failure_action(&config, 3), FailureAction::FailSession);
}

#[test]
fn failure_action_retry_with_zero_attempts_fails_at_once() {
    let config = config_with_policy(HookFailurePolicy::Retry { max_attempts: 0, delay_ms: 500 });
    assert_eq!(get_failure_action(&config, 1), FailureAction::FailSession);
}

#[test]
fn generate_hook_run_id_format() {
    let id = generate_hook_run_id();
    assert!(id.starts_with("hookrun_"));
    assert!(id.len() > 8);
    assert_eq!(id.len(), "hookrun_".len() + 36);
}

#[test]
fn create_hook_run_record_initializes_correctly() {
    let config = make_hook_config("test_hook", HookToolFilter::AnyMutating);
    let tool_runs = vec![make_tool_run("1", "edit_file", true)];
    let record = create_hook_run_record(&config, &tool_runs);
    assert!(record.run_id.starts_with("hookrun_"));
    assert_eq!(record.hook_name, "test_hook");
    assert_eq!(record.tool_run_ids, vec!["1".to_string()]);
    assert_eq!(record.status, HookRunStatus::Queued);
    assert_eq!(record.started_at_ms, 0);
    assert!(record.finished_at_ms.is_none());
    assert_eq!(record.attempt, 1);
    assert!(record.error.is_none());
}

#[test]
fn mark_hook_started_updates_status() {
    let config = make_hook_config("test", HookToolFilter::AnyMutating);
    let tool_runs = vec![make_tool_run("1", "edit_file", true)];
    let mut record = create_hook_run_record(&config, &tool_runs);
    mark_hook_started(&mut record);
    assert_eq!(record.status, HookRunStatus::Running);
    assert!(record.started_at_ms > 0);
}

#[test]
fn mark_hook_started_at_stamps_the_given_time() {
    let config = make_hook_config("test", HookToolFilter::AnyMutating);
    let tool_runs = vec![make_tool_run("1", "edit_file", true)];
    let mut record = create_hook_run_record(&config, &tool_runs);
    let before = record.clone();
    mark_hook_started_at(&mut record, 12_345);
    assert_eq!(record.status, HookRunStatus::Running);
    assert_eq!(record.started_at_ms, 12_345);
    assert_eq!(record.run_id, before.run_id);
    assert_eq!(record.tool_run_ids, before.tool_run_ids);
    assert_eq!(record.attempt, 1);
}

#[test]
fn mark_hook_completed_updates_status() {
    let config = make_hook_config("test", HookToolFilter::AnyMutating);
    let tool_runs = vec![make_tool_run("1", "edit_file", true)];
    let mut record = create_hook_run_record(&config, &tool_runs);
    let result = HookExecutionResult {
        status: HookRunStatus::Succeeded,
        output: "done".to_string(),
        error: None,
        started_at_ms: 1000,
        finished_at_ms: 2000,
    };
    mark_hook_completed(&mut record, &result);
    assert_eq!(record.status, HookRunStatus::Succeeded);
    assert_eq!(record.finished_at_ms, Some(2000));
    assert!(record.error.is_none());
}

#[test]
fn hook_output_marks_stderr_lines() {
    let out = combine_hook_output(&vec!["a".to_string()], &vec!["b".to_string()]);
    assert!(out.contains("a"));
    assert!(out.contains("[stderr] b"));
}

#[test]
fn mutating_tools_classified_correctly() {
    assert!(is_mutating_tool("edit_file"));
    assert!(is_mutating_tool("write_file"));
    assert!(is_mutating_tool("apply_patch"));
    assert!(is_mutating_tool("bash"));
    assert!(is_mutating_tool("run_command"));
    assert!(is_mutating_tool("git_commit"));
    assert!(is_mutating_tool("git_checkout"));
    assert!(is_mutating_tool("git_apply"));
}

#[test]
fn non_mutating_tools_classified_correctly() {
    assert!(!is_mutating_tool("read_file"));
    assert!(!is_mutating_tool("list_files"));
    assert!(!is_mutating_tool("grep"));
    assert!(!is_mutating_tool("search"));
}

#[test]
fn unknown_git_prefix_is_mutating() {
    assert!(is_mutating_tool("git_unknown_command"));
    assert!(is_mutating_tool("git_branch"));
    assert!(is_mutating_tool("git_tag"));
}

#[test]
fn unknown_tools_default_to_non_mutating() {
    assert!(!is_mutating_tool("unknown_tool"));
    assert!(!is_mutating_tool("fetch_url"));
    assert!(!is_mutating_tool("analyze_code"));
}

#[test]
fn normalize_tool_call_sets_mutating_flag() {
    let call = ToolCall {
        call_id: "call_1".to_string(),
        name: "edit_file".to_string(),
        arguments: r#"{"path":"foo.rs"}"#.to_string(),
        mutating: false,
    };
    let normalized = normalize_tool_call(call);
    assert!(normalized.mutating);
}

#[test]
fn normalize_tool_call_clears_mutating_for_read_only() {
    let call = ToolCall {
        call_id: "call_1".to_string(),
        name: "read_file".to_string(),
        arguments: r#"{"path":"foo.rs"}"#.to_string(),
        mutating: true,
    };
    let normalized = normalize_tool_call(call);
    assert!(!normalized.mutating);
}

#[test]
fn create_tool_run_record_generates_valid_id() {
    let call = ToolCall {
        call_id: "call_123".to_string(),
        name: "bash".to_string(),
        arguments: r#"{"cmd":"ls"}"#.to_string(),
        mutating: true,
    };
    let record = create_tool_run_record(&call);
    assert!(record.run_id.starts_with("toolrun_"));
    assert_eq!(record.call_id, "call_123");
    assert_eq!(record.tool_name, "bash");
    assert!(record.mutating);
    assert_eq!(record.status, ToolRunStatus::Queued);
    assert_eq!(record.attempt, 1);
}

#[test]
fn prepare_tool_batch_normalizes_and_creates_records() {
    let calls = vec![
        ToolCall {
            call_id: "call_1".to_string(),
            name: "read_file".to_string(),
            arguments: "{}".to_string(),
            mutating: true,
        },
        ToolCall {
            call_id: "call_2".to_string(),
            name: "edit_file".to_string(),
            arguments: "{}".to_string(),
            mutating: false,
        },
    ];
    let (normalized, records) = prepare_tool_batch(calls);
    assert_eq!(normalized.len(), 2);
    assert!(!normalized[0].mutating);
    assert!(normalized[1].mutating);
    assert_eq!(records.len(), 2);
    assert!(!records[0].mutating);
    assert!(records[1].mutating);
}

fn queued_record(run_id: &str, call_id: &str, tool: &str, mutating: bool) -> ToolRunRecord {
    ToolRunRecord {
        run_id: run_id.to_string(),
        call_id: call_id.to_string(),
        tool_name: tool.to_string(),
        mutating,
        status: ToolRunStatus::Queued,
        started_at_ms: 0,
        finished_at_ms: None,
        attempt: 1,
        error: None,
    }
}

#[test]
fn batch_has_mutating_tools_detects_mutating() {
    let records = vec![
        queued_record("toolrun_1", "call_1", "read_file", false),
        queued_record("toolrun_2", "call_2", "edit_file", true),
    ];
    assert!(batch_has_mutating_tools(&records));
}

#[test]
fn batch_has_mutating_tools_returns_false_for_read_only() {
    let records = vec![queued_record("toolrun_1", "call_1", "read_file", false)];
    assert!(!batch_has_mutating_tools(&records));
}

#[test]
fn spawn_session_initializes_state_machine() {
    let session = spawn_session(AgentHarness::ClaudeCode, "/tmp/test-project".to_string());
    assert!(session.id.starts_with("sess_"));
    assert!(session.id.len() > 5);
    assert_eq!(session.agent_state, AgentStateKind::Starting);
    assert_eq!(session.name, "test-project");
}

#[test]
fn session_name_is_last_path_part() {
    assert_eq!(session_name_for_path("/a/b/c"), "c");
    assert_eq!(session_name_for_path("plain"), "plain");
    assert_eq!(session_name_for_path("/a/b/"), "");
}

#[test]
fn parse_porcelain_status_splits_staged_and_unstaged() {
    let input = b"M  staged.txt\n M unstaged.txt\nAM both.txt\n?? new.txt\n";
    let (staged, unstaged) = parse_porcelain_status(input);
    assert_eq!(staged.len(), 2);
    assert!(staged.iter().any(|file| file.path == "staged.txt"));
    assert!(staged.iter().any(|file| file.path == "both.txt"));
    assert_eq!(unstaged.len(), 3);
    assert!(unstaged.iter().any(|file| file.path == "unstaged.txt"));
    assert!(unstaged.iter().any(|file| file.path == "both.txt"));
    assert!(unstaged.iter().any(|file| file.path == "new.txt"));
}

#[test]
fn porcelain_status_names_untracked_and_modified() {
    let (staged, unstaged) = try_parse_porcelain_status(b"M  a.rs\n?? b.rs\n").unwrap();
    assert_eq!(staged[0].status, "modified");
    assert_eq!(unstaged[0].status, "untracked");
}

#[test]
fn parse_numstat_handles_missing_numbers() {
    let input = b"10\t2\tfoo.rs\n-\t-\tbin.dat\n";
    let stats = parse_numstat(input);
    assert_eq!(stats.get("foo.rs"), Some(&(10, 2)));
    assert_eq!(stats.get("bin.dat"), Some(&(0, 0)));
}

#[test]
fn parse_log_output_reads_entries() {
    let input = b"abc123\0Fix bug\0Jane\01699999999\nxyz789\0Add feature\0Joe\01680000000\n";
    let entries = parse_log_output(input);
    assert_eq!(entries.len(), 2);
    assert_eq!(entries[0].sha, "abc123");
    assert_eq!(entries[0].summary, "Fix bug");
    assert_eq!(entries[0].author, "Jane");
    assert_eq!(entries[0].timestamp, 1699999999);
}

#[test]
fn session_registry_crud_operations() {
    let mut registry = SessionRegistry::new();
    let session_id = "sess_test_123".to_string();

    let entry = SessionEntry {
        session: AgentSession {
            id: session_id.clone(),
            name: "test".to_string(),
            harness: AgentHarness::ClaudeCode,
            project_path: "/tmp/test".to_string(),
            status: SessionStatus::Idle,
            agent_state: AgentStateKind::Idle,
        },
        state: AgentState::default(),
    };

    registry.insert(session_id.clone(), entry);
    assert!(registry.get(&session_id).is_some());
    assert_eq!(registry.list().len(), 1);

    let removed = registry.remove(&session_id);
    assert!(removed.is_some());
    assert!(registry.get(&session_id).is_none());
}

#[test]
fn session_registry_insert_replaces_and_keeps_others() {
    let mut registry = SessionRegistry::default();
    registry.insert("a".to_string(), registry_entry("a", "first"));
    registry.insert("b".to_string(), registry_entry("b", "second"));
    registry.insert("a".to_string(), registry_entry("a", "replaced"));
    assert_eq!(registry.list().len(), 2);
    assert_eq!(registry.get("a").unwrap().session.name, "replaced");
    assert_eq!(registry.get("b").unwrap().session.name, "second");
    assert!(registry.remove("missing").is_none());
    assert_eq!(registry.remove("b").unwrap().session.name, "second");
    assert_eq!(registry.get("a").unwrap().session.name, "replaced");
    assert!(registry.get("b").is_none());
}

fn registry_entry(id: &str, name: &str) -> SessionEntry {
    SessionEntry {
        session: AgentSession {
            id: id.to_string(),
            name: name.to_string(),
            harness: AgentHarness::OpenCode,
            project_path: format!("/tmp/{}", name),
            status: SessionStatus::Idle,
            agent_state: AgentStateKind::Idle,
        },
        state: AgentState::default(),
    }
}

#[test]
fn session_registry_get_mut_changes_in_place() {
    let mut registry = SessionRegistry::new();
    registry.insert("a".to_string(), registry_entry("a", "first"));
    assert!(registry.get_mut("missing").is_none());
    if let Some(e) = registry.get_mut("a") {
        e.session.status = SessionStatus::Running;
        e.state.retries = 2;
    }
    let e = registry.get("a").unwrap();
    assert_eq!(e.session.status, SessionStatus::Running);
    assert_eq!(e.state.retries, 2);
    assert_eq!(registry.list().len(), 1);
}

#[test]
fn millis_from_reading_converts_clock_readings() {
    assert_eq!(millis_from_reading(None), 0);
    assert_eq!(millis_from_reading(Some(5)), 5);
    assert_eq!(millis_from_reading(Some(1_700_000_000_123)), 1_700_000_000_123);
    assert_eq!(millis_from_reading(Some((1u128 << 64) + 7)), 7);
}

#[test]
fn current_time_ms_reads_after_the_epoch() {
    let t = current_time_ms();
    assert!(t > 1_600_000_000_000);
}

fn file_status(path: &str, additions: i32, deletions: i32) -> GitFileStatus {
    GitFileStatus { path: path.to_string(), status: "modified".to_string(), additions, deletions }
}

#[test]
fn checked_sums_refuses_overflowing_counts() {
    let ok = vec![file_status("a", 3, 1), file_status("b", 4, 2)];
    assert_eq!(checked_sums(&ok), Some((7, 3)));
    let big = vec![file_status("a", i32::MAX, 0), file_status("b", 1, 0)];
    assert_eq!(checked_sums(&big), None);
    let low = vec![file_status("a", 0, i32::MIN), file_status("b", 0, -1)];
    assert_eq!(checked_sums(&low), None);
}

#[test]
fn git_status_sums_fit_tests_the_totals() {
    let staged = vec![file_status("a.rs", 0, 0)];
    let unstaged = vec![file_status("b.rs", 0, 0)];
    let small = parse_numstat(b"10\t2\ta.rs\n5\t1\tb.rs\n");
    assert!(git_status_sums_fit(&staged, &unstaged, &small, &small));
    let huge = parse_numstat(b"2147483000\t0\ta.rs\n2147483000\t0\tb.rs\n");
    assert!(!git_status_sums_fit(&staged, &unstaged, &huge, &huge));
    assert!(git_status_sums_fit(&staged, &vec![], &huge, &huge));
}

#[test]
fn spawned_session_id_holds_a_v4_uuid() {
    let session = spawn_session(AgentHarness::ClaudeCode, "/tmp/p".to_string());
    let uuid = &session.id["sess_".len()..];
    assert_eq!(uuid.len(), 36);
    assert_eq!(&uuid[8..9], "-");
    assert_eq!(&uuid[14..15], "4");
    assert!(matches!(&uuid[19..20], "8" | "9" | "a" | "b"));
}
