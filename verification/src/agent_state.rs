//! Agent state machine types: states, tool and hook run records, events,
//! actions, hook configuration and the payloads of state events.
//!
//! JSON values that the agent only carries (tool arguments) are held here as
//! their serialized JSON text.
use vstd::prelude::*;

verus! {

/// High-level session state. Mirrors UI state and orchestration.
#[derive(Debug, Clone, Copy, PartialEq, Eq, Structural)]
pub enum AgentStateKind {
    Idle,
    Starting,
    Ready,
    CallingLlm,
    ProcessingResponse,
    ExecutingTools,
    PostToolsHook,
    Error,
    Stopping,
    Stopped,
}

impl Default for AgentStateKind {
    fn default() -> (r: Self)
        ensures
            r == AgentStateKind::Idle,
    {
        AgentStateKind::Idle
    }
}

/// Tool execution lifecycle status.
#[derive(Debug, Clone, Copy, PartialEq, Eq, Structural)]
pub enum ToolRunStatus {
    Queued,
    Running,
    Succeeded,
    Failed,
    Canceled,
}

/// Hook execution lifecycle status (the same states as tools).
#[derive(Debug, Clone, Copy, PartialEq, Eq, Structural)]
pub enum HookRunStatus {
    Queued,
    Running,
    Succeeded,
    Failed,
    Canceled,
}

/// Source of an error.
#[derive(Debug, Clone, Copy, PartialEq, Eq, Structural)]
pub enum ErrorSource {
    Harness,
    Tool,
    Hook,
    Orchestrator,
}

/// An error that occurred during agent execution.
#[derive(Debug, Clone, PartialEq, Eq)]
pub struct AgentError {
    pub code: String,
    pub message: String,
    pub retryable: bool,
    pub source: ErrorSource,
}

/// Normalized tool invocation. `arguments` is the JSON text of the call's
/// arguments.
#[derive(Debug, Clone, PartialEq, Eq)]
pub struct ToolCall {
    pub call_id: String,
    pub name: String,
    pub arguments: String,
    /// True for file edits, git operations and shell commands.
    pub mutating: bool,
}

impl ToolCall {
    /// A copy of this call.
    pub fn duplicate(&self) -> (r: ToolCall)
        ensures
            r == *self,
    {
        ToolCall {
            call_id: self.call_id.clone(),
            name: self.name.clone(),
            arguments: self.arguments.clone(),
            mutating: self.mutating,
        }
    }
}

/// Tool execution metadata.
#[derive(Debug, Clone, PartialEq, Eq)]
pub struct ToolRunRecord {
    pub run_id: String,
    pub call_id: String,
    pub tool_name: String,
    pub mutating: bool,
    pub status: ToolRunStatus,
    pub started_at_ms: u64,
    pub finished_at_ms: Option<u64>,
    pub attempt: u32,
    pub error: Option<String>,
}

/// Hook execution metadata.
#[derive(Debug, Clone, PartialEq, Eq)]
pub struct HookRunRecord {
    pub run_id: String,
    pub hook_name: String,
    pub tool_run_ids: Vec<String>,
    pub status: HookRunStatus,
    pub started_at_ms: u64,
    pub finished_at_ms: Option<u64>,
    pub attempt: u32,
    pub error: Option<String>,
}

/// Full in-memory agent state.
#[derive(Debug, Clone)]
pub struct AgentState {
    pub kind: AgentStateKind,
    pub active_stream_id: Option<String>,
    pub retries: u32,
    pub pending_tool_calls: Vec<ToolCall>,
    pub tool_runs: Vec<ToolRunRecord>,
    pub hook_runs: Vec<HookRunRecord>,
    pub last_error: Option<AgentError>,
}

impl Default for AgentState {
    fn default() -> (r: Self)
        ensures
            r.kind == AgentStateKind::Idle,
            r.active_stream_id is None,
            r.retries == 0,
            r.pending_tool_calls@.len() == 0,
            r.tool_runs@.len() == 0,
            r.hook_runs@.len() == 0,
            r.last_error is None,
    {
        AgentState {
            kind: AgentStateKind::Idle,
            active_stream_id: None,
            retries: 0,
            pending_tool_calls: Vec::new(),
            tool_runs: Vec::new(),
            hook_runs: Vec::new(),
            last_error: None,
        }
    }
}

/// Snapshot of an agent state for persistence.
#[derive(Debug, Clone)]
pub struct AgentStateSnapshot {
    pub kind: AgentStateKind,
    pub active_stream_id: Option<String>,
    pub pending_tool_calls: Vec<ToolCall>,
    pub tool_runs: Vec<ToolRunRecord>,
    pub hook_runs: Vec<HookRunRecord>,
    pub last_error: Option<AgentError>,
}

/// Retry target for timeout events.
#[derive(Debug, Clone, PartialEq, Eq)]
pub enum RetryTarget {
    Llm,
    Tool { run_id: String },
    Hook { run_id: String },
}

/// Stream event from a harness, as the state machine sees it.
#[derive(Debug, Clone)]
pub enum StreamEvent {
    TextDelta { content: String },
    ToolCallDelta { call_id: String, content: String },
    Completed,
    Error { message: String },
}

/// Inputs to the state machine.
#[derive(Debug, Clone)]
pub enum AgentEvent {
    UserInput { session_id: String, text: String },
    HarnessStream { session_id: String, stream_event: StreamEvent },
    ToolRequested { session_id: String, call: ToolCall },
    ToolStarted { session_id: String, run_id: String },
    ToolCompleted { session_id: String, run_id: String, status: ToolRunStatus },
    HookStarted { session_id: String, run_id: String, tool_run_id: String },
    HookCompleted { session_id: String, run_id: String, status: HookRunStatus },
    RetryTimeout { session_id: String, target: RetryTarget },
    StopRequested { session_id: String },
    HarnessExited { session_id: String, code: Option<i32> },
}

/// Outputs from the state machine; they drive I/O.
#[derive(Debug, Clone, PartialEq, Eq)]
pub enum AgentAction {
    SendToHarness { session_id: String, input: String },
    ExecuteTools { session_id: String, tools: Vec<ToolCall> },
    RunPostToolHooks { session_id: String, tool_runs: Vec<String> },
    EmitStateChange { session_id: String, from: AgentStateKind, to: AgentStateKind },
    StopHarness { session_id: String },
    Wait,
}

/// What to do when a hook fails.
#[derive(Debug, Clone, PartialEq, Eq, Structural)]
pub enum HookFailurePolicy {
    FailSession,
    WarnContinue,
    Retry { max_attempts: u32, delay_ms: u64 },
}

impl Default for HookFailurePolicy {
    fn default() -> (r: Self)
        ensures
            r == HookFailurePolicy::FailSession,
    {
        HookFailurePolicy::FailSession
    }
}

/// Which tool batches a hook runs after.
#[derive(Debug, Clone, PartialEq, Eq)]
pub enum HookToolFilter {
    AnyMutating,
    ToolNames(Vec<String>),
}

impl Default for HookToolFilter {
    fn default() -> (r: Self)
        ensures
            r is AnyMutating,
    {
        HookToolFilter::AnyMutating
    }
}

/// Hook definition from hooks.json.
#[derive(Debug, Clone, PartialEq, Eq)]
pub struct HookConfig {
    pub name: String,
    pub command: Vec<String>,
    pub timeout_ms: u64,
    pub failure_policy: HookFailurePolicy,
    pub tool_filter: HookToolFilter,
}

/// The timeout of a hook whose configuration gives none.
pub fn default_hook_timeout_ms() -> (r: u64)
    ensures
        r == 120_000,
{
    120_000
}

/// Root of hooks.json.
#[derive(Debug, Clone)]
pub struct HooksConfig {
    pub hooks: Vec<HookConfig>,
}

impl Default for HooksConfig {
    fn default() -> (r: Self)
        ensures
            r.hooks@.len() == 0,
    {
        HooksConfig { hooks: Vec::new() }
    }
}

/// Reason for a state change.
#[derive(Debug, Clone, Copy, PartialEq, Eq, Structural)]
pub enum StateChangeReason {
    UserInput,
    StreamCompleted,
    ToolsRequested,
    ToolsCompleted,
    HooksCompleted,
    StopRequested,
    HarnessExited,
}

/// State change event payload.
#[derive(Debug, Clone)]
pub struct StateChangedPayload {
    pub session_id: String,
    pub from: AgentStateKind,
    pub to: AgentStateKind,
    pub reason: StateChangeReason,
    pub timestamp_ms: u64,
    pub stream_id: Option<String>,
}

/// Tool lifecycle event payload.
#[derive(Debug, Clone)]
pub struct ToolLifecyclePayload {
    pub session_id: String,
    pub run_id: String,
    pub call_id: String,
    pub tool_name: String,
    pub mutating: bool,
    pub status: ToolRunStatus,
    pub attempt: u32,
    pub started_at_ms: u64,
    pub finished_at_ms: Option<u64>,
    pub error: Option<String>,
}

/// Hook lifecycle event payload.
#[derive(Debug, Clone)]
pub struct HookLifecyclePayload {
    pub session_id: String,
    pub run_id: String,
    pub hook_name: String,
    pub tool_run_ids: Vec<String>,
    pub status: HookRunStatus,
    pub attempt: u32,
    pub started_at_ms: u64,
    pub finished_at_ms: Option<u64>,
    pub error: Option<String>,
}

/// Session error event payload.
#[derive(Debug, Clone)]
pub struct SessionErrorPayload {
    pub session_id: String,
    pub code: String,
    pub message: String,
    pub retryable: bool,
    pub source: ErrorSource,
}

/// Union of all state event payloads (agent:state_event channel).
#[derive(Debug, Clone)]
pub enum AgentStateEvent {
    StateChanged(StateChangedPayload),
    ToolLifecycle(ToolLifecyclePayload),
    HookLifecycle(HookLifecyclePayload),
    SessionError(SessionErrorPayload),
}

/// Envelope for all state events.
#[derive(Debug, Clone)]
pub struct AgentStateEventEnvelope {
    pub event_id: String,
    pub timestamp_ms: u64,
    pub session_id: String,
    pub payload: AgentStateEvent,
}

} // verus!
