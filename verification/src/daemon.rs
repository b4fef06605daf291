//! The desktop app's link to its daemon: the JSON-RPC messages exchanged
//! over one TCP connection (one JSON value per line), how replies and
//! events are told apart and routed, request ids, the reconnect schedule,
//! and the terminal helpers.
use vstd::prelude::*;
use crate::text::{concat2, push_decimal, push_str, string_of_str};

verus! {

/// Daemon method names.
pub const METHOD_AUTH: &'static str = "auth";
pub const METHOD_LIST_SESSIONS: &'static str = "list_sessions";
pub const METHOD_SESSION_INFO: &'static str = "session_info";
pub const METHOD_TERMINAL_OPEN: &'static str = "terminal_open";
pub const METHOD_TERMINAL_WRITE: &'static str = "terminal_write";
pub const METHOD_TERMINAL_RESIZE: &'static str = "terminal_resize";
pub const METHOD_TERMINAL_CLOSE: &'static str = "terminal_close";
pub const METHOD_GIT_STATUS: &'static str = "git_status";
pub const METHOD_GIT_DIFF: &'static str = "git_diff";
pub const METHOD_GIT_LOG: &'static str = "git_log";
pub const METHOD_OPENCODE_CONNECT_WORKSPACE: &'static str = "opencode_connect_workspace";
pub const METHOD_OPENCODE_DISCONNECT_WORKSPACE: &'static str = "opencode_disconnect_workspace";
pub const METHOD_OPENCODE_STATUS: &'static str = "opencode_status";
pub const METHOD_OPENCODE_SESSION_LIST: &'static str = "opencode_session_list";
pub const METHOD_OPENCODE_SESSION_CREATE: &'static str = "opencode_session_create";
pub const METHOD_OPENCODE_SESSION_PROMPT: &'static str = "opencode_session_prompt";
pub const METHOD_OPENCODE_SESSION_ABORT: &'static str = "opencode_session_abort";

/// Daemon event names.
pub const EVENT_TERMINAL_OUTPUT: &'static str = "terminal_output";
pub const EVENT_TERMINAL_EXITED: &'static str = "terminal_exited";
pub const EVENT_OPENCODE: &'static str = "opencode:event";

/// How to reach the daemon.
#[derive(Debug, Clone)]
pub struct DaemonConfig {
    pub host: String,
    pub port: u16,
    pub token: String,
}

impl DaemonConfig {
    /// The `host:port` address to connect to.
    pub fn address(&self) -> (r: String)
        ensures
            r@ == self.host@ + ":"@ + crate::text::decimal_of_nat(self.port as nat),
    {
        let mut out = concat2(self.host.as_str(), ":");
        push_decimal(&mut out, self.port as u64);
        out
    }
}

/// An error reply of the daemon.
#[derive(Debug, Clone, PartialEq, Eq)]
pub struct RpcError {
    pub code: String,
    pub message: String,
}

/// Parameters of `auth`.
#[derive(Debug, Clone)]
pub struct AuthParams {
    pub token: String,
}

/// Parameters naming a session.
#[derive(Debug, Clone)]
pub struct SessionIdParams {
    pub session_id: String,
}

/// Parameters of `terminal_open`.
#[derive(Debug, Clone)]
pub struct TerminalOpenParams {
    pub session_id: String,
    pub terminal_id: String,
    pub cols: u16,
    pub rows: u16,
}

/// Parameters of `terminal_write`.
#[derive(Debug, Clone)]
pub struct TerminalWriteParams {
    pub session_id: String,
    pub terminal_id: String,
    pub data: String,
}

/// Parameters of `terminal_resize`.
#[derive(Debug, Clone)]
pub struct TerminalResizeParams {
    pub session_id: String,
    pub terminal_id: String,
    pub cols: u16,
    pub rows: u16,
}

/// Parameters of `terminal_close`.
#[derive(Debug, Clone)]
pub struct TerminalCloseParams {
    pub session_id: String,
    pub terminal_id: String,
}

/// Parameters of `git_log`.
#[derive(Debug, Clone)]
pub struct GitLogParams {
    pub session_id: String,
    pub limit: Option<u32>,
}

/// Parameters of `opencode_connect_workspace`.
#[derive(Debug, Clone)]
pub struct OpenCodeConnectParams {
    pub workspace_id: String,
    pub workspace_path: String,
}

/// Parameters naming a workspace.
#[derive(Debug, Clone)]
pub struct OpenCodeWorkspaceParams {
    pub workspace_id: String,
}

/// Parameters of `opencode_session_create`.
#[derive(Debug, Clone)]
pub struct OpenCodeSessionCreateParams {
    pub workspace_id: String,
    pub title: Option<String>,
}

/// Parameters of `opencode_session_prompt`.
#[derive(Debug, Clone)]
pub struct OpenCodeSessionPromptParams {
    pub workspace_id: String,
    pub session_id: String,
    pub message: String,
}

/// Parameters of `opencode_session_abort`.
#[derive(Debug, Clone)]
pub struct OpenCodeSessionAbortParams {
    pub workspace_id: String,
    pub session_id: String,
}

/// A session the daemon knows.
#[derive(Debug, Clone)]
pub struct SessionInfo {
    pub path: String,
    pub name: String,
}

/// The reply to `session_info`.
#[derive(Debug, Clone)]
pub struct SessionInfoResult {
    pub path: String,
    pub name: String,
    pub has_git: bool,
}

/// The reply to `terminal_open`.
#[derive(Debug, Clone)]
pub struct TerminalOpenResult {
    pub terminal_id: String,
}

/// A file of the daemon's git status reply.
#[derive(Debug, Clone)]
pub struct GitFileStatus {
    pub path: String,
    pub status: String,
    pub additions: i32,
    pub deletions: i32,
}

/// The reply to `git_status`.
#[derive(Debug, Clone)]
pub struct GitStatusResult {
    pub branch_name: String,
    pub staged_files: Vec<GitFileStatus>,
    pub unstaged_files: Vec<GitFileStatus>,
    pub total_additions: i32,
    pub total_deletions: i32,
}

/// The diff of one file.
#[derive(Debug, Clone)]
pub struct GitFileDiff {
    pub path: String,
    pub diff: String,
}

/// The reply to `git_diff`.
#[derive(Debug, Clone)]
pub struct GitDiffResult {
    pub files: Vec<GitFileDiff>,
    pub truncated: bool,
    pub truncated_files: Vec<String>,
}

/// A commit of the daemon's log reply.
#[derive(Debug, Clone)]
pub struct GitLogEntry {
    pub sha: String,
    pub summary: String,
    pub author: String,
    pub timestamp: i64,
}

/// The reply to `git_log`.
#[derive(Debug, Clone)]
pub struct GitLogResult {
    pub entries: Vec<GitLogEntry>,
    pub ahead: i32,
    pub behind: i32,
    pub upstream: Option<String>,
}

/// The reply to `opencode_connect_workspace`.
#[derive(Debug, Clone)]
pub struct OpenCodeConnectResult {
    pub workspace_id: String,
    pub base_url: String,
}

/// The reply to `opencode_status`.
#[derive(Debug, Clone)]
pub struct OpenCodeStatusResult {
    pub connected: bool,
    pub base_url: Option<String>,
}

/// Parameters of the terminal output event.
#[derive(Debug, Clone)]
pub struct TerminalOutputParams {
    pub session_id: String,
    pub terminal_id: String,
    pub data: String,
}

/// Parameters of the terminal exit event.
#[derive(Debug, Clone)]
pub struct TerminalExitedParams {
    pub session_id: String,
    pub terminal_id: String,
    pub exit_code: Option<i32>,
}

/// The reply to connecting.
#[derive(Debug, Clone, Copy)]
pub struct ConnectResult {
    pub connected: bool,
}

/// The link's status as the UI shows it.
#[derive(Debug, Clone)]
pub struct StatusResult {
    pub connected: bool,
    pub host: Option<String>,
    pub port: Option<u16>,
}

/// The status shown for the link and its configuration.
pub fn daemon_status_of(connected: bool, config: &Option<DaemonConfig>) -> (r: StatusResult)
    ensures
        r.connected == connected,
        match *config {
            Some(c) => r.host == Some(c.host) && r.port == Some(c.port),
            None => r.host is None && r.port is None,
        },
{
    match config {
        Some(c) => StatusResult { connected, host: Some(c.host.clone()), port: Some(c.port) },
        None => StatusResult { connected, host: None, port: None },
    }
}

/// What a line read from the daemon is: a reply (it has an `id`), an
/// event (a `method` and no `id`), or neither.
#[derive(Debug, Clone, Copy, PartialEq, Eq, Structural)]
pub enum IncomingKind {
    Reply,
    Event,
    Ignored,
}

/// The kind of a parsed line.
pub fn incoming_kind(has_id: bool, has_method: bool) -> (r: IncomingKind)
    ensures
        r == if has_id {
            IncomingKind::Reply
        } else if has_method {
            IncomingKind::Event
        } else {
            IncomingKind::Ignored
        },
{
    if has_id {
        IncomingKind::Reply
    } else if has_method {
        IncomingKind::Event
    } else {
        IncomingKind::Ignored
    }
}

/// The body of a reply as read: a `result`, else an `error` with its code
/// and message when they are strings, else nothing.
#[derive(Debug, Clone)]
pub enum ReplyBody {
    Result,
    Error { code: Option<String>, message: Option<String> },
    Missing,
}

/// How a reply completes its request: `Ok` with a result, else the error
/// text `<code>: <message>` (`unknown` and empty when missing), else
/// `Invalid response`.
pub fn reply_outcome(body: &ReplyBody) -> (r: Result<(), String>)
    ensures
        match *body {
            ReplyBody::Result => r is Ok,
            ReplyBody::Error { code, message } => r matches Err(e) && e@ == (match code {
                Some(c) => c@,
                None => "unknown"@,
            }) + ": "@ + (match message {
                Some(m) => m@,
                None => Seq::<char>::empty(),
            }),
            ReplyBody::Missing => r matches Err(e) && e@ == "Invalid response"@,
        },
{
    match body {
        ReplyBody::Result => Ok(()),
        ReplyBody::Error { code, message } => {
            let mut out = match code {
                Some(c) => c.clone(),
                None => string_of_str("unknown"),
            };
            push_str(&mut out, ": ");
            match message {
                Some(m) => push_str(&mut out, m.as_str()),
                None => {},
            }
            Err(out)
        },
        ReplyBody::Missing => Err(string_of_str("Invalid response")),
    }
}

/// The app event that forwards a daemon event, if it is forwarded.
pub fn forwarded_event_name(method: &str) -> (r: Option<&'static str>)
    ensures
        method@ == "terminal_output"@ ==> (r matches Some(n) && n@ == "daemon:terminal_output"@),
        method@ != "terminal_output"@ && method@ == "terminal_exited"@ ==> (r matches Some(n) && n@
            == "daemon:terminal_exited"@),
        method@ != "terminal_output"@ && method@ != "terminal_exited"@ ==> r is None,
{
    if crate::text::str_eq(method, EVENT_TERMINAL_OUTPUT) {
        Some("daemon:terminal_output")
    } else if crate::text::str_eq(method, EVENT_TERMINAL_EXITED) {
        Some("daemon:terminal_exited")
    } else {
        None
    }
}

/// Whether the reply to `auth` accepts the token: its `ok` is `true`.
pub fn auth_outcome(ok: Option<bool>) -> (r: Result<(), &'static str>)
    ensures
        ok == Some(true) ==> r is Ok,
        ok != Some(true) ==> (r matches Err(e) && e@ == "daemon_auth_failed"@),
{
    match ok {
        Some(true) => Ok(()),
        _ => Err("daemon_auth_failed"),
    }
}

/// The ids of a connection's requests: 1, 2, 3, ...
pub struct RequestIds {
    next: u64,
}

impl RequestIds {
    /// The id the next request takes.
    pub closed spec fn upcoming(&self) -> u64 {
        self.next
    }

    /// Ids of a new connection, from 1.
    pub fn new() -> (r: RequestIds)
        ensures
            r.upcoming() == 1,
    {
        RequestIds { next: 1 }
    }

    /// Takes the next id (wrapping at the end of `u64`).
    pub fn next_id(&mut self) -> (r: u64)
        ensures
            r == old(self).upcoming(),
            final(self).upcoming() == crate::stream::seq_after(r),
    {
        let id = self.next;
        self.next = self.next.wrapping_add(1);
        id
    }
}

/// The waits before reconnect attempts, in seconds: 1, 2, 5, 10, then 30.
pub open spec fn reconnect_delay(attempt: nat) -> u64 {
    if attempt == 0 {
        1
    } else if attempt == 1 {
        2
    } else if attempt == 2 {
        5
    } else if attempt == 3 {
        10
    } else {
        30
    }
}

/// How long to wait before a reconnect attempt, in seconds.
pub fn reconnect_delay_secs(attempt: usize) -> (r: u64)
    ensures
        r == reconnect_delay(attempt as nat),
{
    if attempt == 0 {
        1
    } else if attempt == 1 {
        2
    } else if attempt == 2 {
        5
    } else if attempt == 3 {
        10
    } else {
        30
    }
}

/// The attempt counter after a reconnect attempt: back to 0 on success,
/// else one more, at most 4 (the last delay).
pub fn next_reconnect_attempt(attempt: usize, succeeded: bool) -> (r: usize)
    ensures
        succeeded ==> r == 0,
        !succeeded ==> r == if attempt + 1 < 4 {
            attempt + 1
        } else {
            4
        },
{
    if succeeded {
        0
    } else if attempt < 3 {
        attempt + 1
    } else {
        4
    }
}

/// Reconnect waits never shrink as attempts fail, and never exceed 30
/// seconds.
pub proof fn law_reconnect_backoff(a: nat, b: nat)
    requires
        a <= b,
    ensures
        reconnect_delay(a) <= reconnect_delay(b),
        reconnect_delay(b) <= 30,
        reconnect_delay(a) >= 1,
{
}

/// What the reconnect loop does on each wake-up.
#[derive(Debug, Clone, Copy, PartialEq, Eq, Structural)]
pub enum ReconnectStep {
    /// The connection is up: forget past failures and sleep again.
    StayConnected,
    /// No daemon is configured: sleep again.
    Idle,
    /// Wait this many seconds, then try to connect.
    Retry { delay_secs: u64 },
}

/// What the reconnect loop does on a wake-up, given whether the connection
/// is up, whether a daemon is configured, and how many attempts failed in a
/// row.
pub fn reconnect_step(connected: bool, configured: bool, attempt: usize) -> (r: ReconnectStep)
    ensures
        r == if connected {
            ReconnectStep::StayConnected
        } else if !configured {
            ReconnectStep::Idle
        } else {
            ReconnectStep::Retry { delay_secs: reconnect_delay(attempt as nat) }
        },
{
    if connected {
        ReconnectStep::StayConnected
    } else if !configured {
        ReconnectStep::Idle
    } else {
        ReconnectStep::Retry { delay_secs: reconnect_delay_secs(attempt) }
    }
}

/// The key of a terminal: `<session>:<terminal>`.
pub fn terminal_key(session_id: &str, terminal_id: &str) -> (r: String)
    ensures
        r@ == session_id@ + ":"@ + terminal_id@,
{
    let mut out = concat2(session_id, ":");
    push_str(&mut out, terminal_id);
    out
}

/// A terminal must be named.
pub fn check_terminal_id(terminal_id: &str) -> (r: Result<(), &'static str>)
    ensures
        terminal_id@.len() > 0 ==> r is Ok,
        terminal_id@.len() == 0 ==> (r matches Err(e) && e@ == "Terminal id is required"@),
{
    if terminal_id.is_empty() {
        Err("Terminal id is required")
    } else {
        Ok(())
    }
}

/// The size a terminal opens or resizes to: at least two columns and two
/// rows.
pub fn pty_size(cols: u16, rows: u16) -> (r: (u16, u16))
    ensures
        r.0 == if cols < 2 {
            2
        } else {
            cols
        },
        r.1 == if rows < 2 {
            2
        } else {
            rows
        },
{
    let c = if cols < 2 {
        2
    } else {
        cols
    };
    let r = if rows < 2 {
        2
    } else {
        rows
    };
    (c, r)
}

/// The shell a terminal runs: the configured one, `/bin/bash` when none is.
pub fn shell_path(configured: Option<String>) -> (r: String)
    ensures
        match configured {
            Some(s) => r == s,
            None => r@ == "/bin/bash"@,
        },
{
    match configured {
        Some(s) => s,
        None => string_of_str("/bin/bash"),
    }
}

} // verus!
