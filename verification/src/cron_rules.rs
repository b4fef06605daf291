//! Decisions of the cron-monitoring endpoints: pings from shell scripts,
//! check-ins reported by SDKs, and the management of monitors.
//!
//! A check-in records one run of a monitored job. Recording a finished run
//! updates the monitor: its health becomes failing after an error, a missed
//! run or a timeout and healthy otherwise, and its statistics count the run.
//! Every recorded run is broadcast to the organization's listeners. Times
//! are milliseconds since the Unix epoch.
use vstd::prelude::*;
use crate::replies::{internal_error, internal_error_reply, keyed, keyed_reply, Lookup, Reply, ReplyView};
use crate::text::{concat2, string_of_str};

verus! {

/// The status of a check-in.
#[derive(Debug, Clone, Copy, PartialEq, Eq, Structural)]
pub enum CheckInStatus {
    InProgress,
    Success,
    Error,
    Missed,
    Timeout,
}

/// Where a check-in came from.
#[derive(Debug, Clone, Copy, PartialEq, Eq, Structural)]
pub enum CheckInSource {
    Ping,
    Sdk,
}

/// The health of a monitor.
#[derive(Debug, Clone, Copy, PartialEq, Eq, Structural)]
pub enum MonitorHealth {
    Healthy,
    Failing,
    Unknown,
}

/// Whether a status counts as a failed run.
pub open spec fn is_failure(s: CheckInStatus) -> bool {
    s == CheckInStatus::Error || s == CheckInStatus::Missed || s == CheckInStatus::Timeout
}

/// Whether a status counts as a failed run.
pub fn status_is_failure(s: CheckInStatus) -> (r: bool)
    ensures
        r == is_failure(s),
{
    match s {
        CheckInStatus::Error | CheckInStatus::Missed | CheckInStatus::Timeout => true,
        _ => false,
    }
}

/// The status of a finished run reported by a ping: success when the exit
/// code is 0 or absent, an error otherwise.
pub open spec fn ping_status(exit_code: Option<i32>) -> CheckInStatus {
    if exit_code.unwrap_or(0) == 0 {
        CheckInStatus::Success
    } else {
        CheckInStatus::Error
    }
}

/// The status of a finished run reported by a ping.
pub fn status_of_ping(exit_code: Option<i32>) -> (r: CheckInStatus)
    ensures
        r == ping_status(exit_code),
{
    let code = match exit_code {
        Some(c) => c,
        None => 0,
    };
    if code == 0 {
        CheckInStatus::Success
    } else {
        CheckInStatus::Error
    }
}

/// What recording a run does to its monitor.
#[derive(Debug, Clone, Copy, PartialEq, Eq, Structural)]
pub struct MonitorUpdate {
    pub health: MonitorHealth,
    pub last_status: CheckInStatus,
    /// Whether the statistics count the run as a failure.
    pub failure: bool,
}

/// What recording a run with this status does to its monitor.
pub open spec fn monitor_update(s: CheckInStatus) -> MonitorUpdate {
    MonitorUpdate {
        health: if is_failure(s) {
            MonitorHealth::Failing
        } else {
            MonitorHealth::Healthy
        },
        last_status: s,
        failure: is_failure(s),
    }
}

/// What recording a run with this status does to its monitor.
pub fn monitor_update_for(s: CheckInStatus) -> (r: MonitorUpdate)
    ensures
        r == monitor_update(s),
{
    let failure = status_is_failure(s);
    MonitorUpdate {
        health: if failure {
            MonitorHealth::Failing
        } else {
            MonitorHealth::Healthy
        },
        last_status: s,
        failure,
    }
}

/// A run that succeeded or is in progress leaves its monitor healthy and
/// counts no failure; an error, a missed run or a timeout makes it failing
/// and counts one; either way the run's status becomes the last status.
pub proof fn law_monitor_update_health(s: CheckInStatus)
    ensures
        monitor_update(s).last_status == s,
        (s == CheckInStatus::Success || s == CheckInStatus::InProgress) ==> monitor_update(s).health
            == MonitorHealth::Healthy && !monitor_update(s).failure,
        (s == CheckInStatus::Error || s == CheckInStatus::Missed || s == CheckInStatus::Timeout) ==> monitor_update(
            s,
        ).health == MonitorHealth::Failing && monitor_update(s).failure,
{
}

/// The event broadcast for a check-in.
#[derive(Debug, Clone, Copy, PartialEq, Eq, Structural)]
pub enum CronEvent {
    Started,
    Succeeded { duration_ms: Option<u64> },
    Failed { exit_code: Option<i32>, consecutive_failures: u32 },
}

/// The event broadcast for a check-in: a failed run carries the failures in
/// a row the monitor had, plus this one.
pub open spec fn checkin_event(s: CheckInStatus, duration_ms: Option<u64>, exit_code: Option<i32>, failures: u32) -> CronEvent {
    match s {
        CheckInStatus::InProgress => CronEvent::Started,
        CheckInStatus::Success => CronEvent::Succeeded { duration_ms },
        _ => CronEvent::Failed { exit_code, consecutive_failures: (failures + 1) as u32 },
    }
}

/// A run in progress announces a start, a success its duration, and any
/// other status a failure with the exit code and one more failure in a row
/// than the monitor had.
pub proof fn law_checkin_event_kinds(s: CheckInStatus, duration_ms: Option<u64>, exit_code: Option<i32>, failures: u32)
    requires
        failures < u32::MAX,
    ensures
        s == CheckInStatus::InProgress ==> checkin_event(s, duration_ms, exit_code, failures) == CronEvent::Started,
        s == CheckInStatus::Success ==> checkin_event(s, duration_ms, exit_code, failures) == (CronEvent::Succeeded {
            duration_ms,
        }),
        (s != CheckInStatus::InProgress && s != CheckInStatus::Success) ==> checkin_event(s, duration_ms, exit_code, failures)
            == (CronEvent::Failed { exit_code, consecutive_failures: (failures + 1) as u32 }),
        (s != CheckInStatus::InProgress && s != CheckInStatus::Success) ==> (checkin_event(s, duration_ms, exit_code, failures)
            matches CronEvent::Failed { consecutive_failures, .. } && consecutive_failures == failures + 1),
{
}

/// The event broadcast for a check-in.
pub fn event_for_checkin(s: CheckInStatus, duration_ms: Option<u64>, exit_code: Option<i32>, failures: u32) -> (r: CronEvent)
    requires
        failures < u32::MAX,
    ensures
        r == checkin_event(s, duration_ms, exit_code, failures),
{
    match s {
        CheckInStatus::InProgress => CronEvent::Started,
        CheckInStatus::Success => CronEvent::Succeeded { duration_ms },
        _ => CronEvent::Failed { exit_code, consecutive_failures: failures + 1 },
    }
}

/// A check-in as the store keeps it (its output already truncated).
#[derive(Debug, Clone, PartialEq, Eq)]
pub struct CheckIn {
    pub status: CheckInStatus,
    pub started_at: Option<i64>,
    pub finished_at: i64,
    pub duration_ms: Option<u64>,
    pub exit_code: Option<i32>,
    pub output: Option<String>,
    pub crash_event_id: Option<String>,
    pub source: CheckInSource,
}

/// A check-in as plain values.
pub struct CheckInView {
    pub status: CheckInStatus,
    pub started_at: Option<i64>,
    pub finished_at: i64,
    pub duration_ms: Option<u64>,
    pub exit_code: Option<i32>,
    pub output: Option<Seq<char>>,
    pub crash_event_id: Option<Seq<char>>,
    pub source: CheckInSource,
}

/// The view of an optional string.
pub open spec fn opt_view(s: Option<String>) -> Option<Seq<char>> {
    match s {
        Some(t) => Some(t@),
        None => None,
    }
}

impl View for CheckIn {
    type V = CheckInView;

    open spec fn view(&self) -> CheckInView {
        CheckInView {
            status: self.status,
            started_at: self.started_at,
            finished_at: self.finished_at,
            duration_ms: self.duration_ms,
            exit_code: self.exit_code,
            output: opt_view(self.output),
            crash_event_id: opt_view(self.crash_event_id),
            source: self.source,
        }
    }
}

/// The kinds of ping.
#[derive(Debug, Clone, Copy, PartialEq, Eq, Structural)]
pub enum PingKind {
    /// `GET /ping/{key}`: a finished run, judged by its exit code.
    Finished,
    /// `GET /ping/{key}/start`: a run has started.
    Start,
    /// `GET /ping/{key}/fail`: a failed run.
    Fail,
}

/// The status a ping records.
pub open spec fn ping_kind_status(kind: PingKind, exit_code: Option<i32>) -> CheckInStatus {
    match kind {
        PingKind::Finished => ping_status(exit_code),
        PingKind::Start => CheckInStatus::InProgress,
        PingKind::Fail => CheckInStatus::Error,
    }
}

/// The check-in a ping records at time `now`: a start is in progress since
/// `now`; a finished or failed run ends at `now` with the given exit code
/// and the output sent with it, if any.
pub open spec fn ping_checkin(kind: PingKind, exit_code: Option<i32>, output: Option<Seq<char>>, now: i64) -> CheckInView {
    CheckInView {
        status: ping_kind_status(kind, exit_code),
        started_at: if kind == PingKind::Start {
            Some(now)
        } else {
            None
        },
        finished_at: now,
        duration_ms: None,
        exit_code: if kind == PingKind::Start {
            None
        } else {
            exit_code
        },
        output: if kind == PingKind::Start {
            None
        } else {
            output
        },
        crash_event_id: None,
        source: CheckInSource::Ping,
    }
}

/// The check-in a ping records at time `now`.
pub fn checkin_of_ping(kind: PingKind, exit_code: Option<i32>, output: Option<String>, now: i64) -> (r: CheckIn)
    ensures
        r@ == ping_checkin(kind, exit_code, opt_view(output), now),
{
    let status = match kind {
        PingKind::Finished => status_of_ping(exit_code),
        PingKind::Start => CheckInStatus::InProgress,
        PingKind::Fail => CheckInStatus::Error,
    };
    let is_start = kind == PingKind::Start;
    CheckIn {
        status,
        started_at: if is_start {
            Some(now)
        } else {
            None
        },
        finished_at: now,
        duration_ms: None,
        exit_code: if is_start {
            None
        } else {
            exit_code
        },
        output: if is_start {
            None
        } else {
            output
        },
        crash_event_id: None,
        source: CheckInSource::Ping,
    }
}

/// The output a ping with a body records: none for an empty body.
pub fn ping_output(body_is_empty: bool, truncated_body: String) -> (r: Option<String>)
    ensures
        r == (if body_is_empty { None } else { Some(truncated_body) }),
{
    if body_is_empty {
        None
    } else {
        Some(truncated_body)
    }
}

/// A check-in reported by an SDK (its output already truncated).
#[derive(Debug, Clone)]
pub struct CheckInReport {
    pub status: CheckInStatus,
    pub started_at: Option<i64>,
    pub finished_at: Option<i64>,
    pub duration_ms: Option<u64>,
    pub exit_code: Option<i32>,
    pub output: Option<String>,
    pub crash_event_id: Option<String>,
}

/// The check-in an SDK report records at time `now`: a run in progress
/// without a start time starts `now`, and a run without an end time ends
/// `now`.
pub open spec fn sdk_checkin(r: CheckInReport, now: i64) -> CheckInView {
    CheckInView {
        status: r.status,
        started_at: match r.started_at {
            Some(t) => Some(t),
            None => if r.status == CheckInStatus::InProgress {
                Some(now)
            } else {
                None
            },
        },
        finished_at: r.finished_at.unwrap_or(now),
        duration_ms: r.duration_ms,
        exit_code: r.exit_code,
        output: opt_view(r.output),
        crash_event_id: opt_view(r.crash_event_id),
        source: CheckInSource::Sdk,
    }
}

/// A check-in recorded from an SDK report keeps the report's status,
/// duration, exit code, output and crash event, and the start and end
/// times it gives; a missing end is `now`, and a missing start is `now`
/// only for a run still in progress.
pub proof fn law_report_checkin_keeps_report(r: CheckInReport, now: i64)
    ensures
        sdk_checkin(r, now).status == r.status,
        sdk_checkin(r, now).exit_code == r.exit_code,
        sdk_checkin(r, now).duration_ms == r.duration_ms,
        sdk_checkin(r, now).output == match r.output {
            Some(o) => Some(o@),
            None => None,
        },
        sdk_checkin(r, now).crash_event_id == match r.crash_event_id {
            Some(x) => Some(x@),
            None => None,
        },
        sdk_checkin(r, now).source == CheckInSource::Sdk,
        r.finished_at matches Some(t) ==> sdk_checkin(r, now).finished_at == t,
        r.finished_at is None ==> sdk_checkin(r, now).finished_at == now,
        r.started_at is Some ==> sdk_checkin(r, now).started_at == r.started_at,
        r.started_at is None ==> (sdk_checkin(r, now).started_at == if r.status == CheckInStatus::InProgress {
            Some(now)
        } else {
            None
        }),
{
}

/// A ping's check-in ends at `now` and comes from a ping; a finished or
/// failed run keeps the exit code and output sent with it, a failed run is
/// an error, and a start is a run in progress since `now` with neither.
pub proof fn law_ping_checkin_keeps_ping(kind: PingKind, exit_code: Option<i32>, output: Option<Seq<char>>, now: i64)
    ensures
        ping_checkin(kind, exit_code, output, now).finished_at == now,
        ping_checkin(kind, exit_code, output, now).source == CheckInSource::Ping,
        kind != PingKind::Start ==> ping_checkin(kind, exit_code, output, now).exit_code == exit_code,
        kind != PingKind::Start ==> ping_checkin(kind, exit_code, output, now).output == output,
        kind != PingKind::Start ==> ping_checkin(kind, exit_code, output, now).started_at is None,
        kind == PingKind::Fail ==> ping_checkin(kind, exit_code, output, now).status == CheckInStatus::Error,
        kind == PingKind::Finished && (exit_code is None || exit_code == Some(0i32)) ==> ping_checkin(
            kind,
            exit_code,
            output,
            now,
        ).status == CheckInStatus::Success,
        kind == PingKind::Finished && exit_code is Some && exit_code != Some(0i32) ==> ping_checkin(
            kind,
            exit_code,
            output,
            now,
        ).status == CheckInStatus::Error,
        kind == PingKind::Start ==> ping_checkin(kind, exit_code, output, now).status == CheckInStatus::InProgress,
        kind == PingKind::Start ==> ping_checkin(kind, exit_code, output, now).started_at == Some(now),
        kind == PingKind::Start ==> ping_checkin(kind, exit_code, output, now).exit_code is None,
{
}

/// An update replaces the status and every field it gives (exit code,
/// output, crash event, duration, end time) and keeps the others; the
/// start time and the source never change.
pub proof fn law_update_replaces_given_fields(c: CheckInView, u: CheckInUpdate, now: i64)
    ensures
        updated_checkin(c, u, now).status == u.status,
        updated_checkin(c, u, now).started_at == c.started_at,
        updated_checkin(c, u, now).source == c.source,
        u.exit_code is Some ==> updated_checkin(c, u, now).exit_code == u.exit_code,
        u.exit_code is None ==> updated_checkin(c, u, now).exit_code == c.exit_code,
        u.output matches Some(o) ==> updated_checkin(c, u, now).output == Some(o@),
        u.output is None ==> updated_checkin(c, u, now).output == c.output,
        u.crash_event_id matches Some(x) ==> updated_checkin(c, u, now).crash_event_id == Some(x@),
        u.crash_event_id is None ==> updated_checkin(c, u, now).crash_event_id == c.crash_event_id,
        u.duration_ms is Some ==> updated_checkin(c, u, now).duration_ms == u.duration_ms,
        u.finished_at matches Some(t) ==> updated_checkin(c, u, now).finished_at == t,
        u.finished_at is None ==> updated_checkin(c, u, now).finished_at == now,
{
}

/// The check-in an SDK report records at time `now`.
pub fn checkin_of_report(r: CheckInReport, now: i64) -> (c: CheckIn)
    ensures
        c@ == sdk_checkin(r, now),
{
    let started_at = match r.started_at {
        Some(t) => Some(t),
        None => if r.status == CheckInStatus::InProgress {
            Some(now)
        } else {
            None
        },
    };
    let finished_at = match r.finished_at {
        Some(t) => t,
        None => now,
    };
    CheckIn {
        status: r.status,
        started_at,
        finished_at,
        duration_ms: r.duration_ms,
        exit_code: r.exit_code,
        output: r.output,
        crash_event_id: r.crash_event_id,
        source: CheckInSource::Sdk,
    }
}

/// An update of a check-in reported by an SDK (its output already
/// truncated).
#[derive(Debug, Clone)]
pub struct CheckInUpdate {
    pub status: CheckInStatus,
    pub finished_at: Option<i64>,
    pub duration_ms: Option<u64>,
    pub exit_code: Option<i32>,
    pub output: Option<String>,
    pub crash_event_id: Option<String>,
}

/// A check-in after an update at time `now`: the status is replaced, the
/// run ends at the given time or `now`; the duration is the given one, or
/// else the time from the start to the end when the run has a start (the
/// milliseconds cast to `u64`, so that a negative span wraps), or else the
/// one it had; the exit code, output and crash event are replaced when
/// given.
pub open spec fn updated_checkin(c: CheckInView, u: CheckInUpdate, now: i64) -> CheckInView {
    let finished_at = u.finished_at.unwrap_or(now);
    CheckInView {
        status: u.status,
        started_at: c.started_at,
        finished_at,
        duration_ms: match u.duration_ms {
            Some(d) => Some(d),
            None => match c.started_at {
                Some(s) => Some((finished_at - s) as u64),
                None => c.duration_ms,
            },
        },
        exit_code: match u.exit_code {
            Some(e) => Some(e),
            None => c.exit_code,
        },
        output: match u.output {
            Some(o) => Some(o@),
            None => c.output,
        },
        crash_event_id: match u.crash_event_id {
            Some(x) => Some(x@),
            None => c.crash_event_id,
        },
        source: c.source,
    }
}

/// A check-in after an update at time `now`.
pub fn apply_checkin_update(c: CheckIn, u: CheckInUpdate, now: i64) -> (r: CheckIn)
    ensures
        r@ == updated_checkin(c@, u, now),
{
    let finished_at = match u.finished_at {
        Some(t) => t,
        None => now,
    };
    let duration_ms = match u.duration_ms {
        Some(d) => Some(d),
        None => match c.started_at {
            Some(s) => {
                let diff: i128 = finished_at as i128 - s as i128;
                Some(#[verifier::truncate] (diff as u64))
            },
            None => c.duration_ms,
        },
    };
    CheckIn {
        status: u.status,
        started_at: c.started_at,
        finished_at,
        duration_ms,
        exit_code: match u.exit_code {
            Some(e) => Some(e),
            None => c.exit_code,
        },
        output: match u.output {
            Some(o) => Some(o),
            None => c.output,
        },
        crash_event_id: match u.crash_event_id {
            Some(x) => Some(x),
            None => c.crash_event_id,
        },
        source: c.source,
    }
}

/// A copy of an optional string.
fn copy_opt(o: &Option<String>) -> (r: Option<String>)
    ensures
        r == *o,
{
    match o {
        Some(t) => Some(t.clone()),
        None => None,
    }
}

impl CheckIn {
    /// A copy of the check-in.
    pub fn duplicate(&self) -> (r: CheckIn)
        ensures
            r == *self,
    {
        CheckIn {
            status: self.status,
            started_at: self.started_at,
            finished_at: self.finished_at,
            duration_ms: self.duration_ms,
            exit_code: self.exit_code,
            output: copy_opt(&self.output),
            crash_event_id: copy_opt(&self.crash_event_id),
            source: self.source,
        }
    }
}

impl CheckInReport {
    /// A copy of the report.
    pub fn duplicate(&self) -> (r: CheckInReport)
        ensures
            r == *self,
    {
        CheckInReport {
            status: self.status,
            started_at: self.started_at,
            finished_at: self.finished_at,
            duration_ms: self.duration_ms,
            exit_code: self.exit_code,
            output: copy_opt(&self.output),
            crash_event_id: copy_opt(&self.crash_event_id),
        }
    }
}

impl CheckInUpdate {
    /// A copy of the update.
    pub fn duplicate(&self) -> (r: CheckInUpdate)
        ensures
            r == *self,
    {
        CheckInUpdate {
            status: self.status,
            finished_at: self.finished_at,
            duration_ms: self.duration_ms,
            exit_code: self.exit_code,
            output: copy_opt(&self.output),
            crash_event_id: copy_opt(&self.crash_event_id),
        }
    }
}

/// The timezone of a monitor created without one.
pub fn default_timezone() -> (r: String)
    ensures
        r@ == "UTC"@,
{
    string_of_str("UTC")
}

/// The margin, in minutes, a monitor created without one allows a late
/// check-in.
pub fn default_margin() -> (r: u32)
    ensures
        r == 5,
{
    5
}

/// How a monitor's runs are scheduled, as a request gives it.
#[derive(Debug, Clone, PartialEq, Eq)]
pub enum MonitorScheduleRequest {
    Cron { expression: String },
    Interval { minutes: u32 },
}

/// The number of check-ins a listing returns: the given limit, 50 by
/// default.
pub fn checkin_limit(limit: Option<u32>) -> (r: u32)
    ensures
        r == limit.unwrap_or(50),
{
    match limit {
        Some(l) => l,
        None => 50,
    }
}

/// The URL a script pings: the server's base URL, `/ping/` and the key.
pub fn ping_url(base_url: &str, ping_key: &str) -> (r: String)
    ensures
        r@ == base_url@ + "/ping/"@ + ping_key@,
{
    let a = concat2(base_url, "/ping/");
    concat2(a.as_str(), ping_key)
}

/// The next step of a cron handler.
#[derive(Debug, Clone)]
pub enum CronStep {
    CheckMembership,
    LoadMonitor,
    LoadCheckIn,
    ListMonitors,
    FindSlug,
    CreateMonitor,
    DeleteMonitor,
    ListCheckIns(u32),
    /// Store this new check-in.
    StoreCheckIn(CheckIn),
    /// Save this updated check-in.
    SaveCheckIn(CheckIn),
    UpdateMonitor(MonitorUpdate),
    Broadcast(CronEvent),
    /// Answer with this bare status.
    Status(u16),
    /// Answer with this status and `{"error": text}`.
    ErrorText(u16, String),
    Reply(Reply),
    /// Success: the handler answers with what it gathered.
    Done,
}

/// The next step of a cron handler, as plain values.
pub enum CronStepView {
    CheckMembership,
    LoadMonitor,
    LoadCheckIn,
    ListMonitors,
    FindSlug,
    CreateMonitor,
    DeleteMonitor,
    ListCheckIns(u32),
    StoreCheckIn(CheckInView),
    SaveCheckIn(CheckInView),
    UpdateMonitor(MonitorUpdate),
    Broadcast(CronEvent),
    Status(u16),
    ErrorText(u16, Seq<char>),
    Reply(ReplyView),
    Done,
}

impl View for CronStep {
    type V = CronStepView;

    open spec fn view(&self) -> CronStepView {
        match self {
            CronStep::CheckMembership => CronStepView::CheckMembership,
            CronStep::LoadMonitor => CronStepView::LoadMonitor,
            CronStep::LoadCheckIn => CronStepView::LoadCheckIn,
            CronStep::ListMonitors => CronStepView::ListMonitors,
            CronStep::FindSlug => CronStepView::FindSlug,
            CronStep::CreateMonitor => CronStepView::CreateMonitor,
            CronStep::DeleteMonitor => CronStepView::DeleteMonitor,
            CronStep::ListCheckIns(l) => CronStepView::ListCheckIns(*l),
            CronStep::StoreCheckIn(c) => CronStepView::StoreCheckIn(c@),
            CronStep::SaveCheckIn(c) => CronStepView::SaveCheckIn(c@),
            CronStep::UpdateMonitor(u) => CronStepView::UpdateMonitor(*u),
            CronStep::Broadcast(e) => CronStepView::Broadcast(*e),
            CronStep::Status(s) => CronStepView::Status(*s),
            CronStep::ErrorText(s, t) => CronStepView::ErrorText(*s, t@),
            CronStep::Reply(r) => CronStepView::Reply(r@),
            CronStep::Done => CronStepView::Done,
        }
    }
}

/// The answer to a caller who is not a member of the organization, or whose
/// membership could not be read. `None` when they are a member.
pub open spec fn membership_gate(m: Option<Lookup<()>>) -> Option<CronStepView> {
    match m {
        None => Some(CronStepView::CheckMembership),
        Some(Lookup::Missing) => Some(CronStepView::Reply(keyed(403, "forbidden"@, "server.api.org.not_a_member"@))),
        Some(Lookup::Failed) => Some(CronStepView::Reply(internal_error())),
        Some(Lookup::Found(_)) => None,
    }
}

fn membership_gate_step(m: Option<Lookup<()>>) -> (r: Option<CronStep>)
    ensures
        r is None <==> membership_gate(m) is None,
        r matches Some(s) ==> membership_gate(m) == Some(s@),
{
    match m {
        None => Some(CronStep::CheckMembership),
        Some(Lookup::Missing) => Some(CronStep::Reply(keyed_reply(403, "forbidden", "server.api.org.not_a_member"))),
        Some(Lookup::Failed) => Some(CronStep::Reply(internal_error_reply())),
        Some(Lookup::Found(_)) => None,
    }
}

/// The answer to a store lookup of a monitor or check-in that found
/// nothing (404) or failed (500). `None` when it was found.
pub open spec fn lookup_gate<T>(l: Lookup<T>) -> Option<CronStepView> {
    match l {
        Lookup::Missing => Some(CronStepView::Status(404)),
        Lookup::Failed => Some(CronStepView::Status(500)),
        Lookup::Found(_) => None,
    }
}

/// What a ping has learnt so far.
#[derive(Debug, Clone)]
pub struct PingFacts {
    pub kind: PingKind,
    pub exit_code: Option<i32>,
    /// The output sent with a finished run (already truncated).
    pub output: Option<String>,
    pub now: i64,
    /// The failures in a row of the monitor whose ping key it is, once
    /// looked up.
    pub monitor: Option<Lookup<u32>>,
    /// Whether storing the check-in succeeded, once tried.
    pub stored: Option<bool>,
    /// Whether the monitor was updated (failures there are ignored).
    pub monitor_updated: bool,
    /// Whether the event was broadcast.
    pub broadcast: bool,
}

/// The next step of a ping: the ping key must belong to a monitor; the
/// check-in is stored; a finished or failed run updates the monitor; the
/// event is broadcast.
pub open spec fn ping_step_of(f: PingFacts) -> CronStepView {
    match f.monitor {
        None => CronStepView::LoadMonitor,
        Some(Lookup::Missing) => CronStepView::Status(404),
        Some(Lookup::Failed) => CronStepView::Status(500),
        Some(Lookup::Found(failures)) => {
            let c = ping_checkin(f.kind, f.exit_code, opt_view(f.output), f.now);
            match f.stored {
                None => CronStepView::StoreCheckIn(c),
                Some(false) => CronStepView::Status(500),
                Some(true) => if f.kind != PingKind::Start && !f.monitor_updated {
                    CronStepView::UpdateMonitor(monitor_update(c.status))
                } else if !f.broadcast {
                    CronStepView::Broadcast(checkin_event(c.status, None, c.exit_code, failures))
                } else {
                    CronStepView::Done
                },
            }
        },
    }
}

/// The next step of a ping.
pub fn ping_step(f: &PingFacts) -> (r: CronStep)
    requires
        f.monitor matches Some(Lookup::Found(n)) ==> n < u32::MAX,
    ensures
        r@ == ping_step_of(*f),
{
    let failures = match f.monitor {
        None => return CronStep::LoadMonitor,
        Some(Lookup::Missing) => return CronStep::Status(404),
        Some(Lookup::Failed) => return CronStep::Status(500),
        Some(Lookup::Found(n)) => n,
    };
    let c = checkin_of_ping(f.kind, f.exit_code, copy_opt(&f.output), f.now);
    match f.stored {
        None => CronStep::StoreCheckIn(c),
        Some(false) => CronStep::Status(500),
        Some(true) => if f.kind != PingKind::Start && !f.monitor_updated {
            CronStep::UpdateMonitor(monitor_update_for(c.status))
        } else if !f.broadcast {
            CronStep::Broadcast(event_for_checkin(c.status, None, c.exit_code, failures))
        } else {
            CronStep::Done
        },
    }
}

/// What an SDK check-in has learnt so far.
#[derive(Debug, Clone)]
pub struct SdkCheckInFacts {
    pub report: CheckInReport,
    pub now: i64,
    /// Whether the caller belongs to the organization, once looked up.
    pub membership: Option<Lookup<()>>,
    /// The failures in a row of the monitor, once looked up by its slug.
    pub monitor: Option<Lookup<u32>>,
    pub stored: Option<bool>,
    pub monitor_updated: bool,
    pub broadcast: bool,
}

/// The next step of an SDK check-in: a member of the organization, an
/// existing monitor; the check-in is stored; a run that is not in progress
/// updates the monitor; the event is broadcast; the answer is 201.
pub open spec fn sdk_checkin_step_of(f: SdkCheckInFacts) -> CronStepView {
    if membership_gate(f.membership) is Some {
        membership_gate(f.membership)->0
    } else {
        match f.monitor {
            None => CronStepView::LoadMonitor,
            Some(Lookup::Missing) => CronStepView::Status(404),
            Some(Lookup::Failed) => CronStepView::Status(500),
            Some(Lookup::Found(failures)) => match f.stored {
                None => CronStepView::StoreCheckIn(sdk_checkin(f.report, f.now)),
                Some(false) => CronStepView::Status(500),
                Some(true) => if f.report.status != CheckInStatus::InProgress && !f.monitor_updated {
                    CronStepView::UpdateMonitor(monitor_update(f.report.status))
                } else if !f.broadcast {
                    CronStepView::Broadcast(
                        checkin_event(f.report.status, f.report.duration_ms, f.report.exit_code, failures),
                    )
                } else {
                    CronStepView::Status(201)
                },
            },
        }
    }
}

/// The next step of an SDK check-in.
pub fn sdk_checkin_step(f: &SdkCheckInFacts) -> (r: CronStep)
    requires
        f.monitor matches Some(Lookup::Found(n)) ==> n < u32::MAX,
    ensures
        r@ == sdk_checkin_step_of(*f),
{
    if let Some(s) = membership_gate_step(f.membership) {
        return s;
    }
    let failures = match f.monitor {
        None => return CronStep::LoadMonitor,
        Some(Lookup::Missing) => return CronStep::Status(404),
        Some(Lookup::Failed) => return CronStep::Status(500),
        Some(Lookup::Found(n)) => n,
    };
    match f.stored {
        None => CronStep::StoreCheckIn(checkin_of_report(f.report.duplicate(), f.now)),
        Some(false) => CronStep::Status(500),
        Some(true) => if f.report.status != CheckInStatus::InProgress && !f.monitor_updated {
            CronStep::UpdateMonitor(monitor_update_for(f.report.status))
        } else if !f.broadcast {
            CronStep::Broadcast(event_for_checkin(f.report.status, f.report.duration_ms, f.report.exit_code, failures))
        } else {
            CronStep::Status(201)
        },
    }
}

/// What updating a check-in has learnt so far.
#[derive(Debug, Clone)]
pub struct UpdateCheckInFacts {
    pub update: CheckInUpdate,
    pub now: i64,
    /// The check-in, once looked up.
    pub checkin: Option<Lookup<CheckIn>>,
    /// The failures in a row of its monitor, once looked up.
    pub monitor: Option<Lookup<u32>>,
    /// Whether the caller belongs to the monitor's organization, once
    /// looked up.
    pub membership: Option<Lookup<()>>,
    pub saved: Option<bool>,
    pub monitor_updated: bool,
    pub broadcast: bool,
}

/// The next step of updating a check-in: an existing check-in of an
/// existing monitor of the caller's organization; the updated check-in is
/// saved, the monitor updated, the event broadcast.
pub open spec fn update_checkin_step_of(f: UpdateCheckInFacts) -> CronStepView {
    match f.checkin {
        None => CronStepView::LoadCheckIn,
        Some(Lookup::Missing) => CronStepView::Status(404),
        Some(Lookup::Failed) => CronStepView::Status(500),
        Some(Lookup::Found(c)) => match f.monitor {
            None => CronStepView::LoadMonitor,
            Some(Lookup::Missing) => CronStepView::Status(404),
            Some(Lookup::Failed) => CronStepView::Status(500),
            Some(Lookup::Found(failures)) => if membership_gate(f.membership) is Some {
                membership_gate(f.membership)->0
            } else {
                let u = updated_checkin(c@, f.update, f.now);
                match f.saved {
                    None => CronStepView::SaveCheckIn(u),
                    Some(false) => CronStepView::Status(500),
                    Some(true) => if !f.monitor_updated {
                        CronStepView::UpdateMonitor(monitor_update(f.update.status))
                    } else if !f.broadcast {
                        CronStepView::Broadcast(checkin_event(u.status, u.duration_ms, u.exit_code, failures))
                    } else {
                        CronStepView::Done
                    },
                }
            },
        },
    }
}

/// The next step of updating a check-in.
pub fn update_checkin_step(f: &UpdateCheckInFacts) -> (r: CronStep)
    requires
        f.monitor matches Some(Lookup::Found(n)) ==> n < u32::MAX,
    ensures
        r@ == update_checkin_step_of(*f),
{
    let c = match &f.checkin {
        None => return CronStep::LoadCheckIn,
        Some(Lookup::Missing) => return CronStep::Status(404),
        Some(Lookup::Failed) => return CronStep::Status(500),
        Some(Lookup::Found(c)) => c,
    };
    let failures = match f.monitor {
        None => return CronStep::LoadMonitor,
        Some(Lookup::Missing) => return CronStep::Status(404),
        Some(Lookup::Failed) => return CronStep::Status(500),
        Some(Lookup::Found(n)) => n,
    };
    if let Some(s) = membership_gate_step(f.membership) {
        return s;
    }
    let u = apply_checkin_update(c.duplicate(), f.update.duplicate(), f.now);
    match f.saved {
        None => CronStep::SaveCheckIn(u),
        Some(false) => CronStep::Status(500),
        Some(true) => if !f.monitor_updated {
            CronStep::UpdateMonitor(monitor_update_for(f.update.status))
        } else if !f.broadcast {
            CronStep::Broadcast(event_for_checkin(u.status, u.duration_ms, u.exit_code, failures))
        } else {
            CronStep::Done
        },
    }
}

/// What reading a check-in has learnt so far.
#[derive(Debug, Clone, Copy)]
pub struct GetCheckInFacts {
    pub checkin: Option<Lookup<()>>,
    pub monitor: Option<Lookup<()>>,
    pub membership: Option<Lookup<()>>,
}

/// The next step of reading a check-in: it and its monitor must exist, and
/// the caller must belong to the monitor's organization.
pub open spec fn get_checkin_step_of(f: GetCheckInFacts) -> CronStepView {
    match f.checkin {
        None => CronStepView::LoadCheckIn,
        Some(l) => if lookup_gate(l) is Some {
            lookup_gate(l)->0
        } else {
            match f.monitor {
                None => CronStepView::LoadMonitor,
                Some(m) => if lookup_gate(m) is Some {
                    lookup_gate(m)->0
                } else if membership_gate(f.membership) is Some {
                    membership_gate(f.membership)->0
                } else {
                    CronStepView::Done
                },
            }
        },
    }
}

/// The next step of reading a check-in.
pub fn get_checkin_step(f: &GetCheckInFacts) -> (r: CronStep)
    ensures
        r@ == get_checkin_step_of(*f),
{
    match f.checkin {
        None => return CronStep::LoadCheckIn,
        Some(Lookup::Missing) => return CronStep::Status(404),
        Some(Lookup::Failed) => return CronStep::Status(500),
        Some(Lookup::Found(_)) => {},
    }
    match f.monitor {
        None => return CronStep::LoadMonitor,
        Some(Lookup::Missing) => return CronStep::Status(404),
        Some(Lookup::Failed) => return CronStep::Status(500),
        Some(Lookup::Found(_)) => {},
    }
    match membership_gate_step(f.membership) {
        Some(s) => s,
        None => CronStep::Done,
    }
}

/// The monitor handlers that need only membership and, for most, the
/// monitor named by its slug.
#[derive(Debug, Clone, Copy, PartialEq, Eq, Structural)]
pub enum MonitorHandler {
    List,
    Stream,
    Get,
    Delete,
    ListCheckIns(u32),
}

/// What such a handler has learnt so far.
#[derive(Debug, Clone, Copy)]
pub struct MonitorAccessFacts {
    pub membership: Option<Lookup<()>>,
    pub monitor: Option<Lookup<()>>,
    /// Whether the handler's own store call succeeded, once made.
    pub done: Option<bool>,
}

/// The next step of such a handler: members of the organization list and
/// stream its monitors, read one, delete one (answered with 204), or list
/// its check-ins.
pub open spec fn monitor_access_step_of(h: MonitorHandler, f: MonitorAccessFacts) -> CronStepView {
    if membership_gate(f.membership) is Some {
        membership_gate(f.membership)->0
    } else {
        match h {
            MonitorHandler::List => match f.done {
                None => CronStepView::ListMonitors,
                Some(false) => CronStepView::Status(500),
                Some(true) => CronStepView::Done,
            },
            MonitorHandler::Stream => match f.done {
                None => CronStepView::ListMonitors,
                Some(false) => CronStepView::Reply(internal_error()),
                Some(true) => CronStepView::Done,
            },
            _ => match f.monitor {
                None => CronStepView::LoadMonitor,
                Some(m) => if lookup_gate(m) is Some {
                    lookup_gate(m)->0
                } else {
                    match h {
                        MonitorHandler::Delete => match f.done {
                            None => CronStepView::DeleteMonitor,
                            Some(false) => CronStepView::Status(500),
                            Some(true) => CronStepView::Status(204),
                        },
                        MonitorHandler::ListCheckIns(limit) => match f.done {
                            None => CronStepView::ListCheckIns(limit),
                            Some(false) => CronStepView::Status(500),
                            Some(true) => CronStepView::Done,
                        },
                        _ => CronStepView::Done,
                    }
                },
            },
        }
    }
}

/// The next step of such a handler.
pub fn monitor_access_step(h: MonitorHandler, f: &MonitorAccessFacts) -> (r: CronStep)
    ensures
        r@ == monitor_access_step_of(h, *f),
{
    if let Some(s) = membership_gate_step(f.membership) {
        return s;
    }
    match h {
        MonitorHandler::List => match f.done {
            None => CronStep::ListMonitors,
            Some(false) => CronStep::Status(500),
            Some(true) => CronStep::Done,
        },
        MonitorHandler::Stream => match f.done {
            None => CronStep::ListMonitors,
            Some(false) => CronStep::Reply(internal_error_reply()),
            Some(true) => CronStep::Done,
        },
        _ => match f.monitor {
            None => CronStep::LoadMonitor,
            Some(Lookup::Missing) => CronStep::Status(404),
            Some(Lookup::Failed) => CronStep::Status(500),
            Some(Lookup::Found(_)) => match h {
                MonitorHandler::Delete => match f.done {
                    None => CronStep::DeleteMonitor,
                    Some(false) => CronStep::Status(500),
                    Some(true) => CronStep::Status(204),
                },
                MonitorHandler::ListCheckIns(limit) => match f.done {
                    None => CronStep::ListCheckIns(limit),
                    Some(false) => CronStep::Status(500),
                    Some(true) => CronStep::Done,
                },
                _ => CronStep::Done,
            },
        },
    }
}

/// What creating a monitor has learnt so far.
#[derive(Debug, Clone, Copy)]
pub struct CreateMonitorFacts {
    pub membership: Option<Lookup<()>>,
    /// Whether the slug passes the monitor's slug rule.
    pub slug_valid: bool,
    /// Whether a monitor of the organization has the slug, once asked (a
    /// failed lookup counts as no).
    pub slug_taken: Option<bool>,
    pub created: Option<bool>,
}

/// The next step of creating a monitor: a member of the organization, a
/// valid slug that no monitor of it has; the answer is 201.
pub open spec fn create_monitor_step_of(f: CreateMonitorFacts) -> CronStepView {
    if membership_gate(f.membership) is Some {
        membership_gate(f.membership)->0
    } else if !f.slug_valid {
        CronStepView::ErrorText(400, "Invalid slug"@)
    } else {
        match f.slug_taken {
            None => CronStepView::FindSlug,
            Some(true) => CronStepView::ErrorText(409, "Duplicate slug"@),
            Some(false) => match f.created {
                None => CronStepView::CreateMonitor,
                Some(false) => CronStepView::Status(500),
                Some(true) => CronStepView::Status(201),
            },
        }
    }
}

/// The next step of creating a monitor.
pub fn create_monitor_step(f: &CreateMonitorFacts) -> (r: CronStep)
    ensures
        r@ == create_monitor_step_of(*f),
{
    if let Some(s) = membership_gate_step(f.membership) {
        return s;
    }
    if !f.slug_valid {
        return CronStep::ErrorText(400, string_of_str("Invalid slug"));
    }
    match f.slug_taken {
        None => CronStep::FindSlug,
        Some(true) => CronStep::ErrorText(409, string_of_str("Duplicate slug")),
        Some(false) => match f.created {
            None => CronStep::CreateMonitor,
            Some(false) => CronStep::Status(500),
            Some(true) => CronStep::Status(201),
        },
    }
}

/// Recording a finished run leaves its monitor failing exactly when the run
/// failed, and the statistics count it as a failure exactly then; a
/// failure's event carries one more failure in a row than the monitor had.
pub proof fn law_monitor_health_follows_run(s: CheckInStatus, failures: u32, d: Option<u64>, e: Option<i32>)
    requires
        failures < u32::MAX,
    ensures
        (monitor_update(s).health == MonitorHealth::Failing) <==> is_failure(s),
        monitor_update(s).failure <==> is_failure(s),
        monitor_update(s).last_status == s,
        is_failure(s) ==> checkin_event(s, d, e, failures) == (CronEvent::Failed {
            exit_code: e,
            consecutive_failures: (failures + 1) as u32,
        }),
        is_failure(s) ==> checkin_event(s, d, e, failures)->consecutive_failures == failures + 1,
{
}

/// A ping's run is a success exactly when its exit code is 0 or absent.
pub proof fn law_ping_status(exit_code: Option<i32>)
    ensures
        ping_status(exit_code) == CheckInStatus::Success <==> (exit_code is None || exit_code == Some(0i32)),
        ping_status(exit_code) == CheckInStatus::Error <==> !(exit_code is None || exit_code == Some(0i32)),
{
}

/// An SDK check-in of a run in progress stores the check-in and broadcasts
/// its start but leaves the monitor as it was.
pub proof fn law_in_progress_leaves_monitor(f: SdkCheckInFacts)
    requires
        f.report.status == CheckInStatus::InProgress,
        f.stored == Some(true),
        f.membership matches Some(Lookup::Found(_)),
        f.monitor matches Some(Lookup::Found(_)),
    ensures
        !(sdk_checkin_step_of(f) is UpdateMonitor),
        !f.broadcast ==> sdk_checkin_step_of(f) == CronStepView::Broadcast(CronEvent::Started),
{
}

/// A start ping never updates the monitor; the other pings do, with their
/// run's status, before broadcasting.
pub proof fn law_ping_updates_monitor(f: PingFacts)
    requires
        f.stored == Some(true),
        f.monitor matches Some(Lookup::Found(_)),
    ensures
        f.kind == PingKind::Start ==> !(ping_step_of(f) is UpdateMonitor),
        f.kind != PingKind::Start && !f.monitor_updated ==> ping_step_of(f) == CronStepView::UpdateMonitor(
            monitor_update(ping_kind_status(f.kind, f.exit_code)),
        ),
{
}

/// The query of a ping: the exit code of the run, if given.
#[derive(Debug, Clone, Copy)]
pub struct PingParams {
    pub exit_code: Option<i32>,
}

/// The body of an error answer of the cron endpoints.
#[derive(Debug, Clone)]
pub struct CronsErrorResponse {
    pub error: String,
    pub message: String,
}

} // verus!
