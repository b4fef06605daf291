//! OpenCode daemon events to unified stream events.
//!
//! Ordering state is kept per workspace: the stream of a message is
//! `stream_<message id>` with consecutive sequence numbers, and a tool call
//! is reported as completed once per workspace.
//!
//! Events arrive as JSON; the caller extracts from the event's `properties`
//! the plain values that the adapter reads (see [`OpenCodeProps`]).
use vstd::prelude::*;
use crate::stream::{
    prefixed, seq_after, AgentProcessingState, EventView, PayloadView, StreamErrorCode, StreamEvent,
    StreamEventPayload, StreamEventType, StreamTable, ToolCallStatus, events_view,
};
use crate::text::{string_of_str, str_eq};

verus! {

/// Timing of a part.
#[derive(Debug, Clone, Copy)]
pub struct PartTime {
    pub start: Option<u64>,
    pub end: Option<u64>,
}

/// A part of a message (`properties.part` of `message.part.updated`);
/// `input` is JSON text.
#[derive(Debug, Clone)]
pub struct PartData {
    pub id: String,
    pub message_id: String,
    pub session_id: String,
    pub part_type: String,
    pub text: Option<String>,
    pub content: Option<String>,
    pub output: Option<String>,
    pub tool: Option<String>,
    pub tool_call_id: Option<String>,
    pub input: Option<String>,
    pub error: Option<String>,
    pub time: Option<PartTime>,
}

/// The `status` object of `session.status`.
#[derive(Debug, Clone)]
pub struct SessionStatusType {
    pub status_type: Option<String>,
}

/// The properties of `session.status`.
#[derive(Debug, Clone)]
pub struct SessionStatusProps {
    pub session_id: Option<String>,
    pub status: Option<SessionStatusType>,
}

/// The properties of `session.error`.
#[derive(Debug, Clone)]
pub struct SessionErrorProps {
    pub session_id: Option<String>,
    pub error: Option<String>,
}

/// What the adapter reads of an event's `properties` object, each read the
/// way the event kind that uses it reads it: `part` is `properties.part` as
/// a part (`None` when missing or not a part), `delta` is `properties.delta`
/// when it is a string, `status` and `error` are the whole properties as
/// status or error properties (`None` when they are not), and `session_id`
/// is `properties.sessionID` when it is a string.
#[derive(Debug, Clone)]
pub struct OpenCodeProps {
    pub part: Option<PartData>,
    pub delta: Option<String>,
    pub status: Option<SessionStatusProps>,
    pub error: Option<SessionErrorProps>,
    pub session_id: Option<String>,
}

/// The inner event with its type.
#[derive(Debug, Clone)]
pub struct OpenCodeInnerEvent {
    pub event_type: String,
    pub properties: Option<OpenCodeProps>,
}

/// An event of the OpenCode daemon.
#[derive(Debug, Clone)]
pub struct OpenCodeDaemonEvent {
    pub workspace_id: String,
    pub event_type: String,
    pub event: OpenCodeInnerEvent,
}

/// The harness name on OpenCode events.
pub open spec fn opencode_harness() -> Seq<char> {
    "open_code"@
}

/// The view of an optional string, or a default.
pub open spec fn or_default(o: Option<String>, d: Seq<char>) -> Seq<char> {
    match o {
        Some(s) => s@,
        None => d,
    }
}

/// The call id of a tool part: its tool call id, else its part id.
pub open spec fn part_call_id(p: PartData) -> Seq<char> {
    or_default(p.tool_call_id, p.id@)
}

/// Whether a tool part is complete: it has output or an end time.
pub open spec fn part_complete(p: PartData) -> bool {
    p.output is Some || (p.time matches Some(t) && t.end is Some)
}

/// The event of a part, when its kind yields one: text and reasoning deltas,
/// tool deltas, and tool completions not yet reported in the workspace.
pub open spec fn part_event(p: PartData, delta: Option<String>, seq: u64, reported: bool) -> Option<EventView> {
    let base = |ty: StreamEventType, payload: PayloadView| EventView {
        session_id: p.session_id@,
        harness: opencode_harness(),
        stream_id: "stream_"@ + p.message_id@,
        seq,
        event_type: ty,
        message_id: Some(p.message_id@),
        payload,
    };
    if p.part_type@ == "text"@ {
        let text = match delta {
            Some(d) => d@,
            None => or_default(p.text, Seq::empty()),
        };
        Some(base(StreamEventType::TextDelta, PayloadView::TextDelta { text, role: "assistant"@ }))
    } else if p.part_type@ == "reasoning"@ {
        let text = match delta {
            Some(d) => d@,
            None => or_default(p.content, Seq::empty()),
        };
        Some(base(StreamEventType::ThinkingDelta, PayloadView::ThinkingDelta { text }))
    } else if p.part_type@ == "tool"@ {
        if part_complete(p) {
            if reported {
                None
            } else {
                Some(base(StreamEventType::ToolCallCompleted, PayloadView::ToolCallCompleted {
                    call_id: part_call_id(p),
                    tool_name: or_default(p.tool, "unknown"@),
                    arguments: or_default(p.input, "null"@),
                    output: or_default(p.output, Seq::empty()),
                    status: if p.error is Some { ToolCallStatus::Failed } else { ToolCallStatus::Completed },
                    error_message: match p.error { Some(e) => Some(e@), None => None },
                }))
            }
        } else {
            Some(base(StreamEventType::ToolCallDelta, PayloadView::ToolCallDelta {
                call_id: part_call_id(p),
                tool_name: or_default(p.tool, "unknown"@),
                arguments_delta: or_default(delta, Seq::empty()),
            }))
        }
    } else {
        None
    }
}

/// A status or error event of a session, on stream `<prefix><session>`.
pub open spec fn session_event(sid: Seq<char>, prefix: Seq<char>, ty: StreamEventType, payload: PayloadView) -> EventView {
    EventView {
        session_id: sid,
        harness: opencode_harness(),
        stream_id: prefix + sid,
        seq: 0,
        event_type: ty,
        message_id: None,
        payload,
    }
}

/// The event of `session.status` properties: busy means processing, idle
/// means idle, anything else yields nothing.
pub open spec fn status_event(ws: Seq<char>, sp: SessionStatusProps) -> Option<EventView> {
    let sid = or_default(sp.session_id, ws);
    match sp.status {
        Some(st) => match st.status_type {
            Some(t) => if t@ == "busy"@ {
                Some(session_event(sid, "status_"@, StreamEventType::Status,
                    PayloadView::Status { state: AgentProcessingState::Processing, detail: None }))
            } else if t@ == "idle"@ {
                Some(session_event(sid, "status_"@, StreamEventType::Status,
                    PayloadView::Status { state: AgentProcessingState::Idle, detail: None }))
            } else {
                None
            },
            None => None,
        },
        None => None,
    }
}

/// The event of `session.error` properties.
pub open spec fn error_event(ws: Seq<char>, ep: SessionErrorProps) -> EventView {
    let sid = or_default(ep.session_id, ws);
    session_event(sid, "error_"@, StreamEventType::Error, PayloadView::Error {
        code: StreamErrorCode::ProviderError,
        message: or_default(ep.error, "Unknown error"@),
        recoverable: true,
        details: None,
    })
}

/// The event of `session.idle`.
pub open spec fn idle_event(ws: Seq<char>, props: Option<OpenCodeProps>) -> EventView {
    let sid = match props {
        Some(p) => or_default(p.session_id, ws),
        None => ws,
    };
    session_event(sid, "status_"@, StreamEventType::Status,
        PayloadView::Status { state: AgentProcessingState::Idle, detail: None })
}

/// OpenCode adapter: the ordering state of every workspace.
pub struct OpenCodeAdapter {
    table: StreamTable,
}

impl OpenCodeAdapter {
    /// The adapter's well-formedness.
    pub closed spec fn wf(&self) -> bool {
        self.table.wf()
    }

    /// The next sequence number of the stream of a message in a workspace.
    pub closed spec fn next_seq_of(&self, workspace_id: Seq<char>, message_id: Seq<char>) -> u64 {
        self.table.next_seq_of(workspace_id, message_id)
    }

    /// Whether a tool call was reported as completed in a workspace.
    pub closed spec fn tool_reported(&self, workspace_id: Seq<char>, call_id: Seq<char>) -> bool {
        self.table.is_completed(workspace_id, call_id)
    }

    /// An adapter with no streams and no reported tools.
    pub fn new() -> (r: OpenCodeAdapter)
        ensures
            r.wf(),
            forall|s: Seq<char>, m: Seq<char>| r.next_seq_of(s, m) == 0,
            forall|s: Seq<char>, t: Seq<char>| !r.tool_reported(s, t),
    {
        OpenCodeAdapter { table: StreamTable::new() }
    }

    /// Adapt a `message.part.updated` event. The part's stream takes a
    /// sequence number whether or not the part yields an event.
    fn adapt_part_updated(&mut self, ws: &String, props: &Option<OpenCodeProps>) -> (r: Option<Vec<StreamEvent>>)
        requires
            old(self).wf(),
        ensures
            final(self).wf(),
            match *props {
                Some(OpenCodeProps { part: Some(p), delta, .. }) => {
                    let seq = old(self).next_seq_of(ws@, p.message_id@);
                    let completing = p.part_type@ == "tool"@ && part_complete(p);
                    let ev = part_event(p, delta, seq, old(self).tool_reported(ws@, part_call_id(p)));
                    &&& (r is None <==> ev is None)
                    &&& (r matches Some(v) ==> v@.len() == 1 && v@[0]@ == ev->0)
                    &&& final(self).next_seq_of(ws@, p.message_id@) == seq_after(seq)
                    &&& forall|s: Seq<char>, m: Seq<char>| !(s == ws@ && m == p.message_id@) ==>
                        #[trigger] final(self).next_seq_of(s, m) == old(self).next_seq_of(s, m)
                    &&& forall|s: Seq<char>, t: Seq<char>| #[trigger] final(self).tool_reported(s, t) == (old(self).tool_reported(s, t)
                        || (completing && s == ws@ && t == part_call_id(p)))
                },
                _ => r is None && *final(self) == *old(self),
            },
    {
        let props = match props {
            Some(p) => p,
            None => return None,
        };
        let part = match &props.part {
            Some(p) => p,
            None => return None,
        };
        let seq = self.table.next_seq(ws, &part.message_id);
        let sid = part.session_id.clone();
        let mid = part.message_id.clone();
        let stream_id = prefixed("stream_", &part.message_id);
        let pt = part.part_type.as_str();
        proof {
            lemma_part_kinds_distinct();
        }
        let ghost reported0 = old(self).tool_reported(ws@, part_call_id(*part));
        assert(self.table.is_completed(ws@, part_call_id(*part)) == reported0);
        let (ty, payload) = if str_eq(pt, "text") {
            let text = match &props.delta {
                Some(d) => d.clone(),
                None => match &part.text {
                    Some(t) => t.clone(),
                    None => String::new(),
                },
            };
            (StreamEventType::TextDelta, StreamEventPayload::TextDelta { text, role: string_of_str("assistant") })
        } else if str_eq(pt, "reasoning") {
            let text = match &props.delta {
                Some(d) => d.clone(),
                None => match &part.content {
                    Some(t) => t.clone(),
                    None => String::new(),
                },
            };
            (StreamEventType::ThinkingDelta, StreamEventPayload::ThinkingDelta { text })
        } else if str_eq(pt, "tool") {
            let tool_name = match &part.tool {
                Some(t) => t.clone(),
                None => string_of_str("unknown"),
            };
            let call_id = match &part.tool_call_id {
                Some(c) => c.clone(),
                None => part.id.clone(),
            };
            let has_end = match &part.time {
                Some(t) => t.end.is_some(),
                None => false,
            };
            let is_completed = part.output.is_some() || has_end;
            if is_completed {
                let fresh = self.table.mark_tool_completed(ws, &call_id);
                if !fresh {
                    return None;
                }
                let status = if part.error.is_some() { ToolCallStatus::Failed } else { ToolCallStatus::Completed };
                let arguments = match &part.input {
                    Some(i) => i.clone(),
                    None => string_of_str("null"),
                };
                let output = match &part.output {
                    Some(o) => o.clone(),
                    None => String::new(),
                };
                let error_message = match &part.error {
                    Some(e) => Some(e.clone()),
                    None => None,
                };
                (
                    StreamEventType::ToolCallCompleted,
                    StreamEventPayload::ToolCallCompleted { call_id, tool_name, arguments, output, status, error_message },
                )
            } else {
                let arguments_delta = match &props.delta {
                    Some(d) => d.clone(),
                    None => String::new(),
                };
                (StreamEventType::ToolCallDelta, StreamEventPayload::ToolCallDelta { call_id, tool_name, arguments_delta })
            }
        } else {
            return None;
        };
        let ev = StreamEvent::new(sid, string_of_str("open_code"), stream_id, seq, ty, payload).with_message_id(mid);
        let mut out: Vec<StreamEvent> = Vec::new();
        out.push(ev);
        Some(out)
    }

    /// Adapt a `session.status` event.
    fn adapt_session_status(ws: &String, props: &Option<OpenCodeProps>) -> (r: Option<Vec<StreamEvent>>)
        ensures
            match *props {
                Some(OpenCodeProps { status: Some(sp), .. }) => {
                    &&& (r is None <==> status_event(ws@, sp) is None)
                    &&& (r matches Some(v) ==> v@.len() == 1 && v@[0]@ == status_event(ws@, sp)->0)
                },
                _ => r is None,
            },
    {
        let props = match props {
            Some(p) => p,
            None => return None,
        };
        let sp = match &props.status {
            Some(s) => s,
            None => return None,
        };
        let sid = match &sp.session_id {
            Some(s) => s.clone(),
            None => ws.clone(),
        };
        let st = match &sp.status {
            Some(st) => st,
            None => return None,
        };
        let t = match &st.status_type {
            Some(t) => t,
            None => return None,
        };
        let state = if str_eq(t.as_str(), "busy") {
            AgentProcessingState::Processing
        } else if str_eq(t.as_str(), "idle") {
            AgentProcessingState::Idle
        } else {
            return None;
        };
        let stream_id = prefixed("status_", &sid);
        let ev = StreamEvent::new(
            sid,
            string_of_str("open_code"),
            stream_id,
            0,
            StreamEventType::Status,
            StreamEventPayload::Status { state, detail: None },
        );
        let mut out: Vec<StreamEvent> = Vec::new();
        out.push(ev);
        Some(out)
    }

    /// Adapt a `session.error` event.
    fn adapt_session_error(ws: &String, props: &Option<OpenCodeProps>) -> (r: Option<Vec<StreamEvent>>)
        ensures
            match *props {
                Some(OpenCodeProps { error: Some(ep), .. }) => r matches Some(v) && v@.len() == 1
                    && v@[0]@ == error_event(ws@, ep),
                _ => r is None,
            },
    {
        let props = match props {
            Some(p) => p,
            None => return None,
        };
        let ep = match &props.error {
            Some(e) => e,
            None => return None,
        };
        let sid = match &ep.session_id {
            Some(s) => s.clone(),
            None => ws.clone(),
        };
        let message = match &ep.error {
            Some(e) => e.clone(),
            None => string_of_str("Unknown error"),
        };
        let stream_id = prefixed("error_", &sid);
        let ev = StreamEvent::new(
            sid,
            string_of_str("open_code"),
            stream_id,
            0,
            StreamEventType::Error,
            StreamEventPayload::Error { code: StreamErrorCode::ProviderError, message, recoverable: true, details: None },
        );
        let mut out: Vec<StreamEvent> = Vec::new();
        out.push(ev);
        Some(out)
    }

    /// Adapt a `session.idle` event.
    fn adapt_session_idle(ws: &String, props: &Option<OpenCodeProps>) -> (r: Vec<StreamEvent>)
        ensures
            r@.len() == 1 && r@[0]@ == idle_event(ws@, *props),
    {
        let sid = match props {
            Some(p) => match &p.session_id {
                Some(s) => s.clone(),
                None => ws.clone(),
            },
            None => ws.clone(),
        };
        let stream_id = prefixed("status_", &sid);
        let ev = StreamEvent::new(
            sid,
            string_of_str("open_code"),
            stream_id,
            0,
            StreamEventType::Status,
            StreamEventPayload::Status { state: AgentProcessingState::Idle, detail: None },
        );
        let mut out: Vec<StreamEvent> = Vec::new();
        out.push(ev);
        out
    }

    /// Adapt an OpenCode daemon event to stream events; `None` when the
    /// event yields none (heartbeats and other kinds yield none).
    pub fn adapt(&mut self, event: &OpenCodeDaemonEvent) -> (r: Option<Vec<StreamEvent>>)
        requires
            old(self).wf(),
        ensures
            final(self).wf(),
            event.event.event_type@ != "message.part.updated"@ ==> *final(self) == *old(self),
            if event.event.event_type@ == "message.part.updated"@ {
                match event.event.properties {
                    Some(OpenCodeProps { part: Some(p), delta, .. }) => {
                        let ws = event.workspace_id@;
                        let seq = old(self).next_seq_of(ws, p.message_id@);
                        let completing = p.part_type@ == "tool"@ && part_complete(p);
                        let ev = part_event(p, delta, seq, old(self).tool_reported(ws, part_call_id(p)));
                        &&& (r is None <==> ev is None)
                        &&& (r matches Some(v) ==> v@.len() == 1 && v@[0]@ == ev->0)
                        &&& final(self).next_seq_of(ws, p.message_id@) == seq_after(seq)
                        &&& forall|s: Seq<char>, m: Seq<char>| !(s == ws && m == p.message_id@) ==>
                            #[trigger] final(self).next_seq_of(s, m) == old(self).next_seq_of(s, m)
                        &&& forall|s: Seq<char>, t: Seq<char>| #[trigger] final(self).tool_reported(s, t) == (old(self).tool_reported(s, t)
                            || (completing && s == ws && t == part_call_id(p)))
                    },
                    _ => r is None && *final(self) == *old(self),
                }
            } else if event.event.event_type@ == "session.status"@ {
                match event.event.properties {
                    Some(OpenCodeProps { status: Some(sp), .. }) => {
                        &&& (r is None <==> status_event(event.workspace_id@, sp) is None)
                        &&& (r matches Some(v) ==> v@.len() == 1 && v@[0]@ == status_event(event.workspace_id@, sp)->0)
                    },
                    _ => r is None,
                }
            } else if event.event.event_type@ == "session.error"@ {
                match event.event.properties {
                    Some(OpenCodeProps { error: Some(ep), .. }) => r matches Some(v) && v@.len() == 1
                        && v@[0]@ == error_event(event.workspace_id@, ep),
                    _ => r is None,
                }
            } else if event.event.event_type@ == "session.idle"@ {
                r matches Some(v) && v@.len() == 1 && v@[0]@ == idle_event(event.workspace_id@, event.event.properties)
            } else {
                r is None
            },
    {
        let ws = &event.workspace_id;
        let et = event.event.event_type.as_str();
        let props = &event.event.properties;
        if str_eq(et, "message.part.updated") {
            self.adapt_part_updated(ws, props)
        } else if str_eq(et, "session.status") {
            Self::adapt_session_status(ws, props)
        } else if str_eq(et, "session.error") {
            Self::adapt_session_error(ws, props)
        } else if str_eq(et, "session.idle") {
            Some(Self::adapt_session_idle(ws, props))
        } else {
            None
        }
    }
}

/// A completed tool call is reported at most once per workspace: a
/// completed tool part whose call was already reported yields no event.
pub proof fn law_completed_tool_reported_once(p: PartData, delta: Option<String>, seq: u64)
    requires
        p.part_type@ == "tool"@,
        part_complete(p),
    ensures
        part_event(p, delta, seq, true) is None,
{
    lemma_part_kinds_distinct();
}

/// The part kinds that yield events are distinct names.
proof fn lemma_part_kinds_distinct()
    ensures
        "tool"@ != "text"@,
        "tool"@ != "reasoning"@,
        "text"@ != "reasoning"@,
{
    reveal_strlit("text");
    reveal_strlit("reasoning");
    reveal_strlit("tool");
    assert("tool"@[1] != "text"@[1]);
    assert("text"@.len() != "reasoning"@.len());
    assert("tool"@.len() != "reasoning"@.len());
}

/// A tool part that is complete (it has output or an end time) and not yet
/// reported yields one `ToolCallCompleted` event on its message's stream,
/// carrying its output (empty when it has none); its status is `Failed`
/// exactly when the part has an error, and then the error is the event's
/// error message; once reported, the part yields nothing.
pub proof fn law_completed_tool_part(p: PartData, delta: Option<String>, seq: u64)
    requires
        p.part_type@ == "tool"@,
        p.output is Some || (p.time matches Some(t) && t.end is Some),
    ensures
        part_event(p, delta, seq, true) is None,
        part_event(p, delta, seq, false) is Some,
        part_event(p, delta, seq, false)->0.event_type == StreamEventType::ToolCallCompleted,
        part_event(p, delta, seq, false)->0.session_id == p.session_id@,
        part_event(p, delta, seq, false)->0.message_id == Some(p.message_id@),
        part_event(p, delta, seq, false)->0.payload is ToolCallCompleted,
        (part_event(p, delta, seq, false)->0.payload->ToolCallCompleted_status == ToolCallStatus::Failed) <==> p.error is Some,
        p.error is None ==> part_event(p, delta, seq, false)->0.payload->ToolCallCompleted_status == ToolCallStatus::Completed,
        part_event(p, delta, seq, false)->0.payload->ToolCallCompleted_error_message == match p.error {
            Some(e) => Some(e@),
            None => None,
        },
        part_event(p, delta, seq, false)->0.payload->ToolCallCompleted_output == match p.output {
            Some(o) => o@,
            None => Seq::<char>::empty(),
        },
        part_event(p, delta, seq, false)->0.payload->ToolCallCompleted_call_id == match p.tool_call_id {
            Some(c) => c@,
            None => p.id@,
        },
{
    reveal_strlit("tool");
    reveal_strlit("text");
    reveal_strlit("reasoning");
    assert(p.part_type@ != "text"@) by {
        assert(p.part_type@[1] == 'o');
    }
    assert(p.part_type@ != "reasoning"@) by {
        assert(p.part_type@.len() == 4);
    }
}

/// A text part yields its delta (or, without one, its text) as a text
/// delta of its message's stream, and a reasoning part its delta (or its
/// content) as a thinking delta.
pub proof fn law_text_and_reasoning_parts(p: PartData, delta: Option<String>, seq: u64, reported: bool)
    ensures
        p.part_type@ == "text"@ ==> part_event(p, delta, seq, reported) == Some(EventView {
            session_id: p.session_id@,
            harness: "open_code"@,
            stream_id: "stream_"@ + p.message_id@,
            seq,
            event_type: StreamEventType::TextDelta,
            message_id: Some(p.message_id@),
            payload: PayloadView::TextDelta {
                text: match delta {
                    Some(d) => d@,
                    None => match p.text {
                        Some(t) => t@,
                        None => Seq::<char>::empty(),
                    },
                },
                role: "assistant"@,
            },
        }),
        p.part_type@ == "reasoning"@ ==> part_event(p, delta, seq, reported) == Some(EventView {
            session_id: p.session_id@,
            harness: "open_code"@,
            stream_id: "stream_"@ + p.message_id@,
            seq,
            event_type: StreamEventType::ThinkingDelta,
            message_id: Some(p.message_id@),
            payload: PayloadView::ThinkingDelta {
                text: match delta {
                    Some(d) => d@,
                    None => match p.content {
                        Some(c) => c@,
                        None => Seq::<char>::empty(),
                    },
                },
            },
        }),
{
    reveal_strlit("text");
    reveal_strlit("reasoning");
    if p.part_type@ == "reasoning"@ {
        assert(p.part_type@ != "text"@) by {
            assert(p.part_type@.len() == 9);
        }
    }
}

/// A `busy` session status means the session is processing and an `idle`
/// one that it is idle, on the status stream of the session (the
/// workspace's when the status names none).
pub proof fn law_status_states(ws: Seq<char>, sp: SessionStatusProps)
    ensures
        (sp.status matches Some(st) && st.status_type matches Some(t) && t@ == "busy"@) ==> (status_event(ws, sp)
            matches Some(ev) && ev.payload == PayloadView::Status { state: AgentProcessingState::Processing, detail: None }
            && ev.stream_id == "status_"@ + match sp.session_id {
            Some(s) => s@,
            None => ws,
        }),
        (sp.status matches Some(st) && st.status_type matches Some(t) && t@ == "idle"@) ==> (status_event(ws, sp)
            matches Some(ev) && ev.payload == PayloadView::Status { state: AgentProcessingState::Idle, detail: None }),
{
    reveal_strlit("busy");
    reveal_strlit("idle");
    match sp.status {
        Some(st) => match st.status_type {
            Some(t) => if t@ == "idle"@ {
                assert(t@ != "busy"@) by {
                    assert(t@[0] == 'i');
                }
            },
            None => {},
        },
        None => {},
    }
}

} // verus!
