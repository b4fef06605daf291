//! SDK messages of the `claude_code` harness to unified stream events.
//!
//! The stream of an assistant response is `stream_<message uuid>`; its events
//! carry consecutive sequence numbers per session, across messages that share
//! the uuid. A tool result is reported as completed once per session and
//! tool-use id.
//!
//! SDK messages arrive as JSON; the caller parses them into the types below
//! (JSON values that the adapter only passes on are kept as JSON text).
use vstd::prelude::*;
use crate::stream::{
    prefixed, seq_after, wrap_add, lemma_wrap_add_step, AgentProcessingState, CompletionReason,
    EventView, PayloadView, StreamErrorCode, StreamEvent, StreamEventPayload, StreamEventType,
    StreamTable, TokenUsage, ToolCallStatus, events_view,
};
use crate::text::{string_of_str, str_eq};

verus! {

/// The content of a tool result: text, or the JSON text of another value.
#[derive(Debug, Clone)]
pub enum ToolResultContent {
    Text(String),
    Json(String),
}

/// A content block of a model response.
#[derive(Debug, Clone)]
pub enum ContentBlock {
    /// Text response.
    Text { text: String },
    /// Extended thinking.
    Thinking { thinking: String },
    /// Tool invocation request; `input` is JSON text.
    ToolUse { id: String, name: String, input: String },
    /// Tool execution result.
    ToolResult { tool_use_id: String, content: ToolResultContent, is_error: bool },
}

/// Message content wrapper.
#[derive(Debug, Clone)]
pub struct SdkMessageContent {
    pub role: String,
    pub content: Vec<ContentBlock>,
}

/// An assistant message with content blocks.
#[derive(Debug, Clone)]
pub struct SdkAssistantMessage {
    pub uuid: String,
    pub session_id: String,
    pub message: SdkMessageContent,
    pub parent_tool_use_id: Option<String>,
}

/// Token usage of an SDK result.
#[derive(Debug, Clone, Copy)]
pub struct SdkUsage {
    pub input_tokens: u64,
    pub output_tokens: u64,
    pub cache_creation_input_tokens: u64,
    pub cache_read_input_tokens: u64,
}

/// Final result message. (Its cost in USD is not read by the adapter and is
/// not held here.)
#[derive(Debug, Clone)]
pub struct SdkResultMessage {
    pub subtype: String,
    pub session_id: String,
    pub duration_ms: u64,
    pub is_error: bool,
    pub num_turns: u32,
    pub result: Option<String>,
    pub usage: Option<SdkUsage>,
}

/// Partial assistant message while streaming.
#[derive(Debug, Clone)]
pub struct SdkPartialAssistantMessage {
    pub uuid: String,
    pub session_id: String,
    pub message: SdkMessageContent,
}

/// Raw stream event of the provider API; `event` is JSON text.
#[derive(Debug, Clone)]
pub struct SdkStreamEvent {
    pub event: String,
}

/// User message.
#[derive(Debug, Clone)]
pub struct SdkUserMessage {
    pub uuid: String,
    pub session_id: String,
}

/// System message.
#[derive(Debug, Clone)]
pub struct SdkSystemMessage {
    pub session_id: Option<String>,
}

/// An SDK message.
#[derive(Debug, Clone)]
pub enum SdkMessage {
    Assistant(SdkAssistantMessage),
    Result(SdkResultMessage),
    PartialAssistant(SdkPartialAssistantMessage),
    StreamEvent(SdkStreamEvent),
    User(SdkUserMessage),
    System(SdkSystemMessage),
}

/// The harness name on `claude_code` events.
pub open spec fn claude_harness() -> Seq<char> {
    "claude_code"@
}

/// The output text of a tool result.
pub open spec fn result_text(c: ToolResultContent) -> Seq<char> {
    match c {
        ToolResultContent::Text(s) => s@,
        ToolResultContent::Json(s) => s@,
    }
}

/// The event of a content block of message `uuid` in session `sid`.
pub open spec fn block_event(sid: Seq<char>, uuid: Seq<char>, b: ContentBlock, seq: u64) -> EventView {
    let (ty, payload) = match b {
        ContentBlock::Text { text } => (
            StreamEventType::TextDelta,
            PayloadView::TextDelta { text: text@, role: "assistant"@ },
        ),
        ContentBlock::Thinking { thinking } => (
            StreamEventType::ThinkingDelta,
            PayloadView::ThinkingDelta { text: thinking@ },
        ),
        ContentBlock::ToolUse { id, name, input } => (
            StreamEventType::ToolCallDelta,
            PayloadView::ToolCallDelta { call_id: id@, tool_name: name@, arguments_delta: input@ },
        ),
        ContentBlock::ToolResult { tool_use_id, content, is_error } => (
            StreamEventType::ToolCallCompleted,
            PayloadView::ToolCallCompleted {
                call_id: tool_use_id@,
                tool_name: Seq::<char>::empty(),
                arguments: "null"@,
                output: result_text(content),
                status: if is_error { ToolCallStatus::Failed } else { ToolCallStatus::Completed },
                error_message: if is_error { Some("Tool execution failed"@) } else { None },
            },
        ),
    };
    EventView {
        session_id: sid,
        harness: claude_harness(),
        stream_id: "stream_"@ + uuid,
        seq,
        event_type: ty,
        message_id: Some(uuid),
        payload,
    }
}

/// Whether block `k` is a tool result of this id.
pub open spec fn is_result_of(blocks: Seq<ContentBlock>, k: int, id: Seq<char>) -> bool {
    blocks[k] matches ContentBlock::ToolResult { tool_use_id, .. } && tool_use_id@ == id
}

/// Whether a block before `k` is a tool result of this id.
pub open spec fn earlier_result(blocks: Seq<ContentBlock>, k: int, id: Seq<char>) -> bool {
    exists|j: int| 0 <= j < k && #[trigger] is_result_of(blocks, j, id)
}

/// Whether block `k` yields no event: a tool result in a partial message,
/// or a tool result already reported in the session (before this message or
/// earlier in it).
pub open spec fn block_skipped(
    table: StreamTable,
    sid: Seq<char>,
    blocks: Seq<ContentBlock>,
    k: int,
    partial: bool,
) -> bool {
    match blocks[k] {
        ContentBlock::ToolResult { tool_use_id, .. } => partial || table.is_completed(sid, tool_use_id@)
            || earlier_result(blocks, k, tool_use_id@),
        _ => false,
    }
}

/// The events of the first `n` blocks of a message: block `k` has sequence
/// number `start + k` (wrapping) and skipped blocks yield nothing.
pub open spec fn block_events(
    table: StreamTable,
    sid: Seq<char>,
    uuid: Seq<char>,
    blocks: Seq<ContentBlock>,
    n: nat,
    start: u64,
    partial: bool,
) -> Seq<EventView>
    decreases n,
{
    if n == 0 {
        Seq::empty()
    } else {
        let prev = block_events(table, sid, uuid, blocks, (n - 1) as nat, start, partial);
        if block_skipped(table, sid, blocks, n - 1, partial) {
            prev
        } else {
            prev.push(block_event(sid, uuid, blocks[n - 1], wrap_add(start, (n - 1) as nat)))
        }
    }
}

/// The completion reason of a result subtype.
pub open spec fn reason_of(subtype: Seq<char>) -> CompletionReason {
    if subtype == "success"@ {
        CompletionReason::Stop
    } else if subtype == "error_max_turns"@ {
        CompletionReason::Length
    } else if subtype == "error_during_execution"@ {
        CompletionReason::ToolError
    } else if subtype == "error_max_budget_usd"@ {
        CompletionReason::Length
    } else {
        CompletionReason::Stop
    }
}

/// The token usage reported for a result (zero when absent).
pub open spec fn usage_of(u: Option<SdkUsage>) -> TokenUsage {
    match u {
        Some(u) => TokenUsage { input_tokens: u.input_tokens, output_tokens: u.output_tokens, reasoning_tokens: None },
        None => TokenUsage { input_tokens: 0, output_tokens: 0, reasoning_tokens: None },
    }
}

/// The events of a result message: a completion event on stream
/// `result_<session>`, preceded, when the result is an error, by an error
/// event on stream `error_<session>`.
pub open spec fn result_events(msg: SdkResultMessage) -> Seq<EventView> {
    let sid = msg.session_id@;
    let completed = EventView {
        session_id: sid,
        harness: claude_harness(),
        stream_id: "result_"@ + sid,
        seq: 0,
        event_type: StreamEventType::Completed,
        message_id: None,
        payload: PayloadView::Completed { reason: reason_of(msg.subtype@), usage: usage_of(msg.usage) },
    };
    if msg.is_error {
        let err = EventView {
            session_id: sid,
            harness: claude_harness(),
            stream_id: "error_"@ + sid,
            seq: 0,
            event_type: StreamEventType::Error,
            message_id: None,
            payload: PayloadView::Error {
                code: StreamErrorCode::ProviderError,
                message: match msg.result {
                    Some(r) => r@,
                    None => "Unknown error"@,
                },
                recoverable: true,
                details: None,
            },
        };
        seq![err, completed]
    } else {
        seq![completed]
    }
}

/// Adapter of the `claude_code` harness: the ordering state of every session.
pub struct ClaudeCodeAdapter {
    table: StreamTable,
}

impl ClaudeCodeAdapter {
    /// The ordering state.
    pub closed spec fn table(&self) -> StreamTable {
        self.table
    }

    /// The adapter's well-formedness.
    pub closed spec fn wf(&self) -> bool {
        self.table.wf()
    }

    /// The next sequence number of the stream of a message in a session.
    pub closed spec fn next_seq_of(&self, session_id: Seq<char>, message_uuid: Seq<char>) -> u64 {
        self.table.next_seq_of(session_id, message_uuid)
    }

    /// Whether a tool result was reported in a session.
    pub closed spec fn tool_reported(&self, session_id: Seq<char>, tool_use_id: Seq<char>) -> bool {
        self.table.is_completed(session_id, tool_use_id)
    }

    /// An adapter with no streams and no reported tools.
    pub fn new() -> (r: ClaudeCodeAdapter)
        ensures
            r.wf(),
            forall|s: Seq<char>, m: Seq<char>| r.next_seq_of(s, m) == 0,
            forall|s: Seq<char>, t: Seq<char>| !r.tool_reported(s, t),
            forall|s: Seq<char>, t: Seq<char>| #[trigger] r.tool_reported(s, t) == r.table().is_completed(s, t),
    {
        ClaudeCodeAdapter { table: StreamTable::new() }
    }

    /// The event of one content block.
    fn make_block_event(sid: &String, uuid: &String, block: &ContentBlock, seq: u64) -> (r: StreamEvent)
        ensures
            r@ == block_event(sid@, uuid@, *block, seq),
    {
        let stream_id = prefixed("stream_", uuid);
        let (ty, payload) = match block {
            ContentBlock::Text { text } => (
                StreamEventType::TextDelta,
                StreamEventPayload::TextDelta { text: text.clone(), role: string_of_str("assistant") },
            ),
            ContentBlock::Thinking { thinking } => (
                StreamEventType::ThinkingDelta,
                StreamEventPayload::ThinkingDelta { text: thinking.clone() },
            ),
            ContentBlock::ToolUse { id, name, input } => (
                StreamEventType::ToolCallDelta,
                StreamEventPayload::ToolCallDelta {
                    call_id: id.clone(),
                    tool_name: name.clone(),
                    arguments_delta: input.clone(),
                },
            ),
            ContentBlock::ToolResult { tool_use_id, content, is_error } => {
                let output = match content {
                    ToolResultContent::Text(s) => s.clone(),
                    ToolResultContent::Json(s) => s.clone(),
                };
                let status = if *is_error { ToolCallStatus::Failed } else { ToolCallStatus::Completed };
                let error_message = if *is_error { Some(string_of_str("Tool execution failed")) } else { None };
                (
                    StreamEventType::ToolCallCompleted,
                    StreamEventPayload::ToolCallCompleted {
                        call_id: tool_use_id.clone(),
                        tool_name: String::new(),
                        arguments: string_of_str("null"),
                        output,
                        status,
                        error_message,
                    },
                )
            },
        };
        StreamEvent::new(sid.clone(), string_of_str("claude_code"), stream_id, seq, ty, payload).with_message_id(
            uuid.clone(),
        )
    }

    /// The events of the content blocks of an assistant (or partial) message.
    fn adapt_blocks(&mut self, sid: &String, uuid: &String, blocks: &Vec<ContentBlock>, partial: bool) -> (r: Option<Vec<StreamEvent>>)
        requires
            old(self).wf(),
        ensures
            final(self).wf(),
            ({
                let evs = block_events(old(self).table(), sid@, uuid@, blocks@, blocks@.len(), old(self).next_seq_of(sid@, uuid@), partial);
                &&& (r is None <==> evs.len() == 0)
                &&& (r matches Some(v) ==> events_view(v@) == evs)
            }),
            final(self).next_seq_of(sid@, uuid@) == wrap_add(old(self).next_seq_of(sid@, uuid@), blocks@.len()),
            forall|s: Seq<char>, m: Seq<char>| !(s == sid@ && m == uuid@) ==>
                #[trigger] final(self).next_seq_of(s, m) == old(self).next_seq_of(s, m),
            forall|s: Seq<char>, t: Seq<char>| #[trigger] final(self).tool_reported(s, t) == (old(self).tool_reported(s, t)
                || (s == sid@ && !partial && exists|j: int| 0 <= j < blocks@.len() && #[trigger] is_result_of(blocks@, j, t))),
    {
        let ghost t0 = self.table;
        let ghost start = self.table.next_seq_of(sid@, uuid@);
        let mut events: Vec<StreamEvent> = Vec::new();
        let mut k: usize = 0;
        proof {
            lemma_wrap_add_step(start, 0);
        }
        while k < blocks.len()
            invariant
                k <= blocks@.len(),
                self.table.wf(),
                self.table.next_seq_of(sid@, uuid@) == wrap_add(start, k as nat),
                forall|s: Seq<char>, m: Seq<char>| !(s == sid@ && m == uuid@) ==>
                    #[trigger] self.table.next_seq_of(s, m) == t0.next_seq_of(s, m),
                forall|s: Seq<char>, t: Seq<char>| #[trigger] self.table.is_completed(s, t) == (t0.is_completed(s, t)
                    || (s == sid@ && !partial && exists|j: int| 0 <= j < k && #[trigger] is_result_of(blocks@, j, t))),
                events_view(events@) == block_events(t0, sid@, uuid@, blocks@, k as nat, start, partial),
            decreases blocks.len() - k,
        {
            let ghost before = self.table;
            let seq = self.table.next_seq(sid, uuid);
            proof {
                lemma_wrap_add_step(start, k as nat);
            }
            let block = &blocks[k];
            let emit = match block {
                ContentBlock::ToolResult { tool_use_id, .. } => {
                    if partial {
                        false
                    } else {
                        let fresh = self.table.mark_tool_completed(sid, tool_use_id);
                        proof {
                            if before.is_completed(sid@, tool_use_id@) {
                                if !t0.is_completed(sid@, tool_use_id@) {
                                    let j = choose|j: int| 0 <= j < k && #[trigger] is_result_of(blocks@, j, tool_use_id@);
                                    assert(earlier_result(blocks@, k as int, tool_use_id@));
                                }
                            } else {
                                if earlier_result(blocks@, k as int, tool_use_id@) {
                                    let j = choose|j: int| 0 <= j < k && #[trigger] is_result_of(blocks@, j, tool_use_id@);
                                    assert(is_result_of(blocks@, j, tool_use_id@));
                                }
                            }
                        }
                        fresh
                    }
                },
                _ => true,
            };
            proof {
                assert(emit == !block_skipped(t0, sid@, blocks@, k as int, partial));
            }
            if emit {
                let ev = Self::make_block_event(sid, uuid, block, seq);
                let ghost old_events = events@;
                events.push(ev);
                assert(events_view(events@) =~= events_view(old_events).push(ev@));
            }
            proof {
                assert forall|s: Seq<char>, t: Seq<char>| #[trigger] self.table.is_completed(s, t) == (t0.is_completed(s, t)
                    || (s == sid@ && !partial && exists|j: int| 0 <= j < k + 1 && #[trigger] is_result_of(blocks@, j, t))) by {
                    if s == sid@ && !partial && is_result_of(blocks@, k as int, t) {
                        assert(block matches ContentBlock::ToolResult { .. });
                    }
                    if exists|j: int| 0 <= j < k + 1 && #[trigger] is_result_of(blocks@, j, t) {
                        let j = choose|j: int| 0 <= j < k + 1 && #[trigger] is_result_of(blocks@, j, t);
                        if j < k {
                            assert(exists|j: int| 0 <= j < k && #[trigger] is_result_of(blocks@, j, t));
                        }
                    }
                }
            }
            k = k + 1;
        }
        if events.len() == 0 {
            None
        } else {
            Some(events)
        }
    }

    /// The events of a result message.
    fn adapt_result_message(msg: &SdkResultMessage) -> (r: Vec<StreamEvent>)
        ensures
            events_view(r@) == result_events(*msg),
    {
        let sid = &msg.session_id;
        let st = msg.subtype.as_str();
        let reason = if str_eq(st, "success") {
            CompletionReason::Stop
        } else if str_eq(st, "error_max_turns") {
            CompletionReason::Length
        } else if str_eq(st, "error_during_execution") {
            CompletionReason::ToolError
        } else if str_eq(st, "error_max_budget_usd") {
            CompletionReason::Length
        } else {
            CompletionReason::Stop
        };
        let usage = match &msg.usage {
            Some(u) => TokenUsage { input_tokens: u.input_tokens, output_tokens: u.output_tokens, reasoning_tokens: None },
            None => TokenUsage { input_tokens: 0, output_tokens: 0, reasoning_tokens: None },
        };
        let completed = StreamEvent::new(
            sid.clone(),
            string_of_str("claude_code"),
            prefixed("result_", sid),
            0,
            StreamEventType::Completed,
            StreamEventPayload::Completed { reason, usage },
        );
        let mut out: Vec<StreamEvent> = Vec::new();
        if msg.is_error {
            let message = match &msg.result {
                Some(r) => r.clone(),
                None => string_of_str("Unknown error"),
            };
            let err = StreamEvent::new(
                sid.clone(),
                string_of_str("claude_code"),
                prefixed("error_", sid),
                0,
                StreamEventType::Error,
                StreamEventPayload::Error { code: StreamErrorCode::ProviderError, message, recoverable: true, details: None },
            );
            out.push(err);
        }
        out.push(completed);
        assert(events_view(out@) =~= result_events(*msg));
        out
    }

    /// Adapt an SDK message of the `claude_code` harness to stream events; `None` when the
    /// message yields none (user, system and raw stream messages yield none).
    pub fn adapt(&mut self, message: &SdkMessage) -> (r: Option<Vec<StreamEvent>>)
        requires
            old(self).wf(),
        ensures
            final(self).wf(),
            forall|s: Seq<char>, t: Seq<char>| #[trigger] final(self).tool_reported(s, t) == final(self).table().is_completed(s, t),
            match *message {
                SdkMessage::Assistant(m) => {
                    let evs = block_events(old(self).table(), m.session_id@, m.uuid@, m.message.content@,
                        m.message.content@.len(), old(self).next_seq_of(m.session_id@, m.uuid@), false);
                    &&& (r is None <==> evs.len() == 0)
                    &&& (r matches Some(v) ==> events_view(v@) == evs)
                    &&& final(self).next_seq_of(m.session_id@, m.uuid@) == wrap_add(old(self).next_seq_of(m.session_id@, m.uuid@), m.message.content@.len())
                    &&& forall|s: Seq<char>, u: Seq<char>| !(s == m.session_id@ && u == m.uuid@) ==>
                        #[trigger] final(self).next_seq_of(s, u) == old(self).next_seq_of(s, u)
                    &&& forall|s: Seq<char>, t: Seq<char>| #[trigger] final(self).tool_reported(s, t) == (old(self).tool_reported(s, t)
                        || (s == m.session_id@ && exists|j: int| 0 <= j < m.message.content@.len() && #[trigger] is_result_of(m.message.content@, j, t)))
                },
                SdkMessage::PartialAssistant(m) => {
                    let evs = block_events(old(self).table(), m.session_id@, m.uuid@, m.message.content@,
                        m.message.content@.len(), old(self).next_seq_of(m.session_id@, m.uuid@), true);
                    &&& (r is None <==> evs.len() == 0)
                    &&& (r matches Some(v) ==> events_view(v@) == evs)
                    &&& final(self).next_seq_of(m.session_id@, m.uuid@) == wrap_add(old(self).next_seq_of(m.session_id@, m.uuid@), m.message.content@.len())
                    &&& forall|s: Seq<char>, u: Seq<char>| !(s == m.session_id@ && u == m.uuid@) ==>
                        #[trigger] final(self).next_seq_of(s, u) == old(self).next_seq_of(s, u)
                    &&& forall|s: Seq<char>, t: Seq<char>| #[trigger] final(self).tool_reported(s, t) == old(self).tool_reported(s, t)
                },
                SdkMessage::Result(m) => {
                    &&& r matches Some(v) && events_view(v@) == result_events(m)
                    &&& *final(self) == *old(self)
                },
                _ => r is None && *final(self) == *old(self),
            },
    {
        match message {
            SdkMessage::Assistant(m) => self.adapt_blocks(&m.session_id, &m.uuid, &m.message.content, false),
            SdkMessage::PartialAssistant(m) => self.adapt_blocks(&m.session_id, &m.uuid, &m.message.content, true),
            SdkMessage::Result(m) => Some(Self::adapt_result_message(m)),
            _ => None,
        }
    }

    /// A status event for a session state change, on stream
    /// `status_<session>`.
    pub fn emit_status(&self, session_id: &str, state: AgentProcessingState) -> (r: StreamEvent)
        ensures
            r@ == (EventView {
                session_id: session_id@,
                harness: claude_harness(),
                stream_id: "status_"@ + session_id@,
                seq: 0,
                event_type: StreamEventType::Status,
                message_id: None,
                payload: PayloadView::Status { state, detail: None },
            }),
    {
        let sid = string_of_str(session_id);
        let stream_id = prefixed("status_", &sid);
        StreamEvent::new(
            sid,
            string_of_str("claude_code"),
            stream_id,
            0,
            StreamEventType::Status,
            StreamEventPayload::Status { state, detail: None },
        )
    }
}

/// Within a message, block `k` of an assistant message gets sequence number
/// `start + k`: the events of a message carry consecutive sequence numbers
/// in block order, skipping the numbers of blocks that yield no event.
pub proof fn law_block_seqs_consecutive(
    table: StreamTable,
    sid: Seq<char>,
    uuid: Seq<char>,
    blocks: Seq<ContentBlock>,
    n: nat,
    start: u64,
    partial: bool,
)
    requires
        n <= blocks.len(),
    ensures
        forall|i: int| 0 <= i < block_events(table, sid, uuid, blocks, n, start, partial).len() ==>
            exists|k: int| 0 <= k < n && !block_skipped(table, sid, blocks, k, partial)
                && (#[trigger] block_events(table, sid, uuid, blocks, n, start, partial)[i]) == block_event(sid, uuid, blocks[k], wrap_add(start, k as nat)),
    decreases n,
{
    if n > 0 {
        law_block_seqs_consecutive(table, sid, uuid, blocks, (n - 1) as nat, start, partial);
        let prev = block_events(table, sid, uuid, blocks, (n - 1) as nat, start, partial);
        let cur = block_events(table, sid, uuid, blocks, n, start, partial);
        assert forall|i: int| 0 <= i < cur.len() implies
            exists|k: int| 0 <= k < n && !block_skipped(table, sid, blocks, k, partial)
                && (#[trigger] cur[i]) == block_event(sid, uuid, blocks[k], wrap_add(start, k as nat)) by {
            if i < prev.len() {
                assert(cur[i] == prev[i]);
                let k = choose|k: int| 0 <= k < n - 1 && !block_skipped(table, sid, blocks, k, partial)
                    && prev[i] == block_event(sid, uuid, blocks[k], wrap_add(start, k as nat));
                assert(0 <= k < n);
            } else {
                assert(!block_skipped(table, sid, blocks, n - 1, partial));
            }
        }
    }
}

/// A tool result is reported as completed at most once per session: once
/// reported, a later result of the same tool use in the session yields no
/// event.
pub proof fn law_tool_result_reported_once(
    table: StreamTable,
    sid: Seq<char>,
    blocks: Seq<ContentBlock>,
    k: int,
    partial: bool,
)
    requires
        0 <= k < blocks.len(),
        blocks[k] matches ContentBlock::ToolResult { tool_use_id, .. } && table.is_completed(sid, tool_use_id@),
    ensures
        block_skipped(table, sid, blocks, k, partial),
{
}

/// Across calls of `adapt`: once an adapter has reported a tool result in a
/// session, a later result of the same tool use in that session, in any
/// message, yields no event.
pub proof fn law_adapter_reports_tool_once(
    adapter: ClaudeCodeAdapter,
    sid: Seq<char>,
    blocks: Seq<ContentBlock>,
    k: int,
    partial: bool,
)
    requires
        0 <= k < blocks.len(),
        blocks[k] matches ContentBlock::ToolResult { tool_use_id, .. } && adapter.tool_reported(sid, tool_use_id@),
    ensures
        block_skipped(adapter.table(), sid, blocks, k, partial),
{
}

/// A result message ends with one completion event of its session that
/// reports the SDK's token counts as they are (input as input, output as
/// output; zero when the SDK gave none) and the reason its subtype names;
/// an error result is preceded by one error event carrying the result text.
pub proof fn law_result_events_report_usage(msg: SdkResultMessage)
    ensures
        result_events(msg).len() == if msg.is_error { 2int } else { 1int },
        result_events(msg).last().event_type == StreamEventType::Completed,
        result_events(msg).last().session_id == msg.session_id@,
        result_events(msg).last().payload is Completed,
        result_events(msg).last().payload->Completed_usage.input_tokens == match msg.usage {
            Some(u) => u.input_tokens,
            None => 0u64,
        },
        result_events(msg).last().payload->Completed_usage.output_tokens == match msg.usage {
            Some(u) => u.output_tokens,
            None => 0u64,
        },
        result_events(msg).last().payload->Completed_usage.reasoning_tokens is None,
        msg.subtype@ == "success"@ ==> result_events(msg).last().payload->Completed_reason == CompletionReason::Stop,
        msg.subtype@ == "error_during_execution"@ ==> result_events(msg).last().payload->Completed_reason
            == CompletionReason::ToolError,
        msg.is_error ==> result_events(msg)[0].event_type == StreamEventType::Error,
        msg.is_error ==> (result_events(msg)[0].payload matches PayloadView::Error { message, .. } && message
            == match msg.result {
            Some(t) => t@,
            None => "Unknown error"@,
        }),
{
    reveal_strlit("success");
    reveal_strlit("error_max_turns");
    reveal_strlit("error_during_execution");
    if msg.subtype@ == "error_during_execution"@ {
        assert(msg.subtype@.len() == 22);
        assert(msg.subtype@ != "success"@);
        assert(msg.subtype@ != "error_max_turns"@);
    }
}

/// Each content block becomes an event of its message's stream with the
/// block's own values in place: text and thinking as deltas, a tool use as
/// a tool-call delta with its id, name and input, and a tool result as a
/// completion of that tool call with its content as output, `Failed` (with
/// an error message) exactly when the result is an error.
pub proof fn law_block_event_fields(sid: Seq<char>, uuid: Seq<char>, b: ContentBlock, seq: u64)
    ensures
        block_event(sid, uuid, b, seq).session_id == sid,
        block_event(sid, uuid, b, seq).seq == seq,
        block_event(sid, uuid, b, seq).message_id == Some(uuid),
        b matches ContentBlock::Text { text } ==> block_event(sid, uuid, b, seq).payload == (PayloadView::TextDelta {
            text: text@,
            role: "assistant"@,
        }),
        b matches ContentBlock::Thinking { thinking } ==> block_event(sid, uuid, b, seq).payload == (
        PayloadView::ThinkingDelta { text: thinking@ }),
        b matches ContentBlock::ToolUse { id, name, input } ==> block_event(sid, uuid, b, seq).payload == (
        PayloadView::ToolCallDelta { call_id: id@, tool_name: name@, arguments_delta: input@ }),
        b is ToolResult ==> block_event(sid, uuid, b, seq).event_type == StreamEventType::ToolCallCompleted,
        b matches ContentBlock::ToolResult { tool_use_id, .. } ==> block_event(sid, uuid, b, seq).payload
            ->ToolCallCompleted_call_id == tool_use_id@,
        b matches ContentBlock::ToolResult { content: ToolResultContent::Text(t), .. } ==> block_event(
            sid,
            uuid,
            b,
            seq,
        ).payload->ToolCallCompleted_output == t@,
        b matches ContentBlock::ToolResult { is_error, .. } ==> ((block_event(sid, uuid, b, seq).payload
            ->ToolCallCompleted_status == ToolCallStatus::Failed) == is_error),
        b matches ContentBlock::ToolResult { is_error, .. } ==> (block_event(sid, uuid, b, seq).payload
            ->ToolCallCompleted_error_message is Some) == is_error,
{
}

} // verus!
