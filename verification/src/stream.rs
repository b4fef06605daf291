//! The unified stream-event schema that harness adapters emit, and the
//! ordering state they keep: a sequence counter per (scope, stream) and the
//! set of tool calls already reported as completed per scope.
use vstd::prelude::*;
use crate::text::concat2;

verus! {

/// Kind of a stream event.
#[derive(Debug, Clone, Copy, PartialEq, Eq, Structural)]
pub enum StreamEventType {
    TextDelta,
    ThinkingDelta,
    ToolCallDelta,
    ToolCallCompleted,
    Completed,
    Error,
    Status,
}

/// Outcome of a tool call.
#[derive(Debug, Clone, Copy, PartialEq, Eq, Structural)]
pub enum ToolCallStatus {
    Completed,
    Failed,
}

/// Why a response completed.
#[derive(Debug, Clone, Copy, PartialEq, Eq, Structural)]
pub enum CompletionReason {
    Stop,
    Length,
    ToolError,
}

/// Error codes of stream errors.
#[derive(Debug, Clone, Copy, PartialEq, Eq, Structural)]
pub enum StreamErrorCode {
    ProviderError,
}

/// Whether the agent is processing.
#[derive(Debug, Clone, Copy, PartialEq, Eq, Structural)]
pub enum AgentProcessingState {
    Idle,
    Processing,
}

/// Token usage of a response.
#[derive(Debug, Clone, Copy, PartialEq, Eq, Structural)]
pub struct TokenUsage {
    pub input_tokens: u64,
    pub output_tokens: u64,
    pub reasoning_tokens: Option<u64>,
}

/// The payload of a stream event. `arguments` holds JSON text.
#[derive(Debug, Clone)]
pub enum StreamEventPayload {
    TextDelta { text: String, role: String },
    ThinkingDelta { text: String },
    ToolCallDelta { call_id: String, tool_name: String, arguments_delta: String },
    ToolCallCompleted {
        call_id: String,
        tool_name: String,
        arguments: String,
        output: String,
        status: ToolCallStatus,
        error_message: Option<String>,
    },
    Completed { reason: CompletionReason, usage: TokenUsage },
    Error { code: StreamErrorCode, message: String, recoverable: bool, details: Option<String> },
    Status { state: AgentProcessingState, detail: Option<String> },
}

/// A stream payload as plain values.
pub enum PayloadView {
    TextDelta { text: Seq<char>, role: Seq<char> },
    ThinkingDelta { text: Seq<char> },
    ToolCallDelta { call_id: Seq<char>, tool_name: Seq<char>, arguments_delta: Seq<char> },
    ToolCallCompleted {
        call_id: Seq<char>,
        tool_name: Seq<char>,
        arguments: Seq<char>,
        output: Seq<char>,
        status: ToolCallStatus,
        error_message: Option<Seq<char>>,
    },
    Completed { reason: CompletionReason, usage: TokenUsage },
    Error { code: StreamErrorCode, message: Seq<char>, recoverable: bool, details: Option<Seq<char>> },
    Status { state: AgentProcessingState, detail: Option<Seq<char>> },
}

/// The view of an optional string.
pub open spec fn opt_view(o: Option<String>) -> Option<Seq<char>> {
    match o {
        Some(s) => Some(s@),
        None => None,
    }
}

impl View for StreamEventPayload {
    type V = PayloadView;

    open spec fn view(&self) -> PayloadView {
        match self {
            StreamEventPayload::TextDelta { text, role } => PayloadView::TextDelta { text: text@, role: role@ },
            StreamEventPayload::ThinkingDelta { text } => PayloadView::ThinkingDelta { text: text@ },
            StreamEventPayload::ToolCallDelta { call_id, tool_name, arguments_delta } => PayloadView::ToolCallDelta {
                call_id: call_id@,
                tool_name: tool_name@,
                arguments_delta: arguments_delta@,
            },
            StreamEventPayload::ToolCallCompleted { call_id, tool_name, arguments, output, status, error_message } =>
                PayloadView::ToolCallCompleted {
                    call_id: call_id@,
                    tool_name: tool_name@,
                    arguments: arguments@,
                    output: output@,
                    status: *status,
                    error_message: opt_view(*error_message),
                },
            StreamEventPayload::Completed { reason, usage } => PayloadView::Completed { reason: *reason, usage: *usage },
            StreamEventPayload::Error { code, message, recoverable, details } => PayloadView::Error {
                code: *code,
                message: message@,
                recoverable: *recoverable,
                details: opt_view(*details),
            },
            StreamEventPayload::Status { state, detail } => PayloadView::Status { state: *state, detail: opt_view(*detail) },
        }
    }
}

/// One event of the unified stream.
#[derive(Debug, Clone)]
pub struct StreamEvent {
    pub session_id: String,
    pub harness: String,
    pub stream_id: String,
    pub seq: u64,
    pub event_type: StreamEventType,
    pub message_id: Option<String>,
    pub payload: StreamEventPayload,
}

/// A stream event as plain values.
pub struct EventView {
    pub session_id: Seq<char>,
    pub harness: Seq<char>,
    pub stream_id: Seq<char>,
    pub seq: u64,
    pub event_type: StreamEventType,
    pub message_id: Option<Seq<char>>,
    pub payload: PayloadView,
}

impl View for StreamEvent {
    type V = EventView;

    open spec fn view(&self) -> EventView {
        EventView {
            session_id: self.session_id@,
            harness: self.harness@,
            stream_id: self.stream_id@,
            seq: self.seq,
            event_type: self.event_type,
            message_id: opt_view(self.message_id),
            payload: self.payload@,
        }
    }
}

/// The views of a list of events.
pub open spec fn events_view(v: Seq<StreamEvent>) -> Seq<EventView> {
    v.map_values(|e: StreamEvent| e@)
}

impl StreamEvent {
    /// A new event, without a message id.
    pub fn new(
        session_id: String,
        harness: String,
        stream_id: String,
        seq: u64,
        event_type: StreamEventType,
        payload: StreamEventPayload,
    ) -> (r: StreamEvent)
        ensures
            r.session_id == session_id && r.harness == harness && r.stream_id == stream_id,
            r.seq == seq && r.event_type == event_type && r.message_id is None && r.payload == payload,
    {
        StreamEvent { session_id, harness, stream_id, seq, event_type, message_id: None, payload }
    }

    /// This event with a message id.
    pub fn with_message_id(self, message_id: String) -> (r: StreamEvent)
        ensures
            r.session_id == self.session_id && r.harness == self.harness && r.stream_id == self.stream_id,
            r.seq == self.seq && r.event_type == self.event_type && r.payload == self.payload,
            r.message_id == Some(message_id),
    {
        StreamEvent { message_id: Some(message_id), ..self }
    }
}

/// The id of the stream of a message: `stream_<message id>`.
pub open spec fn stream_id_of(message_id: Seq<char>) -> Seq<char> {
    "stream_"@ + message_id
}

/// One sequence counter: the next `seq` of a stream of a scope.
#[derive(Debug)]
pub struct SeqCounter {
    pub scope: String,
    pub stream: String,
    pub next: u64,
}

/// One completed tool call of a scope.
#[derive(Debug)]
pub struct CompletedTool {
    pub scope: String,
    pub call_id: String,
}

/// Ordering state of an adapter: per (scope, stream) the next sequence
/// number, and per scope the tool calls already reported as completed.
/// A scope is a session (`claude_code`) or a workspace (`open_code`).
#[derive(Debug)]
pub struct StreamTable {
    counters: Vec<SeqCounter>,
    completed: Vec<CompletedTool>,
}

/// The next sequence number after `v`: `v + 1`, wrapping at `u64::MAX` as an
/// atomic `fetch_add` does.
pub open spec fn seq_after(v: u64) -> u64 {
    if v == u64::MAX { 0 } else { (v + 1) as u64 }
}

impl StreamTable {
    /// Counters are listed once per (scope, stream), completed calls once
    /// per (scope, call).
    pub closed spec fn wf(&self) -> bool {
        &&& forall|i: int, j: int| 0 <= i < j < self.counters@.len() ==>
            (#[trigger] self.counters@[i]).scope@ != (#[trigger] self.counters@[j]).scope@
            || self.counters@[i].stream@ != self.counters@[j].stream@
        &&& forall|i: int, j: int| 0 <= i < j < self.completed@.len() ==>
            (#[trigger] self.completed@[i]).scope@ != (#[trigger] self.completed@[j]).scope@
            || self.completed@[i].call_id@ != self.completed@[j].call_id@
    }

    /// Whether a counter for this stream of this scope exists.
    pub closed spec fn has_counter(&self, scope: Seq<char>, stream: Seq<char>) -> bool {
        exists|i: int| 0 <= i < self.counters@.len() && (#[trigger] self.counters@[i]).scope@ == scope
            && self.counters@[i].stream@ == stream
    }

    /// The next sequence number of a stream of a scope: 0 for a new stream.
    pub closed spec fn next_seq_of(&self, scope: Seq<char>, stream: Seq<char>) -> u64 {
        if self.has_counter(scope, stream) {
            let i = choose|i: int| 0 <= i < self.counters@.len() && (#[trigger] self.counters@[i]).scope@ == scope
                && self.counters@[i].stream@ == stream;
            self.counters@[i].next
        } else {
            0
        }
    }

    /// Whether the tool call was reported as completed in the scope.
    pub closed spec fn is_completed(&self, scope: Seq<char>, call_id: Seq<char>) -> bool {
        exists|i: int| 0 <= i < self.completed@.len() && (#[trigger] self.completed@[i]).scope@ == scope
            && self.completed@[i].call_id@ == call_id
    }

    /// An empty table.
    pub fn new() -> (r: StreamTable)
        ensures
            r.wf(),
            forall|s: Seq<char>, m: Seq<char>| r.next_seq_of(s, m) == 0,
            forall|s: Seq<char>, c: Seq<char>| !r.is_completed(s, c),
    {
        StreamTable { counters: Vec::new(), completed: Vec::new() }
    }

    /// Take the next sequence number of a stream of a scope (0 for a new
    /// stream) and advance its counter; no other counter changes.
    pub fn next_seq(&mut self, scope: &String, stream: &String) -> (r: u64)
        requires
            old(self).wf(),
        ensures
            final(self).wf(),
            r == old(self).next_seq_of(scope@, stream@),
            final(self).next_seq_of(scope@, stream@) == seq_after(r),
            forall|s: Seq<char>, m: Seq<char>| !(s == scope@ && m == stream@) ==>
                #[trigger] final(self).next_seq_of(s, m) == old(self).next_seq_of(s, m),
            forall|s: Seq<char>, c: Seq<char>| #[trigger] final(self).is_completed(s, c) == old(self).is_completed(s, c),
    {
        let mut i: usize = 0;
        let mut found = false;
        while i < self.counters.len() && !found
            invariant
                i <= self.counters@.len(),
                self.wf(),
                found ==> i < self.counters@.len() && self.counters@[i as int].scope@ == scope@
                    && self.counters@[i as int].stream@ == stream@,
                !found ==> forall|k: int| 0 <= k < i ==> !((#[trigger] self.counters@[k]).scope@ == scope@
                    && self.counters@[k].stream@ == stream@),
            decreases self.counters.len() - i, (if found { 0int } else { 1int }),
        {
            if self.counters[i].scope == *scope && self.counters[i].stream == *stream {
                found = true;
            } else {
                i = i + 1;
            }
        }
        let ghost old_self = *self;
        proof {
            assert(old_self.completed == self.completed);
        }
        if found {
            let v = self.counters[i].next;
            let nv = if v == u64::MAX { 0 } else { v + 1 };
            let sc = self.counters[i].scope.clone();
            let st = self.counters[i].stream.clone();
            self.counters.set(i, SeqCounter { scope: sc, stream: st, next: nv });
            proof {
                assert forall|s: Seq<char>, c: Seq<char>| #[trigger] self.is_completed(s, c) == old_self.is_completed(s, c) by {
                    assert(self.completed == old_self.completed);
                }
                assert(old_self.counters@[i as int].scope@ == scope@ && old_self.counters@[i as int].stream@ == stream@);
                assert forall|a: int, b: int| 0 <= a < b < self.counters@.len() implies
                    (#[trigger] self.counters@[a]).scope@ != (#[trigger] self.counters@[b]).scope@
                    || self.counters@[a].stream@ != self.counters@[b].stream@ by {
                    assert(old_self.counters@[a].scope@ != old_self.counters@[b].scope@
                        || old_self.counters@[a].stream@ != old_self.counters@[b].stream@);
                }
                let j = choose|j: int| 0 <= j < old_self.counters@.len() && (#[trigger] old_self.counters@[j]).scope@ == scope@
                    && old_self.counters@[j].stream@ == stream@;
                if j != i {
                    if j < i {
                        assert(old_self.counters@[j].scope@ != old_self.counters@[i as int].scope@
                            || old_self.counters@[j].stream@ != old_self.counters@[i as int].stream@);
                    } else {
                        assert(old_self.counters@[i as int].scope@ != old_self.counters@[j].scope@
                            || old_self.counters@[i as int].stream@ != old_self.counters@[j].stream@);
                    }
                }
                assert(self.counters@[i as int].scope@ == scope@);
                let j2 = choose|j: int| 0 <= j < self.counters@.len() && (#[trigger] self.counters@[j]).scope@ == scope@
                    && self.counters@[j].stream@ == stream@;
                if j2 != i {
                    if j2 < i {
                        assert(self.counters@[j2].scope@ != self.counters@[i as int].scope@
                            || self.counters@[j2].stream@ != self.counters@[i as int].stream@);
                    } else {
                        assert(self.counters@[i as int].scope@ != self.counters@[j2].scope@
                            || self.counters@[i as int].stream@ != self.counters@[j2].stream@);
                    }
                }
                assert forall|s: Seq<char>, m: Seq<char>| !(s == scope@ && m == stream@) implies
                    #[trigger] self.next_seq_of(s, m) == old_self.next_seq_of(s, m) by {
                    if old_self.has_counter(s, m) {
                        let k = choose|k: int| 0 <= k < old_self.counters@.len() && (#[trigger] old_self.counters@[k]).scope@ == s
                            && old_self.counters@[k].stream@ == m;
                        assert(k != i);
                        assert(self.counters@[k] == old_self.counters@[k]);
                        assert(self.has_counter(s, m));
                        let k2 = choose|k: int| 0 <= k < self.counters@.len() && (#[trigger] self.counters@[k]).scope@ == s
                            && self.counters@[k].stream@ == m;
                        assert(k2 != i);
                        if k2 != k {
                            if k2 < k {
                                assert(self.counters@[k2].scope@ != self.counters@[k].scope@
                                    || self.counters@[k2].stream@ != self.counters@[k].stream@);
                            } else {
                                assert(self.counters@[k].scope@ != self.counters@[k2].scope@
                                    || self.counters@[k].stream@ != self.counters@[k2].stream@);
                            }
                        }
                    } else {
                        if self.has_counter(s, m) {
                            let k2 = choose|k: int| 0 <= k < self.counters@.len() && (#[trigger] self.counters@[k]).scope@ == s
                                && self.counters@[k].stream@ == m;
                            assert(k2 != i);
                            assert(old_self.counters@[k2] == self.counters@[k2]);
                        }
                    }
                }
            }
            v
        } else {
            let sc = scope.clone();
            let st = stream.clone();
            self.counters.push(SeqCounter { scope: sc, stream: st, next: 1 });
            proof {
                assert forall|s: Seq<char>, c: Seq<char>| #[trigger] self.is_completed(s, c) == old_self.is_completed(s, c) by {
                    assert(self.completed == old_self.completed);
                }
                assert(!old_self.has_counter(scope@, stream@));
                let n = old_self.counters@.len() as int;
                assert(self.counters@[n].scope@ == scope@ && self.counters@[n].stream@ == stream@);
                assert forall|a: int, b: int| 0 <= a < b < self.counters@.len() implies
                    (#[trigger] self.counters@[a]).scope@ != (#[trigger] self.counters@[b]).scope@
                    || self.counters@[a].stream@ != self.counters@[b].stream@ by {
                    if b < n {
                        assert(old_self.counters@[a].scope@ != old_self.counters@[b].scope@
                            || old_self.counters@[a].stream@ != old_self.counters@[b].stream@);
                    }
                }
                let j2 = choose|j: int| 0 <= j < self.counters@.len() && (#[trigger] self.counters@[j]).scope@ == scope@
                    && self.counters@[j].stream@ == stream@;
                assert(j2 == n);
                assert forall|s: Seq<char>, m: Seq<char>| !(s == scope@ && m == stream@) implies
                    #[trigger] self.next_seq_of(s, m) == old_self.next_seq_of(s, m) by {
                    if old_self.has_counter(s, m) {
                        let k = choose|k: int| 0 <= k < old_self.counters@.len() && (#[trigger] old_self.counters@[k]).scope@ == s
                            && old_self.counters@[k].stream@ == m;
                        assert(self.counters@[k] == old_self.counters@[k]);
                        assert(self.has_counter(s, m));
                        let k2 = choose|k: int| 0 <= k < self.counters@.len() && (#[trigger] self.counters@[k]).scope@ == s
                            && self.counters@[k].stream@ == m;
                        assert(k2 != n);
                        if k2 != k {
                            if k2 < k {
                                assert(self.counters@[k2].scope@ != self.counters@[k].scope@
                                    || self.counters@[k2].stream@ != self.counters@[k].stream@);
                            } else {
                                assert(self.counters@[k].scope@ != self.counters@[k2].scope@
                                    || self.counters@[k].stream@ != self.counters@[k2].stream@);
                            }
                        }
                    } else {
                        if self.has_counter(s, m) {
                            let k2 = choose|k: int| 0 <= k < self.counters@.len() && (#[trigger] self.counters@[k]).scope@ == s
                                && self.counters@[k].stream@ == m;
                            assert(k2 != n);
                            assert(old_self.counters@[k2] == self.counters@[k2]);
                        }
                    }
                }
            }
            0
        }
    }

    /// Mark a tool call of a scope as completed; `true` when it was not
    /// marked before (as `HashSet::insert` answers). Counters do not change.
    pub fn mark_tool_completed(&mut self, scope: &String, call_id: &String) -> (r: bool)
        requires
            old(self).wf(),
        ensures
            final(self).wf(),
            r == !old(self).is_completed(scope@, call_id@),
            final(self).is_completed(scope@, call_id@),
            forall|s: Seq<char>, c: Seq<char>| !(s == scope@ && c == call_id@) ==>
                #[trigger] final(self).is_completed(s, c) == old(self).is_completed(s, c),
            forall|s: Seq<char>, m: Seq<char>| #[trigger] final(self).next_seq_of(s, m) == old(self).next_seq_of(s, m),
    {
        let mut i: usize = 0;
        while i < self.completed.len()
            invariant
                i <= self.completed@.len(),
                self.wf(),
                forall|k: int| 0 <= k < i ==> !((#[trigger] self.completed@[k]).scope@ == scope@
                    && self.completed@[k].call_id@ == call_id@),
            decreases self.completed.len() - i,
        {
            if self.completed[i].scope == *scope && self.completed[i].call_id == *call_id {
                assert(self.is_completed(scope@, call_id@));
                return false;
            }
            i = i + 1;
        }
        let ghost old_self = *self;
        self.completed.push(CompletedTool { scope: scope.clone(), call_id: call_id.clone() });
        proof {
            let n = old_self.completed@.len() as int;
            assert(self.completed@[n].scope@ == scope@ && self.completed@[n].call_id@ == call_id@);
            assert forall|a: int, b: int| 0 <= a < b < self.completed@.len() implies
                (#[trigger] self.completed@[a]).scope@ != (#[trigger] self.completed@[b]).scope@
                || self.completed@[a].call_id@ != self.completed@[b].call_id@ by {
                if b < n {
                    assert(old_self.completed@[a].scope@ != old_self.completed@[b].scope@
                        || old_self.completed@[a].call_id@ != old_self.completed@[b].call_id@);
                }
            }
            assert forall|s: Seq<char>, c: Seq<char>| !(s == scope@ && c == call_id@) implies
                #[trigger] self.is_completed(s, c) == old_self.is_completed(s, c) by {
                if old_self.is_completed(s, c) {
                    let k = choose|k: int| 0 <= k < old_self.completed@.len() && (#[trigger] old_self.completed@[k]).scope@ == s
                        && old_self.completed@[k].call_id@ == c;
                    assert(self.completed@[k] == old_self.completed@[k]);
                }
                if self.is_completed(s, c) {
                    let k = choose|k: int| 0 <= k < self.completed@.len() && (#[trigger] self.completed@[k]).scope@ == s
                        && self.completed@[k].call_id@ == c;
                    assert(k != n);
                    assert(self.completed@[k] == old_self.completed@[k]);
                }
            }
            assert forall|s: Seq<char>, m: Seq<char>| #[trigger] self.next_seq_of(s, m) == old_self.next_seq_of(s, m) by {
                assert(self.counters == old_self.counters);
            }
        }
        true
    }

    /// Whether the tool call was reported as completed in the scope.
    pub fn is_tool_completed(&self, scope: &String, call_id: &String) -> (r: bool)
        ensures
            r == self.is_completed(scope@, call_id@),
    {
        let mut i: usize = 0;
        while i < self.completed.len()
            invariant
                i <= self.completed@.len(),
                forall|k: int| 0 <= k < i ==> !((#[trigger] self.completed@[k]).scope@ == scope@
                    && self.completed@[k].call_id@ == call_id@),
            decreases self.completed.len() - i,
        {
            if self.completed[i].scope == *scope && self.completed[i].call_id == *call_id {
                return true;
            }
            i = i + 1;
        }
        false
    }
}

/// `a + k` in `u64` arithmetic that wraps around.
pub open spec fn wrap_add(a: u64, k: nat) -> u64 {
    ((a + k) % 0x1_0000_0000_0000_0000) as u64
}

/// One more step of a wrapping counter.
pub proof fn lemma_wrap_add_step(a: u64, k: nat)
    ensures
        wrap_add(a, k + 1) == seq_after(wrap_add(a, k)),
        wrap_add(a, 0) == a,
{
    let m: int = 0x1_0000_0000_0000_0000;
    let w = (a + k) % m;
    assert(0 <= w < m);
    assert((a + k + 1) % m == if w == m - 1 { 0 } else { w + 1 }) by {
        vstd::arithmetic::div_mod::lemma_add_mod_noop(a + k, 1, m);
        vstd::arithmetic::div_mod::lemma_small_mod(1, m as nat);
        if w == m - 1 {
            vstd::arithmetic::div_mod::lemma_mod_self_0(m);
        } else {
            vstd::arithmetic::div_mod::lemma_small_mod((w + 1) as nat, m as nat);
        }
    }
    vstd::arithmetic::div_mod::lemma_small_mod(a as nat, m as nat);
}

/// `prefix` followed by `s`, as an owned string.
pub fn prefixed(prefix: &str, s: &String) -> (r: String)
    ensures
        r@ == prefix@ + s@,
{
    concat2(prefix, s.as_str())
}

} // verus!
