use maestro::claudecode_adapter::{
    ClaudeCodeAdapter, ContentBlock, SdkAssistantMessage, SdkMessage, SdkMessageContent, SdkPartialAssistantMessage,
    SdkResultMessage, SdkSystemMessage, SdkUsage, SdkUserMessage, ToolResultContent,
};
use maestro::opencode_adapter::{
    OpenCodeAdapter, OpenCodeDaemonEvent, OpenCodeInnerEvent, OpenCodeProps, PartData, PartTime, SessionErrorProps,
    SessionStatusProps, SessionStatusType,
};
use maestro::stream::{AgentProcessingState, StreamEventPayload, StreamEventType};

fn assistant(uuid: &str, blocks: Vec<ContentBlock>) -> SdkMessage {
    SdkMessage::Assistant(SdkAssistantMessage {
        uuid: uuid.to_string(),
        session_id: "sess_abc".to_string(),
        message: SdkMessageContent { role: "assistant".to_string(), content: blocks },
        parent_tool_use_id: None,
    })
}

fn text(t: &str) -> ContentBlock {
    ContentBlock::Text { text: t.to_string() }
}

fn tool_result(id: &str, content: &str) -> ContentBlock {
    ContentBlock::ToolResult {
        tool_use_id: id.to_string(),
        content: ToolResultContent::Text(content.to_string()),
        is_error: false,
    }
}

#[test]
fn adapt_text_content_block() {
    let mut adapter = ClaudeCodeAdapter::new();
    let events = adapter.adapt(&assistant("msg_123", vec![text("Hello, world!")])).unwrap();
    assert_eq!(events.len(), 1);
    let event = &events[0];
    assert_eq!(event.event_type, StreamEventType::TextDelta);
    assert_eq!(event.harness, "claude_code");
    assert!(event.stream_id.starts_with("stream_msg_123"));
    assert_eq!(event.seq, 0);
    assert_eq!(event.session_id, "sess_abc");
}

#[test]
fn adapt_thinking_content_block() {
    let mut adapter = ClaudeCodeAdapter::new();
    let block = ContentBlock::Thinking { thinking: "Let me think about this...".to_string() };
    let events = adapter.adapt(&assistant("msg_123", vec![block])).unwrap();
    assert_eq!(events.len(), 1);
    assert_eq!(events[0].event_type, StreamEventType::ThinkingDelta);
}

#[test]
fn adapt_tool_use_content_block() {
    let mut adapter = ClaudeCodeAdapter::new();
    let block = ContentBlock::ToolUse {
        id: "tool_1".to_string(),
        name: "read_file".to_string(),
        input: r#"{"path":"/tmp/test.txt"}"#.to_string(),
    };
    let events = adapter.adapt(&assistant("msg_123", vec![block])).unwrap();
    assert_eq!(events.len(), 1);
    assert_eq!(events[0].event_type, StreamEventType::ToolCallDelta);
}

#[test]
fn adapt_tool_result_content_block() {
    let mut adapter = ClaudeCodeAdapter::new();
    let events = adapter.adapt(&assistant("msg_123", vec![tool_result("tool_1", "File contents here")])).unwrap();
    assert_eq!(events.len(), 1);
    assert_eq!(events[0].event_type, StreamEventType::ToolCallCompleted);
}

fn result(subtype: &str, is_error: bool, usage: Option<SdkUsage>) -> SdkMessage {
    SdkMessage::Result(SdkResultMessage {
        subtype: subtype.to_string(),
        session_id: "sess_abc".to_string(),
        duration_ms: 5000,
        is_error,
        num_turns: 3,
        result: Some("Task completed successfully".to_string()),
        usage,
    })
}

#[test]
fn adapt_result_message_success() {
    let mut adapter = ClaudeCodeAdapter::new();
    let usage = SdkUsage { input_tokens: 100, output_tokens: 50, cache_creation_input_tokens: 0, cache_read_input_tokens: 0 };
    let events = adapter.adapt(&result("success", false, Some(usage))).unwrap();
    assert_eq!(events.len(), 1);
    assert_eq!(events[0].event_type, StreamEventType::Completed);
}

#[test]
fn adapt_result_message_error() {
    let mut adapter = ClaudeCodeAdapter::new();
    let events = adapter.adapt(&result("error_during_execution", true, None)).unwrap();
    assert_eq!(events.len(), 2);
    assert_eq!(events[0].event_type, StreamEventType::Error);
    assert_eq!(events[1].event_type, StreamEventType::Completed);
}

#[test]
fn adapt_partial_assistant_message() {
    let mut adapter = ClaudeCodeAdapter::new();
    let raw = SdkMessage::PartialAssistant(SdkPartialAssistantMessage {
        uuid: "msg_123".to_string(),
        session_id: "sess_abc".to_string(),
        message: SdkMessageContent { role: "assistant".to_string(), content: vec![text("Partial response...")] },
    });
    let events = adapter.adapt(&raw).unwrap();
    assert_eq!(events.len(), 1);
    assert_eq!(events[0].event_type, StreamEventType::TextDelta);
}

#[test]
fn claudecode_adapter_seq_increments_per_stream() {
    let mut adapter = ClaudeCodeAdapter::new();
    let events1 = adapter.adapt(&assistant("msg_1", vec![text("First")])).unwrap();
    let events2 = adapter.adapt(&assistant("msg_1", vec![text("Second")])).unwrap();
    assert_eq!(events1[0].seq, 0);
    assert_eq!(events2[0].seq, 1);
    assert_eq!(events1[0].stream_id, events2[0].stream_id);
}

#[test]
fn claudecode_adapter_deduplicates_tool_completed_events() {
    let mut adapter = ClaudeCodeAdapter::new();
    let raw = assistant("msg_123", vec![tool_result("tool_1", "Result")]);
    let events1 = adapter.adapt(&raw);
    assert!(events1.is_some());
    assert_eq!(events1.unwrap().len(), 1);
    let events2 = adapter.adapt(&raw);
    assert!(events2.is_none());
}

#[test]
fn ignores_user_and_system_messages() {
    let mut adapter = ClaudeCodeAdapter::new();
    let user = SdkMessage::User(SdkUserMessage { uuid: "msg_123".to_string(), session_id: "sess_abc".to_string() });
    let system = SdkMessage::System(SdkSystemMessage { session_id: Some("sess_abc".to_string()) });
    assert!(adapter.adapt(&user).is_none());
    assert!(adapter.adapt(&system).is_none());
}

#[test]
fn emit_status_creates_valid_event() {
    let adapter = ClaudeCodeAdapter::new();
    let event = adapter.emit_status("sess_abc", AgentProcessingState::Processing);
    assert_eq!(event.event_type, StreamEventType::Status);
    assert_eq!(event.harness, "claude_code");
    assert_eq!(event.session_id, "sess_abc");
    assert!(event.stream_id.starts_with("status_"));
}

#[test]
fn multiple_content_blocks_produce_multiple_events() {
    let mut adapter = ClaudeCodeAdapter::new();
    let blocks = vec![text("First"), ContentBlock::Thinking { thinking: "Reasoning...".to_string() }, text("Second")];
    let events = adapter.adapt(&assistant("msg_123", blocks)).unwrap();
    assert_eq!(events.len(), 3);
    assert_eq!(events[0].event_type, StreamEventType::TextDelta);
    assert_eq!(events[1].event_type, StreamEventType::ThinkingDelta);
    assert_eq!(events[2].event_type, StreamEventType::TextDelta);
    assert_eq!(events[0].seq, 0);
    assert_eq!(events[1].seq, 1);
    assert_eq!(events[2].seq, 2);
}

fn part(id: &str, kind: &str) -> PartData {
    PartData {
        id: id.to_string(),
        message_id: "msg_1".to_string(),
        session_id: "sess_1".to_string(),
        part_type: kind.to_string(),
        text: None,
        content: None,
        output: None,
        tool: None,
        tool_call_id: None,
        input: None,
        error: None,
        time: None,
    }
}

fn props_with_part(p: PartData, delta: Option<&str>) -> OpenCodeProps {
    OpenCodeProps { part: Some(p), delta: delta.map(|d| d.to_string()), status: None, error: None, session_id: None }
}

fn daemon_event(event_type: &str, props: Option<OpenCodeProps>) -> OpenCodeDaemonEvent {
    OpenCodeDaemonEvent {
        workspace_id: "ws_1".to_string(),
        event_type: event_type.to_string(),
        event: OpenCodeInnerEvent { event_type: event_type.to_string(), properties: props },
    }
}

fn tool_part(output: Option<&str>, end: Option<u64>) -> PartData {
    let mut p = part("part_1", "tool");
    p.tool = Some("edit_file".to_string());
    p.tool_call_id = Some("call_1".to_string());
    p.input = Some(r#"{"path":"/tmp/test.txt"}"#.to_string());
    p.output = output.map(|o| o.to_string());
    p.time = Some(PartTime { start: Some(1000), end });
    p
}

#[test]
fn adapt_text_delta_event() {
    let mut adapter = OpenCodeAdapter::new();
    let mut p = part("part_1", "text");
    p.text = Some("Hello".to_string());
    let events = adapter.adapt(&daemon_event("message.part.updated", Some(props_with_part(p, Some("Hello"))))).unwrap();
    assert_eq!(events.len(), 1);
    let event = &events[0];
    assert_eq!(event.event_type, StreamEventType::TextDelta);
    assert_eq!(event.harness, "open_code");
    assert!(event.stream_id.starts_with("stream_msg_1"));
    assert_eq!(event.seq, 0);
}

#[test]
fn adapt_thinking_delta_event() {
    let mut adapter = OpenCodeAdapter::new();
    let mut p = part("part_1", "reasoning");
    p.content = Some("Thinking...".to_string());
    let events =
        adapter.adapt(&daemon_event("message.part.updated", Some(props_with_part(p, Some("Thinking..."))))).unwrap();
    assert_eq!(events.len(), 1);
    assert_eq!(events[0].event_type, StreamEventType::ThinkingDelta);
}

#[test]
fn adapt_tool_call_delta_event() {
    let mut adapter = OpenCodeAdapter::new();
    let p = tool_part(None, None);
    let events = adapter.adapt(&daemon_event("message.part.updated", Some(props_with_part(p, None)))).unwrap();
    assert_eq!(events.len(), 1);
    assert_eq!(events[0].event_type, StreamEventType::ToolCallDelta);
}

#[test]
fn adapt_tool_call_completed_event() {
    let mut adapter = OpenCodeAdapter::new();
    let p = tool_part(Some("ok"), Some(2000));
    let events = adapter.adapt(&daemon_event("message.part.updated", Some(props_with_part(p, None)))).unwrap();
    assert_eq!(events.len(), 1);
    assert_eq!(events[0].event_type, StreamEventType::ToolCallCompleted);
    match &events[0].payload {
        StreamEventPayload::ToolCallCompleted { call_id, tool_name, output, .. } => {
            assert_eq!(call_id, "call_1");
            assert_eq!(tool_name, "edit_file");
            assert_eq!(output, "ok");
        },
        _ => panic!("expected a completed tool call"),
    }
}

#[test]
fn adapt_session_status_busy() {
    let mut adapter = OpenCodeAdapter::new();
    let props = OpenCodeProps {
        part: None,
        delta: None,
        status: Some(SessionStatusProps {
            session_id: Some("sess_1".to_string()),
            status: Some(SessionStatusType { status_type: Some("busy".to_string()) }),
        }),
        error: None,
        session_id: Some("sess_1".to_string()),
    };
    let events = adapter.adapt(&daemon_event("session.status", Some(props))).unwrap();
    assert_eq!(events.len(), 1);
    assert_eq!(events[0].event_type, StreamEventType::Status);
}

#[test]
fn adapt_session_error() {
    let mut adapter = OpenCodeAdapter::new();
    let props = OpenCodeProps {
        part: None,
        delta: None,
        status: None,
        error: Some(SessionErrorProps {
            session_id: Some("sess_1".to_string()),
            error: Some("Rate limit exceeded".to_string()),
        }),
        session_id: Some("sess_1".to_string()),
    };
    let events = adapter.adapt(&daemon_event("session.error", Some(props))).unwrap();
    assert_eq!(events.len(), 1);
    assert_eq!(events[0].event_type, StreamEventType::Error);
    assert_eq!(events[0].stream_id, "error_sess_1");
}

#[test]
fn opencode_adapter_seq_increments_per_stream() {
    let mut adapter = OpenCodeAdapter::new();
    let mut p1 = part("part_1", "text");
    p1.text = Some("Hello".to_string());
    let mut p2 = part("part_2", "text");
    p2.text = Some(" World".to_string());
    let events1 = adapter.adapt(&daemon_event("message.part.updated", Some(props_with_part(p1, None)))).unwrap();
    let events2 =
        adapter.adapt(&daemon_event("message.part.updated", Some(props_with_part(p2, Some(" World"))))).unwrap();
    assert_eq!(events1[0].seq, 0);
    assert_eq!(events2[0].seq, 1);
    assert_eq!(events1[0].stream_id, events2[0].stream_id);
}

#[test]
fn ignores_heartbeat_events() {
    let mut adapter = OpenCodeAdapter::new();
    let props = OpenCodeProps { part: None, delta: None, status: None, error: None, session_id: None };
    let events = adapter.adapt(&daemon_event("server.heartbeat", Some(props)));
    assert!(events.is_none());
}

#[test]
fn opencode_adapter_deduplicates_tool_completed_events() {
    let mut adapter = OpenCodeAdapter::new();
    let raw = daemon_event("message.part.updated", Some(props_with_part(tool_part(Some("ok"), Some(2000)), None)));
    let events1 = adapter.adapt(&raw);
    assert!(events1.is_some());
    assert_eq!(events1.unwrap().len(), 1);
    let events2 = adapter.adapt(&raw);
    assert!(events2.is_none());
}

#[test]
fn idle_event_falls_back_to_workspace() {
    let mut adapter = OpenCodeAdapter::new();
    let events = adapter.adapt(&daemon_event("session.idle", None)).unwrap();
    assert_eq!(events.len(), 1);
    assert_eq!(events[0].session_id, "ws_1");
    assert_eq!(events[0].stream_id, "status_ws_1");
}
