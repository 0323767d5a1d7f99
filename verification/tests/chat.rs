use kiro::chat::SendMessageRequest;
use kiro::chat_stream::{
    payload_kind, AssistantResponseEventPayload, ChatEvent, ChatStreamState, EventPayload, ExceptionPayload,
    InitialResponsePayload, MessageMetadataPayload, PayloadKind, StreamPoll,
};
use kiro::error::{ApiError, KiroError};
use kiro::event_stream::{AwsEvent, EventStreamError};
use kiro::tools::{ToolDefinition, ToolResult, ToolUseEvent};
use kiro::user_context::{IdeCategory, OperatingSystem, UserContext};

fn event(event_type: &str) -> AwsEvent {
    AwsEvent {
        message_type: "event".to_string(),
        content_type: None,
        event_type: Some(event_type.to_string()),
        exception_type: None,
        payload: Vec::new(),
    }
}

fn exception(exception_type: Option<&str>) -> AwsEvent {
    AwsEvent {
        message_type: "exception".to_string(),
        content_type: None,
        event_type: None,
        exception_type: exception_type.map(|s| s.to_string()),
        payload: Vec::new(),
    }
}

fn piece(id: &str, name: &str, input: Option<&str>, stop: bool) -> ToolUseEvent {
    ToolUseEvent {
        tool_use_id: id.to_string(),
        name: name.to_string(),
        input: input.map(|s| s.to_string()),
        stop,
    }
}

fn drain(state: &mut ChatStreamState) -> Vec<Result<ChatEvent, KiroError>> {
    let mut out = Vec::new();
    loop {
        match state.poll_pending() {
            StreamPoll::Ready(o) => out.push(o),
            _ => return out,
        }
    }
}

#[test]
fn payload_kinds() {
    assert_eq!(payload_kind(&event("initial-response")), PayloadKind::InitialResponse);
    assert_eq!(payload_kind(&event("assistantResponseEvent")), PayloadKind::AssistantResponse);
    assert_eq!(payload_kind(&event("toolUseEvent")), PayloadKind::ToolUse);
    assert_eq!(payload_kind(&event("messageMetadataEvent")), PayloadKind::MessageMetadata);
    assert_eq!(payload_kind(&event("meteringEvent")), PayloadKind::Ignored);
    assert_eq!(payload_kind(&exception(None)), PayloadKind::Exception);
    let mut other = event("assistantResponseEvent");
    other.message_type = "error".to_string();
    assert_eq!(payload_kind(&other), PayloadKind::Ignored);
    other.message_type = "event".to_string();
    other.event_type = None;
    assert_eq!(payload_kind(&other), PayloadKind::Ignored);
}

#[test]
fn text_then_metadata_in_order() {
    let mut s = ChatStreamState::new();
    let first = s.receive(vec![
        Ok((
            event("initial-response"),
            EventPayload::InitialResponse(Some(InitialResponsePayload { conversation_id: Some("conv-1".into()) })),
        )),
        Ok((
            event("assistantResponseEvent"),
            EventPayload::AssistantResponse(Some(AssistantResponseEventPayload { content: Some("Hel".into()) })),
        )),
        Ok((
            event("assistantResponseEvent"),
            EventPayload::AssistantResponse(Some(AssistantResponseEventPayload { content: Some("lo".into()) })),
        )),
        Ok((
            event("messageMetadataEvent"),
            EventPayload::MessageMetadata(Some(MessageMetadataPayload {
                conversation_id: None,
                utterance_id: Some("u-9".into()),
            })),
        )),
    ]);
    let mut all = vec![first.unwrap()];
    all.extend(drain(&mut s));
    assert_eq!(all.len(), 3);
    assert!(matches!(&all[0], Ok(ChatEvent::TextDelta { content }) if content == "Hel"));
    assert!(matches!(&all[1], Ok(ChatEvent::TextDelta { content }) if content == "lo"));
    assert!(matches!(&all[2], Ok(ChatEvent::Metadata { conversation_id, message_id })
        if conversation_id == "conv-1" && message_id == "u-9"));
    assert!(matches!(s.poll_pending(), StreamPoll::NeedData));
}

#[test]
fn metadata_without_any_conversation_id_is_empty() {
    let mut s = ChatStreamState::new();
    s.handle_initial_response(Some(InitialResponsePayload { conversation_id: Some(String::new()) }));
    s.handle_message_metadata(Some(MessageMetadataPayload { conversation_id: None, utterance_id: None }));
    let out = drain(&mut s);
    assert!(matches!(&out[0], Ok(ChatEvent::Metadata { conversation_id, message_id })
        if conversation_id.is_empty() && message_id.is_empty()));
}

#[test]
fn unreadable_payloads_are_skipped() {
    let mut s = ChatStreamState::new();
    let r = s.receive(vec![
        Ok((event("assistantResponseEvent"), EventPayload::AssistantResponse(None))),
        Ok((event("assistantResponseEvent"), EventPayload::ToolUse(None))),
        Ok((event("messageMetadataEvent"), EventPayload::MessageMetadata(None))),
        Ok((event("meteringEvent"), EventPayload::Ignored)),
    ]);
    assert!(r.is_none());
    assert!(matches!(s.poll_pending(), StreamPoll::NeedData));
}

#[test]
fn exceptions_map_to_errors() {
    let cases = [
        (Some("ThrottlingException"), "API error: throttling: slow"),
        (Some("ValidationException"), "API error: validation error: slow"),
        (Some("AccessDeniedException"), "API error: access denied: slow"),
        (Some("InternalServerException"), "API error: internal server error"),
        (Some("ServiceUnavailableException"), "API error: service unavailable"),
        (Some("SomethingElse"), "network error: slow"),
        (None, "network error: slow"),
    ];
    for (t, expected) in cases {
        let mut s = ChatStreamState::new();
        s.handle_aws_event(
            exception(t),
            EventPayload::Exception(Some(ExceptionPayload { message: Some("slow".into()) })),
        );
        let out = drain(&mut s);
        assert_eq!(out.len(), 1);
        assert_eq!(out[0].as_ref().unwrap_err().message(), expected);
    }
    let mut s = ChatStreamState::new();
    s.handle_exception(Some("ThrottlingException".into()), None);
    let out = drain(&mut s);
    assert!(matches!(&out[0], Err(KiroError::Api(ApiError::Throttling { message, retry_after: None }))
        if message == "Unknown error"));
}

#[test]
fn tool_call_assembled_from_pieces() {
    let mut s = ChatStreamState::new();
    s.handle_tool_use(Some(piece("t1", "read_file", Some("{\"path\":"), false)));
    s.handle_tool_use(Some(piece("t2", "other", None, false)));
    s.handle_tool_use(Some(piece("t1", "ignored-name", Some("\"a.rs\"}"), false)));
    assert!(drain(&mut s).is_empty());
    s.handle_tool_use(Some(piece("t1", "x", None, true)));
    let out = drain(&mut s);
    assert_eq!(out.len(), 1);
    match &out[0] {
        Ok(ChatEvent::ToolUse { id, name, input, stop }) => {
            assert_eq!(id, "t1");
            assert_eq!(name, "read_file");
            assert_eq!(input, "{\"path\":\"a.rs\"}");
            assert!(*stop);
        }
        other => panic!("unexpected {:?}", other),
    }
    s.handle_tool_use(Some(piece("t2", "other", Some("not json"), true)));
    let out = drain(&mut s);
    assert!(matches!(&out[0], Ok(ChatEvent::ToolUse { id, name, input, .. })
        if id == "t2" && name == "other" && input == "{}"));
}

#[test]
fn single_stopping_piece() {
    let mut s = ChatStreamState::new();
    s.handle_tool_use(Some(piece("t", "ls", Some("[1,2]"), true)));
    let out = drain(&mut s);
    assert!(matches!(&out[0], Ok(ChatEvent::ToolUse { input, .. }) if input == "[1,2]"));
    s.handle_tool_use(Some(piece("t", "ls", None, true)));
    let out = drain(&mut s);
    assert!(matches!(&out[0], Ok(ChatEvent::ToolUse { input, .. }) if input == "{}"));
}

#[test]
fn frame_errors_and_stream_end() {
    let mut s = ChatStreamState::new();
    let r = s.receive(vec![Err(EventStreamError::UnknownHeaderType { value_type: 12 })]);
    assert!(matches!(r, Some(Err(KiroError::Other(m))) if m == "Unknown header type: 12"));
    assert!(matches!(s.end_of_body(), Ok(ChatEvent::End)));
    assert!(matches!(s.poll_pending(), StreamPoll::Finished));
    let mut s2 = ChatStreamState::new();
    assert!(matches!(s2.read_failed("reset".into()), Err(KiroError::Network(m)) if m == "reset"));
    assert!(matches!(s2.poll_pending(), StreamPoll::Finished));
}

#[test]
fn send_message_request_defaults() {
    let ctx = UserContext::for_zed(OperatingSystem::Macos);
    assert_eq!(ctx.ide_category, IdeCategory::VsCode);
    assert_eq!(ctx.product, "Zed");
    let r = SendMessageRequest::new("hello".into(), Some("c-1".into()), &ctx, None);
    let st = &r.conversation_state;
    assert_eq!(st.conversation_id, "c-1");
    assert!(st.history.is_empty());
    let m = &st.current_message.user_input_message;
    assert_eq!(m.content, "hello");
    assert_eq!(m.origin, "KIRO_CLI");
    assert_eq!(m.model_id, None);
    assert_eq!(m.user_input_message_context.env_state.operating_system, "macos");
    assert_eq!(m.user_input_message_context.env_state.current_working_directory, "/");
    assert_eq!(st.chat_trigger_type, "MANUAL");
    assert_eq!(st.agent_task_type, "vibe");
    let id = &st.agent_continuation_id;
    assert_eq!(id.len(), 36);
    assert_eq!(&id[14..15], "4");
    let fresh = SendMessageRequest::new("x".into(), None, &ctx, Some("/home/me".into()));
    assert_eq!(fresh.conversation_state.conversation_id.len(), 36);
    assert_ne!(fresh.conversation_state.conversation_id, fresh.conversation_state.agent_continuation_id);
    assert_eq!(
        fresh.conversation_state.current_message.user_input_message.user_input_message_context.env_state.current_working_directory,
        "/home/me"
    );
}

#[test]
fn request_builders() {
    let ctx = UserContext::for_zed(OperatingSystem::Linux);
    let r = SendMessageRequest::new("q".into(), Some("c".into()), &ctx, None)
        .with_model("model-x".into())
        .with_tools(vec![ToolDefinition::new("t".into(), "d".into(), serde_json::Value::Null)])
        .with_tool_results(vec![ToolResult::success("id".into(), "ok".into())])
        .with_history(Vec::new());
    let m = &r.conversation_state.current_message.user_input_message;
    assert_eq!(m.model_id.as_deref(), Some("model-x"));
    assert_eq!(m.user_input_message_context.tools.len(), 1);
    assert_eq!(m.user_input_message_context.tools[0].tool_specification.name, "t");
    assert_eq!(m.user_input_message_context.tool_results[0].status, "success");
    assert_eq!(m.user_input_message_context.env_state.operating_system, "linux");
    let e = ToolResult::error("id".into(), "boom".into());
    assert_eq!(e.status, "error");
    assert_eq!(e.content[0].text, "boom");
}
