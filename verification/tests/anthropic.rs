use agnt5_sdk_core::json::Json;
use agnt5_sdk_core::lm::anthropic::{
    augment_system_prompt, build_messages_payload, normalize_model, unreadable_response,
    usage_is_small, validate_request, AnthropicConfig, AnthropicProvider, MessagesResponse,
    TextBlockResponse, Usage,
};
use agnt5_sdk_core::lm::anthropic_stream::{
    AnthropicStream, StreamContentBlock, StreamContentDelta,
    StreamEvent, StreamMessage, StreamMessageDelta,
};
use agnt5_sdk_core::lm::http::RetryConfig;
use agnt5_sdk_core::lm::interface::{
    ContentBlockType, GenerateRequest, ResponseFormat, StreamChunk, ToolDefinition,
};
use agnt5_sdk_core::lm::sse::{data_step, ended_early, DataStep};

fn block(kind: &str, text: Option<&str>, thinking: Option<&str>) -> StreamContentBlock {
    StreamContentBlock {
        block_type: kind.to_string(),
        text: text.map(|s| s.to_string()),
        thinking: thinking.map(|s| s.to_string()),
        id: None,
        name: None,
        input: None,
    }
}

fn delta(kind: &str, text: Option<&str>, thinking: Option<&str>) -> StreamContentDelta {
    StreamContentDelta {
        delta_type: kind.to_string(),
        text: text.map(|s| s.to_string()),
        thinking: thinking.map(|s| s.to_string()),
        input: None,
    }
}

#[test]
fn thoughts_are_handed_on_but_not_gathered() {
    let mut stream = AnthropicStream::new(ResponseFormat::Text);
    let events = vec![
        StreamEvent::MessageStart {
            message: StreamMessage {
                id: "msg_1".to_string(),
                model: "sonnet".to_string(),
                usage: Usage { input_tokens: Some(3), output_tokens: Some(0) },
            },
        },
        StreamEvent::ContentBlockStart {
            index: 0,
            content_block: block("thinking", None, Some("")),
        },
        StreamEvent::ContentBlockDelta {
            index: 0,
            delta: delta("thinking_delta", None, Some("hmm")),
        },
        StreamEvent::ContentBlockStop { index: 0 },
        StreamEvent::ContentBlockStart { index: 1, content_block: block("text", Some(""), None) },
        StreamEvent::ContentBlockDelta { index: 1, delta: delta("text_delta", Some("Hi"), None) },
        StreamEvent::ContentBlockStop { index: 1 },
        StreamEvent::MessageDelta {
            delta: StreamMessageDelta { stop_reason: Some("end_turn".to_string()) },
            usage: Some(Usage { input_tokens: None, output_tokens: Some(2) }),
        },
    ];
    let mut thought = String::new();
    let mut said = String::new();
    for event in events {
        let output = stream.on_event(event);
        assert!(output.failure.is_none());
        for chunk in output.chunks {
            if let StreamChunk::Delta { content, block_type, .. } = chunk {
                match block_type {
                    ContentBlockType::Thinking => thought.push_str(&content),
                    ContentBlockType::Text => said.push_str(&content),
                }
            }
        }
    }
    assert_eq!(thought, "hmm");
    assert_eq!(said, "Hi");
    assert!(stream.counts_are_small());
    let output = stream.on_done();
    match output.chunks.into_iter().last() {
        Some(StreamChunk::Completed(response)) => {
            assert_eq!(response.text, "Hi");
            assert_eq!(response.id, "msg_1");
            assert_eq!(response.finish_reason.as_deref(), Some("end_turn"));
        }
        other => panic!("expected the whole reply, got {other:?}"),
    }
}

#[test]
fn lines_of_a_stream_are_told_apart() {
    assert!(matches!(data_step("[DONE]"), DataStep::Done));
    assert!(matches!(data_step("  "), DataStep::Skip));
    assert!(matches!(data_step("{}"), DataStep::Event(s) if s == "{}"));
    assert_eq!(ended_early().message(), "stream ended before termination signal");
}

#[test]
fn payloads_of_anthropic_carry_the_system_prompt() {
    let request = GenerateRequest::new("anthropic/sonnet")
        .system_prompt("Be brief.")
        .user_message("Hi")
        .add_tool(ToolDefinition::new("lookup"));
    assert!(validate_request(&request).is_ok());
    let payload = build_messages_payload(&request, true).unwrap();
    assert_eq!(payload.get_str("system"), Some("Be brief."));
    assert_eq!(payload.get("stream").unwrap().as_bool(), Some(true));
    assert_eq!(payload.get("messages").unwrap().as_array().unwrap().len(), 1);
    assert!(validate_request(&GenerateRequest::new("anthropic/sonnet")).is_err());
}

#[test]
fn wishes_for_json_are_told_to_the_model() {
    let told = augment_system_prompt(&Some("Be brief.".to_string()), &ResponseFormat::Json);
    let told = told.unwrap();
    assert!(told.starts_with("Be brief."));
    assert!(told.contains("JSON"));
    assert_eq!(augment_system_prompt(&None, &ResponseFormat::Text), None);
}

#[test]
fn replies_of_anthropic_are_read() {
    let usage = Some(Usage { input_tokens: Some(5), output_tokens: Some(6) });
    assert!(usage_is_small(usage));
    let reply = MessagesResponse {
        id: "msg_1".to_string(),
        model: "sonnet".to_string(),
        content: vec![
            TextBlockResponse {
                block_type: "text".to_string(),
                text: Some("Hi".to_string()),
                id: None,
                name: None,
                input: None,
            },
            TextBlockResponse {
                block_type: "tool_use".to_string(),
                text: None,
                id: Some("toolu_1".to_string()),
                name: Some("lookup".to_string()),
                input: Some(Json::parse(r#"{"a":1}"#).unwrap()),
            },
        ],
        stop_reason: Some("tool_use".to_string()),
        usage,
    };
    let reply = reply.into_generate_response(&ResponseFormat::Text).unwrap();
    assert_eq!(reply.text, "Hi");
    assert_eq!(reply.usage.unwrap().total_tokens, Some(11));
    let calls = reply.tool_calls.unwrap();
    assert_eq!(calls[0].id, "toolu_1");
    assert_eq!(calls[0].arguments, r#"{"a":1}"#);
    assert!(unreadable_response("eof").message().contains("eof"));
    assert!(!usage_is_small(Some(Usage {
        input_tokens: Some(u32::MAX),
        output_tokens: Some(1)
    })));
}

#[test]
fn anthropic_settings_shape_the_request() {
    let provider = AnthropicProvider::new(
        AnthropicConfig::new("key", RetryConfig::disabled()).with_base_url("http://a.test"),
    );
    assert!(provider.messages_endpoint().starts_with("http://a.test"));
    assert!(provider.headers().iter().any(|(k, v)| k == "x-api-key" && v == "key"));
    assert!(AnthropicConfig::from_env(None, None, None, None, RetryConfig::disabled()).is_err());
    assert_eq!(normalize_model("anthropic/sonnet").unwrap(), "sonnet");
    assert!(normalize_model("openai/gpt-4o").is_err());
}
