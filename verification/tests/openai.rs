use agnt5_sdk_core::duration::Duration;
use agnt5_sdk_core::error::SdkError;
use agnt5_sdk_core::json::{Json, JsonNumber};
use agnt5_sdk_core::lm::http::RetryConfig;
use agnt5_sdk_core::lm::interface::{
    ContentBlockType, GenerateRequest, Message, ResponseFormat, StreamChunk, ToolCall, ToolChoice,
    ToolDefinition,
};
use agnt5_sdk_core::lm::openai::{
    validate_request, InputType, OpenAiConfig, OpenAiProvider, ResponsesApiRequest,
};
use agnt5_sdk_core::lm::openai_common;
use agnt5_sdk_core::lm::openai_common::{
    build_chat_payload, is_reasoning_model, ChatCompletionChoice, ChatCompletionResponse,
    ChoiceMessage,
};
use agnt5_sdk_core::lm::openai_responses::{
    openai_streaming_error, ApiUsage, ContentItem, OutputItem, ResponsesApiResponse,
};
use agnt5_sdk_core::lm::openai_responses_stream::{
    event_kind, EventKind, OutputTextDelta, ResponseCompletedEvent, ResponsesEvent,
    ResponsesSseDecoder, StreamingState,
};
use agnt5_sdk_core::lm::openai_stream::{
    format_streaming_error, unreadable_chunk, ApiToolCallDelta, ApiToolCallFunctionDelta,
    ChatCompletionChunk, ChatStream, ChunkChoice, ChunkDelta, PartialResponse, TransportFault,
};
use agnt5_sdk_core::lm::sampling::{dropped_warning, SamplingWarnings};
use agnt5_sdk_core::lm::sse::{SplitSseDecoder, SseDecoder};
use agnt5_sdk_core::lm::text_block::TextBlock;

fn decimal(s: &str) -> JsonNumber {
    JsonNumber::Decimal(s.to_string())
}

fn shown(number: &Option<JsonNumber>) -> Option<f64> {
    match number {
        Some(JsonNumber::Decimal(s)) => s.parse().ok(),
        Some(JsonNumber::Unsigned(n)) => Some(*n as f64),
        Some(JsonNumber::Negative(n)) => Some(*n as f64),
        None => None,
    }
}

fn blank_response(id: &str, model: &str, status: &str) -> ResponsesApiResponse {
    ResponsesApiResponse {
        id: id.to_string(),
        created_at: 1700000000,
        model: model.to_string(),
        status: status.to_string(),
        output: Vec::new(),
        usage: None,
        error: None,
        incomplete_details: None,
    }
}

fn said(text: &str) -> OutputItem {
    OutputItem::Message {
        content: vec![ContentItem {
            content_type: "output_text".to_string(),
            text: Some(text.to_string()),
        }],
    }
}

fn fields(text: &str) -> Vec<(String, Json)> {
    match Json::parse(text).unwrap() {
        Json::Object(fields) => fields,
        _ => Vec::new(),
    }
}

fn sampled(model: &str) -> GenerateRequest {
    GenerateRequest::new(model).system_prompt("Test").user_message("Hi").configure(|config| {
        let mut config = config;
        config.temperature = Some(decimal("0.7"));
        config.top_p = Some(decimal("0.9"));
        config
    })
}

#[test]
fn test_sse_decoder_basic_event() {
    let mut decoder = ResponsesSseDecoder::default();
    let chunk = b"event: response.created\ndata: {\"id\": \"resp_123\"}\n\n";

    let events = decoder.ingest(chunk).unwrap();

    assert_eq!(events.len(), 1);
    assert_eq!(events[0].0, "response.created");
    assert_eq!(events[0].1, "{\"id\": \"resp_123\"}");
}

#[test]
fn test_sse_decoder_multiple_events() {
    let mut decoder = ResponsesSseDecoder::default();
    let chunk = b"event: response.output_text.delta\ndata: {\"delta\": \"Hello\"}\n\nevent: response.output_text.delta\ndata: {\"delta\": \" world\"}\n\n";

    let events = decoder.ingest(chunk).unwrap();

    assert_eq!(events.len(), 2);
    assert_eq!(events[0].0, "response.output_text.delta");
    assert_eq!(events[0].1, "{\"delta\": \"Hello\"}");
    assert_eq!(events[1].0, "response.output_text.delta");
    assert_eq!(events[1].1, "{\"delta\": \" world\"}");
}

#[test]
fn test_sse_decoder_chunked_input() {
    let mut decoder = ResponsesSseDecoder::default();

    let chunk1 = b"event: response.output_text.delta\ndata: {\"del";
    let events1 = decoder.ingest(chunk1).unwrap();
    assert_eq!(events1.len(), 0);

    let chunk2 = b"ta\": \"Hello\"}\n\n";
    let events2 = decoder.ingest(chunk2).unwrap();
    assert_eq!(events2.len(), 1);
    assert_eq!(events2[0].0, "response.output_text.delta");
    assert_eq!(events2[0].1, "{\"delta\": \"Hello\"}");
}

#[test]
fn test_sse_decoder_crlf_delimiter() {
    let mut decoder = ResponsesSseDecoder::default();
    let chunk = b"event: response.created\r\ndata: {\"id\": \"resp_123\"}\r\n\r\n";

    let events = decoder.ingest(chunk).unwrap();

    assert_eq!(events.len(), 1);
    assert_eq!(events[0].0, "response.created");
}

#[test]
fn test_sse_decoder_empty_data() {
    let mut decoder = ResponsesSseDecoder::default();
    let chunk = b"event: response.in_progress\ndata: \n\n";

    let events = decoder.ingest(chunk).unwrap();

    assert_eq!(events.len(), 1);
    assert_eq!(events[0].0, "response.in_progress");
    assert_eq!(events[0].1, "");
}

#[test]
fn test_sse_decoder_multiline_data() {
    let mut decoder = ResponsesSseDecoder::default();
    let chunk = b"event: response.completed\ndata: {\"response\":\ndata:  {\"id\": \"123\"}}\n\n";

    let events = decoder.ingest(chunk).unwrap();

    assert_eq!(events.len(), 1);
    assert_eq!(events[0].0, "response.completed");
    assert!(events[0].1.contains("{\"response\":"));
}

#[test]
fn events_are_the_same_however_the_stream_is_cut() {
    let stream = "data: one\n\ndata: two\ndata: lines\n\n";
    for cut in 0..stream.len() {
        let mut decoder = SseDecoder::default();
        let mut events = decoder.ingest(stream[..cut].as_bytes()).unwrap();
        events.extend(decoder.ingest(stream[cut..].as_bytes()).unwrap());
        assert_eq!(events.len(), 2);
        assert_eq!(events[0], "one");
    }
}

#[test]
fn characters_may_be_cut_in_two() {
    let stream = "data: é€😀\n\n".as_bytes();
    for cut in 0..stream.len() {
        let mut decoder = SplitSseDecoder::default();
        let mut events = decoder.ingest(&stream[..cut]).unwrap();
        events.extend(decoder.ingest(&stream[cut..]).unwrap());
        assert_eq!(events, vec!["é€😀".to_string()]);
    }
    let mut decoder = SplitSseDecoder::default();
    assert!(decoder.ingest(b"data: \xff\xff\n\n").is_err());
    let mut plain = SseDecoder::default();
    assert!(plain.ingest(b"data: \xff\n\n").is_err());
}

#[test]
fn test_failed_response_becomes_lm_api_error() {
    let mut response = blank_response("resp_failed", "gpt-10-mini", "failed");
    response.error = Some(
        Json::parse(
            r#"{"code": "model_not_found", "message": "The requested model 'gpt-10-mini' does not exist."}"#,
        )
        .unwrap(),
    );
    let err = response.into_generate_response().unwrap_err();

    match err {
        SdkError::LmApiError { status, provider, message, .. } => {
            assert_eq!(status, 400);
            assert_eq!(provider, "openai");
            assert!(message.contains("gpt-10-mini"));
        }
        other => panic!("expected LmApiError, got {other:?}"),
    }
}

#[test]
fn test_incomplete_response_becomes_lm_api_error() {
    let mut response = blank_response("resp_incomplete", "gpt-4o-mini", "incomplete");
    response.incomplete_details =
        Some(Json::parse(r#"{"reason": "max_output_tokens"}"#).unwrap());
    let err = response.into_generate_response().unwrap_err();

    match err {
        SdkError::LmApiError { message, .. } => {
            assert!(message.contains("incomplete"));
            assert!(message.contains("max_output_tokens"));
        }
        other => panic!("expected LmApiError, got {other:?}"),
    }
}

#[test]
fn test_response_with_builtin_tool_output_items() {
    let mut response = blank_response("resp_websearch", "gpt-4o-mini", "completed");
    response.output = vec![
        OutputItem::WebSearchCall {
            id: "ws_1".to_string(),
            provider_fields: fields(
                r#"{"action": {"type": "search", "query": "AGNT5 built-in tools"}}"#,
            ),
        },
        OutputItem::CodeInterpreterCall {
            id: "ci_1".to_string(),
            provider_fields: fields(r#"{"code": "print('hello')"}"#),
        },
        OutputItem::FileSearchCall {
            id: "fs_1".to_string(),
            provider_fields: fields(
                r#"{"queries": ["AGNT5"], "results": [{"file_id": "file_1"}]}"#,
            ),
        },
        OutputItem::Unknown,
        said("Done."),
    ];

    let generated = response.into_generate_response().unwrap();
    assert_eq!(generated.text.trim(), "Done.");

    let tool_calls = generated.tool_calls.unwrap();
    assert_eq!(tool_calls.len(), 3);
    assert_eq!(tool_calls[0].id, "ws_1");
    assert_eq!(tool_calls[0].name, "web_search_preview");
    assert_eq!(
        Json::parse(&tool_calls[0].arguments).unwrap().to_text(),
        Json::parse(r#"{"action": {"type": "search", "query": "AGNT5 built-in tools"}}"#)
            .unwrap()
            .to_text()
    );
    assert_eq!(tool_calls[1].id, "ci_1");
    assert_eq!(tool_calls[1].name, "code_interpreter");
    assert_eq!(
        Json::parse(&tool_calls[1].arguments).unwrap().to_text(),
        Json::parse(r#"{"code": "print('hello')"}"#).unwrap().to_text()
    );
    assert_eq!(tool_calls[2].id, "fs_1");
    assert_eq!(tool_calls[2].name, "file_search");
    assert_eq!(
        Json::parse(&tool_calls[2].arguments).unwrap().to_text(),
        Json::parse(r#"{"queries": ["AGNT5"], "results": [{"file_id": "file_1"}]}"#)
            .unwrap()
            .to_text()
    );
}

#[test]
fn test_openai_streaming_error_extracts_message() {
    let err =
        openai_streaming_error(r#"{"error": {"message": "The requested model does not exist."}}"#);

    match err {
        SdkError::LmApiError { message, .. } => {
            assert_eq!(message, "The requested model does not exist.");
        }
        other => panic!("expected LmApiError, got {other:?}"),
    }
}

fn begun(text: &str) -> TextBlock {
    let mut block = TextBlock::new(0, ContentBlockType::Text);
    block.started = true;
    block.aggregate = text.to_string();
    block
}

#[test]
fn test_streaming_state_text_response() {
    let mut state = StreamingState::default();
    state.text = begun("Hello, world!");
    state.response_id = Some("resp_123".to_string());
    state.model = Some("gpt-4o-mini".to_string());
    state.created_at = Some(1700000000);
    state.usage = Some(ApiUsage {
        prompt_tokens: Some(10),
        completion_tokens: Some(5),
        total_tokens: Some(15),
    });

    let response = state.into_generate_response(&ResponseFormat::Text).unwrap();

    assert_eq!(response.id, "resp_123");
    assert_eq!(response.model, "gpt-4o-mini");
    assert_eq!(response.text, "Hello, world!");
    assert_eq!(response.finish_reason, Some("completed".to_string()));
    assert!(response.usage.is_some());
    let usage = response.usage.unwrap();
    assert_eq!(usage.prompt_tokens, Some(10));
    assert_eq!(usage.completion_tokens, Some(5));
}

#[test]
fn test_streaming_state_preserves_tool_calls() {
    let mut state = StreamingState::default();
    state.response_id = Some("resp_tools".to_string());
    state.model = Some("gpt-4o-mini".to_string());
    state.tool_calls = vec![ToolCall {
        id: "call_123".to_string(),
        name: "lookup_weather".to_string(),
        arguments: "{\"city\":\"SF\"}".to_string(),
        provider_data: None,
    }];

    let response = state.into_generate_response(&ResponseFormat::Text).unwrap();
    let tool_calls = response.tool_calls.unwrap();

    assert_eq!(tool_calls.len(), 1);
    assert_eq!(tool_calls[0].id, "call_123");
    assert_eq!(tool_calls[0].name, "lookup_weather");
    assert_eq!(tool_calls[0].arguments, "{\"city\":\"SF\"}");
}

#[test]
fn test_streaming_state_json_response() {
    let mut state = StreamingState::default();
    state.text = begun(r#"{"name": "test", "value": 42}"#);
    state.response_id = Some("resp_456".to_string());
    state.model = Some("gpt-4o".to_string());

    let response = state.into_generate_response(&ResponseFormat::Json).unwrap();

    assert_eq!(response.text, r#"{"name": "test", "value": 42}"#);
    assert!(response.object.is_some());
    let obj = response.object.unwrap();
    assert_eq!(obj.get_str("name"), Some("test"));
    assert_eq!(obj.get_u64("value"), Some(42));
}

#[test]
fn test_streaming_state_empty_defaults() {
    let state = StreamingState::default();
    let response = state.into_generate_response(&ResponseFormat::Text).unwrap();

    assert_eq!(response.id, "");
    assert_eq!(response.model, "");
    assert_eq!(response.text, "");
    assert!(response.usage.is_none());
}

#[test]
fn responses_stream_hands_on_what_it_gathers() {
    let mut state = StreamingState::default();
    let format = ResponseFormat::Text;
    let mut deltas = String::new();
    for piece in ["Hel", "lo"] {
        let output = state.on_event(
            ResponsesEvent::TextDelta(Some(OutputTextDelta {
                delta: piece.to_string(),
                item_id: None,
                output_index: None,
                content_index: None,
            })),
            &format,
        );
        for chunk in output.chunks {
            if let StreamChunk::Delta { content, .. } = chunk {
                deltas.push_str(&content);
            }
        }
    }
    assert_eq!(deltas, "Hello");
    let output = state.on_event(
        ResponsesEvent::Completed(Some(ResponseCompletedEvent {
            response: blank_response("resp_1", "gpt-4o", "completed"),
        })),
        &format,
    );
    assert!(output.is_over());
    let last = output.chunks.into_iter().last();
    match last {
        Some(StreamChunk::Completed(response)) => assert_eq!(response.text, "Hello"),
        other => panic!("expected the whole reply, got {other:?}"),
    }
    assert_eq!(event_kind("response.output_text.delta", "{}"), EventKind::TextDelta);
    assert_eq!(event_kind("response.created", "{}"), EventKind::Created);
    assert_eq!(event_kind("something.else", "{}"), EventKind::Ignored);
}

#[test]
fn a_failed_event_ends_the_stream() {
    let mut state = StreamingState::default();
    let output = state.on_event(
        ResponsesEvent::Error { data: r#"{"message": "boom"}"#.to_string() },
        &ResponseFormat::Text,
    );
    assert!(output.is_over());
    assert!(output.failure.is_some());
    let output = state.on_event(
        ResponsesEvent::Failed {
            event_type: "response.failed".to_string(),
            event: Err("bad".to_string()),
        },
        &ResponseFormat::Text,
    );
    assert!(output.failure.is_some());
}

#[test]
fn test_responses_api_request_simple() {
    let request = GenerateRequest::new("openai/gpt-4o-mini")
        .system_prompt("You are a helpful assistant.")
        .user_message("Hello");

    let payload = ResponsesApiRequest::from_request(&request, "gpt-4o-mini");

    assert_eq!(payload.model, "gpt-4o-mini");
    assert_eq!(payload.instructions, Some("You are a helpful assistant.".to_string()));
    assert_eq!(payload.store, Some(false));
    assert!(payload.stream.is_none());
    assert!(matches!(payload.input, InputType::Simple(ref s) if s == "Hello") || matches!(payload.input, InputType::Items(_)));
}

#[test]
fn test_responses_api_request_with_streaming() {
    let request =
        GenerateRequest::new("openai/gpt-4o-mini").system_prompt("Test").user_message("Hi");

    let mut payload = ResponsesApiRequest::from_request(&request, "gpt-4o-mini");
    payload.stream = Some(true);

    assert_eq!(payload.stream, Some(true));
    assert_eq!(payload.to_json().get("stream").unwrap().as_bool(), Some(true));
}

#[test]
fn test_responses_api_request_reasoning_model() {
    let request = sampled("openai/gpt-5");

    let payload = ResponsesApiRequest::from_request(&request, "gpt-5");

    assert!(payload.temperature.is_none());
    assert!(payload.top_p.is_none());
}

#[test]
fn test_responses_api_request_non_reasoning_model() {
    let request = sampled("openai/gpt-4o");

    let payload = ResponsesApiRequest::from_request(&request, "gpt-4o");

    assert_eq!(shown(&payload.temperature), Some(0.7));
    assert_eq!(shown(&payload.top_p), Some(0.9));
}

fn provider(config: OpenAiConfig) -> OpenAiProvider {
    OpenAiProvider::new(config)
}

#[test]
fn test_normalize_model_with_prefix() {
    let config = OpenAiConfig::new("test-key", RetryConfig::default());
    let provider = provider(config);

    let result = provider.normalize_model("openai/gpt-4o-mini");
    assert_eq!(result.unwrap(), "gpt-4o-mini");
}

#[test]
fn test_normalize_model_wrong_prefix() {
    let config = OpenAiConfig::new("test-key", RetryConfig::default());
    let provider = provider(config);

    let result = provider.normalize_model("anthropic/sonnet-3");
    assert!(result.is_err());
}

#[test]
fn test_normalize_model_no_prefix_required() {
    let config = OpenAiConfig::new("test-key", RetryConfig::default()).with_model_prefix(None);
    let provider = provider(config);

    let result = provider.normalize_model("gpt-4o-mini");
    assert_eq!(result.unwrap(), "gpt-4o-mini");
}

#[test]
fn test_normalize_model_empty() {
    let config = OpenAiConfig::new("test-key", RetryConfig::default());
    let provider = provider(config);

    let result = provider.normalize_model("");
    assert!(result.is_err());
}

#[test]
fn timeouts_are_any_span_of_time() {
    let config = OpenAiConfig::new("test-key", RetryConfig::default());
    assert_eq!(config.timeout, Duration::from_secs(600));
    let config = config.with_timeout(Duration::new(1, 500_000_000));
    assert_eq!(config.timeout.as_secs(), 1);
    assert_eq!(config.timeout.subsec_nanos(), 500_000_000);
    let set = |secs: &str| {
        OpenAiConfig::from_env(
            Some("key".to_string()),
            None,
            None,
            None,
            Some(secs.to_string()),
            RetryConfig::default(),
        )
        .unwrap()
        .timeout
    };
    assert_eq!(set("1200"), Duration::from_secs(1200));
    assert_eq!(set("1.5"), Duration::from_secs(600));
}

#[test]
fn openai_settings_shape_the_request() {
    let config = OpenAiConfig::new("test-key", RetryConfig::default())
        .with_base_url("http://o.test/v1/")
        .with_organization("org")
        .with_header("X-A", "b");
    let provider = provider(config);
    assert_eq!(provider.endpoint(), "http://o.test/v1/responses");
    assert!(provider.headers().iter().any(|(k, v)| k == "X-A" && v == "b"));
    assert!(OpenAiConfig::from_env(None, None, None, None, None, RetryConfig::default()).is_err());
    assert!(validate_request(&GenerateRequest::new("openai/gpt-4o")).is_err());
    assert!(validate_request(&sampled("openai/gpt-4o")).is_ok());
}

#[test]
fn detects_reasoning_models() {
    for model in [
        "gpt-5",
        "gpt-5-mini",
        "gpt-5-nano",
        "o1",
        "o1-preview",
        "o3",
        "o3-mini",
        "o4",
        "o4-mini",
    ] {
        assert!(is_reasoning_model(model), "{model} should be reasoning");
    }
    for model in ["gpt-4o", "gpt-4o-mini", "gpt-4.1", "gpt-3.5-turbo"] {
        assert!(!is_reasoning_model(model), "{model} should not be reasoning");
    }
}

#[test]
fn chat_payload_drops_sampling_params_for_reasoning_models() {
    let request = sampled("openai/gpt-5-mini");

    let payload = build_chat_payload(&request, "gpt-5-mini", false);
    assert!(payload.get("temperature").is_none());
    assert!(payload.get("top_p").is_none());
    let kept = build_chat_payload(&request, "gpt-4o", false);
    assert_eq!(kept.get("temperature").unwrap().to_text(), "0.7");
}

#[test]
fn dropped_parameters_are_warned_of_once() {
    let request = sampled("openai/gpt-5-mini");
    let mut warnings = SamplingWarnings::new();
    assert!(warnings.on_request(&request, "gpt-4o").is_empty());
    assert_eq!(warnings.on_request(&request, "gpt-5-mini"), vec!["temperature", "top_p"]);
    assert!(warnings.on_request(&request, "gpt-5-mini").is_empty());
    assert_eq!(warnings.on_request(&request, "o3"), vec!["temperature", "top_p"]);
    let mut later = sampled("openai/o1");
    later.config.top_p = None;
    assert_eq!(warnings.on_request(&later, "o1"), vec!["temperature"]);
    later = sampled("openai/o1");
    assert_eq!(warnings.on_request(&later, "o1"), vec!["top_p"]);
    assert_eq!(
        dropped_warning("o3", "top_p"),
        "⚠️  'top_p' is not supported by model 'o3' and will be ignored. \
         Remove 'top_p' from your configuration to silence this warning."
    );
}

#[test]
fn responses_of_the_whole_series_take_no_sampling() {
    let request = sampled("openai/o3");
    for model in ["gpt-5", "o1", "o1-mini", "o3", "o3-mini", "o4", "o4-mini"] {
        let payload = ResponsesApiRequest::from_request(&request, model);
        assert!(payload.temperature.is_none() && payload.top_p.is_none(), "{model}");
    }
    for model in ["gpt-4o", "o10", "o4x"] {
        let payload = ResponsesApiRequest::from_request(&request, model);
        assert!(payload.temperature.is_some() && payload.top_p.is_some(), "{model}");
    }
}

#[test]
fn chat_payloads_carry_tools() {
    let request = sampled("openai/gpt-4o")
        .add_tool(ToolDefinition::new("lookup"))
        .tool_choice(Some(ToolChoice::Tool { name: "lookup".to_string() }))
        .message(Message::tool_result("call_1", "42"));
    let payload = build_chat_payload(&request, "gpt-4o", true);
    let text = payload.to_text();
    assert!(text.contains(r#""name":"lookup""#));
    assert!(text.contains(r#""tool_call_id":"call_1""#));
    assert_eq!(payload.get("stream").unwrap().as_bool(), Some(true));
}

fn delta(id: Option<&str>, name: Option<&str>, arguments: &str) -> ApiToolCallDelta {
    ApiToolCallDelta {
        index: 0,
        id: id.map(|s| s.to_string()),
        tool_type: id.map(|_| "function".to_string()),
        function: Some(ApiToolCallFunctionDelta {
            name: name.map(|s| s.to_string()),
            arguments: Some(arguments.to_string()),
        }),
    }
}

#[test]
fn partial_response_accumulates_streaming_tool_call_deltas() {
    let mut partial = PartialResponse::default();

    partial.update_tool_calls(&vec![delta(Some("call_123"), Some("lookup_weather"), "{\"city\"")]);
    partial.update_tool_calls(&vec![delta(None, None, ":\"SF\"}")]);

    let response = partial.into_generate_response(String::new(), &ResponseFormat::Text).unwrap();
    let tool_calls = response.tool_calls.unwrap();

    assert_eq!(tool_calls.len(), 1);
    assert_eq!(tool_calls[0].id, "call_123");
    assert_eq!(tool_calls[0].name, "lookup_weather");
    assert_eq!(tool_calls[0].arguments, "{\"city\":\"SF\"}");
}

fn text_chunk(text: &str, finish: Option<&str>) -> ChatCompletionChunk {
    ChatCompletionChunk {
        id: Some("chatcmpl-1".to_string()),
        model: Some("gpt-4o".to_string()),
        created: Some(5),
        choices: vec![ChunkChoice {
            index: Some(0),
            delta: ChunkDelta {
                role: None,
                content: Some(text.to_string()),
                tool_calls: None,
            },
            finish_reason: finish.map(|s| s.to_string()),
        }],
        usage: None,
    }
}

#[test]
fn chat_streams_hand_on_what_they_gather() {
    let mut stream = ChatStream::new(ResponseFormat::Text);
    let mut deltas = Vec::new();
    for (text, finish) in [("Hel", None), ("lo", Some("stop"))] {
        for chunk in stream.on_chunk(&text_chunk(text, finish)).chunks {
            if let StreamChunk::Delta { content, .. } = chunk {
                deltas.push(content);
            }
        }
    }
    assert_eq!(deltas, vec!["Hel", "lo"]);
    let output = stream.on_done();
    match output.chunks.into_iter().last() {
        Some(StreamChunk::Completed(response)) => {
            assert_eq!(response.text, "Hello");
            assert_eq!(response.id, "chatcmpl-1");
            assert_eq!(response.finish_reason.as_deref(), Some("stop"));
        }
        other => panic!("expected the whole reply, got {other:?}"),
    }
    assert!(unreadable_chunk("eof").message().contains("eof"));
    assert!(format_streaming_error(TransportFault::Timeout, "late", 30)
        .message()
        .contains("30"));
    assert!(!format_streaming_error(TransportFault::Other, "odd", 30).message().is_empty());
}

#[test]
fn whole_chat_replies_are_read() {
    let response = ChatCompletionResponse {
        id: "chatcmpl-1".to_string(),
        model: "gpt-4o".to_string(),
        created: Some(5),
        choices: vec![ChatCompletionChoice {
            index: Some(0),
            message: Some(ChoiceMessage {
                role: Some("assistant".to_string()),
                content: Some(r#"{"a": 1}"#.to_string()),
                tool_calls: None,
            }),
            finish_reason: Some("stop".to_string()),
        }],
        usage: Some(openai_common::ApiUsage {
            prompt_tokens: Some(3),
            completion_tokens: Some(4),
            total_tokens: Some(7),
        }),
    };
    let reply = response.into_generate_response(&ResponseFormat::Json).unwrap();
    assert_eq!(reply.object.unwrap().get_u64("a"), Some(1));
    assert_eq!(reply.usage.unwrap().total_tokens, Some(7));
    let empty = ChatCompletionResponse {
        id: "x".to_string(),
        model: "gpt-4o".to_string(),
        created: None,
        choices: Vec::new(),
        usage: None,
    };
    assert_eq!(empty.into_generate_response(&ResponseFormat::Text).unwrap().text, "");
}

#[test]
fn a_reply_that_is_no_json_is_refused_where_json_is_wanted() {
    let mut response = blank_response("r", "gpt-4o", "completed");
    response.output = vec![said("plain")];
    let reply = response.into_generate_response().unwrap();
    assert_eq!(reply.text, "plain");
    let mut state = StreamingState::default();
    state.text = begun("plain");
    assert!(state.into_generate_response(&ResponseFormat::Json).is_err());
}
