use agnt5_sdk_core::error::SdkError;
use agnt5_sdk_core::json::{Json, JsonNumber};
use agnt5_sdk_core::lm::google::{
    build_cached_content_payload, build_gemini_payload, cached_content_name, normalize_model,
    validate_request, GoogleConfig, GoogleProvider,
};
use agnt5_sdk_core::lm::google_response::{
    event_text, GeminiCandidate, GeminiContentResponse, GeminiFunctionCall, GeminiPart,
    GeminiResponse, GeminiStreamResponse, GeminiUsageMetadata, GoogleStream, PartialResponse,
};
use agnt5_sdk_core::lm::http::RetryConfig;
use agnt5_sdk_core::lm::interface::{
    await_reply, Awaited, GenerateRequest, JsonSchemaFormat, Message, PromptCacheConfig,
    ReasoningEffort, ResponseFormat, StreamChunk, ToolCall,
};

fn at<'a>(json: &'a Json, path: &[&str]) -> Option<&'a Json> {
    let mut here = json;
    for step in path {
        here = match here {
            Json::Array(items) => items.get(step.parse::<usize>().ok()?)?,
            other => other.get(step)?,
        };
    }
    Some(here)
}

fn text_at(json: &Json, path: &[&str]) -> String {
    at(json, path).and_then(|j| j.as_str()).unwrap_or("").to_string()
}

fn part(text: &str) -> GeminiPart {
    GeminiPart {
        text: Some(text.to_string()),
        function_call: None,
        function_response: None,
        thought_signature: None,
    }
}

fn call_part(id: &str, name: &str, args: &str, signature: Option<&str>) -> GeminiPart {
    GeminiPart {
        text: None,
        function_call: Some(GeminiFunctionCall {
            id: Some(id.to_string()),
            name: name.to_string(),
            args: Json::parse(args).unwrap(),
        }),
        function_response: None,
        thought_signature: signature.map(|s| s.to_string()),
    }
}

fn candidate(parts: Vec<GeminiPart>) -> GeminiCandidate {
    GeminiCandidate {
        content: Some(GeminiContentResponse { parts }),
        finish_reason: Some("STOP".to_string()),
    }
}

fn usage(prompt: u32, candidates: u32, total: u32) -> Option<GeminiUsageMetadata> {
    Some(GeminiUsageMetadata {
        prompt_token_count: Some(prompt),
        candidates_token_count: Some(candidates),
        total_token_count: Some(total),
        cached_content_token_count: None,
    })
}

fn tool_call(id: &str, name: &str, arguments: &str, data: Option<Json>) -> ToolCall {
    ToolCall {
        id: id.to_string(),
        name: name.to_string(),
        arguments: arguments.to_string(),
        provider_data: data,
    }
}

#[test]
fn generate_payload_includes_cached_content_reference() {
    let request = GenerateRequest::new("google/gemini-2.5-flash")
        .user_message("What are the termination clauses?")
        .configure(|config| {
            let mut config = config;
            config.prompt_cache =
                Some(PromptCacheConfig::enabled().resource("cachedContents/cache_123"));
            config
        });

    validate_request(&request).unwrap();
    let value = build_gemini_payload(&request);

    assert_eq!(value.get_str("cachedContent"), Some("cachedContents/cache_123"));
    assert!(value.get("contents").is_some());
}

#[test]
fn generate_payload_uses_json_schema_and_gemini_thinking_level() {
    let schema = Json::parse(
        r#"{"type": "object", "properties": {"city": {"type": "string"}}, "required": ["city"], "additionalProperties": false}"#,
    )
    .unwrap();
    let request = GenerateRequest::new("google/gemini-3.6-flash")
        .user_message("Return city facts.")
        .response_format(ResponseFormat::JsonSchema(JsonSchemaFormat::new("city_facts", schema)))
        .configure(|config| {
            let mut config = config;
            config.reasoning_effort = Some(ReasoningEffort::Minimal);
            config
        });

    validate_request(&request).unwrap();
    let value = build_gemini_payload(&request);
    let generation_config = value.get("generation_config").unwrap();

    assert!(generation_config.get("response_schema").is_none());
    assert_eq!(
        at(generation_config, &["responseJsonSchema", "additionalProperties"]).unwrap().as_bool(),
        Some(false)
    );
    assert_eq!(text_at(generation_config, &["thinkingConfig", "thinkingLevel"]), "minimal");
}

#[test]
fn cached_content_create_payload_uses_models_prefix_and_ttl() {
    let value = build_cached_content_payload(
        "gemini-2.5-flash",
        &Some("You are a legal analyst.".to_string()),
        &vec!["Large stable document".to_string()],
        Some(3600),
    )
    .unwrap();

    assert_eq!(value.get_str("model"), Some("models/gemini-2.5-flash"));
    assert_eq!(value.get_str("ttl"), Some("3600s"));
    assert_eq!(
        text_at(&value, &["systemInstruction", "parts", "0", "text"]),
        "You are a legal analyst."
    );
    assert_eq!(
        text_at(&value, &["contents", "0", "parts", "0", "text"]),
        "Large stable document"
    );
}

#[test]
fn non_streaming_response_extracts_function_calls() {
    let response = GeminiResponse {
        candidates: Some(vec![candidate(vec![
            part("I'll check."),
            call_part(
                "google-call-123",
                "lookup_weather",
                r#"{"city": "San Francisco"}"#,
                Some("opaque-google-signature"),
            ),
        ])]),
        usage_metadata: usage(12, 4, 16),
    };

    let response =
        response.into_generate_response("gemini-2.5-flash", &ResponseFormat::Text).unwrap();
    let tool_calls = response.tool_calls.unwrap();

    assert_eq!(response.text, "I'll check.");
    assert_eq!(tool_calls.len(), 1);
    assert_eq!(tool_calls[0].id, "google-call-123");
    assert_eq!(tool_calls[0].name, "lookup_weather");
    assert_eq!(tool_calls[0].arguments, r#"{"city":"San Francisco"}"#);
    assert_eq!(
        tool_calls[0].provider_data.as_ref().unwrap().to_text(),
        r#"{"google":{"thought_signature":"opaque-google-signature"}}"#
    );
}

#[test]
fn google_thought_signature_survives_tool_call_replay() {
    let data =
        Json::parse(r#"{"google": {"thought_signature": "opaque-google-signature"}}"#).unwrap();
    let call = tool_call("call_0", "calculate", r#"{"expression":"15 * 23"}"#, Some(data));
    let request = GenerateRequest::new("google/gemini-3.5-flash-lite")
        .message(Message::assistant_with_tool_calls("", vec![call]))
        .message(Message::tool_result("call_0", "345"));

    let value = build_gemini_payload(&request);

    assert_eq!(
        text_at(&value, &["contents", "0", "parts", "0", "thoughtSignature"]),
        "opaque-google-signature"
    );
}

#[test]
fn streaming_response_accumulates_function_calls_in_completed_response() {
    let event = GeminiStreamResponse {
        candidates: Some(vec![candidate(vec![call_part(
            "google-call-456",
            "calculate",
            r#"{"expression": "15 * 7"}"#,
            None,
        )])]),
        usage_metadata: usage(10, 3, 13),
    };
    let mut partial = PartialResponse::new("gemini-2.5-flash".to_string());

    let text = partial.absorb(&event).join("");
    let response = partial
        .into_response_with_id("id".to_string(), text, &ResponseFormat::Text)
        .unwrap();
    let tool_calls = response.tool_calls.unwrap();

    assert_eq!(tool_calls.len(), 1);
    assert_eq!(tool_calls[0].id, "google-call-456");
    assert_eq!(tool_calls[0].name, "calculate");
    assert_eq!(tool_calls[0].arguments, r#"{"expression":"15 * 7"}"#);
    assert_eq!(response.finish_reason.as_deref(), Some("STOP"));
}

#[test]
fn text_only_response_keeps_tool_calls_empty() {
    let response = GeminiResponse {
        candidates: Some(vec![candidate(vec![part("No tool needed.")])]),
        usage_metadata: None,
    };

    let response =
        response.into_generate_response("gemini-2.5-flash", &ResponseFormat::Text).unwrap();

    assert_eq!(response.text, "No tool needed.");
    assert!(response.tool_calls.is_none());
}

#[test]
fn tool_result_resolves_synthetic_id_back_to_function_name() {
    let call = tool_call("call_0", "calculate", r#"{"expression":"15 * 7"}"#, None);
    let request = GenerateRequest::new("google/gemini-2.5-flash")
        .message(Message::assistant_with_tool_calls("", vec![call]))
        .message(Message::tool_result("call_0", r#"{"value":105}"#));

    let value = build_gemini_payload(&request);
    let answer = at(&value, &["contents", "1", "parts", "0", "functionResponse"]).unwrap();

    assert_eq!(text_at(answer, &["name"]), "calculate");
    assert_eq!(text_at(answer, &["id"]), "call_0");
    assert_eq!(at(answer, &["response", "value"]).unwrap().as_u64(), Some(105));
}

#[test]
fn scalar_tool_result_is_wrapped_as_a_google_struct() {
    let call = tool_call("call_0", "calculate", r#"{"expression":"15 * 23"}"#, None);
    let request = GenerateRequest::new("google/gemini-3.5-flash-lite")
        .message(Message::assistant_with_tool_calls("", vec![call]))
        .message(Message::tool_result("call_0", "345"));

    let value = build_gemini_payload(&request);

    assert_eq!(
        at(&value, &["contents", "1", "parts", "0", "functionResponse", "response"])
            .unwrap()
            .to_text(),
        r#"{"result":345}"#
    );
}

#[test]
fn gemini_streams_hand_on_what_they_gather() {
    let mut stream = GoogleStream::new("gemini-2.5-flash".to_string(), ResponseFormat::Text);
    let mut chunks = Vec::new();
    for text in ["Hel", "lo"] {
        let event = GeminiStreamResponse {
            candidates: Some(vec![candidate(vec![part(text)])]),
            usage_metadata: None,
        };
        let output = stream.on_event(&event);
        assert!(output.failure.is_none());
        chunks.extend(output.chunks);
    }
    let output = stream.finish();
    chunks.extend(output.chunks);
    let mut said = String::new();
    let mut whole = None;
    for chunk in chunks {
        match chunk {
            StreamChunk::Delta { content, .. } => said.push_str(&content),
            StreamChunk::Completed(response) => whole = Some(response),
            _ => {}
        }
    }
    let whole = whole.unwrap();
    assert_eq!(said, "Hello");
    assert_eq!(whole.text, "Hello");
    assert_eq!(whole.id.len(), 36);
}

#[test]
fn replies_of_gemini_have_ids_of_their_own() {
    let reply = || GeminiResponse {
        candidates: Some(vec![candidate(vec![part("x")])]),
        usage_metadata: None,
    };
    let a = reply().into_generate_response("m", &ResponseFormat::Text).unwrap();
    let b = reply().into_generate_response("m", &ResponseFormat::Text).unwrap();
    assert_ne!(a.id, b.id);
}

#[test]
fn events_without_a_text_are_skipped() {
    assert_eq!(event_text("   "), None);
    assert_eq!(event_text(" {} ").as_deref(), Some("{}"));
}

#[test]
fn gemini_models_may_have_a_prefix() {
    assert_eq!(normalize_model("google/gemini-2.5-flash").unwrap(), "gemini-2.5-flash");
    assert!(normalize_model("openai/gpt-4o").is_err());
    assert!(normalize_model("").is_err());
}

#[test]
fn cached_contents_are_found_by_name() {
    assert_eq!(cached_content_name("cachedContents/a").unwrap(), "cachedContents/a");
    assert!(cached_content_name("  ").is_err());
    assert!(build_cached_content_payload("m", &None, &Vec::new(), None).is_err());
}

#[test]
fn gemini_endpoints_are_built_from_the_settings() {
    let provider = GoogleProvider::new(
        GoogleConfig::new("key", RetryConfig::disabled()).with_base_url("http://g.test/"),
    );
    assert!(provider.generate_endpoint("m").starts_with("http://g.test/"));
    assert!(provider.generate_endpoint("m").contains("m:generateContent"));
    assert!(provider.stream_endpoint("m").contains("m:streamGenerateContent"));
    assert!(GoogleConfig::from_env(None, None, None, None, None, RetryConfig::disabled()).is_err());
    let number = JsonNumber::Decimal("0.5".to_string());
    assert!(matches!(number.duplicate(), JsonNumber::Decimal(s) if s == "0.5"));
}

#[test]
fn whoever_waits_gets_the_whole_reply() {
    let piece = StreamChunk::ContentBlockStop { index: 0 };
    assert!(matches!(await_reply(Some(Ok(piece))), Awaited::More));
    let failed = await_reply(Some(Err(SdkError::Other("x".to_string()))));
    assert!(matches!(failed, Awaited::Over(Err(SdkError::Other(message))) if message == "x"));
    match await_reply(None) {
        Awaited::Over(Err(error)) => {
            assert_eq!(error.message(), "stream ended without a completion response");
        }
        other => panic!("expected an error, got {other:?}"),
    }
    let whole = GeminiResponse {
        candidates: Some(vec![candidate(vec![part("x")])]),
        usage_metadata: None,
    };
    let whole = whole.into_generate_response("m", &ResponseFormat::Text).unwrap();
    match await_reply(Some(Ok(StreamChunk::Completed(whole)))) {
        Awaited::Over(Ok(response)) => assert_eq!(response.text, "x"),
        other => panic!("expected the reply, got {other:?}"),
    }
}
