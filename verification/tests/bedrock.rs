use agnt5_sdk_core::error::SdkError;
use agnt5_sdk_core::json::{Json, JsonNumber};
use agnt5_sdk_core::lm::bedrock::{
    build_anthropic_payload, build_bedrock_payload, extract_region_and_model, invoke_url,
    model_family, prepare_call, validate_request, BedrockConfig, BedrockModelFamily,
};
use agnt5_sdk_core::lm::bedrock_response::{
    parse_bedrock_response, response_shape, unreadable_response, AmazonTitanResponse,
    AmazonTitanResult, BedrockAnthropicResponse, BedrockBody, BedrockContentBlock, BedrockShape,
    BedrockUsage, CohereBilledUnits, CohereCommandRResponse, CohereGeneration, CohereMeta,
    CohereResponse, MetaLlamaResponse, MistralChatChoice, MistralChatMessage, MistralChatResponse,
    MistralOutput, MistralResponse,
};
use agnt5_sdk_core::lm::bedrock_signing::{
    derive_signing_key, hmac_sha256, sign_request, sign_request_now, AwsCredentials,
};
use agnt5_sdk_core::lm::bedrock_stream::{BedrockPartialResponse, BedrockStream};
use agnt5_sdk_core::lm::event_stream::AwsEventStreamDecoder;
use agnt5_sdk_core::lm::http::RetryConfig;
use agnt5_sdk_core::lm::interface::{
    GenerateRequest, Message, ResponseFormat, StreamChunk, ToolCall, ToolChoice, ToolDefinition,
};

fn at<'a>(json: &'a Json, path: &[&str]) -> Option<&'a Json> {
    let mut here = json;
    for step in path {
        here = match here {
            Json::Array(items) => items.get(step.parse::<usize>().ok()?)?,
            other => other.get(step)?,
        };
    }
    Some(here)
}

fn text_at(json: &Json, path: &[&str]) -> String {
    at(json, path).and_then(|j| j.as_str()).unwrap_or("").to_string()
}

fn decimal(s: &str) -> JsonNumber {
    JsonNumber::Decimal(s.to_string())
}

fn request() -> GenerateRequest {
    GenerateRequest::new("bedrock/us-west-2/anthropic.sonnet-3-5-20241022-v2:0")
        .system_prompt("Be concise.")
        .user_message("Hello")
        .configure(|config| {
            let mut config = config;
            config.temperature = Some(decimal("0.2"));
            config.top_p = Some(decimal("0.8"));
            config.max_output_tokens = Some(256);
            config
        })
}

fn encode_event_stream_message(headers: &[(&str, &str)], payload: &[u8]) -> Vec<u8> {
    let mut encoded_headers = Vec::new();
    for (name, value) in headers {
        encoded_headers.push(name.len() as u8);
        encoded_headers.extend_from_slice(name.as_bytes());
        encoded_headers.push(7);
        encoded_headers.extend_from_slice(&(value.len() as u16).to_be_bytes());
        encoded_headers.extend_from_slice(value.as_bytes());
    }
    let total_len = 16 + encoded_headers.len() + payload.len();
    let mut message = Vec::with_capacity(total_len);
    message.extend_from_slice(&(total_len as u32).to_be_bytes());
    message.extend_from_slice(&(encoded_headers.len() as u32).to_be_bytes());
    message.extend_from_slice(&crc32fast::hash(&message[..8]).to_be_bytes());
    message.extend_from_slice(&encoded_headers);
    message.extend_from_slice(payload);
    message.extend_from_slice(&crc32fast::hash(&message).to_be_bytes());
    message
}

#[test]
fn routes_supported_model_families() {
    assert_eq!(
        model_family("anthropic.sonnet-3-v1:0").unwrap(),
        BedrockModelFamily::Anthropic
    );
    assert_eq!(
        model_family("meta.llama3-70b-instruct-v1:0").unwrap(),
        BedrockModelFamily::MetaLlama
    );
    assert_eq!(
        model_family("amazon.titan-text-express-v1").unwrap(),
        BedrockModelFamily::AmazonTitan
    );
    assert_eq!(
        model_family("cohere.command-text-v14").unwrap(),
        BedrockModelFamily::Cohere
    );
    assert_eq!(
        model_family("mistral.mistral-7b-instruct-v0:2").unwrap(),
        BedrockModelFamily::Mistral
    );
    assert!(model_family("ai21.j2-ultra-v1").is_err());
}

#[test]
fn builds_native_payloads_for_each_model_family() {
    let request = request();

    let llama = build_bedrock_payload(
        &request,
        "meta.llama3-70b-instruct-v1:0",
        BedrockModelFamily::MetaLlama,
        false,
    )
    .unwrap();
    assert_eq!(llama.get_u64("max_gen_len"), Some(256));
    assert!(text_at(&llama, &["prompt"]).contains("<|start_header_id|>user<|end_header_id|>"));

    let titan = build_bedrock_payload(
        &request,
        "amazon.titan-text-express-v1",
        BedrockModelFamily::AmazonTitan,
        false,
    )
    .unwrap();
    assert_eq!(
        at(&titan, &["textGenerationConfig", "maxTokenCount"]).unwrap().as_u64(),
        Some(256)
    );
    assert!(text_at(&titan, &["inputText"]).contains("User: Hello"));

    let cohere = build_bedrock_payload(
        &request,
        "cohere.command-text-v14",
        BedrockModelFamily::Cohere,
        true,
    )
    .unwrap();
    assert_eq!(cohere.get_u64("max_tokens"), Some(256));
    assert_eq!(cohere.get("stream").unwrap().as_bool(), Some(true));
    let p: f64 = cohere.get("p").unwrap().to_text().parse().unwrap();
    assert!((p - 0.8).abs() < 1e-6);

    let cohere_command_r = build_bedrock_payload(
        &request,
        "cohere.command-r-v1:0",
        BedrockModelFamily::Cohere,
        true,
    )
    .unwrap();
    assert_eq!(cohere_command_r.get_str("message"), Some("Hello"));
    assert_eq!(cohere_command_r.get_str("preamble"), Some("Be concise."));
    assert!(cohere_command_r.get("stream").is_none());

    let mistral = build_bedrock_payload(
        &request,
        "mistral.mistral-7b-instruct-v0:2",
        BedrockModelFamily::Mistral,
        false,
    )
    .unwrap();
    assert_eq!(mistral.get_u64("max_tokens"), Some(256));
    assert!(text_at(&mistral, &["prompt"]).contains("[INST]"));

    let mistral_chat = build_bedrock_payload(
        &request,
        "mistral.mistral-large-2407-v1:0",
        BedrockModelFamily::Mistral,
        false,
    )
    .unwrap();
    assert_eq!(text_at(&mistral_chat, &["messages", "0", "role"]), "system");
    assert_eq!(text_at(&mistral_chat, &["messages", "1", "role"]), "user");
    assert!(mistral_chat.get("prompt").is_none());
}

#[test]
fn anthropic_payload_preserves_tool_calls_and_results() {
    let tool_call = ToolCall {
        id: "toolu_123".to_string(),
        name: "lookup_weather".to_string(),
        arguments: r#"{"city":"Seattle"}"#.to_string(),
        provider_data: None,
    };
    let parameters =
        Json::parse(r#"{"type": "object", "properties": {"city": {"type": "string"}}}"#).unwrap();
    let request = request()
        .add_tool(
            ToolDefinition::new("lookup_weather")
                .description("Look up weather")
                .parameters(parameters),
        )
        .tool_choice(Some(ToolChoice::Auto))
        .message(Message::assistant_with_tool_calls("", vec![tool_call]))
        .message(Message::tool_result("toolu_123", r#"{"temperature":62}"#));

    validate_request(&request, BedrockModelFamily::Anthropic).unwrap();
    let payload = build_anthropic_payload(&request).unwrap();

    assert_eq!(text_at(&payload, &["tools", "0", "name"]), "lookup_weather");
    assert_eq!(text_at(&payload, &["tool_choice", "type"]), "auto");
    assert_eq!(text_at(&payload, &["messages", "1", "content", "0", "type"]), "tool_use");
    assert_eq!(
        text_at(&payload, &["messages", "2", "content", "0", "tool_use_id"]),
        "toolu_123"
    );
}

#[test]
fn non_anthropic_models_reject_tool_requests() {
    let request = request().add_tool(ToolDefinition::new("lookup_weather"));

    assert!(validate_request(&request, BedrockModelFamily::MetaLlama).is_err());
    assert!(validate_request(&request, BedrockModelFamily::AmazonTitan).is_err());
    assert!(validate_request(&request, BedrockModelFamily::Cohere).is_err());
    assert!(validate_request(&request, BedrockModelFamily::Mistral).is_err());
}

#[test]
fn parses_anthropic_tool_call_response() {
    let body = BedrockBody::Anthropic(BedrockAnthropicResponse {
        id: Some("msg_bdrk_1".to_string()),
        model: Some("sonnet-3".to_string()),
        stop_reason: Some("tool_use".to_string()),
        usage: Some(BedrockUsage {
            input_tokens: Some(20),
            output_tokens: Some(8),
            cache_creation_input_tokens: None,
            cache_read_input_tokens: None,
        }),
        content: vec![BedrockContentBlock {
            block_type: "tool_use".to_string(),
            text: None,
            id: Some("toolu_bdrk_1".to_string()),
            name: Some("lookup_weather".to_string()),
            input: Some(Json::parse(r#"{"city": "Seattle"}"#).unwrap()),
        }],
    });
    assert!(body.counts_are_small());

    let response =
        parse_bedrock_response("anthropic.sonnet-3-v1:0", body, &ResponseFormat::Text)
            .unwrap();
    let tool_calls = response.tool_calls.unwrap();

    assert_eq!(response.finish_reason.as_deref(), Some("tool_use"));
    assert_eq!(tool_calls.len(), 1);
    assert_eq!(tool_calls[0].id, "toolu_bdrk_1");
    assert_eq!(tool_calls[0].name, "lookup_weather");
    assert_eq!(tool_calls[0].arguments, r#"{"city":"Seattle"}"#);
}

#[test]
fn parses_native_responses_for_each_model_family() {
    let stop = Some("stop".to_string());
    let complete = Some("COMPLETE".to_string());
    let cases = vec![
        (
            BedrockModelFamily::MetaLlama,
            "meta.llama3-70b-instruct-v1:0",
            BedrockBody::MetaLlama(MetaLlamaResponse {
                generation: "Llama answer".to_string(),
                prompt_token_count: Some(4),
                generation_token_count: Some(2),
                stop_reason: stop.clone(),
            }),
            BedrockShape::MetaLlama,
            "Llama answer",
        ),
        (
            BedrockModelFamily::AmazonTitan,
            "amazon.titan-text-express-v1",
            BedrockBody::AmazonTitan(AmazonTitanResponse {
                input_text_token_count: Some(4),
                results: vec![AmazonTitanResult {
                    token_count: Some(2),
                    output_text: "Titan answer".to_string(),
                    completion_reason: Some("FINISHED".to_string()),
                }],
            }),
            BedrockShape::AmazonTitan,
            "Titan answer",
        ),
        (
            BedrockModelFamily::Cohere,
            "cohere.command-text-v14",
            BedrockBody::Cohere(CohereResponse {
                id: Some("cohere-request".to_string()),
                generations: vec![CohereGeneration {
                    id: Some("cohere-generation".to_string()),
                    text: "Cohere answer".to_string(),
                    finish_reason: complete.clone(),
                }],
            }),
            BedrockShape::Cohere,
            "Cohere answer",
        ),
        (
            BedrockModelFamily::Cohere,
            "cohere.command-r-v1:0",
            BedrockBody::CohereCommandR(CohereCommandRResponse {
                response_id: Some("cohere-response".to_string()),
                generation_id: Some("cohere-generation".to_string()),
                text: "Cohere Command R answer".to_string(),
                finish_reason: complete,
                meta: Some(CohereMeta {
                    billed_units: Some(CohereBilledUnits {
                        input_tokens: Some(4),
                        output_tokens: Some(2),
                    }),
                }),
            }),
            BedrockShape::CohereCommandR,
            "Cohere Command R answer",
        ),
        (
            BedrockModelFamily::Mistral,
            "mistral.mistral-7b-instruct-v0:2",
            BedrockBody::Mistral(MistralResponse {
                outputs: vec![MistralOutput {
                    text: "Mistral answer".to_string(),
                    stop_reason: stop.clone(),
                }],
            }),
            BedrockShape::Mistral,
            "Mistral answer",
        ),
        (
            BedrockModelFamily::Mistral,
            "mistral.mistral-large-2407-v1:0",
            BedrockBody::MistralChat(MistralChatResponse {
                choices: vec![MistralChatChoice {
                    message: MistralChatMessage {
                        content: Some("Mistral chat answer".to_string()),
                    },
                    stop_reason: stop,
                }],
            }),
            BedrockShape::MistralChat,
            "Mistral chat answer",
        ),
    ];

    for (family, model, body, shape, expected) in cases {
        assert_eq!(response_shape(family, model), shape);
        assert!(body.counts_are_small());
        let response = parse_bedrock_response(model, body, &ResponseFormat::Text).unwrap();
        assert_eq!(response.text, expected);
    }
}

#[test]
fn event_stream_decoder_handles_split_frames_and_validates_crc() {
    let frame = encode_event_stream_message(
        &[
            (":message-type", "event"),
            (":event-type", "chunk"),
            (":content-type", "application/json"),
        ],
        br#"{"generation":"hello"}"#,
    );
    let split = frame.len() / 2;
    let mut decoder = AwsEventStreamDecoder { buffer: Vec::new() };

    assert!(decoder.ingest(&frame[..split]).unwrap().is_empty());
    let messages = decoder.ingest(&frame[split..]).unwrap();
    decoder.finish().unwrap();

    assert_eq!(messages.len(), 1);
    assert_eq!(messages[0].header(":event-type"), Some("chunk"));
    assert_eq!(messages[0].payload, br#"{"generation":"hello"}"#);

    let mut corrupt = frame;
    let last = corrupt.len() - 1;
    corrupt[last] ^= 0xff;
    let mut fresh = AwsEventStreamDecoder { buffer: Vec::new() };
    assert!(fresh.ingest(&corrupt).is_err());
}

#[test]
fn a_stream_that_ends_within_a_message_is_refused() {
    let frame = encode_event_stream_message(&[(":event-type", "chunk")], b"{}");
    let mut decoder = AwsEventStreamDecoder { buffer: Vec::new() };
    assert!(decoder.ingest(&frame[..10]).unwrap().is_empty());
    assert_eq!(
        decoder.finish().unwrap_err().message(),
        "Bedrock event stream ended with 10 truncated bytes"
    );
}

#[test]
fn messages_are_read_whatever_follows_them() {
    let first = encode_event_stream_message(&[(":event-type", "chunk")], b"one");
    let second = encode_event_stream_message(&[(":event-type", "chunk")], b"two");
    let mut both = first.clone();
    both.extend_from_slice(&second);
    for cut in 0..both.len() {
        let mut decoder = AwsEventStreamDecoder { buffer: Vec::new() };
        let mut payloads: Vec<Vec<u8>> = Vec::new();
        for part in [&both[..cut], &both[cut..]] {
            for message in decoder.ingest(part).unwrap() {
                payloads.push(message.payload);
            }
        }
        assert_eq!(payloads, vec![b"one".to_vec(), b"two".to_vec()]);
        decoder.finish().unwrap();
    }
}

#[test]
fn anthropic_stream_accumulates_text_tool_calls_and_usage() {
    let events = [
        r#"{"type": "message_start", "message": {"id": "msg_stream_1", "model": "sonnet-3", "usage": {"input_tokens": 15, "output_tokens": 0}}}"#,
        r#"{"type": "content_block_start", "index": 0, "content_block": {"type": "text", "text": "Checking "}}"#,
        r#"{"type": "content_block_start", "index": 1, "content_block": {"type": "tool_use", "id": "toolu_stream_1", "name": "lookup_weather", "input": {}}}"#,
        r#"{"type": "content_block_delta", "index": 1, "delta": {"type": "input_json_delta", "partial_json": "{\"city\":\"Seattle\"}"}}"#,
        r#"{"type": "message_delta", "delta": {"stop_reason": "tool_use"}, "usage": {"output_tokens": 9}}"#,
    ];
    let mut partial = BedrockPartialResponse::new("anthropic.sonnet-3-v1:0".to_string());
    let mut text = String::new();
    for event in events {
        text.push_str(
            &partial
                .absorb_payload(BedrockModelFamily::Anthropic, event.as_bytes())
                .unwrap()
                .join(""),
        );
    }
    assert!(partial.counts_are_small());

    let response = partial.into_generate_response(text, &ResponseFormat::Text).unwrap();
    let tool_calls = response.tool_calls.unwrap();

    assert_eq!(response.text, "Checking ");
    assert_eq!(response.finish_reason.as_deref(), Some("tool_use"));
    assert_eq!(response.usage.unwrap().total_tokens, Some(24));
    assert_eq!(tool_calls[0].id, "toolu_stream_1");
    assert_eq!(tool_calls[0].arguments, r#"{"city":"Seattle"}"#);
}

#[test]
fn bedrock_stream_emits_incremental_deltas_and_completed_response() {
    let headers = [
        (":message-type", "event"),
        (":event-type", "chunk"),
        (":content-type", "application/json"),
    ];
    let first = encode_event_stream_message(
        &headers,
        br#"{"generation":"Hello ","prompt_token_count":3,"generation_token_count":1}"#,
    );
    let second = encode_event_stream_message(
        &headers,
        br#"{"generation":"world","generation_token_count":2,"stop_reason":"stop"}"#,
    );
    let mut body = first;
    body.extend_from_slice(&second);

    let mut stream = BedrockStream::new(
        BedrockModelFamily::MetaLlama,
        "meta.llama3-70b-instruct-v1:0".to_string(),
        ResponseFormat::Text,
    );
    let split = body.len() / 3;
    let mut chunks = Vec::new();
    for part in [&body[..split], &body[split..]] {
        let output = stream.on_bytes(part);
        assert!(output.failure.is_none());
        chunks.extend(output.chunks);
    }
    assert!(stream.partial.counts_are_small());
    let output = stream.finish();
    assert!(output.failure.is_none());
    chunks.extend(output.chunks);

    let mut deltas = Vec::new();
    let mut completed = None;
    for chunk in chunks {
        match chunk {
            StreamChunk::Delta { content, .. } => deltas.push(content),
            StreamChunk::Completed(response) => completed = Some(response),
            StreamChunk::ContentBlockStart { .. } | StreamChunk::ContentBlockStop { .. } => {}
        }
    }

    assert_eq!(deltas, vec!["Hello ", "world"]);
    let completed = completed.expect("stream should emit a completed response");
    assert_eq!(completed.text, "Hello world");
    assert_eq!(completed.finish_reason.as_deref(), Some("stop"));
    assert_eq!(completed.usage.unwrap().total_tokens, Some(5));
}

#[test]
fn an_exception_in_a_stream_ends_it() {
    let frame = encode_event_stream_message(
        &[(":message-type", "exception"), (":exception-type", "throttlingException")],
        br#"{"message":"slow down"}"#,
    );
    let mut stream = BedrockStream::new(
        BedrockModelFamily::MetaLlama,
        "meta.llama3-70b-instruct-v1:0".to_string(),
        ResponseFormat::Text,
    );
    let output = stream.on_bytes(&frame);
    assert!(output.is_over());
    assert!(output.failure.is_some());
}

#[test]
fn a_request_without_turns_is_refused_for_every_family() {
    let empty = GenerateRequest::new("bedrock/us-west-2/cohere.command-r-v1:0");
    for family in [
        BedrockModelFamily::Anthropic,
        BedrockModelFamily::MetaLlama,
        BedrockModelFamily::AmazonTitan,
        BedrockModelFamily::Cohere,
        BedrockModelFamily::Mistral,
    ] {
        assert!(validate_request(&empty, family).is_err());
    }
}

#[test]
fn regions_and_models_are_told_apart() {
    let (region, model) =
        extract_region_and_model("bedrock/us-west-2/meta.llama3-70b-instruct-v1:0", None).unwrap();
    assert_eq!(region, "us-west-2");
    assert_eq!(model, "meta.llama3-70b-instruct-v1:0");
    let (region, _) =
        extract_region_and_model("bedrock/meta.llama3-70b-instruct-v1:0", Some("eu-west-1"))
            .unwrap();
    assert_eq!(region, "eu-west-1");
    assert!(extract_region_and_model("bedrock/meta.llama3-70b-instruct-v1:0", None).is_err());
    assert_eq!(
        invoke_url("us-west-2", "meta.llama3", false),
        "https://bedrock-runtime.us-west-2.amazonaws.com/model/meta.llama3/invoke"
    );
    assert_eq!(
        invoke_url("us-west-2", "meta.llama3", true),
        "https://bedrock-runtime.us-west-2.amazonaws.com/model/meta.llama3/invoke-with-response-stream"
    );
}

#[test]
fn a_call_is_prepared_from_a_request() {
    let call = prepare_call(&request(), None, false).unwrap();
    assert_eq!(call.region, "us-west-2");
    assert_eq!(call.model_id, "anthropic.sonnet-3-5-20241022-v2:0");
    assert_eq!(call.family, BedrockModelFamily::Anthropic);
    assert_eq!(call.payload.get_u64("max_tokens"), Some(256));
}

#[test]
fn bedrock_settings_come_from_the_environment() {
    let missing = BedrockConfig::from_env(None, None, None, None, RetryConfig::disabled());
    match missing {
        Err(SdkError::Configuration { field, .. }) => {
            assert_eq!(field.as_deref(), Some("AWS_ACCESS_KEY_ID"));
        }
        other => panic!("expected a configuration error, got {other:?}"),
    }
    let config = BedrockConfig::from_env(
        Some("key".to_string()),
        Some("secret".to_string()),
        None,
        Some("us-east-1".to_string()),
        RetryConfig::disabled(),
    )
    .unwrap();
    assert_eq!(config.credentials.access_key, "key");
    assert_eq!(config.default_region.as_deref(), Some("us-east-1"));
}

#[test]
fn unreadable_responses_name_the_family() {
    assert_eq!(
        unreadable_response(BedrockShape::MetaLlama, "eof").message(),
        "failed to parse Bedrock Meta Llama response: eof"
    );
}

fn credentials() -> AwsCredentials {
    AwsCredentials {
        access_key: "AKIDEXAMPLE".to_string(),
        secret_key: "wJalrXUtnFEMI/K7MDENG+bPxRfiCYEXAMPLEKEY".to_string(),
        session_token: None,
    }
}

#[test]
fn signing_keys_match_the_published_example() {
    let key = derive_signing_key(
        "wJalrXUtnFEMI/K7MDENG+bPxRfiCYEXAMPLEKEY",
        "20150830",
        "us-east-1",
        "iam",
    );
    let text: String = key.iter().map(|b| format!("{b:02x}")).collect();
    assert_eq!(text, "c4afb1cc5771d871763a393e44b703571b55cc28424d1a5e86da6ed3c154a4b9");
}

#[test]
fn keyed_hashes_match_the_published_example() {
    let mac = hmac_sha256(b"Jefe", "what do ya want for nothing?");
    let text: String = mac.iter().map(|b| format!("{b:02x}")).collect();
    assert_eq!(text, "5bdcc146bf60754e6a042426089575c75a003f089d2739839dec58b964ec3843");
}

#[test]
fn signed_headers_name_the_moment_and_the_body() {
    let signed = sign_request(
        &credentials(),
        "https://bedrock-runtime.us-west-2.amazonaws.com/model/m/invoke",
        "us-west-2",
        b"",
        false,
        "20150830T123600Z",
    )
    .unwrap();
    let find = |name: &str| {
        signed
            .headers
            .iter()
            .find(|(key, _)| key.eq_ignore_ascii_case(name))
            .map(|(_, value)| value.clone())
    };
    assert_eq!(find("x-amz-date").as_deref(), Some("20150830T123600Z"));
    let authorization = find("authorization").unwrap();
    assert!(authorization.starts_with(
        "AWS4-HMAC-SHA256 Credential=AKIDEXAMPLE/20150830/us-west-2/bedrock/aws4_request"
    ));
    let again = sign_request(
        &credentials(),
        "https://bedrock-runtime.us-west-2.amazonaws.com/model/m/invoke",
        "us-west-2",
        b"{}",
        false,
        "20150830T123600Z",
    )
    .unwrap();
    assert_ne!(
        again.headers.iter().find(|(k, _)| k.eq_ignore_ascii_case("authorization")),
        signed.headers.iter().find(|(k, _)| k.eq_ignore_ascii_case("authorization"))
    );
}

#[test]
fn a_url_that_is_none_cannot_be_signed() {
    assert!(sign_request(&credentials(), "no url", "us-west-2", b"", false, "20150830T123600Z")
        .is_err());
    assert!(sign_request_now(&credentials(), "no url", "us-west-2", b"", false).is_err());
    assert!(sign_request_now(
        &credentials(),
        "https://bedrock-runtime.us-west-2.amazonaws.com/model/m/invoke",
        "us-west-2",
        b"",
        true
    )
    .is_ok());
}

#[test]
fn routes_are_read_back_from_model_ids() {
    let (region, id) =
        extract_region_and_model("bedrock/eu-west-1/arn:x/y", Some("us-east-1")).unwrap();
    assert_eq!(region, "eu-west-1");
    assert_eq!(id, "arn:x/y");
}
