use agnt5_sdk_core::json::{Json, JsonNumber};
use agnt5_sdk_core::llm::models::chat::{
    ChatChoice, ChatCompletion, ChatCompletionRequest, ChatCompletionResponse, ChatMessage,
    ChatMessageContent, ContentPart, ImageUrl, ReasoningConfig,
};
use agnt5_sdk_core::llm::models::completion::{
    CompletionChoice, CompletionRequest, CompletionResponse,
};
use agnt5_sdk_core::llm::models::embeddings::{
    EmbeddingData, EmbeddingsInput, EmbeddingsRequest, EmbeddingsResponse,
};
use agnt5_sdk_core::llm::models::streaming::{
    ChatCompletionAccumulator, ChatCompletionChunk, ChatCompletionChunkChoice, ChatMessageDelta,
    StreamingResponse,
};
use agnt5_sdk_core::llm::models::tools::{
    FunctionCall, FunctionDefinition, ResponseFormat, ToolCall, ToolChoice, ToolDefinition,
};
use agnt5_sdk_core::llm::models::usage::{
    CompletionTokensDetails, EmbeddingUsage, PromptTokensDetails, Usage,
};
use agnt5_sdk_core::llm::provider::{get_vendor_name, ProviderConfig, ProviderType};
use agnt5_sdk_core::llm::providers::anthropic::{
    AnthropicChatCompletionRequest, AnthropicChatCompletionResponse, AnthropicContentBlock,
    AnthropicProvider, AnthropicUsage,
};
use agnt5_sdk_core::llm::providers::azure::AzureProvider;
use agnt5_sdk_core::llm::providers::bedrock::BedrockProvider;
use agnt5_sdk_core::llm::providers::call::{request_failed, unreadable_reply};
use agnt5_sdk_core::llm::providers::openai::{check_health, health_failed, OpenAIProvider};
use agnt5_sdk_core::llm::providers::openrouter::provider::OpenRouterProvider;
use agnt5_sdk_core::llm::providers::openrouter::types::{
    OpenRouterChatResponse, OpenRouterChoice, ProviderPreferences, RouteStrategy, Transform,
};
use agnt5_sdk_core::llm::providers::vertexai::{
    GeminiCandidate, GeminiContent, GeminiPart, GeminiResponse, GeminiUsage, VertexAIProvider,
};
use agnt5_sdk_core::llm::registry::{LlmEnvironment, LlmRegistry};
use agnt5_sdk_core::llm::telemetry::{should_trace_content, LlmSpan};
use agnt5_sdk_core::lm::telemetry::{Attribute, AttributeValue};

fn message(role: &str, text: &str) -> ChatMessage {
    ChatMessage {
        role: role.to_string(),
        content: Some(ChatMessageContent::String(text.to_string())),
        name: None,
        tool_calls: None,
        tool_call_id: None,
        refusal: None,
    }
}

fn request(messages: Vec<ChatMessage>) -> ChatCompletionRequest {
    ChatCompletionRequest {
        model: "m".to_string(),
        messages,
        temperature: None,
        top_p: None,
        n: None,
        stream: None,
        stop: None,
        max_tokens: None,
        max_completion_tokens: None,
        presence_penalty: None,
        frequency_penalty: None,
        tools: None,
        tool_choice: None,
        response_format: None,
        reasoning: None,
        logprobs: None,
        top_logprobs: None,
        seed: None,
        user: None,
    }
}

fn reasoning(effort: Option<&str>, max_tokens: Option<u32>) -> ReasoningConfig {
    ReasoningConfig { effort: effort.map(|s| s.to_string()), max_tokens, exclude: None }
}

fn config(t: ProviderType) -> ProviderConfig {
    ProviderConfig::new("key".to_string(), "secret".to_string(), t)
}

fn no_environment() -> LlmEnvironment {
    LlmEnvironment {
        openai_api_key: None,
        openai_base_url: None,
        anthropic_api_key: None,
        azure_api_key: None,
        azure_endpoint: None,
        azure_api_version: None,
        aws_access_key_id: None,
        aws_profile: None,
        aws_region: None,
        gemini_api_key: None,
        google_project: None,
        google_location: None,
        openrouter_api_key: None,
        openrouter_base_url: None,
        openrouter_default_models: None,
        openrouter_app_name: None,
        openrouter_referer: None,
        openrouter_route: None,
    }
}

fn piece(index: u32, text: &str) -> ChatCompletionChunkChoice {
    ChatCompletionChunkChoice {
        index,
        delta: ChatMessageDelta {
            role: None,
            content: Some(text.to_string()),
            tool_calls: None,
            refusal: None,
        },
        finish_reason: None,
        logprobs: None,
    }
}

fn chunk(choices: Vec<ChatCompletionChunkChoice>, usage: Option<Usage>) -> ChatCompletionChunk {
    ChatCompletionChunk {
        id: "c".to_string(),
        object: None,
        created: None,
        model: "m".to_string(),
        choices,
        usage,
        system_fingerprint: None,
    }
}

fn text_of<'a>(list: &'a Vec<Attribute>, key: &str) -> Option<&'a str> {
    list.iter().find(|a| a.key == key).and_then(|a| match &a.value {
        AttributeValue::Text(s) => Some(s.as_str()),
        _ => None,
    })
}

#[test]
fn reasoning_settings_are_checked() {
    assert!(reasoning(Some("high"), None).validate().is_ok());
    assert_eq!(
        reasoning(Some("  "), None).validate(),
        Err("Effort cannot be empty string".to_string())
    );
    assert_eq!(
        reasoning(Some("huge"), None).validate(),
        Err("Invalid effort value. Must be 'low', 'medium', or 'high'".to_string())
    );
    assert!(reasoning(Some("huge"), Some(5)).validate().is_ok());
    assert!(reasoning(None, None).validate().is_ok());
}

#[test]
fn reasoning_is_told_to_each_provider_in_its_way() {
    assert_eq!(reasoning(Some("low"), None).to_openai_effort().as_deref(), Some("low"));
    assert_eq!(reasoning(Some("low"), Some(1)).to_openai_effort(), None);
    assert_eq!(reasoning(Some(" "), None).to_openai_effort(), None);
    assert_eq!(reasoning(None, Some(7)).to_gemini_thinking_budget(), Some(7));
    assert_eq!(reasoning(None, Some(u32::MAX)).to_gemini_thinking_budget(), Some(-1));
    assert_eq!(
        reasoning(Some("medium"), None).to_thinking_prompt().as_deref(),
        Some("Consider this problem thoughtfully.")
    );
    assert_eq!(
        reasoning(Some("low"), None).to_thinking_prompt().as_deref(),
        Some("Think about this briefly.")
    );
    assert_eq!(
        reasoning(None, Some(1)).to_thinking_prompt().as_deref(),
        Some("Think through this step-by-step with detailed reasoning.")
    );
    assert_eq!(reasoning(None, None).to_thinking_prompt(), None);
}

#[test]
fn requests_are_written_field_by_field() {
    let mut asked = request(vec![ChatMessage {
        role: "assistant".to_string(),
        content: Some(ChatMessageContent::Array(vec![ContentPart {
            kind: "image_url".to_string(),
            text: None,
            image_url: Some(ImageUrl { url: "u".to_string(), detail: Some("low".to_string()) }),
        }])),
        name: None,
        tool_calls: Some(vec![ToolCall {
            id: "1".to_string(),
            kind: "function".to_string(),
            function: FunctionCall { name: "f".to_string(), arguments: "{}".to_string() },
        }]),
        tool_call_id: None,
        refusal: None,
    }]);
    asked.temperature = Some(JsonNumber::Decimal("0.7".to_string()));
    asked.stop = Some(vec!["x".to_string()]);
    asked.tools = Some(vec![ToolDefinition {
        kind: "function".to_string(),
        function: FunctionDefinition { name: "f".to_string(), description: None, parameters: None },
    }]);
    asked.tool_choice = Some(ToolChoice::Function { name: "f".to_string() });
    asked.response_format = Some(ResponseFormat::default());
    assert_eq!(
        asked.to_json().to_text(),
        concat_all(&[
            r#"{"messages":[{"content":[{"image_url":{"detail":"low","url":"u"},"type":"image_url"}],"#,
            r#""role":"assistant","tool_calls":[{"function":{"arguments":"{}","name":"f"},"id":"1","type":"function"}]}],"#,
            r#""model":"m","response_format":{"type":"text"},"stop":["x"],"temperature":0.7,"#,
            r#""tool_choice":{"function":{"name":"f"}},"#,
            r#""tools":[{"function":{"description":null,"name":"f","parameters":null},"type":"function"}]}"#,
        ])
    );
    let plain = request(vec![message("user", "hi")]);
    assert_eq!(
        plain.to_json().to_text(),
        r#"{"messages":[{"content":"hi","role":"user"}],"model":"m"}"#
    );
}

fn concat_all(parts: &[&str]) -> String {
    parts.concat()
}

#[test]
fn inputs_are_counted() {
    assert_eq!(EmbeddingsInput::String("".to_string()).len(), 1);
    assert!(EmbeddingsInput::String("".to_string()).is_empty());
    assert_eq!(EmbeddingsInput::Array(vec!["a".to_string(), "b".to_string()]).len(), 2);
    assert!(EmbeddingsInput::Array(Vec::new()).is_empty());
    assert!(!EmbeddingsInput::Array(vec!["".to_string()]).is_empty());
}

fn vectors(data: Vec<Vec<u8>>) -> EmbeddingsResponse<u8> {
    let mut list = Vec::new();
    for (i, embedding) in data.into_iter().enumerate() {
        list.push(EmbeddingData { object: None, index: i as u32, embedding });
    }
    EmbeddingsResponse {
        object: None,
        data: list,
        model: "e".to_string(),
        usage: EmbeddingUsage { prompt_tokens: 2, total_tokens: 2 },
    }
}

#[test]
fn vectors_are_taken_from_a_reply() {
    let reply = vectors(vec![vec![1, 2], vec![3, 4]]);
    assert_eq!(reply.first_embedding(), Some(&vec![1, 2]));
    assert_eq!(reply.embeddings(), vec![&vec![1, 2], &vec![3, 4]]);
    assert_eq!(reply.dimension(), Some(2));
    assert_eq!(vectors(Vec::new()).dimension(), None);
    let asked = EmbeddingsRequest {
        model: "e".to_string(),
        input: EmbeddingsInput::Array(vec!["a".to_string()]),
        encoding_format: None,
        dimensions: Some(4),
        user: None,
    };
    assert_eq!(asked.to_json().to_text(), r#"{"dimensions":4,"input":["a"],"model":"e"}"#);
}

#[test]
fn pieces_are_gathered_by_place() {
    let mut gathered = ChatCompletionAccumulator::new(&chunk(
        vec![piece(0, "a"), piece(1, "x")],
        None,
    ));
    assert_eq!(gathered.choices[0].role, "assistant");
    let mut last = piece(1, "y");
    last.finish_reason = Some("stop".to_string());
    gathered.add_chunk(&chunk(vec![piece(0, "b"), last, piece(7, "lost")], Some(Usage::new(1, 2))));
    assert_eq!(gathered.choices.len(), 2);
    assert_eq!(gathered.choices[0].content, "ab");
    assert_eq!(gathered.choices[1].content, "xy");
    assert_eq!(gathered.choices[1].finish_reason.as_deref(), Some("stop"));
    assert_eq!(gathered.usage.total_tokens, 3);
}

#[test]
fn what_comes_next_is_told_apart() {
    let next = StreamingResponse::Chunk(5);
    assert!(next.is_chunk() && !next.is_error() && !next.is_done());
    assert_eq!(next.into_chunk(), Some(5));
    assert!(StreamingResponse::<u8>::Done.is_done());
    let error =
        StreamingResponse::<u8>::Error(agnt5_sdk_core::error::SdkError::Other("x".to_string()));
    assert_eq!(error.into_error().unwrap().message(), "x");
}

#[test]
fn kinds_of_providers_have_names() {
    for t in [
        ProviderType::OpenAI,
        ProviderType::Anthropic,
        ProviderType::Azure,
        ProviderType::Bedrock,
        ProviderType::VertexAI,
        ProviderType::OpenRouter,
    ] {
        assert_eq!(ProviderType::from_str(t.as_str()).unwrap(), t);
    }
    assert_eq!(ProviderType::from_str("Vertex_AI").unwrap(), ProviderType::VertexAI);
    assert_eq!(ProviderType::from_str("OPEN_ROUTER").unwrap(), ProviderType::OpenRouter);
    assert_eq!(
        ProviderType::from_str("Nope").unwrap_err().message(),
        "Unknown provider type: Nope"
    );
    assert_eq!(get_vendor_name(&ProviderType::Bedrock), "AWS");
    assert_eq!(get_vendor_name(&ProviderType::OpenAI), "openai");
}

#[test]
fn later_settings_count() {
    let config = config(ProviderType::OpenAI)
        .with_param("a".to_string(), "1".to_string())
        .with_param("a".to_string(), "2".to_string());
    assert_eq!(config.get_param("a"), Some("2"));
    assert_eq!(config.get_param("b"), None);
}

#[test]
fn providers_come_from_the_environment() {
    let mut registry = LlmRegistry::<String>::new();
    let failed = registry.load_from_environment(&no_environment(), |c| c.key);
    assert_eq!(failed.unwrap_err().message(), "No LLM providers available");
    let mut env = no_environment();
    env.anthropic_api_key = Some("a".to_string());
    env.aws_region = Some("eu-west-1".to_string());
    env.gemini_api_key = Some("g".to_string());
    env.azure_api_key = Some("z".to_string());
    registry
        .load_from_environment(&env, |c| {
            format!("{}:{}", c.api_key, c.get_param("region").unwrap_or("-"))
        })
        .unwrap();
    assert_eq!(registry.provider_count(), 3);
    assert_eq!(registry.get_provider("anthropic").unwrap(), "a:-");
    assert_eq!(registry.get_provider("bedrock").unwrap(), "aws_credentials:eu-west-1");
    assert!(!registry.has_provider("azure"));
    assert_eq!(registry.get_default_provider().unwrap(), "a:-");
    assert!(registry.require_provider("bedrock").is_ok());
    assert_eq!(
        registry.require_provider("azure").unwrap_err().message(),
        "Provider not found: azure"
    );
    registry.set_default_provider("bedrock").unwrap();
    assert!(registry.remove_provider("bedrock").is_some());
    assert!(registry.get_default_provider().is_none());
    assert!(registry.set_default_provider("bedrock").is_err());
    registry.register_provider("own", "o".to_string());
    assert_eq!(registry.list_providers().len(), 3);
    registry.clear();
    assert_eq!(registry.provider_count(), 0);
}

#[test]
fn openai_is_told_one_limit() {
    let provider = OpenAIProvider::new(&config(ProviderType::OpenAI));
    let mut asked = request(vec![message("user", "hi")]);
    asked.max_tokens = Some(5);
    asked.max_completion_tokens = Some(0);
    asked.reasoning = Some(reasoning(Some("high"), None));
    let chat = provider.chat_call(asked).unwrap();
    assert_eq!(chat.call.url, "https://api.openai.com/v1/chat/completions");
    assert_eq!(chat.call.headers[0].1, "Bearer secret");
    let body = chat.call.body.unwrap();
    assert_eq!(body.get_u64("max_completion_tokens"), Some(5));
    assert!(body.get("max_tokens").is_none());
    assert!(body.get("reasoning").is_none());
    assert_eq!(body.get_str("reasoning_effort"), Some("high"));
    let mut wrong = request(Vec::new());
    wrong.reasoning = Some(reasoning(Some("huge"), None));
    assert_eq!(
        provider.chat_call(wrong).unwrap_err().message(),
        "Invalid reasoning config: Invalid effort value. Must be 'low', 'medium', or 'high'"
    );
    assert!(provider.check_chat_reply(false, true, "200 OK", &None).is_ok());
    assert_eq!(
        provider.check_chat_reply(true, true, "200 OK", &None).unwrap_err().message(),
        "Streaming not yet implemented for OpenAI - use stream: false"
    );
    assert_eq!(
        provider
            .check_chat_reply(false, false, "401 Unauthorized", &Some("no".to_string()))
            .unwrap_err()
            .message(),
        "OpenAI API error (401 Unauthorized): no"
    );
    assert_eq!(
        provider.check_chat_reply(false, false, "500", &None).unwrap_err().message(),
        "OpenAI API error (500): Unknown error"
    );
    assert_eq!(provider.health_call().url, "https://api.openai.com/v1/models");
    assert_eq!(
        check_health("OpenAI", false, "500").unwrap_err().message(),
        "OpenAI health check failed with status: 500"
    );
    assert_eq!(health_failed("OpenAI", "x").message(), "OpenAI health check failed: x");
    assert_eq!(request_failed("OpenAI", "x").message(), "OpenAI API request failed: x");
    assert_eq!(
        unreadable_reply("OpenAI completions", "x").message(),
        "Failed to parse OpenAI completions response: x"
    );
}

fn prompt(text: &str) -> CompletionRequest {
    CompletionRequest {
        model: "m".to_string(),
        prompt: text.to_string(),
        max_tokens: Some(3),
        temperature: None,
        top_p: None,
        frequency_penalty: None,
        presence_penalty: None,
    }
}

#[test]
fn azure_deployments_are_called_by_name() {
    let bare = AzureProvider::new(&config(ProviderType::Azure));
    assert_eq!(
        bare.chat_call(request(Vec::new())).unwrap_err().message(),
        "Azure endpoint not configured"
    );
    let half = config(ProviderType::Azure)
        .with_param("endpoint".to_string(), "https://e.test//".to_string());
    assert_eq!(
        AzureProvider::new(&half).completion_call(&prompt("p")).unwrap_err().message(),
        "Azure deployment_name not configured"
    );
    let full = half.with_param("deployment_name".to_string(), "d".to_string());
    let provider = AzureProvider::new(&full);
    let mut asked = request(vec![message("user", "hi")]);
    asked.max_tokens = Some(1);
    asked.max_completion_tokens = Some(9);
    let call = provider.chat_call(asked).unwrap();
    assert_eq!(
        call.url,
        "https://e.test/openai/deployments/d/chat/completions?api-version=2024-02-01"
    );
    assert_eq!(call.body.unwrap().get_u64("max_tokens"), Some(9));
    let mut streamed = request(Vec::new());
    streamed.stream = Some(true);
    assert_eq!(
        provider.chat_call(streamed).unwrap_err().message(),
        "Streaming not yet implemented for Azure - use stream: false"
    );
    assert_eq!(
        provider.health_call().unwrap().url,
        "https://e.test/openai/models?api-version=2024-02-01"
    );
}

#[test]
fn anthropic_hears_the_system_apart() {
    let mut asked = request(vec![
        message("system", "Be brief."),
        message("user", "hi"),
        message("tool", "ignored"),
        ChatMessage {
            content: Some(ChatMessageContent::Array(vec![
                ContentPart {
                    kind: "text".to_string(),
                    text: Some("a".to_string()),
                    image_url: None,
                },
                ContentPart { kind: "image_url".to_string(), text: None, image_url: None },
                ContentPart {
                    kind: "text".to_string(),
                    text: Some("b".to_string()),
                    image_url: None,
                },
            ])),
            ..message("assistant", "")
        },
    ]);
    asked.reasoning = Some(reasoning(Some("low"), None));
    let own = AnthropicChatCompletionRequest::from(asked);
    assert_eq!(own.system.as_deref(), Some("Think about this briefly.\n\nBe brief."));
    assert_eq!(own.messages.len(), 2);
    assert_eq!(own.messages[1].content, "a\nb");
    assert_eq!(own.max_tokens, 1024);
}

#[test]
fn replies_of_anthropic_become_completions() {
    let reply = |tokens: u32| AnthropicChatCompletionResponse {
        id: "msg".to_string(),
        response_type: "message".to_string(),
        role: "assistant".to_string(),
        content: vec![
            AnthropicContentBlock { content_type: "text".to_string(), text: "He".to_string() },
            AnthropicContentBlock { content_type: "text".to_string(), text: "y".to_string() },
        ],
        model: "sonnet".to_string(),
        stop_reason: Some("end_turn".to_string()),
        stop_sequence: None,
        usage: AnthropicUsage { input_tokens: tokens, output_tokens: 2 },
    };
    assert!(!reply(u32::MAX).counts_fit());
    assert!(reply(3).counts_fit());
    let whole = reply(3).into_completion(77);
    assert_eq!(whole.created, Some(77));
    assert_eq!(whole.usage.total_tokens, 5);
    assert!(matches!(
        &whole.choices[0].message.content,
        Some(ChatMessageContent::String(s)) if s == "Hey"
    ));
    assert!(reply(3).into_completion_now().created.unwrap() > 1_600_000_000);
    let provider = AnthropicProvider::new(&config(ProviderType::Anthropic));
    let call = provider.health_call("family");
    assert_eq!(call.url, "https://api.anthropic.com/v1/messages");
    assert_eq!(
        call.body.unwrap().to_text(),
        r#"{"max_tokens":1,"messages":[{"content":"Hi","role":"user"}],"model":"family-3-haiku-20240307","stream":false}"#
    );
    assert!(provider.completion::<u8>().is_err());
    assert!(provider.embeddings::<u8>().is_err());
    assert!(provider.chat_call(request(Vec::new())).is_ok());
}

#[test]
fn bedrock_is_not_supported_as_a_provider() {
    let provider = BedrockProvider::new(&config(ProviderType::Bedrock));
    assert_eq!(provider.region(), "us-east-1");
    assert!(provider.reply::<u8>().unwrap_err().message().starts_with("Bedrock provider requires"));
}

#[test]
fn gemini_knows_users_and_models_only() {
    let provider = VertexAIProvider::new(&config(ProviderType::VertexAI));
    let mut asked = request(vec![
        message("system", "s"),
        message("assistant", "a"),
        ChatMessage { content: None, ..message("user", "") },
    ]);
    asked.max_tokens = Some(4);
    let call = provider.chat_call(asked).unwrap();
    assert_eq!(
        call.url,
        "https://generativelanguage.googleapis.com/v1beta/models/m:generateContent?key=secret"
    );
    assert_eq!(
        call.body.unwrap().to_text(),
        r#"{"contents":[{"parts":[{"text":"s"}],"role":"user"},{"parts":[{"text":"a"}],"role":"model"}],"generation_config":{"maxOutputTokens":4}}"#
    );
    assert_eq!(provider.location(), "us-central1");
    assert!(provider.project_id().is_err());
    let reply = GeminiResponse {
        candidates: vec![GeminiCandidate {
            content: GeminiContent {
                role: "model".to_string(),
                parts: vec![GeminiPart { text: "x".into() }, GeminiPart { text: "y".into() }],
            },
            finish_reason: None,
        }],
        usage_metadata: Some(GeminiUsage {
            prompt_token_count: 1,
            candidates_token_count: 2,
            total_token_count: 3,
        }),
    };
    let whole = provider.convert_now(reply, "m").unwrap();
    assert!(whole.id.starts_with("gemini-"));
    assert_eq!(whole.usage.total_tokens, 3);
    let other = GeminiResponse {
        candidates: vec![GeminiCandidate {
            content: GeminiContent { role: "model".to_string(), parts: Vec::new() },
            finish_reason: None,
        }],
        usage_metadata: None,
    };
    assert_eq!(provider.convert_with_id(other, "m", "drawn", 1).unwrap().id, "gemini-drawn");
    let none = GeminiResponse { candidates: Vec::new(), usage_metadata: None };
    assert_eq!(
        provider.convert_from_gemini_response(none, "m", 1).unwrap_err().message(),
        "No candidates in Gemini response"
    );
    assert!(provider.completion::<u8>().is_err());
    assert!(provider.embeddings::<u8>().is_err());
}

#[test]
fn openrouter_falls_back_to_other_models() {
    let settings = config(ProviderType::OpenRouter)
        .with_param("default_models".to_string(), "a/b, c/d ".to_string())
        .with_param("route".to_string(), "fallback".to_string())
        .with_param("app_name".to_string(), "app".to_string());
    let provider = OpenRouterProvider::new(&settings, "family")
        .with_referer("r".to_string())
        .with_transforms(vec![Transform::MiddleOut])
        .with_provider_preferences(ProviderPreferences::new().allow(vec!["x".to_string()]));
    assert_eq!(provider.default_models, vec!["a/b", "c/d"]);
    assert_eq!(provider.route, Some(RouteStrategy::Fallback));
    let mut asked = request(vec![message("user", "hi")]);
    asked.max_completion_tokens = Some(8);
    asked.response_format = Some(ResponseFormat { kind: "json_object".to_string() });
    let call = provider.chat_call(asked);
    assert_eq!(call.url, "https://openrouter.ai/api/v1/chat/completions");
    assert_eq!(call.headers[2], ("HTTP-Referer".to_string(), "r".to_string()));
    assert_eq!(call.headers[3], ("X-Title".to_string(), "app".to_string()));
    assert_eq!(
        call.body.unwrap().to_text(),
        concat_all(&[
            r#"{"max_tokens":8,"messages":[{"content":"hi","role":"user"}],"model":"m","models":["a/b","c/d"],"#,
            r#""provider":{"allow":["x"]},"response_format":{"type":"json_object"},"route":"fallback","transforms":["middle_out"]}"#,
        ])
    );
    assert_eq!(
        provider.generation_info_call("g").url,
        "https://openrouter.ai/api/v1/generation?id=g"
    );
    assert!(provider.list_models_call().url.ends_with("/models"));
    assert!(provider.limits_call().url.ends_with("/auth/key"));
    assert_eq!(
        provider.check_chat_reply(false, false, &None).unwrap_err().message(),
        "OpenRouter API error: "
    );
    assert_eq!(
        provider.check_chat_reply(true, true, &None).unwrap_err().message(),
        "Streaming not yet implemented for OpenRouter"
    );
    let usual = OpenRouterProvider::new(&config(ProviderType::OpenRouter), "family");
    assert_eq!(usual.default_models, vec!["anthropic/family-3-haiku"]);
    assert_eq!(usual.timeout().as_secs(), 60);
    let reply = OpenRouterChatResponse {
        id: "i".to_string(),
        object: "chat.completion".to_string(),
        created: 5,
        model: "m".to_string(),
        choices: vec![OpenRouterChoice {
            index: 0,
            message: message("assistant", "yo"),
            finish_reason: Some("stop".to_string()),
            logprobs: None,
        }],
        usage: None,
        provider: None,
    };
    match usual.convert_response::<()>(reply) {
        ChatCompletionResponse::NonStream(whole) => {
            assert_eq!(whole.choices.len(), 1);
            assert_eq!(whole.created, Some(5));
            assert_eq!(whole.usage.total_tokens, 0);
        }
        ChatCompletionResponse::Stream(_) => panic!("expected a whole reply"),
    }
    assert!(usual.completion::<u8>().is_err());
    assert!(usual.embeddings::<u8>().is_err());
}

#[test]
fn conversations_are_recorded() {
    assert!(should_trace_content(Some("true")));
    assert!(!should_trace_content(Some("TRUE")));
    assert!(!should_trace_content(None));
    let asked = request(vec![message("user", "hi")]);
    let span = LlmSpan::start_chat_completion(&asked, ProviderType::Anthropic, true);
    assert_eq!(span.name, "llm.chat_completion");
    assert_eq!(text_of(&span.attributes, "gen_ai.system"), Some("Anthropic"));
    assert_eq!(text_of(&span.attributes, "gen_ai.prompt.0.content"), Some("hi"));
    let quiet = LlmSpan::start_chat_completion(&asked, ProviderType::Anthropic, false);
    assert_eq!(text_of(&quiet.attributes, "gen_ai.prompt.0.content"), None);
}

#[test]
fn pieces_of_a_reply_are_recorded_at_the_end() {
    let asked = request(vec![message("user", "hi")]);
    let mut span = LlmSpan::start_chat_completion(&asked, ProviderType::OpenAI, true);
    span.log_chunk(&chunk(vec![piece(0, "a")], None));
    span.log_chunk(&chunk(vec![piece(0, "b"), piece(4, "z")], Some(Usage::new(1, 2))));
    let gathered = span.accumulated_completion.as_ref().unwrap();
    assert_eq!(gathered.choices.len(), 2);
    let attributes = span.finish(true);
    assert_eq!(text_of(&attributes, "gen_ai.completion.0.content"), Some("ab"));
    assert_eq!(text_of(&attributes, "gen_ai.completion.4.content"), Some("z"));
    let twice = attributes.iter().filter(|a| a.key == "gen_ai.response.id").count();
    assert_eq!(twice, 2);
}

#[test]
fn replies_are_recorded() {
    let mut span = LlmSpan::start_completion(&prompt("once"), ProviderType::OpenAI, true);
    assert_eq!(text_of(&span.attributes, "gen_ai.prompt"), Some("once"));
    let reply = CompletionResponse {
        id: "i".to_string(),
        model: "m".to_string(),
        choices: vec![CompletionChoice {
            index: 0,
            text: "upon".to_string(),
            finish_reason: None,
        }],
        usage: Usage {
            completion_tokens_details: Some(CompletionTokensDetails { reasoning_tokens: Some(7) }),
            prompt_tokens_details: Some(PromptTokensDetails { cached_tokens: Some(8) }),
            ..Usage::new(1, 2)
        },
    };
    span.log_success(&reply, true);
    let attributes = span.close(true);
    assert_eq!(text_of(&attributes, "gen_ai.completion.0.content"), Some("upon"));
    assert_eq!(text_of(&attributes, "gen_ai.completion.0.finish_reason"), Some(""));
    assert!(attributes.iter().any(|a| a.key == "gen_ai.usage.cached_tokens"
        && matches!(a.value, AttributeValue::Int(8))));
    let asked = EmbeddingsRequest {
        model: "e".to_string(),
        input: EmbeddingsInput::Array(vec!["a".to_string(), "b".to_string()]),
        encoding_format: None,
        dimensions: None,
        user: None,
    };
    let mut other = LlmSpan::start_embeddings(&asked, ProviderType::OpenAI, false);
    other.log_success(&vectors(vec![vec![1, 2, 3]]), false);
    assert!(other.attributes.iter().any(|a| a.key == "gen_ai.embeddings.input_count"
        && matches!(a.value, AttributeValue::Int(2))));
    assert!(other.attributes.iter().any(|a| a.key == "gen_ai.embeddings.dimension"
        && matches!(a.value, AttributeValue::Int(3))));
}

#[test]
fn parts_of_a_message_are_recorded_as_json() {
    let asked = request(vec![ChatMessage {
        content: Some(ChatMessageContent::Array(vec![ContentPart {
            kind: "text".to_string(),
            text: Some("q\"".to_string()),
            image_url: None,
        }])),
        ..message("user", "")
    }]);
    let span = LlmSpan::start_chat_completion(&asked, ProviderType::OpenAI, true);
    assert_eq!(
        text_of(&span.attributes, "gen_ai.prompt.0.content"),
        Some(r#"[{"text":"q\"","type":"text"}]"#)
    );
    let whole = ChatCompletion {
        id: "i".to_string(),
        object: None,
        created: None,
        model: "m".to_string(),
        choices: vec![ChatChoice {
            index: 0,
            message: message("assistant", "x"),
            finish_reason: None,
            logprobs: Some(Json::Null),
        }],
        usage: Usage::default(),
        system_fingerprint: None,
    };
    let reply: ChatCompletionResponse<()> = ChatCompletionResponse::NonStream(whole);
    assert!(!reply.is_stream());
}
