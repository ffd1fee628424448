use agnt5_sdk_core::json::{Json, JsonNumber};
use agnt5_sdk_core::lm::interface::{
    GenerateRequest, GenerateResponse, TokenUsage, ToolChoice, ToolDefinition,
};
use agnt5_sdk_core::lm::pricing::{calculate_cost, get_model_pricing, response_cost};
use agnt5_sdk_core::lm::telemetry::{
    can_serialize_messages, can_truncate, create_gen_ai_span, serialize_input_messages,
    serialize_output_messages, serialize_system_instructions, set_cost_attributes, set_duration,
    set_request_attributes, set_response_attributes, set_token_usage_attributes,
    set_tool_request_attributes, should_capture_content, truncate_content,
    try_serialize_tool_definitions, Attribute, AttributeValue,
};

fn dollars(cost: u128) -> f64 {
    cost as f64 * 1e-10
}

fn text_of<'a>(list: &'a Vec<Attribute>, key: &str) -> Option<&'a str> {
    list.iter().find(|a| a.key == key).and_then(|a| match &a.value {
        AttributeValue::Text(s) => Some(s.as_str()),
        _ => None,
    })
}

fn int_of(list: &Vec<Attribute>, key: &str) -> Option<i64> {
    list.iter().find(|a| a.key == key).and_then(|a| match &a.value {
        AttributeValue::Int(n) => Some(*n),
        _ => None,
    })
}

#[test]
fn test_should_capture_content_default_true() {
    assert!(should_capture_content(None));
}

#[test]
fn content_is_not_captured_where_it_is_said() {
    assert!(!should_capture_content(Some("false")));
    assert!(!should_capture_content(Some("FALSE")));
    assert!(!should_capture_content(Some("0")));
    assert!(should_capture_content(Some("yes")));
}

#[test]
fn test_calculate_cost_discounts_cached_tokens() {
    let full = dollars(calculate_cost("openai", "gpt-4o", 1000, 0, None, "family").unwrap());
    assert!((full - 0.0025).abs() < 1e-9, "full cost was {full}");

    let cached = dollars(calculate_cost("openai", "gpt-4o", 1000, 0, Some(500), "family").unwrap());
    assert!((cached - 0.001375).abs() < 1e-9, "cached cost was {cached}");
    assert!(cached < full, "caching should never increase cost");
}

#[test]
fn test_calculate_cost_clamps_cached_over_input() {
    let cost = dollars(calculate_cost("openai", "gpt-4o", 1000, 0, Some(5000), "family").unwrap());
    assert!((cost - 0.00025).abs() < 1e-9, "clamped cost was {cost}");
}

#[test]
fn costs_are_exact() {
    assert_eq!(calculate_cost("openai", "gpt-4o", 1000, 0, None, "family"), Some(25_000_000));
    assert_eq!(calculate_cost("openai", "gpt-4o", 0, 1000, None, "family"), Some(100_000_000));
    assert_eq!(calculate_cost("ollama", "any", 1000, 1000, None, "family"), Some(0));
    assert_eq!(calculate_cost("nobody", "any", 1, 1, None, "family"), None);
    assert!(get_model_pricing("openai", "gpt-4o", "family").is_some());
    assert_eq!(calculate_cost("anthropic", "family-3-opus-20240229", 1000, 0, None, "family"), Some(150_000_000));
    assert_eq!(calculate_cost("anthropic", "family-3-5-haiku", 1000, 0, None, "family"), Some(8_000_000));
    assert_eq!(calculate_cost("anthropic", "family-3-haiku", 1000, 0, None, "family"), Some(2_500_000));
    assert_eq!(calculate_cost("anthropic", "family-3-7-haiku", 1000, 0, None, "family"), None);
    assert_eq!(calculate_cost("anthropic", "x-3-haiku", 1000, 0, None, "family"), None);
}

fn counted(model: &str, prompt: Option<u32>, completion: Option<u32>) -> GenerateResponse {
    GenerateResponse {
        id: "r".to_string(),
        model: model.to_string(),
        created: None,
        text: String::new(),
        usage: Some(TokenUsage {
            prompt_tokens: prompt,
            completion_tokens: completion,
            total_tokens: None,
            cached_tokens: Some(500),
            cache_creation_tokens: None,
        }),
        finish_reason: None,
        tool_calls: None,
        object: None,
        raw: None,
        metadata: None,
    }
}

#[test]
fn costs_of_replies_are_told_where_both_counts_are() {
    let reply = counted("gpt-4o", Some(1000), Some(0));
    assert_eq!(response_cost("openai", &reply, "family"), Some(25_000_000));
    let reply = counted("GPT-4o", Some(1000), Some(0));
    assert_eq!(response_cost("openai", &reply, "family"), Some(25_000_000));
    assert_eq!(response_cost("nobody", &reply, "family"), None);
    let reply = counted("gpt-4o", Some(1000), None);
    assert_eq!(response_cost("openai", &reply, "family"), None);
    let reply = counted("gpt-4o", None, Some(1000));
    assert_eq!(response_cost("openai", &reply, "family"), None);
    let mut reply = counted("gemini-2.0-flash", Some(1000), Some(0));
    let full = calculate_cost("google", "gemini-2.0-flash", 1000, 0, None, "family").unwrap();
    let cached = calculate_cost("google", "gemini-2.0-flash", 1000, 0, Some(500), "family").unwrap();
    assert!(cached < full);
    assert_eq!(response_cost("google", &reply, "family"), Some(cached));
    reply.usage = None;
    assert_eq!(response_cost("google", &reply, "family"), None);
}

#[test]
fn test_truncate_content_short() {
    let content = "Hello, world!";
    assert_eq!(truncate_content(content, 100), "Hello, world!");
}

#[test]
fn test_truncate_content_long() {
    let content = "x".repeat(20000);
    let truncated = truncate_content(&content, 10000);
    assert!(truncated.contains("[truncated"));
    assert!(truncated.len() < content.len());
}

#[test]
fn texts_are_cut_between_characters_only() {
    assert!(can_truncate("éa", 2));
    assert!(!can_truncate("éa", 1));
    assert_eq!(truncate_content("éab", 2), "é... [truncated 2 bytes]");
}

#[test]
fn test_serialize_input_messages_excludes_system_prompt() {
    let request = GenerateRequest::new("gpt-4")
        .system_prompt("You are helpful")
        .user_message("Hello");

    assert!(can_serialize_messages(&request));
    let serialized = serialize_input_messages(&request);
    let array = serialized.as_array().unwrap();
    assert_eq!(array.len(), 1);
    assert_eq!(array[0].get_str("role"), Some("user"));

    let system = serialize_system_instructions("You are helpful");
    let parts = system.as_array().unwrap();
    assert_eq!(parts.len(), 1);
    assert_eq!(parts[0].get_str("content"), Some("You are helpful"));
}

#[test]
fn spans_are_named_after_provider_and_model() {
    let (name, attributes) = create_gen_ai_span("openai", "gpt-4o", &None, &None, &None);
    assert!(name.contains("gpt-4o"));
    assert_eq!(text_of(&attributes, "gen_ai.provider.name"), Some("openai"));
    assert_eq!(text_of(&attributes, "gen_ai.request.model"), Some("gpt-4o"));
}

#[test]
fn requests_and_replies_are_recorded() {
    let mut request = GenerateRequest::new("gpt-4o").user_message("Hi");
    request.config.max_output_tokens = Some(9);
    let mut list: Vec<Attribute> = Vec::new();
    set_request_attributes(&mut list, &request);
    assert_eq!(int_of(&list, "gen_ai.request.max_tokens"), Some(9));
    set_token_usage_attributes(
        &mut list,
        &TokenUsage {
            prompt_tokens: Some(3),
            completion_tokens: Some(4),
            total_tokens: Some(7),
            cached_tokens: Some(1),
            cache_creation_tokens: None,
        },
    );
    assert_eq!(int_of(&list, "gen_ai.usage.input_tokens"), Some(3));
    assert_eq!(int_of(&list, "gen_ai.usage.output_tokens"), Some(4));
    assert_eq!(int_of(&list, "gen_ai.usage.cache_read_input_tokens"), Some(1));
    set_cost_attributes(&mut list, JsonNumber::Decimal("0.1".to_string()));
    set_duration(&mut list, 12);
    assert_eq!(int_of(&list, "gen_ai.request.duration_ms"), Some(12));
    assert_eq!(text_of(&list, "gen_ai.usage.cost.currency"), Some("USD"));
    let response = GenerateResponse {
        id: "r".to_string(),
        model: "gpt-4o".to_string(),
        created: None,
        text: "Hello".to_string(),
        usage: None,
        finish_reason: Some("stop".to_string()),
        tool_calls: None,
        object: None,
        raw: None,
        metadata: None,
    };
    set_response_attributes(&mut list, &response, true);
    assert_eq!(text_of(&list, "gen_ai.response.model"), Some("gpt-4o"));
    assert!(serialize_output_messages(&response).to_text().contains("Hello"));
}

#[test]
fn tools_are_recorded_by_name_and_in_full() {
    let request = GenerateRequest::new("gpt-4o")
        .user_message("Hi")
        .add_tool(
            ToolDefinition::new("look\"up").parameters(Json::parse(r#"{"type":"object"}"#).unwrap()),
        )
        .tool_choice(Some(ToolChoice::Required));
    let mut list: Vec<Attribute> = Vec::new();
    assert!(set_tool_request_attributes(&mut list, &request, true));
    assert!(list.iter().any(|a| a.key.contains("tool")));
    let shown = try_serialize_tool_definitions(&request.tools).unwrap().to_text();
    assert!(shown.contains("look\\\"up"));
    let named = GenerateRequest::new("gpt-4o")
        .user_message("Hi")
        .add_tool(ToolDefinition::new("a"))
        .tool_choice(Some(ToolChoice::Tool { name: "a\"b".to_string() }));
    let mut other: Vec<Attribute> = Vec::new();
    let _ = set_tool_request_attributes(&mut other, &named, false);
    let choice = text_of(&other, "gen_ai.request.tool_choice").unwrap();
    assert_eq!(choice, "Tool { name: \"a\\\"b\" }");
}
