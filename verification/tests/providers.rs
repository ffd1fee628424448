use agnt5_sdk_core::error::SdkError;
use agnt5_sdk_core::lm::azure::{validate_request, AzureOpenAiConfig, AzureOpenAiProvider};
use agnt5_sdk_core::lm::deepseek::DeepSeekConfig;
use agnt5_sdk_core::lm::groq::GroqConfig;
use agnt5_sdk_core::lm::http::RetryConfig;
use agnt5_sdk_core::lm::interface::GenerateRequest;
use agnt5_sdk_core::lm::models::provider_model;
use agnt5_sdk_core::lm::moonshot::{MoonshotConfig, MoonshotProvider};
use agnt5_sdk_core::lm::openai_chat::OpenAiChatConfig;
use agnt5_sdk_core::lm::openrouter::{OpenRouterConfig, OpenRouterProvider};
use agnt5_sdk_core::lm::xai::XaiConfig;

#[test]
fn uses_official_api_base_by_default() {
    let config = MoonshotConfig::new("test-key");
    assert_eq!(config.base_url, "https://api.moonshot.ai/v1");
}

#[test]
fn supports_custom_openai_compatible_base_url() {
    let config = MoonshotConfig::new("test-key").with_base_url("http://moonshot.test/v1");
    assert_eq!(config.base_url, "http://moonshot.test/v1");
}

#[test]
fn a_missing_key_is_named() {
    match MoonshotProvider::from_env(None, None) {
        Err(SdkError::Configuration { field, .. }) => {
            assert_eq!(field.as_deref(), Some("MOONSHOT_API_KEY"));
        }
        other => panic!("expected a configuration error, got {other:?}"),
    }
    let provider = MoonshotProvider::from_env(Some("k".to_string()), None).unwrap();
    assert_eq!(provider.inner.base_url, "https://api.moonshot.ai/v1");
    assert!(DeepSeekConfig::from_env(None, None).is_err());
    assert!(GroqConfig::from_env(None, None).is_err());
    assert!(XaiConfig::from_env(None, None).is_err());
}

#[test]
fn openrouter_tells_who_asks() {
    let provider = OpenRouterProvider::new(
        OpenRouterConfig::new("k").with_referer("https://a.test").with_app_id("app"),
    )
    .unwrap();
    let headers = &provider.inner.extra_headers;
    assert!(headers.iter().any(|(_, v)| v == "https://a.test"));
    assert!(headers.iter().any(|(_, v)| v == "app"));
}

#[test]
fn azure_deployments_have_urls_of_their_own() {
    let provider = AzureOpenAiProvider::new(AzureOpenAiConfig::new(
        "key",
        "https://e.test/",
        RetryConfig::disabled(),
    ));
    let url = provider.deployment_url("d");
    assert!(url.starts_with("https://e.test/openai/deployments/d/chat/completions?api-version="));
    assert!(validate_request(&GenerateRequest::new("azure/d")).is_err());
    assert_eq!(provider.normalize_model("azure/d").unwrap(), "d");
}

#[test]
fn a_prefix_makes_no_difference() {
    let with = provider_model("openai/gpt-4o", "OpenAI", "openai");
    let without = provider_model("gpt-4o", "OpenAI", "openai");
    assert_eq!(with.unwrap(), "gpt-4o");
    assert_eq!(without.unwrap(), "gpt-4o");
}

#[test]
fn chat_endpoints_end_alike() {
    let config = OpenAiChatConfig::new("k").with_base_url("http://c.test/v1/");
    assert_eq!(config.endpoint(), "http://c.test/v1/chat/completions");
}
