//! Ollama, which runs models locally and speaks OpenAI's chat completions.
use vstd::prelude::*;

use super::openai_chat::OpenAiChatConfig;
use super::settings::{keep_not_blank, not_blank, overridden, override_text};
use crate::error::SdkError;
use crate::text::opt_text;

verus! {

/// Where Ollama is had, and with what key, if it needs one.
#[derive(Clone, Debug)]
pub struct OllamaConfig {
    pub api_key: Option<String>,
    pub base_url: String,
}

impl Default for OllamaConfig {
    fn default() -> (r: Self)
        ensures
            r.api_key is None,
            r.base_url@ == "http://localhost:11434/v1"@,
    {
        OllamaConfig::new()
    }
}

impl OllamaConfig {
    /// Ollama on this machine.
    pub fn new() -> (r: Self)
        ensures
            r.api_key is None,
            r.base_url@ == "http://localhost:11434/v1"@,
    {
        OllamaConfig { api_key: None, base_url: "http://localhost:11434/v1".to_owned() }
    }

    pub fn with_api_key(self, api_key: &str) -> (r: Self)
        ensures
            opt_text(r.api_key) == Some(api_key@),
            r.base_url == self.base_url,
    {
        OllamaConfig { api_key: Some(api_key.to_owned()), ..self }
    }

    pub fn with_base_url(self, base_url: &str) -> (r: Self)
        ensures
            r.api_key == self.api_key,
            r.base_url@ == base_url@,
    {
        OllamaConfig { base_url: base_url.to_owned(), ..self }
    }

    /// The configuration that the environment sets, by the values of
    /// `OLLAMA_BASE_URL` and `OLLAMA_API_KEY`. Neither is needed.
    pub fn from_env(base_url: Option<String>, api_key: Option<String>) -> (r: Result<
        Self,
        SdkError,
    >)
        ensures
            r matches Ok(config) && config.base_url@ == overridden(
                "http://localhost:11434/v1"@,
                opt_text(base_url),
            ) && opt_text(config.api_key) == not_blank(opt_text(api_key)),
    {
        Ok(
            OllamaConfig {
                api_key: keep_not_blank(api_key),
                base_url: override_text("http://localhost:11434/v1", base_url),
            },
        )
    }
}

/// Ollama as a provider of chat completions, for models with the prefix `ollama/`.
#[derive(Clone, Debug)]
pub struct OllamaProvider {
    pub inner: OpenAiChatConfig,
}

/// The key that is sent: without one of its own, a word that stands for it.
pub open spec fn sent_key(api_key: Option<Seq<char>>) -> Seq<char> {
    match api_key {
        Some(key) => key,
        None => "ollama"@,
    }
}

impl OllamaProvider {
    pub fn new(config: OllamaConfig) -> (r: Result<Self, SdkError>)
        ensures
            r matches Ok(provider) && provider.inner.plain(
                sent_key(opt_text(config.api_key)),
                config.base_url@,
                Some("ollama"@),
            ),
    {
        let api_key = match config.api_key {
            Some(key) => key,
            None => "ollama".to_owned(),
        };
        let inner = OpenAiChatConfig::new(api_key.as_str()).with_base_url(
            config.base_url.as_str(),
        ).with_model_prefix(Some("ollama"));
        Ok(OllamaProvider { inner })
    }

    /// The provider that the environment sets (see `OllamaConfig::from_env`).
    pub fn from_env(base_url: Option<String>, api_key: Option<String>) -> (r: Result<
        Self,
        SdkError,
    >)
        ensures
            r matches Ok(provider) && provider.inner.plain(
                sent_key(not_blank(opt_text(api_key))),
                overridden("http://localhost:11434/v1"@, opt_text(base_url)),
                Some("ollama"@),
            ),
    {
        match OllamaConfig::from_env(base_url, api_key) {
            Ok(config) => OllamaProvider::new(config),
            Err(e) => Err(e),
        }
    }
}

/// A key that is set is sent; otherwise a word stands for it.
pub proof fn a_key_is_always_sent(key: Seq<char>)
    ensures
        sent_key(Some(key)) == key,
        sent_key(None) == "ollama"@,
{
}

} // verus!
