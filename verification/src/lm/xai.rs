//! xAI, which speaks OpenAI's chat completions.
use vstd::prelude::*;

use super::openai_chat::OpenAiChatConfig;
use super::settings::{missing, overridden, override_text, required};
use crate::error::SdkError;
use crate::text::opt_text;

verus! {

/// Where xAI is had, and with what key.
#[derive(Clone, Debug)]
pub struct XaiConfig {
    pub api_key: String,
    pub base_url: String,
}

impl XaiConfig {
    pub fn new(api_key: &str) -> (r: Self)
        ensures
            r.api_key@ == api_key@,
            r.base_url@ == "https://api.x.ai/v1"@,
    {
        XaiConfig {
            api_key: api_key.to_owned(),
            base_url: "https://api.x.ai/v1".to_owned(),
        }
    }

    pub fn with_base_url(self, base_url: &str) -> (r: Self)
        ensures
            r.api_key == self.api_key,
            r.base_url@ == base_url@,
    {
        XaiConfig { base_url: base_url.to_owned(), ..self }
    }

    /// The configuration that the environment sets, by the values of
    /// `XAI_API_KEY` and `XAI_BASE_URL`.
    pub fn from_env(api_key: Option<String>, base_url: Option<String>) -> (r: Result<Self, SdkError>)
        ensures
            match r {
                Ok(config) => api_key is Some && config.api_key@ == api_key->0@
                    && config.base_url@ == overridden("https://api.x.ai/v1"@, opt_text(base_url)),
                Err(e) => api_key is None && e@ == missing("XAI_API_KEY"@),
            },
    {
        let key = match required(api_key, "XAI_API_KEY") {
            Ok(key) => key,
            Err(e) => {
                return Err(e);
            },
        };
        let config = XaiConfig::new(key.as_str());
        let base_url = override_text(config.base_url.as_str(), base_url);
        Ok(XaiConfig { base_url, ..config })
    }
}

/// xAI as a provider of chat completions, for models with the prefix `xai/`.
#[derive(Clone, Debug)]
pub struct XaiProvider {
    pub inner: OpenAiChatConfig,
}

impl XaiProvider {
    pub fn new(config: XaiConfig) -> (r: Result<Self, SdkError>)
        ensures
            r matches Ok(provider) && provider.inner.plain(
                config.api_key@,
                config.base_url@,
                Some("xai"@),
            ),
    {
        let inner = OpenAiChatConfig::new(config.api_key.as_str()).with_base_url(
            config.base_url.as_str(),
        ).with_model_prefix(Some("xai"));
        Ok(XaiProvider { inner })
    }

    /// The provider that the environment sets (see `XaiConfig::from_env`).
    pub fn from_env(api_key: Option<String>, base_url: Option<String>) -> (r: Result<Self, SdkError>)
        ensures
            match r {
                Ok(provider) => api_key is Some && provider.inner.plain(
                    api_key->0@,
                    overridden("https://api.x.ai/v1"@, opt_text(base_url)),
                    Some("xai"@),
                ),
                Err(e) => api_key is None && e@ == missing("XAI_API_KEY"@),
            },
    {
        match XaiConfig::from_env(api_key, base_url) {
            Ok(config) => XaiProvider::new(config),
            Err(e) => Err(e),
        }
    }
}

} // verus!
