//! Hugging Face, which speaks OpenAI's chat completions.
use vstd::prelude::*;

use super::openai_chat::OpenAiChatConfig;
use super::settings::{first_set, overridden, override_text};
use crate::error::{bad_setting, setting_error, ErrorView, SdkError};
use crate::text::{after_prefix, opt_text, strip_prefix, trim, trimmed};

verus! {

/// Where Hugging Face is had, and with what key.
#[derive(Clone, Debug)]
pub struct HuggingFaceConfig {
    pub api_key: String,
    pub base_url: String,
}

/// The key that one of two settings holds.
pub open spec fn key_of(api_key: Option<String>, token: Option<String>) -> Option<String> {
    match api_key {
        Some(_) => api_key,
        None => token,
    }
}

/// What is wrong without a key.
pub open spec fn no_key() -> ErrorView {
    bad_setting("HUGGINGFACE_API_KEY or HF_TOKEN must be set"@, "HUGGINGFACE_API_KEY"@)
}

impl HuggingFaceConfig {
    pub fn new(api_key: &str) -> (r: Self)
        ensures
            r.api_key@ == api_key@,
            r.base_url@ == "https://router.huggingface.co/v1"@,
    {
        HuggingFaceConfig {
            api_key: api_key.to_owned(),
            base_url: "https://router.huggingface.co/v1".to_owned(),
        }
    }

    pub fn with_base_url(self, base_url: &str) -> (r: Self)
        ensures
            r.api_key == self.api_key,
            r.base_url@ == base_url@,
    {
        HuggingFaceConfig { base_url: base_url.to_owned(), ..self }
    }

    /// The configuration that the environment sets, by the values of
    /// `HUGGINGFACE_API_KEY`, `HF_TOKEN` and `HUGGINGFACE_BASE_URL`.
    pub fn from_env(
        api_key: Option<String>,
        token: Option<String>,
        base_url: Option<String>,
    ) -> (r: Result<Self, SdkError>)
        ensures
            match r {
                Ok(config) => key_of(api_key, token) is Some && config.api_key@ == key_of(
                    api_key,
                    token,
                )->0@ && config.base_url@ == overridden(
                    "https://router.huggingface.co/v1"@,
                    opt_text(base_url),
                ),
                Err(e) => key_of(api_key, token) is None && e@ == no_key(),
            },
    {
        let key = match first_set(api_key, token) {
            Some(key) => key,
            None => {
                return Err(
                    setting_error(
                        "HUGGINGFACE_API_KEY or HF_TOKEN must be set".to_owned(),
                        "HUGGINGFACE_API_KEY",
                    ),
                );
            },
        };
        let config = HuggingFaceConfig::new(key.as_str());
        let base_url = override_text(config.base_url.as_str(), base_url);
        Ok(HuggingFaceConfig { base_url, ..config })
    }
}

/// Hugging Face as a provider of chat completions, for models of any name.
#[derive(Clone, Debug)]
pub struct HuggingFaceProvider {
    pub inner: OpenAiChatConfig,
}

/// A model without the prefix `hf/` or `huggingface/`.
pub open spec fn plain_model(model: Seq<char>) -> Seq<char> {
    match after_prefix(trimmed(model), "hf/"@) {
        Some(rest) => rest,
        None => match after_prefix(trimmed(model), "huggingface/"@) {
            Some(rest) => rest,
            None => trimmed(model),
        },
    }
}

impl HuggingFaceProvider {
    pub fn new(config: HuggingFaceConfig) -> (r: Result<Self, SdkError>)
        ensures
            r matches Ok(provider) && provider.inner.plain(config.api_key@, config.base_url@, None),
    {
        let inner = OpenAiChatConfig::new(config.api_key.as_str()).with_base_url(
            config.base_url.as_str(),
        ).with_model_prefix(None);
        Ok(HuggingFaceProvider { inner })
    }

    /// The provider that the environment sets (see `HuggingFaceConfig::from_env`).
    pub fn from_env(
        api_key: Option<String>,
        token: Option<String>,
        base_url: Option<String>,
    ) -> (r: Result<Self, SdkError>)
        ensures
            match r {
                Ok(provider) => key_of(api_key, token) is Some && provider.inner.plain(
                    key_of(api_key, token)->0@,
                    overridden("https://router.huggingface.co/v1"@, opt_text(base_url)),
                    None,
                ),
                Err(e) => key_of(api_key, token) is None && e@ == no_key(),
            },
    {
        match HuggingFaceConfig::from_env(api_key, token, base_url) {
            Ok(config) => HuggingFaceProvider::new(config),
            Err(e) => Err(e),
        }
    }

    /// A model without the prefix `hf/` or `huggingface/`.
    pub fn normalize_model(model: &str) -> (r: String)
        ensures
            r@ == plain_model(model@),
    {
        let id = trim(model);
        if let Some(rest) = strip_prefix(id.as_str(), "hf/") {
            rest
        } else if let Some(rest) = strip_prefix(id.as_str(), "huggingface/") {
            rest
        } else {
            id
        }
    }
}

/// The first of two settings for the key counts; a model goes by its name without the
/// prefix of the service.
pub proof fn keys_and_models_are_plain(
    api_key: Option<String>,
    token: Option<String>,
    model: Seq<char>,
)
    ensures
        api_key is Some ==> key_of(api_key, token) == api_key,
        api_key is None ==> key_of(api_key, token) == token,
        after_prefix(trimmed(model), "hf/"@) matches Some(rest) ==> plain_model(model) == rest,
        after_prefix(trimmed(model), "hf/"@) is None && after_prefix(
            trimmed(model),
            "huggingface/"@,
        ) is Some ==> plain_model(model) == after_prefix(trimmed(model), "huggingface/"@)->0,
        after_prefix(trimmed(model), "hf/"@) is None && after_prefix(
            trimmed(model),
            "huggingface/"@,
        ) is None ==> plain_model(model) == trimmed(model),
        no_key() == bad_setting(
            "HUGGINGFACE_API_KEY or HF_TOKEN must be set"@,
            "HUGGINGFACE_API_KEY"@,
        ),
{
}

} // verus!
