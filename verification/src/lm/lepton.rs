//! Lepton, which speaks OpenAI's chat completions.
use vstd::prelude::*;

use super::huggingface::key_of;
use super::openai_chat::OpenAiChatConfig;
use super::settings::first_set;
use crate::error::{bad_setting, setting_error, ErrorView, SdkError};
use crate::text::{is_blank, trimmed};

verus! {

/// Where Lepton is had, and with what key.
#[derive(Clone, Debug)]
pub struct LeptonConfig {
    pub api_key: String,
    pub base_url: String,
}

/// What the environment lacks: a key, then a place.
pub open spec fn env_fault(key: Option<String>, base_url: Option<String>) -> Option<ErrorView> {
    if key is None {
        Some(
            bad_setting("LEPTON_API_KEY or LEPTON_API_TOKEN must be set"@, "LEPTON_API_KEY"@),
        )
    } else if base_url is None {
        Some(
            bad_setting(
                "LEPTON_BASE_URL must be set to the OpenAI-compatible endpoint"@,
                "LEPTON_BASE_URL"@,
            ),
        )
    } else {
        None
    }
}

/// What is wrong with a place.
pub open spec fn place_fault(base_url: Seq<char>) -> Option<ErrorView> {
    if trimmed(base_url).len() == 0 {
        Some(
            bad_setting(
                "Lepton provider requires LEPTON_BASE_URL or an explicit base URL"@,
                "base_url"@,
            ),
        )
    } else {
        None
    }
}

impl LeptonConfig {
    pub fn new(api_key: &str, base_url: &str) -> (r: Self)
        ensures
            r.api_key@ == api_key@,
            r.base_url@ == base_url@,
    {
        LeptonConfig { api_key: api_key.to_owned(), base_url: base_url.to_owned() }
    }

    pub fn with_base_url(self, base_url: &str) -> (r: Self)
        ensures
            r.api_key == self.api_key,
            r.base_url@ == base_url@,
    {
        LeptonConfig { base_url: base_url.to_owned(), ..self }
    }

    /// The configuration that the environment sets, by the values of
    /// `LEPTON_API_KEY`, `LEPTON_API_TOKEN`, `LEPTON_BASE_URL` and `LEPTON_API_BASE`.
    pub fn from_env(
        api_key: Option<String>,
        api_token: Option<String>,
        base_url: Option<String>,
        api_base: Option<String>,
    ) -> (r: Result<Self, SdkError>)
        ensures
            match r {
                Ok(config) => env_fault(key_of(api_key, api_token), key_of(base_url, api_base))
                    is None && config.api_key@ == key_of(api_key, api_token)->0@
                    && config.base_url@ == key_of(base_url, api_base)->0@,
                Err(e) => env_fault(key_of(api_key, api_token), key_of(base_url, api_base))
                    == Some(e@),
            },
    {
        let key = match first_set(api_key, api_token) {
            Some(key) => key,
            None => {
                return Err(
                    setting_error(
                        "LEPTON_API_KEY or LEPTON_API_TOKEN must be set".to_owned(),
                        "LEPTON_API_KEY",
                    ),
                );
            },
        };
        let place = match first_set(base_url, api_base) {
            Some(place) => place,
            None => {
                return Err(
                    setting_error(
                        "LEPTON_BASE_URL must be set to the OpenAI-compatible endpoint".to_owned(),
                        "LEPTON_BASE_URL",
                    ),
                );
            },
        };
        Ok(LeptonConfig::new(key.as_str(), place.as_str()))
    }
}

/// Lepton as a provider of chat completions, for models with the prefix `lepton/`.
#[derive(Clone, Debug)]
pub struct LeptonProvider {
    pub inner: OpenAiChatConfig,
}

impl LeptonProvider {
    pub fn new(config: LeptonConfig) -> (r: Result<Self, SdkError>)
        ensures
            match r {
                Ok(provider) => place_fault(config.base_url@) is None && provider.inner.plain(
                    config.api_key@,
                    config.base_url@,
                    Some("lepton"@),
                ),
                Err(e) => place_fault(config.base_url@) == Some(e@),
            },
    {
        if is_blank(config.base_url.as_str()) {
            return Err(
                setting_error(
                    "Lepton provider requires LEPTON_BASE_URL or an explicit base URL".to_owned(),
                    "base_url",
                ),
            );
        }
        let inner = OpenAiChatConfig::new(config.api_key.as_str()).with_base_url(
            config.base_url.as_str(),
        ).with_model_prefix(Some("lepton"));
        Ok(LeptonProvider { inner })
    }

    /// The provider that the environment sets (see `LeptonConfig::from_env`).
    pub fn from_env(
        api_key: Option<String>,
        api_token: Option<String>,
        base_url: Option<String>,
        api_base: Option<String>,
    ) -> (r: Result<Self, SdkError>)
        ensures
            ({
                let key = key_of(api_key, api_token);
                let place = key_of(base_url, api_base);
                match r {
                    Ok(provider) => env_fault(key, place) is None && place_fault(place->0@) is None
                        && provider.inner.plain(key->0@, place->0@, Some("lepton"@)),
                    Err(e) => match env_fault(key, place) {
                        Some(fault) => e@ == fault,
                        None => place_fault(place->0@) == Some(e@),
                    },
                }
            }),
    {
        match LeptonConfig::from_env(api_key, api_token, base_url, api_base) {
            Ok(config) => LeptonProvider::new(config),
            Err(e) => Err(e),
        }
    }
}

/// A key is needed, and a place that is not blank; what is missing first is told.
pub proof fn a_key_and_a_place_are_needed(key: Option<String>, base_url: Option<String>, place: Seq<char>)
    ensures
        key is None ==> env_fault(key, base_url) == Some(
            bad_setting("LEPTON_API_KEY or LEPTON_API_TOKEN must be set"@, "LEPTON_API_KEY"@),
        ),
        key is Some && base_url is None ==> env_fault(key, base_url) == Some(
            bad_setting(
                "LEPTON_BASE_URL must be set to the OpenAI-compatible endpoint"@,
                "LEPTON_BASE_URL"@,
            ),
        ),
        key is Some && base_url is Some ==> env_fault(key, base_url) is None,
        trimmed(place).len() == 0 <==> place_fault(place) is Some,
        trimmed(place).len() == 0 ==> place_fault(place) == Some(
            bad_setting(
                "Lepton provider requires LEPTON_BASE_URL or an explicit base URL"@,
                "base_url"@,
            ),
        ),
{
}

} // verus!
