//! OpenRouter, a gateway that speaks OpenAI's chat completions.
use vstd::prelude::*;

use super::openai_chat::OpenAiChatConfig;
use super::settings::{keep_not_blank, missing, not_blank, overridden, override_text, required};
use crate::error::SdkError;
use crate::text::{opt_text, pair_views};

verus! {

/// Where OpenRouter is had, with what key, and who asks.
#[derive(Clone, Debug)]
pub struct OpenRouterConfig {
    pub api_key: String,
    pub base_url: String,
    pub referer: Option<String>,
    pub app_id: Option<String>,
}

impl OpenRouterConfig {
    pub fn new(api_key: &str) -> (r: Self)
        ensures
            r.api_key@ == api_key@,
            r.base_url@ == "https://openrouter.ai/api/v1"@,
            r.referer is None,
            r.app_id is None,
    {
        OpenRouterConfig {
            api_key: api_key.to_owned(),
            base_url: "https://openrouter.ai/api/v1".to_owned(),
            referer: None,
            app_id: None,
        }
    }

    pub fn with_base_url(self, base_url: &str) -> (r: Self)
        ensures
            r == (OpenRouterConfig { base_url: r.base_url, ..self }),
            r.base_url@ == base_url@,
    {
        OpenRouterConfig { base_url: base_url.to_owned(), ..self }
    }

    pub fn with_referer(self, referer: &str) -> (r: Self)
        ensures
            r == (OpenRouterConfig { referer: r.referer, ..self }),
            opt_text(r.referer) == Some(referer@),
    {
        OpenRouterConfig { referer: Some(referer.to_owned()), ..self }
    }

    pub fn with_app_id(self, app_id: &str) -> (r: Self)
        ensures
            r == (OpenRouterConfig { app_id: r.app_id, ..self }),
            opt_text(r.app_id) == Some(app_id@),
    {
        OpenRouterConfig { app_id: Some(app_id.to_owned()), ..self }
    }

    /// The configuration that the environment sets, by the values of
    /// `OPENROUTER_API_KEY`, `OPENROUTER_BASE_URL`, `OPENROUTER_REFERER` and
    /// `OPENROUTER_APP_ID`.
    pub fn from_env(
        api_key: Option<String>,
        base_url: Option<String>,
        referer: Option<String>,
        app_id: Option<String>,
    ) -> (r: Result<Self, SdkError>)
        ensures
            match r {
                Ok(config) => {
                    &&& api_key is Some && config.api_key@ == api_key->0@
                    &&& config.base_url@ == overridden(
                        "https://openrouter.ai/api/v1"@,
                        opt_text(base_url),
                    )
                    &&& opt_text(config.referer) == not_blank(opt_text(referer))
                    &&& opt_text(config.app_id) == not_blank(opt_text(app_id))
                },
                Err(e) => api_key is None && e@ == missing("OPENROUTER_API_KEY"@),
            },
    {
        let key = match required(api_key, "OPENROUTER_API_KEY") {
            Ok(key) => key,
            Err(e) => {
                return Err(e);
            },
        };
        Ok(
            OpenRouterConfig {
                api_key: key,
                base_url: override_text("https://openrouter.ai/api/v1", base_url),
                referer: keep_not_blank(referer),
                app_id: keep_not_blank(app_id),
            },
        )
    }
}

/// OpenRouter as a provider of chat completions. Models keep the prefixes of their
/// own providers.
#[derive(Clone, Debug)]
pub struct OpenRouterProvider {
    pub inner: OpenAiChatConfig,
}

/// One pair if there is a value for it, nothing otherwise.
pub open spec fn pair_if(name: Seq<char>, value: Option<Seq<char>>) -> Seq<(Seq<char>, Seq<char>)> {
    match value {
        Some(v) => seq![(name, v)],
        None => Seq::empty(),
    }
}

impl OpenRouterProvider {
    /// Whether this is the provider for a configuration.
    pub open spec fn serves(
        self,
        api_key: Seq<char>,
        base_url: Seq<char>,
        referer: Option<Seq<char>>,
        app_id: Option<Seq<char>>,
    ) -> bool {
        &&& self.inner.api_key@ == api_key
        &&& self.inner.base_url@ == base_url
        &&& self.inner.model_prefix is None
        &&& pair_views(self.inner.extra_headers@) == pair_if("HTTP-Referer"@, referer) + pair_if(
            "X-Title"@,
            app_id,
        )
    }

    pub fn new(config: OpenRouterConfig) -> (r: Result<Self, SdkError>)
        ensures
            r matches Ok(provider) && provider.serves(
                config.api_key@,
                config.base_url@,
                opt_text(config.referer),
                opt_text(config.app_id),
            ),
    {
        let mut inner = OpenAiChatConfig::new(config.api_key.as_str()).with_base_url(
            config.base_url.as_str(),
        ).with_model_prefix(None);
        if let Some(referer) = &config.referer {
            inner = inner.with_header("HTTP-Referer", referer.as_str());
        }
        if let Some(app_id) = &config.app_id {
            inner = inner.with_header("X-Title", app_id.as_str());
        }
        proof {
            let wanted = pair_if("HTTP-Referer"@, opt_text(config.referer)) + pair_if(
                "X-Title"@,
                opt_text(config.app_id),
            );
            assert(pair_views(inner.extra_headers@) =~= wanted);
        }
        Ok(OpenRouterProvider { inner })
    }

    /// The provider that the environment sets (see `OpenRouterConfig::from_env`).
    pub fn from_env(
        api_key: Option<String>,
        base_url: Option<String>,
        referer: Option<String>,
        app_id: Option<String>,
    ) -> (r: Result<Self, SdkError>)
        ensures
            match r {
                Ok(provider) => api_key is Some && provider.serves(
                    api_key->0@,
                    overridden("https://openrouter.ai/api/v1"@, opt_text(base_url)),
                    not_blank(opt_text(referer)),
                    not_blank(opt_text(app_id)),
                ),
                Err(e) => api_key is None && e@ == missing("OPENROUTER_API_KEY"@),
            },
    {
        match OpenRouterConfig::from_env(api_key, base_url, referer, app_id) {
            Ok(config) => OpenRouterProvider::new(config),
            Err(e) => Err(e),
        }
    }
}

/// The gateway is told who asks, where it is known.
pub proof fn the_gateway_is_told_who_asks(
    provider: OpenRouterProvider,
    api_key: Seq<char>,
    base_url: Seq<char>,
    referer: Seq<char>,
    app_id: Seq<char>,
)
    ensures
        provider.serves(api_key, base_url, Some(referer), Some(app_id)) ==> pair_views(
            provider.inner.extra_headers@,
        ).len() == 2 && pair_views(provider.inner.extra_headers@)[0] == ("HTTP-Referer"@, referer)
            && pair_views(provider.inner.extra_headers@)[1] == ("X-Title"@, app_id),
        provider.serves(api_key, base_url, None, None) ==> provider.inner.extra_headers@.len() == 0
            && provider.inner.api_key@ == api_key && provider.inner.base_url@ == base_url
            && provider.inner.model_prefix is None,
        provider.serves(api_key, base_url, None, Some(app_id)) ==> pair_views(
            provider.inner.extra_headers@,
        ) == seq![("X-Title"@, app_id)],
{
    if provider.serves(api_key, base_url, None, None) {
        assert(pair_views(provider.inner.extra_headers@).len() == 0);
    }
}

} // verus!
