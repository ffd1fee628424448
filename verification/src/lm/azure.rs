//! Azure OpenAI, which speaks OpenAI's chat completions at places of its own.
use vstd::prelude::*;
use vstd::string::*;

use super::http::RetryConfig;
use super::interface::GenerateRequest;
use super::settings::{missing, overridden, override_seconds, override_text, required, seconds_or};
use crate::duration::{seconds, Duration};
use crate::error::{bad_setting, setting_error, ErrorView, SdkError};
use crate::text::{
    concat3, concat5, opt_text, parted, split_once, str_eq, trim, trim_end_matches, trimmed,
    without_trailing,
};

verus! {

/// Where Azure is had, and with what key.
#[derive(Clone, Debug)]
pub struct AzureOpenAiConfig {
    pub api_key: String,
    pub endpoint: String,
    pub api_version: String,
    pub timeout: Duration,
    pub retry_config: RetryConfig,
}

impl AzureOpenAiConfig {
    pub fn new(api_key: &str, endpoint: &str, retry_config: RetryConfig) -> (r: Self)
        ensures
            r.api_key@ == api_key@,
            r.endpoint@ == endpoint@,
            r.api_version@ == "2024-02-01"@,
            r.timeout@ == seconds(600),
            r.retry_config == retry_config,
    {
        AzureOpenAiConfig {
            api_key: api_key.to_owned(),
            endpoint: endpoint.to_owned(),
            api_version: "2024-02-01".to_owned(),
            timeout: Duration::from_secs(600),
            retry_config,
        }
    }

    pub fn with_api_version(self, version: &str) -> (r: Self)
        ensures
            r == (AzureOpenAiConfig { api_version: r.api_version, ..self }),
            r.api_version@ == version@,
    {
        AzureOpenAiConfig { api_version: version.to_owned(), ..self }
    }

    pub fn with_timeout(self, timeout: Duration) -> (r: Self)
        ensures
            r == (AzureOpenAiConfig { timeout, ..self }),
    {
        AzureOpenAiConfig { timeout, ..self }
    }

    /// The configuration that the environment sets, by the values of
    /// `AZURE_OPENAI_API_KEY`, `AZURE_OPENAI_ENDPOINT`, `AZURE_OPENAI_API_VERSION` and
    /// `AZURE_OPENAI_TIMEOUT_SECS`.
    pub fn from_env(
        api_key: Option<String>,
        endpoint: Option<String>,
        api_version: Option<String>,
        timeout_secs: Option<String>,
        retry_config: RetryConfig,
    ) -> (r: Result<Self, SdkError>)
        ensures
            match r {
                Ok(config) => {
                    &&& api_key == Some(config.api_key)
                    &&& endpoint == Some(config.endpoint)
                    &&& config.api_version@ == overridden("2024-02-01"@, opt_text(api_version))
                    &&& config.timeout@ == seconds(seconds_or(600, opt_text(timeout_secs)))
                    &&& config.retry_config == retry_config
                },
                Err(e) => if api_key is None {
                    e@ == missing("AZURE_OPENAI_API_KEY"@)
                } else {
                    endpoint is None && e@ == missing("AZURE_OPENAI_ENDPOINT"@)
                },
            },
    {
        let api_key = match required(api_key, "AZURE_OPENAI_API_KEY") {
            Ok(key) => key,
            Err(e) => {
                return Err(e);
            },
        };
        let endpoint = match required(endpoint, "AZURE_OPENAI_ENDPOINT") {
            Ok(endpoint) => endpoint,
            Err(e) => {
                return Err(e);
            },
        };
        Ok(
            AzureOpenAiConfig {
                api_key,
                endpoint,
                api_version: override_text("2024-02-01", api_version),
                timeout: Duration::from_secs(override_seconds(600, timeout_secs)),
                retry_config,
            },
        )
    }
}

/// The deployment that a model id names: `azure/<deployment>`.
pub open spec fn deployment_of(model: Seq<char>) -> Result<Seq<char>, ErrorView> {
    match parted(trimmed(model), "/"@) {
        None => Err(bad_setting("Azure model ids must be prefixed with `azure/`"@, "model"@)),
        Some((prefix, rest)) => if prefix != "azure"@ {
            Err(
                bad_setting(
                    "Azure provider expects model ids prefixed with `azure/`; got `"@ + prefix
                        + "`"@,
                    "model"@,
                ),
            )
        } else if trimmed(rest).len() == 0 {
            Err(
                bad_setting(
                    "Azure model id must include deployment after `azure/` prefix"@,
                    "model"@,
                ),
            )
        } else {
            Ok(trimmed(rest))
        },
    }
}

/// Azure as a provider of chat completions.
#[derive(Clone, Debug)]
pub struct AzureOpenAiProvider {
    pub config: AzureOpenAiConfig,
}

impl AzureOpenAiProvider {
    pub fn new(config: AzureOpenAiConfig) -> (r: Self)
        ensures
            r.config == config,
    {
        AzureOpenAiProvider { config }
    }

    /// Where a deployment is had.
    pub fn deployment_url(&self, deployment: &str) -> (r: String)
        ensures
            r@ == without_trailing(self.config.endpoint@, '/') + "/openai/deployments/"@
                + deployment@ + "/chat/completions?api-version="@ + self.config.api_version@,
    {
        let endpoint = trim_end_matches(self.config.endpoint.as_str(), '/');
        concat5(
            endpoint.as_str(),
            "/openai/deployments/",
            deployment,
            "/chat/completions?api-version=",
            self.config.api_version.as_str(),
        )
    }

    /// The deployment that a model id names.
    pub fn normalize_model(&self, model: &str) -> (r: Result<String, SdkError>)
        ensures
            match r {
                Ok(name) => deployment_of(model@) == Ok::<Seq<char>, ErrorView>(name@),
                Err(e) => deployment_of(model@) == Err::<Seq<char>, ErrorView>(e@),
            },
    {
        let id = trim(model);
        match split_once(id.as_str(), "/") {
            Some((prefix, rest)) => {
                if !str_eq(prefix.as_str(), "azure") {
                    return Err(
                        setting_error(
                            concat3(
                                "Azure provider expects model ids prefixed with `azure/`; got `",
                                prefix.as_str(),
                                "`",
                            ),
                            "model",
                        ),
                    );
                }
                let deployment = trim(rest.as_str());
                if deployment.as_str().is_empty() {
                    return Err(
                        setting_error(
                            "Azure model id must include deployment after `azure/` prefix".to_owned(),
                            "model",
                        ),
                    );
                }
                Ok(deployment)
            },
            None => Err(
                setting_error("Azure model ids must be prefixed with `azure/`".to_owned(), "model"),
            ),
        }
    }
}

/// Checks a request before anything is made of it.
pub fn validate_request(request: &GenerateRequest) -> (r: Result<(), SdkError>)
    ensures
        match r {
            Ok(_) => request.system_prompt is Some || request.messages@.len() > 0,
            Err(e) => request.system_prompt is None && request.messages@.len() == 0 && e@
                == (ErrorView::Configuration {
                message:
                    "at least a system prompt or one message is required for Azure OpenAI requests"@,
                field: None,
            }),
        },
{
    if request.system_prompt.is_none() && request.messages.len() == 0 {
        return Err(
            SdkError::Configuration {
                message:
                    "at least a system prompt or one message is required for Azure OpenAI requests".to_owned(),
                field: None,
            },
        );
    }
    Ok(())
}

/// A deployment is named behind the prefix, without the space around it; anything else
/// names none.
pub proof fn deployments_stand_behind_their_prefix(model: Seq<char>)
    ensures
        parted(trimmed(model), "/"@) is None ==> deployment_of(model) == Err::<
            Seq<char>,
            ErrorView,
        >(bad_setting("Azure model ids must be prefixed with `azure/`"@, "model"@)),
        parted(trimmed(model), "/"@) matches Some((prefix, rest)) ==> {
            &&& prefix != "azure"@ ==> deployment_of(model) == Err::<Seq<char>, ErrorView>(
                bad_setting(
                    "Azure provider expects model ids prefixed with `azure/`; got `"@ + prefix
                        + "`"@,
                    "model"@,
                ),
            )
            &&& prefix == "azure"@ && trimmed(rest).len() > 0 ==> deployment_of(model) == Ok::<
                Seq<char>,
                ErrorView,
            >(trimmed(rest))
            &&& prefix == "azure"@ && trimmed(rest).len() == 0 ==> deployment_of(model) == Err::<
                Seq<char>,
                ErrorView,
            >(
                bad_setting(
                    "Azure model id must include deployment after `azure/` prefix"@,
                    "model"@,
                ),
            )
        },
{
}

} // verus!
