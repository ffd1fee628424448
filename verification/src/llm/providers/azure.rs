//! Azure OpenAI as a provider.
use vstd::prelude::*;
use vstd::string::*;

use super::call::{json_body, no_headers, push_json_body, CallView, HttpCall};
use crate::error::{other_error, ErrorView, SdkError};
use crate::json::{Json, JsonView};
use crate::llm::models::chat::ChatCompletionRequest;
use crate::llm::models::completion::CompletionRequest;
use crate::llm::models::embeddings::EmbeddingsRequest;
use crate::llm::provider::{ConfigView, ProviderConfig, ProviderType};
use crate::text::{concat2, concat3, concat5, push_pair, trim_end_matches, without_trailing};

verus! {

/// A request in Azure's form.
#[derive(Debug)]
pub struct AzureChatCompletionRequest {
    pub base: ChatCompletionRequest,
}

/// The request as Azure wants it: there is one limit of tokens, and nothing is said
/// of reasoning.
pub open spec fn azure_base(request: ChatCompletionRequest) -> ChatCompletionRequest {
    ChatCompletionRequest {
        max_tokens: match request.max_completion_tokens {
            Some(n) => Some(n),
            None => request.max_tokens,
        },
        max_completion_tokens: None,
        reasoning: None,
        ..request
    }
}

impl AzureChatCompletionRequest {
    pub fn from(base: ChatCompletionRequest) -> (r: Self)
        ensures
            r.base == azure_base(base),
    {
        let max_tokens = match base.max_completion_tokens {
            Some(n) => Some(n),
            None => base.max_tokens,
        };
        AzureChatCompletionRequest {
            base: ChatCompletionRequest {
                max_tokens,
                max_completion_tokens: None,
                reasoning: None,
                ..base
            },
        }
    }
}

/// Azure OpenAI as a provider.
#[derive(Debug)]
pub struct AzureProvider {
    pub config: ProviderConfig,
}

/// Where the service is found.
pub open spec fn service_url(config: ConfigView) -> Result<Seq<char>, ErrorView> {
    match config.param("endpoint"@) {
        Some(endpoint) => Ok(without_trailing(endpoint, '/') + "/openai"@),
        None => Err(ErrorView::Other("Azure endpoint not configured"@)),
    }
}

/// The version of the interface.
pub open spec fn version(config: ConfigView) -> Seq<char> {
    config.param_or("api_version"@, "2024-02-01"@)
}

/// Where a deployment does something.
pub open spec fn deployment_url(config: ConfigView, what: Seq<char>) -> Result<
    Seq<char>,
    ErrorView,
> {
    match service_url(config) {
        Ok(base) => match config.param("deployment_name"@) {
            Some(deployment) => Ok(
                base + "/deployments/"@ + deployment + what + ("?api-version="@ + version(config)),
            ),
            None => Err(ErrorView::Other("Azure deployment_name not configured"@)),
        },
        Err(e) => Err(e),
    }
}

/// A call with a body.
pub open spec fn posted(config: ConfigView, url: Seq<char>, body: JsonView) -> CallView {
    CallView {
        url,
        headers: Seq::empty().push(("api-key"@, config.api_key)).push(json_body()),
        body: Some(body),
    }
}

impl AzureProvider {
    pub fn new(config: &ProviderConfig) -> (r: Self)
        ensures
            r.config@ == config@,
    {
        AzureProvider { config: config.duplicate() }
    }

    pub fn key(&self) -> (r: String)
        ensures
            r@ == self.config.key@,
    {
        self.config.key.clone()
    }

    pub fn provider_type(&self) -> (r: ProviderType)
        ensures
            r == ProviderType::Azure,
    {
        ProviderType::Azure
    }

    /// Where the service is found.
    pub fn base_url(&self) -> (r: Result<String, SdkError>)
        ensures
            match r {
                Ok(url) => service_url(self.config@) == Ok::<Seq<char>, ErrorView>(url@),
                Err(e) => service_url(self.config@) == Err::<Seq<char>, ErrorView>(e@),
            },
    {
        match self.config.get_param("endpoint") {
            Some(endpoint) => Ok(concat2(trim_end_matches(endpoint, '/').as_str(), "/openai")),
            None => Err(other_error("Azure endpoint not configured")),
        }
    }

    pub fn api_version(&self) -> (r: String)
        ensures
            r@ == version(self.config@),
    {
        self.config.param_or("api_version", "2024-02-01")
    }

    fn url_of(&self, what: &str) -> (r: Result<String, SdkError>)
        ensures
            match r {
                Ok(url) => deployment_url(self.config@, what@) == Ok::<Seq<char>, ErrorView>(url@),
                Err(e) => deployment_url(self.config@, what@) == Err::<Seq<char>, ErrorView>(e@),
            },
    {
        let base = match self.base_url() {
            Ok(base) => base,
            Err(e) => return Err(e),
        };
        match self.config.get_param("deployment_name") {
            Some(deployment) => {
                let end = concat2("?api-version=", self.api_version().as_str());
                Ok(concat5(base.as_str(), "/deployments/", deployment, what, end.as_str()))
            },
            None => Err(other_error("Azure deployment_name not configured")),
        }
    }

    fn post(&self, url: String, body: Json) -> (r: HttpCall)
        ensures
            r@ == posted(self.config@, url@, body@),
    {
        let mut headers = no_headers();
        push_pair(&mut headers, "api-key", self.config.api_key.as_str());
        push_json_body(&mut headers);
        HttpCall { url, headers, body: Some(body) }
    }

    /// The call that goes on with a conversation. A reply piece by piece is not
    /// supported.
    pub fn chat_call(&self, request: ChatCompletionRequest) -> (r: Result<HttpCall, SdkError>)
        ensures
            if request.streams() {
                r matches Err(e) && e@ == ErrorView::Other(
                    "Streaming not yet implemented for Azure - use stream: false"@,
                )
            } else {
                match deployment_url(self.config@, "/chat/completions"@) {
                    Ok(url) => r matches Ok(call) && call@ == posted(
                        self.config@,
                        url,
                        JsonView::Object(azure_base(request).fields()),
                    ),
                    Err(e) => r matches Err(x) && x@ == e,
                }
            },
    {
        if request.wants_stream() {
            return Err(other_error("Streaming not yet implemented for Azure - use stream: false"));
        }
        match self.url_of("/chat/completions") {
            Ok(url) => {
                let own = AzureChatCompletionRequest::from(request);
                Ok(self.post(url, own.base.to_json()))
            },
            Err(e) => Err(e),
        }
    }

    /// The call that completes a prompt.
    pub fn completion_call(&self, request: &CompletionRequest) -> (r: Result<HttpCall, SdkError>)
        ensures
            match deployment_url(self.config@, "/completions"@) {
                Ok(url) => r matches Ok(call) && call@ == posted(
                    self.config@,
                    url,
                    request.document(),
                ),
                Err(e) => r matches Err(x) && x@ == e,
            },
    {
        match self.url_of("/completions") {
            Ok(url) => Ok(self.post(url, request.to_json())),
            Err(e) => Err(e),
        }
    }

    /// The call that embeds texts.
    pub fn embeddings_call(&self, request: &EmbeddingsRequest) -> (r: Result<HttpCall, SdkError>)
        ensures
            match deployment_url(self.config@, "/embeddings"@) {
                Ok(url) => r matches Ok(call) && call@ == posted(
                    self.config@,
                    url,
                    request.document(),
                ),
                Err(e) => r matches Err(x) && x@ == e,
            },
    {
        match self.url_of("/embeddings") {
            Ok(url) => Ok(self.post(url, request.to_json())),
            Err(e) => Err(e),
        }
    }

    /// The call that shows whether the provider is there.
    pub fn health_call(&self) -> (r: Result<HttpCall, SdkError>)
        ensures
            match service_url(self.config@) {
                Ok(base) => r matches Ok(call) && call@ == (CallView {
                    url: base + "/models?api-version="@ + version(self.config@),
                    headers: Seq::empty().push(("api-key"@, self.config.api_key@)),
                    body: None,
                }),
                Err(e) => r matches Err(x) && x@ == e,
            },
    {
        match self.base_url() {
            Ok(base) => {
                let url = concat3(
                    base.as_str(),
                    "/models?api-version=",
                    self.api_version().as_str(),
                );
                let mut headers = no_headers();
                push_pair(&mut headers, "api-key", self.config.api_key.as_str());
                Ok(HttpCall { url, headers, body: None })
            },
            Err(e) => Err(e),
        }
    }
}

/// Azure is sent the request with one limit of tokens, that of the completion first, and
/// nothing of reasoning; all else is as it was.
pub proof fn requests_have_one_limit(request: ChatCompletionRequest)
    ensures
        request.max_completion_tokens is Some ==> azure_base(request).max_tokens
            == request.max_completion_tokens,
        request.max_completion_tokens is None ==> azure_base(request).max_tokens
            == request.max_tokens,
        azure_base(request).max_completion_tokens is None,
        azure_base(request).reasoning is None,
        azure_base(request).model == request.model,
        azure_base(request).messages == request.messages,
        azure_base(request).temperature == request.temperature,
        azure_base(request).top_p == request.top_p,
        azure_base(request).tools == request.tools,
        azure_base(request).tool_choice == request.tool_choice,
        azure_base(request).stop == request.stop,
        azure_base(request).response_format == request.response_format,
{
}

/// A deployment is found below the endpoint, by its name and with the version; what is not
/// configured is told, the endpoint first.
pub proof fn deployments_are_found_by_name(config: ConfigView, what: Seq<char>, url: Seq<char>, body: JsonView)
    ensures
        config.param("endpoint"@) is None ==> deployment_url(config, what) == Err::<
            Seq<char>,
            ErrorView,
        >(ErrorView::Other("Azure endpoint not configured"@)),
        config.param("endpoint"@) is Some && config.param("deployment_name"@) is None
            ==> deployment_url(config, what) == Err::<Seq<char>, ErrorView>(
            ErrorView::Other("Azure deployment_name not configured"@),
        ),
        config.param("endpoint"@) is Some && config.param("deployment_name"@) is Some
            ==> deployment_url(config, what) == Ok::<Seq<char>, ErrorView>(
            without_trailing(config.param("endpoint"@)->0, '/') + "/openai"@ + "/deployments/"@
                + config.param("deployment_name"@)->0 + what + ("?api-version="@ + version(config)),
        ),
        config.param("api_version"@) is None ==> version(config) == "2024-02-01"@,
        config.param("api_version"@) matches Some(v) ==> version(config) == v,
        posted(config, url, body).headers.len() == 2,
        posted(config, url, body).headers[0] == ("api-key"@, config.api_key),
        posted(config, url, body).headers[1] == ("Content-Type"@, "application/json"@),
        posted(config, url, body).url == url,
        posted(config, url, body).body == Some(body),
{
}

} // verus!
