//! OpenAI as a provider.
use vstd::prelude::*;
use vstd::string::*;

use super::call::{
    bearer, check_reply, json_body, no_headers, push_bearer, push_json_body, refusal, CallView,
    ChatCall, HttpCall,
};
use crate::error::{other_error, ErrorView, SdkError};
use crate::json::{field_if, put_opt, text_json, text_view, Json, JsonView};
use crate::llm::models::chat::ChatCompletionRequest;
use crate::llm::models::completion::CompletionRequest;
use crate::llm::models::embeddings::EmbeddingsRequest;
use crate::llm::provider::{ProviderConfig, ProviderType};
use crate::text::{concat2, concat3, opt_text};

verus! {

/// A request in OpenAI's form.
#[derive(Debug)]
pub struct OpenAIChatCompletionRequest {
    pub base: ChatCompletionRequest,
    pub reasoning_effort: Option<String>,
}

/// How many tokens a reply may have: what is said of the completion counts before
/// what is said of all, and zero says nothing.
pub open spec fn completion_tokens(request: ChatCompletionRequest) -> Option<u32> {
    match (request.max_completion_tokens, request.max_tokens) {
        (Some(n), other) => if n > 0 {
            Some(n)
        } else {
            match other {
                Some(m) => if m > 0 {
                    Some(m)
                } else {
                    None
                },
                None => None,
            }
        },
        (None, Some(m)) => if m > 0 {
            Some(m)
        } else {
            None
        },
        (None, None) => None,
    }
}

fn own_completion_tokens(request: &ChatCompletionRequest) -> (r: Option<u32>)
    ensures
        r == completion_tokens(*request),
{
    if let Some(n) = request.max_completion_tokens {
        if n > 0 {
            return Some(n);
        }
    }
    if let Some(m) = request.max_tokens {
        if m > 0 {
            return Some(m);
        }
    }
    None
}

/// The effort that OpenAI is told.
pub open spec fn effort_of(request: ChatCompletionRequest) -> Option<Seq<char>> {
    match request.reasoning {
        Some(reasoning) => reasoning.own_effort(),
        None => None,
    }
}

/// The request as OpenAI wants it.
pub open spec fn openai_base(request: ChatCompletionRequest) -> ChatCompletionRequest {
    ChatCompletionRequest {
        max_completion_tokens: completion_tokens(request),
        max_tokens: None,
        reasoning: None,
        ..request
    }
}

/// A text as a document.
pub open spec fn text_document(s: Option<Seq<char>>) -> Option<JsonView> {
    match s {
        Some(s) => Some(JsonView::String(s)),
        None => None,
    }
}

/// The document that OpenAI is sent.
pub open spec fn openai_document(request: ChatCompletionRequest) -> JsonView {
    JsonView::Object(
        openai_base(request).fields() + field_if(
            "reasoning_effort"@,
            text_document(effort_of(request)),
        ),
    )
}

impl OpenAIChatCompletionRequest {
    pub fn from(base: ChatCompletionRequest) -> (r: Self)
        ensures
            r.base == openai_base(base),
            opt_text(r.reasoning_effort) == effort_of(base),
    {
        let reasoning_effort = match &base.reasoning {
            Some(reasoning) => reasoning.to_openai_effort(),
            None => None,
        };
        let tokens = own_completion_tokens(&base);
        OpenAIChatCompletionRequest {
            base: ChatCompletionRequest {
                max_completion_tokens: tokens,
                max_tokens: None,
                reasoning: None,
                ..base
            },
            reasoning_effort,
        }
    }

    /// The request as a document.
    pub fn to_json(&self) -> (r: Json)
        ensures
            r@ == JsonView::Object(
                self.base.fields() + field_if(
                    "reasoning_effort"@,
                    text_view(self.reasoning_effort),
                ),
            ),
    {
        let mut fields = self.base.to_fields();
        put_opt(&mut fields, "reasoning_effort", text_json(&self.reasoning_effort));
        Json::object(fields)
    }
}

/// What OpenAI is sent of a request depends on how many tokens the reply may have
/// only through the count that holds.
pub proof fn token_limits_are_one(a: ChatCompletionRequest, b: ChatCompletionRequest)
    requires
        completion_tokens(a) == completion_tokens(b),
        b == (ChatCompletionRequest {
            max_tokens: b.max_tokens,
            max_completion_tokens: b.max_completion_tokens,
            ..a
        }),
    ensures
        openai_document(a) == openai_document(b),
{
}

/// OpenAI as a provider.
#[derive(Debug)]
pub struct OpenAIProvider {
    pub config: ProviderConfig,
}

/// What is said where a reply is wanted piece by piece.
pub open spec fn no_streaming() -> ErrorView {
    ErrorView::Other("Streaming not yet implemented for OpenAI - use stream: false"@)
}

impl OpenAIProvider {
    pub fn new(config: &ProviderConfig) -> (r: Self)
        ensures
            r.config@ == config@,
    {
        OpenAIProvider { config: config.duplicate() }
    }

    pub fn key(&self) -> (r: String)
        ensures
            r@ == self.config.key@,
    {
        self.config.key.clone()
    }

    pub fn provider_type(&self) -> (r: ProviderType)
        ensures
            r == ProviderType::OpenAI,
    {
        ProviderType::OpenAI
    }

    /// Where the provider is found.
    pub open spec fn base(self) -> Seq<char> {
        self.config@.param_or("base_url"@, "https://api.openai.com/v1"@)
    }

    pub fn base_url(&self) -> (r: String)
        ensures
            r@ == self.base(),
    {
        self.config.param_or("base_url", "https://api.openai.com/v1")
    }

    /// A call with a body.
    pub open spec fn posted(self, path: Seq<char>, body: JsonView) -> CallView {
        CallView {
            url: self.base() + path,
            headers: Seq::empty().push(bearer(self.config.api_key@)).push(json_body()),
            body: Some(body),
        }
    }

    fn post(&self, path: &str, body: Json) -> (r: HttpCall)
        ensures
            r@ == self.posted(path@, body@),
    {
        let url = concat2(self.base_url().as_str(), path);
        let mut headers = no_headers();
        push_bearer(&mut headers, self.config.api_key.as_str());
        push_json_body(&mut headers);
        HttpCall { url, headers, body: Some(body) }
    }

    /// The call that goes on with a conversation, unless something is wrong with how
    /// the model is to reason.
    pub fn chat_call(&self, request: ChatCompletionRequest) -> (r: Result<ChatCall, SdkError>)
        ensures
            match r {
                Ok(chat) => {
                    &&& request.reasoning_fault() is None
                    &&& chat.call@ == self.posted("/chat/completions"@, openai_document(request))
                    &&& chat.stream == request.streams()
                },
                Err(e) => request.reasoning_fault() == Some(e@),
            },
    {
        if let Err(e) = request.check_reasoning() {
            return Err(e);
        }
        let stream = request.wants_stream();
        let own = OpenAIChatCompletionRequest::from(request);
        assert(text_view(own.reasoning_effort) == text_document(effort_of(request)));
        Ok(ChatCall { call: self.post("/chat/completions", own.to_json()), stream })
    }

    /// Checks the reply to a request: whether it is to be read.
    pub fn check_chat_reply(
        &self,
        stream: bool,
        success: bool,
        status: &str,
        text: &Option<String>,
    ) -> (r: Result<(), SdkError>)
        ensures
            match r {
                Ok(_) => success && !stream,
                Err(e) => if success {
                    stream && e@ == no_streaming()
                } else {
                    e@ == refusal("OpenAI"@ + " API error"@, status@, opt_text(*text))
                },
            },
    {
        if success && stream {
            return Err(other_error("Streaming not yet implemented for OpenAI - use stream: false"));
        }
        check_reply("OpenAI", success, status, text)
    }

    /// The call that completes a prompt.
    pub fn completion_call(&self, request: &CompletionRequest) -> (r: HttpCall)
        ensures
            r@ == self.posted("/completions"@, request.document()),
    {
        self.post("/completions", request.to_json())
    }

    /// The call that embeds texts.
    pub fn embeddings_call(&self, request: &EmbeddingsRequest) -> (r: HttpCall)
        ensures
            r@ == self.posted("/embeddings"@, request.document()),
    {
        self.post("/embeddings", request.to_json())
    }

    /// The call that shows whether the provider is there.
    pub fn health_call(&self) -> (r: HttpCall)
        ensures
            r@ == (CallView {
                url: self.base() + "/models"@,
                headers: Seq::empty().push(bearer(self.config.api_key@)),
                body: None,
            }),
    {
        let url = concat2(self.base_url().as_str(), "/models");
        let mut headers = no_headers();
        push_bearer(&mut headers, self.config.api_key.as_str());
        HttpCall { url, headers, body: None }
    }
}

/// Checks the reply to the call that shows whether a provider is there.
pub fn check_health(provider: &str, success: bool, status: &str) -> (r: Result<(), SdkError>)
    ensures
        match r {
            Ok(_) => success,
            Err(e) => !success && e@ == ErrorView::Other(
                provider@ + " health check failed with status: "@ + status@,
            ),
        },
{
    if success {
        Ok(())
    } else {
        Err(
            SdkError::Other(
                concat3(provider, " health check failed with status: ", status),
            ),
        )
    }
}

/// The error when the call that shows whether a provider is there does not get
/// through.
pub fn health_failed(provider: &str, reason: &str) -> (r: SdkError)
    ensures
        r@ == ErrorView::Other(provider@ + " health check failed: "@ + reason@),
{
    SdkError::Other(concat3(provider, " health check failed: ", reason))
}

/// What is said of the completion counts before what is said of all tokens, and zero says
/// nothing.
pub proof fn completion_limits_count_first(request: ChatCompletionRequest)
    ensures
        request.max_completion_tokens is Some && request.max_completion_tokens->0 > 0
            ==> completion_tokens(request) == request.max_completion_tokens,
        (request.max_completion_tokens is None || request.max_completion_tokens->0 == 0)
            && request.max_tokens is Some && request.max_tokens->0 > 0 ==> completion_tokens(
            request,
        ) == request.max_tokens,
        (request.max_completion_tokens is None || request.max_completion_tokens->0 == 0) && (
        request.max_tokens is None || request.max_tokens->0 == 0) ==> completion_tokens(
            request,
        ) is None,
{
}

/// OpenAI is sent the request with one limit of tokens and the effort to reason with; all
/// else is as it was.
pub proof fn documents_carry_the_request(request: ChatCompletionRequest)
    ensures
        ({
            let told = openai_document(request);
            &&& told.field_text("model"@) == Some(request.model@)
            &&& told.field("messages"@)->0.items() == Some(
                crate::llm::models::chat::message_documents(request.messages@),
            )
            &&& told.field("max_tokens"@) is None
            &&& told.field("max_completion_tokens"@) == crate::json::opt_count_view(
                completion_tokens(request),
            )
            &&& told.field("temperature"@) == crate::json::number_view(request.temperature)
            &&& told.field("stream"@) == crate::json::bool_view(request.stream)
            &&& request.reasoning is None ==> told.field("reasoning_effort"@) is None
            &&& request.reasoning matches Some(r) ==> told.field_text("reasoning_effort"@)
                == r.own_effort()
        }),
{
    reveal_strlit("reasoning_effort");
    reveal_strlit("model");
    reveal_strlit("messages");
    reveal_strlit("temperature");
    reveal_strlit("top_p");
    reveal_strlit("n");
    reveal_strlit("stream");
    reveal_strlit("stop");
    reveal_strlit("max_tokens");
    reveal_strlit("max_completion_tokens");
    reveal_strlit("presence_penalty");
    reveal_strlit("frequency_penalty");
    reveal_strlit("tools");
    reveal_strlit("tool_choice");
    reveal_strlit("response_format");
    reveal_strlit("reasoning");
    reveal_strlit("logprobs");
    reveal_strlit("top_logprobs");
    reveal_strlit("seed");
    reveal_strlit("user");
    assert("reasoning_effort"@.len() == 16
        && "model"@.len() == 5
        && "messages"@.len() == 8
        && "temperature"@.len() == 11
        && "top_p"@.len() == 5
        && "n"@.len() == 1
        && "stream"@.len() == 6
        && "stop"@.len() == 4
        && "max_tokens"@.len() == 10
        && "max_completion_tokens"@.len() == 21
        && "presence_penalty"@.len() == 16
        && "frequency_penalty"@.len() == 17
        && "tools"@.len() == 5
        && "tool_choice"@.len() == 11
        && "response_format"@.len() == 15
        && "reasoning"@.len() == 9
        && "logprobs"@.len() == 8
        && "top_logprobs"@.len() == 12
        && "seed"@.len() == 4
        && "user"@.len() == 4
        && "reasoning_effort"@[0] == 'r'
        && "presence_penalty"@[0] == 'p'
        && "model"@[0] == 'm'
        && "top_p"@[0] == 't'
        && "tools"@[0] == 't'
        && "messages"@[0] == 'm'
        && "logprobs"@[0] == 'l'
        && "temperature"@[1] == 'e'
        && "tool_choice"@[1] == 'o'
        && "top_p"@[2] == 'p'
        && "tools"@[2] == 'o'
        && "stop"@[1] == 't'
        && "seed"@[1] == 'e'
        && "stop"@[0] == 's'
        && "user"@[0] == 'u'
        && "seed"@[0] == 's');
    let base = openai_base(request);
    crate::llm::models::chat::requests_tell_their_settings(base);
    crate::llm::models::chat::requests_tell_nothing_else(base, "reasoning_effort"@);
    broadcast use crate::json::group_fields;

    let plain = JsonView::Object(base.fields());
    let told = openai_document(request);
    assert(told.field("model"@) == plain.field("model"@));
    assert(told.field("messages"@) == plain.field("messages"@));
    assert(told.field("max_tokens"@) == plain.field("max_tokens"@));
    assert(told.field("max_completion_tokens"@) == plain.field("max_completion_tokens"@));
    assert(told.field("temperature"@) == plain.field("temperature"@));
    assert(told.field("stream"@) == plain.field("stream"@));
}

/// A call goes below the base of the service, with the key.
pub proof fn calls_show_the_key(provider: OpenAIProvider, path: Seq<char>, body: JsonView)
    ensures
        ({
            let call = provider.posted(path, body);
            &&& call.url == provider.base() + path
            &&& call.headers.len() == 2
            &&& call.headers[0] == ("Authorization"@, "Bearer "@ + provider.config.api_key@)
            &&& call.headers[1] == ("Content-Type"@, "application/json"@)
            &&& call.body == Some(body)
        }),
        provider.config@.param("base_url"@) is None ==> provider.base()
            == "https://api.openai.com/v1"@,
        provider.config@.param("base_url"@) matches Some(url) ==> provider.base() == url,
{
}

} // verus!
