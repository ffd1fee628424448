//! OpenRouter as a provider.
use vstd::prelude::*;
use vstd::string::*;

use super::types::{
    OpenRouterChatRequest, OpenRouterChatResponse, OpenRouterChoice, ProviderPreferences,
    ResponseFormat, RouteStrategy, Transform,
};
use crate::duration::{seconds, Duration};
use crate::error::{other_error, ErrorView, SdkError};
use crate::llm::models::chat::{
    ChatChoice, ChatCompletion, ChatCompletionRequest, ChatCompletionResponse,
};
use crate::llm::models::usage::{no_usage, Usage};
use crate::llm::provider::{ConfigView, ProviderConfig, ProviderType};
use crate::llm::providers::call::{
    bearer, json_body, no_headers, push_bearer, push_json_body, CallView, HttpCall,
};
use crate::text::{
    concat2, concat3, opt_text, pair_views, push_pair, split, split_text, str_eq, texts, trim,
    trimmed,
};

verus! {

/// OpenRouter as a provider.
#[derive(Debug)]
pub struct OpenRouterProvider {
    pub config: ProviderConfig,
    pub base_url: String,
    pub default_models: Vec<String>,
    pub route: Option<RouteStrategy>,
    pub provider_preferences: Option<ProviderPreferences>,
    pub transforms: Vec<Transform>,
    pub app_name: Option<String>,
    pub referer: Option<String>,
}

/// Texts without the space around them.
pub open spec fn all_trimmed(list: Seq<Seq<char>>) -> Seq<Seq<char>> {
    Seq::new(list.len(), |i: int| trimmed(list[i]))
}

/// The models that a setting names, with commas between them, or the usual one: a
/// small model of Anthropic's, whose names begin with `family`.
pub open spec fn models_of(config: ConfigView, family: Seq<char>) -> Seq<Seq<char>> {
    match config.param("default_models"@) {
        Some(models) => all_trimmed(split_text(models, ","@)),
        None => seq!["anthropic/"@ + family + "-3-haiku"@],
    }
}

fn split_models(models: &str) -> (r: Vec<String>)
    ensures
        texts(r@) == all_trimmed(split_text(models@, ","@)),
{
    proof {
        reveal_strlit(",");
    }
    let parts = split(models, ",");
    let mut out: Vec<String> = Vec::new();
    let mut i: usize = 0;
    while i < parts.len()
        invariant
            i <= parts@.len(),
            out@.len() == i,
            forall|j: int| 0 <= j < i ==> (#[trigger] out@[j])@ == trimmed(parts@[j]@),
        decreases parts@.len() - i,
    {
        out.push(trim(parts[i].as_str()));
        i = i + 1;
    }
    assert(texts(out@) =~= all_trimmed(texts(parts@)));
    out
}

/// A list, or that there is none.
pub open spec fn opt_list(list: Option<Vec<String>>) -> Option<Seq<String>> {
    match list {
        Some(list) => Some(list@),
        None => None,
    }
}

fn copy_list(list: &Vec<String>) -> (r: Vec<String>)
    ensures
        r@ == list@,
{
    let mut out: Vec<String> = Vec::new();
    let mut i: usize = 0;
    while i < list.len()
        invariant
            i <= list@.len(),
            out@ == list@.subrange(0, i as int),
        decreases list@.len() - i,
    {
        out.push(list[i].clone());
        assert(out@ =~= list@.subrange(0, i + 1));
        i = i + 1;
    }
    assert(list@.subrange(0, list@.len() as int) =~= list@);
    out
}

fn copy_opt_list(list: &Option<Vec<String>>) -> (r: Option<Vec<String>>)
    ensures
        opt_list(r) == opt_list(*list),
{
    match list {
        Some(list) => Some(copy_list(list)),
        None => None,
    }
}

/// Whether two preferences say the same.
pub open spec fn same_preferences(
    a: Option<ProviderPreferences>,
    b: Option<ProviderPreferences>,
) -> bool {
    match (a, b) {
        (Some(a), Some(b)) => {
            &&& opt_list(a.allow) == opt_list(b.allow)
            &&& opt_list(a.disallow) == opt_list(b.disallow)
            &&& opt_list(a.require) == opt_list(b.require)
        },
        (None, None) => true,
        _ => false,
    }
}

fn copy_preferences(p: &Option<ProviderPreferences>) -> (r: Option<ProviderPreferences>)
    ensures
        same_preferences(r, *p),
{
    match p {
        Some(p) => Some(
            ProviderPreferences {
                allow: copy_opt_list(&p.allow),
                disallow: copy_opt_list(&p.disallow),
                require: copy_opt_list(&p.require),
            },
        ),
        None => None,
    }
}

fn copy_transforms(list: &Vec<Transform>) -> (r: Vec<Transform>)
    ensures
        r@ == list@,
{
    let mut out: Vec<Transform> = Vec::new();
    let mut i: usize = 0;
    while i < list.len()
        invariant
            i <= list@.len(),
            out@ == list@.subrange(0, i as int),
        decreases list@.len() - i,
    {
        out.push(list[i]);
        assert(out@ =~= list@.subrange(0, i + 1));
        i = i + 1;
    }
    assert(list@.subrange(0, list@.len() as int) =~= list@);
    out
}

/// Headers with one more, if there is a value for it.
pub open spec fn with_header(
    headers: Seq<(Seq<char>, Seq<char>)>,
    name: Seq<char>,
    value: Option<String>,
) -> Seq<(Seq<char>, Seq<char>)> {
    match value {
        Some(v) => headers.push((name, v@)),
        None => headers,
    }
}

/// Whether a choice is one of OpenRouter's.
pub open spec fn same_choice(choice: ChatChoice, own: OpenRouterChoice) -> bool {
    &&& choice.index == own.index
    &&& choice.message == own.message
    &&& choice.finish_reason == own.finish_reason
    &&& choice.logprobs == own.logprobs
}

impl OpenRouterProvider {
    /// The provider of a configuration. Where that names no models, there is the usual
    /// one. `anthropic_family` is the word that the names of Anthropic's models begin
    /// with.
    pub fn new(config: &ProviderConfig, anthropic_family: &str) -> (r: Self)
        ensures
            r.config@ == config@,
            r.base_url@ == config@.param_or("base_url"@, "https://openrouter.ai/api/v1"@),
            texts(r.default_models@) == models_of(config@, anthropic_family@),
            r.route == (if config@.param("route"@) == Some("fallback"@) {
                Some(RouteStrategy::Fallback)
            } else {
                None
            }),
            r.provider_preferences is None,
            r.transforms@.len() == 0,
            opt_text(r.app_name) == config@.param("app_name"@),
            opt_text(r.referer) == config@.param("referer"@),
    {
        let default_models = match config.get_param("default_models") {
            Some(models) => split_models(models),
            None => {
                let mut usual: Vec<String> = Vec::new();
                usual.push(concat3("anthropic/", anthropic_family, "-3-haiku"));
                assert(texts(usual@) =~= seq!["anthropic/"@ + anthropic_family@ + "-3-haiku"@]);
                usual
            },
        };
        let route = match config.get_param("route") {
            Some(route) => if str_eq(route, "fallback") {
                Some(RouteStrategy::Fallback)
            } else {
                None
            },
            None => None,
        };
        let app_name = match config.get_param("app_name") {
            Some(v) => Some(v.to_owned()),
            None => None,
        };
        let referer = match config.get_param("referer") {
            Some(v) => Some(v.to_owned()),
            None => None,
        };
        OpenRouterProvider {
            config: config.duplicate(),
            base_url: config.param_or("base_url", "https://openrouter.ai/api/v1"),
            default_models,
            route,
            provider_preferences: None,
            transforms: Vec::new(),
            app_name,
            referer,
        }
    }

    pub fn with_models(self, models: Vec<String>) -> (r: Self)
        ensures
            r == (OpenRouterProvider { default_models: models, ..self }),
    {
        OpenRouterProvider { default_models: models, ..self }
    }

    pub fn with_route(self, route: RouteStrategy) -> (r: Self)
        ensures
            r == (OpenRouterProvider { route: Some(route), ..self }),
    {
        OpenRouterProvider { route: Some(route), ..self }
    }

    pub fn with_provider_preferences(self, preferences: ProviderPreferences) -> (r: Self)
        ensures
            r == (OpenRouterProvider { provider_preferences: Some(preferences), ..self }),
    {
        OpenRouterProvider { provider_preferences: Some(preferences), ..self }
    }

    pub fn with_transforms(self, transforms: Vec<Transform>) -> (r: Self)
        ensures
            r == (OpenRouterProvider { transforms, ..self }),
    {
        OpenRouterProvider { transforms, ..self }
    }

    pub fn with_app_name(self, app_name: String) -> (r: Self)
        ensures
            r == (OpenRouterProvider { app_name: Some(app_name), ..self }),
    {
        OpenRouterProvider { app_name: Some(app_name), ..self }
    }

    pub fn with_referer(self, referer: String) -> (r: Self)
        ensures
            r == (OpenRouterProvider { referer: Some(referer), ..self }),
    {
        OpenRouterProvider { referer: Some(referer), ..self }
    }

    pub fn key(&self) -> (r: String)
        ensures
            r@ == self.config.key@,
    {
        self.config.key.clone()
    }

    /// How long a reply is waited for.
    pub fn timeout(&self) -> (r: Duration)
        ensures
            r@ == seconds(60),
    {
        Duration::from_secs(60)
    }

    pub fn provider_type(&self) -> (r: ProviderType)
        ensures
            r == ProviderType::OpenRouter,
    {
        ProviderType::OpenRouter
    }

    /// Headers with who asks, as far as that is known.
    pub open spec fn attributed(self, headers: Seq<(Seq<char>, Seq<char>)>) -> Seq<
        (Seq<char>, Seq<char>),
    > {
        with_header(with_header(headers, "HTTP-Referer"@, self.referer), "X-Title"@, self.app_name)
    }

    fn push_attribution(&self, headers: &mut Vec<(String, String)>)
        ensures
            pair_views(final(headers)@) == self.attributed(pair_views(old(headers)@)),
    {
        if let Some(referer) = &self.referer {
            push_pair(headers, "HTTP-Referer", referer.as_str());
        }
        if let Some(app_name) = &self.app_name {
            push_pair(headers, "X-Title", app_name.as_str());
        }
    }

    /// A call without a body.
    pub open spec fn got(self, path: Seq<char>) -> CallView {
        CallView {
            url: self.base_url@ + path,
            headers: self.attributed(Seq::empty().push(bearer(self.config.api_key@))),
            body: None,
        }
    }

    fn get(&self, path: &str) -> (r: HttpCall)
        ensures
            r@ == self.got(path@),
    {
        let url = concat2(self.base_url.as_str(), path);
        let mut headers = no_headers();
        push_bearer(&mut headers, self.config.api_key.as_str());
        self.push_attribution(&mut headers);
        HttpCall { url, headers, body: None }
    }

    /// The call for the models that can be had.
    pub fn list_models_call(&self) -> (r: HttpCall)
        ensures
            r@ == self.got("/models"@),
    {
        self.get("/models")
    }

    /// The call for what became of a request.
    pub fn generation_info_call(&self, generation_id: &str) -> (r: HttpCall)
        ensures
            r@ == self.got("/generation?id="@ + generation_id@),
    {
        let path = concat2("/generation?id=", generation_id);
        self.get(path.as_str())
    }

    /// The call for how much may still be asked.
    pub fn limits_call(&self) -> (r: HttpCall)
        ensures
            r@ == self.got("/auth/key"@),
    {
        self.get("/auth/key")
    }

    /// Whether a request is this one in OpenRouter's form.
    pub open spec fn becomes(self, request: ChatCompletionRequest, own: OpenRouterChatRequest) -> bool {
        &&& own.model@ == request.model@
        &&& opt_list(own.models) == (if self.default_models@.len() > 1 {
            Some(self.default_models@)
        } else {
            None
        })
        &&& own.messages == request.messages
        &&& own.max_tokens == (match request.max_tokens {
            Some(n) => Some(n),
            None => request.max_completion_tokens,
        })
        &&& own.temperature == request.temperature
        &&& own.top_p == request.top_p
        &&& own.top_k is None
        &&& own.frequency_penalty == request.frequency_penalty
        &&& own.presence_penalty == request.presence_penalty
        &&& own.repetition_penalty is None
        &&& own.stop == request.stop
        &&& own.stream == request.stream
        &&& own.route == self.route
        &&& same_preferences(own.provider, self.provider_preferences)
        &&& match own.transforms {
            Some(transforms) => self.transforms@.len() > 0 && transforms@ == self.transforms@,
            None => self.transforms@.len() == 0,
        }
        &&& match (own.response_format, request.response_format) {
            (Some(own), Some(format)) => own.format_type@ == format.kind@ && own.schema is None,
            (None, None) => true,
            _ => false,
        }
        &&& own.tools == request.tools
        &&& own.tool_choice == request.tool_choice
        &&& own.user == request.user
    }

    /// A request in OpenRouter's form.
    pub fn build_chat_request(&self, request: ChatCompletionRequest) -> (r: OpenRouterChatRequest)
        ensures
            self.becomes(request, r),
    {
        let models = if self.default_models.len() > 1 {
            Some(copy_list(&self.default_models))
        } else {
            None
        };
        let response_format = match request.response_format {
            Some(format) => Some(ResponseFormat { format_type: format.kind, schema: None }),
            None => None,
        };
        let transforms = if self.transforms.len() == 0 {
            None
        } else {
            Some(copy_transforms(&self.transforms))
        };
        let max_tokens = match request.max_tokens {
            Some(n) => Some(n),
            None => request.max_completion_tokens,
        };
        OpenRouterChatRequest {
            model: request.model,
            models,
            messages: request.messages,
            max_tokens,
            temperature: request.temperature,
            top_p: request.top_p,
            top_k: None,
            frequency_penalty: request.frequency_penalty,
            presence_penalty: request.presence_penalty,
            repetition_penalty: None,
            stop: request.stop,
            stream: request.stream,
            route: self.route,
            provider: copy_preferences(&self.provider_preferences),
            transforms,
            response_format,
            tools: request.tools,
            tool_choice: request.tool_choice,
            user: request.user,
        }
    }

    /// The call that goes on with a conversation.
    pub fn chat_call(&self, request: ChatCompletionRequest) -> (r: HttpCall)
        ensures
            exists|own: OpenRouterChatRequest| #[trigger]
                self.becomes(request, own) && r@ == (CallView {
                    url: self.base_url@ + "/chat/completions"@,
                    headers: self.attributed(
                        Seq::empty().push(bearer(self.config.api_key@)).push(json_body()),
                    ),
                    body: Some(own.document()),
                }),
    {
        let own = self.build_chat_request(request);
        let url = concat2(self.base_url.as_str(), "/chat/completions");
        let mut headers = no_headers();
        push_bearer(&mut headers, self.config.api_key.as_str());
        push_json_body(&mut headers);
        self.push_attribution(&mut headers);
        let r = HttpCall { url, headers, body: Some(own.to_json()) };
        assert(self.becomes(request, own));
        r
    }

    /// Checks the reply to a request: whether it is to be read.
    pub fn check_chat_reply(&self, stream: bool, success: bool, text: &Option<String>) -> (r: Result<
        (),
        SdkError,
    >)
        ensures
            match r {
                Ok(_) => success && !stream,
                Err(e) => if success {
                    stream && e@ == ErrorView::Other(
                        "Streaming not yet implemented for OpenRouter"@,
                    )
                } else {
                    e@ == openrouter_refusal(opt_text(*text))
                },
            },
    {
        match check_openrouter_reply(success, text) {
            Ok(_) => if stream {
                Err(other_error("Streaming not yet implemented for OpenRouter"))
            } else {
                Ok(())
            },
            Err(e) => Err(e),
        }
    }

    /// A reply of OpenRouter's.
    pub fn convert_response<S>(&self, response: OpenRouterChatResponse) -> (r:
        ChatCompletionResponse<S>)
        ensures
            r matches ChatCompletionResponse::NonStream(completion) && {
                &&& completion.id == response.id
                &&& completion.object == Some(response.object)
                &&& completion.created == Some(response.created)
                &&& completion.model == response.model
                &&& completion.choices@.len() == response.choices@.len()
                &&& forall|i: int|
                    0 <= i < completion.choices@.len() ==> same_choice(
                        #[trigger] completion.choices@[i],
                        response.choices@[i],
                    )
                &&& completion.usage == (match response.usage {
                    Some(usage) => usage,
                    None => no_usage(),
                })
                &&& completion.system_fingerprint is None
            },
    {
        let OpenRouterChatResponse { id, object, created, model, choices, usage, provider: _ } =
            response;
        let ghost all = choices@;
        let n: usize = choices.len();
        let mut rest = choices;
        let mut out: Vec<ChatChoice> = Vec::new();
        let mut i: usize = 0;
        assert(rest@ =~= all.subrange(0, n as int));
        while i < n
            invariant
                i <= n,
                n == all.len(),
                rest@ == all.subrange(i as int, n as int),
                out@.len() == i,
                forall|j: int| 0 <= j < i ==> same_choice(#[trigger] out@[j], all[j]),
            decreases n - i,
        {
            let own = rest.remove(0);
            assert(own == all[i as int]);
            assert(rest@ =~= all.subrange(i + 1, n as int));
            out.push(
                ChatChoice {
                    index: own.index,
                    message: own.message,
                    finish_reason: own.finish_reason,
                    logprobs: own.logprobs,
                },
            );
            i = i + 1;
        }
        ChatCompletionResponse::NonStream(
            ChatCompletion {
                id,
                object: Some(object),
                created: Some(created),
                model,
                choices: out,
                usage: match usage {
                    Some(usage) => usage,
                    None => Usage::default(),
                },
                system_fingerprint: None,
            },
        )
    }

    /// Prompts are not completed.
    pub fn completion<T>(&self) -> (r: Result<T, SdkError>)
        ensures
            r matches Err(e) && e@ == ErrorView::Other(
                "Legacy completions not supported by OpenRouter - use chat completions instead"@,
            ),
    {
        Err(
            other_error(
                "Legacy completions not supported by OpenRouter - use chat completions instead",
            ),
        )
    }

    /// Texts are not embedded.
    pub fn embeddings<T>(&self) -> (r: Result<T, SdkError>)
        ensures
            r matches Err(e) && e@ == ErrorView::Other("Embeddings not supported by OpenRouter"@),
    {
        Err(other_error("Embeddings not supported by OpenRouter"))
    }
}

/// What is said of a refused request.
pub open spec fn openrouter_refusal(text: Option<Seq<char>>) -> ErrorView {
    ErrorView::Other(
        "OpenRouter API error: "@ + (match text {
            Some(text) => text,
            None => ""@,
        }),
    )
}

/// Checks that a request was not refused. `text` is the reply's body, where it could
/// be read.
pub fn check_openrouter_reply(success: bool, text: &Option<String>) -> (r: Result<(), SdkError>)
    ensures
        match r {
            Ok(_) => success,
            Err(e) => !success && e@ == openrouter_refusal(opt_text(*text)),
        },
{
    if success {
        return Ok(());
    }
    let own = match text {
        Some(text) => text.as_str(),
        None => "",
    };
    Err(SdkError::Other(concat2("OpenRouter API error: ", own)))
}

/// The models are those that are named, in their order and without the space around them;
/// without any there is one.
pub proof fn models_are_named_in_order(config: ConfigView, family: Seq<char>, i: int)
    ensures
        config.param("default_models"@) is None ==> models_of(config, family)
            == seq!["anthropic/"@ + family + "-3-haiku"@],
        config.param("default_models"@) matches Some(models) ==> ({
            let named = split_text(models, ","@);
            &&& models_of(config, family).len() == named.len()
            &&& 0 <= i < named.len() ==> models_of(config, family)[i] == trimmed(named[i])
        }),
{
}

/// A call tells who asks: the key first, then the place and the name of the application,
/// where they are known.
pub proof fn calls_tell_who_asks(provider: OpenRouterProvider, path: Seq<char>)
    ensures
        ({
            let call = provider.got(path);
            &&& call.url == provider.base_url@ + path
            &&& call.body is None
            &&& call.headers[0] == ("Authorization"@, "Bearer "@ + provider.config.api_key@)
            &&& provider.referer is Some ==> call.headers[1] == (
                "HTTP-Referer"@,
                provider.referer->0@,
            )
            &&& provider.app_name is Some ==> call.headers.last() == (
                "X-Title"@,
                provider.app_name->0@,
            )
            &&& provider.referer is None && provider.app_name is None ==> call.headers.len() == 1
        }),
{
}

/// A request keeps its model, its messages and its settings; the limit of all tokens
/// counts before that of the completion, and other models are named only where there are
/// several.
pub proof fn requests_keep_their_settings(
    provider: OpenRouterProvider,
    request: ChatCompletionRequest,
    own: OpenRouterChatRequest,
)
    requires
        provider.becomes(request, own),
    ensures
        own.model@ == request.model@,
        own.messages == request.messages,
        request.max_tokens is Some ==> own.max_tokens == request.max_tokens,
        request.max_tokens is None ==> own.max_tokens == request.max_completion_tokens,
        own.temperature == request.temperature,
        own.top_p == request.top_p,
        own.stop == request.stop,
        own.stream == request.stream,
        own.tools == request.tools,
        own.tool_choice == request.tool_choice,
        own.user == request.user,
        own.route == provider.route,
        provider.default_models@.len() > 1 ==> own.models is Some && own.models->0@
            == provider.default_models@,
        provider.default_models@.len() <= 1 ==> own.models is None,
        own.response_format is Some <==> request.response_format is Some,
{
}

/// A refusal tells what was said.
pub proof fn refusals_are_told(text: Seq<char>)
    ensures
        openrouter_refusal(Some(text)) == ErrorView::Other("OpenRouter API error: "@ + text),
        openrouter_refusal(None) == ErrorView::Other("OpenRouter API error: "@ + ""@),
{
}

} // verus!
