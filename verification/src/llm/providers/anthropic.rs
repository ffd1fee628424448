//! Anthropic as a provider.
use vstd::prelude::*;
use vstd::string::*;

use super::call::{
    check_reply, json_body, no_headers, push_json_body, refusal, CallView, ChatCall, HttpCall,
};
use super::openai::text_document;
use crate::clock::{as_count, seconds_count, unix_seconds};
use crate::error::{other_error, ErrorView, SdkError};
use crate::json::{
    bool_json, bool_view, field_if, field_views, json_views, no_fields, no_items, number_json,
    number_view, put, put_item, put_opt, put_text, text_json, text_view, texts_json, texts_view,
    whole_number, Json, JsonNumber, JsonView,
};
use crate::llm::models::chat::{
    says, text_message, ChatChoice, ChatCompletion, ChatCompletionRequest, ChatMessage,
    ChatMessageContent, ReasoningConfig,
};
use crate::llm::models::usage::Usage;
use crate::llm::provider::{ProviderConfig, ProviderType};
use crate::seqs::{flattened, flattened_next, prefix_next, whole_prefix};
use crate::text::{concat2, concat3, join, joined, opt_text, push_pair, str_eq, texts};

verus! {

/// A message in Anthropic's form.
#[derive(Debug)]
pub struct AnthropicMessage {
    pub role: String,
    pub content: String,
}

/// A request in Anthropic's form.
#[derive(Debug)]
pub struct AnthropicChatCompletionRequest {
    pub model: String,
    pub max_tokens: u32,
    pub messages: Vec<AnthropicMessage>,
    pub system: Option<String>,
    pub temperature: Option<JsonNumber>,
    pub top_p: Option<JsonNumber>,
    pub stop_sequences: Option<Vec<String>>,
    pub stream: Option<bool>,
}

/// A reply in Anthropic's form.
#[derive(Debug)]
pub struct AnthropicChatCompletionResponse {
    pub id: String,
    pub response_type: String,
    pub role: String,
    pub content: Vec<AnthropicContentBlock>,
    pub model: String,
    pub stop_reason: Option<String>,
    pub stop_sequence: Option<String>,
    pub usage: AnthropicUsage,
}

/// A part of a reply.
#[derive(Debug)]
pub struct AnthropicContentBlock {
    pub content_type: String,
    pub text: String,
}

/// How many tokens a call took.
#[derive(Clone, Copy, Debug, PartialEq, Eq, Structural)]
pub struct AnthropicUsage {
    pub input_tokens: u32,
    pub output_tokens: u32,
}

/// What a model is told so that it reasons.
pub open spec fn prompt_for(reasoning: Option<ReasoningConfig>) -> Option<Seq<char>> {
    match reasoning {
        Some(reasoning) => reasoning.thinking_prompt(),
        None => None,
    }
}

/// What a system message says to the model, after what it is told so that it
/// reasons. Only a text counts.
pub open spec fn system_text(message: ChatMessage, prompt: Option<Seq<char>>) -> Option<Seq<char>> {
    match message.content {
        Some(ChatMessageContent::String(text)) => if message.role@ == "system"@ {
            Some(
                match prompt {
                    Some(prompt) => prompt + "\n\n"@ + text@,
                    None => text@,
                },
            )
        } else {
            None
        },
        _ => None,
    }
}

/// What the last of the system messages says.
pub open spec fn system_of(messages: Seq<ChatMessage>, prompt: Option<Seq<char>>) -> Option<
    Seq<char>,
>
    decreases messages.len(),
{
    if messages.len() == 0 {
        None
    } else {
        match system_text(messages.last(), prompt) {
            Some(text) => Some(text),
            None => system_of(messages.drop_last(), prompt),
        }
    }
}

/// A message of the user or the model as Anthropic wants it. Other roles are left
/// out, and so are messages that say nothing.
pub open spec fn turn(message: ChatMessage) -> Option<(Seq<char>, Seq<char>)> {
    if message.role@ == "user"@ || message.role@ == "assistant"@ {
        match message.content {
            Some(content) => Some((message.role@, content.plain())),
            None => None,
        }
    } else {
        None
    }
}

/// The messages as Anthropic wants them.
pub open spec fn turns(messages: Seq<ChatMessage>) -> Seq<Option<(Seq<char>, Seq<char>)>> {
    Seq::new(messages.len(), |i: int| turn(messages[i]))
}

/// What messages say.
pub open spec fn message_views(list: Seq<AnthropicMessage>) -> Seq<(Seq<char>, Seq<char>)> {
    Seq::new(list.len(), |i: int| (list[i].role@, list[i].content@))
}

/// How many tokens the reply may have.
pub open spec fn token_limit(request: ChatCompletionRequest) -> u32 {
    match (request.max_completion_tokens, request.max_tokens) {
        (Some(n), _) => n,
        (None, Some(n)) => n,
        (None, None) => 1024,
    }
}

proof fn role_names_differ()
    ensures
        "system"@ != "user"@,
        "system"@ != "assistant"@,
{
    reveal_strlit("system");
    reveal_strlit("user");
    reveal_strlit("assistant");
    assert("system"@.len() == 6 && "user"@.len() == 4 && "assistant"@.len() == 9);
}

fn system_text_of(message: &ChatMessage, prompt: &Option<String>) -> (r: Option<String>)
    ensures
        opt_text(r) == system_text(*message, opt_text(*prompt)),
{
    if !str_eq(message.role.as_str(), "system") {
        return None;
    }
    match &message.content {
        Some(ChatMessageContent::String(text)) => match prompt {
            Some(prompt) => Some(concat3(prompt.as_str(), "\n\n", text.as_str())),
            None => Some(text.clone()),
        },
        _ => None,
    }
}

fn turn_of(message: &ChatMessage) -> (r: Option<AnthropicMessage>)
    ensures
        match r {
            Some(m) => turn(*message) == Some((m.role@, m.content@)),
            None => turn(*message) is None,
        },
{
    if str_eq(message.role.as_str(), "user") || str_eq(message.role.as_str(), "assistant") {
        match &message.content {
            Some(content) => Some(
                AnthropicMessage { role: message.role.clone(), content: content.to_plain() },
            ),
            None => None,
        }
    } else {
        None
    }
}

impl AnthropicChatCompletionRequest {
    pub fn from(request: ChatCompletionRequest) -> (r: Self)
        ensures
            r.model == request.model,
            r.max_tokens == token_limit(request),
            message_views(r.messages@) == flattened(turns(request.messages@)),
            opt_text(r.system) == system_of(request.messages@, prompt_for(request.reasoning)),
            r.temperature == request.temperature,
            r.top_p == request.top_p,
            r.stop_sequences == request.stop,
            r.stream == request.stream,
    {
        let prompt = match &request.reasoning {
            Some(reasoning) => reasoning.to_thinking_prompt(),
            None => None,
        };
        let mut system: Option<String> = None;
        let mut messages: Vec<AnthropicMessage> = Vec::new();
        let ghost all = turns(request.messages@);
        let mut i: usize = 0;
        proof {
            whole_prefix(all);
            whole_prefix(request.messages@);
            assert(message_views(messages@) =~= Seq::empty());
        }
        while i < request.messages.len()
            invariant
                i <= request.messages@.len(),
                all == turns(request.messages@),
                opt_text(prompt) == prompt_for(request.reasoning),
                message_views(messages@) == flattened(all.subrange(0, i as int)),
                opt_text(system) == system_of(
                    request.messages@.subrange(0, i as int),
                    prompt_for(request.reasoning),
                ),
            decreases request.messages@.len() - i,
        {
            let ghost before = message_views(messages@);
            proof {
                flattened_next(all, i as int);
                prefix_next(request.messages@, i as int);
            }
            if let Some(text) = system_text_of(&request.messages[i], &prompt) {
                system = Some(text);
            }
            if let Some(m) = turn_of(&request.messages[i]) {
                messages.push(m);
                assert(message_views(messages@) =~= before.push((m.role@, m.content@)));
            }
            i = i + 1;
        }
        proof {
            whole_prefix(all);
            whole_prefix(request.messages@);
        }
        let max_tokens: u32 = match (request.max_completion_tokens, request.max_tokens) {
            (Some(n), _) => n,
            (None, Some(n)) => n,
            (None, None) => 1024,
        };
        AnthropicChatCompletionRequest {
            model: request.model,
            max_tokens,
            messages,
            system,
            temperature: request.temperature,
            top_p: request.top_p,
            stop_sequences: request.stop,
            stream: request.stream,
        }
    }

    /// The smallest request to a model there is.
    pub fn minimal(model: &str) -> (r: Self)
        ensures
            r.model@ == model@,
            r.max_tokens == 1,
            message_views(r.messages@) == seq![("user"@, "Hi"@)],
            r.system is None,
            r.temperature is None,
            r.top_p is None,
            r.stop_sequences is None,
            r.stream == Some(false),
    {
        let mut messages: Vec<AnthropicMessage> = Vec::new();
        messages.push(AnthropicMessage { role: "user".to_owned(), content: "Hi".to_owned() });
        assert(message_views(messages@) =~= seq![("user"@, "Hi"@)]);
        AnthropicChatCompletionRequest {
            model: model.to_owned(),
            max_tokens: 1,
            messages,
            system: None,
            temperature: None,
            top_p: None,
            stop_sequences: None,
            stream: Some(false),
        }
    }

    /// The request as a document.
    pub open spec fn document(self) -> JsonView {
        JsonView::Object(
            seq![
                ("model"@, JsonView::String(self.model@)),
                ("max_tokens"@, whole_number(self.max_tokens as u64)),
                ("messages"@, JsonView::Array(message_documents(message_views(self.messages@)))),
            ] + field_if("system"@, text_view(self.system)) + field_if(
                "temperature"@,
                number_view(self.temperature),
            ) + field_if("top_p"@, number_view(self.top_p)) + field_if(
                "stop_sequences"@,
                texts_view(self.stop_sequences),
            ) + field_if("stream"@, bool_view(self.stream)),
        )
    }

    /// The request as a document.
    pub fn to_json(&self) -> (r: Json)
        ensures
            r@ == self.document(),
    {
        let mut fields = no_fields();
        put_text(&mut fields, "model", self.model.as_str());
        put(&mut fields, "max_tokens", Json::whole(self.max_tokens as u64));
        put(&mut fields, "messages", messages_json(&self.messages));
        assert(field_views(fields@) =~= seq![
            ("model"@, JsonView::String(self.model@)),
            ("max_tokens"@, whole_number(self.max_tokens as u64)),
            ("messages"@, JsonView::Array(message_documents(message_views(self.messages@)))),
        ]);
        put_opt(&mut fields, "system", text_json(&self.system));
        put_opt(&mut fields, "temperature", number_json(&self.temperature));
        put_opt(&mut fields, "top_p", number_json(&self.top_p));
        put_opt(&mut fields, "stop_sequences", texts_json(&self.stop_sequences));
        put_opt(&mut fields, "stream", bool_json(self.stream));
        Json::object(fields)
    }
}

/// No tool's message reaches Anthropic, and no system message stands among the
/// turns.
pub proof fn only_users_and_models_speak(messages: Seq<ChatMessage>, at: int)
    requires
        0 <= at < messages.len(),
        messages[at].role@ == "system"@ || messages[at].role@ == "tool"@,
    ensures
        turns(messages)[at] is None,
{
    role_names_differ();
    reveal_strlit("tool");
    reveal_strlit("user");
    reveal_strlit("assistant");
    assert("tool"@.len() == 4 && "assistant"@.len() == 9);
    assert("tool"@[0] != "user"@[0]);
}

/// A message as a document.
pub open spec fn message_document(m: (Seq<char>, Seq<char>)) -> JsonView {
    JsonView::Object(
        seq![("role"@, JsonView::String(m.0)), ("content"@, JsonView::String(m.1))],
    )
}

/// Messages as documents.
pub open spec fn message_documents(list: Seq<(Seq<char>, Seq<char>)>) -> Seq<JsonView> {
    Seq::new(list.len(), |i: int| message_document(list[i]))
}

fn messages_json(messages: &Vec<AnthropicMessage>) -> (r: Json)
    ensures
        r@ == JsonView::Array(message_documents(message_views(messages@))),
{
    let mut items = no_items();
    let ghost all = message_documents(message_views(messages@));
    let mut i: usize = 0;
    proof {
        whole_prefix(all);
    }
    while i < messages.len()
        invariant
            i <= messages@.len(),
            all == message_documents(message_views(messages@)),
            json_views(items@) == all.subrange(0, i as int),
        decreases messages@.len() - i,
    {
        let mut fields = no_fields();
        put_text(&mut fields, "role", messages[i].role.as_str());
        put_text(&mut fields, "content", messages[i].content.as_str());
        assert(field_views(fields@) =~= all[i as int]->Object_0);
        put_item(&mut items, Json::object(fields));
        proof {
            prefix_next(all, i as int);
        }
        i = i + 1;
    }
    proof {
        whole_prefix(all);
    }
    Json::array(items)
}

/// The texts of the parts of a reply.
pub open spec fn block_texts(blocks: Seq<AnthropicContentBlock>) -> Seq<Seq<char>> {
    Seq::new(blocks.len(), |i: int| blocks[i].text@)
}

/// A whole reply with one choice, which is one text.
pub open spec fn single_choice(
    completion: ChatCompletion,
    role: Seq<char>,
    text: Seq<char>,
    finish_reason: Option<Seq<char>>,
    created: u64,
) -> bool {
    &&& opt_text(completion.object) == Some("chat.completion"@)
    &&& completion.created == Some(created)
    &&& completion.system_fingerprint is None
    &&& completion.choices@.len() == 1
    &&& completion.choices@[0].index == 0
    &&& says(completion.choices@[0].message, role, text)
    &&& opt_text(completion.choices@[0].finish_reason) == finish_reason
    &&& completion.choices@[0].logprobs is None
}

/// A whole reply with one choice, which is one text.
pub fn one_choice(
    id: String,
    model: String,
    role: &str,
    text: String,
    finish_reason: Option<String>,
    usage: Usage,
    created: u64,
) -> (r: ChatCompletion)
    ensures
        r.id == id,
        r.model == model,
        r.usage == usage,
        single_choice(r, role@, text@, opt_text(finish_reason), created),
{
    let mut choices: Vec<ChatChoice> = Vec::new();
    choices.push(
        ChatChoice { index: 0, message: text_message(role, text), finish_reason, logprobs: None },
    );
    ChatCompletion {
        id,
        object: Some("chat.completion".to_owned()),
        created: Some(created),
        model,
        choices,
        usage,
        system_fingerprint: None,
    }
}

impl AnthropicChatCompletionResponse {
    /// Whether the tokens of a call can be added up.
    pub open spec fn fits(self) -> bool {
        self.usage.input_tokens + self.usage.output_tokens <= u32::MAX
    }

    /// Whether the tokens of a call can be added up.
    pub fn counts_fit(&self) -> (r: bool)
        ensures
            r == self.fits(),
    {
        self.usage.input_tokens as u64 + self.usage.output_tokens as u64 <= u32::MAX as u64
    }

    /// Whether a reply is this one.
    pub open spec fn becomes(self, completion: ChatCompletion, created: u64) -> bool {
        &&& completion.id@ == self.id@
        &&& completion.model@ == self.model@
        &&& single_choice(
            completion,
            self.role@,
            joined(block_texts(self.content@), ""@),
            opt_text(self.stop_reason),
            created,
        )
        &&& completion.usage.prompt_tokens == self.usage.input_tokens
        &&& completion.usage.completion_tokens == self.usage.output_tokens
        &&& completion.usage.total_tokens == self.usage.input_tokens + self.usage.output_tokens
        &&& completion.usage.completion_tokens_details is None
        &&& completion.usage.prompt_tokens_details is None
    }

    /// The reply, made at a moment.
    pub fn into_completion(self, created: u64) -> (r: ChatCompletion)
        requires
            self.fits(),
        ensures
            self.becomes(r, created),
    {
        let mut parts: Vec<String> = Vec::new();
        let mut i: usize = 0;
        while i < self.content.len()
            invariant
                i <= self.content@.len(),
                parts@.len() == i,
                forall|j: int| 0 <= j < i ==> (#[trigger] parts@[j])@ == self.content@[j].text@,
            decreases self.content@.len() - i,
        {
            parts.push(self.content[i].text.clone());
            i = i + 1;
        }
        assert(texts(parts@) =~= block_texts(self.content@));
        let text = join(&parts, "");
        let usage = Usage::new(self.usage.input_tokens, self.usage.output_tokens);
        one_choice(self.id, self.model, self.role.as_str(), text, self.stop_reason, usage, created)
    }

    /// The reply, made at this moment.
    pub fn into_completion_now(self) -> (r: ChatCompletion)
        requires
            self.fits(),
        ensures
            exists|seconds: i64| self.becomes(r, #[trigger] as_count(seconds)),
    {
        let seconds: i64 = unix_seconds();
        let r = self.into_completion(seconds_count(seconds));
        assert(self.becomes(r, as_count(seconds)));
        r
    }
}

/// Anthropic as a provider.
#[derive(Debug)]
pub struct AnthropicProvider {
    pub config: ProviderConfig,
}

/// What is said where a reply is wanted piece by piece.
pub open spec fn no_streaming() -> ErrorView {
    ErrorView::Other("Streaming not yet implemented for Anthropic - use stream: false"@)
}

impl AnthropicProvider {
    pub fn new(config: &ProviderConfig) -> (r: Self)
        ensures
            r.config@ == config@,
    {
        AnthropicProvider { config: config.duplicate() }
    }

    pub fn key(&self) -> (r: String)
        ensures
            r@ == self.config.key@,
    {
        self.config.key.clone()
    }

    pub fn provider_type(&self) -> (r: ProviderType)
        ensures
            r == ProviderType::Anthropic,
    {
        ProviderType::Anthropic
    }

    /// Where the provider is found.
    pub open spec fn base(self) -> Seq<char> {
        self.config@.param_or("base_url"@, "https://api.anthropic.com/v1"@)
    }

    pub fn base_url(&self) -> (r: String)
        ensures
            r@ == self.base(),
    {
        self.config.param_or("base_url", "https://api.anthropic.com/v1")
    }

    /// A call with a body.
    pub open spec fn posted(self, body: JsonView) -> CallView {
        CallView {
            url: self.base() + "/messages"@,
            headers: Seq::empty().push(("x-api-key"@, self.config.api_key@)).push(
                ("anthropic-version"@, "2023-06-01"@),
            ).push(json_body()),
            body: Some(body),
        }
    }

    fn post(&self, body: Json) -> (r: HttpCall)
        ensures
            r@ == self.posted(body@),
    {
        let url = concat2(self.base_url().as_str(), "/messages");
        let mut headers = no_headers();
        push_pair(&mut headers, "x-api-key", self.config.api_key.as_str());
        push_pair(&mut headers, "anthropic-version", "2023-06-01");
        push_json_body(&mut headers);
        HttpCall { url, headers, body: Some(body) }
    }

    /// The document that Anthropic is sent.
    pub open spec fn chat_document(request: ChatCompletionRequest) -> JsonView {
        JsonView::Object(
            seq![
                ("model"@, JsonView::String(request.model@)),
                ("max_tokens"@, whole_number(token_limit(request) as u64)),
                (
                    "messages"@,
                    JsonView::Array(message_documents(flattened(turns(request.messages@)))),
                ),
            ] + field_if(
                "system"@,
                text_document(
                    system_of(request.messages@, prompt_for(request.reasoning)),
                ),
            ) + field_if("temperature"@, number_view(request.temperature)) + field_if(
                "top_p"@,
                number_view(request.top_p),
            ) + field_if("stop_sequences"@, texts_view(request.stop)) + field_if(
                "stream"@,
                bool_view(request.stream),
            ),
        )
    }

    /// The call that goes on with a conversation, unless something is wrong with how
    /// the model is to reason.
    pub fn chat_call(&self, request: ChatCompletionRequest) -> (r: Result<ChatCall, SdkError>)
        ensures
            match r {
                Ok(chat) => {
                    &&& request.reasoning_fault() is None
                    &&& chat.call@ == self.posted(AnthropicProvider::chat_document(request))
                    &&& chat.stream == request.streams()
                },
                Err(e) => request.reasoning_fault() == Some(e@),
            },
    {
        if let Err(e) = request.check_reasoning() {
            return Err(e);
        }
        let stream = request.wants_stream();
        let own = AnthropicChatCompletionRequest::from(request);
        assert(text_view(own.system) == text_document(opt_text(own.system)));
        Ok(ChatCall { call: self.post(own.to_json()), stream })
    }

    /// Checks the reply to a request: whether it is to be read.
    pub fn check_chat_reply(
        &self,
        stream: bool,
        success: bool,
        status: &str,
        text: &Option<String>,
    ) -> (r: Result<(), SdkError>)
        ensures
            match r {
                Ok(_) => success && !stream,
                Err(e) => if success {
                    stream && e@ == no_streaming()
                } else {
                    e@ == refusal("Anthropic"@ + " API error"@, status@, opt_text(*text))
                },
            },
    {
        if success && stream {
            return Err(
                other_error("Streaming not yet implemented for Anthropic - use stream: false"),
            );
        }
        check_reply("Anthropic", success, status, text)
    }

    /// Prompts are not completed.
    pub fn completion<T>(&self) -> (r: Result<T, SdkError>)
        ensures
            r matches Err(e) && e@ == ErrorView::Other(
                "Anthropic does not support the legacy completions API. Use chat_completion instead."@,
            ),
    {
        Err(
            other_error(
                "Anthropic does not support the legacy completions API. Use chat_completion instead.",
            ),
        )
    }

    /// Texts are not embedded.
    pub fn embeddings<T>(&self) -> (r: Result<T, SdkError>)
        ensures
            r matches Err(e) && e@ == ErrorView::Other(
                "Anthropic does not provide an embeddings API"@,
            ),
    {
        Err(other_error("Anthropic does not provide an embeddings API"))
    }

    /// The call that shows whether the provider is there: the smallest request to a
    /// small model there is. `family` is the word that the models' names begin with.
    pub fn health_call(&self, family: &str) -> (r: HttpCall)
        ensures
            r@ == self.posted(
                JsonView::Object(
                    seq![
                        ("model"@, JsonView::String(family@ + "-3-haiku-20240307"@)),
                        ("max_tokens"@, whole_number(1)),
                        ("messages"@, JsonView::Array(message_documents(seq![("user"@, "Hi"@)]))),
                        ("stream"@, JsonView::Bool(false)),
                    ],
                ),
            ),
    {
        let model = concat2(family, "-3-haiku-20240307");
        let own = AnthropicChatCompletionRequest::minimal(model.as_str());
        assert(own.document()->Object_0 =~= seq![
            ("model"@, JsonView::String(model@)),
            ("max_tokens"@, whole_number(1)),
            ("messages"@, JsonView::Array(message_documents(seq![("user"@, "Hi"@)]))),
            ("stream"@, JsonView::Bool(false)),
        ]);
        self.post(own.to_json())
    }
}

/// What the user and the model say is told as theirs, in their order; messages of others,
/// and those that say nothing, are left out.
pub proof fn messages_keep_their_speaker(messages: Seq<ChatMessage>, message: ChatMessage)
    ensures
        ({
            let before = flattened(turns(messages));
            let all = flattened(turns(messages.push(message)));
            &&& message.role@ == "user"@ && message.content is Some ==> all == before.push(
                ("user"@, message.content->0.plain()),
            )
            &&& message.role@ == "assistant"@ && message.content is Some ==> all == before.push(
                ("assistant"@, message.content->0.plain()),
            )
            &&& message.content is None ==> all == before
            &&& message.role@ != "user"@ && message.role@ != "assistant"@ ==> all == before
        }),
{
    assert(turns(messages.push(message)).drop_last() =~= turns(messages));
}

/// The last thing the system says counts, behind what the model is told so that it
/// reasons; only a text counts.
pub proof fn the_last_system_message_counts(
    messages: Seq<ChatMessage>,
    message: ChatMessage,
    prompt: Seq<char>,
)
    ensures
        ({
            let all = messages.push(message);
            &&& message.role@ == "system"@ && message.content is Some && message.content->0 is
                String ==> system_of(all, None) == Some((message.content->0)->String_0@)
                && system_of(all, Some(prompt)) == Some(
                prompt + "\n\n"@ + (message.content->0)->String_0@,
            )
            &&& message.role@ != "system"@ || message.content is None || message.content->0 is Array
                ==> system_of(all, None) == system_of(messages, None) && system_of(
                all,
                Some(prompt),
            ) == system_of(messages, Some(prompt))
        }),
        system_of(Seq::empty(), None) is None,
{
    assert(messages.push(message).drop_last() =~= messages);
}

/// The document carries the settings of a request; the limit of the completion counts
/// before that of all, and 1024 tokens hold without one.
pub proof fn documents_carry_the_request(request: ChatCompletionRequest, i: int)
    ensures
        ({
            let told = AnthropicProvider::chat_document(request);
            let said = flattened(turns(request.messages@));
            let items = told.field("messages"@)->0.items()->0;
            &&& told.field_text("model"@) == Some(request.model@)
            &&& request.max_completion_tokens is Some ==> told.field_whole("max_tokens"@) == Some(
                request.max_completion_tokens->0 as u64,
            )
            &&& request.max_completion_tokens is None && request.max_tokens is Some
                ==> told.field_whole("max_tokens"@) == Some(request.max_tokens->0 as u64)
            &&& request.max_completion_tokens is None && request.max_tokens is None
                ==> told.field_whole("max_tokens"@) == Some(1024u64)
            &&& items.len() == said.len()
            &&& 0 <= i < said.len() ==> items[i].field_text("role"@) == Some(said[i].0)
                && items[i].field_text("content"@) == Some(said[i].1)
            &&& told.field_text("system"@) == system_of(
                request.messages@,
                match request.reasoning {
                    Some(r) => r.thinking_prompt(),
                    None => None,
                },
            )
            &&& told.field("temperature"@) == number_view(request.temperature)
            &&& told.field("top_p"@) == number_view(request.top_p)
            &&& told.field("stop_sequences"@) == texts_view(request.stop)
            &&& told.field("stream"@) == bool_view(request.stream)
        }),
{
    reveal_strlit("model");
    reveal_strlit("max_tokens");
    reveal_strlit("messages");
    reveal_strlit("system");
    reveal_strlit("temperature");
    reveal_strlit("top_p");
    reveal_strlit("stop_sequences");
    reveal_strlit("stream");
    reveal_strlit("role");
    reveal_strlit("content");
    assert("model"@.len() == 5
        && "max_tokens"@.len() == 10
        && "messages"@.len() == 8
        && "system"@.len() == 6
        && "temperature"@.len() == 11
        && "top_p"@.len() == 5
        && "stop_sequences"@.len() == 14
        && "stream"@.len() == 6
        && "role"@.len() == 4
        && "content"@.len() == 7
        && "model"@[0] == 'm'
        && "top_p"@[0] == 't'
        && "system"@[1] == 'y'
        && "stream"@[1] == 't');
    let base = seq![
        ("model"@, JsonView::String(request.model@)),
        ("max_tokens"@, whole_number(token_limit(request) as u64)),
        ("messages"@, JsonView::Array(message_documents(flattened(turns(request.messages@))))),
    ];
    crate::json::field_found(base, 0);
    crate::json::field_found(base, 1);
    crate::json::field_found(base, 2);
    crate::json::field_not_found(base, "system"@);
    crate::json::field_not_found(base, "temperature"@);
    crate::json::field_not_found(base, "top_p"@);
    crate::json::field_not_found(base, "stop_sequences"@);
    crate::json::field_not_found(base, "stream"@);
    let told = AnthropicProvider::chat_document(request);
    assert(told.field("model"@) == Some(base[0].1)) by {
        broadcast use crate::json::group_fields;

    }
    assert(told.field("max_tokens"@) == Some(base[1].1)) by {
        broadcast use crate::json::group_fields;

    }
    assert(told.field("messages"@) == Some(base[2].1)) by {
        broadcast use crate::json::group_fields;

    }
    assert(told.field("system"@) == text_document(system_of(request.messages@,prompt_for(request.reasoning)))) by {
        broadcast use crate::json::group_fields;

    }
    assert(told.field("temperature"@) == number_view(request.temperature)) by {
        broadcast use crate::json::group_fields;

    }
    assert(told.field("top_p"@) == number_view(request.top_p)) by {
        broadcast use crate::json::group_fields;

    }
    assert(told.field("stop_sequences"@) == texts_view(request.stop)) by {
        broadcast use crate::json::group_fields;

    }
    assert(told.field("stream"@) == bool_view(request.stream)) by {
        broadcast use crate::json::group_fields;

    }
    broadcast use crate::json::group_fields;

    reveal_with_fuel(crate::json::last_field, 3);
    let said = flattened(turns(request.messages@));
    if 0 <= i < said.len() {
        assert(message_documents(said)[i] == message_document(said[i]));
    }
}

/// A request goes to the messages of the service, with the key and the version.
pub proof fn calls_show_the_key(provider: AnthropicProvider, body: JsonView)
    ensures
        ({
            let call = provider.posted(body);
            &&& call.url == provider.base() + "/messages"@
            &&& call.headers.len() == 3
            &&& call.headers[0] == ("x-api-key"@, provider.config.api_key@)
            &&& call.headers[1] == ("anthropic-version"@, "2023-06-01"@)
            &&& call.headers[2] == ("Content-Type"@, "application/json"@)
            &&& call.body == Some(body)
        }),
        provider.config@.param("base_url"@) is None ==> provider.base()
            == "https://api.anthropic.com/v1"@,
        provider.config@.param("base_url"@) matches Some(url) ==> provider.base() == url,
{
}

/// A reply becomes the texts of its parts one after the other, with the counts as they
/// came and their sum.
pub proof fn replies_are_told_whole(
    response: AnthropicChatCompletionResponse,
    completion: ChatCompletion,
    created: u64,
)
    requires
        response.becomes(completion, created),
    ensures
        completion.id@ == response.id@,
        completion.model@ == response.model@,
        completion.choices@.len() == 1,
        says(
            completion.choices@[0].message,
            response.role@,
            joined(block_texts(response.content@), ""@),
        ),
        opt_text(completion.choices@[0].finish_reason) == opt_text(response.stop_reason),
        completion.usage.prompt_tokens == response.usage.input_tokens,
        completion.usage.completion_tokens == response.usage.output_tokens,
        completion.usage.total_tokens == response.usage.input_tokens
            + response.usage.output_tokens,
        completion.created == Some(created),
        opt_text(completion.object) == Some("chat.completion"@),
{
}

} // verus!
