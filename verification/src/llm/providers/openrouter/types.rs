//! What OpenRouter is told and what it tells.
use vstd::prelude::*;
use vstd::string::*;

use crate::json::{
    bool_json, bool_view, field_if, field_views, json_views, no_fields, no_items, number_json,
    number_view, opt_count_json, opt_count_view, opt_json, put, put_item, put_opt, put_text,
    text_json, text_view, texts_json, texts_view, Json, JsonNumber, JsonView,
};
use crate::llm::models::chat::{message_documents, messages_json, ChatMessage};
use crate::llm::models::tools::{
    choice_document, choice_json, tools_document, tools_json, Tool, ToolCall, ToolChoice,
};
use crate::llm::models::usage::Usage;
use crate::seqs::{prefix_next, whole_prefix};

verus! {

/// How a model is chosen.
#[derive(Clone, Copy, Debug, PartialEq, Eq, Structural)]
pub enum RouteStrategy {
    /// Another model takes over where one fails.
    Fallback,
}

impl Default for RouteStrategy {
    fn default() -> (r: Self)
        ensures
            r == RouteStrategy::Fallback,
    {
        RouteStrategy::Fallback
    }
}

/// Which providers are wanted.
#[derive(Clone, Debug)]
pub struct ProviderPreferences {
    pub allow: Option<Vec<String>>,
    pub disallow: Option<Vec<String>>,
    /// What a provider must be able to do.
    pub require: Option<Vec<String>>,
}

impl Default for ProviderPreferences {
    fn default() -> (r: Self)
        ensures
            r == (ProviderPreferences { allow: None, disallow: None, require: None }),
    {
        ProviderPreferences { allow: None, disallow: None, require: None }
    }
}

impl ProviderPreferences {
    pub fn new() -> (r: Self)
        ensures
            r == (ProviderPreferences { allow: None, disallow: None, require: None }),
    {
        ProviderPreferences { allow: None, disallow: None, require: None }
    }

    pub fn allow(self, providers: Vec<String>) -> (r: Self)
        ensures
            r == (ProviderPreferences { allow: Some(providers), ..self }),
    {
        ProviderPreferences { allow: Some(providers), ..self }
    }

    pub fn disallow(self, providers: Vec<String>) -> (r: Self)
        ensures
            r == (ProviderPreferences { disallow: Some(providers), ..self }),
    {
        ProviderPreferences { disallow: Some(providers), ..self }
    }

    pub fn require(self, features: Vec<String>) -> (r: Self)
        ensures
            r == (ProviderPreferences { require: Some(features), ..self }),
    {
        ProviderPreferences { require: Some(features), ..self }
    }

    /// The preferences as a document.
    pub open spec fn document(self) -> JsonView {
        JsonView::Object(
            Seq::<(Seq<char>, JsonView)>::empty() + field_if("allow"@, texts_view(self.allow))
                + field_if("disallow"@, texts_view(self.disallow)) + field_if(
                "require"@,
                texts_view(self.require),
            ),
        )
    }

    fn to_json(&self) -> (r: Json)
        ensures
            r@ == self.document(),
    {
        let mut fields = no_fields();
        put_opt(&mut fields, "allow", texts_json(&self.allow));
        put_opt(&mut fields, "disallow", texts_json(&self.disallow));
        put_opt(&mut fields, "require", texts_json(&self.require));
        Json::object(fields)
    }
}

/// What is done to a prompt before a model gets it.
#[derive(Clone, Copy, Debug, PartialEq, Eq, Structural)]
pub enum Transform {
    /// The middle of a prompt that is too long is left out.
    MiddleOut,
}

/// A model that can be had.
#[derive(Clone, Debug)]
pub struct OpenRouterModel {
    pub id: String,
    pub name: String,
    pub description: Option<String>,
    pub context_length: Option<u32>,
    pub pricing: Option<ModelPricing>,
    pub top_provider: Option<ProviderInfo>,
    pub per_request_limits: Option<RequestLimits>,
}

/// What a model costs for a million tokens.
#[derive(Clone, Debug)]
pub struct ModelPricing {
    pub prompt: Option<String>,
    pub completion: Option<String>,
    pub input: Option<String>,
    pub output: Option<String>,
}

/// Who offers a model.
#[derive(Clone, Debug)]
pub struct ProviderInfo {
    pub name: String,
    pub max_completion_tokens: Option<u32>,
    pub is_moderated: Option<bool>,
}

/// How much one request may take.
#[derive(Clone, Debug)]
pub struct RequestLimits {
    pub prompt_tokens: Option<u32>,
    pub completion_tokens: Option<u32>,
}

/// What became of a request.
#[derive(Clone, Debug)]
pub struct GenerationInfo {
    pub id: String,
    pub model: String,
    pub provider: Option<String>,
    /// In USD.
    pub total_cost: Option<JsonNumber>,
    pub usage: Option<GenerationUsage>,
    pub created_at: Option<String>,
    /// Anything else.
    pub metadata: Vec<(String, Json)>,
}

/// How many tokens a request took.
#[derive(Clone, Debug)]
pub struct GenerationUsage {
    pub prompt_tokens: Option<u32>,
    pub completion_tokens: Option<u32>,
    pub total_tokens: Option<u32>,
    pub native_tokens_prompt: Option<u32>,
    pub native_tokens_completion: Option<u32>,
}

/// How much may still be asked.
#[derive(Clone, Debug)]
pub struct OpenRouterLimits {
    pub daily_limit: Option<JsonNumber>,
    pub daily_used: Option<JsonNumber>,
    pub daily_remaining: Option<JsonNumber>,
    pub rate_limit: Option<u32>,
    pub rate_remaining: Option<u32>,
    pub rate_reset: Option<String>,
}

/// A request in OpenRouter's form.
#[derive(Debug)]
pub struct OpenRouterChatRequest {
    pub model: String,
    /// The models that take over where one fails.
    pub models: Option<Vec<String>>,
    pub messages: Vec<ChatMessage>,
    pub max_tokens: Option<u32>,
    pub temperature: Option<JsonNumber>,
    pub top_p: Option<JsonNumber>,
    pub top_k: Option<u32>,
    pub frequency_penalty: Option<JsonNumber>,
    pub presence_penalty: Option<JsonNumber>,
    pub repetition_penalty: Option<JsonNumber>,
    pub stop: Option<Vec<String>>,
    pub stream: Option<bool>,
    pub route: Option<RouteStrategy>,
    pub provider: Option<ProviderPreferences>,
    pub transforms: Option<Vec<Transform>>,
    pub response_format: Option<ResponseFormat>,
    pub tools: Option<Vec<Tool>>,
    pub tool_choice: Option<ToolChoice>,
    pub user: Option<String>,
}

/// The form of the reply's text.
#[derive(Clone, Debug)]
pub struct ResponseFormat {
    pub format_type: String,
    pub schema: Option<Json>,
}

/// A reply in OpenRouter's form.
#[derive(Debug)]
pub struct OpenRouterChatResponse {
    pub id: String,
    pub object: String,
    pub created: u64,
    pub model: String,
    pub choices: Vec<OpenRouterChoice>,
    pub usage: Option<Usage>,
    pub provider: Option<String>,
}

/// One way to go on with a conversation.
#[derive(Debug)]
pub struct OpenRouterChoice {
    pub index: u32,
    pub message: ChatMessage,
    pub finish_reason: Option<String>,
    pub logprobs: Option<Json>,
}

/// A piece of a reply.
#[derive(Clone, Debug)]
pub struct OpenRouterStreamChunk {
    pub id: String,
    pub object: String,
    pub created: u64,
    pub model: String,
    pub choices: Vec<OpenRouterStreamChoice>,
}

/// A piece of one way to go on.
#[derive(Clone, Debug)]
pub struct OpenRouterStreamChoice {
    pub index: u32,
    pub delta: OpenRouterStreamDelta,
    pub finish_reason: Option<String>,
}

/// What a piece adds to a message.
#[derive(Clone, Debug)]
pub struct OpenRouterStreamDelta {
    pub role: Option<String>,
    pub content: Option<String>,
    pub tool_calls: Option<Vec<ToolCall>>,
}

/// How a model is chosen, as a document.
pub open spec fn route_document(route: Option<RouteStrategy>) -> Option<JsonView> {
    match route {
        Some(RouteStrategy::Fallback) => Some(JsonView::String("fallback"@)),
        None => None,
    }
}

fn route_json(route: Option<RouteStrategy>) -> (r: Option<Json>)
    ensures
        opt_json(r) == route_document(route),
{
    match route {
        Some(RouteStrategy::Fallback) => Some(Json::text("fallback")),
        None => None,
    }
}

/// Which providers are wanted, as a document.
pub open spec fn preferences_document(preferences: Option<ProviderPreferences>) -> Option<
    JsonView,
> {
    match preferences {
        Some(preferences) => Some(preferences.document()),
        None => None,
    }
}

/// What is done to a prompt, as documents.
pub open spec fn transform_documents(transforms: Seq<Transform>) -> Seq<JsonView> {
    Seq::new(transforms.len(), |i: int| JsonView::String("middle_out"@))
}

/// What is done to a prompt, as a document.
pub open spec fn transforms_document(transforms: Option<Vec<Transform>>) -> Option<JsonView> {
    match transforms {
        Some(transforms) => Some(JsonView::Array(transform_documents(transforms@))),
        None => None,
    }
}

fn transforms_json(transforms: &Option<Vec<Transform>>) -> (r: Option<Json>)
    ensures
        opt_json(r) == transforms_document(*transforms),
{
    match transforms {
        Some(transforms) => {
            let mut items = no_items();
            let ghost all = transform_documents(transforms@);
            let mut i: usize = 0;
            proof {
                whole_prefix(all);
            }
            while i < transforms.len()
                invariant
                    i <= transforms@.len(),
                    all == transform_documents(transforms@),
                    json_views(items@) == all.subrange(0, i as int),
                decreases transforms@.len() - i,
            {
                put_item(&mut items, Json::text("middle_out"));
                proof {
                    prefix_next(all, i as int);
                }
                i = i + 1;
            }
            proof {
                whole_prefix(all);
            }
            Some(Json::array(items))
        },
        None => None,
    }
}

/// The form of the reply's text, as a document.
pub open spec fn format_document(format: Option<ResponseFormat>) -> Option<JsonView> {
    match format {
        Some(format) => Some(
            JsonView::Object(
                seq![("type"@, JsonView::String(format.format_type@))] + field_if(
                    "schema"@,
                    opt_json(format.schema),
                ),
            ),
        ),
        None => None,
    }
}

fn format_json(format: &Option<ResponseFormat>) -> (r: Option<Json>)
    ensures
        opt_json(r) == format_document(*format),
{
    match format {
        Some(format) => {
            let schema = match &format.schema {
                Some(schema) => Some(schema.duplicate()),
                None => None,
            };
            let mut fields = no_fields();
            put_text(&mut fields, "type", format.format_type.as_str());
            assert(field_views(fields@) =~= seq![
                ("type"@, JsonView::String(format.format_type@)),
            ]);
            put_opt(&mut fields, "schema", schema);
            Some(Json::object(fields))
        },
        None => None,
    }
}

impl OpenRouterChatRequest {
    /// The request as a document.
    pub open spec fn document(self) -> JsonView {
        JsonView::Object(
            seq![("model"@, JsonView::String(self.model@))] + field_if(
                "models"@,
                texts_view(self.models),
            ) + seq![("messages"@, JsonView::Array(message_documents(self.messages@)))] + field_if(
                "max_tokens"@,
                opt_count_view(self.max_tokens),
            ) + field_if("temperature"@, number_view(self.temperature)) + field_if(
                "top_p"@,
                number_view(self.top_p),
            ) + field_if("top_k"@, opt_count_view(self.top_k)) + field_if(
                "frequency_penalty"@,
                number_view(self.frequency_penalty),
            ) + field_if("presence_penalty"@, number_view(self.presence_penalty)) + field_if(
                "repetition_penalty"@,
                number_view(self.repetition_penalty),
            ) + field_if("stop"@, texts_view(self.stop)) + field_if(
                "stream"@,
                bool_view(self.stream),
            ) + field_if("route"@, route_document(self.route)) + field_if(
                "provider"@,
                preferences_document(self.provider),
            ) + field_if("transforms"@, transforms_document(self.transforms)) + field_if(
                "response_format"@,
                format_document(self.response_format),
            ) + field_if("tools"@, tools_document(self.tools)) + field_if(
                "tool_choice"@,
                choice_document(self.tool_choice),
            ) + field_if("user"@, text_view(self.user)),
        )
    }

    /// The request as a document.
    pub fn to_json(&self) -> (r: Json)
        ensures
            r@ == self.document(),
    {
        let preferences = match &self.provider {
            Some(preferences) => Some(preferences.to_json()),
            None => None,
        };
        let mut fields = no_fields();
        put_text(&mut fields, "model", self.model.as_str());
        assert(field_views(fields@) =~= seq![("model"@, JsonView::String(self.model@))]);
        put_opt(&mut fields, "models", texts_json(&self.models));
        let ghost before = field_views(fields@);
        put(&mut fields, "messages", messages_json(&self.messages));
        assert(field_views(fields@) =~= before + seq![
            ("messages"@, JsonView::Array(message_documents(self.messages@))),
        ]);
        put_opt(&mut fields, "max_tokens", opt_count_json(self.max_tokens));
        put_opt(&mut fields, "temperature", number_json(&self.temperature));
        put_opt(&mut fields, "top_p", number_json(&self.top_p));
        put_opt(&mut fields, "top_k", opt_count_json(self.top_k));
        put_opt(&mut fields, "frequency_penalty", number_json(&self.frequency_penalty));
        put_opt(&mut fields, "presence_penalty", number_json(&self.presence_penalty));
        put_opt(&mut fields, "repetition_penalty", number_json(&self.repetition_penalty));
        put_opt(&mut fields, "stop", texts_json(&self.stop));
        put_opt(&mut fields, "stream", bool_json(self.stream));
        put_opt(&mut fields, "route", route_json(self.route));
        put_opt(&mut fields, "provider", preferences);
        put_opt(&mut fields, "transforms", transforms_json(&self.transforms));
        put_opt(&mut fields, "response_format", format_json(&self.response_format));
        put_opt(&mut fields, "tools", tools_json(&self.tools));
        put_opt(&mut fields, "tool_choice", choice_json(&self.tool_choice));
        put_opt(&mut fields, "user", text_json(&self.user));
        Json::object(fields)
    }
}

/// Each setting of a request is told under its name, and only if it is set.
pub proof fn requests_tell_their_settings(request: OpenRouterChatRequest)
    ensures
        ({
            let told = request.document();
            &&& told.field_text("model"@) == Some(request.model@)
            &&& told.field("models"@) == texts_view(request.models)
            &&& told.field("messages"@)->0.items() == Some(message_documents(request.messages@))
            &&& told.field("max_tokens"@) == opt_count_view(request.max_tokens)
            &&& told.field("temperature"@) == number_view(request.temperature)
            &&& told.field("top_p"@) == number_view(request.top_p)
            &&& told.field("top_k"@) == opt_count_view(request.top_k)
            &&& told.field("frequency_penalty"@) == number_view(request.frequency_penalty)
            &&& told.field("presence_penalty"@) == number_view(request.presence_penalty)
            &&& told.field("repetition_penalty"@) == number_view(request.repetition_penalty)
            &&& told.field("stop"@) == texts_view(request.stop)
            &&& told.field("stream"@) == bool_view(request.stream)
            &&& request.route is None ==> told.field("route"@) is None
            &&& request.route is Some ==> told.field_text("route"@) == Some("fallback"@)
            &&& told.field("tools"@) == tools_document(request.tools)
            &&& told.field("tool_choice"@) == choice_document(request.tool_choice)
            &&& told.field("user"@) == text_view(request.user)
            &&& told.field("provider"@) == preferences_document(request.provider)
            &&& told.field("transforms"@) == transforms_document(request.transforms)
            &&& told.field("response_format"@) == format_document(request.response_format)
        }),
{
    reveal_strlit("model");
    reveal_strlit("models");
    reveal_strlit("messages");
    reveal_strlit("max_tokens");
    reveal_strlit("temperature");
    reveal_strlit("top_p");
    reveal_strlit("top_k");
    reveal_strlit("frequency_penalty");
    reveal_strlit("presence_penalty");
    reveal_strlit("repetition_penalty");
    reveal_strlit("stop");
    reveal_strlit("stream");
    reveal_strlit("route");
    reveal_strlit("provider");
    reveal_strlit("transforms");
    reveal_strlit("response_format");
    reveal_strlit("tools");
    reveal_strlit("tool_choice");
    reveal_strlit("user");
    assert("model"@.len() == 5
        && "models"@.len() == 6
        && "messages"@.len() == 8
        && "max_tokens"@.len() == 10
        && "temperature"@.len() == 11
        && "top_p"@.len() == 5
        && "top_k"@.len() == 5
        && "frequency_penalty"@.len() == 17
        && "presence_penalty"@.len() == 16
        && "repetition_penalty"@.len() == 18
        && "stop"@.len() == 4
        && "stream"@.len() == 6
        && "route"@.len() == 5
        && "provider"@.len() == 8
        && "transforms"@.len() == 10
        && "response_format"@.len() == 15
        && "tools"@.len() == 5
        && "tool_choice"@.len() == 11
        && "user"@.len() == 4
        && "model"@[0] == 'm'
        && "top_p"@[0] == 't'
        && "top_k"@[0] == 't'
        && "route"@[0] == 'r'
        && "tools"@[0] == 't'
        && "models"@[0] == 'm'
        && "stream"@[0] == 's'
        && "messages"@[0] == 'm'
        && "provider"@[0] == 'p'
        && "max_tokens"@[0] == 'm'
        && "transforms"@[0] == 't'
        && "temperature"@[1] == 'e'
        && "tool_choice"@[1] == 'o'
        && "top_p"@[4] == 'p'
        && "top_k"@[4] == 'k'
        && "top_p"@[2] == 'p'
        && "tools"@[2] == 'o'
        && "top_k"@[2] == 'p'
        && "stop"@[0] == 's'
        && "user"@[0] == 'u');
    let told = request.document();
    assert(told.field("model"@) == Some(JsonView::String(request.model@))) by {
        broadcast use crate::json::group_fields;

    }
    assert(told.field("models"@) == texts_view(request.models)) by {
        broadcast use crate::json::group_fields;

    }
    assert(told.field("messages"@) == Some(JsonView::Array(message_documents(request.messages@)))) by {
        broadcast use crate::json::group_fields;

    }
    assert(told.field("max_tokens"@) == opt_count_view(request.max_tokens)) by {
        broadcast use crate::json::group_fields;

    }
    assert(told.field("temperature"@) == number_view(request.temperature)) by {
        broadcast use crate::json::group_fields;

    }
    assert(told.field("top_p"@) == number_view(request.top_p)) by {
        broadcast use crate::json::group_fields;

    }
    assert(told.field("top_k"@) == opt_count_view(request.top_k)) by {
        broadcast use crate::json::group_fields;

    }
    assert(told.field("frequency_penalty"@) == number_view(request.frequency_penalty)) by {
        broadcast use crate::json::group_fields;

    }
    assert(told.field("presence_penalty"@) == number_view(request.presence_penalty)) by {
        broadcast use crate::json::group_fields;

    }
    assert(told.field("repetition_penalty"@) == number_view(request.repetition_penalty)) by {
        broadcast use crate::json::group_fields;

    }
    assert(told.field("stop"@) == texts_view(request.stop)) by {
        broadcast use crate::json::group_fields;

    }
    assert(told.field("stream"@) == bool_view(request.stream)) by {
        broadcast use crate::json::group_fields;

    }
    assert(told.field("route"@) == route_document(request.route)) by {
        broadcast use crate::json::group_fields;

    }
    assert(told.field("provider"@) == preferences_document(request.provider)) by {
        broadcast use crate::json::group_fields;

    }
    assert(told.field("transforms"@) == transforms_document(request.transforms)) by {
        broadcast use crate::json::group_fields;

    }
    assert(told.field("response_format"@) == format_document(request.response_format)) by {
        broadcast use crate::json::group_fields;

    }
    assert(told.field("tools"@) == tools_document(request.tools)) by {
        broadcast use crate::json::group_fields;

    }
    assert(told.field("tool_choice"@) == choice_document(request.tool_choice)) by {
        broadcast use crate::json::group_fields;

    }
    assert(told.field("user"@) == text_view(request.user)) by {
        broadcast use crate::json::group_fields;

    }
}

/// Which providers are wanted is told under three names; what is done to a prompt is told
/// by its word, and a form by its type and its schema.
pub proof fn preferences_are_told(p: ProviderPreferences, format: ResponseFormat, transforms: Seq<Transform>, i: int)
    ensures
        p.document().field("allow"@) == texts_view(p.allow),
        p.document().field("disallow"@) == texts_view(p.disallow),
        p.document().field("require"@) == texts_view(p.require),
        format_document(Some(format))->0.field_text("type"@) == Some(format.format_type@),
        format_document(Some(format))->0.field("schema"@) == opt_json(format.schema),
        transform_documents(transforms).len() == transforms.len(),
        0 <= i < transforms.len() ==> transform_documents(transforms)[i] == JsonView::String(
            "middle_out"@,
        ),
{
    broadcast use crate::json::group_fields;

    reveal_strlit("allow");
    reveal_strlit("disallow");
    reveal_strlit("require");
    reveal_strlit("type");
    reveal_strlit("schema");
    assert("allow"@.len() == 5
        && "disallow"@.len() == 8
        && "require"@.len() == 7
        && "type"@.len() == 4
        && "schema"@.len() == 6);
}

} // verus!
