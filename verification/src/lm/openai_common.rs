//! Chat completions in the form of OpenAI, which many providers share.
use vstd::prelude::*;
use vstd::string::*;

use super::bedrock_response::{or_empty, reply_view};
use super::formats::{object_reply, parse_object};
use super::interface::{
    call_views, GenerateRequest, GenerateResponse, Message, MessageRole, ResponseFormat,
    ResponseView, TokenUsage, ToolCall, ToolCallView, ToolChoice, ToolDefinition,
};
use crate::error::{ErrorView, SdkError};
use crate::json::{
    array_unless_empty, bool_json, bool_view, count_json, count_view, field_if, field_views,
    json_views, no_fields, no_items, number_json, number_view, opt_json, or_null, put, put_item,
    put_opt, put_text, text_json, text_or_null, text_view, unless_empty, whole_number, Json,
    JsonView,
};
use crate::seqs::{listed, prefix_next, whole_prefix};
use crate::text::{begins_with, opt_text, starts_with, str_eq};

verus! {

/// Whether a model reasons before it replies. Such models take no sampling
/// parameters, and have a limit of another name.
pub open spec fn reasons(model: Seq<char>) -> bool {
    ||| begins_with(model, "gpt-5"@)
    ||| model == "o1"@
    ||| begins_with(model, "o1-"@)
    ||| model == "o3"@
    ||| begins_with(model, "o3-"@)
    ||| model == "o4"@
    ||| begins_with(model, "o4-"@)
}

/// Whether a model reasons before it replies.
pub fn is_reasoning_model(model: &str) -> (r: bool)
    ensures
        r == reasons(model@),
{
    starts_with(model, "gpt-5") || str_eq(model, "o1") || starts_with(model, "o1-") || str_eq(
        model,
        "o3",
    ) || starts_with(model, "o3-") || str_eq(model, "o4") || starts_with(model, "o4-")
}

/// A call in OpenAI's form.
pub open spec fn api_call(id: Seq<char>, kind: Seq<char>, name: Seq<char>, arguments: Seq<char>) -> JsonView {
    JsonView::Object(
        seq![
            ("id"@, JsonView::String(id)),
            ("type"@, JsonView::String(kind)),
            (
                "function"@,
                JsonView::Object(
                    seq![
                        ("name"@, JsonView::String(name)),
                        ("arguments"@, JsonView::String(arguments)),
                    ],
                ),
            ),
        ],
    )
}

fn api_call_json(id: &str, kind: &str, name: &str, arguments: &str) -> (r: Json)
    ensures
        r@ == api_call(id@, kind@, name@, arguments@),
{
    let mut function = no_fields();
    put_text(&mut function, "name", name);
    put_text(&mut function, "arguments", arguments);
    let ghost inner = field_views(function@);
    let mut fields = no_fields();
    put_text(&mut fields, "id", id);
    put_text(&mut fields, "type", kind);
    put(&mut fields, "function", Json::object(function));
    proof {
        let wanted = api_call(id@, kind@, name@, arguments@)->Object_0;
        assert(inner =~= wanted[2].1->Object_0);
        assert(field_views(fields@) =~= wanted);
    }
    Json::object(fields)
}

/// The calls of a message in OpenAI's form.
pub open spec fn api_calls(calls: Seq<ToolCall>) -> Seq<JsonView> {
    Seq::new(
        calls.len(),
        |i: int| api_call(calls[i].id@, "function"@, calls[i].name@, calls[i].arguments@),
    )
}

fn api_calls_json(calls: &Vec<ToolCall>) -> (r: Vec<Json>)
    ensures
        json_views(r@) == api_calls(calls@),
{
    let mut out = no_items();
    let ghost all = api_calls(calls@);
    let mut i: usize = 0;
    proof {
        whole_prefix(all);
    }
    while i < calls.len()
        invariant
            i <= calls@.len(),
            all == api_calls(calls@),
            json_views(out@) == all.subrange(0, i as int),
        decreases calls@.len() - i,
    {
        let call = &calls[i];
        put_item(
            &mut out,
            api_call_json(
                call.id.as_str(),
                "function",
                call.name.as_str(),
                call.arguments.as_str(),
            ),
        );
        proof {
            prefix_next(all, i as int);
        }
        i = i + 1;
    }
    proof {
        whole_prefix(all);
    }
    out
}

/// A plain message in OpenAI's form.
pub open spec fn plain_message(role: Seq<char>, content: Seq<char>) -> JsonView {
    JsonView::Object(
        seq![("role"@, JsonView::String(role)), ("content"@, JsonView::String(content))],
    )
}

fn plain_message_json(role: &str, content: &str) -> (r: Json)
    ensures
        r@ == plain_message(role@, content@),
{
    let mut fields = no_fields();
    put_text(&mut fields, "role", role);
    put_text(&mut fields, "content", content);
    assert(field_views(fields@) =~= plain_message(role@, content@)->Object_0);
    Json::object(fields)
}

/// A message in OpenAI's form: what a call gave, what the model said with the calls
/// it made, or a plain text.
pub open spec fn api_message(message: Message) -> JsonView {
    match (message.tool_call_id, message.tool_calls) {
        (Some(id), _) => JsonView::Object(
            seq![
                ("role"@, JsonView::String("tool"@)),
                ("content"@, JsonView::String(message.content@)),
                ("tool_call_id"@, JsonView::String(id@)),
            ],
        ),
        (None, Some(calls)) => JsonView::Object(
            seq![("role"@, JsonView::String("assistant"@))] + field_if(
                "content"@,
                if message.content@.len() == 0 {
                    None
                } else {
                    Some(JsonView::String(message.content@))
                },
            ) + seq![("tool_calls"@, JsonView::Array(api_calls(calls@)))],
        ),
        (None, None) => plain_message(message.role.name(), message.content@),
    }
}

/// A message in OpenAI's form.
pub fn api_message_json(message: &Message) -> (r: Json)
    ensures
        r@ == api_message(*message),
{
    if let Some(id) = &message.tool_call_id {
        let mut fields = no_fields();
        put_text(&mut fields, "role", "tool");
        put_text(&mut fields, "content", message.content.as_str());
        put_text(&mut fields, "tool_call_id", id.as_str());
        assert(field_views(fields@) =~= api_message(*message)->Object_0);
        return Json::object(fields);
    }
    if let Some(calls) = &message.tool_calls {
        let mut fields = no_fields();
        put_text(&mut fields, "role", "assistant");
        if !message.content.as_str().is_empty() {
            put_text(&mut fields, "content", message.content.as_str());
        }
        put(&mut fields, "tool_calls", Json::array(api_calls_json(calls)));
        assert(field_views(fields@) =~= api_message(*message)->Object_0);
        return Json::object(fields);
    }
    plain_message_json(message.role.as_str(), message.content.as_str())
}

/// The messages of a request: the system prompt, then the conversation.
pub open spec fn api_messages(request: GenerateRequest) -> Seq<JsonView> {
    listed(
        match request.system_prompt {
            Some(prompt) => Some(plain_message("system"@, prompt@)),
            None => None,
        },
    ) + Seq::new(request.messages@.len(), |i: int| api_message(request.messages@[i]))
}

/// The messages of a request.
pub fn build_api_messages(request: &GenerateRequest) -> (r: Vec<Json>)
    ensures
        json_views(r@) == api_messages(*request),
{
    let mut out = no_items();
    if let Some(prompt) = &request.system_prompt {
        put_item(&mut out, plain_message_json("system", prompt.as_str()));
    }
    let ghost first = json_views(out@);
    let ghost all = Seq::new(request.messages@.len(), |i: int| api_message(request.messages@[i]));
    let mut i: usize = 0;
    proof {
        whole_prefix(all);
        assert(first + all.subrange(0, 0) =~= first);
    }
    while i < request.messages.len()
        invariant
            i <= request.messages@.len(),
            all == Seq::new(
                request.messages@.len(),
                |i: int| api_message(request.messages@[i]),
            ),
            json_views(out@) == first + all.subrange(0, i as int),
        decreases request.messages@.len() - i,
    {
        put_item(&mut out, api_message_json(&request.messages[i]));
        proof {
            prefix_next(all, i as int);
            assert(json_views(out@) =~= first + all.subrange(0, i + 1));
        }
        i = i + 1;
    }
    proof {
        whole_prefix(all);
        assert(json_views(out@) =~= api_messages(*request));
    }
    out
}

/// The form of the reply in OpenAI's form.
pub open spec fn api_response_format(format: ResponseFormat) -> Option<JsonView> {
    match format {
        ResponseFormat::Text => None,
        ResponseFormat::Json => Some(
            JsonView::Object(seq![("type"@, JsonView::String("json_object"@))]),
        ),
        ResponseFormat::JsonSchema(schema) => Some(
            JsonView::Object(
                seq![
                    ("type"@, JsonView::String("json_schema"@)),
                    (
                        "json_schema"@,
                        JsonView::Object(
                            seq![
                                ("name"@, JsonView::String(schema.name@)),
                                ("schema"@, schema.schema@),
                                ("strict"@, JsonView::Bool(schema.strict)),
                            ],
                        ),
                    ),
                ],
            ),
        ),
    }
}

fn api_response_format_json(format: &ResponseFormat) -> (r: Option<Json>)
    ensures
        opt_json(r) == api_response_format(*format),
{
    match format {
        ResponseFormat::Text => None,
        ResponseFormat::Json => {
            let mut fields = no_fields();
            put_text(&mut fields, "type", "json_object");
            assert(field_views(fields@) =~= api_response_format(*format)->0->Object_0);
            Some(Json::object(fields))
        },
        ResponseFormat::JsonSchema(schema) => {
            let mut inner = no_fields();
            put_text(&mut inner, "name", schema.name.as_str());
            put(&mut inner, "schema", schema.schema.duplicate());
            put(&mut inner, "strict", Json::Bool(schema.strict));
            let ghost inner_view = field_views(inner@);
            let mut fields = no_fields();
            put_text(&mut fields, "type", "json_schema");
            put(&mut fields, "json_schema", Json::object(inner));
            proof {
                let wanted = api_response_format(*format)->0->Object_0;
                assert(inner_view =~= wanted[1].1->Object_0);
                assert(field_views(fields@) =~= wanted);
            }
            Some(Json::object(fields))
        },
    }
}

/// A tool in OpenAI's form.
pub open spec fn api_tool(tool: ToolDefinition) -> JsonView {
    JsonView::Object(
        seq![
            ("type"@, JsonView::String("function"@)),
            (
                "function"@,
                JsonView::Object(
                    seq![("name"@, JsonView::String(tool.name@))] + field_if(
                        "description"@,
                        text_view(tool.description),
                    ) + field_if("parameters"@, opt_json(tool.parameters)) + field_if(
                        "strict"@,
                        bool_view(tool.strict),
                    ),
                ),
            ),
        ],
    )
}

fn api_tool_json(tool: &ToolDefinition) -> (r: Json)
    ensures
        r@ == api_tool(*tool),
{
    let parameters = match &tool.parameters {
        Some(parameters) => Some(parameters.duplicate()),
        None => None,
    };
    let mut inner = no_fields();
    put_text(&mut inner, "name", tool.name.as_str());
    put_opt(&mut inner, "description", text_json(&tool.description));
    put_opt(&mut inner, "parameters", parameters);
    put_opt(&mut inner, "strict", bool_json(tool.strict));
    let ghost inner_view = field_views(inner@);
    let mut fields = no_fields();
    put_text(&mut fields, "type", "function");
    put(&mut fields, "function", Json::object(inner));
    proof {
        let wanted = api_tool(*tool)->Object_0;
        assert(inner_view =~= wanted[1].1->Object_0);
        assert(field_views(fields@) =~= wanted);
    }
    Json::object(fields)
}

/// Tools in OpenAI's form.
pub open spec fn api_tools(tools: Seq<ToolDefinition>) -> Seq<JsonView> {
    Seq::new(tools.len(), |i: int| api_tool(tools[i]))
}

/// Tools in OpenAI's form.
pub fn api_tools_from_request(tools: &Vec<ToolDefinition>) -> (r: Vec<Json>)
    ensures
        json_views(r@) == api_tools(tools@),
{
    let mut out = no_items();
    let ghost all = api_tools(tools@);
    let mut i: usize = 0;
    proof {
        whole_prefix(all);
    }
    while i < tools.len()
        invariant
            i <= tools@.len(),
            all == api_tools(tools@),
            json_views(out@) == all.subrange(0, i as int),
        decreases tools@.len() - i,
    {
        put_item(&mut out, api_tool_json(&tools[i]));
        proof {
            prefix_next(all, i as int);
        }
        i = i + 1;
    }
    proof {
        whole_prefix(all);
    }
    out
}

/// The choice of a tool in OpenAI's form.
pub open spec fn api_tool_choice(choice: Option<ToolChoice>) -> Option<JsonView> {
    match choice {
        None => None,
        Some(ToolChoice::Auto) => Some(JsonView::String("auto"@)),
        Some(ToolChoice::NoTools) => Some(JsonView::String("none"@)),
        Some(ToolChoice::Required) => Some(JsonView::String("required"@)),
        Some(ToolChoice::Tool { name }) => Some(
            JsonView::Object(
                seq![
                    ("type"@, JsonView::String("function"@)),
                    (
                        "function"@,
                        JsonView::Object(seq![("name"@, JsonView::String(name@))]),
                    ),
                ],
            ),
        ),
    }
}

/// The choice of a tool in OpenAI's form.
pub fn api_tool_choice_from_request(choice: &Option<ToolChoice>) -> (r: Option<Json>)
    ensures
        opt_json(r) == api_tool_choice(*choice),
{
    match choice {
        None => None,
        Some(ToolChoice::Auto) => Some(Json::text("auto")),
        Some(ToolChoice::NoTools) => Some(Json::text("none")),
        Some(ToolChoice::Required) => Some(Json::text("required")),
        Some(ToolChoice::Tool { name }) => {
            let mut inner = no_fields();
            put_text(&mut inner, "name", name.as_str());
            let ghost inner_view = field_views(inner@);
            let mut fields = no_fields();
            put_text(&mut fields, "type", "function");
            put(&mut fields, "function", Json::object(inner));
            proof {
                let wanted = api_tool_choice(*choice)->0->Object_0;
                assert(inner_view =~= wanted[1].1->Object_0);
                assert(field_views(fields@) =~= wanted);
            }
            Some(Json::object(fields))
        },
    }
}

/// A limit on tokens: zero is no limit.
pub open spec fn limit_view(limit: Option<u32>) -> Option<JsonView> {
    match limit {
        Some(n) => if n == 0 {
            None
        } else {
            Some(whole_number(n as u64))
        },
        None => None,
    }
}

/// A limit on tokens: zero is no limit.
pub fn limit_json(limit: Option<u32>) -> (r: Option<Json>)
    ensures
        opt_json(r) == limit_view(limit),
{
    match limit {
        Some(n) => if n == 0 {
            None
        } else {
            Some(Json::whole(n as u64))
        },
        None => None,
    }
}

/// The payload of a chat completion.
pub open spec fn chat_payload(request: GenerateRequest, model: Seq<char>, stream: bool) -> JsonView {
    let reasoning = reasons(model);
    JsonView::Object(
        seq![
            ("model"@, JsonView::String(model)),
            ("messages"@, JsonView::Array(api_messages(request))),
        ] + field_if(
            "temperature"@,
            if reasoning {
                None
            } else {
                number_view(request.config.temperature)
            },
        ) + field_if(
            "top_p"@,
            if reasoning {
                None
            } else {
                number_view(request.config.top_p)
            },
        ) + field_if(
            if reasoning {
                "max_completion_tokens"@
            } else {
                "max_tokens"@
            },
            limit_view(request.config.max_output_tokens),
        ) + field_if(
            "stream"@,
            if stream {
                Some(JsonView::Bool(true))
            } else {
                None
            },
        ) + field_if("user"@, text_view(request.user_id)) + field_if(
            "response_format"@,
            api_response_format(request.config.response_format),
        ) + field_if("tools"@, unless_empty(api_tools(request.tools@))) + field_if(
            "tool_choice"@,
            api_tool_choice(request.tool_choice),
        ),
    )
}

/// The payload of a chat completion.
pub fn build_chat_payload(request: &GenerateRequest, model: &str, stream: bool) -> (r: Json)
    ensures
        r@ == chat_payload(*request, model@, stream),
{
    let reasoning = is_reasoning_model(model);
    let temperature = if reasoning {
        None
    } else {
        number_json(&request.config.temperature)
    };
    let top_p = if reasoning {
        None
    } else {
        number_json(&request.config.top_p)
    };
    let limit = if reasoning {
        "max_completion_tokens"
    } else {
        "max_tokens"
    };
    let streaming = if stream {
        Some(Json::Bool(true))
    } else {
        None
    };
    let format = api_response_format_json(&request.config.response_format);
    let tools = array_unless_empty(api_tools_from_request(&request.tools));
    let mut payload = no_fields();
    put_text(&mut payload, "model", model);
    put(&mut payload, "messages", Json::array(build_api_messages(request)));
    assert(field_views(payload@) =~= seq![
        ("model"@, JsonView::String(model@)),
        ("messages"@, JsonView::Array(api_messages(*request))),
    ]);
    put_opt(&mut payload, "temperature", temperature);
    put_opt(&mut payload, "top_p", top_p);
    put_opt(&mut payload, limit, limit_json(request.config.max_output_tokens));
    put_opt(&mut payload, "stream", streaming);
    put_opt(&mut payload, "user", text_json(&request.user_id));
    put_opt(&mut payload, "response_format", format);
    put_opt(&mut payload, "tools", tools);
    put_opt(&mut payload, "tool_choice", api_tool_choice_from_request(&request.tool_choice));
    Json::object(payload)
}

/// A reply.
#[derive(Debug)]
pub struct ChatCompletionResponse {
    pub id: String,
    pub model: String,
    pub created: Option<u64>,
    pub choices: Vec<ChatCompletionChoice>,
    pub usage: Option<ApiUsage>,
}

#[derive(Debug)]
pub struct ChatCompletionChoice {
    pub index: Option<u32>,
    pub message: Option<ChoiceMessage>,
    pub finish_reason: Option<String>,
}

#[derive(Debug)]
pub struct ChoiceMessage {
    pub role: Option<String>,
    pub content: Option<String>,
    pub tool_calls: Option<Vec<ApiToolCall>>,
}

#[derive(Debug)]
pub struct ApiToolCall {
    pub id: String,
    pub tool_type: String,
    pub function: ApiToolCallFunction,
}

#[derive(Debug)]
pub struct ApiToolCallFunction {
    pub name: String,
    pub arguments: String,
}

#[derive(Clone, Copy, Debug)]
pub struct ApiUsage {
    pub prompt_tokens: Option<u32>,
    pub completion_tokens: Option<u32>,
    pub total_tokens: Option<u32>,
}

/// What the counts make up.
pub open spec fn usage_view(usage: Option<ApiUsage>) -> Option<TokenUsage> {
    match usage {
        Some(u) => Some(
            TokenUsage {
                prompt_tokens: u.prompt_tokens,
                completion_tokens: u.completion_tokens,
                total_tokens: u.total_tokens,
                cached_tokens: None,
                cache_creation_tokens: None,
            },
        ),
        None => None,
    }
}

/// What the counts make up.
pub fn usage_from_api(usage: Option<ApiUsage>) -> (r: Option<TokenUsage>)
    ensures
        r == usage_view(usage),
{
    match usage {
        Some(u) => Some(
            TokenUsage {
                prompt_tokens: u.prompt_tokens,
                completion_tokens: u.completion_tokens,
                total_tokens: u.total_tokens,
                cached_tokens: None,
                cache_creation_tokens: None,
            },
        ),
        None => None,
    }
}

/// The counts as a document.
pub open spec fn usage_document(usage: Option<ApiUsage>) -> JsonView {
    match usage {
        Some(u) => JsonView::Object(
            seq![
                ("prompt_tokens"@, count_view(u.prompt_tokens)),
                ("completion_tokens"@, count_view(u.completion_tokens)),
                ("total_tokens"@, count_view(u.total_tokens)),
            ],
        ),
        None => JsonView::Null,
    }
}

/// The counts as a document.
pub fn usage_json(usage: Option<ApiUsage>) -> (r: Json)
    ensures
        r@ == usage_document(usage),
{
    match usage {
        Some(u) => {
            let mut fields = no_fields();
            put(&mut fields, "prompt_tokens", count_json(u.prompt_tokens));
            put(&mut fields, "completion_tokens", count_json(u.completion_tokens));
            put(&mut fields, "total_tokens", count_json(u.total_tokens));
            assert(field_views(fields@) =~= usage_document(usage)->Object_0);
            Json::object(fields)
        },
        None => Json::Null,
    }
}

/// The calls of a reply as documents.
pub open spec fn call_documents(calls: Seq<ApiToolCall>) -> Seq<JsonView> {
    Seq::new(
        calls.len(),
        |i: int|
            api_call(
                calls[i].id@,
                calls[i].tool_type@,
                calls[i].function.name@,
                calls[i].function.arguments@,
            ),
    )
}

impl ChoiceMessage {
    pub open spec fn document(self) -> JsonView {
        JsonView::Object(
            seq![
                ("role"@, or_null(text_view(self.role))),
                ("content"@, or_null(text_view(self.content))),
            ] + field_if(
                "tool_calls"@,
                match self.tool_calls {
                    Some(calls) => Some(JsonView::Array(call_documents(calls@))),
                    None => None,
                },
            ),
        )
    }

    fn to_json(&self) -> (r: Json)
        ensures
            r@ == self.document(),
    {
        let mut fields = no_fields();
        put(&mut fields, "role", text_or_null(&self.role));
        put(&mut fields, "content", text_or_null(&self.content));
        if let Some(calls) = &self.tool_calls {
            let mut out = no_items();
            let ghost all = call_documents(calls@);
            let mut i: usize = 0;
            proof {
                whole_prefix(all);
            }
            while i < calls.len()
                invariant
                    i <= calls@.len(),
                    all == call_documents(calls@),
                    json_views(out@) == all.subrange(0, i as int),
                decreases calls@.len() - i,
            {
                let call = &calls[i];
                put_item(
                    &mut out,
                    api_call_json(
                        call.id.as_str(),
                        call.tool_type.as_str(),
                        call.function.name.as_str(),
                        call.function.arguments.as_str(),
                    ),
                );
                proof {
                    prefix_next(all, i as int);
                }
                i = i + 1;
            }
            proof {
                whole_prefix(all);
            }
            put(&mut fields, "tool_calls", Json::array(out));
        }
        assert(field_views(fields@) =~= self.document()->Object_0);
        Json::object(fields)
    }
}

impl ChatCompletionChoice {
    pub open spec fn document(self) -> JsonView {
        JsonView::Object(
            seq![
                ("index"@, count_view(self.index)),
                (
                    "message"@,
                    match self.message {
                        Some(message) => message.document(),
                        None => JsonView::Null,
                    },
                ),
                ("finish_reason"@, or_null(text_view(self.finish_reason))),
            ],
        )
    }

    fn to_json(&self) -> (r: Json)
        ensures
            r@ == self.document(),
    {
        let message = match &self.message {
            Some(message) => message.to_json(),
            None => Json::Null,
        };
        let mut fields = no_fields();
        put(&mut fields, "index", count_json(self.index));
        put(&mut fields, "message", message);
        put(&mut fields, "finish_reason", text_or_null(&self.finish_reason));
        assert(field_views(fields@) =~= self.document()->Object_0);
        Json::object(fields)
    }
}

/// Choices as documents.
pub open spec fn choice_documents(choices: Seq<ChatCompletionChoice>) -> Seq<JsonView> {
    Seq::new(choices.len(), |i: int| choices[i].document())
}

/// The calls of a reply.
pub open spec fn reply_calls(calls: Seq<ApiToolCall>) -> Seq<ToolCallView> {
    Seq::new(
        calls.len(),
        |i: int|
            ToolCallView {
                id: calls[i].id@,
                name: calls[i].function.name@,
                arguments: calls[i].function.arguments@,
                provider_data: None,
            },
    )
}

fn reply_calls_of(calls: &Vec<ApiToolCall>) -> (r: Vec<ToolCall>)
    ensures
        call_views(r@) == reply_calls(calls@),
{
    let mut out: Vec<ToolCall> = Vec::new();
    let mut i: usize = 0;
    while i < calls.len()
        invariant
            i <= calls@.len(),
            out@.len() == i,
            forall|j: int| 0 <= j < i ==> (#[trigger] out@[j])@ == reply_calls(calls@)[j],
        decreases calls@.len() - i,
    {
        let call = &calls[i];
        out.push(
            ToolCall {
                id: call.id.clone(),
                name: call.function.name.clone(),
                arguments: call.function.arguments.clone(),
                provider_data: None,
            },
        );
        i = i + 1;
    }
    assert(call_views(out@) =~= reply_calls(calls@));
    out
}

impl ChatCompletionResponse {
    /// The reply as a document.
    pub open spec fn document(self) -> JsonView {
        JsonView::Object(
            seq![
                ("id"@, JsonView::String(self.id@)),
                ("model"@, JsonView::String(self.model@)),
                (
                    "created"@,
                    match self.created {
                        Some(n) => whole_number(n),
                        None => JsonView::Null,
                    },
                ),
                ("choices"@, JsonView::Array(choice_documents(self.choices@))),
                ("usage"@, usage_document(self.usage)),
            ],
        )
    }

    fn to_json(&self) -> (r: Json)
        ensures
            r@ == self.document(),
    {
        let mut choices = no_items();
        let ghost all = choice_documents(self.choices@);
        let mut i: usize = 0;
        proof {
            whole_prefix(all);
        }
        while i < self.choices.len()
            invariant
                i <= self.choices@.len(),
                all == choice_documents(self.choices@),
                json_views(choices@) == all.subrange(0, i as int),
            decreases self.choices@.len() - i,
        {
            put_item(&mut choices, self.choices[i].to_json());
            proof {
                prefix_next(all, i as int);
            }
            i = i + 1;
        }
        proof {
            whole_prefix(all);
        }
        let created = match self.created {
            Some(n) => Json::whole(n),
            None => Json::Null,
        };
        let mut fields = no_fields();
        put_text(&mut fields, "id", self.id.as_str());
        put_text(&mut fields, "model", self.model.as_str());
        put(&mut fields, "created", created);
        put(&mut fields, "choices", Json::array(choices));
        put(&mut fields, "usage", usage_json(self.usage));
        assert(field_views(fields@) =~= self.document()->Object_0);
        Json::object(fields)
    }

    /// The message of the choice that counts, which is the first.
    pub open spec fn message(self) -> Option<ChoiceMessage> {
        if self.choices@.len() == 0 {
            None
        } else {
            self.choices@[0].message
        }
    }

    /// The reply that this is.
    pub open spec fn answer(self, format: ResponseFormat) -> Result<ResponseView, ErrorView> {
        let text = match self.message() {
            Some(message) => or_empty(opt_text(message.content)),
            None => Seq::empty(),
        };
        match object_reply(text, format) {
            Err(e) => Err(e),
            Ok(object) => Ok(
                ResponseView {
                    id: self.id@,
                    model: self.model@,
                    created: self.created,
                    text,
                    usage: usage_view(self.usage),
                    finish_reason: if self.choices@.len() == 0 {
                        None
                    } else {
                        opt_text(self.choices@[0].finish_reason)
                    },
                    tool_calls: match self.message() {
                        Some(message) => match message.tool_calls {
                            Some(calls) => Some(reply_calls(calls@)),
                            None => None,
                        },
                        None => None,
                    },
                    object,
                    raw: Some(self.document()),
                    metadata: None,
                },
            ),
        }
    }

    /// The reply that this is.
    pub fn into_generate_response(self, response_format: &ResponseFormat) -> (r: Result<
        GenerateResponse,
        SdkError,
    >)
        ensures
            reply_view(r) == self.answer(*response_format),
    {
        let raw = self.to_json();
        let mut text = String::new();
        let mut finish_reason: Option<String> = None;
        let mut tool_calls: Option<Vec<ToolCall>> = None;
        if self.choices.len() > 0 {
            let choice = &self.choices[0];
            finish_reason = match &choice.finish_reason {
                Some(reason) => Some(reason.clone()),
                None => None,
            };
            if let Some(message) = &choice.message {
                if let Some(content) = &message.content {
                    text = content.clone();
                }
                if let Some(calls) = &message.tool_calls {
                    tool_calls = Some(reply_calls_of(calls));
                }
            }
        }
        let object = match parse_object(text.as_str(), response_format) {
            Ok(object) => object,
            Err(e) => {
                return Err(e);
            },
        };
        Ok(
            GenerateResponse {
                id: self.id,
                model: self.model,
                created: self.created,
                text,
                usage: usage_from_api(self.usage),
                finish_reason,
                tool_calls,
                object,
                raw: Some(raw),
                metadata: None,
            },
        )
    }
}

/// Which models reason: the whole of the series gpt-5, o1, o3 and o4, whatever follows the
/// name of the series, and no other. In particular gpt-4o does not.
pub proof fn series_that_reason(model: Seq<char>, rest: Seq<char>)
    ensures
        reasons("gpt-5"@ + rest),
        reasons("o1"@) && reasons("o3"@) && reasons("o4"@),
        reasons("o1-"@ + rest) && reasons("o3-"@ + rest) && reasons("o4-"@ + rest),
        !reasons("gpt-4"@ + rest),
        reasons(model) ==> model.len() >= 2 && (model[0] == 'g' || model[0] == 'o'),
        reasons(model) && model[0] == 'g' ==> model.len() >= 5 && model[4] == '5',
        reasons(model) && model[0] == 'o' ==> (model[1] == '1' || model[1] == '3' || model[1]
            == '4') && (model.len() == 2 || model[2] == '-'),
{
    reveal_strlit("gpt-5");
    reveal_strlit("gpt-4");
    reveal_strlit("o1");
    reveal_strlit("o3");
    reveal_strlit("o4");
    reveal_strlit("o1-");
    reveal_strlit("o3-");
    reveal_strlit("o4-");
    assert("gpt-5"@.len() == 5
        && "gpt-4"@.len() == 5
        && "o1"@.len() == 2
        && "o3"@.len() == 2
        && "o4"@.len() == 2
        && "o1-"@.len() == 3
        && "o3-"@.len() == 3
        && "o4-"@.len() == 3
        && "gpt-5"@[4] == '5'
        && "gpt-4"@[4] == '4'
        && "o1"@[1] == '1'
        && "o3"@[1] == '3'
        && "o4"@[1] == '4'
        && "o1-"@[1] == '1'
        && "o3-"@[1] == '3'
        && "o4-"@[1] == '4');
    crate::text::prefix_and_rest(model, "gpt-5"@, rest);
    crate::text::prefix_and_rest(model, "o1-"@, rest);
    crate::text::prefix_and_rest(model, "o3-"@, rest);
    crate::text::prefix_and_rest(model, "o4-"@, rest);
    let other = "gpt-4"@ + rest;
    assert(other[0] == 'g' && other[4] == '4');
    reveal_strlit("gpt-4");
    assert("gpt-4"@[0] == 'g' && "gpt-5"@[0] == 'g' && "o1"@[0] == 'o' && "o3"@[0] == 'o'
        && "o4"@[0] == 'o' && "o1-"@[0] == 'o' && "o3-"@[0] == 'o' && "o4-"@[0] == 'o');
    assert("o1-"@[2] == '-' && "o3-"@[2] == '-' && "o4-"@[2] == '-');
    if begins_with(other, "gpt-5"@) {
        assert(other.subrange(0, 5)[4] == '4');
    }
    if begins_with(other, "o1-"@) {
        assert(other.subrange(0, 3)[0] == 'g');
    }
    if begins_with(other, "o3-"@) {
        assert(other.subrange(0, 3)[0] == 'g');
    }
    if begins_with(other, "o4-"@) {
        assert(other.subrange(0, 3)[0] == 'g');
    }
    if begins_with(model, "gpt-5"@) {
        assert(model.subrange(0, 5)[0] == model[0] && model.subrange(0, 5)[4] == model[4]);
    }
    if begins_with(model, "o1-"@) {
        assert(model.subrange(0, 3)[0] == model[0] && model.subrange(0, 3)[1] == model[1]
            && model.subrange(0, 3)[2] == model[2]);
    }
    if begins_with(model, "o3-"@) {
        assert(model.subrange(0, 3)[0] == model[0] && model.subrange(0, 3)[1] == model[1]
            && model.subrange(0, 3)[2] == model[2]);
    }
    if begins_with(model, "o4-"@) {
        assert(model.subrange(0, 3)[0] == model[0] && model.subrange(0, 3)[1] == model[1]
            && model.subrange(0, 3)[2] == model[2]);
    }
}

/// A plain message keeps its speaker and its words; what a call gave is told by the tool,
/// for that call; what the model said with its calls is told as the model's, with each
/// call in its order, under its id, with its name and arguments.
pub proof fn messages_keep_their_speaker(message: Message, i: int)
    ensures
        message.tool_call_id is None && message.tool_calls is None ==> {
            &&& api_message(message).field_text("content"@) == Some(message.content@)
            &&& message.role == MessageRole::System ==> api_message(message).field_text("role"@)
                == Some("system"@)
            &&& message.role == MessageRole::User ==> api_message(message).field_text("role"@)
                == Some("user"@)
            &&& message.role == MessageRole::Assistant ==> api_message(message).field_text("role"@)
                == Some("assistant"@)
        },
        message.tool_call_id matches Some(id) ==> {
            &&& api_message(message).field_text("role"@) == Some("tool"@)
            &&& api_message(message).field_text("content"@) == Some(message.content@)
            &&& api_message(message).field_text("tool_call_id"@) == Some(id@)
        },
        message.tool_call_id is None && message.tool_calls is Some ==> {
            &&& api_message(message).field_text("role"@) == Some("assistant"@)
            &&& message.content@.len() > 0 ==> api_message(message).field_text("content"@) == Some(
                message.content@,
            )
            &&& message.content@.len() == 0 ==> api_message(message).field("content"@) is None
            &&& api_message(message).field("tool_calls"@) == Some(
                JsonView::Array(api_calls(message.tool_calls->0@)),
            )
        },
{
    broadcast use crate::json::group_fields;

    reveal_with_fuel(crate::json::last_field, 4);
    reveal_strlit("role");
    reveal_strlit("content");
    reveal_strlit("tool_call_id");
    reveal_strlit("tool_calls");
    assert("role"@.len() == 4
        && "content"@.len() == 7
        && "tool_call_id"@.len() == 12
        && "tool_calls"@.len() == 10);
}

/// Calls are told in their order, each with its id, its name and its arguments.
pub proof fn calls_are_told_in_order(calls: Seq<ToolCall>, i: int)
    requires
        0 <= i < calls.len(),
    ensures
        api_calls(calls).len() == calls.len(),
        api_calls(calls)[i].field_text("id"@) == Some(calls[i].id@),
        api_calls(calls)[i].field_text("type"@) == Some("function"@),
        api_calls(calls)[i].field("function"@)->0.field_text("name"@) == Some(calls[i].name@),
        api_calls(calls)[i].field("function"@)->0.field_text("arguments"@) == Some(
            calls[i].arguments@,
        ),
{
    broadcast use crate::json::group_fields;

    reveal_with_fuel(crate::json::last_field, 4);
    reveal_strlit("id");
    reveal_strlit("type");
    reveal_strlit("function");
    reveal_strlit("name");
    reveal_strlit("arguments");
    assert("id"@.len() == 2
        && "type"@.len() == 4
        && "function"@.len() == 8
        && "name"@.len() == 4
        && "arguments"@.len() == 9
        && "type"@[0] == 't'
        && "name"@[0] == 'n');
    assert(api_calls(calls)[i].field("function"@) is Some);
}

/// The conversation comes in its order, behind what the system says.
pub proof fn the_system_speaks_first(request: GenerateRequest, i: int)
    ensures
        request.system_prompt matches Some(prompt) ==> {
            &&& api_messages(request).len() == request.messages@.len() + 1
            &&& api_messages(request)[0].field_text("role"@) == Some("system"@)
            &&& api_messages(request)[0].field_text("content"@) == Some(prompt@)
            &&& 0 <= i < request.messages@.len() ==> api_messages(request)[i + 1] == api_message(
                request.messages@[i],
            )
        },
        request.system_prompt is None ==> {
            &&& api_messages(request).len() == request.messages@.len()
            &&& 0 <= i < request.messages@.len() ==> api_messages(request)[i] == api_message(
                request.messages@[i],
            )
        },
{
    broadcast use crate::json::group_fields;

    reveal_with_fuel(crate::json::last_field, 3);
    reveal_strlit("role");
    reveal_strlit("content");
    assert("role"@.len() == 4
        && "content"@.len() == 7);
}

proof fn payload_fields(request: GenerateRequest, model: Seq<char>, stream: bool)
    ensures
        ({
            let payload = chat_payload(request, model, stream);
            &&& payload.field("model"@) == Some(JsonView::String(model))
            &&& payload.field("messages"@) == Some(JsonView::Array(api_messages(request)))
            &&& reasons(model) ==> payload.field("temperature"@) is None && payload.field("top_p"@)
                is None
            &&& !reasons(model) ==> payload.field("temperature"@) == number_view(
                request.config.temperature,
            ) && payload.field("top_p"@) == number_view(request.config.top_p)
            &&& reasons(model) ==> payload.field("max_tokens"@) is None && payload.field(
                "max_completion_tokens"@,
            ) == limit_view(request.config.max_output_tokens)
            &&& !reasons(model) ==> payload.field("max_completion_tokens"@) is None
                && payload.field("max_tokens"@) == limit_view(request.config.max_output_tokens)
            &&& payload.field("stream"@) == (if stream {
                Some(JsonView::Bool(true))
            } else {
                None
            })
            &&& payload.field("user"@) == text_view(request.user_id)
            &&& payload.field("response_format"@) == api_response_format(
                request.config.response_format,
            )
            &&& payload.field("tools"@) == unless_empty(api_tools(request.tools@))
            &&& payload.field("tool_choice"@) == api_tool_choice(request.tool_choice)
        }),
{
    broadcast use crate::json::group_fields;

    crate::json::two_fields(
        seq![
            ("model"@, JsonView::String(model)),
            ("messages"@, JsonView::Array(api_messages(request))),
        ],
    );
    reveal_strlit("model");
    reveal_strlit("messages");
    reveal_strlit("temperature");
    reveal_strlit("top_p");
    reveal_strlit("max_completion_tokens");
    reveal_strlit("max_tokens");
    reveal_strlit("stream");
    reveal_strlit("user");
    reveal_strlit("response_format");
    reveal_strlit("tools");
    reveal_strlit("tool_choice");
    assert("model"@.len() == 5
        && "messages"@.len() == 8
        && "temperature"@.len() == 11
        && "top_p"@.len() == 5
        && "max_completion_tokens"@.len() == 21
        && "max_tokens"@.len() == 10
        && "stream"@.len() == 6
        && "user"@.len() == 4
        && "response_format"@.len() == 15
        && "tools"@.len() == 5
        && "tool_choice"@.len() == 11
        && "model"@[0] == 'm'
        && "top_p"@[0] == 't'
        && "tools"@[0] == 't'
        && "temperature"@[1] == 'e'
        && "tool_choice"@[1] == 'o'
        && "top_p"@[2] == 'p'
        && "tools"@[2] == 'o');
}

/// What a request sets is in its payload: the model, the conversation, the user, the
/// sampling parameters and the limit, unless the model reasons: then there are no sampling
/// parameters and the limit has another name. A limit of nothing is no limit.
pub proof fn payloads_carry_the_settings(request: GenerateRequest, model: Seq<char>, stream: bool)
    ensures
        ({
            let payload = chat_payload(request, model, stream);
            let limit = request.config.max_output_tokens;
            &&& payload.field_text("model"@) == Some(model)
            &&& payload.field("messages"@)->0.items() == Some(api_messages(request))
            &&& reasons(model) ==> payload.field("temperature"@) is None && payload.field("top_p"@)
                is None && payload.field("max_tokens"@) is None
            &&& !reasons(model) ==> payload.field("temperature"@) == number_view(
                request.config.temperature,
            ) && payload.field("top_p"@) == number_view(request.config.top_p) && payload.field(
                "max_completion_tokens"@,
            ) is None
            &&& limit is Some && limit->0 > 0 && reasons(model) ==> payload.field_whole(
                "max_completion_tokens"@,
            ) == Some(limit->0 as u64)
            &&& limit is Some && limit->0 > 0 && !reasons(model) ==> payload.field_whole(
                "max_tokens"@,
            ) == Some(limit->0 as u64)
            &&& limit is None || limit->0 == 0 ==> payload.field("max_tokens"@) is None
                && payload.field("max_completion_tokens"@) is None
            &&& stream ==> payload.field("stream"@) == Some(JsonView::Bool(true))
            &&& !stream ==> payload.field("stream"@) is None
            &&& payload.field("user"@) == text_view(request.user_id)
            &&& request.tools@.len() == 0 ==> payload.field("tools"@) is None
            &&& request.tools@.len() > 0 ==> payload.field("tools"@)->0.items() == Some(
                api_tools(request.tools@),
            )
            &&& request.tool_choice is None ==> payload.field("tool_choice"@) is None
            &&& request.tool_choice matches Some(ToolChoice::Auto) ==> payload.field_text(
                "tool_choice"@,
            ) == Some("auto"@)
            &&& request.tool_choice matches Some(ToolChoice::NoTools) ==> payload.field_text(
                "tool_choice"@,
            ) == Some("none"@)
            &&& request.tool_choice matches Some(ToolChoice::Required) ==> payload.field_text(
                "tool_choice"@,
            ) == Some("required"@)
            &&& request.tool_choice matches Some(ToolChoice::Tool { name }) ==> payload.field(
                "tool_choice"@,
            )->0.field_text("type"@) == Some("function"@) && payload.field(
                "tool_choice"@,
            )->0.field("function"@)->0.field_text("name"@) == Some(name@)
        }),
{
    broadcast use crate::json::group_fields;

    payload_fields(request, model, stream);
    reveal_with_fuel(crate::json::last_field, 3);
    reveal_strlit("type");
    reveal_strlit("function");
    reveal_strlit("name");
    assert("type"@.len() == 4
        && "function"@.len() == 8
        && "name"@.len() == 4
        && "type"@[0] == 't'
        && "name"@[0] == 'n');
    if request.tool_choice is Some && request.tool_choice->0 is Tool {
        assert(api_tool_choice(request.tool_choice)->0.field("function"@) is Some);
        assert(api_tool_choice(request.tool_choice)->0.field("type"@) is Some);
    }
}

/// The form that is asked for is told by its name, with the schema, its name and whether
/// it is strict; for plain text nothing is told.
pub proof fn forms_are_told(request: GenerateRequest, model: Seq<char>, stream: bool)
    ensures
        ({
            let told = chat_payload(request, model, stream).field("response_format"@);
            &&& request.config.response_format is Text ==> told is None
            &&& request.config.response_format is Json ==> told->0.field_text("type"@) == Some(
                "json_object"@,
            )
            &&& request.config.response_format matches ResponseFormat::JsonSchema(schema) ==> {
                &&& told->0.field_text("type"@) == Some("json_schema"@)
                &&& told->0.field("json_schema"@)->0.field_text("name"@) == Some(schema.name@)
                &&& told->0.field("json_schema"@)->0.field("schema"@) == Some(schema.schema@)
                &&& told->0.field("json_schema"@)->0.field("strict"@) == Some(
                    JsonView::Bool(schema.strict),
                )
            }
        }),
{
    broadcast use crate::json::group_fields;

    payload_fields(request, model, stream);
    reveal_with_fuel(crate::json::last_field, 4);
    reveal_strlit("type");
    reveal_strlit("json_schema");
    reveal_strlit("name");
    reveal_strlit("schema");
    reveal_strlit("strict");
    assert("type"@.len() == 4
        && "json_schema"@.len() == 11
        && "name"@.len() == 4
        && "schema"@.len() == 6
        && "strict"@.len() == 6
        && "type"@[0] == 't'
        && "name"@[0] == 'n'
        && "schema"@[1] == 'c'
        && "strict"@[1] == 't');
    let told = api_response_format(request.config.response_format);
    if request.config.response_format is JsonSchema {
        assert(told->0.field("json_schema"@) is Some);
        assert(told->0.field("type"@) is Some);
    }
}

/// Tools are told in their order, each by its name, with its description and parameters
/// and whether it is strict, where that is said.
pub proof fn tools_tell_what_they_take(tools: Seq<ToolDefinition>, i: int)
    requires
        0 <= i < tools.len(),
    ensures
        ({
            let told = api_tools(tools)[i];
            let function = told.field("function"@)->0;
            &&& api_tools(tools).len() == tools.len()
            &&& told.field_text("type"@) == Some("function"@)
            &&& function.field_text("name"@) == Some(tools[i].name@)
            &&& function.field("description"@) == text_view(tools[i].description)
            &&& function.field("parameters"@) == opt_json(tools[i].parameters)
            &&& function.field("strict"@) == bool_view(tools[i].strict)
        }),
{
    broadcast use crate::json::group_fields;

    reveal_with_fuel(crate::json::last_field, 3);
    reveal_strlit("type");
    reveal_strlit("function");
    reveal_strlit("name");
    reveal_strlit("description");
    reveal_strlit("parameters");
    reveal_strlit("strict");
    assert("type"@.len() == 4
        && "function"@.len() == 8
        && "name"@.len() == 4
        && "description"@.len() == 11
        && "parameters"@.len() == 10
        && "strict"@.len() == 6
        && "type"@[0] == 't'
        && "name"@[0] == 'n');
    assert(api_tools(tools)[i].field("function"@) is Some);
}

/// The first choice is the reply: its words, its calls in their order and why it stopped.
/// The id, the model, the moment and the counts are those that came.
pub proof fn the_first_choice_is_the_reply(reply: ChatCompletionResponse, i: int)
    ensures
        ({
            let r = reply.answer(ResponseFormat::Text);
            let said = r->Ok_0;
            &&& r is Ok
            &&& said.id == reply.id@ && said.model == reply.model@ && said.created == reply.created
            &&& said.object is None
            &&& reply.choices@.len() == 0 ==> said.text.len() == 0 && said.finish_reason is None
                && said.tool_calls is None
            &&& reply.choices@.len() > 0 ==> said.finish_reason == opt_text(
                reply.choices@[0].finish_reason,
            )
            &&& reply.choices@.len() > 0 && reply.choices@[0].message is Some ==> {
                let message = reply.choices@[0].message->0;
                &&& message.content matches Some(text) ==> said.text == text@
                &&& message.content is None ==> said.text.len() == 0
                &&& message.tool_calls is None ==> said.tool_calls is None
                &&& message.tool_calls is Some ==> {
                    let calls = message.tool_calls->0@;
                    &&& said.tool_calls is Some && said.tool_calls->0.len() == calls.len()
                    &&& 0 <= i < calls.len() ==> {
                        &&& said.tool_calls->0[i].id == calls[i].id@
                        &&& said.tool_calls->0[i].name == calls[i].function.name@
                        &&& said.tool_calls->0[i].arguments == calls[i].function.arguments@
                    }
                }
            }
            &&& reply.usage is None ==> said.usage is None
            &&& reply.usage matches Some(usage) ==> said.usage is Some
                && said.usage->0.prompt_tokens == usage.prompt_tokens
                && said.usage->0.completion_tokens == usage.completion_tokens
                && said.usage->0.total_tokens == usage.total_tokens
        }),
{
}

/// What came is kept as it came: choices in their order with who speaks, what is said, the
/// calls and why it ended, and the counts.
pub proof fn documents_tell_the_reply(
    usage: ApiUsage,
    choice: ChatCompletionChoice,
    message: ChoiceMessage,
    choices: Seq<ChatCompletionChoice>,
)
    ensures
        ({
            let told = usage_document(Some(usage));
            &&& told.field("prompt_tokens"@) == Some(count_view(usage.prompt_tokens))
            &&& told.field("completion_tokens"@) == Some(count_view(usage.completion_tokens))
            &&& told.field("total_tokens"@) == Some(count_view(usage.total_tokens))
            &&& usage_document(None) == JsonView::Null
        }),
        ({
            let told = message.document();
            &&& message.role is Some ==> told.field_text("role"@) == Some(message.role->0@)
            &&& message.content is Some ==> told.field_text("content"@) == Some(
                message.content->0@,
            )
            &&& message.content is None ==> told.field("content"@) == Some(JsonView::Null)
            &&& message.tool_calls is None ==> told.field("tool_calls"@) is None
            &&& message.tool_calls matches Some(calls) ==> told.field("tool_calls"@)->0.items()
                == Some(call_documents(calls@))
        }),
        ({
            let told = choice.document();
            &&& told.field("index"@) == Some(count_view(choice.index))
            &&& choice.message is None ==> told.field("message"@) == Some(JsonView::Null)
            &&& choice.message matches Some(own) ==> told.field("message"@) == Some(own.document())
            &&& choice.finish_reason is Some ==> told.field_text("finish_reason"@) == Some(
                choice.finish_reason->0@,
            )
        }),
        choice_documents(choices.push(choice)) == choice_documents(choices).push(
            choice.document(),
        ),
{
    broadcast use crate::json::group_fields;

    reveal_with_fuel(crate::json::last_field, 4);
    reveal_strlit("prompt_tokens");
    reveal_strlit("completion_tokens");
    reveal_strlit("total_tokens");
    reveal_strlit("role");
    reveal_strlit("content");
    reveal_strlit("tool_calls");
    reveal_strlit("index");
    reveal_strlit("message");
    reveal_strlit("finish_reason");
    assert("prompt_tokens"@.len() == 13
        && "completion_tokens"@.len() == 17
        && "total_tokens"@.len() == 12
        && "role"@.len() == 4
        && "content"@.len() == 7
        && "tool_calls"@.len() == 10
        && "index"@.len() == 5
        && "message"@.len() == 7
        && "finish_reason"@.len() == 13
        && "prompt_tokens"@[0] == 'p'
        && "finish_reason"@[0] == 'f'
        && "content"@[0] == 'c'
        && "message"@[0] == 'm');
    assert(choice_documents(choices.push(choice)) =~= choice_documents(choices).push(
        choice.document(),
    ));
}

/// The whole reply is kept with its id, its model, when it was made, its choices and its
/// counts.
pub proof fn whole_replies_are_kept(response: ChatCompletionResponse)
    ensures
        ({
            let told = response.document();
            &&& told.field_text("id"@) == Some(response.id@)
            &&& told.field_text("model"@) == Some(response.model@)
            &&& response.created matches Some(n) ==> told.field_whole("created"@) == Some(n)
            &&& response.created is None ==> told.field("created"@) == Some(JsonView::Null)
            &&& told.field("choices"@)->0.items() == Some(choice_documents(response.choices@))
            &&& told.field("usage"@) == Some(usage_document(response.usage))
        }),
{
    broadcast use crate::json::group_fields;

    reveal_with_fuel(crate::json::last_field, 6);
    reveal_strlit("id");
    reveal_strlit("model");
    reveal_strlit("created");
    reveal_strlit("choices");
    reveal_strlit("usage");
    assert("id"@.len() == 2
        && "model"@.len() == 5
        && "created"@.len() == 7
        && "choices"@.len() == 7
        && "usage"@.len() == 5
        && "model"@[0] == 'm'
        && "usage"@[0] == 'u'
        && "created"@[1] == 'r'
        && "choices"@[1] == 'h');
}

} // verus!
