//! Google's Gemini: requests, replies, and replies piece by piece.
use vstd::prelude::*;
use vstd::string::*;

use super::anthropic_blocks::call_input;
use super::bedrock::calls_of;
use super::http::RetryConfig;
use super::huggingface::key_of;
use super::interface::{
    BuiltInTool, GenerateRequest, Message, MessageRole, ReasoningEffort, ResponseFormat, ToolCall,
    ToolChoice, ToolDefinition,
};
use super::models::{named_model, provider_model};
use super::settings::{first_set, overridden, override_seconds, override_text, seconds_or};
use crate::duration::{seconds, Duration};
use crate::error::{bad_setting, setting_error, ErrorView, SdkError};
use crate::json::{
    array_unless_empty, field_if, field_views, json_parsed, json_views, no_fields, no_items,
    number_json, number_view, opt_json, put, put_item, put_opt, put_text, text_json, text_view,
    unless_empty, whole_number, Json, JsonView,
};
use crate::seqs::{flattened, flattened_next, prefix_next, whole_prefix};
use crate::text::{
    begins_with, concat2, concat3, concat5, decimal, decimal_text, find_last_pair, is_blank,
    last_pair, opt_text, pair_views, push_pair, starts_with, texts, trim, trim_end_matches,
    trim_start_matches, trimmed, without_leading, without_trailing,
};

verus! {

/// What is wrong with a request, if anything is.
pub open spec fn request_fault(request: GenerateRequest) -> Option<ErrorView> {
    if trimmed(request.model@).len() == 0 {
        Some(bad_setting("model must be provided for Google requests"@, "model"@))
    } else if request.system_prompt is None && request.messages@.len() == 0 {
        Some(
            ErrorView::Configuration {
                message:
                    "at least a system prompt or one message is required for Google requests"@,
                field: None,
            },
        )
    } else {
        None
    }
}

/// Checks a request before anything is made of it.
pub fn validate_request(request: &GenerateRequest) -> (r: Result<(), SdkError>)
    ensures
        match r {
            Ok(_) => request_fault(*request) is None,
            Err(e) => request_fault(*request) == Some(e@),
        },
{
    if is_blank(request.model.as_str()) {
        return Err(setting_error("model must be provided for Google requests".to_owned(), "model"));
    }
    if request.system_prompt.is_none() && request.messages.len() == 0 {
        return Err(
            SdkError::Configuration {
                message:
                    "at least a system prompt or one message is required for Google requests".to_owned(),
                field: None,
            },
        );
    }
    Ok(())
}

/// The model that a model id names: `google/<model>` or `<model>`.
pub open spec fn model_name(model: Seq<char>) -> Result<Seq<char>, ErrorView> {
    named_model(model, "Google"@, "google"@)
}

/// The model that a model id names.
pub fn normalize_model(model: &str) -> (r: Result<String, SdkError>)
    ensures
        match r {
            Ok(name) => model_name(model@) == Ok::<Seq<char>, ErrorView>(name@),
            Err(e) => model_name(model@) == Err::<Seq<char>, ErrorView>(e@),
        },
{
    provider_model(model, "Google", "google")
}

/// A part with a text.
pub open spec fn text_part(text: Seq<char>) -> JsonView {
    JsonView::Object(seq![("text"@, JsonView::String(text))])
}

fn text_part_json(text: &str) -> (r: Json)
    ensures
        r@ == text_part(text@),
{
    let mut fields = no_fields();
    put_text(&mut fields, "text", text);
    assert(field_views(fields@) =~= text_part(text@)->Object_0);
    Json::object(fields)
}

/// Parts, and who they are from.
pub open spec fn content(role: Option<Seq<char>>, parts: Seq<JsonView>) -> JsonView {
    JsonView::Object(
        field_if(
            "role"@,
            match role {
                Some(role) => Some(JsonView::String(role)),
                None => None,
            },
        ) + seq![("parts"@, JsonView::Array(parts))],
    )
}

fn content_json(role: Option<&str>, parts: Vec<Json>) -> (r: Json)
    ensures
        r@ == content(
            match role {
                Some(role) => Some(role@),
                None => None,
            },
            json_views(parts@),
        ),
{
    let mut fields = no_fields();
    let ghost wanted = content(
        match role {
            Some(role) => Some(role@),
            None => None,
        },
        json_views(parts@),
    );
    if let Some(role) = role {
        put_text(&mut fields, "role", role);
    }
    put(&mut fields, "parts", Json::array(parts));
    assert(field_views(fields@) =~= wanted->Object_0);
    Json::object(fields)
}

/// A text, and who it is from.
pub open spec fn text_content(role: Option<Seq<char>>, text: Seq<char>) -> JsonView {
    content(role, seq![text_part(text)])
}

fn text_content_json(role: Option<&str>, text: &str) -> (r: Json)
    ensures
        r@ == text_content(
            match role {
                Some(role) => Some(role@),
                None => None,
            },
            text@,
        ),
{
    let mut parts = no_items();
    put_item(&mut parts, text_part_json(text));
    assert(json_views(parts@) =~= seq![text_part(text@)]);
    content_json(role, parts)
}

/// What a function gave, which must be an object: a result of another kind is put
/// into one.
pub open spec fn function_result(text: Seq<char>) -> JsonView {
    match json_parsed(text) {
        Ok(value) => if value is Object {
            value
        } else {
            JsonView::Object(seq![("result"@, value)])
        },
        Err(_) => JsonView::Object(seq![("result"@, JsonView::String(text))]),
    }
}

/// What a function gave, as an object.
pub fn google_function_response(text: &str) -> (r: Json)
    ensures
        r@ == function_result(text@),
{
    let value = match Json::parse(text) {
        Ok(value) => {
            if matches!(value, Json::Object(_)) {
                return value;
            }
            value
        },
        Err(_) => Json::text(text),
    };
    let ghost held = value@;
    let mut fields = no_fields();
    put(&mut fields, "result", value);
    assert(field_views(fields@) =~= seq![("result"@, held)]);
    Json::object(fields)
}

/// The signature that came with a call.
pub open spec fn signature_of(call: ToolCall) -> Option<Seq<char>> {
    match call.provider_data {
        Some(data) => match data@.field("google"@) {
            Some(google) => google.field_text("thought_signature"@),
            None => None,
        },
        None => None,
    }
}

/// The signature that came with a call.
pub fn google_thought_signature(call: &ToolCall) -> (r: Option<&str>)
    ensures
        match r {
            Some(s) => signature_of(*call) == Some(s@),
            None => signature_of(*call) is None,
        },
{
    match &call.provider_data {
        Some(data) => match data.get("google") {
            Some(google) => google.get_str("thought_signature"),
            None => None,
        },
        None => None,
    }
}

/// A call that the model made, told back to it.
pub open spec fn call_part(call: ToolCall) -> JsonView {
    JsonView::Object(
        seq![
            (
                "functionCall"@,
                JsonView::Object(
                    seq![
                        ("id"@, JsonView::String(call.id@)),
                        ("name"@, JsonView::String(call.name@)),
                        ("args"@, call_input(call.arguments@)),
                    ],
                ),
            ),
        ] + field_if(
            "thoughtSignature"@,
            match signature_of(call) {
                Some(s) => Some(JsonView::String(s)),
                None => None,
            },
        ),
    )
}

fn call_part_json(call: &ToolCall) -> (r: Json)
    ensures
        r@ == call_part(*call),
{
    let args = match Json::parse(call.arguments.as_str()) {
        Ok(args) => args,
        Err(_) => Json::object(no_fields()),
    };
    let mut inner = no_fields();
    put_text(&mut inner, "id", call.id.as_str());
    put_text(&mut inner, "name", call.name.as_str());
    put(&mut inner, "args", args);
    let ghost inner_view = field_views(inner@);
    let mut fields = no_fields();
    put(&mut fields, "functionCall", Json::object(inner));
    if let Some(signature) = google_thought_signature(call) {
        put_text(&mut fields, "thoughtSignature", signature);
    }
    proof {
        let wanted = call_part(*call)->Object_0;
        assert(inner_view =~= wanted[0].1->Object_0);
        assert(field_views(fields@) =~= wanted);
    }
    Json::object(fields)
}

/// What a call gave, told to the model.
pub open spec fn result_part(name: Seq<char>, text: Seq<char>, id: Seq<char>) -> JsonView {
    JsonView::Object(
        seq![
            (
                "functionResponse"@,
                JsonView::Object(
                    seq![
                        ("name"@, JsonView::String(name)),
                        ("response"@, function_result(text)),
                        ("id"@, JsonView::String(id)),
                    ],
                ),
            ),
        ],
    )
}

fn result_part_json(name: &str, text: &str, id: &str) -> (r: Json)
    ensures
        r@ == result_part(name@, text@, id@),
{
    let mut inner = no_fields();
    put_text(&mut inner, "name", name);
    put(&mut inner, "response", google_function_response(text));
    put_text(&mut inner, "id", id);
    let ghost inner_view = field_views(inner@);
    let mut fields = no_fields();
    put(&mut fields, "functionResponse", Json::object(inner));
    proof {
        let wanted = result_part(name@, text@, id@)->Object_0;
        assert(inner_view =~= wanted[0].1->Object_0);
        assert(field_views(fields@) =~= wanted);
    }
    Json::object(fields)
}

/// The parts of a message that makes calls.
pub open spec fn calling_parts(message: Message) -> Seq<JsonView> {
    (if message.content@.len() == 0 {
        Seq::empty()
    } else {
        seq![text_part(message.content@)]
    }) + Seq::new(calls_of(message).len(), |i: int| call_part(calls_of(message)[i]))
}

/// A message in Gemini's form. A result goes by the name of the function that was
/// called or, where that is not known, by the id of the call.
pub open spec fn message_content(message: Message, function_name: Option<Seq<char>>) -> JsonView {
    match (message.tool_call_id, message.tool_calls) {
        (Some(id), _) => content(
            Some("user"@),
            seq![
                result_part(
                    match function_name {
                        Some(name) => name,
                        None => id@,
                    },
                    message.content@,
                    id@,
                ),
            ],
        ),
        (None, Some(_)) => content(Some("model"@), calling_parts(message)),
        (None, None) => text_content(
            Some(
                if message.role == MessageRole::Assistant {
                    "model"@
                } else {
                    "user"@
                },
            ),
            message.content@,
        ),
    }
}

/// A message in Gemini's form.
pub fn message_content_json(message: &Message, function_name: Option<&str>) -> (r: Json)
    ensures
        r@ == message_content(
            *message,
            match function_name {
                Some(name) => Some(name@),
                None => None,
            },
        ),
{
    let mut parts = no_items();
    if let Some(id) = &message.tool_call_id {
        let name = match function_name {
            Some(name) => name,
            None => id.as_str(),
        };
        put_item(&mut parts, result_part_json(name, message.content.as_str(), id.as_str()));
        assert(json_views(parts@) =~= seq![result_part(name@, message.content@, id@)]);
        return content_json(Some("user"), parts);
    }
    if let Some(calls) = &message.tool_calls {
        if !message.content.as_str().is_empty() {
            put_item(&mut parts, text_part_json(message.content.as_str()));
        }
        let ghost first = json_views(parts@);
        let ghost all = Seq::new(calls@.len(), |i: int| call_part(calls@[i]));
        let mut i: usize = 0;
        proof {
            whole_prefix(all);
            assert(first + all.subrange(0, 0) =~= first);
        }
        while i < calls.len()
            invariant
                i <= calls@.len(),
                all == Seq::new(calls@.len(), |i: int| call_part(calls@[i])),
                json_views(parts@) == first + all.subrange(0, i as int),
            decreases calls@.len() - i,
        {
            put_item(&mut parts, call_part_json(&calls[i]));
            proof {
                prefix_next(all, i as int);
                assert(json_views(parts@) =~= first + all.subrange(0, i + 1));
            }
            i = i + 1;
        }
        proof {
            whole_prefix(all);
            assert(json_views(parts@) =~= calling_parts(*message));
        }
        return content_json(Some("model"), parts);
    }
    let role = if message.role == MessageRole::Assistant {
        "model"
    } else {
        "user"
    };
    text_content_json(Some(role), message.content.as_str())
}

/// The ids of calls and the names of what they call.
pub open spec fn call_names(calls: Seq<ToolCall>) -> Seq<(Seq<char>, Seq<char>)> {
    Seq::new(calls.len(), |i: int| (calls[i].id@, calls[i].name@))
}

/// The calls made in a conversation.
pub open spec fn known_calls(messages: Seq<Message>) -> Seq<(Seq<char>, Seq<char>)>
    decreases messages.len(),
{
    if messages.len() == 0 {
        Seq::empty()
    } else if messages.last().role == MessageRole::System {
        known_calls(messages.drop_last())
    } else {
        known_calls(messages.drop_last()) + call_names(calls_of(messages.last()))
    }
}

/// The name of the function whose result a message tells, going by the calls made
/// up to it.
pub open spec fn answered_function(messages: Seq<Message>, i: int) -> Option<Seq<char>> {
    match messages[i].tool_call_id {
        Some(id) => last_pair(known_calls(messages.subrange(0, i + 1)), id@),
        None => None,
    }
}

/// The messages that are not the system's.
pub open spec fn told_contents(messages: Seq<Message>) -> Seq<Option<JsonView>> {
    Seq::new(
        messages.len(),
        |i: int|
            if messages[i].role == MessageRole::System {
                None
            } else {
                Some(message_content(messages[i], answered_function(messages, i)))
            },
    )
}

fn note_calls(names: &mut Vec<(String, String)>, message: &Message)
    ensures
        pair_views(final(names)@) == pair_views(old(names)@) + call_names(calls_of(*message)),
{
    let ghost before = pair_views(names@);
    match &message.tool_calls {
        Some(calls) => {
            let ghost all = call_names(calls@);
            let mut i: usize = 0;
            proof {
                whole_prefix(all);
                assert(before + all.subrange(0, 0) =~= before);
            }
            while i < calls.len()
                invariant
                    i <= calls@.len(),
                    all == call_names(calls@),
                    pair_views(names@) == before + all.subrange(0, i as int),
                decreases calls@.len() - i,
            {
                push_pair(names, calls[i].id.as_str(), calls[i].name.as_str());
                proof {
                    prefix_next(all, i as int);
                    assert(pair_views(names@) =~= before + all.subrange(0, i + 1));
                }
                i = i + 1;
            }
            proof {
                whole_prefix(all);
            }
        },
        None => {
            assert(before + call_names(Seq::empty()) =~= before);
        },
    }
}

fn told_contents_json(messages: &Vec<Message>) -> (r: Vec<Json>)
    ensures
        json_views(r@) == flattened(told_contents(messages@)),
{
    let mut out = no_items();
    let mut names: Vec<(String, String)> = Vec::new();
    let ghost all = told_contents(messages@);
    let mut i: usize = 0;
    proof {
        whole_prefix(all);
        whole_prefix(messages@);
        assert(pair_views(names@) =~= Seq::empty());
    }
    while i < messages.len()
        invariant
            i <= messages@.len(),
            all == told_contents(messages@),
            json_views(out@) == flattened(all.subrange(0, i as int)),
            pair_views(names@) == known_calls(messages@.subrange(0, i as int)),
        decreases messages@.len() - i,
    {
        proof {
            flattened_next(all, i as int);
            prefix_next(messages@, i as int);
        }
        let message = &messages[i];
        if message.role != MessageRole::System {
            note_calls(&mut names, message);
            let name = match &message.tool_call_id {
                Some(id) => find_last_pair(&names, id.as_str()),
                None => None,
            };
            put_item(&mut out, message_content_json(message, name));
        }
        i = i + 1;
    }
    proof {
        whole_prefix(all);
    }
    out
}

/// A function that the model may call.
pub open spec fn function_declaration(tool: ToolDefinition) -> JsonView {
    JsonView::Object(
        seq![("name"@, JsonView::String(tool.name@))] + field_if(
            "description"@,
            text_view(tool.description),
        ) + field_if("parameters"@, opt_json(tool.parameters)),
    )
}

fn function_declaration_json(tool: &ToolDefinition) -> (r: Json)
    ensures
        r@ == function_declaration(*tool),
{
    let parameters = match &tool.parameters {
        Some(parameters) => Some(parameters.duplicate()),
        None => None,
    };
    let mut fields = no_fields();
    put_text(&mut fields, "name", tool.name.as_str());
    put_opt(&mut fields, "description", text_json(&tool.description));
    put_opt(&mut fields, "parameters", parameters);
    assert(field_views(fields@) =~= function_declaration(*tool)->Object_0);
    Json::object(fields)
}

/// Functions that the model may call.
pub open spec fn function_declarations(tools: Seq<ToolDefinition>) -> Seq<JsonView> {
    Seq::new(tools.len(), |i: int| function_declaration(tools[i]))
}

/// The one entry that holds all functions, unless there are none.
pub open spec fn function_tools(tools: Seq<ToolDefinition>) -> Seq<JsonView> {
    if tools.len() == 0 {
        Seq::empty()
    } else {
        seq![
            JsonView::Object(
                seq![("function_declarations"@, JsonView::Array(function_declarations(tools)))],
            ),
        ]
    }
}

/// The one entry that holds all functions, unless there are none.
pub fn convert_tools(tools: &Vec<ToolDefinition>) -> (r: Vec<Json>)
    ensures
        json_views(r@) == function_tools(tools@),
{
    let mut out = no_items();
    if tools.len() == 0 {
        return out;
    }
    let mut declarations = no_items();
    let ghost all = function_declarations(tools@);
    let mut i: usize = 0;
    proof {
        whole_prefix(all);
    }
    while i < tools.len()
        invariant
            i <= tools@.len(),
            all == function_declarations(tools@),
            json_views(declarations@) == all.subrange(0, i as int),
        decreases tools@.len() - i,
    {
        put_item(&mut declarations, function_declaration_json(&tools[i]));
        proof {
            prefix_next(all, i as int);
        }
        i = i + 1;
    }
    proof {
        whole_prefix(all);
    }
    let mut fields = no_fields();
    put(&mut fields, "function_declarations", Json::array(declarations));
    assert(field_views(fields@) =~= function_tools(tools@)[0]->Object_0);
    put_item(&mut out, Json::object(fields));
    assert(json_views(out@) =~= function_tools(tools@));
    out
}

/// A tool that Google runs itself.
pub open spec fn built_in_spec(tool: BuiltInTool) -> Option<JsonView> {
    match tool {
        BuiltInTool::WebSearch => Some(
            JsonView::Object(seq![("google_search"@, JsonView::Object(Seq::empty()))]),
        ),
        _ => None,
    }
}

/// A tool that Google runs itself, or nothing where it does not.
pub fn gemini_built_in_spec(tool: BuiltInTool) -> (r: Option<Json>)
    ensures
        opt_json(r) == built_in_spec(tool),
{
    match tool {
        BuiltInTool::WebSearch => {
            let mut fields = no_fields();
            put(&mut fields, "google_search", Json::object(no_fields()));
            assert(field_views(fields@) =~= built_in_spec(tool)->0->Object_0);
            Some(Json::object(fields))
        },
        _ => None,
    }
}

/// The tools that Google runs itself.
pub open spec fn built_in_specs(tools: Seq<BuiltInTool>) -> Seq<Option<JsonView>> {
    Seq::new(tools.len(), |i: int| built_in_spec(tools[i]))
}

/// How functions are called: a mode, and the one function that is allowed.
pub open spec fn calling_config(mode: Seq<char>, allowed: Option<Seq<char>>) -> JsonView {
    JsonView::Object(
        seq![
            (
                "function_calling_config"@,
                JsonView::Object(
                    seq![("mode"@, JsonView::String(mode))] + field_if(
                        "allowed_function_names"@,
                        match allowed {
                            Some(name) => Some(JsonView::Array(seq![JsonView::String(name)])),
                            None => None,
                        },
                    ),
                ),
            ),
        ],
    )
}

fn calling_config_json(mode: &str, allowed: Option<&str>) -> (r: Json)
    ensures
        r@ == calling_config(
            mode@,
            match allowed {
                Some(name) => Some(name@),
                None => None,
            },
        ),
{
    let ghost wanted = calling_config(
        mode@,
        match allowed {
            Some(name) => Some(name@),
            None => None,
        },
    );
    let mut inner = no_fields();
    put_text(&mut inner, "mode", mode);
    if let Some(name) = allowed {
        let mut names = no_items();
        put_item(&mut names, Json::text(name));
        assert(json_views(names@) =~= seq![JsonView::String(name@)]);
        put(&mut inner, "allowed_function_names", Json::array(names));
    }
    let ghost inner_view = field_views(inner@);
    let mut fields = no_fields();
    put(&mut fields, "function_calling_config", Json::object(inner));
    proof {
        assert(inner_view =~= wanted->Object_0[0].1->Object_0);
        assert(field_views(fields@) =~= wanted->Object_0);
    }
    Json::object(fields)
}

/// The choice of a tool in Gemini's form.
pub open spec fn tool_config(choice: Option<ToolChoice>) -> Option<JsonView> {
    match choice {
        None => None,
        Some(ToolChoice::Auto) => Some(calling_config("AUTO"@, None)),
        Some(ToolChoice::NoTools) => Some(calling_config("NONE"@, None)),
        Some(ToolChoice::Required) => Some(calling_config("ANY"@, None)),
        Some(ToolChoice::Tool { name }) => Some(calling_config("ANY"@, Some(name@))),
    }
}

/// The choice of a tool in Gemini's form.
pub fn convert_tool_choice(choice: &Option<ToolChoice>) -> (r: Option<Json>)
    ensures
        opt_json(r) == tool_config(*choice),
{
    match choice {
        None => None,
        Some(ToolChoice::Auto) => Some(calling_config_json("AUTO", None)),
        Some(ToolChoice::NoTools) => Some(calling_config_json("NONE", None)),
        Some(ToolChoice::Required) => Some(calling_config_json("ANY", None)),
        Some(ToolChoice::Tool { name }) => Some(calling_config_json("ANY", Some(name.as_str()))),
    }
}

/// The form of the reply.
pub open spec fn mime_type(format: ResponseFormat) -> Option<JsonView> {
    match format {
        ResponseFormat::Text => None,
        _ => Some(JsonView::String("application/json"@)),
    }
}

/// The schema of the reply.
pub open spec fn schema_of(format: ResponseFormat) -> Option<JsonView> {
    match format {
        ResponseFormat::JsonSchema(schema) => Some(schema.schema@),
        _ => None,
    }
}

/// How much the model is to think.
pub open spec fn thinking_level(effort: Option<ReasoningEffort>) -> Option<JsonView> {
    match effort {
        None => None,
        Some(effort) => Some(
            JsonView::Object(
                seq![
                    (
                        "thinkingLevel"@,
                        JsonView::String(
                            match effort {
                                ReasoningEffort::Minimal => "minimal"@,
                                ReasoningEffort::Medium => "medium"@,
                                ReasoningEffort::High => "high"@,
                            },
                        ),
                    ),
                ],
            ),
        ),
    }
}

/// How much the model is to think.
pub fn thinking_config(effort: Option<ReasoningEffort>) -> (r: Option<Json>)
    ensures
        opt_json(r) == thinking_level(effort),
{
    match effort {
        None => None,
        Some(effort) => {
            let level = match effort {
                ReasoningEffort::Minimal => "minimal",
                ReasoningEffort::Medium => "medium",
                ReasoningEffort::High => "high",
            };
            let mut fields = no_fields();
            put_text(&mut fields, "thinkingLevel", level);
            assert(field_views(fields@) =~= thinking_level(Some(effort))->0->Object_0);
            Some(Json::object(fields))
        },
    }
}

/// How the reply is generated.
pub open spec fn generation_config(request: GenerateRequest) -> JsonView {
    let limit: u32 = match request.config.max_output_tokens {
        Some(n) => n,
        None => 2048,
    };
    JsonView::Object(
        field_if("temperature"@, number_view(request.config.temperature)) + field_if(
            "top_p"@,
            number_view(request.config.top_p),
        ) + seq![("max_output_tokens"@, whole_number(limit as u64))] + field_if(
            "response_mime_type"@,
            mime_type(request.config.response_format),
        ) + field_if("responseJsonSchema"@, schema_of(request.config.response_format)) + field_if(
            "thinkingConfig"@,
            thinking_level(request.config.reasoning_effort),
        ),
    )
}

fn generation_config_json(request: &GenerateRequest) -> (r: Json)
    ensures
        r@ == generation_config(*request),
{
    let limit: u32 = match request.config.max_output_tokens {
        Some(n) => n,
        None => 2048,
    };
    let form = match &request.config.response_format {
        ResponseFormat::Text => None,
        _ => Some(Json::text("application/json")),
    };
    let schema = match &request.config.response_format {
        ResponseFormat::JsonSchema(schema) => Some(schema.schema.duplicate()),
        _ => None,
    };
    let mut fields = no_fields();
    put_opt(&mut fields, "temperature", number_json(&request.config.temperature));
    put_opt(&mut fields, "top_p", number_json(&request.config.top_p));
    put(&mut fields, "max_output_tokens", Json::whole(limit as u64));
    put_opt(&mut fields, "response_mime_type", form);
    put_opt(&mut fields, "responseJsonSchema", schema);
    put_opt(&mut fields, "thinkingConfig", thinking_config(request.config.reasoning_effort));
    assert(field_views(fields@) =~= generation_config(*request)->Object_0);
    Json::object(fields)
}

/// The cache that a request names, unless the name is blank.
pub open spec fn cache_name(request: GenerateRequest) -> Option<JsonView> {
    match request.config.prompt_cache {
        Some(cache) => match cache.resource {
            Some(resource) => if trimmed(resource@).len() == 0 {
                None
            } else {
                Some(JsonView::String(trimmed(resource@)))
            },
            None => None,
        },
        None => None,
    }
}

fn cache_name_json(request: &GenerateRequest) -> (r: Option<Json>)
    ensures
        opt_json(r) == cache_name(*request),
{
    match &request.config.prompt_cache {
        Some(cache) => match &cache.resource {
            Some(resource) => {
                let name = trim(resource.as_str());
                if name.as_str().is_empty() {
                    None
                } else {
                    Some(Json::String(name))
                }
            },
            None => None,
        },
        None => None,
    }
}

/// The payload of a request.
pub open spec fn gemini_payload(request: GenerateRequest) -> JsonView {
    let tools = function_tools(request.tools@) + flattened(
        built_in_specs(request.config.built_in_tools@),
    );
    JsonView::Object(
        seq![("contents"@, JsonView::Array(flattened(told_contents(request.messages@))))]
            + field_if("cachedContent"@, cache_name(request)) + field_if(
            "system_instruction"@,
            match request.system_prompt {
                Some(prompt) => Some(text_content(Some("user"@), prompt@)),
                None => None,
            },
        ) + seq![("generation_config"@, generation_config(request))] + field_if(
            "tools"@,
            unless_empty(tools),
        ) + field_if("tool_config"@, tool_config(request.tool_choice)),
    )
}

/// The payload of a request.
pub fn build_gemini_payload(request: &GenerateRequest) -> (r: Json)
    ensures
        r@ == gemini_payload(*request),
{
    let mut tools = convert_tools(&request.tools);
    let ghost own = json_views(tools@);
    let ghost all = built_in_specs(request.config.built_in_tools@);
    let mut i: usize = 0;
    proof {
        whole_prefix(all);
        assert(own + flattened(all.subrange(0, 0)) =~= own);
    }
    while i < request.config.built_in_tools.len()
        invariant
            i <= request.config.built_in_tools@.len(),
            all == built_in_specs(request.config.built_in_tools@),
            json_views(tools@) == own + flattened(all.subrange(0, i as int)),
        decreases request.config.built_in_tools@.len() - i,
    {
        proof {
            flattened_next(all, i as int);
        }
        if let Some(spec) = gemini_built_in_spec(request.config.built_in_tools[i]) {
            put_item(&mut tools, spec);
            assert(json_views(tools@) =~= own + flattened(all.subrange(0, i + 1)));
        }
        i = i + 1;
    }
    proof {
        whole_prefix(all);
    }
    let mut payload = no_fields();
    put(&mut payload, "contents", Json::array(told_contents_json(&request.messages)));
    put_opt(&mut payload, "cachedContent", cache_name_json(request));
    if let Some(prompt) = &request.system_prompt {
        put(&mut payload, "system_instruction", text_content_json(Some("user"), prompt.as_str()));
    }
    put(&mut payload, "generation_config", generation_config_json(request));
    put_opt(&mut payload, "tools", array_unless_empty(tools));
    put_opt(&mut payload, "tool_config", convert_tool_choice(&request.tool_choice));
    assert(field_views(payload@) =~= gemini_payload(*request)->Object_0);
    Json::object(payload)
}

/// A model under the name that the cache has for it.
pub open spec fn cached_model(model: Seq<char>) -> Seq<char> {
    if begins_with(model, "models/"@) {
        model
    } else {
        "models/"@ + model
    }
}

/// The texts to be cached, without white space around them and without blank ones.
pub open spec fn cached_texts(contents: Seq<Seq<char>>) -> Seq<Option<JsonView>> {
    Seq::new(
        contents.len(),
        |i: int|
            if trimmed(contents[i]).len() == 0 {
                None
            } else {
                Some(text_content(Some("user"@), trimmed(contents[i])))
            },
    )
}

/// The payload that makes a cache.
pub open spec fn cached_content_payload(
    model: Seq<char>,
    system: Option<Seq<char>>,
    contents: Seq<Seq<char>>,
    ttl_seconds: Option<u32>,
) -> JsonView {
    JsonView::Object(
        seq![("model"@, JsonView::String(cached_model(model)))] + field_if(
            "systemInstruction"@,
            match system {
                Some(prompt) => if trimmed(prompt).len() == 0 {
                    None
                } else {
                    Some(text_content(None, trimmed(prompt)))
                },
                None => None,
            },
        ) + seq![("contents"@, JsonView::Array(flattened(cached_texts(contents))))] + field_if(
            "ttl"@,
            match ttl_seconds {
                Some(n) => Some(JsonView::String(decimal(n as nat) + "s"@)),
                None => None,
            },
        ),
    )
}

/// What a request for a cache comes to.
pub open spec fn cached_content_request(
    model: Seq<char>,
    system: Option<Seq<char>>,
    contents: Seq<Seq<char>>,
    ttl_seconds: Option<u32>,
) -> Result<JsonView, ErrorView> {
    if contents.len() == 0 {
        Err(
            bad_setting(
                "at least one content item is required for Gemini CachedContent"@,
                "contents"@,
            ),
        )
    } else {
        match model_name(model) {
            Err(e) => Err(e),
            Ok(name) => if flattened(cached_texts(contents)).len() == 0 {
                Err(
                    bad_setting(
                        "Gemini CachedContent contents must include non-empty text"@,
                        "contents"@,
                    ),
                )
            } else {
                Ok(cached_content_payload(name, system, contents, ttl_seconds))
            },
        }
    }
}

/// The payload that makes a cache, or why there is none.
pub fn build_cached_content_payload(
    model: &str,
    system: &Option<String>,
    contents: &Vec<String>,
    ttl_seconds: Option<u32>,
) -> (r: Result<Json, SdkError>)
    ensures
        match r {
            Ok(payload) => cached_content_request(
                model@,
                opt_text(*system),
                texts(contents@),
                ttl_seconds,
            ) == Ok::<JsonView, ErrorView>(payload@),
            Err(e) => cached_content_request(
                model@,
                opt_text(*system),
                texts(contents@),
                ttl_seconds,
            ) == Err::<JsonView, ErrorView>(e@),
        },
{
    if contents.len() == 0 {
        return Err(
            setting_error(
                "at least one content item is required for Gemini CachedContent".to_owned(),
                "contents",
            ),
        );
    }
    let name = match normalize_model(model) {
        Ok(name) => name,
        Err(e) => {
            return Err(e);
        },
    };
    let mut kept = no_items();
    let ghost all = cached_texts(texts(contents@));
    let mut i: usize = 0;
    proof {
        whole_prefix(all);
    }
    while i < contents.len()
        invariant
            i <= contents@.len(),
            all == cached_texts(texts(contents@)),
            json_views(kept@) == flattened(all.subrange(0, i as int)),
        decreases contents@.len() - i,
    {
        proof {
            flattened_next(all, i as int);
            assert(texts(contents@)[i as int] == contents@[i as int]@);
        }
        let body = trim(contents[i].as_str());
        if !body.as_str().is_empty() {
            put_item(&mut kept, text_content_json(Some("user"), body.as_str()));
        }
        i = i + 1;
    }
    proof {
        whole_prefix(all);
        assert(texts(contents@).len() == contents@.len());
        assert(json_views(kept@).len() == kept@.len());
    }
    if kept.len() == 0 {
        return Err(
            setting_error(
                "Gemini CachedContent contents must include non-empty text".to_owned(),
                "contents",
            ),
        );
    }
    let full = if starts_with(name.as_str(), "models/") {
        name.clone()
    } else {
        concat2("models/", name.as_str())
    };
    let mut payload = no_fields();
    put_text(&mut payload, "model", full.as_str());
    if let Some(prompt) = system {
        let body = trim(prompt.as_str());
        if !body.as_str().is_empty() {
            put(&mut payload, "systemInstruction", text_content_json(None, body.as_str()));
        }
    }
    put(&mut payload, "contents", Json::array(kept));
    if let Some(seconds) = ttl_seconds {
        let ttl = concat2(decimal_text(seconds as u64).as_str(), "s");
        put_text(&mut payload, "ttl", ttl.as_str());
    }
    proof {
        let wanted = cached_content_payload(
            name@,
            opt_text(*system),
            texts(contents@),
            ttl_seconds,
        );
        assert(field_views(payload@) =~= wanted->Object_0);
    }
    Ok(Json::object(payload))
}

/// The name of the cache to be deleted.
pub fn cached_content_name(name: &str) -> (r: Result<String, SdkError>)
    ensures
        match r {
            Ok(s) => s@ == trimmed(name@) && s@.len() > 0,
            Err(e) => trimmed(name@).len() == 0 && e@ == bad_setting(
                "Gemini CachedContent name must not be empty"@,
                "name"@,
            ),
        },
{
    let body = trim(name);
    if body.as_str().is_empty() {
        return Err(
            setting_error("Gemini CachedContent name must not be empty".to_owned(), "name"),
        );
    }
    Ok(body)
}

/// Where Gemini is had, and with what key.
#[derive(Clone, Debug)]
pub struct GoogleConfig {
    pub api_key: String,
    pub base_url: String,
    pub version: String,
    pub timeout: Duration,
    pub retry_config: RetryConfig,
}

impl GoogleConfig {
    pub fn new(api_key: &str, retry_config: RetryConfig) -> (r: Self)
        ensures
            r.api_key@ == api_key@,
            r.base_url@ == "https://generativelanguage.googleapis.com"@,
            r.version@ == "v1beta"@,
            r.timeout@ == seconds(60),
            r.retry_config == retry_config,
    {
        GoogleConfig {
            api_key: api_key.to_owned(),
            base_url: "https://generativelanguage.googleapis.com".to_owned(),
            version: "v1beta".to_owned(),
            timeout: Duration::from_secs(60),
            retry_config,
        }
    }

    pub fn with_base_url(self, base_url: &str) -> (r: Self)
        ensures
            r == (GoogleConfig { base_url: r.base_url, ..self }),
            r.base_url@ == base_url@,
    {
        GoogleConfig { base_url: base_url.to_owned(), ..self }
    }

    pub fn with_version(self, version: &str) -> (r: Self)
        ensures
            r == (GoogleConfig { version: r.version, ..self }),
            r.version@ == version@,
    {
        GoogleConfig { version: version.to_owned(), ..self }
    }

    pub fn with_timeout(self, timeout: Duration) -> (r: Self)
        ensures
            r == (GoogleConfig { timeout, ..self }),
    {
        GoogleConfig { timeout, ..self }
    }

    /// The configuration that the environment sets, by the values of
    /// `GOOGLE_API_KEY`, `GEMINI_API_KEY`, `GOOGLE_BASE_URL`, `GOOGLE_API_VERSION` and
    /// `GOOGLE_TIMEOUT_SECS`.
    pub fn from_env(
        api_key: Option<String>,
        gemini_api_key: Option<String>,
        base_url: Option<String>,
        version: Option<String>,
        timeout_secs: Option<String>,
        retry_config: RetryConfig,
    ) -> (r: Result<Self, SdkError>)
        ensures
            match r {
                Ok(config) => {
                    &&& key_of(api_key, gemini_api_key) is Some
                    &&& config.api_key@ == key_of(api_key, gemini_api_key)->0@
                    &&& config.base_url@ == overridden(
                        "https://generativelanguage.googleapis.com"@,
                        opt_text(base_url),
                    )
                    &&& config.version@ == overridden("v1beta"@, opt_text(version))
                    &&& config.timeout@ == seconds(seconds_or(60, opt_text(timeout_secs)))
                    &&& config.retry_config == retry_config
                },
                Err(e) => key_of(api_key, gemini_api_key) is None && e@ == bad_setting(
                    "GOOGLE_API_KEY or GEMINI_API_KEY must be set"@,
                    "GOOGLE_API_KEY"@,
                ),
            },
    {
        let key = match first_set(api_key, gemini_api_key) {
            Some(key) => key,
            None => {
                return Err(
                    setting_error(
                        "GOOGLE_API_KEY or GEMINI_API_KEY must be set".to_owned(),
                        "GOOGLE_API_KEY",
                    ),
                );
            },
        };
        Ok(
            GoogleConfig {
                api_key: key,
                base_url: override_text("https://generativelanguage.googleapis.com", base_url),
                version: override_text("v1beta", version),
                timeout: Duration::from_secs(override_seconds(60, timeout_secs)),
                retry_config,
            },
        )
    }
}

/// Gemini as a provider.
#[derive(Clone, Debug)]
pub struct GoogleProvider {
    pub config: GoogleConfig,
}

impl GoogleProvider {
    pub fn new(config: GoogleConfig) -> (r: Self)
        ensures
            r.config == config,
    {
        GoogleProvider { config }
    }

    /// A place below the base of the service, with the key.
    pub open spec fn place(self, path: Seq<char>, separator: Seq<char>) -> Seq<char> {
        without_trailing(self.config.base_url@, '/') + "/"@ + self.config.version@ + "/"@ + path
            + separator + "key="@ + self.config.api_key@
    }

    fn place_of(&self, path: &str, separator: &str) -> (r: String)
        ensures
            r@ == self.place(path@, separator@),
    {
        let base = trim_end_matches(self.config.base_url.as_str(), '/');
        let mut url = concat5(base.as_str(), "/", self.config.version.as_str(), "/", path);
        url.append(separator);
        url.append("key=");
        url.append(self.config.api_key.as_str());
        url
    }

    /// Where replies are generated.
    pub fn generate_endpoint(&self, model: &str) -> (r: String)
        ensures
            r@ == self.place("models/"@ + model@ + ":generateContent"@, "?"@),
    {
        self.place_of(concat3("models/", model, ":generateContent").as_str(), "?")
    }

    /// Where replies are generated piece by piece.
    pub fn stream_endpoint(&self, model: &str) -> (r: String)
        ensures
            r@ == self.place("models/"@ + model@ + ":streamGenerateContent?alt=sse"@, "&"@),
    {
        self.place_of(concat3("models/", model, ":streamGenerateContent?alt=sse").as_str(), "&")
    }

    /// Where caches are made.
    pub fn cached_contents_endpoint(&self) -> (r: String)
        ensures
            r@ == self.place("cachedContents"@, "?"@),
    {
        self.place_of("cachedContents", "?")
    }

    /// Where a cache is.
    pub fn cached_content_resource_endpoint(&self, name: &str) -> (r: String)
        ensures
            r@ == self.place(without_leading(name@, '/'), "?"@),
    {
        self.place_of(trim_start_matches(name, '/').as_str(), "?")
    }
}

/// A plain message keeps its speaker and its words, the model's as the model's and any
/// other as the user's; what the model said with its calls comes first, then each call in
/// its order; what a call gave is told as the user's, under the function's name and the
/// id of the call.
pub proof fn messages_keep_their_speaker(message: Message, name: Option<Seq<char>>, i: int)
    ensures
        message.tool_call_id is None && message.tool_calls is None ==> ({
            let told = message_content(message, name);
            let parts = told.field("parts"@)->0.items()->0;
            &&& message.role == MessageRole::User ==> told.field_text("role"@) == Some("user"@)
            &&& message.role == MessageRole::Assistant ==> told.field_text("role"@) == Some(
                "model"@,
            )
            &&& told.field("parts"@)->0.items() is Some && parts.len() == 1
            &&& parts[0].field_text("text"@) == Some(message.content@)
        }),
        message.tool_call_id is None && message.tool_calls is Some ==> ({
            let told = message_content(message, name);
            let parts = told.field("parts"@)->0.items()->0;
            let calls = message.tool_calls->0@;
            let words: int = if message.content@.len() > 0 {
                1
            } else {
                0
            };
            &&& told.field_text("role"@) == Some("model"@)
            &&& told.field("parts"@)->0.items() is Some && parts.len() == words + calls.len()
            &&& message.content@.len() > 0 ==> parts[0].field_text("text"@) == Some(
                message.content@,
            )
            &&& 0 <= i < calls.len() ==> parts[words + i] == call_part(calls[i])
        }),
        message.tool_call_id matches Some(id) ==> ({
            let told = message_content(message, name);
            let result = told.field("parts"@)->0.items()->0[0].field("functionResponse"@)->0;
            &&& told.field_text("role"@) == Some("user"@)
            &&& name matches Some(function) ==> result.field_text("name"@) == Some(function)
            &&& name is None ==> result.field_text("name"@) == Some(id@)
            &&& result.field_text("id"@) == Some(id@)
            &&& result.field("response"@) == Some(function_result(message.content@))
        }),
{
    broadcast use crate::json::group_fields;

    reveal_with_fuel(crate::json::last_field, 4);
    reveal_strlit("role");
    reveal_strlit("parts");
    reveal_strlit("text");
    reveal_strlit("functionResponse");
    reveal_strlit("name");
    reveal_strlit("response");
    reveal_strlit("id");
    assert("role"@.len() == 4
        && "parts"@.len() == 5
        && "text"@.len() == 4
        && "functionResponse"@.len() == 16
        && "name"@.len() == 4
        && "response"@.len() == 8
        && "id"@.len() == 2
        && "role"@[0] == 'r'
        && "text"@[0] == 't'
        && "name"@[0] == 'n');
    let told = message_content(message, name);
    assert(told.field("parts"@) is Some);
    if message.tool_call_id is Some {
        assert(told.field("parts"@)->0.items()->0[0].field("functionResponse"@) is Some);
    }
}

/// A call is told back with its id, its name and its arguments, and with the signature
/// that came with it; what a call gave is an object, or is put into one.
pub proof fn calls_are_told_back(call: ToolCall, text: Seq<char>)
    ensures
        ({
            let told = call_part(call).field("functionCall"@)->0;
            &&& told.field_text("id"@) == Some(call.id@)
            &&& told.field_text("name"@) == Some(call.name@)
            &&& json_parsed(call.arguments@) matches Ok(input) ==> told.field("args"@) == Some(
                input,
            )
            &&& signature_of(call) matches Some(s) ==> call_part(call).field_text(
                "thoughtSignature"@,
            ) == Some(s)
            &&& signature_of(call) is None ==> call_part(call).field("thoughtSignature"@) is None
        }),
        function_result(text) is Object,
        json_parsed(text) matches Ok(value) ==> (value is Object ==> function_result(text) == value)
            && (!(value is Object) ==> function_result(text).field("result"@) == Some(value)),
        json_parsed(text) is Err ==> function_result(text).field_text("result"@) == Some(text),
{
    broadcast use crate::json::group_fields;

    reveal_with_fuel(crate::json::last_field, 4);
    reveal_strlit("functionCall");
    reveal_strlit("thoughtSignature");
    reveal_strlit("id");
    reveal_strlit("name");
    reveal_strlit("args");
    reveal_strlit("result");
    assert("functionCall"@.len() == 12
        && "thoughtSignature"@.len() == 16
        && "id"@.len() == 2
        && "name"@.len() == 4
        && "args"@.len() == 4
        && "result"@.len() == 6
        && "name"@[0] == 'n'
        && "args"@[0] == 'a');
    assert(call_part(call).field("functionCall"@) is Some);
}

/// A conversation is told message by message in its order; the system's messages are left
/// out of it.
pub proof fn conversations_are_told_in_order(messages: Seq<Message>, message: Message)
    ensures
        message.role == MessageRole::System ==> flattened(told_contents(messages.push(message)))
            == flattened(told_contents(messages)),
        message.role != MessageRole::System && message.tool_call_id is None ==> flattened(
            told_contents(messages.push(message)),
        ) == flattened(told_contents(messages)).push(message_content(message, None)),
        message.role != MessageRole::System && message.tool_call_id is Some ==> flattened(
            told_contents(messages.push(message)),
        ) == flattened(told_contents(messages)).push(
            message_content(
                message,
                last_pair(known_calls(messages.push(message)), message.tool_call_id->0@),
            ),
        ),
{
    let all = messages.push(message);
    let n = messages.len() as int;
    assert forall|i: int| 0 <= i < n implies #[trigger] told_contents(all)[i] == told_contents(
        messages,
    )[i] by {
        assert(all[i] == messages[i]);
        assert(all.subrange(0, i + 1) =~= messages.subrange(0, i + 1));
    }
    assert(told_contents(all).drop_last() =~= told_contents(messages));
    assert(all.subrange(0, n + 1) =~= all);
}

/// What a call gave goes by the name of the function that was called: the calls of a
/// conversation are known by their ids, in the order in which they were made.
pub proof fn calls_are_known_by_their_ids(messages: Seq<Message>, message: Message, i: int)
    ensures
        message.role == MessageRole::System || message.tool_calls is None ==> known_calls(
            messages.push(message),
        ) == known_calls(messages),
        message.role != MessageRole::System && message.tool_calls is Some ==> ({
            let calls = message.tool_calls->0@;
            let known = known_calls(messages.push(message));
            let before = known_calls(messages).len() as int;
            &&& known.len() == before + calls.len()
            &&& known.subrange(0, before) == known_calls(messages)
            &&& 0 <= i < calls.len() ==> known[before + i] == (calls[i].id@, calls[i].name@)
        }),
{
    assert(messages.push(message).drop_last() =~= messages);
    let before = known_calls(messages);
    assert(before + Seq::<(Seq<char>, Seq<char>)>::empty() =~= before);
    if message.tool_calls is None {
        assert(call_names(calls_of(message)) =~= Seq::empty());
    } else {
        assert(known_calls(messages.push(message)).subrange(0, before.len() as int) =~= before || message.role == MessageRole::System);
    }
}

proof fn payload_fields(request: GenerateRequest)
    ensures
        ({
            let payload = gemini_payload(request);
            &&& payload.field("contents"@) == Some(
                JsonView::Array(flattened(told_contents(request.messages@))),
            )
            &&& payload.field("cachedContent"@) == cache_name(request)
            &&& payload.field("system_instruction"@) == (match request.system_prompt {
                Some(prompt) => Some(text_content(Some("user"@), prompt@)),
                None => None,
            })
            &&& payload.field("generation_config"@) == Some(generation_config(request))
            &&& payload.field("tools"@) == unless_empty(
                function_tools(request.tools@) + flattened(
                    built_in_specs(request.config.built_in_tools@),
                ),
            )
            &&& payload.field("tool_config"@) == tool_config(request.tool_choice)
        }),
{
    broadcast use crate::json::group_fields;

    reveal_strlit("contents");
    reveal_strlit("cachedContent");
    reveal_strlit("system_instruction");
    reveal_strlit("generation_config");
    reveal_strlit("tools");
    reveal_strlit("tool_config");
    assert("contents"@.len() == 8
        && "cachedContent"@.len() == 13
        && "system_instruction"@.len() == 18
        && "generation_config"@.len() == 17
        && "tools"@.len() == 5
        && "tool_config"@.len() == 11);
}

/// What a request sets is in its payload: the conversation, the system's words, the cache,
/// the sampling parameters, the limit, which is 2048 where none is set, the form of the
/// reply and how much the model is to think.
pub proof fn payloads_carry_the_settings(request: GenerateRequest)
    ensures
        ({
            let payload = gemini_payload(request);
            let config = payload.field("generation_config"@)->0;
            let format = request.config.response_format;
            let effort = request.config.reasoning_effort;
            &&& payload.field("contents"@)->0.items() == Some(
                flattened(told_contents(request.messages@)),
            )
            &&& request.system_prompt is None ==> payload.field("system_instruction"@) is None
            &&& request.system_prompt matches Some(prompt) ==> payload.field(
                "system_instruction"@,
            )->0.field("parts"@)->0.items()->0[0].field_text("text"@) == Some(prompt@)
            &&& config.field("temperature"@) == number_view(request.config.temperature)
            &&& config.field("top_p"@) == number_view(request.config.top_p)
            &&& request.config.max_output_tokens is None ==> config.field_whole(
                "max_output_tokens"@,
            ) == Some(2048u64)
            &&& request.config.max_output_tokens matches Some(n) ==> config.field_whole(
                "max_output_tokens"@,
            ) == Some(n as u64)
            &&& format is Text ==> config.field("response_mime_type"@) is None
            &&& !(format is Text) ==> config.field_text("response_mime_type"@) == Some(
                "application/json"@,
            )
            &&& format matches ResponseFormat::JsonSchema(schema) ==> config.field(
                "responseJsonSchema"@,
            ) == Some(schema.schema@)
            &&& !(format is JsonSchema) ==> config.field("responseJsonSchema"@) is None
            &&& effort is None ==> config.field("thinkingConfig"@) is None
            &&& effort == Some(ReasoningEffort::Minimal) ==> config.field(
                "thinkingConfig"@,
            )->0.field_text("thinkingLevel"@) == Some("minimal"@)
            &&& effort == Some(ReasoningEffort::Medium) ==> config.field(
                "thinkingConfig"@,
            )->0.field_text("thinkingLevel"@) == Some("medium"@)
            &&& effort == Some(ReasoningEffort::High) ==> config.field(
                "thinkingConfig"@,
            )->0.field_text("thinkingLevel"@) == Some("high"@)
            &&& request.config.prompt_cache is None ==> payload.field("cachedContent"@) is None
            &&& request.config.prompt_cache is Some && request.config.prompt_cache->0.resource is
                Some && trimmed(request.config.prompt_cache->0.resource->0@).len() > 0
                ==> payload.field_text("cachedContent"@) == Some(
                trimmed(request.config.prompt_cache->0.resource->0@),
            )
        }),
{
    payload_fields(request);
    let config = generation_config(request);
    reveal_strlit("temperature");
    reveal_strlit("top_p");
    reveal_strlit("max_output_tokens");
    reveal_strlit("response_mime_type");
    reveal_strlit("responseJsonSchema");
    reveal_strlit("thinkingConfig");
    reveal_strlit("thinkingLevel");
    reveal_strlit("parts");
    reveal_strlit("text");
    reveal_strlit("role");
    assert("temperature"@.len() == 11
        && "top_p"@.len() == 5
        && "max_output_tokens"@.len() == 17
        && "response_mime_type"@.len() == 18
        && "responseJsonSchema"@.len() == 18
        && "thinkingConfig"@.len() == 14
        && "thinkingLevel"@.len() == 13
        && "parts"@.len() == 5
        && "text"@.len() == 4
        && "role"@.len() == 4
        && "top_p"@[0] == 't'
        && "parts"@[0] == 'p'
        && "response_mime_type"@[8] == '_'
        && "responseJsonSchema"@[8] == 'J'
        && "text"@[0] == 't'
        && "role"@[0] == 'r');
    assert(config.field("temperature"@) == number_view(request.config.temperature)) by {
        broadcast use crate::json::group_fields;

    }
    assert(config.field("top_p"@) == number_view(request.config.top_p)) by {
        broadcast use crate::json::group_fields;

    }
    assert(config.field("max_output_tokens"@) is Some && config.field("max_output_tokens"@)->0
        == whole_number(
        if request.config.max_output_tokens is Some {
            request.config.max_output_tokens->0 as u64
        } else {
            2048
        },
    )) by {
        broadcast use crate::json::group_fields;

    }
    assert(config.field("response_mime_type"@) == mime_type(request.config.response_format)) by {
        broadcast use crate::json::group_fields;

    }
    assert(config.field("responseJsonSchema"@) == schema_of(request.config.response_format)) by {
        broadcast use crate::json::group_fields;

    }
    assert(config.field("thinkingConfig"@) == thinking_level(request.config.reasoning_effort)) by {
        broadcast use crate::json::group_fields;

    }
    broadcast use crate::json::group_fields;

    if request.config.reasoning_effort is Some {
        assert(thinking_level(request.config.reasoning_effort)->0.field("thinkingLevel"@) is Some);
    }
    if request.system_prompt is Some {
        let told = text_content(Some("user"@), request.system_prompt->0@);
        assert(told.field("parts"@) is Some);
        assert(told.field("parts"@)->0.items()->0[0].field("text"@) is Some);
    }
}

/// All functions stand in one entry, in their order, each with its name, its description
/// and its parameters; the choice of one is told by a mode, and by its name where one is
/// wanted.
pub proof fn tools_tell_what_they_take(request: GenerateRequest, i: int)
    ensures
        ({
            let payload = gemini_payload(request);
            let tools = payload.field("tools"@)->0.items()->0;
            let functions = tools[0].field("function_declarations"@)->0.items()->0;
            &&& request.tools@.len() > 0 ==> functions.len() == request.tools@.len()
            &&& 0 <= i < request.tools@.len() ==> {
                &&& functions[i].field_text("name"@) == Some(request.tools@[i].name@)
                &&& functions[i].field("description"@) == text_view(request.tools@[i].description)
                &&& functions[i].field("parameters"@) == opt_json(request.tools@[i].parameters)
            }
            &&& request.tools@.len() == 0 && request.config.built_in_tools@.len() == 0
                ==> payload.field("tools"@) is None
            &&& request.tool_choice is None ==> payload.field("tool_config"@) is None
        }),
        ({
            let how = gemini_payload(request).field("tool_config"@)->0.field(
                "function_calling_config"@,
            )->0;
            &&& request.tool_choice matches Some(ToolChoice::Auto) ==> how.field_text("mode"@)
                == Some("AUTO"@) && how.field("allowed_function_names"@) is None
            &&& request.tool_choice matches Some(ToolChoice::NoTools) ==> how.field_text("mode"@)
                == Some("NONE"@) && how.field("allowed_function_names"@) is None
            &&& request.tool_choice matches Some(ToolChoice::Required) ==> how.field_text("mode"@)
                == Some("ANY"@) && how.field("allowed_function_names"@) is None
            &&& request.tool_choice matches Some(ToolChoice::Tool { name }) ==> how.field_text(
                "mode"@,
            ) == Some("ANY"@) && how.field("allowed_function_names"@)->0.items() == Some(
                seq![JsonView::String(name@)],
            )
        }),
        built_in_spec(BuiltInTool::WebSearch)->0.field("google_search"@) == Some(
            JsonView::Object(Seq::empty()),
        ),
        built_in_spec(BuiltInTool::CodeInterpreter) is None && built_in_spec(
            BuiltInTool::FileSearch,
        ) is None && built_in_spec(BuiltInTool::WebFetch) is None,
{
    payload_fields(request);
    broadcast use crate::json::group_fields;

    reveal_strlit("function_declarations");
    reveal_strlit("name");
    reveal_strlit("description");
    reveal_strlit("parameters");
    reveal_strlit("function_calling_config");
    reveal_strlit("mode");
    reveal_strlit("allowed_function_names");
    reveal_strlit("google_search");
    assert("function_declarations"@.len() == 21
        && "name"@.len() == 4
        && "description"@.len() == 11
        && "parameters"@.len() == 10
        && "function_calling_config"@.len() == 23
        && "mode"@.len() == 4
        && "allowed_function_names"@.len() == 22
        && "google_search"@.len() == 13
        && "name"@[0] == 'n'
        && "mode"@[0] == 'm');
    if request.tools@.len() > 0 {
        assert(function_tools(request.tools@)[0].field("function_declarations"@) is Some);
        if 0 <= i < request.tools@.len() {
            assert(function_declarations(request.tools@)[i] == function_declaration(
                request.tools@[i],
            ));
        }
    }
    if request.tool_choice is Some {
        assert(tool_config(request.tool_choice)->0.field("function_calling_config"@) is Some);
    }
}

/// What is cached is what is not blank, in its order and without the white space around
/// it, for the model under the name that the cache has for it; it is kept for so many
/// seconds.
pub proof fn caches_hold_what_is_not_blank(
    model: Seq<char>,
    system: Option<Seq<char>>,
    contents: Seq<Seq<char>>,
    text: Seq<char>,
    ttl: Option<u32>,
)
    ensures
        trimmed(text).len() > 0 ==> flattened(cached_texts(contents.push(text))) == flattened(
            cached_texts(contents),
        ).push(text_content(Some("user"@), trimmed(text))),
        trimmed(text).len() == 0 ==> flattened(cached_texts(contents.push(text))) == flattened(
            cached_texts(contents),
        ),
        cached_model("models/"@ + model) == "models/"@ + model,
        !begins_with(model, "models/"@) ==> cached_model(model) == "models/"@ + model,
        ({
            let payload = cached_content_payload(model, system, contents, ttl);
            &&& payload.field_text("model"@) == Some(cached_model(model))
            &&& payload.field("contents"@)->0.items() == Some(flattened(cached_texts(contents)))
            &&& ttl matches Some(n) ==> payload.field_text("ttl"@) == Some(
                decimal(n as nat) + "s"@,
            )
            &&& ttl is None ==> payload.field("ttl"@) is None
            &&& system is None ==> payload.field("systemInstruction"@) is None
        }),
        cached_content_request(model, system, contents, ttl) is Ok ==> contents.len() > 0
            && flattened(cached_texts(contents)).len() > 0,
{
    assert(cached_texts(contents.push(text)).drop_last() =~= cached_texts(contents));
    crate::text::prefix_and_rest(model, "models/"@, model);
    broadcast use crate::json::group_fields;

    reveal_strlit("model");
    reveal_strlit("systemInstruction");
    reveal_strlit("contents");
    reveal_strlit("ttl");
    assert("model"@.len() == 5
        && "systemInstruction"@.len() == 17
        && "contents"@.len() == 8
        && "ttl"@.len() == 3);
}

/// A place is below the base of the service, under the version, with the key at the end.
pub proof fn places_carry_the_key(provider: GoogleProvider, path: Seq<char>, sep: Seq<char>)
    ensures
        provider.place(path, sep) == without_trailing(provider.config.base_url@, '/') + "/"@
            + provider.config.version@ + "/"@ + path + sep + "key="@ + provider.config.api_key@,
{
}

} // verus!
