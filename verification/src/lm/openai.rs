//! OpenAI's responses: requests.
use vstd::prelude::*;
use vstd::string::*;

use super::bedrock::calls_of;
use super::bedrock_response::or_empty;
use super::http::RetryConfig;
use super::interface::{
    BuiltInTool, GenerateRequest, Message, MessageRole, Modality, ReasoningEffort, ResponseFormat,
    ToolCall, ToolChoice, ToolDefinition,
};
use super::openai_common::{is_reasoning_model, reasons};
use super::openrouter::pair_if;
use super::settings::{
    keep_not_blank, missing, not_blank, overridden, override_seconds, override_text, required,
    seconds_or,
};
use crate::duration::{seconds, Duration};
use crate::error::{bad_setting, setting_error, ErrorView, SdkError};
use crate::json::{
    bool_json, bool_view, field_if, field_views, json_views, no_fields, no_items, number_json,
    number_view, opt_count_view, opt_json, put, put_item, put_opt, put_text, text_json, text_view,
    Json, JsonNumber, JsonView,
};
use crate::seqs::{flattened, flattened_next, prefix_next, whole_prefix};
use crate::text::{
    concat2, concat3, concat5, opt_text, pair_views, parted, push_pair, split_once, str_eq, texts,
    trim, trim_end_matches, trim_start_matches, trimmed, without_leading, without_trailing,
};

verus! {

/// What is wrong with a request, if anything is.
pub open spec fn request_fault(request: GenerateRequest) -> Option<ErrorView> {
    if request.system_prompt is None && request.messages@.len() == 0 {
        Some(
            ErrorView::Configuration {
                message:
                    "at least a system prompt or one message is required for OpenAI Responses requests"@,
                field: None,
            },
        )
    } else {
        None
    }
}

/// Checks a request before anything is made of it.
pub fn validate_request(request: &GenerateRequest) -> (r: Result<(), SdkError>)
    ensures
        match r {
            Ok(_) => request_fault(*request) is None,
            Err(e) => request_fault(*request) == Some(e@),
        },
{
    if request.system_prompt.is_none() && request.messages.len() == 0 {
        return Err(
            SdkError::Configuration {
                message:
                    "at least a system prompt or one message is required for OpenAI Responses requests".to_owned(),
                field: None,
            },
        );
    }
    Ok(())
}

/// The model that a model id names: `<prefix>/<model>` where a prefix is asked for,
/// `<model>` otherwise.
pub open spec fn model_name(model: Seq<char>, prefix: Option<Seq<char>>) -> Result<
    Seq<char>,
    ErrorView,
> {
    if trimmed(model).len() == 0 {
        Err(bad_setting("model id must not be empty for OpenAI Responses requests"@, "model"@))
    } else {
        match prefix {
            None => Ok(trimmed(model)),
            Some(prefix) => match parted(trimmed(model), "/"@) {
                None => Err(
                    bad_setting("model should be prefixed with `"@ + prefix + "/`"@, "model"@),
                ),
                Some((provider, rest)) => if provider != prefix {
                    Err(
                        bad_setting(
                            "expected model prefix `"@ + prefix + "/`, got `"@ + provider + "`"@,
                            "model"@,
                        ),
                    )
                } else if trimmed(rest).len() == 0 {
                    Err(
                        bad_setting("model id must follow `"@ + prefix + "/` prefix"@, "model"@),
                    )
                } else {
                    Ok(trimmed(rest))
                },
            },
        }
    }
}

/// The model that a model id names.
pub fn normalize_model(model: &str, model_prefix: &Option<String>) -> (r: Result<String, SdkError>)
    ensures
        match r {
            Ok(name) => model_name(model@, opt_text(*model_prefix)) == Ok::<Seq<char>, ErrorView>(
                name@,
            ),
            Err(e) => model_name(model@, opt_text(*model_prefix)) == Err::<Seq<char>, ErrorView>(
                e@,
            ),
        },
{
    let id = trim(model);
    if id.as_str().is_empty() {
        return Err(
            setting_error(
                "model id must not be empty for OpenAI Responses requests".to_owned(),
                "model",
            ),
        );
    }
    let prefix = match model_prefix {
        Some(prefix) => prefix.as_str(),
        None => {
            return Ok(id);
        },
    };
    match split_once(id.as_str(), "/") {
        Some((provider, rest)) => {
            let rest = trim(rest.as_str());
            if !str_eq(provider.as_str(), prefix) {
                return Err(
                    setting_error(
                        concat5(
                            "expected model prefix `",
                            prefix,
                            "/`, got `",
                            provider.as_str(),
                            "`",
                        ),
                        "model",
                    ),
                );
            }
            if rest.as_str().is_empty() {
                return Err(
                    setting_error(
                        concat3("model id must follow `", prefix, "/` prefix"),
                        "model",
                    ),
                );
            }
            Ok(rest)
        },
        None => Err(
            setting_error(concat3("model should be prefixed with `", prefix, "/`"), "model"),
        ),
    }
}

/// What is put in: a text, or the items of a conversation.
#[derive(Clone, Debug)]
pub enum InputType {
    Simple(String),
    Items(Vec<InputItem>),
}

/// An item of a conversation.
#[derive(Clone, Debug)]
pub enum InputItem {
    Message(ApiMessage),
    FunctionCall { call_id: String, name: String, arguments: String },
    FunctionCallOutput { call_id: String, output: String },
}

/// A message.
#[derive(Clone, Debug)]
pub struct ApiMessage {
    pub role: String,
    pub content: Option<String>,
}

/// How much a model is to reason.
#[derive(Clone, Debug)]
pub struct ReasoningConfig {
    pub effort: Option<String>,
    pub summary: Option<bool>,
}

/// A function that the model may call.
#[derive(Clone, Debug)]
pub struct ApiTool {
    pub tool_type: String,
    pub name: String,
    pub description: Option<String>,
    pub parameters: Json,
    pub strict: Option<bool>,
}

/// A tool that OpenAI runs itself.
#[derive(Clone, Debug)]
pub struct ApiBuiltInTool {
    pub tool_type: String,
}

/// A request.
#[derive(Clone, Debug)]
pub struct ResponsesApiRequest {
    pub model: String,
    pub input: InputType,
    pub instructions: Option<String>,
    pub previous_response_id: Option<String>,
    pub store: Option<bool>,
    pub stream: Option<bool>,
    pub temperature: Option<JsonNumber>,
    pub top_p: Option<JsonNumber>,
    pub max_output_tokens: Option<u32>,
    pub tools: Option<Vec<Json>>,
    pub tool_choice: Option<Json>,
    pub modalities: Option<Vec<String>>,
    pub reasoning: Option<ReasoningConfig>,
    pub text: Option<Json>,
}

/// What an `InputItem` says.
pub enum ItemView {
    Message { role: Seq<char>, content: Option<Seq<char>> },
    FunctionCall { call_id: Seq<char>, name: Seq<char>, arguments: Seq<char> },
    FunctionCallOutput { call_id: Seq<char>, output: Seq<char> },
}

impl View for InputItem {
    type V = ItemView;

    open spec fn view(&self) -> ItemView {
        match self {
            InputItem::Message(message) => ItemView::Message {
                role: message.role@,
                content: opt_text(message.content),
            },
            InputItem::FunctionCall { call_id, name, arguments } => ItemView::FunctionCall {
                call_id: call_id@,
                name: name@,
                arguments: arguments@,
            },
            InputItem::FunctionCallOutput { call_id, output } => ItemView::FunctionCallOutput {
                call_id: call_id@,
                output: output@,
            },
        }
    }
}

/// What items say.
pub open spec fn item_views(items: Seq<InputItem>) -> Seq<ItemView> {
    Seq::new(items.len(), |i: int| items[i]@)
}

/// What an `InputType` says.
pub enum InputView {
    Simple(Seq<char>),
    Items(Seq<ItemView>),
}

impl View for InputType {
    type V = InputView;

    open spec fn view(&self) -> InputView {
        match self {
            InputType::Simple(text) => InputView::Simple(text@),
            InputType::Items(items) => InputView::Items(item_views(items@)),
        }
    }
}

/// The items that a message makes: what a call gave, what the model said with the
/// calls it made, or a plain text.
pub open spec fn message_items(message: Message) -> Seq<ItemView> {
    match (message.tool_call_id, message.tool_calls) {
        (Some(id), _) => seq![
            ItemView::FunctionCallOutput { call_id: id@, output: message.content@ },
        ],
        (None, Some(_)) => (if message.content@.len() == 0 {
            Seq::empty()
        } else {
            seq![ItemView::Message { role: "assistant"@, content: Some(message.content@) }]
        }) + call_items(calls_of(message)),
        (None, None) => seq![
            ItemView::Message { role: message.role.name(), content: Some(message.content@) },
        ],
    }
}

/// The items that calls make.
pub open spec fn call_items(calls: Seq<ToolCall>) -> Seq<ItemView> {
    Seq::new(
        calls.len(),
        |i: int|
            ItemView::FunctionCall {
                call_id: calls[i].id@,
                name: calls[i].name@,
                arguments: calls[i].arguments@,
            },
    )
}

/// The items that a conversation makes.
pub open spec fn conversation_items(messages: Seq<Message>) -> Seq<ItemView>
    decreases messages.len(),
{
    if messages.len() == 0 {
        Seq::empty()
    } else {
        conversation_items(messages.drop_last()) + message_items(messages.last())
    }
}

fn push_item(items: &mut Vec<InputItem>, item: InputItem)
    ensures
        item_views(final(items)@) == item_views(old(items)@).push(item@),
{
    let ghost before = item_views(items@);
    items.push(item);
    assert(item_views(items@) =~= before.push(item@));
}

/// Adds the items that a message makes.
pub fn message_to_input_items(message: &Message, items: &mut Vec<InputItem>)
    ensures
        item_views(final(items)@) == item_views(old(items)@) + message_items(*message),
{
    let ghost before = item_views(items@);
    if let Some(id) = &message.tool_call_id {
        push_item(
            items,
            InputItem::FunctionCallOutput { call_id: id.clone(), output: message.content.clone() },
        );
        assert(item_views(items@) =~= before + message_items(*message));
        return;
    }
    if let Some(calls) = &message.tool_calls {
        if !message.content.as_str().is_empty() {
            push_item(
                items,
                InputItem::Message(
                    ApiMessage {
                        role: "assistant".to_owned(),
                        content: Some(message.content.clone()),
                    },
                ),
            );
        }
        let ghost first = item_views(items@);
        let ghost all = call_items(calls@);
        let mut i: usize = 0;
        proof {
            whole_prefix(all);
            assert(first + all.subrange(0, 0) =~= first);
        }
        while i < calls.len()
            invariant
                i <= calls@.len(),
                all == call_items(calls@),
                item_views(items@) == first + all.subrange(0, i as int),
            decreases calls@.len() - i,
        {
            let call = &calls[i];
            push_item(
                items,
                InputItem::FunctionCall {
                    call_id: call.id.clone(),
                    name: call.name.clone(),
                    arguments: call.arguments.clone(),
                },
            );
            proof {
                prefix_next(all, i as int);
                assert(item_views(items@) =~= first + all.subrange(0, i + 1));
            }
            i = i + 1;
        }
        proof {
            whole_prefix(all);
            assert(item_views(items@) =~= before + message_items(*message));
        }
        return;
    }
    push_item(
        items,
        InputItem::Message(
            ApiMessage {
                role: message.role.as_str().to_owned(),
                content: Some(message.content.clone()),
            },
        ),
    );
    assert(item_views(items@) =~= before + message_items(*message));
}

/// What a request puts in: the system prompt where there is no conversation.
pub open spec fn input_for(request: GenerateRequest) -> InputView {
    if request.messages@.len() == 0 {
        InputView::Simple(or_empty(opt_text(request.system_prompt)))
    } else {
        InputView::Items(conversation_items(request.messages@))
    }
}

fn input_of(request: &GenerateRequest) -> (r: InputType)
    ensures
        r@ == input_for(*request),
{
    if request.messages.len() == 0 {
        return InputType::Simple(
            match &request.system_prompt {
                Some(prompt) => prompt.clone(),
                None => String::new(),
            },
        );
    }
    let mut items: Vec<InputItem> = Vec::new();
    let ghost all = request.messages@;
    let mut i: usize = 0;
    proof {
        whole_prefix(all);
        assert(item_views(items@) =~= Seq::empty());
    }
    while i < request.messages.len()
        invariant
            i <= request.messages@.len(),
            all == request.messages@,
            item_views(items@) == conversation_items(all.subrange(0, i as int)),
        decreases request.messages@.len() - i,
    {
        proof {
            prefix_next(all, i as int);
        }
        message_to_input_items(&request.messages[i], &mut items);
        i = i + 1;
    }
    proof {
        whole_prefix(all);
    }
    InputType::Items(items)
}

/// A function that the model may call, as a document.
pub open spec fn function_tool(tool: ToolDefinition) -> JsonView {
    JsonView::Object(
        seq![
            ("type"@, JsonView::String("function"@)),
            ("name"@, JsonView::String(tool.name@)),
        ] + field_if("description"@, text_view(tool.description)) + seq![
            (
                "parameters"@,
                match tool.parameters {
                    Some(parameters) => parameters@,
                    None => JsonView::Object(Seq::empty()),
                },
            ),
        ] + field_if("strict"@, bool_view(tool.strict)),
    )
}

impl ApiTool {
    pub open spec fn document(self) -> JsonView {
        JsonView::Object(
            seq![
                ("type"@, JsonView::String(self.tool_type@)),
                ("name"@, JsonView::String(self.name@)),
            ] + field_if("description"@, text_view(self.description)) + seq![
                ("parameters"@, self.parameters@),
            ] + field_if("strict"@, bool_view(self.strict)),
        )
    }

    fn to_json(&self) -> (r: Json)
        ensures
            r@ == self.document(),
    {
        let mut fields = no_fields();
        put_text(&mut fields, "type", self.tool_type.as_str());
        put_text(&mut fields, "name", self.name.as_str());
        put_opt(&mut fields, "description", text_json(&self.description));
        put(&mut fields, "parameters", self.parameters.duplicate());
        put_opt(&mut fields, "strict", bool_json(self.strict));
        assert(field_views(fields@) =~= self.document()->Object_0);
        Json::object(fields)
    }
}

fn api_tool_of(tool: &ToolDefinition) -> (r: ApiTool)
    ensures
        r.document() == function_tool(*tool),
{
    ApiTool {
        tool_type: "function".to_owned(),
        name: tool.name.clone(),
        description: match &tool.description {
            Some(description) => Some(description.clone()),
            None => None,
        },
        parameters: match &tool.parameters {
            Some(parameters) => parameters.duplicate(),
            None => Json::object(no_fields()),
        },
        strict: tool.strict,
    }
}

/// The name of a tool that OpenAI runs itself.
pub open spec fn built_in_name(tool: BuiltInTool) -> Option<Seq<char>> {
    match tool {
        BuiltInTool::WebSearch => Some("web_search_preview"@),
        BuiltInTool::CodeInterpreter => Some("code_interpreter"@),
        BuiltInTool::FileSearch => Some("file_search"@),
        BuiltInTool::WebFetch => None,
    }
}

/// A tool that OpenAI runs itself, as a document.
pub open spec fn built_in_tool(tool: BuiltInTool) -> Option<JsonView> {
    match built_in_name(tool) {
        Some(name) => Some(JsonView::Object(seq![("type"@, JsonView::String(name))])),
        None => None,
    }
}

fn built_in_of(tool: BuiltInTool) -> (r: Option<ApiBuiltInTool>)
    ensures
        match r {
            Some(t) => built_in_name(tool) == Some(t.tool_type@),
            None => built_in_name(tool) is None,
        },
{
    let name = match tool {
        BuiltInTool::WebSearch => "web_search_preview",
        BuiltInTool::CodeInterpreter => "code_interpreter",
        BuiltInTool::FileSearch => "file_search",
        BuiltInTool::WebFetch => {
            return None;
        },
    };
    Some(ApiBuiltInTool { tool_type: name.to_owned() })
}

impl ApiBuiltInTool {
    fn to_json(&self) -> (r: Json)
        ensures
            r@ == JsonView::Object(seq![("type"@, JsonView::String(self.tool_type@))]),
    {
        let mut fields = no_fields();
        put_text(&mut fields, "type", self.tool_type.as_str());
        assert(field_views(fields@) =~= seq![("type"@, JsonView::String(self.tool_type@))]);
        Json::object(fields)
    }
}

/// The functions that the model may call.
pub open spec fn function_tools(tools: Seq<ToolDefinition>) -> Seq<JsonView> {
    Seq::new(tools.len(), |i: int| function_tool(tools[i]))
}

/// The tools that OpenAI runs itself.
pub open spec fn built_in_tools(tools: Seq<BuiltInTool>) -> Seq<Option<JsonView>> {
    Seq::new(tools.len(), |i: int| built_in_tool(tools[i]))
}

/// All tools of a request.
pub open spec fn tools_for(request: GenerateRequest) -> Seq<JsonView> {
    function_tools(request.tools@) + flattened(built_in_tools(request.config.built_in_tools@))
}

fn tools_of(request: &GenerateRequest) -> (r: Vec<Json>)
    ensures
        json_views(r@) == tools_for(*request),
{
    let mut out = no_items();
    let ghost own = function_tools(request.tools@);
    let mut i: usize = 0;
    proof {
        whole_prefix(own);
    }
    while i < request.tools.len()
        invariant
            i <= request.tools@.len(),
            own == function_tools(request.tools@),
            json_views(out@) == own.subrange(0, i as int),
        decreases request.tools@.len() - i,
    {
        let tool = api_tool_of(&request.tools[i]);
        put_item(&mut out, tool.to_json());
        proof {
            prefix_next(own, i as int);
        }
        i = i + 1;
    }
    let ghost all = built_in_tools(request.config.built_in_tools@);
    let mut j: usize = 0;
    proof {
        whole_prefix(own);
        whole_prefix(all);
        assert(own + flattened(all.subrange(0, 0)) =~= own);
    }
    while j < request.config.built_in_tools.len()
        invariant
            j <= request.config.built_in_tools@.len(),
            all == built_in_tools(request.config.built_in_tools@),
            json_views(out@) == own + flattened(all.subrange(0, j as int)),
        decreases request.config.built_in_tools@.len() - j,
    {
        proof {
            flattened_next(all, j as int);
        }
        if let Some(tool) = built_in_of(request.config.built_in_tools[j]) {
            put_item(&mut out, tool.to_json());
            assert(json_views(out@) =~= own + flattened(all.subrange(0, j + 1)));
        }
        j = j + 1;
    }
    proof {
        whole_prefix(all);
    }
    out
}

/// The choice of a tool.
pub open spec fn tool_choice_for(choice: Option<ToolChoice>) -> Option<JsonView> {
    match choice {
        None => None,
        Some(ToolChoice::Auto) => Some(JsonView::String("auto"@)),
        Some(ToolChoice::NoTools) => Some(JsonView::String("none"@)),
        Some(ToolChoice::Required) => Some(JsonView::String("required"@)),
        Some(ToolChoice::Tool { name }) => Some(
            JsonView::Object(
                seq![("type"@, JsonView::String("function"@)), ("name"@, JsonView::String(name@))],
            ),
        ),
    }
}

fn tool_choice_of(choice: &Option<ToolChoice>) -> (r: Option<Json>)
    ensures
        opt_json(r) == tool_choice_for(*choice),
{
    match choice {
        None => None,
        Some(ToolChoice::Auto) => Some(Json::text("auto")),
        Some(ToolChoice::NoTools) => Some(Json::text("none")),
        Some(ToolChoice::Required) => Some(Json::text("required")),
        Some(ToolChoice::Tool { name }) => {
            let mut fields = no_fields();
            put_text(&mut fields, "type", "function");
            put_text(&mut fields, "name", name.as_str());
            assert(field_views(fields@) =~= tool_choice_for(*choice)->0->Object_0);
            Some(Json::object(fields))
        },
    }
}

/// The name of a form in which a model may reply.
pub open spec fn modality_name(m: Modality) -> Seq<char> {
    match m {
        Modality::Text => "text"@,
        Modality::Audio => "audio"@,
        Modality::Image => "image"@,
    }
}

/// The names of the forms in which a model may reply.
pub open spec fn modality_names(mods: Seq<Modality>) -> Seq<Seq<char>> {
    Seq::new(mods.len(), |i: int| modality_name(mods[i]))
}

/// The texts of an optional list.
pub open spec fn opt_texts(list: Option<Vec<String>>) -> Option<Seq<Seq<char>>> {
    match list {
        Some(list) => Some(texts(list@)),
        None => None,
    }
}

/// The names of the forms in which a request lets a model reply.
pub open spec fn modalities_for(mods: Option<Vec<Modality>>) -> Option<Seq<Seq<char>>> {
    match mods {
        Some(mods) => Some(modality_names(mods@)),
        None => None,
    }
}

fn modalities_of(mods: &Option<Vec<Modality>>) -> (r: Option<Vec<String>>)
    ensures
        opt_texts(r) == modalities_for(*mods),
{
    match mods {
        Some(mods) => {
            let mut out: Vec<String> = Vec::new();
            let mut i: usize = 0;
            while i < mods.len()
                invariant
                    i <= mods@.len(),
                    out@.len() == i,
                    forall|j: int| 0 <= j < i ==> (#[trigger] out@[j])@ == modality_name(mods@[j]),
                decreases mods@.len() - i,
            {
                let name = match mods[i] {
                    Modality::Text => "text",
                    Modality::Audio => "audio",
                    Modality::Image => "image",
                };
                out.push(name.to_owned());
                i = i + 1;
            }
            assert(texts(out@) =~= modality_names(mods@));
            Some(out)
        },
        None => None,
    }
}

/// The name of an effort.
pub open spec fn effort_name(effort: ReasoningEffort) -> Seq<char> {
    match effort {
        ReasoningEffort::Minimal => "minimal"@,
        ReasoningEffort::Medium => "medium"@,
        ReasoningEffort::High => "high"@,
    }
}

/// The form of the reply.
pub open spec fn text_format(format: ResponseFormat) -> Option<JsonView> {
    match format {
        ResponseFormat::Text => None,
        ResponseFormat::Json => Some(
            JsonView::Object(
                seq![
                    (
                        "format"@,
                        JsonView::Object(seq![("type"@, JsonView::String("json_object"@))]),
                    ),
                ],
            ),
        ),
        ResponseFormat::JsonSchema(schema) => Some(
            JsonView::Object(
                seq![
                    (
                        "format"@,
                        JsonView::Object(
                            seq![
                                ("type"@, JsonView::String("json_schema"@)),
                                ("name"@, JsonView::String(schema.name@)),
                                ("schema"@, schema.schema@),
                                ("strict"@, JsonView::Bool(schema.strict)),
                            ],
                        ),
                    ),
                ],
            ),
        ),
    }
}

fn text_format_of(format: &ResponseFormat) -> (r: Option<Json>)
    ensures
        opt_json(r) == text_format(*format),
{
    let mut inner = no_fields();
    match format {
        ResponseFormat::Text => {
            return None;
        },
        ResponseFormat::Json => {
            put_text(&mut inner, "type", "json_object");
        },
        ResponseFormat::JsonSchema(schema) => {
            put_text(&mut inner, "type", "json_schema");
            put_text(&mut inner, "name", schema.name.as_str());
            put(&mut inner, "schema", schema.schema.duplicate());
            put(&mut inner, "strict", Json::Bool(schema.strict));
        },
    }
    let ghost inner_view = field_views(inner@);
    let mut fields = no_fields();
    put(&mut fields, "format", Json::object(inner));
    proof {
        let wanted = text_format(*format)->0->Object_0;
        assert(inner_view =~= wanted[0].1->Object_0);
        assert(field_views(fields@) =~= wanted);
    }
    Some(Json::object(fields))
}

/// A sampling parameter, which a model that reasons does not take.
pub open spec fn sampling(model: Seq<char>, n: Option<JsonNumber>) -> Option<JsonView> {
    if reasons(model) {
        None
    } else {
        number_view(n)
    }
}

/// The documents of an optional list.
pub open spec fn opt_items(items: Option<Vec<Json>>) -> Option<Seq<JsonView>> {
    match items {
        Some(items) => Some(json_views(items@)),
        None => None,
    }
}

/// A list, unless it is empty.
pub open spec fn some_items(items: Seq<JsonView>) -> Option<Seq<JsonView>> {
    if items.len() == 0 {
        None
    } else {
        Some(items)
    }
}

impl ResponsesApiRequest {
    /// Whether this is what a request to a model comes to. Replies to requests with
    /// tools, and those that continue another, are kept.
    pub open spec fn stands_for(self, request: GenerateRequest, model: Seq<char>) -> bool {
        &&& self.model@ == model
        &&& self.input@ == input_for(request)
        &&& opt_text(self.instructions) == opt_text(request.system_prompt)
        &&& opt_text(self.previous_response_id) == opt_text(request.previous_response_id)
        &&& self.store == Some(request.tools@.len() > 0 || request.previous_response_id is Some)
        &&& self.stream is None
        &&& number_view(self.temperature) == sampling(model, request.config.temperature)
        &&& number_view(self.top_p) == sampling(model, request.config.top_p)
        &&& self.max_output_tokens == request.config.max_output_tokens
        &&& opt_items(self.tools) == some_items(tools_for(request))
        &&& opt_json(self.tool_choice) == tool_choice_for(request.tool_choice)
        &&& opt_texts(self.modalities) == modalities_for(request.config.modalities)
        &&& match (self.reasoning, request.config.reasoning_effort) {
            (Some(reasoning), Some(effort)) => opt_text(reasoning.effort) == Some(
                effort_name(effort),
            ) && reasoning.summary is None,
            (None, None) => true,
            _ => false,
        }
        &&& opt_json(self.text) == text_format(request.config.response_format)
    }

    /// What a request to a model comes to.
    pub fn from_request(request: &GenerateRequest, model: &str) -> (r: Self)
        ensures
            r.stands_for(*request, model@),
    {
        let plain = is_reasoning_model(model);
        let temperature = match &request.config.temperature {
            Some(n) if !plain => Some(n.duplicate()),
            _ => None,
        };
        let top_p = match &request.config.top_p {
            Some(n) if !plain => Some(n.duplicate()),
            _ => None,
        };
        let tools = tools_of(request);
        assert(json_views(tools@).len() == tools@.len());
        let reasoning = match request.config.reasoning_effort {
            Some(effort) => {
                let name = match effort {
                    ReasoningEffort::Minimal => "minimal",
                    ReasoningEffort::Medium => "medium",
                    ReasoningEffort::High => "high",
                };
                Some(ReasoningConfig { effort: Some(name.to_owned()), summary: None })
            },
            None => None,
        };
        ResponsesApiRequest {
            model: model.to_owned(),
            input: input_of(request),
            instructions: match &request.system_prompt {
                Some(prompt) => Some(prompt.clone()),
                None => None,
            },
            previous_response_id: match &request.previous_response_id {
                Some(id) => Some(id.clone()),
                None => None,
            },
            store: Some(request.tools.len() > 0 || request.previous_response_id.is_some()),
            stream: None,
            temperature,
            top_p,
            max_output_tokens: request.config.max_output_tokens,
            tools: if tools.len() == 0 {
                None
            } else {
                Some(tools)
            },
            tool_choice: tool_choice_of(&request.tool_choice),
            modalities: modalities_of(&request.config.modalities),
            reasoning,
            text: text_format_of(&request.config.response_format),
        }
    }
}

/// An optional text as a document.
pub open spec fn seq_view(s: Option<Seq<char>>) -> Option<JsonView> {
    match s {
        Some(s) => Some(JsonView::String(s)),
        None => None,
    }
}

impl ItemView {
    /// The item as a document.
    pub open spec fn document(self) -> JsonView {
        match self {
            ItemView::Message { role, content } => JsonView::Object(
                seq![("type"@, JsonView::String("message"@)), ("role"@, JsonView::String(role))]
                    + field_if("content"@, seq_view(content)),
            ),
            ItemView::FunctionCall { call_id, name, arguments } => JsonView::Object(
                seq![
                    ("type"@, JsonView::String("function_call"@)),
                    ("call_id"@, JsonView::String(call_id)),
                    ("name"@, JsonView::String(name)),
                    ("arguments"@, JsonView::String(arguments)),
                ],
            ),
            ItemView::FunctionCallOutput { call_id, output } => JsonView::Object(
                seq![
                    ("type"@, JsonView::String("function_call_output"@)),
                    ("call_id"@, JsonView::String(call_id)),
                    ("output"@, JsonView::String(output)),
                ],
            ),
        }
    }
}

/// Items as documents.
pub open spec fn item_documents(items: Seq<ItemView>) -> Seq<JsonView> {
    Seq::new(items.len(), |i: int| items[i].document())
}

impl InputItem {
    fn to_json(&self) -> (r: Json)
        ensures
            r@ == self@.document(),
    {
        let mut fields = no_fields();
        match self {
            InputItem::Message(message) => {
                put_text(&mut fields, "type", "message");
                put_text(&mut fields, "role", message.role.as_str());
                put_opt(&mut fields, "content", text_json(&message.content));
            },
            InputItem::FunctionCall { call_id, name, arguments } => {
                put_text(&mut fields, "type", "function_call");
                put_text(&mut fields, "call_id", call_id.as_str());
                put_text(&mut fields, "name", name.as_str());
                put_text(&mut fields, "arguments", arguments.as_str());
            },
            InputItem::FunctionCallOutput { call_id, output } => {
                put_text(&mut fields, "type", "function_call_output");
                put_text(&mut fields, "call_id", call_id.as_str());
                put_text(&mut fields, "output", output.as_str());
            },
        }
        assert(field_views(fields@) =~= self@.document()->Object_0);
        Json::object(fields)
    }
}

impl InputView {
    /// What is put in, as a document.
    pub open spec fn document(self) -> JsonView {
        match self {
            InputView::Simple(text) => JsonView::String(text),
            InputView::Items(items) => JsonView::Array(item_documents(items)),
        }
    }
}

impl InputType {
    fn to_json(&self) -> (r: Json)
        ensures
            r@ == self@.document(),
    {
        match self {
            InputType::Simple(text) => Json::String(text.clone()),
            InputType::Items(items) => {
                let mut out = no_items();
                let ghost all = item_documents(item_views(items@));
                let mut i: usize = 0;
                proof {
                    whole_prefix(all);
                }
                while i < items.len()
                    invariant
                        i <= items@.len(),
                        all == item_documents(item_views(items@)),
                        json_views(out@) == all.subrange(0, i as int),
                    decreases items@.len() - i,
                {
                    put_item(&mut out, items[i].to_json());
                    proof {
                        prefix_next(all, i as int);
                    }
                    i = i + 1;
                }
                proof {
                    whole_prefix(all);
                }
                Json::array(out)
            },
        }
    }
}

/// An optional list as a document.
pub open spec fn list_view(items: Option<Seq<JsonView>>) -> Option<JsonView> {
    match items {
        Some(items) => Some(JsonView::Array(items)),
        None => None,
    }
}

/// Texts as documents.
pub open spec fn text_documents(list: Seq<Seq<char>>) -> Seq<JsonView> {
    Seq::new(list.len(), |i: int| JsonView::String(list[i]))
}

/// An optional list of texts as a document.
pub open spec fn names_view(list: Option<Seq<Seq<char>>>) -> Option<JsonView> {
    match list {
        Some(list) => Some(JsonView::Array(text_documents(list))),
        None => None,
    }
}

fn names_json(list: &Option<Vec<String>>) -> (r: Option<Json>)
    ensures
        opt_json(r) == names_view(opt_texts(*list)),
{
    match list {
        Some(list) => {
            let mut out = no_items();
            let ghost all = text_documents(texts(list@));
            let mut i: usize = 0;
            proof {
                whole_prefix(all);
            }
            while i < list.len()
                invariant
                    i <= list@.len(),
                    all == text_documents(texts(list@)),
                    json_views(out@) == all.subrange(0, i as int),
                decreases list@.len() - i,
            {
                put_item(&mut out, Json::text(list[i].as_str()));
                proof {
                    prefix_next(all, i as int);
                }
                i = i + 1;
            }
            proof {
                whole_prefix(all);
            }
            Some(Json::array(out))
        },
        None => None,
    }
}

fn items_json(list: &Option<Vec<Json>>) -> (r: Option<Json>)
    ensures
        opt_json(r) == list_view(opt_items(*list)),
{
    match list {
        Some(list) => {
            let mut out = no_items();
            let ghost all = json_views(list@);
            let mut i: usize = 0;
            proof {
                whole_prefix(all);
            }
            while i < list.len()
                invariant
                    i <= list@.len(),
                    all == json_views(list@),
                    json_views(out@) == all.subrange(0, i as int),
                decreases list@.len() - i,
            {
                put_item(&mut out, list[i].duplicate());
                proof {
                    prefix_next(all, i as int);
                }
                i = i + 1;
            }
            proof {
                whole_prefix(all);
            }
            Some(Json::array(out))
        },
        None => None,
    }
}

/// How much a model is to reason, as a document.
pub open spec fn reasoning_view(reasoning: Option<ReasoningConfig>) -> Option<JsonView> {
    match reasoning {
        Some(reasoning) => Some(
            JsonView::Object(
                field_if("effort"@, text_view(reasoning.effort)) + field_if(
                    "summary"@,
                    bool_view(reasoning.summary),
                ),
            ),
        ),
        None => None,
    }
}

fn reasoning_json(reasoning: &Option<ReasoningConfig>) -> (r: Option<Json>)
    ensures
        opt_json(r) == reasoning_view(*reasoning),
{
    match reasoning {
        Some(config) => {
            let mut fields = no_fields();
            put_opt(&mut fields, "effort", text_json(&config.effort));
            put_opt(&mut fields, "summary", bool_json(config.summary));
            assert(field_views(fields@) =~= reasoning_view(*reasoning)->0->Object_0);
            Some(Json::object(fields))
        },
        None => None,
    }
}

fn copy_json(json: &Option<Json>) -> (r: Option<Json>)
    ensures
        opt_json(r) == opt_json(*json),
{
    match json {
        Some(json) => Some(json.duplicate()),
        None => None,
    }
}

impl ResponsesApiRequest {
    /// The request as a document.
    pub open spec fn document(self) -> JsonView {
        JsonView::Object(
            seq![("model"@, JsonView::String(self.model@)), ("input"@, self.input@.document())]
                + field_if("instructions"@, text_view(self.instructions)) + field_if(
                "previous_response_id"@,
                text_view(self.previous_response_id),
            ) + field_if("store"@, bool_view(self.store)) + field_if(
                "stream"@,
                bool_view(self.stream),
            ) + field_if("temperature"@, number_view(self.temperature)) + field_if(
                "top_p"@,
                number_view(self.top_p),
            ) + field_if("max_output_tokens"@, opt_count_view(self.max_output_tokens)) + field_if(
                "tools"@,
                list_view(opt_items(self.tools)),
            ) + field_if("tool_choice"@, opt_json(self.tool_choice)) + field_if(
                "modalities"@,
                names_view(opt_texts(self.modalities)),
            ) + field_if("reasoning"@, reasoning_view(self.reasoning)) + field_if(
                "text"@,
                opt_json(self.text),
            ),
        )
    }

    /// The request as a document.
    pub fn to_json(&self) -> (r: Json)
        ensures
            r@ == self.document(),
    {
        let limit = match self.max_output_tokens {
            Some(n) => Some(Json::whole(n as u64)),
            None => None,
        };
        let mut fields = no_fields();
        put_text(&mut fields, "model", self.model.as_str());
        put(&mut fields, "input", self.input.to_json());
        assert(field_views(fields@) =~= seq![
            ("model"@, JsonView::String(self.model@)),
            ("input"@, self.input@.document()),
        ]);
        put_opt(&mut fields, "instructions", text_json(&self.instructions));
        put_opt(&mut fields, "previous_response_id", text_json(&self.previous_response_id));
        put_opt(&mut fields, "store", bool_json(self.store));
        put_opt(&mut fields, "stream", bool_json(self.stream));
        put_opt(&mut fields, "temperature", number_json(&self.temperature));
        put_opt(&mut fields, "top_p", number_json(&self.top_p));
        put_opt(&mut fields, "max_output_tokens", limit);
        put_opt(&mut fields, "tools", items_json(&self.tools));
        put_opt(&mut fields, "tool_choice", copy_json(&self.tool_choice));
        put_opt(&mut fields, "modalities", names_json(&self.modalities));
        put_opt(&mut fields, "reasoning", reasoning_json(&self.reasoning));
        put_opt(&mut fields, "text", copy_json(&self.text));
        Json::object(fields)
    }
}

/// Where OpenAI's responses are had, and with what key.
#[derive(Clone, Debug)]
pub struct OpenAiConfig {
    pub api_key: String,
    pub base_url: String,
    pub responses_path: String,
    pub organization: Option<String>,
    pub project: Option<String>,
    pub timeout: Duration,
    pub extra_headers: Vec<(String, String)>,
    /// The prefix that model ids must have, if any.
    pub model_prefix: Option<String>,
    pub retry_config: RetryConfig,
}

impl OpenAiConfig {
    pub fn new(api_key: &str, retry_config: RetryConfig) -> (r: Self)
        ensures
            r.api_key@ == api_key@,
            r.base_url@ == "https://api.openai.com/v1"@,
            r.responses_path@ == "responses"@,
            r.organization is None,
            r.project is None,
            r.timeout@ == seconds(600),
            r.extra_headers@.len() == 0,
            opt_text(r.model_prefix) == Some("openai"@),
            r.retry_config == retry_config,
    {
        OpenAiConfig {
            api_key: api_key.to_owned(),
            base_url: "https://api.openai.com/v1".to_owned(),
            responses_path: "responses".to_owned(),
            organization: None,
            project: None,
            timeout: Duration::from_secs(600),
            extra_headers: Vec::new(),
            model_prefix: Some("openai".to_owned()),
            retry_config,
        }
    }

    pub fn with_base_url(self, base_url: &str) -> (r: Self)
        ensures
            r == (OpenAiConfig { base_url: r.base_url, ..self }),
            r.base_url@ == base_url@,
    {
        OpenAiConfig { base_url: base_url.to_owned(), ..self }
    }

    pub fn with_responses_path(self, path: &str) -> (r: Self)
        ensures
            r == (OpenAiConfig { responses_path: r.responses_path, ..self }),
            r.responses_path@ == path@,
    {
        OpenAiConfig { responses_path: path.to_owned(), ..self }
    }

    pub fn with_timeout(self, timeout: Duration) -> (r: Self)
        ensures
            r == (OpenAiConfig { timeout, ..self }),
    {
        OpenAiConfig { timeout, ..self }
    }

    pub fn with_organization(self, organization: &str) -> (r: Self)
        ensures
            r == (OpenAiConfig { organization: r.organization, ..self }),
            opt_text(r.organization) == Some(organization@),
    {
        OpenAiConfig { organization: Some(organization.to_owned()), ..self }
    }

    pub fn with_project(self, project: &str) -> (r: Self)
        ensures
            r == (OpenAiConfig { project: r.project, ..self }),
            opt_text(r.project) == Some(project@),
    {
        OpenAiConfig { project: Some(project.to_owned()), ..self }
    }

    pub fn with_header(self, key: &str, value: &str) -> (r: Self)
        ensures
            r == (OpenAiConfig { extra_headers: r.extra_headers, ..self }),
            pair_views(r.extra_headers@) == pair_views(self.extra_headers@).push((key@, value@)),
    {
        let mut r = self;
        push_pair(&mut r.extra_headers, key, value);
        r
    }

    pub fn with_model_prefix(self, prefix: Option<&str>) -> (r: Self)
        ensures
            r == (OpenAiConfig { model_prefix: r.model_prefix, ..self }),
            opt_text(r.model_prefix) == (match prefix {
                Some(p) => Some(p@),
                None => None,
            }),
    {
        let model_prefix = match prefix {
            Some(p) => Some(p.to_owned()),
            None => None,
        };
        OpenAiConfig { model_prefix, ..self }
    }

    /// The configuration that the environment sets, by the values of
    /// `OPENAI_API_KEY`, `OPENAI_BASE_URL`, `OPENAI_ORGANIZATION`, `OPENAI_PROJECT` and
    /// `OPENAI_REQUEST_TIMEOUT_SECS`.
    pub fn from_env(
        api_key: Option<String>,
        base_url: Option<String>,
        organization: Option<String>,
        project: Option<String>,
        timeout_secs: Option<String>,
        retry_config: RetryConfig,
    ) -> (r: Result<Self, SdkError>)
        ensures
            match r {
                Ok(config) => {
                    &&& api_key is Some && config.api_key@ == api_key->0@
                    &&& config.base_url@ == overridden(
                        "https://api.openai.com/v1"@,
                        opt_text(base_url),
                    )
                    &&& config.responses_path@ == "responses"@
                    &&& opt_text(config.organization) == not_blank(opt_text(organization))
                    &&& opt_text(config.project) == not_blank(opt_text(project))
                    &&& config.timeout@ == seconds(seconds_or(600, opt_text(timeout_secs)))
                    &&& config.extra_headers@.len() == 0
                    &&& opt_text(config.model_prefix) == Some("openai"@)
                    &&& config.retry_config == retry_config
                },
                Err(e) => api_key is None && e@ == missing("OPENAI_API_KEY"@),
            },
    {
        let key = match required(api_key, "OPENAI_API_KEY") {
            Ok(key) => key,
            Err(e) => {
                return Err(e);
            },
        };
        let config = OpenAiConfig::new(key.as_str(), retry_config);
        let base_url = override_text(config.base_url.as_str(), base_url);
        Ok(
            OpenAiConfig {
                base_url,
                organization: keep_not_blank(organization),
                project: keep_not_blank(project),
                timeout: Duration::from_secs(override_seconds(600, timeout_secs)),
                ..config
            },
        )
    }
}

/// OpenAI as a provider of responses.
#[derive(Clone, Debug)]
pub struct OpenAiProvider {
    pub config: OpenAiConfig,
}

impl OpenAiProvider {
    pub fn new(config: OpenAiConfig) -> (r: Self)
        ensures
            r.config == config,
    {
        OpenAiProvider { config }
    }

    /// The model that a model id names.
    pub fn normalize_model(&self, model: &str) -> (r: Result<String, SdkError>)
        ensures
            match r {
                Ok(name) => model_name(model@, opt_text(self.config.model_prefix)) == Ok::<
                    Seq<char>,
                    ErrorView,
                >(name@),
                Err(e) => model_name(model@, opt_text(self.config.model_prefix)) == Err::<
                    Seq<char>,
                    ErrorView,
                >(e@),
            },
    {
        normalize_model(model, &self.config.model_prefix)
    }

    /// Where requests are sent.
    pub fn endpoint(&self) -> (r: String)
        ensures
            r@ == without_trailing(self.config.base_url@, '/') + "/"@ + without_leading(
                self.config.responses_path@,
                '/',
            ),
    {
        let base = trim_end_matches(self.config.base_url.as_str(), '/');
        let path = trim_start_matches(self.config.responses_path.as_str(), '/');
        concat3(base.as_str(), "/", path.as_str())
    }

    /// The headers of a request.
    pub open spec fn sent_headers(self) -> Seq<(Seq<char>, Seq<char>)> {
        seq![
            ("Authorization"@, "Bearer "@ + self.config.api_key@),
            ("Content-Type"@, "application/json"@),
        ] + pair_if("OpenAI-Organization"@, opt_text(self.config.organization)) + pair_if(
            "OpenAI-Project"@,
            opt_text(self.config.project),
        ) + pair_views(self.config.extra_headers@)
    }

    /// The headers of a request.
    pub fn headers(&self) -> (r: Vec<(String, String)>)
        ensures
            pair_views(r@) == self.sent_headers(),
    {
        let mut headers: Vec<(String, String)> = Vec::new();
        let bearer = concat2("Bearer ", self.config.api_key.as_str());
        push_pair(&mut headers, "Authorization", bearer.as_str());
        push_pair(&mut headers, "Content-Type", "application/json");
        if let Some(organization) = &self.config.organization {
            push_pair(&mut headers, "OpenAI-Organization", organization.as_str());
        }
        if let Some(project) = &self.config.project {
            push_pair(&mut headers, "OpenAI-Project", project.as_str());
        }
        let ghost first = pair_views(headers@);
        let ghost all = pair_views(self.config.extra_headers@);
        let mut i: usize = 0;
        proof {
            whole_prefix(all);
            assert(first + all.subrange(0, 0) =~= first);
        }
        while i < self.config.extra_headers.len()
            invariant
                i <= self.config.extra_headers@.len(),
                all == pair_views(self.config.extra_headers@),
                pair_views(headers@) == first + all.subrange(0, i as int),
            decreases self.config.extra_headers@.len() - i,
        {
            push_pair(
                &mut headers,
                self.config.extra_headers[i].0.as_str(),
                self.config.extra_headers[i].1.as_str(),
            );
            proof {
                prefix_next(all, i as int);
                assert(pair_views(headers@) =~= first + all.subrange(0, i + 1));
            }
            i = i + 1;
        }
        proof {
            whole_prefix(all);
            assert(pair_views(headers@) =~= self.sent_headers());
        }
        headers
    }
}

/// A plain message keeps its speaker and its words; what a call gave is told for that
/// call; what the model said with its calls comes first, then each call in its order.
pub proof fn messages_keep_their_speaker(message: Message, i: int)
    ensures
        message.tool_call_id is None && message.tool_calls is None ==> {
            &&& message_items(message).len() == 1
            &&& message.role == MessageRole::User ==> message_items(message)[0]
                == (ItemView::Message { role: "user"@, content: Some(message.content@) })
            &&& message.role == MessageRole::Assistant ==> message_items(message)[0]
                == (ItemView::Message { role: "assistant"@, content: Some(message.content@) })
            &&& message.role == MessageRole::System ==> message_items(message)[0]
                == (ItemView::Message { role: "system"@, content: Some(message.content@) })
        },
        message.tool_call_id matches Some(id) ==> message_items(message) == seq![
            ItemView::FunctionCallOutput { call_id: id@, output: message.content@ },
        ],
        message.tool_call_id is None && message.tool_calls is Some ==> ({
            let calls = message.tool_calls->0@;
            let words: int = if message.content@.len() > 0 {
                1
            } else {
                0
            };
            &&& message_items(message).len() == words + calls.len()
            &&& message.content@.len() > 0 ==> message_items(message)[0] == (ItemView::Message {
                role: "assistant"@,
                content: Some(message.content@),
            })
            &&& 0 <= i < calls.len() ==> message_items(message)[words + i]
                == (ItemView::FunctionCall {
                call_id: calls[i].id@,
                name: calls[i].name@,
                arguments: calls[i].arguments@,
            })
        }),
{
}

/// A conversation is put in message by message, in its order.
pub proof fn conversations_are_told_in_order(messages: Seq<Message>, message: Message)
    ensures
        conversation_items(messages.push(message)) == conversation_items(messages) + message_items(
            message,
        ),
        conversation_items(Seq::empty()).len() == 0,
{
    assert(messages.push(message).drop_last() =~= messages);
}

/// What comes of a request: the conversation goes in, or the system's words where there
/// is none; the system's words instruct; what is set is passed on, but a model that
/// reasons gets no sampling parameters; a reply is kept if there are tools or it continues
/// another.
pub proof fn requests_carry_the_settings(
    built: ResponsesApiRequest,
    request: GenerateRequest,
    model: Seq<char>,
)
    requires
        built.stands_for(request, model),
    ensures
        built.model@ == model,
        request.messages@.len() > 0 ==> built.input@ == InputView::Items(
            conversation_items(request.messages@),
        ),
        request.messages@.len() == 0 ==> (request.system_prompt matches Some(prompt) ==> built.input@
            == InputView::Simple(prompt@)),
        opt_text(built.instructions) == opt_text(request.system_prompt),
        opt_text(built.previous_response_id) == opt_text(request.previous_response_id),
        reasons(model) ==> built.temperature is None && built.top_p is None,
        !reasons(model) ==> number_view(built.temperature) == number_view(
            request.config.temperature,
        ) && number_view(built.top_p) == number_view(request.config.top_p),
        built.max_output_tokens == request.config.max_output_tokens,
        request.tools@.len() > 0 ==> built.store == Some(true),
        request.previous_response_id is Some ==> built.store == Some(true),
        request.tools@.len() == 0 && request.previous_response_id is None ==> built.store == Some(
            false,
        ),
        built.stream is None,
        request.config.reasoning_effort is None ==> built.reasoning is None,
        request.config.reasoning_effort == Some(ReasoningEffort::Minimal) ==> opt_text(
            built.reasoning->0.effort,
        ) == Some("minimal"@),
        request.config.reasoning_effort == Some(ReasoningEffort::Medium) ==> opt_text(
            built.reasoning->0.effort,
        ) == Some("medium"@),
        request.config.reasoning_effort == Some(ReasoningEffort::High) ==> opt_text(
            built.reasoning->0.effort,
        ) == Some("high"@),
        request.tool_choice is None ==> built.tool_choice is None,
{
}

/// The choice of a tool, the form of the reply and the forms in which a model may reply
/// are told by their names.
pub proof fn choices_are_told(
    built: ResponsesApiRequest,
    request: GenerateRequest,
    model: Seq<char>,
    i: int,
)
    requires
        built.stands_for(request, model),
    ensures
        request.tool_choice matches Some(ToolChoice::Auto) ==> opt_json(built.tool_choice) == Some(
            JsonView::String("auto"@),
        ),
        request.tool_choice matches Some(ToolChoice::NoTools) ==> opt_json(built.tool_choice)
            == Some(JsonView::String("none"@)),
        request.tool_choice matches Some(ToolChoice::Required) ==> opt_json(built.tool_choice)
            == Some(JsonView::String("required"@)),
        request.tool_choice matches Some(ToolChoice::Tool { name }) ==> opt_json(
            built.tool_choice,
        )->0.field_text("name"@) == Some(name@) && opt_json(built.tool_choice)->0.field_text(
            "type"@,
        ) == Some("function"@),
        request.config.response_format is Text ==> built.text is None,
        request.config.response_format is Json ==> opt_json(built.text)->0.field(
            "format"@,
        )->0.field_text("type"@) == Some("json_object"@),
        request.config.response_format matches ResponseFormat::JsonSchema(schema) ==> ({
            let format = opt_json(built.text)->0.field("format"@)->0;
            &&& format.field_text("type"@) == Some("json_schema"@)
            &&& format.field_text("name"@) == Some(schema.name@)
            &&& format.field("schema"@) == Some(schema.schema@)
            &&& format.field("strict"@) == Some(JsonView::Bool(schema.strict))
        }),
        request.config.modalities is None ==> built.modalities is None,
        request.config.modalities matches Some(mods) ==> {
            &&& built.modalities is Some && built.modalities->0@.len() == mods@.len()
            &&& 0 <= i < mods@.len() ==> texts(built.modalities->0@)[i] == (match mods@[i] {
                Modality::Text => "text"@,
                Modality::Audio => "audio"@,
                Modality::Image => "image"@,
            })
        },
{
    broadcast use crate::json::group_fields;

    reveal_with_fuel(crate::json::last_field, 5);
    reveal_strlit("type");
    reveal_strlit("name");
    reveal_strlit("format");
    reveal_strlit("schema");
    reveal_strlit("strict");
    assert("type"@.len() == 4
        && "name"@.len() == 4
        && "format"@.len() == 6
        && "schema"@.len() == 6
        && "strict"@.len() == 6
        && "type"@[0] == 't'
        && "name"@[0] == 'n'
        && "format"@[0] == 'f'
        && "schema"@[0] == 's'
        && "strict"@[0] == 's'
        && "schema"@[1] == 'c'
        && "strict"@[1] == 't');
    if request.tool_choice is Some && request.tool_choice->0 is Tool {
        assert(tool_choice_for(request.tool_choice)->0.field("name"@) is Some);
    }
    if !(request.config.response_format is Text) {
        assert(text_format(request.config.response_format)->0.field("format"@) is Some);
    }
    if request.config.modalities is Some {
        let mods = request.config.modalities->0@;
        assert(texts(built.modalities->0@) == modality_names(mods));
        assert(texts(built.modalities->0@).len() == mods.len());
    }
}

/// Tools are told in their order, the request's own first, each by its name, with its
/// description, its parameters and whether it is strict; then those that OpenAI runs
/// itself, by the names it has for them.
pub proof fn tools_tell_what_they_take(request: GenerateRequest, i: int)
    requires
        0 <= i < request.tools@.len(),
    ensures
        ({
            let told = tools_for(request)[i];
            let tool = request.tools@[i];
            &&& tools_for(request).len() >= request.tools@.len()
            &&& told.field_text("type"@) == Some("function"@)
            &&& told.field_text("name"@) == Some(tool.name@)
            &&& told.field("description"@) == text_view(tool.description)
            &&& tool.parameters matches Some(parameters) ==> told.field("parameters"@) == Some(
                parameters@,
            )
            &&& tool.parameters is None ==> told.field("parameters"@) == Some(
                JsonView::Object(Seq::empty()),
            )
            &&& told.field("strict"@) == bool_view(tool.strict)
        }),
        built_in_tool(BuiltInTool::WebSearch)->0.field_text("type"@) == Some(
            "web_search_preview"@,
        ),
        built_in_tool(BuiltInTool::CodeInterpreter)->0.field_text("type"@) == Some(
            "code_interpreter"@,
        ),
        built_in_tool(BuiltInTool::FileSearch)->0.field_text("type"@) == Some("file_search"@),
        built_in_tool(BuiltInTool::WebFetch) is None,
{
    broadcast use crate::json::group_fields;

    reveal_with_fuel(crate::json::last_field, 3);
    reveal_strlit("type");
    reveal_strlit("name");
    reveal_strlit("description");
    reveal_strlit("parameters");
    reveal_strlit("strict");
    assert("type"@.len() == 4
        && "name"@.len() == 4
        && "description"@.len() == 11
        && "parameters"@.len() == 10
        && "strict"@.len() == 6
        && "type"@[0] == 't'
        && "name"@[0] == 'n');
    assert(tools_for(request)[i] == function_tool(request.tools@[i]));
}

/// An item is told by its type, with what belongs to it under its name.
pub proof fn items_tell_what_they_hold(item: ItemView)
    ensures
        item matches ItemView::Message { role, content } ==> {
            &&& item.document().field_text("type"@) == Some("message"@)
            &&& item.document().field_text("role"@) == Some(role)
            &&& content matches Some(text) ==> item.document().field_text("content"@) == Some(text)
            &&& content is None ==> item.document().field("content"@) is None
        },
        item matches ItemView::FunctionCall { call_id, name, arguments } ==> {
            &&& item.document().field_text("type"@) == Some("function_call"@)
            &&& item.document().field_text("call_id"@) == Some(call_id)
            &&& item.document().field_text("name"@) == Some(name)
            &&& item.document().field_text("arguments"@) == Some(arguments)
        },
        item matches ItemView::FunctionCallOutput { call_id, output } ==> {
            &&& item.document().field_text("type"@) == Some("function_call_output"@)
            &&& item.document().field_text("call_id"@) == Some(call_id)
            &&& item.document().field_text("output"@) == Some(output)
        },
{
    broadcast use crate::json::group_fields;

    reveal_with_fuel(crate::json::last_field, 5);
    reveal_strlit("type");
    reveal_strlit("role");
    reveal_strlit("content");
    reveal_strlit("call_id");
    reveal_strlit("name");
    reveal_strlit("arguments");
    reveal_strlit("output");
    assert("type"@.len() == 4
        && "role"@.len() == 4
        && "content"@.len() == 7
        && "call_id"@.len() == 7
        && "name"@.len() == 4
        && "arguments"@.len() == 9
        && "output"@.len() == 6
        && "type"@[0] == 't'
        && "role"@[0] == 'r'
        && "name"@[0] == 'n'
        && "content"@[1] == 'o'
        && "call_id"@[1] == 'a');
}

/// A request as a document has what the request has, each thing under its name.
pub proof fn documents_carry_the_request(built: ResponsesApiRequest, i: int)
    ensures
        ({
            let document = built.document();
            &&& document.field_text("model"@) == Some(built.model@)
            &&& built.input@ matches InputView::Simple(text) ==> document.field_text("input"@)
                == Some(text)
            &&& built.input@ matches InputView::Items(items) ==> {
                &&& document.field("input"@)->0.items() is Some
                &&& document.field("input"@)->0.items()->0.len() == items.len()
                &&& 0 <= i < items.len() ==> document.field("input"@)->0.items()->0[i]
                    == items[i].document()
            }
            &&& document.field("instructions"@) == text_view(built.instructions)
            &&& document.field("previous_response_id"@) == text_view(built.previous_response_id)
            &&& document.field("store"@) == bool_view(built.store)
            &&& document.field("stream"@) == bool_view(built.stream)
            &&& document.field("temperature"@) == number_view(built.temperature)
            &&& document.field("top_p"@) == number_view(built.top_p)
            &&& built.max_output_tokens matches Some(n) ==> document.field_whole(
                "max_output_tokens"@,
            ) == Some(n as u64)
            &&& built.max_output_tokens is None ==> document.field("max_output_tokens"@) is None
            &&& built.tools matches Some(tools) ==> document.field("tools"@)->0.items() == Some(
                json_views(tools@),
            )
            &&& built.tools is None ==> document.field("tools"@) is None
            &&& document.field("tool_choice"@) == opt_json(built.tool_choice)
            &&& document.field("text"@) == opt_json(built.text)
            &&& built.reasoning is None ==> document.field("reasoning"@) is None
            &&& built.reasoning matches Some(reasoning) ==> document.field("reasoning"@)->0.field(
                "effort"@,
            ) == text_view(reasoning.effort)
        }),
{
    let document = built.document();
    crate::json::two_fields(
        seq![("model"@, JsonView::String(built.model@)), ("input"@, built.input@.document())],
    );
    reveal_strlit("model");
    reveal_strlit("input");
    reveal_strlit("instructions");
    reveal_strlit("previous_response_id");
    reveal_strlit("store");
    reveal_strlit("stream");
    reveal_strlit("temperature");
    reveal_strlit("top_p");
    reveal_strlit("max_output_tokens");
    reveal_strlit("tools");
    reveal_strlit("tool_choice");
    reveal_strlit("modalities");
    reveal_strlit("reasoning");
    reveal_strlit("text");
    reveal_strlit("effort");
    reveal_strlit("summary");
    assert("model"@.len() == 5
        && "input"@.len() == 5
        && "instructions"@.len() == 12
        && "previous_response_id"@.len() == 20
        && "store"@.len() == 5
        && "stream"@.len() == 6
        && "temperature"@.len() == 11
        && "top_p"@.len() == 5
        && "max_output_tokens"@.len() == 17
        && "tools"@.len() == 5
        && "tool_choice"@.len() == 11
        && "modalities"@.len() == 10
        && "reasoning"@.len() == 9
        && "text"@.len() == 4
        && "effort"@.len() == 6
        && "summary"@.len() == 7
        && "model"@[0] == 'm'
        && "input"@[0] == 'i'
        && "store"@[0] == 's'
        && "top_p"@[0] == 't'
        && "tools"@[0] == 't'
        && "stream"@[0] == 's'
        && "effort"@[0] == 'e'
        && "temperature"@[1] == 'e'
        && "tool_choice"@[1] == 'o'
        && "top_p"@[2] == 'p'
        && "tools"@[2] == 'o');
    assert(document.field("model"@) == Some(JsonView::String(built.model@))) by {
        broadcast use crate::json::group_fields;

    }
    assert(document.field("input"@) == Some(built.input@.document())) by {
        broadcast use crate::json::group_fields;

    }
    assert(document.field("instructions"@) == text_view(built.instructions)) by {
        broadcast use crate::json::group_fields;

    }
    assert(document.field("previous_response_id"@) == text_view(built.previous_response_id)) by {
        broadcast use crate::json::group_fields;

    }
    assert(document.field("store"@) == bool_view(built.store)) by {
        broadcast use crate::json::group_fields;

    }
    assert(document.field("stream"@) == bool_view(built.stream)) by {
        broadcast use crate::json::group_fields;

    }
    assert(document.field("temperature"@) == number_view(built.temperature)) by {
        broadcast use crate::json::group_fields;

    }
    assert(document.field("top_p"@) == number_view(built.top_p)) by {
        broadcast use crate::json::group_fields;

    }
    assert(document.field("max_output_tokens"@) == opt_count_view(built.max_output_tokens)) by {
        broadcast use crate::json::group_fields;

    }
    assert(document.field("tools"@) == list_view(opt_items(built.tools))) by {
        broadcast use crate::json::group_fields;

    }
    assert(document.field("tool_choice"@) == opt_json(built.tool_choice)) by {
        broadcast use crate::json::group_fields;

    }
    assert(document.field("text"@) == opt_json(built.text)) by {
        broadcast use crate::json::group_fields;

    }
    assert(document.field("reasoning"@) == reasoning_view(built.reasoning)) by {
        broadcast use crate::json::group_fields;

    }
    if built.reasoning is Some {
        broadcast use crate::json::group_fields;

        assert(reasoning_view(built.reasoning)->0.field("effort"@) == text_view(
            built.reasoning->0.effort,
        ));
    }
}

/// A model id names the model behind the prefix; without the prefix that is asked for, or
/// with another, there is no model.
pub proof fn models_stand_behind_their_prefix(name: Seq<char>, prefix: Seq<char>)
    requires
        name.len() > 0,
        trimmed(name) == name,
        prefix.len() > 0,
        trimmed(prefix + "/"@ + name) == prefix + "/"@ + name,
        !crate::text::contains_text(prefix, "/"@),
    ensures
        model_name(prefix + "/"@ + name, Some(prefix)) == Ok::<Seq<char>, ErrorView>(name),
        model_name(name, None) == Ok::<Seq<char>, ErrorView>(name),
        !crate::text::contains_text(name, "/"@) ==> model_name(name, Some(prefix)) is Err,
        forall|other: Seq<char>|
            other != prefix ==> (#[trigger] model_name(prefix + "/"@ + name, Some(other))) is Err,
{
    reveal_strlit("/");
    assert("/"@.len() == 1);
    super::models::parted_at_slash(prefix, name);
    crate::text::parting_is_at_the_first(name, "/"@);
    assert((prefix + "/"@ + name).len() > 0);
    if !crate::text::contains_text(name, "/"@) {
        crate::text::find_from_is_first(name, "/"@, 0);
    }
}

/// Every request tells who asks, by the key, and for whom, where that is said; what is
/// added comes behind.
pub proof fn headers_tell_who_asks(provider: OpenAiProvider)
    ensures
        ({
            let sent = provider.sent_headers();
            let more = provider.config.extra_headers@.len() as int;
            &&& sent[0] == ("Authorization"@, "Bearer "@ + provider.config.api_key@)
            &&& sent[1] == ("Content-Type"@, "application/json"@)
            &&& provider.config.organization matches Some(org) ==> sent.contains(
                ("OpenAI-Organization"@, org@),
            )
            &&& provider.config.project matches Some(project) ==> sent.contains(
                ("OpenAI-Project"@, project@),
            )
            &&& sent.len() >= 2 + more
            &&& sent.subrange(sent.len() - more, sent.len() as int) == pair_views(
                provider.config.extra_headers@,
            )
        }),
{
    let sent = provider.sent_headers();
    let more = provider.config.extra_headers@.len() as int;
    assert(sent.subrange(sent.len() - more, sent.len() as int) =~= pair_views(
        provider.config.extra_headers@,
    ));
    if provider.config.organization is Some {
        assert(sent[2] == ("OpenAI-Organization"@, provider.config.organization->0@));
        if provider.config.project is Some {
            assert(sent[3] == ("OpenAI-Project"@, provider.config.project->0@));
        }
    } else if provider.config.project is Some {
        assert(sent[2] == ("OpenAI-Project"@, provider.config.project->0@));
    }
}

} // verus!
