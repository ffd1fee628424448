//! Anthropic's messages: requests, replies, and replies piece by piece.
use vstd::prelude::*;
use vstd::string::*;

use super::anthropic_blocks::{
    anthropic_tools, convert_tools, text_block, text_block_json, tool_result_json,
    tool_result_message, tool_use_block, tool_use_block_json, typed, typed_json,
};
use super::bedrock::{at_least_one, calls_of, has_turn};
use super::bedrock_response::{or_empty, reply_view, usage_fits};
use super::formats::{format_instruction, object_reply, parse_object, response_format_instruction};
use super::http::RetryConfig;
use super::interface::{
    call_views, some_calls, BuiltInTool, GenerateRequest, GenerateResponse, Message, MessageRole,
    ResponseFormat, ResponseView, TokenUsage, ToolCall, ToolCallView, ToolChoice,
};
use super::models::{named_model, provider_model};
use super::settings::{missing, overridden, override_seconds, override_text, required, seconds_or};
use crate::duration::{seconds, Duration};
use crate::error::{bad_setting, setting_error, ErrorView, SdkError};
use crate::json::{
    array_unless_empty, count_json, count_view, field_if, field_views, json_text, json_views,
    no_fields, no_items, number_json, number_view, opt_json, or_null, put, put_item, put_opt,
    put_text, text_or_null, unless_empty, whole_number, Json, JsonView,
};
use crate::seqs::{flattened, flattened_next, prefix_next, whole_prefix};
use crate::text::{
    concat2, is_blank, join, joined, opt_text, pair_views, push_pair, str_eq, texts,
    trim_end_matches, trimmed, without_trailing,
};

verus! {

/// What is wrong with a request, if anything is.
pub open spec fn request_fault(request: GenerateRequest) -> Option<ErrorView> {
    if trimmed(request.model@).len() == 0 {
        Some(bad_setting("model must be provided for Anthropic requests"@, "model"@))
    } else if !has_turn(request.messages@) {
        Some(
            ErrorView::Configuration {
                message: "at least one non-system message is required for Anthropic requests"@,
                field: None,
            },
        )
    } else {
        None
    }
}

/// Checks a request before anything is made of it.
pub fn validate_request(request: &GenerateRequest) -> (r: Result<(), SdkError>)
    ensures
        match r {
            Ok(_) => request_fault(*request) is None,
            Err(e) => request_fault(*request) == Some(e@),
        },
{
    if is_blank(request.model.as_str()) {
        return Err(
            setting_error("model must be provided for Anthropic requests".to_owned(), "model"),
        );
    }
    let mut i: usize = 0;
    while i < request.messages.len()
        invariant
            i <= request.messages@.len(),
            trimmed(request.model@).len() > 0,
            forall|j: int|
                0 <= j < i ==> (#[trigger] request.messages@[j]).role == MessageRole::System,
        decreases request.messages@.len() - i,
    {
        if request.messages[i].role != MessageRole::System {
            assert(has_turn(request.messages@));
            return Ok(());
        }
        i = i + 1;
    }
    Err(
        SdkError::Configuration {
            message: "at least one non-system message is required for Anthropic requests".to_owned(),
            field: None,
        },
    )
}

/// The model that a model id names: `anthropic/<model>` or `<model>`.
pub open spec fn model_name(model: Seq<char>) -> Result<Seq<char>, ErrorView> {
    named_model(model, "Anthropic"@, "anthropic"@)
}

/// The model that a model id names.
pub fn normalize_model(model: &str) -> (r: Result<String, SdkError>)
    ensures
        match r {
            Ok(name) => model_name(model@) == Ok::<Seq<char>, ErrorView>(name@),
            Err(e) => model_name(model@) == Err::<Seq<char>, ErrorView>(e@),
        },
{
    provider_model(model, "Anthropic", "anthropic")
}

/// The system's words with what is said of the form of the reply.
pub open spec fn system_words(existing: Option<Seq<char>>, format: ResponseFormat) -> Option<
    Seq<char>,
> {
    let own = or_empty(existing);
    let words = match format_instruction(format) {
        Some(instruction) => (if trimmed(own).len() == 0 {
            own
        } else {
            own + "\n\n"@
        }) + instruction,
        None => own,
    };
    if trimmed(words).len() == 0 {
        None
    } else {
        Some(words)
    }
}

/// The system's words with what is said of the form of the reply.
pub fn augment_system_prompt(existing: &Option<String>, format: &ResponseFormat) -> (r: Option<
    String,
>)
    ensures
        opt_text(r) == system_words(opt_text(*existing), *format),
{
    let mut system = match existing {
        Some(own) => own.clone(),
        None => String::new(),
    };
    if let Some(instruction) = response_format_instruction(format) {
        if !is_blank(system.as_str()) {
            system.append("\n\n");
        }
        system.append(instruction.as_str());
    }
    if is_blank(system.as_str()) {
        None
    } else {
        Some(system)
    }
}

/// A tool that Anthropic runs itself.
pub open spec fn built_in_spec(tool: BuiltInTool) -> Option<JsonView> {
    match tool {
        BuiltInTool::WebSearch => Some(
            JsonView::Object(
                seq![
                    ("type"@, JsonView::String("web_search_20260209"@)),
                    ("name"@, JsonView::String("web_search"@)),
                ],
            ),
        ),
        BuiltInTool::WebFetch => Some(
            JsonView::Object(
                seq![
                    ("type"@, JsonView::String("web_fetch_20260209"@)),
                    ("name"@, JsonView::String("web_fetch"@)),
                ],
            ),
        ),
        BuiltInTool::CodeInterpreter | BuiltInTool::FileSearch => None,
    }
}

/// A tool that Anthropic runs itself, or nothing where it does not.
pub fn anthropic_built_in_spec(tool: BuiltInTool) -> (r: Option<Json>)
    ensures
        opt_json(r) == built_in_spec(tool),
{
    let (kind, name) = match tool {
        BuiltInTool::WebSearch => ("web_search_20260209", "web_search"),
        BuiltInTool::WebFetch => ("web_fetch_20260209", "web_fetch"),
        BuiltInTool::CodeInterpreter | BuiltInTool::FileSearch => {
            return None;
        },
    };
    let mut fields = no_fields();
    put_text(&mut fields, "type", kind);
    put_text(&mut fields, "name", name);
    assert(field_views(fields@) =~= built_in_spec(tool)->0->Object_0);
    Some(Json::object(fields))
}

/// The choice of a tool in Anthropic's form.
pub open spec fn tool_choice_view(choice: Option<ToolChoice>) -> Option<JsonView> {
    match choice {
        None => None,
        Some(ToolChoice::Auto) => Some(typed("auto"@)),
        Some(ToolChoice::NoTools) => Some(typed("none"@)),
        Some(ToolChoice::Required) => Some(typed("any"@)),
        Some(ToolChoice::Tool { name }) => Some(
            JsonView::Object(
                seq![("type"@, JsonView::String("tool"@)), ("name"@, JsonView::String(name@))],
            ),
        ),
    }
}

/// The choice of a tool in Anthropic's form.
pub fn convert_tool_choice(choice: &Option<ToolChoice>) -> (r: Option<Json>)
    ensures
        opt_json(r) == tool_choice_view(*choice),
{
    match choice {
        None => None,
        Some(ToolChoice::Auto) => Some(typed_json("auto")),
        Some(ToolChoice::NoTools) => Some(typed_json("none")),
        Some(ToolChoice::Required) => Some(typed_json("any")),
        Some(ToolChoice::Tool { name }) => {
            let mut fields = no_fields();
            put_text(&mut fields, "type", "tool");
            put_text(&mut fields, "name", name.as_str());
            assert(field_views(fields@) =~= tool_choice_view(*choice)->0->Object_0);
            Some(Json::object(fields))
        },
    }
}

/// The blocks of a message that makes calls.
pub open spec fn calling_blocks(message: Message) -> Seq<JsonView> {
    (if message.content@.len() == 0 {
        Seq::empty()
    } else {
        seq![text_block(message.content@)]
    }) + Seq::new(calls_of(message).len(), |i: int| tool_use_block(calls_of(message)[i]))
}

/// A message in Anthropic's form: what a call gave, what the model said with the
/// calls it made, or a plain text.
pub open spec fn message_view(message: Message) -> JsonView {
    match (message.tool_call_id, message.tool_calls) {
        (Some(id), _) => tool_result_message(id@, message.content@),
        (None, Some(_)) => JsonView::Object(
            seq![
                ("role"@, JsonView::String("assistant"@)),
                ("content"@, JsonView::Array(calling_blocks(message))),
            ],
        ),
        (None, None) => JsonView::Object(
            seq![
                ("role"@, JsonView::String(message.role.name())),
                ("content"@, JsonView::Array(seq![text_block(message.content@)])),
            ],
        ),
    }
}

/// A message in Anthropic's form.
pub fn message_json(message: &Message) -> (r: Json)
    ensures
        r@ == message_view(*message),
{
    if let Some(id) = &message.tool_call_id {
        return tool_result_json(id.as_str(), message.content.as_str());
    }
    let mut blocks = no_items();
    let role = if let Some(calls) = &message.tool_calls {
        if !message.content.as_str().is_empty() {
            put_item(&mut blocks, text_block_json(message.content.as_str()));
        }
        let ghost first = json_views(blocks@);
        let ghost all = Seq::new(calls@.len(), |i: int| tool_use_block(calls@[i]));
        let mut i: usize = 0;
        proof {
            whole_prefix(all);
            assert(first + all.subrange(0, 0) =~= first);
        }
        while i < calls.len()
            invariant
                i <= calls@.len(),
                all == Seq::new(calls@.len(), |i: int| tool_use_block(calls@[i])),
                json_views(blocks@) == first + all.subrange(0, i as int),
            decreases calls@.len() - i,
        {
            put_item(&mut blocks, tool_use_block_json(&calls[i]));
            proof {
                prefix_next(all, i as int);
                assert(json_views(blocks@) =~= first + all.subrange(0, i + 1));
            }
            i = i + 1;
        }
        proof {
            whole_prefix(all);
            assert(json_views(blocks@) =~= calling_blocks(*message));
        }
        "assistant"
    } else {
        put_item(&mut blocks, text_block_json(message.content.as_str()));
        assert(json_views(blocks@) =~= seq![text_block(message.content@)]);
        message.role.as_str()
    };
    let mut fields = no_fields();
    put_text(&mut fields, "role", role);
    put(&mut fields, "content", Json::array(blocks));
    assert(field_views(fields@) =~= message_view(*message)->Object_0);
    Json::object(fields)
}

/// The messages that are not the system's.
pub open spec fn told_messages(messages: Seq<Message>) -> Seq<Option<JsonView>> {
    Seq::new(
        messages.len(),
        |i: int|
            if messages[i].role == MessageRole::System {
                None
            } else {
                Some(message_view(messages[i]))
            },
    )
}

/// The tools that Anthropic runs itself.
pub open spec fn built_in_specs(tools: Seq<BuiltInTool>) -> Seq<Option<JsonView>> {
    Seq::new(tools.len(), |i: int| built_in_spec(tools[i]))
}

/// The payload of a request.
pub open spec fn messages_payload(request: GenerateRequest, model: Seq<char>, stream: bool) -> JsonView {
    let limit = match request.config.max_output_tokens {
        Some(n) => n,
        None => 1024,
    };
    let tools = anthropic_tools(request.tools@) + flattened(
        built_in_specs(request.config.built_in_tools@),
    );
    JsonView::Object(
        seq![
            ("model"@, JsonView::String(model)),
            ("messages"@, JsonView::Array(flattened(told_messages(request.messages@)))),
        ] + field_if(
            "system"@,
            match system_words(opt_text(request.system_prompt), request.config.response_format) {
                Some(words) => Some(JsonView::String(words)),
                None => None,
            },
        ) + seq![("max_tokens"@, whole_number(at_least_one(limit) as u64))] + field_if(
            "temperature"@,
            number_view(request.config.temperature),
        ) + field_if("top_p"@, number_view(request.config.top_p)) + field_if(
            "stream"@,
            if stream {
                Some(JsonView::Bool(true))
            } else {
                None
            },
        ) + field_if("tools"@, unless_empty(tools)) + field_if(
            "tool_choice"@,
            tool_choice_view(request.tool_choice),
        ),
    )
}

fn told_messages_json(messages: &Vec<Message>) -> (r: Vec<Json>)
    ensures
        json_views(r@) == flattened(told_messages(messages@)),
{
    let mut out = no_items();
    let ghost all = told_messages(messages@);
    let mut i: usize = 0;
    proof {
        whole_prefix(all);
    }
    while i < messages.len()
        invariant
            i <= messages@.len(),
            all == told_messages(messages@),
            json_views(out@) == flattened(all.subrange(0, i as int)),
        decreases messages@.len() - i,
    {
        proof {
            flattened_next(all, i as int);
        }
        if messages[i].role != MessageRole::System {
            put_item(&mut out, message_json(&messages[i]));
        }
        i = i + 1;
    }
    proof {
        whole_prefix(all);
    }
    out
}

/// The payload of a request, unless its model id names no model of Anthropic's.
pub fn build_messages_payload(request: &GenerateRequest, stream: bool) -> (r: Result<
    Json,
    SdkError,
>)
    ensures
        match (model_name(request.model@), r) {
            (Ok(model), Ok(payload)) => payload@ == messages_payload(*request, model, stream),
            (Err(fault), Err(e)) => e@ == fault,
            _ => false,
        },
{
    let model = match normalize_model(request.model.as_str()) {
        Ok(model) => model,
        Err(e) => {
            return Err(e);
        },
    };
    let requested: u32 = match request.config.max_output_tokens {
        Some(n) => n,
        None => 1024,
    };
    let max_tokens: u32 = if requested == 0 {
        1
    } else {
        requested
    };

    let mut tools = convert_tools(&request.tools);
    let ghost own = json_views(tools@);
    let ghost all = built_in_specs(request.config.built_in_tools@);
    let mut i: usize = 0;
    proof {
        whole_prefix(all);
        assert(own + flattened(all.subrange(0, 0)) =~= own);
    }
    while i < request.config.built_in_tools.len()
        invariant
            i <= request.config.built_in_tools@.len(),
            all == built_in_specs(request.config.built_in_tools@),
            json_views(tools@) == own + flattened(all.subrange(0, i as int)),
        decreases request.config.built_in_tools@.len() - i,
    {
        proof {
            flattened_next(all, i as int);
        }
        if let Some(spec) = anthropic_built_in_spec(request.config.built_in_tools[i]) {
            put_item(&mut tools, spec);
            assert(json_views(tools@) =~= own + flattened(all.subrange(0, i + 1)));
        }
        i = i + 1;
    }
    proof {
        whole_prefix(all);
    }

    let mut payload = no_fields();
    put_text(&mut payload, "model", model.as_str());
    put(&mut payload, "messages", Json::array(told_messages_json(&request.messages)));
    match augment_system_prompt(&request.system_prompt, &request.config.response_format) {
        Some(words) => {
            put_text(&mut payload, "system", words.as_str());
        },
        None => {},
    }
    put(&mut payload, "max_tokens", Json::whole(max_tokens as u64));
    put_opt(&mut payload, "temperature", number_json(&request.config.temperature));
    put_opt(&mut payload, "top_p", number_json(&request.config.top_p));
    if stream {
        put(&mut payload, "stream", Json::Bool(true));
    }
    put_opt(&mut payload, "tools", array_unless_empty(tools));
    put_opt(&mut payload, "tool_choice", convert_tool_choice(&request.tool_choice));
    assert(field_views(payload@) =~= messages_payload(*request, model@, stream)->Object_0);
    Ok(Json::object(payload))
}

/// The tokens of a request and of its reply.
#[derive(Clone, Copy, Debug)]
pub struct Usage {
    pub input_tokens: Option<u32>,
    pub output_tokens: Option<u32>,
}

/// Whether the sum of the counts is not too large.
pub open spec fn sum_fits(usage: Option<Usage>) -> bool {
    match usage {
        Some(usage) => usage_fits(usage.input_tokens, usage.output_tokens, None, None),
        None => true,
    }
}

/// What the counts make up.
pub open spec fn usage_view(usage: Option<Usage>) -> Option<TokenUsage> {
    match usage {
        Some(usage) => Some(
            TokenUsage {
                prompt_tokens: usage.input_tokens,
                completion_tokens: usage.output_tokens,
                total_tokens: match (usage.input_tokens, usage.output_tokens) {
                    (Some(input), Some(output)) => Some((input + output) as u32),
                    _ => None,
                },
                cached_tokens: None,
                cache_creation_tokens: None,
            },
        ),
        None => None,
    }
}

/// What the counts make up.
pub fn usage_from_api(usage: Option<Usage>) -> (r: Option<TokenUsage>)
    requires
        sum_fits(usage),
    ensures
        r == usage_view(usage),
{
    match usage {
        Some(usage) => {
            let total: Option<u32> = match (usage.input_tokens, usage.output_tokens) {
                (Some(input), Some(output)) => Some(input + output),
                _ => None,
            };
            Some(
                TokenUsage {
                    prompt_tokens: usage.input_tokens,
                    completion_tokens: usage.output_tokens,
                    total_tokens: total,
                    cached_tokens: None,
                    cache_creation_tokens: None,
                },
            )
        },
        None => None,
    }
}

/// Whether the sum of the counts is not too large.
pub fn usage_is_small(usage: Option<Usage>) -> (r: bool)
    ensures
        r == sum_fits(usage),
{
    match usage {
        Some(usage) => match (usage.input_tokens, usage.output_tokens) {
            (Some(input), Some(output)) => input as u64 + output as u64 <= 0xffff_ffff,
            _ => true,
        },
        None => true,
    }
}

/// A reply.
#[derive(Debug)]
pub struct MessagesResponse {
    pub id: String,
    pub model: String,
    pub content: Vec<TextBlockResponse>,
    pub stop_reason: Option<String>,
    pub usage: Option<Usage>,
}

/// A block of a reply.
#[derive(Debug)]
pub struct TextBlockResponse {
    pub block_type: String,
    pub text: Option<String>,
    pub id: Option<String>,
    pub name: Option<String>,
    pub input: Option<Json>,
}

impl TextBlockResponse {
    /// The block as a document.
    pub open spec fn document(self) -> JsonView {
        JsonView::Object(
            seq![
                ("type"@, JsonView::String(self.block_type@)),
                ("text"@, or_null(crate::json::text_view(self.text))),
                ("id"@, or_null(crate::json::text_view(self.id))),
                ("name"@, or_null(crate::json::text_view(self.name))),
                ("input"@, or_null(opt_json(self.input))),
            ],
        )
    }

    fn to_json(&self) -> (r: Json)
        ensures
            r@ == self.document(),
    {
        let mut fields = no_fields();
        put_text(&mut fields, "type", self.block_type.as_str());
        put(&mut fields, "text", text_or_null(&self.text));
        put(&mut fields, "id", text_or_null(&self.id));
        put(&mut fields, "name", text_or_null(&self.name));
        let input = match &self.input {
            Some(input) => input.duplicate(),
            None => Json::Null,
        };
        put(&mut fields, "input", input);
        assert(field_views(fields@) =~= self.document()->Object_0);
        Json::object(fields)
    }

    /// The text of a block of text.
    pub open spec fn said(self) -> Option<Seq<char>> {
        if self.block_type@ == "text"@ {
            opt_text(self.text)
        } else {
            None
        }
    }

    /// The call of a block that makes one.
    pub open spec fn call(self) -> Option<ToolCallView> {
        if self.block_type@ == "tool_use"@ {
            match (self.id, self.name, self.input) {
                (Some(id), Some(name), Some(input)) => Some(
                    ToolCallView {
                        id: id@,
                        name: name@,
                        arguments: json_text(input@),
                        provider_data: None,
                    },
                ),
                _ => None,
            }
        } else {
            None
        }
    }
}

/// The texts of blocks.
pub open spec fn said_in(blocks: Seq<TextBlockResponse>) -> Seq<Option<Seq<char>>> {
    Seq::new(blocks.len(), |i: int| blocks[i].said())
}

/// The calls of blocks.
pub open spec fn called_in(blocks: Seq<TextBlockResponse>) -> Seq<Option<ToolCallView>> {
    Seq::new(blocks.len(), |i: int| blocks[i].call())
}

/// Blocks as documents.
pub open spec fn block_documents(blocks: Seq<TextBlockResponse>) -> Seq<JsonView> {
    Seq::new(blocks.len(), |i: int| blocks[i].document())
}

impl MessagesResponse {
    /// The reply as a document.
    pub open spec fn document(self) -> JsonView {
        JsonView::Object(
            seq![
                ("id"@, JsonView::String(self.id@)),
                ("model"@, JsonView::String(self.model@)),
                ("content"@, JsonView::Array(block_documents(self.content@))),
                ("stop_reason"@, or_null(crate::json::text_view(self.stop_reason))),
                (
                    "usage"@,
                    match self.usage {
                        Some(usage) => JsonView::Object(
                            seq![
                                ("input_tokens"@, count_view(usage.input_tokens)),
                                ("output_tokens"@, count_view(usage.output_tokens)),
                            ],
                        ),
                        None => JsonView::Null,
                    },
                ),
            ],
        )
    }

    fn to_json(&self) -> (r: Json)
        ensures
            r@ == self.document(),
    {
        let mut content = no_items();
        let ghost all = block_documents(self.content@);
        let mut i: usize = 0;
        proof {
            whole_prefix(all);
        }
        while i < self.content.len()
            invariant
                i <= self.content@.len(),
                all == block_documents(self.content@),
                json_views(content@) == all.subrange(0, i as int),
            decreases self.content@.len() - i,
        {
            put_item(&mut content, self.content[i].to_json());
            proof {
                prefix_next(all, i as int);
            }
            i = i + 1;
        }
        proof {
            whole_prefix(all);
        }
        let usage = match &self.usage {
            Some(usage) => {
                let mut fields = no_fields();
                put(&mut fields, "input_tokens", count_json(usage.input_tokens));
                put(&mut fields, "output_tokens", count_json(usage.output_tokens));
                assert(field_views(fields@) =~= seq![
                    ("input_tokens"@, count_view(usage.input_tokens)),
                    ("output_tokens"@, count_view(usage.output_tokens)),
                ]);
                Json::object(fields)
            },
            None => Json::Null,
        };
        let mut fields = no_fields();
        put_text(&mut fields, "id", self.id.as_str());
        put_text(&mut fields, "model", self.model.as_str());
        put(&mut fields, "content", Json::array(content));
        put(&mut fields, "stop_reason", text_or_null(&self.stop_reason));
        put(&mut fields, "usage", usage);
        assert(field_views(fields@) =~= self.document()->Object_0);
        Json::object(fields)
    }

    /// The reply that this is.
    pub open spec fn answer(self, format: ResponseFormat) -> Result<ResponseView, ErrorView> {
        let text = joined(flattened(said_in(self.content@)), Seq::empty());
        match object_reply(text, format) {
            Err(e) => Err(e),
            Ok(object) => Ok(
                ResponseView {
                    id: self.id@,
                    model: self.model@,
                    created: None,
                    text,
                    usage: usage_view(self.usage),
                    finish_reason: opt_text(self.stop_reason),
                    tool_calls: some_calls(flattened(called_in(self.content@))),
                    object,
                    raw: Some(self.document()),
                    metadata: None,
                },
            ),
        }
    }

    /// The reply that this is. The sum of its counts must not be too large.
    pub fn into_generate_response(self, response_format: &ResponseFormat) -> (r: Result<
        GenerateResponse,
        SdkError,
    >)
        requires
            sum_fits(self.usage),
        ensures
            reply_view(r) == self.answer(*response_format),
    {
        let raw = self.to_json();
        let mut text_parts: Vec<String> = Vec::new();
        let mut tool_calls: Vec<ToolCall> = Vec::new();
        let ghost all_texts = said_in(self.content@);
        let ghost all_calls = called_in(self.content@);
        proof {
            whole_prefix(all_texts);
            whole_prefix(all_calls);
            assert(texts(text_parts@) =~= Seq::empty());
            assert(call_views(tool_calls@) =~= Seq::empty());
            reveal_strlit("text");
            reveal_strlit("tool_use");
            assert("text"@.len() != "tool_use"@.len());
        }
        let mut i: usize = 0;
        while i < self.content.len()
            invariant
                i <= self.content@.len(),
                all_texts == said_in(self.content@),
                all_calls == called_in(self.content@),
                texts(text_parts@) == flattened(all_texts.subrange(0, i as int)),
                call_views(tool_calls@) == flattened(all_calls.subrange(0, i as int)),
                "text"@ != "tool_use"@,
            decreases self.content@.len() - i,
        {
            let block = &self.content[i];
            let ghost before_texts = texts(text_parts@);
            let ghost before_calls = call_views(tool_calls@);
            proof {
                flattened_next(all_texts, i as int);
                flattened_next(all_calls, i as int);
            }
            if str_eq(block.block_type.as_str(), "text") {
                if let Some(text) = &block.text {
                    text_parts.push(text.clone());
                    assert(texts(text_parts@) =~= before_texts.push(text@));
                }
            } else if str_eq(block.block_type.as_str(), "tool_use") {
                if let (Some(id), Some(name), Some(input)) = (&block.id, &block.name, &block.input) {
                    let call = ToolCall {
                        id: id.clone(),
                        name: name.clone(),
                        arguments: input.to_text(),
                        provider_data: None,
                    };
                    tool_calls.push(call);
                    assert(call_views(tool_calls@) =~= before_calls.push(call@));
                }
            }
            i = i + 1;
        }
        proof {
            whole_prefix(all_texts);
            whole_prefix(all_calls);
            reveal_strlit("");
            assert(""@ =~= Seq::<char>::empty());
        }
        let text = join(&text_parts, "");
        let object = match parse_object(text.as_str(), response_format) {
            Ok(object) => object,
            Err(e) => {
                return Err(e);
            },
        };
        Ok(
            GenerateResponse {
                id: self.id,
                model: self.model,
                created: None,
                text,
                usage: usage_from_api(self.usage),
                finish_reason: self.stop_reason,
                tool_calls: if tool_calls.len() == 0 {
                    None
                } else {
                    Some(tool_calls)
                },
                object,
                raw: Some(raw),
                metadata: None,
            },
        )
    }
}

/// What is said of a reply that does not have its form.
pub fn unreadable_response(reason: &str) -> (r: SdkError)
    ensures
        r@ == ErrorView::Other("failed to parse Anthropic response: "@ + reason@),
{
    SdkError::Other(concat2("failed to parse Anthropic response: ", reason))
}

/// Where Anthropic is had, and with what key.
#[derive(Clone, Debug)]
pub struct AnthropicConfig {
    pub api_key: String,
    pub base_url: String,
    pub version: String,
    pub timeout: Duration,
    pub retry_config: RetryConfig,
}

impl AnthropicConfig {
    pub fn new(api_key: &str, retry_config: RetryConfig) -> (r: Self)
        ensures
            r.api_key@ == api_key@,
            r.base_url@ == "https://api.anthropic.com"@,
            r.version@ == "2023-06-01"@,
            r.timeout@ == seconds(30),
            r.retry_config == retry_config,
    {
        AnthropicConfig {
            api_key: api_key.to_owned(),
            base_url: "https://api.anthropic.com".to_owned(),
            version: "2023-06-01".to_owned(),
            timeout: Duration::from_secs(30),
            retry_config,
        }
    }

    pub fn with_base_url(self, base_url: &str) -> (r: Self)
        ensures
            r == (AnthropicConfig { base_url: r.base_url, ..self }),
            r.base_url@ == base_url@,
    {
        AnthropicConfig { base_url: base_url.to_owned(), ..self }
    }

    pub fn with_version(self, version: &str) -> (r: Self)
        ensures
            r == (AnthropicConfig { version: r.version, ..self }),
            r.version@ == version@,
    {
        AnthropicConfig { version: version.to_owned(), ..self }
    }

    pub fn with_timeout(self, timeout: Duration) -> (r: Self)
        ensures
            r == (AnthropicConfig { timeout, ..self }),
    {
        AnthropicConfig { timeout, ..self }
    }

    /// The configuration that the environment sets, by the values of
    /// `ANTHROPIC_API_KEY`, `ANTHROPIC_BASE_URL`, `ANTHROPIC_API_VERSION` and
    /// `ANTHROPIC_TIMEOUT_SECS`.
    pub fn from_env(
        api_key: Option<String>,
        base_url: Option<String>,
        version: Option<String>,
        timeout_secs: Option<String>,
        retry_config: RetryConfig,
    ) -> (r: Result<Self, SdkError>)
        ensures
            match r {
                Ok(config) => {
                    &&& api_key is Some && config.api_key@ == api_key->0@
                    &&& config.base_url@ == overridden(
                        "https://api.anthropic.com"@,
                        opt_text(base_url),
                    )
                    &&& config.version@ == overridden("2023-06-01"@, opt_text(version))
                    &&& config.timeout@ == seconds(seconds_or(30, opt_text(timeout_secs)))
                    &&& config.retry_config == retry_config
                },
                Err(e) => api_key is None && e@ == missing("ANTHROPIC_API_KEY"@),
            },
    {
        let key = match required(api_key, "ANTHROPIC_API_KEY") {
            Ok(key) => key,
            Err(e) => {
                return Err(e);
            },
        };
        Ok(
            AnthropicConfig {
                api_key: key,
                base_url: override_text("https://api.anthropic.com", base_url),
                version: override_text("2023-06-01", version),
                timeout: Duration::from_secs(override_seconds(30, timeout_secs)),
                retry_config,
            },
        )
    }
}

/// Anthropic as a provider.
#[derive(Clone, Debug)]
pub struct AnthropicProvider {
    pub config: AnthropicConfig,
}

impl AnthropicProvider {
    pub fn new(config: AnthropicConfig) -> (r: Self)
        ensures
            r.config == config,
    {
        AnthropicProvider { config }
    }

    /// Where messages are sent.
    pub fn messages_endpoint(&self) -> (r: String)
        ensures
            r@ == without_trailing(self.config.base_url@, '/') + "/v1/messages"@,
    {
        let base = trim_end_matches(self.config.base_url.as_str(), '/');
        concat2(base.as_str(), "/v1/messages")
    }

    /// The headers of a request.
    pub fn headers(&self) -> (r: Vec<(String, String)>)
        ensures
            pair_views(r@) == seq![
                ("x-api-key"@, self.config.api_key@),
                ("anthropic-version"@, self.config.version@),
                ("content-type"@, "application/json"@),
            ],
    {
        let mut headers: Vec<(String, String)> = Vec::new();
        push_pair(&mut headers, "x-api-key", self.config.api_key.as_str());
        push_pair(&mut headers, "anthropic-version", self.config.version.as_str());
        push_pair(&mut headers, "content-type", "application/json");
        assert(pair_views(headers@) =~= seq![
            ("x-api-key"@, self.config.api_key@),
            ("anthropic-version"@, self.config.version@),
            ("content-type"@, "application/json"@),
        ]);
        headers
    }
}

/// The role that a document of a message names.
pub open spec fn role_in(document: JsonView) -> Option<Seq<char>> {
    document.field_text("role"@)
}

/// A plain message keeps its speaker and its words: a user's is told as the user's and
/// the model's as the model's, in one block of text with just these words.
pub proof fn messages_keep_their_speaker(message: Message)
    requires
        message.tool_call_id is None,
        message.tool_calls is None,
    ensures
        message.role == MessageRole::User ==> role_in(message_view(message)) == Some("user"@),
        message.role == MessageRole::Assistant ==> role_in(message_view(message)) == Some(
            "assistant"@,
        ),
        ({
            let blocks = message_view(message).field("content"@)->0.items()->0;
            &&& message_view(message).field("content"@)->0.items() is Some
            &&& blocks.len() == 1
            &&& blocks[0].field_text("type"@) == Some("text"@)
            &&& blocks[0].field_text("text"@) == Some(message.content@)
        }),
{
    broadcast use crate::json::group_fields;

    reveal_with_fuel(crate::json::last_field, 3);
    reveal_strlit("role");
    reveal_strlit("content");
    reveal_strlit("type");
    reveal_strlit("text");
    assert("role"@.len() == 4
        && "content"@.len() == 7
        && "type"@.len() == 4
        && "text"@.len() == 4
        && "role"@[0] == 'r'
        && "type"@[0] == 't'
        && "text"@[0] == 't'
        && "type"@[1] == 'y'
        && "text"@[1] == 'e');
    assert(message_view(message).field("content"@) is Some);
}

/// Plain messages of different speakers, or with different words, are told differently.
pub proof fn different_messages_are_told_differently(a: Message, b: Message)
    requires
        a.tool_call_id is None && a.tool_calls is None,
        b.tool_call_id is None && b.tool_calls is None,
        a.role != MessageRole::System && b.role != MessageRole::System,
        message_view(a) == message_view(b),
    ensures
        a.role == b.role,
        a.content@ == b.content@,
{
    messages_keep_their_speaker(a);
    messages_keep_their_speaker(b);
    reveal_strlit("user");
    reveal_strlit("assistant");
    assert("user"@.len() == 4
        && "assistant"@.len() == 9);
}

/// What the model said with its calls is told as the model's: its words, if there are any,
/// and then each call in its order. What a call gave is told as the user's, for that call.
pub proof fn calls_and_results_are_told_back(message: Message, i: int)
    ensures
        message.tool_call_id matches Some(id) ==> role_in(message_view(message)) == Some("user"@)
            && message_view(message) == tool_result_message(id@, message.content@),
        message.tool_call_id is None && message.tool_calls is Some ==> ({
            let calls = message.tool_calls->0@;
            let blocks = message_view(message).field("content"@)->0.items()->0;
            let words: int = if message.content@.len() > 0 {
                1
            } else {
                0
            };
            &&& role_in(message_view(message)) == Some("assistant"@)
            &&& message_view(message).field("content"@)->0.items() is Some
            &&& blocks.len() == words + calls.len()
            &&& message.content@.len() > 0 ==> blocks[0].field_text("text"@) == Some(
                message.content@,
            )
            &&& 0 <= i < calls.len() ==> blocks[words + i] == tool_use_block(calls[i])
        }),
{
    broadcast use crate::json::group_fields;

    reveal_with_fuel(crate::json::last_field, 3);
    reveal_strlit("role");
    reveal_strlit("content");
    reveal_strlit("type");
    reveal_strlit("text");
    assert("role"@.len() == 4
        && "content"@.len() == 7
        && "type"@.len() == 4
        && "text"@.len() == 4
        && "role"@[0] == 'r'
        && "type"@[0] == 't'
        && "text"@[0] == 't'
        && "type"@[1] == 'y'
        && "text"@[1] == 'e');
    if message.tool_call_id is None && message.tool_calls is Some {
        assert(message_view(message).field("content"@) is Some);
    }
}

/// A conversation is told message by message in its order, and the system's messages are
/// left out of it.
pub proof fn conversations_are_told_in_order(messages: Seq<Message>, message: Message)
    ensures
        message.role != MessageRole::System ==> flattened(told_messages(messages.push(message)))
            == flattened(told_messages(messages)).push(message_view(message)),
        message.role == MessageRole::System ==> flattened(told_messages(messages.push(message)))
            == flattened(told_messages(messages)),
        flattened(told_messages(Seq::empty())).len() == 0,
{
    let all = told_messages(messages.push(message));
    assert(all.drop_last() =~= told_messages(messages));
}

proof fn told_roles(messages: Seq<Message>)
    requires
        forall|i: int|
            0 <= i < messages.len() ==> (#[trigger] messages[i]).tool_call_id is None
                && messages[i].tool_calls is None && messages[i].role != MessageRole::System,
    ensures
        flattened(told_messages(messages)).len() == messages.len(),
        forall|i: int|
            0 <= i < messages.len() ==> role_in(#[trigger] flattened(told_messages(messages))[i])
                == Some(
                if messages[i].role == MessageRole::User {
                    "user"@
                } else {
                    "assistant"@
                },
            ),
    decreases messages.len(),
{
    let all = told_messages(messages);
    crate::seqs::nothing_there_is_left_out(all);
    assert forall|i: int| 0 <= i < messages.len() implies role_in(#[trigger] flattened(all)[i])
        == Some(
        if messages[i].role == MessageRole::User {
            "user"@
        } else {
            "assistant"@
        },
    ) by {
        assert(Some(flattened(all)[i]) == all[i]);
        messages_keep_their_speaker(messages[i]);
    }
}

/// The payload names the model and tells the conversation; in a conversation of plain
/// messages the roles are those of its speakers, one by one.
pub proof fn payloads_tell_who_spoke(request: GenerateRequest, model: Seq<char>, stream: bool)
    ensures
        messages_payload(request, model, stream).field_text("model"@) == Some(model),
        messages_payload(request, model, stream).field("messages"@) == Some(
            JsonView::Array(flattened(told_messages(request.messages@))),
        ),
        (forall|i: int|
            0 <= i < request.messages@.len() ==> (#[trigger] request.messages@[i]).tool_call_id
                is None && request.messages@[i].tool_calls is None && request.messages@[i].role
                != MessageRole::System) ==> ({
            let told = messages_payload(request, model, stream).field("messages"@)->0.items()->0;
            &&& told.len() == request.messages@.len()
            &&& forall|i: int|
                0 <= i < told.len() ==> role_in(#[trigger] told[i]) == Some(
                    if request.messages@[i].role == MessageRole::User {
                        "user"@
                    } else {
                        "assistant"@
                    },
                )
        }),
{
    payload_fields(request, model, stream);
    if forall|i: int|
        0 <= i < request.messages@.len() ==> (#[trigger] request.messages@[i]).tool_call_id is None
            && request.messages@[i].tool_calls is None && request.messages@[i].role
            != MessageRole::System {
        told_roles(request.messages@);
    }
}

proof fn payload_fields(request: GenerateRequest, model: Seq<char>, stream: bool)
    ensures
        ({
            let payload = messages_payload(request, model, stream);
            &&& payload.field("model"@) == Some(JsonView::String(model))
            &&& payload.field("messages"@) == Some(
                JsonView::Array(flattened(told_messages(request.messages@))),
            )
            &&& payload.field("system"@) == (match system_words(
                opt_text(request.system_prompt),
                request.config.response_format,
            ) {
                Some(words) => Some(JsonView::String(words)),
                None => None,
            })
            &&& payload.field("max_tokens"@) is Some
            &&& payload.field("temperature"@) == number_view(request.config.temperature)
            &&& payload.field("top_p"@) == number_view(request.config.top_p)
            &&& payload.field("stream"@) == (if stream {
                Some(JsonView::Bool(true))
            } else {
                None
            })
            &&& payload.field("tools"@) == unless_empty(
                anthropic_tools(request.tools@) + flattened(
                    built_in_specs(request.config.built_in_tools@),
                ),
            )
            &&& payload.field("tool_choice"@) == tool_choice_view(request.tool_choice)
            &&& request.config.max_output_tokens is None ==> payload.field_whole("max_tokens"@)
                == Some(1024u64)
            &&& request.config.max_output_tokens == Some(0u32) ==> payload.field_whole(
                "max_tokens"@,
            ) == Some(1u64)
            &&& request.config.max_output_tokens matches Some(n) ==> (n > 0 ==> payload.field_whole(
                "max_tokens"@,
            ) == Some(n as u64))
        }),
{
    broadcast use crate::json::group_fields;

    crate::json::two_fields(
        seq![
            ("model"@, JsonView::String(model)),
            ("messages"@, JsonView::Array(flattened(told_messages(request.messages@)))),
        ],
    );
    reveal_strlit("model");
    reveal_strlit("messages");
    reveal_strlit("system");
    reveal_strlit("max_tokens");
    reveal_strlit("temperature");
    reveal_strlit("top_p");
    reveal_strlit("stream");
    reveal_strlit("tools");
    reveal_strlit("tool_choice");
    assert("model"@.len() == 5
        && "messages"@.len() == 8
        && "system"@.len() == 6
        && "max_tokens"@.len() == 10
        && "temperature"@.len() == 11
        && "top_p"@.len() == 5
        && "stream"@.len() == 6
        && "tools"@.len() == 5
        && "tool_choice"@.len() == 11
        && "model"@[0] == 'm'
        && "top_p"@[0] == 't'
        && "tools"@[0] == 't'
        && "system"@[1] == 'y'
        && "stream"@[1] == 't'
        && "temperature"@[1] == 'e'
        && "tool_choice"@[1] == 'o'
        && "top_p"@[2] == 'p'
        && "tools"@[2] == 'o');
}

/// What a request sets is in its payload, and what it does not set is not: the sampling
/// parameters, the stream, the choice of a tool. A reply has at most as many tokens as the
/// request says, at least one, and 1024 where it does not say.
pub proof fn payloads_carry_the_settings(request: GenerateRequest, model: Seq<char>, stream: bool)
    ensures
        ({
            let payload = messages_payload(request, model, stream);
            &&& payload.field("temperature"@) == number_view(request.config.temperature)
            &&& payload.field("top_p"@) == number_view(request.config.top_p)
            &&& stream ==> payload.field("stream"@) == Some(JsonView::Bool(true))
            &&& !stream ==> payload.field("stream"@) is None
            &&& request.tool_choice is None ==> payload.field("tool_choice"@) is None
            &&& request.tool_choice matches Some(ToolChoice::Auto) ==> payload.field(
                "tool_choice"@,
            )->0.field_text("type"@) == Some("auto"@)
            &&& request.tool_choice matches Some(ToolChoice::NoTools) ==> payload.field(
                "tool_choice"@,
            )->0.field_text("type"@) == Some("none"@)
            &&& request.tool_choice matches Some(ToolChoice::Required) ==> payload.field(
                "tool_choice"@,
            )->0.field_text("type"@) == Some("any"@)
            &&& request.tool_choice matches Some(ToolChoice::Tool { name }) ==> payload.field(
                "tool_choice"@,
            )->0.field_text("type"@) == Some("tool"@) && payload.field(
                "tool_choice"@,
            )->0.field_text("name"@) == Some(name@)
            &&& request.config.max_output_tokens is None ==> payload.field_whole("max_tokens"@)
                == Some(1024u64)
            &&& request.config.max_output_tokens == Some(0u32) ==> payload.field_whole(
                "max_tokens"@,
            ) == Some(1u64)
            &&& request.config.max_output_tokens matches Some(n) ==> (n > 0 ==> payload.field_whole(
                "max_tokens"@,
            ) == Some(n as u64))
        }),
{
    broadcast use crate::json::group_fields;

    payload_fields(request, model, stream);
    reveal_with_fuel(crate::json::last_field, 3);
    reveal_strlit("type");
    reveal_strlit("name");
    assert("type"@.len() == 4
        && "name"@.len() == 4
        && "type"@[0] == 't'
        && "name"@[0] == 'n');
}

/// The tools of a payload are those of the request, in their order, and then those that
/// Anthropic runs itself; there is no list where there are none.
pub proof fn payloads_carry_the_tools(
    request: GenerateRequest,
    model: Seq<char>,
    stream: bool,
    i: int,
)
    ensures
        request.tools@.len() == 0 && request.config.built_in_tools@.len() == 0
            ==> messages_payload(request, model, stream).field("tools"@) is None,
        request.tools@.len() > 0 ==> ({
            let tools = messages_payload(request, model, stream).field("tools"@)->0.items()->0;
            &&& messages_payload(request, model, stream).field("tools"@)->0.items() is Some
            &&& tools.len() >= request.tools@.len()
            &&& 0 <= i < request.tools@.len() ==> tools[i] == anthropic_tools(request.tools@)[i]
                && tools[i].field_text("name"@) == Some(request.tools@[i].name@)
        }),
        built_in_spec(BuiltInTool::WebSearch)->0.field_text("type"@) == Some(
            "web_search_20260209"@,
        ),
        built_in_spec(BuiltInTool::WebSearch)->0.field_text("name"@) == Some("web_search"@),
        built_in_spec(BuiltInTool::WebFetch)->0.field_text("type"@) == Some("web_fetch_20260209"@),
        built_in_spec(BuiltInTool::WebFetch)->0.field_text("name"@) == Some("web_fetch"@),
        built_in_spec(BuiltInTool::CodeInterpreter) is None,
        built_in_spec(BuiltInTool::FileSearch) is None,
{
    broadcast use crate::json::group_fields;

    payload_fields(request, model, stream);
    reveal_with_fuel(crate::json::last_field, 3);
    reveal_strlit("type");
    reveal_strlit("name");
    assert("type"@.len() == 4
        && "name"@.len() == 4
        && "type"@[0] == 't'
        && "name"@[0] == 'n');
    if 0 <= i < request.tools@.len() {
        super::anthropic_blocks::tools_tell_what_they_take(request.tools@, i);
    }
}

/// The system's words come first, then, a blank line below, what is said of the form of
/// the reply; neither is there where there is nothing to say.
pub proof fn the_system_speaks_first(
    request: GenerateRequest,
    model: Seq<char>,
    stream: bool,
    words: Seq<char>,
)
    requires
        trimmed(words).len() > 0,
    ensures
        opt_text(request.system_prompt) == Some(words) && request.config.response_format is Text
            ==> messages_payload(request, model, stream).field_text("system"@) == Some(words),
        opt_text(request.system_prompt) == Some(words) && request.config.response_format is Json
            && trimmed(words + "\n\n"@ + "Please respond with a valid JSON object."@).len() > 0
            ==> messages_payload(request, model, stream).field_text("system"@) == Some(
            words + "\n\n"@ + "Please respond with a valid JSON object."@,
        ),
        request.system_prompt is None && request.config.response_format is Text
            ==> messages_payload(request, model, stream).field("system"@) is None,
{
    payload_fields(request, model, stream);
    assert(trimmed(Seq::<char>::empty()).len() == 0);
}

/// A reply's text is that of its blocks of text, one behind the other; its calls are
/// those of its blocks that make one, in their order, with their id, name and input.
pub proof fn replies_are_gathered_in_order(
    blocks: Seq<TextBlockResponse>,
    block: TextBlockResponse,
)
    ensures
        block.block_type@ == "text"@ && block.text is Some ==> joined(
            flattened(said_in(blocks.push(block))),
            Seq::empty(),
        ) == joined(flattened(said_in(blocks)), Seq::empty()) + block.text->0@,
        block.block_type@ != "text"@ || block.text is None ==> joined(
            flattened(said_in(blocks.push(block))),
            Seq::empty(),
        ) == joined(flattened(said_in(blocks)), Seq::empty()),
        block.block_type@ == "tool_use"@ && block.id is Some && block.name is Some && block.input
            is Some ==> flattened(called_in(blocks.push(block))) == flattened(
            called_in(blocks),
        ).push(
            ToolCallView {
                id: block.id->0@,
                name: block.name->0@,
                arguments: json_text(block.input->0@),
                provider_data: None,
            },
        ),
        block.block_type@ != "tool_use"@ ==> flattened(called_in(blocks.push(block))) == flattened(
            called_in(blocks),
        ),
{
    let none = Seq::<char>::empty();
    assert(said_in(blocks.push(block)).drop_last() =~= said_in(blocks));
    assert(called_in(blocks.push(block)).drop_last() =~= called_in(blocks));
    let before = flattened(said_in(blocks));
    if block.said() is Some {
        let text = block.text->0@;
        crate::text::joining_goes_on_at_the_end(before, text, none);
        if before.len() > 0 {
            assert(joined(before, none) + none + text =~= joined(before, none) + text);
        } else {
            assert(joined(before, none) + text =~= text);
        }
    }
}

/// A reply tells what came: its id, its model, its counts and why it stopped, and its text
/// and calls as they were gathered.
pub proof fn replies_tell_what_came(reply: MessagesResponse)
    ensures
        ({
            let r = reply.answer(ResponseFormat::Text);
            &&& r is Ok
            &&& r->Ok_0.id == reply.id@ && r->Ok_0.model == reply.model@
            &&& r->Ok_0.text == joined(flattened(said_in(reply.content@)), Seq::empty())
            &&& r->Ok_0.finish_reason == opt_text(reply.stop_reason)
            &&& flattened(called_in(reply.content@)).len() > 0 ==> r->Ok_0.tool_calls == Some(
                flattened(called_in(reply.content@)),
            )
            &&& flattened(called_in(reply.content@)).len() == 0 ==> r->Ok_0.tool_calls is None
            &&& r->Ok_0.object is None
            &&& reply.usage is None ==> r->Ok_0.usage is None
            &&& reply.usage matches Some(usage) ==> r->Ok_0.usage is Some
                && r->Ok_0.usage->0.prompt_tokens == usage.input_tokens
                && r->Ok_0.usage->0.completion_tokens == usage.output_tokens && (
            usage.input_tokens is Some && usage.output_tokens is Some
                ==> r->Ok_0.usage->0.total_tokens == Some(
                (usage.input_tokens->0 + usage.output_tokens->0) as u32,
            ))
        }),
{
}

/// A request without a model, or with nobody but the system speaking, is refused, and no
/// other is.
pub proof fn requests_are_refused_for_these_reasons(request: GenerateRequest)
    ensures
        request_fault(request) is None <==> trimmed(request.model@).len() > 0 && exists|i: int|
            0 <= i < request.messages@.len() && (#[trigger] request.messages@[i]).role
                != MessageRole::System,
        trimmed(request.model@).len() == 0 ==> request_fault(request) == Some(
            ErrorView::Configuration {
                message: "model must be provided for Anthropic requests"@,
                field: Some("model"@),
            },
        ),
{
}

/// What Anthropic said is kept as it came: blocks in their order, why it ended, and the
/// counts.
pub proof fn documents_tell_the_reply(response: MessagesResponse, i: int)
    ensures
        ({
            let told = response.document();
            let blocks = told.field("content"@)->0.items()->0;
            &&& told.field_text("id"@) == Some(response.id@)
            &&& told.field_text("model"@) == Some(response.model@)
            &&& blocks.len() == response.content@.len()
            &&& 0 <= i < blocks.len() ==> blocks[i] == response.content@[i].document()
            &&& response.stop_reason is None ==> told.field("stop_reason"@) == Some(JsonView::Null)
            &&& response.stop_reason is Some ==> told.field_text("stop_reason"@) == Some(
                response.stop_reason->0@,
            )
            &&& response.usage is None ==> told.field("usage"@) == Some(JsonView::Null)
            &&& response.usage matches Some(u) ==> told.field("usage"@)->0.field("input_tokens"@)
                == Some(count_view(u.input_tokens)) && told.field("usage"@)->0.field(
                "output_tokens"@,
            ) == Some(count_view(u.output_tokens))
        }),
{
    broadcast use crate::json::group_fields;

    reveal_with_fuel(crate::json::last_field, 6);
    reveal_strlit("id");
    reveal_strlit("model");
    reveal_strlit("content");
    reveal_strlit("stop_reason");
    reveal_strlit("usage");
    reveal_strlit("input_tokens");
    reveal_strlit("output_tokens");
    assert("id"@.len() == 2
        && "model"@.len() == 5
        && "content"@.len() == 7
        && "stop_reason"@.len() == 11
        && "usage"@.len() == 5
        && "input_tokens"@.len() == 12
        && "output_tokens"@.len() == 13
        && "model"@[0] == 'm'
        && "usage"@[0] == 'u');
    let told = response.document();
    assert(told.field("content"@) is Some && told.field("usage"@) is Some);
}

/// A block is kept with its type and what it holds; what it does not hold is told too.
pub proof fn blocks_are_kept_as_they_came(block: TextBlockResponse)
    ensures
        ({
            let told = block.document();
            &&& told.field_text("type"@) == Some(block.block_type@)
            &&& told.field("text"@) == Some(or_null(crate::json::text_view(block.text)))
            &&& told.field("id"@) == Some(or_null(crate::json::text_view(block.id)))
            &&& told.field("name"@) == Some(or_null(crate::json::text_view(block.name)))
            &&& told.field("input"@) == Some(or_null(opt_json(block.input)))
        }),
{
    broadcast use crate::json::group_fields;

    reveal_with_fuel(crate::json::last_field, 6);
    reveal_strlit("type");
    reveal_strlit("text");
    reveal_strlit("id");
    reveal_strlit("name");
    reveal_strlit("input");
    assert("type"@.len() == 4
        && "text"@.len() == 4
        && "id"@.len() == 2
        && "name"@.len() == 4
        && "input"@.len() == 5
        && "type"@[1] == 'y'
        && "text"@[1] == 'e'
        && "type"@[0] == 't'
        && "name"@[0] == 'n'
        && "text"@[0] == 't');
}

} // verus!
