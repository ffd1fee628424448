//! What is recorded of a call of a model: the attributes of its span.
use vstd::prelude::*;
use vstd::string::*;
use vstd::utf8::*;

use super::attributes;
use super::interface::{
    GenerateRequest, GenerateResponse, Message, TokenUsage, ToolCall, ToolChoice, ToolDefinition,
};
use crate::json::{
    field_if, field_views, json_text, json_views, no_fields, no_items, opt_json, put, put_item,
    put_text, Json, JsonNumber, JsonView, NumberView,
};
use crate::seqs::{listed, prefix_next, whole_prefix};
use crate::text::{
    concat2, concat3, concat4, decimal, decimal_text, lowered, opt_text, str_eq, to_lowercase,
};

verus! {

/// The value of an attribute.
#[derive(Clone, Debug)]
pub enum AttributeValue {
    Text(String),
    Int(i64),
    Number(JsonNumber),
    Bool(bool),
}

/// An attribute of a span.
#[derive(Clone, Debug)]
pub struct Attribute {
    pub key: String,
    pub value: AttributeValue,
}

/// What an `AttributeValue` says.
pub enum ValueView {
    Text(Seq<char>),
    Int(i64),
    Number(NumberView),
    Bool(bool),
}

impl View for AttributeValue {
    type V = ValueView;

    open spec fn view(&self) -> ValueView {
        match self {
            AttributeValue::Text(s) => ValueView::Text(s@),
            AttributeValue::Int(n) => ValueView::Int(*n),
            AttributeValue::Number(n) => ValueView::Number(n@),
            AttributeValue::Bool(b) => ValueView::Bool(*b),
        }
    }
}

/// What attributes say.
pub open spec fn attribute_views(list: Seq<Attribute>) -> Seq<(Seq<char>, ValueView)> {
    Seq::new(list.len(), |i: int| (list[i].key@, list[i].value@))
}

/// Sets an attribute.
pub fn set_attribute(list: &mut Vec<Attribute>, key: &str, value: AttributeValue)
    ensures
        attribute_views(final(list)@) == attribute_views(old(list)@).push((key@, value@)),
{
    let ghost before = attribute_views(list@);
    list.push(Attribute { key: key.to_owned(), value });
    assert(attribute_views(list@) =~= before.push((key@, value@)));
}

/// Sets an attribute with a text.
pub fn set_text(list: &mut Vec<Attribute>, key: &str, value: &str)
    ensures
        attribute_views(final(list)@) == attribute_views(old(list)@).push(
            (key@, ValueView::Text(value@)),
        ),
{
    set_attribute(list, key, AttributeValue::Text(value.to_owned()));
}

/// One attribute if there is a value for it, nothing otherwise.
pub open spec fn attribute_if(key: Seq<char>, value: Option<ValueView>) -> Seq<
    (Seq<char>, ValueView),
> {
    match value {
        Some(v) => seq![(key, v)],
        None => Seq::empty(),
    }
}

/// What an optional value says.
pub open spec fn opt_value(value: Option<AttributeValue>) -> Option<ValueView> {
    match value {
        Some(v) => Some(v@),
        None => None,
    }
}

/// Sets an attribute if there is a value for it.
pub fn set_opt(list: &mut Vec<Attribute>, key: &str, value: Option<AttributeValue>)
    ensures
        attribute_views(final(list)@) == attribute_views(old(list)@) + attribute_if(
            key@,
            opt_value(value),
        ),
{
    let ghost before = attribute_views(list@);
    match value {
        Some(v) => {
            set_attribute(list, key, v);
            assert(attribute_views(list@) =~= before + seq![(key@, v@)]);
        },
        None => {
            assert(before + Seq::<(Seq<char>, ValueView)>::empty() =~= before);
        },
    }
}

/// A count as a value.
pub open spec fn count_value(n: Option<u32>) -> Option<ValueView> {
    match n {
        Some(n) => Some(ValueView::Int(n as i64)),
        None => None,
    }
}

/// A count as a value.
pub fn count_attribute(n: Option<u32>) -> (r: Option<AttributeValue>)
    ensures
        opt_value(r) == count_value(n),
{
    match n {
        Some(n) => Some(AttributeValue::Int(n as i64)),
        None => None,
    }
}

/// A number as a value.
pub open spec fn number_value(n: Option<JsonNumber>) -> Option<ValueView> {
    match n {
        Some(n) => Some(ValueView::Number(n@)),
        None => None,
    }
}

/// A number as a value.
pub fn number_attribute(n: &Option<JsonNumber>) -> (r: Option<AttributeValue>)
    ensures
        opt_value(r) == number_value(*n),
{
    match n {
        Some(n) => Some(AttributeValue::Number(n.duplicate())),
        None => None,
    }
}

/// A text as a value.
pub open spec fn text_value(s: Option<Seq<char>>) -> Option<ValueView> {
    match s {
        Some(s) => Some(ValueView::Text(s)),
        None => None,
    }
}

/// A text as a value.
pub fn text_attribute(s: &Option<String>) -> (r: Option<AttributeValue>)
    ensures
        opt_value(r) == text_value(opt_text(*s)),
{
    match s {
        Some(s) => Some(AttributeValue::Text(s.clone())),
        None => None,
    }
}

/// Whether what is said is recorded too, by the value of the setting for it: it is,
/// unless the setting says `false` or `0`.
pub open spec fn captures_content(setting: Option<Seq<char>>) -> bool {
    match setting {
        Some(v) => lowered(v) != "false"@ && v != "0"@,
        None => true,
    }
}

/// Whether what is said is recorded too, by the setting for it.
pub fn should_capture_content(setting: Option<&str>) -> (r: bool)
    ensures
        r == captures_content(
            match setting {
                Some(v) => Some(v@),
                None => None,
            },
        ),
{
    match setting {
        Some(v) => {
            let lower = to_lowercase(v);
            !str_eq(lower.as_str(), "false") && !str_eq(v, "0")
        },
        None => true,
    }
}

/// Whether a text can be cut after so many bytes: it is not longer, or a character
/// ends there.
pub open spec fn can_cut(content: Seq<char>, max_bytes: nat) -> bool {
    encode_utf8(content).len() <= max_bytes || is_char_boundary(
        encode_utf8(content),
        max_bytes as int,
    )
}

/// Whether a text can be cut after so many bytes.
pub fn can_truncate(content: &str, max_bytes: usize) -> (r: bool)
    ensures
        r == can_cut(content@, max_bytes as nat),
{
    content.as_bytes().len() <= max_bytes || content.is_char_boundary(max_bytes)
}

/// The first bytes of a text, as a text.
pub open spec fn first_bytes(content: Seq<char>, n: nat) -> Seq<char> {
    decode_utf8(encode_utf8(content).subrange(0, n as int))
}

fn head_of(content: &str, n: usize) -> (r: &str)
    requires
        is_char_boundary(encode_utf8(content@), n as int),
        n <= encode_utf8(content@).len(),
    ensures
        r@ == first_bytes(content@, n as nat),
{
    let (head, _) = content.split_at(n);
    proof {
        encode_utf8_decode_utf8(head@);
        assert(head.spec_bytes() =~= encode_utf8(content@).subrange(0, n as int));
    }
    head
}

/// A text of at most so many bytes, or its beginning with a note of what was cut.
pub open spec fn truncated(content: Seq<char>, max_bytes: nat) -> Seq<char> {
    let len = encode_utf8(content).len();
    if len <= max_bytes {
        content
    } else {
        first_bytes(content, max_bytes) + "... [truncated "@ + decimal((len - max_bytes) as nat)
            + " bytes]"@
    }
}

/// A text of at most so many bytes, or its beginning with a note of what was cut.
pub fn truncate_content(content: &str, max_bytes: usize) -> (r: String)
    requires
        can_cut(content@, max_bytes as nat),
    ensures
        r@ == truncated(content@, max_bytes as nat),
{
    let len: usize = content.as_bytes().len();
    if len <= max_bytes {
        content.to_owned()
    } else {
        concat4(
            head_of(content, max_bytes),
            "... [truncated ",
            decimal_text((len - max_bytes) as u64).as_str(),
            " bytes]",
        )
    }
}

/// The bytes of what is said that are recorded.
pub const MAX_CONTENT_BYTES: usize = 10_000;

/// A part with a text.
pub open spec fn text_part(content: Seq<char>) -> JsonView {
    JsonView::Object(
        seq![("type"@, JsonView::String("text"@)), ("content"@, JsonView::String(content))],
    )
}

fn text_part_json(content: &str) -> (r: Json)
    ensures
        r@ == text_part(content@),
{
    let mut fields = no_fields();
    put_text(&mut fields, "type", "text");
    put_text(&mut fields, "content", content);
    assert(field_views(fields@) =~= text_part(content@)->Object_0);
    Json::object(fields)
}

/// Who speaks, and the parts of what is said.
pub open spec fn role_and_parts(role: Seq<char>, parts: Seq<JsonView>) -> JsonView {
    JsonView::Object(seq![("role"@, JsonView::String(role)), ("parts"@, JsonView::Array(parts))])
}

fn role_and_parts_json(role: &str, parts: Vec<Json>) -> (r: Json)
    ensures
        r@ == role_and_parts(role@, json_views(parts@)),
{
    let ghost wanted = role_and_parts(role@, json_views(parts@));
    let mut fields = no_fields();
    put_text(&mut fields, "role", role);
    put(&mut fields, "parts", Json::array(parts));
    assert(field_views(fields@) =~= wanted->Object_0);
    Json::object(fields)
}

/// The messages of a conversation, as they are recorded.
pub open spec fn input_messages(messages: Seq<Message>) -> Seq<JsonView> {
    Seq::new(
        messages.len(),
        |i: int|
            role_and_parts(
                messages[i].role.name(),
                seq![text_part(truncated(messages[i].content@, MAX_CONTENT_BYTES as nat))],
            ),
    )
}

/// Whether all messages can be cut.
pub open spec fn messages_can_be_cut(messages: Seq<Message>) -> bool {
    forall|i: int|
        0 <= i < messages.len() ==> can_cut(
            (#[trigger] messages[i]).content@,
            MAX_CONTENT_BYTES as nat,
        )
}

/// Whether all messages can be cut.
pub fn can_serialize_messages(request: &GenerateRequest) -> (r: bool)
    ensures
        r == messages_can_be_cut(request.messages@),
{
    let mut i: usize = 0;
    while i < request.messages.len()
        invariant
            i <= request.messages@.len(),
            forall|j: int|
                0 <= j < i ==> can_cut(
                    (#[trigger] request.messages@[j]).content@,
                    MAX_CONTENT_BYTES as nat,
                ),
        decreases request.messages@.len() - i,
    {
        if !can_truncate(request.messages[i].content.as_str(), MAX_CONTENT_BYTES) {
            assert(!messages_can_be_cut(request.messages@)) by {
                assert(!can_cut(request.messages@[i as int].content@, MAX_CONTENT_BYTES as nat));
            }
            return false;
        }
        i = i + 1;
    }
    true
}

/// The messages of a conversation, as they are recorded. The system prompt is not
/// among them.
pub fn serialize_input_messages(request: &GenerateRequest) -> (r: Json)
    requires
        messages_can_be_cut(request.messages@),
    ensures
        r@ == JsonView::Array(input_messages(request.messages@)),
{
    let mut out = no_items();
    let ghost all = input_messages(request.messages@);
    let mut i: usize = 0;
    proof {
        whole_prefix(all);
    }
    while i < request.messages.len()
        invariant
            i <= request.messages@.len(),
            messages_can_be_cut(request.messages@),
            all == input_messages(request.messages@),
            json_views(out@) == all.subrange(0, i as int),
        decreases request.messages@.len() - i,
    {
        let message = &request.messages[i];
        assert(request.messages@[i as int] == *message);
        let content = truncate_content(message.content.as_str(), MAX_CONTENT_BYTES);
        let mut parts = no_items();
        put_item(&mut parts, text_part_json(content.as_str()));
        assert(json_views(parts@) =~= seq![text_part(content@)]);
        put_item(&mut out, role_and_parts_json(message.role.as_str(), parts));
        proof {
            prefix_next(all, i as int);
        }
        i = i + 1;
    }
    proof {
        whole_prefix(all);
    }
    Json::array(out)
}

/// The system prompt, as it is recorded.
pub fn serialize_system_instructions(system_prompt: &str) -> (r: Json)
    requires
        can_cut(system_prompt@, MAX_CONTENT_BYTES as nat),
    ensures
        r@ == JsonView::Array(
            seq![text_part(truncated(system_prompt@, MAX_CONTENT_BYTES as nat))],
        ),
{
    let content = truncate_content(system_prompt, MAX_CONTENT_BYTES);
    let mut parts = no_items();
    put_item(&mut parts, text_part_json(content.as_str()));
    assert(json_views(parts@) =~= seq![text_part(content@)]);
    Json::array(parts)
}

/// A call, as it is recorded.
pub open spec fn call_part(call: ToolCall) -> JsonView {
    JsonView::Object(
        seq![
            ("type"@, JsonView::String("tool_call"@)),
            ("id"@, JsonView::String(call.id@)),
            ("name"@, JsonView::String(call.name@)),
            ("arguments"@, JsonView::String(call.arguments@)),
        ],
    )
}

fn call_part_json(call: &ToolCall) -> (r: Json)
    ensures
        r@ == call_part(*call),
{
    let mut fields = no_fields();
    put_text(&mut fields, "type", "tool_call");
    put_text(&mut fields, "id", call.id.as_str());
    put_text(&mut fields, "name", call.name.as_str());
    put_text(&mut fields, "arguments", call.arguments.as_str());
    assert(field_views(fields@) =~= call_part(*call)->Object_0);
    Json::object(fields)
}

/// The calls of a reply.
pub open spec fn calls_in(response: GenerateResponse) -> Seq<ToolCall> {
    match response.tool_calls {
        Some(calls) => calls@,
        None => Seq::empty(),
    }
}

/// The parts of a reply: its text, unless there is none, and its calls; an empty
/// text where there is nothing.
pub open spec fn output_parts(response: GenerateResponse) -> Seq<JsonView> {
    let calls = calls_in(response);
    let parts = listed(
        if response.text@.len() == 0 {
            None
        } else {
            Some(text_part(response.text@))
        },
    ) + Seq::new(calls.len(), |i: int| call_part(calls[i]));
    if parts.len() == 0 {
        seq![text_part(Seq::empty())]
    } else {
        parts
    }
}

/// A reply, as it is recorded.
pub fn serialize_output_messages(response: &GenerateResponse) -> (r: Json)
    ensures
        r@ == JsonView::Array(seq![role_and_parts("assistant"@, output_parts(*response))]),
{
    let mut parts = no_items();
    if !response.text.as_str().is_empty() {
        put_item(&mut parts, text_part_json(response.text.as_str()));
    }
    let ghost first = json_views(parts@);
    let ghost calls_seq = calls_in(*response);
    let ghost all = Seq::new(calls_seq.len(), |i: int| call_part(calls_seq[i]));
    proof {
        whole_prefix(all);
        assert(first + all.subrange(0, 0) =~= first);
    }
    if let Some(calls) = &response.tool_calls {
        let mut i: usize = 0;
        while i < calls.len()
            invariant
                i <= calls@.len(),
                calls_seq == calls@,
                all == Seq::new(calls_seq.len(), |i: int| call_part(calls_seq[i])),
                json_views(parts@) == first + all.subrange(0, i as int),
            decreases calls@.len() - i,
        {
            put_item(&mut parts, call_part_json(&calls[i]));
            proof {
                prefix_next(all, i as int);
                assert(json_views(parts@) =~= first + all.subrange(0, i + 1));
            }
            i = i + 1;
        }
        proof {
            whole_prefix(all);
        }
    }
    assert(json_views(parts@) == first + all);
    assert(json_views(parts@).len() == parts@.len());
    if parts.len() == 0 {
        put_item(&mut parts, text_part_json(""));
        proof {
            reveal_strlit("");
            assert(""@ =~= Seq::<char>::empty());
            assert(json_views(parts@) =~= seq![text_part(Seq::empty())]);
            assert(json_views(parts@) =~= output_parts(*response));
        }
    } else {
        assert(json_views(parts@) =~= output_parts(*response));
    }
    let message = role_and_parts_json("assistant", parts);
    let ghost shown = message@;
    let mut out = no_items();
    put_item(&mut out, message);
    assert(json_views(out@) =~= seq![shown]);
    Json::array(out)
}

/// The parameters of a tool, as they are recorded: the text of a schema that is too
/// long is cut.
pub open spec fn recorded_parameters(parameters: JsonView) -> JsonView {
    let text = json_text(parameters);
    if encode_utf8(text).len() > 2000 {
        JsonView::String(first_bytes(text, 2000) + "... [truncated]"@)
    } else {
        parameters
    }
}

/// A tool, as it is recorded.
pub open spec fn recorded_tool(tool: ToolDefinition) -> JsonView {
    JsonView::Object(
        seq![("name"@, JsonView::String(tool.name@))] + field_if(
            "description"@,
            match tool.description {
                Some(description) => Some(JsonView::String(truncated(description@, 500))),
                None => None,
            },
        ) + field_if(
            "parameters"@,
            match tool.parameters {
                Some(parameters) => Some(recorded_parameters(parameters@)),
                None => None,
            },
        ),
    )
}

/// Tools, as they are recorded.
pub open spec fn recorded_tools(tools: Seq<ToolDefinition>) -> Seq<JsonView> {
    Seq::new(tools.len(), |i: int| recorded_tool(tools[i]))
}

/// Whether the description and the parameters of a tool can be cut.
pub open spec fn tool_can_be_cut(tool: ToolDefinition) -> bool {
    (match tool.description {
        Some(description) => can_cut(description@, 500),
        None => true,
    }) && (match tool.parameters {
        Some(parameters) => can_cut(json_text(parameters@), 2000),
        None => true,
    })
}

/// Whether all tools can be cut.
pub open spec fn tools_can_be_cut(tools: Seq<ToolDefinition>) -> bool {
    forall|i: int| 0 <= i < tools.len() ==> tool_can_be_cut(#[trigger] tools[i])
}

fn recorded_tool_json(tool: &ToolDefinition) -> (r: Json)
    requires
        tool_can_be_cut(*tool),
    ensures
        r@ == recorded_tool(*tool),
{
    let mut fields = no_fields();
    put_text(&mut fields, "name", tool.name.as_str());
    if let Some(description) = &tool.description {
        let short = truncate_content(description.as_str(), 500);
        put_text(&mut fields, "description", short.as_str());
    }
    if let Some(parameters) = &tool.parameters {
        let text = parameters.to_text();
        if text.as_str().as_bytes().len() > 2000 {
            let short = concat2(head_of(text.as_str(), 2000), "... [truncated]");
            put_text(&mut fields, "parameters", short.as_str());
        } else {
            put(&mut fields, "parameters", parameters.duplicate());
        }
    }
    assert(field_views(fields@) =~= recorded_tool(*tool)->Object_0);
    Json::object(fields)
}

/// Tools, as they are recorded.
pub fn serialize_tool_definitions(tools: &Vec<ToolDefinition>) -> (r: Json)
    requires
        tools_can_be_cut(tools@),
    ensures
        r@ == JsonView::Array(recorded_tools(tools@)),
{
    let mut out = no_items();
    let ghost all = recorded_tools(tools@);
    let mut i: usize = 0;
    proof {
        whole_prefix(all);
    }
    while i < tools.len()
        invariant
            i <= tools@.len(),
            tools_can_be_cut(tools@),
            all == recorded_tools(tools@),
            json_views(out@) == all.subrange(0, i as int),
        decreases tools@.len() - i,
    {
        assert(tool_can_be_cut(tools@[i as int]));
        put_item(&mut out, recorded_tool_json(&tools[i]));
        proof {
            prefix_next(all, i as int);
        }
        i = i + 1;
    }
    proof {
        whole_prefix(all);
    }
    Json::array(out)
}

/// Tools, as they are recorded, or nothing where one of them cannot be cut.
pub fn try_serialize_tool_definitions(tools: &Vec<ToolDefinition>) -> (r: Option<Json>)
    ensures
        opt_json(r) == (if tools_can_be_cut(tools@) {
            Some(JsonView::Array(recorded_tools(tools@)))
        } else {
            None
        }),
{
    let mut i: usize = 0;
    while i < tools.len()
        invariant
            i <= tools@.len(),
            forall|j: int| 0 <= j < i ==> tool_can_be_cut(#[trigger] tools@[j]),
        decreases tools@.len() - i,
    {
        let tool = &tools[i];
        let described = match &tool.description {
            Some(description) => can_truncate(description.as_str(), 500),
            None => true,
        };
        let limited = match &tool.parameters {
            Some(parameters) => {
                let text = parameters.to_text();
                can_truncate(text.as_str(), 2000)
            },
            None => true,
        };
        if !described || !limited {
            assert(!tool_can_be_cut(tools@[i as int]));
            return None;
        }
        i = i + 1;
    }
    Some(serialize_tool_definitions(tools))
}

/// The name of a span about a call of a model.
pub open spec fn span_name(model: Seq<char>) -> Seq<char> {
    "chat "@ + model
}

/// The name of a span about a call of a model, and the attributes it begins with.
pub fn create_gen_ai_span(
    provider: &str,
    model: &str,
    project_id: &Option<String>,
    workspace_id: &Option<String>,
    deployment_id: &Option<String>,
) -> (r: (String, Vec<Attribute>))
    ensures
        r.0@ == span_name(model@),
        attribute_views(r.1@) == seq![
            (attributes::OPERATION_NAME@, ValueView::Text("chat"@)),
            (attributes::PROVIDER_NAME@, ValueView::Text(provider@)),
            (attributes::REQUEST_MODEL@, ValueView::Text(model@)),
        ] + attribute_if("agnt5.project.id"@, text_value(opt_text(*project_id))) + attribute_if(
            "agnt5.workspace.id"@,
            text_value(opt_text(*workspace_id)),
        ) + attribute_if("agnt5.deployment.id"@, text_value(opt_text(*deployment_id))),
{
    let mut list: Vec<Attribute> = Vec::new();
    assert(attribute_views(list@) =~= Seq::empty());
    set_text(&mut list, attributes::OPERATION_NAME, "chat");
    set_text(&mut list, attributes::PROVIDER_NAME, provider);
    set_text(&mut list, attributes::REQUEST_MODEL, model);
    assert(attribute_views(list@) =~= seq![
        (attributes::OPERATION_NAME@, ValueView::Text("chat"@)),
        (attributes::PROVIDER_NAME@, ValueView::Text(provider@)),
        (attributes::REQUEST_MODEL@, ValueView::Text(model@)),
    ]);
    set_opt(&mut list, "agnt5.project.id", text_attribute(project_id));
    set_opt(&mut list, "agnt5.workspace.id", text_attribute(workspace_id));
    set_opt(&mut list, "agnt5.deployment.id", text_attribute(deployment_id));
    (concat2("chat ", model), list)
}

/// Sets what a request asks for.
pub fn set_request_attributes(list: &mut Vec<Attribute>, request: &GenerateRequest)
    ensures
        attribute_views(final(list)@) == attribute_views(old(list)@) + attribute_if(
            attributes::REQUEST_TEMPERATURE@,
            number_value(request.config.temperature),
        ) + attribute_if(attributes::REQUEST_TOP_P@, number_value(request.config.top_p))
            + attribute_if(
            attributes::REQUEST_MAX_TOKENS@,
            count_value(request.config.max_output_tokens),
        ),
{
    set_opt(
        list,
        attributes::REQUEST_TEMPERATURE,
        number_attribute(&request.config.temperature),
    );
    set_opt(list, attributes::REQUEST_TOP_P, number_attribute(&request.config.top_p));
    set_opt(
        list,
        attributes::REQUEST_MAX_TOKENS,
        count_attribute(request.config.max_output_tokens),
    );
}

/// What is set of a usage.
pub open spec fn usage_attributes(usage: TokenUsage) -> Seq<(Seq<char>, ValueView)> {
    attribute_if(attributes::USAGE_INPUT_TOKENS@, count_value(usage.prompt_tokens)) + attribute_if(
        attributes::USAGE_OUTPUT_TOKENS@,
        count_value(usage.completion_tokens),
    ) + attribute_if(attributes::USAGE_CACHE_READ_TOKENS@, count_value(usage.cached_tokens))
        + attribute_if(
        attributes::USAGE_CACHE_CREATION_TOKENS@,
        count_value(usage.cache_creation_tokens),
    )
}

/// Sets what a call used.
pub fn set_token_usage_attributes(list: &mut Vec<Attribute>, usage: &TokenUsage)
    ensures
        attribute_views(final(list)@) == attribute_views(old(list)@) + usage_attributes(*usage),
{
    let ghost before = attribute_views(list@);
    set_opt(list, attributes::USAGE_INPUT_TOKENS, count_attribute(usage.prompt_tokens));
    set_opt(list, attributes::USAGE_OUTPUT_TOKENS, count_attribute(usage.completion_tokens));
    set_opt(list, attributes::USAGE_CACHE_READ_TOKENS, count_attribute(usage.cached_tokens));
    set_opt(
        list,
        attributes::USAGE_CACHE_CREATION_TOKENS,
        count_attribute(usage.cache_creation_tokens),
    );
    assert(attribute_views(list@) =~= before + usage_attributes(*usage));
}

/// What is set of a reply.
pub open spec fn response_attributes(response: GenerateResponse, capture_content: bool) -> Seq<
    (Seq<char>, ValueView),
> {
    let usage: Seq<(Seq<char>, ValueView)> = match response.usage {
        Some(usage) => usage_attributes(usage),
        None => Seq::empty(),
    };
    let recorded = JsonView::Array(seq![role_and_parts("assistant"@, output_parts(response))]);
    seq![(attributes::RESPONSE_MODEL@, ValueView::Text(response.model@))] + usage + attribute_if(
        attributes::RESPONSE_FINISH_REASONS@,
        match response.finish_reason {
            Some(reason) => Some(ValueView::Text("[\""@ + reason@ + "\"]"@)),
            None => None,
        },
    ) + attribute_if(
        attributes::OUTPUT_MESSAGES@,
        if capture_content {
            Some(ValueView::Text(json_text(recorded)))
        } else {
            None
        },
    )
}

/// Sets what a reply says.
pub fn set_response_attributes(
    list: &mut Vec<Attribute>,
    response: &GenerateResponse,
    capture_content: bool,
)
    ensures
        attribute_views(final(list)@) == attribute_views(old(list)@) + response_attributes(
            *response,
            capture_content,
        ),
{
    let ghost before = attribute_views(list@);
    set_text(list, attributes::RESPONSE_MODEL, response.model.as_str());
    let ghost named = attribute_views(list@);
    if let Some(usage) = &response.usage {
        set_token_usage_attributes(list, usage);
    } else {
        assert(named + Seq::<(Seq<char>, ValueView)>::empty() =~= named);
    }
    let reason = match &response.finish_reason {
        Some(reason) => Some(AttributeValue::Text(concat3("[\"", reason.as_str(), "\"]"))),
        None => None,
    };
    set_opt(list, attributes::RESPONSE_FINISH_REASONS, reason);
    let messages = if capture_content {
        Some(AttributeValue::Text(serialize_output_messages(response).to_text()))
    } else {
        None
    };
    set_opt(list, attributes::OUTPUT_MESSAGES, messages);
    assert(attribute_views(list@) =~= before + response_attributes(*response, capture_content));
}

/// What is set of a cost, in units of 10^-10 US dollars.
pub fn set_cost_attributes(list: &mut Vec<Attribute>, cost: JsonNumber)
    ensures
        attribute_views(final(list)@) == attribute_views(old(list)@).push(
            (attributes::USAGE_COST@, ValueView::Number(cost@)),
        ).push((attributes::USAGE_COST_CURRENCY@, ValueView::Text("USD"@))),
{
    set_attribute(list, attributes::USAGE_COST, AttributeValue::Number(cost));
    set_text(list, attributes::USAGE_COST_CURRENCY, "USD");
}

/// Sets how long a call took.
pub fn set_duration(list: &mut Vec<Attribute>, duration_ms: i64)
    ensures
        attribute_views(final(list)@) == attribute_views(old(list)@).push(
            (attributes::REQUEST_DURATION_MS@, ValueView::Int(duration_ms)),
        ),
{
    set_attribute(list, attributes::REQUEST_DURATION_MS, AttributeValue::Int(duration_ms));
}

/// What the `Debug` form of a text is.
pub uninterp spec fn quoted(s: Seq<char>) -> Seq<char>;

/// The `Debug` form of `str`: the text in quotation marks, with escapes. It depends
/// on the text alone.
#[verifier::external_body]
pub(crate) fn quoted_text(s: &str) -> (r: String)
    ensures
        r@ == quoted(s@),
{
    format!("{:?}", s)
}

/// The choice of a tool, as it is recorded.
pub open spec fn choice_text(choice: ToolChoice) -> Seq<char> {
    match choice {
        ToolChoice::Auto => "Auto"@,
        ToolChoice::NoTools => "None"@,
        ToolChoice::Required => "Required"@,
        ToolChoice::Tool { name } => "Tool { name: "@ + quoted(name@) + " }"@,
    }
}

fn text_of_choice(choice: &ToolChoice) -> (r: String)
    ensures
        r@ == choice_text(*choice),
{
    match choice {
        ToolChoice::Auto => "Auto".to_owned(),
        ToolChoice::NoTools => "None".to_owned(),
        ToolChoice::Required => "Required".to_owned(),
        ToolChoice::Tool { name } => concat3(
            "Tool { name: ",
            quoted_text(name.as_str()).as_str(),
            " }",
        ),
    }
}

/// What is set of the tools of a request.
pub open spec fn tool_attributes(request: GenerateRequest, capture_content: bool) -> Seq<
    (Seq<char>, ValueView),
> {
    let count: Option<ValueView> = if request.tools@.len() > 0 {
        Some(ValueView::Int(request.tools@.len() as i64))
    } else {
        None
    };
    let recorded: Option<ValueView> = if request.tools@.len() > 0 && capture_content {
        Some(ValueView::Text(json_text(JsonView::Array(recorded_tools(request.tools@)))))
    } else {
        None
    };
    let choice: Option<ValueView> = match request.tool_choice {
        Some(choice) => Some(ValueView::Text(choice_text(choice))),
        None => None,
    };
    attribute_if("gen_ai.request.tools_count"@, count) + attribute_if(
        "gen_ai.request.tools"@,
        recorded,
    ) + attribute_if("gen_ai.request.tool_choice"@, choice)
}

/// Sets what a request says of tools. Where one of them cannot be cut, nothing is
/// set, and `false` is returned.
pub fn set_tool_request_attributes(
    list: &mut Vec<Attribute>,
    request: &GenerateRequest,
    capture_content: bool,
) -> (r: bool)
    requires
        request.tools@.len() <= i64::MAX,
    ensures
        r == (tools_can_be_cut(request.tools@) || !capture_content || request.tools@.len() == 0),
        r ==> attribute_views(final(list)@) == attribute_views(old(list)@) + tool_attributes(
            *request,
            capture_content,
        ),
        !r ==> attribute_views(final(list)@) == attribute_views(old(list)@),
{
    let ghost before = attribute_views(list@);
    let some = request.tools.len() > 0;
    let recorded = if some && capture_content {
        match try_serialize_tool_definitions(&request.tools) {
            Some(json) => Some(AttributeValue::Text(json.to_text())),
            None => {
                return false;
            },
        }
    } else {
        None
    };
    let count = if some {
        Some(AttributeValue::Int(request.tools.len() as i64))
    } else {
        None
    };
    let choice = match &request.tool_choice {
        Some(choice) => Some(AttributeValue::Text(text_of_choice(choice))),
        None => None,
    };
    set_opt(list, "gen_ai.request.tools_count", count);
    set_opt(list, "gen_ai.request.tools", recorded);
    set_opt(list, "gen_ai.request.tool_choice", choice);
    assert(attribute_views(list@) =~= before + tool_attributes(*request, capture_content));
    true
}

/// What is said is recorded unless the setting says `false`, in any case of letters, or
/// `0`.
pub proof fn content_is_captured_unless_refused(setting: Seq<char>)
    ensures
        captures_content(None),
        captures_content(Some(setting)) <==> lowered(setting) != "false"@ && setting != "0"@,
{
}

/// A text that is short enough is recorded as it is; of a longer one the first bytes are,
/// with how many were cut off.
pub proof fn long_texts_are_cut(content: Seq<char>, max_bytes: nat)
    ensures
        encode_utf8(content).len() <= max_bytes ==> truncated(content, max_bytes) == content,
        encode_utf8(content).len() > max_bytes ==> ({
            let head = decode_utf8(encode_utf8(content).subrange(0, max_bytes as int));
            let cut = truncated(content, max_bytes);
            &&& cut.subrange(0, head.len() as int) == head
            &&& cut == head + "... [truncated "@ + decimal(
                (encode_utf8(content).len() - max_bytes) as nat,
            ) + " bytes]"@
        }),
        MAX_CONTENT_BYTES == 10_000,
{
    if encode_utf8(content).len() > max_bytes {
        let head = first_bytes(content, max_bytes);
        assert(truncated(content, max_bytes).subrange(0, head.len() as int) =~= head);
    }
}

/// Messages are recorded in their order, each with its speaker and its text.
pub proof fn messages_are_recorded_in_order(messages: Seq<Message>, message: Message)
    ensures
        ({
            let all = input_messages(messages.push(message));
            let parts = all.last().field("parts"@)->0.items()->0;
            &&& all.drop_last() == input_messages(messages)
            &&& all.last().field_text("role"@) == Some(message.role.name())
            &&& parts.len() == 1
            &&& parts[0].field_text("type"@) == Some("text"@)
            &&& parts[0].field_text("content"@) == Some(truncated(message.content@, 10_000))
        }),
{
    broadcast use crate::json::group_fields;

    reveal_with_fuel(crate::json::last_field, 3);
    reveal_strlit("role");
    reveal_strlit("parts");
    reveal_strlit("type");
    reveal_strlit("content");
    assert("role"@.len() == 4
        && "parts"@.len() == 5
        && "type"@.len() == 4
        && "content"@.len() == 7
        && "role"@[0] == 'r'
        && "type"@[0] == 't');
    let all = input_messages(messages.push(message));
    assert(all.drop_last() =~= input_messages(messages));
    assert(all.last().field("parts"@) is Some);
}

/// A reply is recorded with its text first, unless there is none, and its calls after it
/// in their order; where there is nothing, an empty text is recorded.
pub proof fn replies_are_recorded_in_order(response: GenerateResponse, i: int)
    ensures
        ({
            let parts = output_parts(response);
            let calls = calls_in(response);
            let words: int = if response.text@.len() > 0 {
                1
            } else {
                0
            };
            &&& response.tool_calls is None ==> calls.len() == 0
            &&& response.tool_calls matches Some(c) ==> calls == c@
            &&& response.text@.len() > 0 ==> parts[0].field_text("content"@) == Some(response.text@)
                && parts[0].field_text("type"@) == Some("text"@)
            &&& response.text@.len() == 0 && calls.len() == 0 ==> parts.len() == 1
                && parts[0].field_text("content"@) == Some(Seq::<char>::empty())
            &&& response.text@.len() > 0 || calls.len() > 0 ==> parts.len() == words + calls.len()
            &&& 0 <= i < calls.len() ==> {
                &&& parts[words + i].field_text("type"@) == Some("tool_call"@)
                &&& parts[words + i].field_text("id"@) == Some(calls[i].id@)
                &&& parts[words + i].field_text("name"@) == Some(calls[i].name@)
                &&& parts[words + i].field_text("arguments"@) == Some(calls[i].arguments@)
            }
        }),
{
    broadcast use crate::json::group_fields;

    reveal_with_fuel(crate::json::last_field, 5);
    reveal_strlit("type");
    reveal_strlit("content");
    reveal_strlit("id");
    reveal_strlit("name");
    reveal_strlit("arguments");
    assert("type"@.len() == 4
        && "content"@.len() == 7
        && "id"@.len() == 2
        && "name"@.len() == 4
        && "arguments"@.len() == 9
        && "type"@[0] == 't'
        && "name"@[0] == 'n');
    let parts = output_parts(response);
    let calls = calls_in(response);
    if 0 <= i < calls.len() {
        let words: int = if response.text@.len() > 0 {
            1
        } else {
            0
        };
        assert(parts[words + i] == call_part(calls[i]));
    }
}

/// Tools are recorded in their order, each with its name, what it is for and what it
/// takes; long texts are cut.
pub proof fn tools_are_recorded_in_order(tools: Seq<ToolDefinition>, i: int)
    requires
        0 <= i < tools.len(),
    ensures
        recorded_tools(tools).len() == tools.len(),
        ({
            let told = recorded_tools(tools)[i];
            &&& told.field_text("name"@) == Some(tools[i].name@)
            &&& tools[i].description is None ==> told.field("description"@) is None
            &&& tools[i].description matches Some(d) ==> told.field_text("description"@) == Some(
                truncated(d@, 500),
            )
            &&& tools[i].parameters is None ==> told.field("parameters"@) is None
            &&& tools[i].parameters matches Some(p) ==> {
                &&& encode_utf8(json_text(p@)).len() <= 2000 ==> told.field("parameters"@) == Some(
                    p@,
                )
                &&& encode_utf8(json_text(p@)).len() > 2000 ==> told.field_text("parameters"@)
                    == Some(first_bytes(json_text(p@), 2000) + "... [truncated]"@)
            }
        }),
{
    broadcast use crate::json::group_fields;

    reveal_strlit("name");
    reveal_strlit("description");
    reveal_strlit("parameters");
    assert("name"@.len() == 4
        && "description"@.len() == 11
        && "parameters"@.len() == 10);
}

/// What was used is recorded under the name of each count, where it is known.
pub proof fn counts_are_recorded_under_their_names(usage: TokenUsage, n: u32)
    ensures
        usage_attributes(usage) == attribute_if(
            "gen_ai.usage.input_tokens"@,
            count_value(usage.prompt_tokens),
        ) + attribute_if("gen_ai.usage.output_tokens"@, count_value(usage.completion_tokens))
            + attribute_if(
            "gen_ai.usage.cache_read_input_tokens"@,
            count_value(usage.cached_tokens),
        ) + attribute_if(
            "gen_ai.usage.cache_creation_input_tokens"@,
            count_value(usage.cache_creation_tokens),
        ),
        count_value(Some(n)) == Some(ValueView::Int(n as i64)),
        count_value(None) is None,
        attribute_if("x"@, None).len() == 0,
        attribute_if("x"@, count_value(Some(n))) == seq![("x"@, ValueView::Int(n as i64))],
{
}

/// The model that replied is recorded first, then what was used, why the reply ended and,
/// where what is said is recorded, the reply.
pub proof fn replies_are_recorded_under_their_names(response: GenerateResponse, capture: bool)
    ensures
        ({
            let all = response_attributes(response, capture);
            let used = usage_attributes(response.usage->0).len();
            &&& all[0] == ("gen_ai.response.model"@, ValueView::Text(response.model@))
            &&& response.usage is Some ==> all.subrange(1, 1 + used as int) == usage_attributes(
                response.usage->0,
            )
            &&& capture ==> all.last() == (
                "gen_ai.output.messages"@,
                ValueView::Text(
                    json_text(
                        JsonView::Array(seq![role_and_parts("assistant"@, output_parts(response))]),
                    ),
                ),
            )
            &&& !capture && response.finish_reason is Some ==> all.last() == (
                "gen_ai.response.finish_reasons"@,
                ValueView::Text("[\""@ + response.finish_reason->0@ + "\"]"@),
            )
            &&& response.usage is None && response.finish_reason is None && !capture ==> all.len()
                == 1
        }),
{
    if response.usage is Some {
        let used = usage_attributes(response.usage->0);
        assert(response_attributes(response, capture).subrange(1, 1 + used.len() as int) =~= used);
    }
}

/// The tools of a request are counted, recorded where what is said is, and their choice is
/// told.
pub proof fn tool_settings_are_recorded(request: GenerateRequest, capture: bool, name: String)
    requires
        request.tools@.len() <= i64::MAX,
    ensures
        ({
            let all = tool_attributes(request, capture);
            &&& request.tools@.len() == 0 && request.tool_choice is None ==> all.len() == 0
            &&& request.tools@.len() > 0 ==> all[0] == (
                "gen_ai.request.tools_count"@,
                ValueView::Int(request.tools@.len() as i64),
            )
            &&& request.tools@.len() > 0 && capture ==> all[1] == (
                "gen_ai.request.tools"@,
                ValueView::Text(json_text(JsonView::Array(recorded_tools(request.tools@)))),
            )
            &&& request.tools@.len() > 0 && !capture && request.tool_choice is None ==> all.len()
                == 1
            &&& request.tool_choice matches Some(choice) ==> all.last() == (
                "gen_ai.request.tool_choice"@,
                ValueView::Text(choice_text(choice)),
            )
        }),
        choice_text(ToolChoice::Auto) == "Auto"@,
        choice_text(ToolChoice::NoTools) == "None"@,
        choice_text(ToolChoice::Required) == "Required"@,
        choice_text(ToolChoice::Tool { name }) == "Tool { name: "@ + quoted(name@) + " }"@,
{
}

/// The other names under which calls of models are recorded, and how spans are called.
pub proof fn spans_have_their_names(model: Seq<char>)
    ensures
        span_name(model) == "chat "@ + model,
        attributes::OPERATION_NAME@ == "gen_ai.operation.name"@,
        attributes::PROVIDER_NAME@ == "gen_ai.provider.name"@,
        attributes::REQUEST_MODEL@ == "gen_ai.request.model"@,
        attributes::REQUEST_TEMPERATURE@ == "gen_ai.request.temperature"@,
        attributes::REQUEST_TOP_P@ == "gen_ai.request.top_p"@,
        attributes::REQUEST_MAX_TOKENS@ == "gen_ai.request.max_tokens"@,
        attributes::USAGE_COST@ == "gen_ai.usage.cost"@,
        attributes::USAGE_COST_CURRENCY@ == "gen_ai.usage.cost.currency"@,
        attributes::INPUT_MESSAGES@ == "gen_ai.input.messages"@,
        attributes::SYSTEM_INSTRUCTIONS@ == "gen_ai.system_instructions"@,
        attributes::REQUEST_DURATION_MS@ == "gen_ai.request.duration_ms"@,
{
}

} // verus!
