//! Models behind Amazon Bedrock, whose families each have a payload of their own.
use vstd::prelude::*;
use vstd::string::*;

use super::anthropic_blocks::{
    anthropic_tools, convert_tools, text_block, text_block_json, tool_result_json,
    tool_result_message, tool_use_block, tool_use_block_json, typed, typed_json,
};
use super::bedrock_signing::AwsCredentials;
use super::formats::{format_instruction, response_format_instruction};
use super::http::RetryConfig;
use super::interface::{GenerateRequest, Message, MessageRole, ToolCall, ToolChoice};
use super::models::{parted_at_slash, trimmed_ends};
use crate::duration::{seconds, Duration};
use crate::error::{bad_setting, setting_error, ErrorView, SdkError};
use crate::json::{
    array_unless_empty, field_if, field_views, json_views, no_fields, no_items, number_json,
    number_view, opt_json, put, put_item, put_opt, put_text, text_unless_empty, unless_empty,
    whole_number, Json, JsonView,
};
use crate::seqs::{flattened, flattened_next, listed, prefix_next, whole_prefix};
use crate::text::{
    begins_with, concat2, concat3, concat4, concat5, contains, contains_text, find_from_is_first,
    find_text, is_blank, join, joined, parted, split_once, starts_with, str_eq, texts, trim, trimmed,
};

verus! {

/// The limit on a reply's tokens where a request sets none.
pub const DEFAULT_MAX_TOKENS: u32 = 1024;

/// The families of models, by who makes them.
#[derive(Clone, Copy, Debug, PartialEq, Eq, Structural)]
pub enum BedrockModelFamily {
    Anthropic,
    MetaLlama,
    AmazonTitan,
    Cohere,
    Mistral,
}

/// Whether any message is from someone else than the system.
pub open spec fn has_turn(messages: Seq<Message>) -> bool {
    exists|i: int| 0 <= i < messages.len() && (#[trigger] messages[i]).role != MessageRole::System
}

/// What is wrong with a request to a family of models, if anything is.
pub open spec fn request_fault(
    request: GenerateRequest,
    family: BedrockModelFamily,
) -> Option<ErrorView> {
    if request.messages@.len() == 0 {
        Some(
            ErrorView::Configuration {
                message: "at least one message is required for Bedrock requests"@,
                field: None,
            },
        )
    } else if !has_turn(request.messages@) {
        Some(
            bad_setting(
                "Bedrock requests require at least one user or assistant message"@,
                "messages"@,
            ),
        )
    } else if family != BedrockModelFamily::Anthropic && (request.tools@.len() > 0
        || request.tool_choice is Some) {
        Some(
            bad_setting(
                "Bedrock native tool calls are currently supported for Anthropic models only"@,
                "tools"@,
            ),
        )
    } else {
        None
    }
}

/// Checks a request before anything is made of it.
pub fn validate_request(request: &GenerateRequest, family: BedrockModelFamily) -> (r: Result<
    (),
    SdkError,
>)
    ensures
        match r {
            Ok(_) => request_fault(*request, family) is None,
            Err(e) => request_fault(*request, family) == Some(e@),
        },
{
    if request.messages.len() == 0 {
        return Err(
            SdkError::Configuration {
                message: "at least one message is required for Bedrock requests".to_owned(),
                field: None,
            },
        );
    }
    let mut found = false;
    let mut i: usize = 0;
    while i < request.messages.len()
        invariant
            i <= request.messages@.len(),
            found == exists|j: int|
                0 <= j < i && (#[trigger] request.messages@[j]).role != MessageRole::System,
        decreases request.messages@.len() - i,
    {
        if request.messages[i].role != MessageRole::System {
            found = true;
        }
        i = i + 1;
    }
    if !found {
        return Err(
            setting_error(
                "Bedrock requests require at least one user or assistant message".to_owned(),
                "messages",
            ),
        );
    }
    if family != BedrockModelFamily::Anthropic && (request.tools.len() > 0
        || request.tool_choice.is_some()) {
        return Err(
            setting_error(
                "Bedrock native tool calls are currently supported for Anthropic models only".to_owned(),
                "tools",
            ),
        );
    }
    Ok(())
}

/// The region and the model that a model id names: `bedrock/<region>/<model>`, or
/// `bedrock/<model>` where there is a default region.
pub open spec fn region_and_model(model: Seq<char>, default_region: Option<Seq<char>>) -> Result<
    (Seq<char>, Seq<char>),
    ErrorView,
> {
    match parted(trimmed(model), "/"@) {
        None => Err(bad_setting("Bedrock model ids must be prefixed with `bedrock/`"@, "model"@)),
        Some((prefix, rest)) => if prefix != "bedrock"@ {
            Err(
                bad_setting(
                    "Bedrock provider expects model ids prefixed with `bedrock/`; got `"@ + prefix
                        + "`"@,
                    "model"@,
                ),
            )
        } else {
            match (parted(rest, "/"@), default_region) {
                (Some((region, id)), _) => if trimmed(region).len() == 0 || trimmed(id).len() == 0 {
                    Err(
                        bad_setting(
                            "Bedrock model id must be in the form `bedrock/<region>/<model>`"@,
                            "model"@,
                        ),
                    )
                } else {
                    Ok((trimmed(region), trimmed(id)))
                },
                (None, Some(region)) => Ok((region, trimmed(rest))),
                (None, None) => Err(
                    bad_setting(
                        "Bedrock model id must include a region (bedrock/<region>/<model>)"@,
                        "model"@,
                    ),
                ),
            }
        },
    }
}

/// A region and a model are read back from the model id that is made of them,
/// whatever the default region.
pub proof fn routes_are_read_back(
    region: Seq<char>,
    id: Seq<char>,
    default_region: Option<Seq<char>>,
)
    requires
        region.len() > 0,
        trimmed(region) == region,
        !contains_text(region, "/"@),
        id.len() > 0,
        trimmed(id) == id,
    ensures
        region_and_model("bedrock/"@ + region + "/"@ + id, default_region) == Ok::<
            (Seq<char>, Seq<char>),
            ErrorView,
        >((region, id)),
{
    let model = "bedrock/"@ + region + "/"@ + id;
    let rest = region + "/"@ + id;
    reveal_strlit("bedrock/");
    reveal_strlit("bedrock");
    reveal_strlit("/");
    trimmed_ends(id);
    assert(model =~= "bedrock"@ + "/"@ + rest);
    assert(model[0] == 'b');
    assert(model.last() == id.last());
    assert(trimmed(model) == model);
    find_from_is_first("bedrock"@, "/"@, 0);
    match find_text("bedrock"@, "/"@) {
        Some(k) => {
            assert("bedrock"@.subrange(k, k + 1)[0] == "/"@[0]);
        },
        None => {},
    }
    parted_at_slash("bedrock"@, rest);
    parted_at_slash(region, id);
}

/// The region and the model that a model id names.
pub fn extract_region_and_model(model: &str, default_region: Option<&str>) -> (r: Result<
    (String, String),
    SdkError,
>)
    ensures
        ({
            let region = match default_region {
                Some(s) => Some(s@),
                None => None,
            };
            match r {
                Ok(p) => region_and_model(model@, region) == Ok::<
                    (Seq<char>, Seq<char>),
                    ErrorView,
                >((p.0@, p.1@)),
                Err(e) => region_and_model(model@, region) == Err::<
                    (Seq<char>, Seq<char>),
                    ErrorView,
                >(e@),
            }
        }),
{
    let trimmed_model = trim(model);
    let rest = match split_once(trimmed_model.as_str(), "/") {
        Some((prefix, rest)) => {
            if !str_eq(prefix.as_str(), "bedrock") {
                return Err(
                    setting_error(
                        concat3(
                            "Bedrock provider expects model ids prefixed with `bedrock/`; got `",
                            prefix.as_str(),
                            "`",
                        ),
                        "model",
                    ),
                );
            }
            rest
        },
        None => {
            return Err(
                setting_error(
                    "Bedrock model ids must be prefixed with `bedrock/`".to_owned(),
                    "model",
                ),
            );
        },
    };
    match split_once(rest.as_str(), "/") {
        Some((region, model_id)) => {
            let region = trim(region.as_str());
            let model_id = trim(model_id.as_str());
            if region.as_str().is_empty() || model_id.as_str().is_empty() {
                Err(
                    setting_error(
                        "Bedrock model id must be in the form `bedrock/<region>/<model>`".to_owned(),
                        "model",
                    ),
                )
            } else {
                Ok((region, model_id))
            }
        },
        None => match default_region {
            Some(region) => Ok((region.to_owned(), trim(rest.as_str()))),
            None => Err(
                setting_error(
                    "Bedrock model id must include a region (bedrock/<region>/<model>)".to_owned(),
                    "model",
                ),
            ),
        },
    }
}

/// The family that a model belongs to, by the beginning of its id.
pub open spec fn family_of(model_id: Seq<char>) -> Option<BedrockModelFamily> {
    if begins_with(model_id, "anthropic."@) {
        Some(BedrockModelFamily::Anthropic)
    } else if begins_with(model_id, "meta.llama"@) {
        Some(BedrockModelFamily::MetaLlama)
    } else if begins_with(model_id, "amazon.titan"@) {
        Some(BedrockModelFamily::AmazonTitan)
    } else if begins_with(model_id, "cohere."@) {
        Some(BedrockModelFamily::Cohere)
    } else if begins_with(model_id, "mistral."@) {
        Some(BedrockModelFamily::Mistral)
    } else {
        None
    }
}

/// The family that a model belongs to.
pub fn model_family(model_id: &str) -> (r: Result<BedrockModelFamily, SdkError>)
    ensures
        match r {
            Ok(family) => family_of(model_id@) == Some(family),
            Err(e) => family_of(model_id@) is None && e@ == bad_setting(
                "unsupported Bedrock model family for `"@ + model_id@
                    + "`; supported prefixes are anthropic., meta.llama, amazon.titan, cohere., and mistral."@,
                "model"@,
            ),
        },
{
    if starts_with(model_id, "anthropic.") {
        Ok(BedrockModelFamily::Anthropic)
    } else if starts_with(model_id, "meta.llama") {
        Ok(BedrockModelFamily::MetaLlama)
    } else if starts_with(model_id, "amazon.titan") {
        Ok(BedrockModelFamily::AmazonTitan)
    } else if starts_with(model_id, "cohere.") {
        Ok(BedrockModelFamily::Cohere)
    } else if starts_with(model_id, "mistral.") {
        Ok(BedrockModelFamily::Mistral)
    } else {
        Err(
            setting_error(
                concat3(
                    "unsupported Bedrock model family for `",
                    model_id,
                    "`; supported prefixes are anthropic., meta.llama, amazon.titan, cohere., and mistral.",
                ),
                "model",
            ),
        )
    }
}

/// A text, unless it is blank.
pub open spec fn unless_blank(s: Seq<char>) -> Option<Seq<char>> {
    if trimmed(s).len() == 0 {
        None
    } else {
        Some(s)
    }
}

/// The texts of the system's messages that are not blank.
pub open spec fn system_texts(messages: Seq<Message>) -> Seq<Option<Seq<char>>> {
    Seq::new(
        messages.len(),
        |i: int|
            if messages[i].role == MessageRole::System {
                unless_blank(messages[i].content@)
            } else {
                None
            },
    )
}

/// The system prompt, unless it is blank.
pub open spec fn prompt_texts(request: GenerateRequest) -> Seq<Seq<char>> {
    listed(
        match request.system_prompt {
            Some(prompt) => unless_blank(prompt@),
            None => None,
        },
    )
}

/// What the system says: the prompt, its messages, and what is said of the form of
/// the reply.
pub open spec fn instructions(request: GenerateRequest) -> Seq<Seq<char>> {
    prompt_texts(request) + flattened(system_texts(request.messages@)) + listed(
        format_instruction(request.config.response_format),
    )
}

/// What the system says.
pub fn system_instructions(request: &GenerateRequest) -> (r: Vec<String>)
    ensures
        texts(r@) == instructions(*request),
{
    let mut out: Vec<String> = Vec::new();
    if let Some(prompt) = &request.system_prompt {
        if !is_blank(prompt.as_str()) {
            out.push(prompt.clone());
        }
    }
    let ghost first = prompt_texts(*request);
    let ghost all = system_texts(request.messages@);
    proof {
        whole_prefix(all);
        assert(texts(out@) =~= first + flattened(all.subrange(0, 0)));
    }
    let mut i: usize = 0;
    while i < request.messages.len()
        invariant
            i <= request.messages@.len(),
            all == system_texts(request.messages@),
            texts(out@) == first + flattened(all.subrange(0, i as int)),
        decreases request.messages@.len() - i,
    {
        let ghost before = texts(out@);
        let message = &request.messages[i];
        proof {
            flattened_next(all, i as int);
        }
        if message.role == MessageRole::System && !is_blank(message.content.as_str()) {
            out.push(message.content.clone());
            assert(texts(out@) =~= before.push(message.content@));
            assert(texts(out@) =~= first + flattened(all.subrange(0, i + 1)));
        }
        i = i + 1;
    }
    proof {
        whole_prefix(all);
    }
    let ghost before = texts(out@);
    if let Some(instruction) = response_format_instruction(&request.config.response_format) {
        out.push(instruction);
        assert(texts(out@) =~= before + seq![instruction@]);
    }
    assert(texts(out@) =~= instructions(*request));
    out
}

/// What the system says, as one text.
pub open spec fn system_text(request: GenerateRequest) -> Seq<char> {
    joined(instructions(request), "\n\n"@)
}

fn joined_instructions(request: &GenerateRequest) -> (r: String)
    ensures
        r@ == system_text(*request),
{
    let parts = system_instructions(request);
    join(&parts, "\n\n")
}

/// The calls of a message.
pub open spec fn calls_of(message: Message) -> Seq<ToolCall> {
    match message.tool_calls {
        Some(calls) => calls@,
        None => Seq::empty(),
    }
}

/// The blocks of a message: its text, unless there is none, and its calls.
pub open spec fn message_blocks(message: Message) -> Seq<JsonView> {
    (if message.content@.len() == 0 {
        Seq::empty()
    } else {
        seq![text_block(message.content@)]
    }) + Seq::new(calls_of(message).len(), |i: int| tool_use_block(calls_of(message)[i]))
}

/// A message in the form of Anthropic's models; those of the system stand elsewhere.
pub open spec fn anthropic_message(message: Message) -> Option<JsonView> {
    match message.tool_call_id {
        Some(id) => Some(tool_result_message(id@, message.content@)),
        None => if message.role == MessageRole::System {
            None
        } else {
            Some(
                JsonView::Object(
                    seq![
                        ("role"@, JsonView::String(message.role.name())),
                        ("content"@, JsonView::Array(message_blocks(message))),
                    ],
                ),
            )
        },
    }
}

fn anthropic_message_json(message: &Message) -> (r: Option<Json>)
    ensures
        opt_json(r) == anthropic_message(*message),
{
    if let Some(id) = &message.tool_call_id {
        return Some(tool_result_json(id.as_str(), message.content.as_str()));
    }
    if message.role == MessageRole::System {
        return None;
    }
    let mut blocks = no_items();
    if !message.content.as_str().is_empty() {
        put_item(&mut blocks, text_block_json(message.content.as_str()));
    }
    let ghost first = json_views(blocks@);
    if let Some(calls) = &message.tool_calls {
        let mut i: usize = 0;
        let ghost all = Seq::new(calls@.len(), |i: int| tool_use_block(calls@[i]));
        proof {
            whole_prefix(all);
            assert(first + all.subrange(0, 0) =~= first);
        }
        while i < calls.len()
            invariant
                i <= calls@.len(),
                all == Seq::new(calls@.len(), |i: int| tool_use_block(calls@[i])),
                json_views(blocks@) == first + all.subrange(0, i as int),
            decreases calls@.len() - i,
        {
            put_item(&mut blocks, tool_use_block_json(&calls[i]));
            proof {
                prefix_next(all, i as int);
                assert(json_views(blocks@) =~= first + all.subrange(0, i + 1));
            }
            i = i + 1;
        }
        proof {
            whole_prefix(all);
        }
    }
    assert(json_views(blocks@) =~= message_blocks(*message));
    let mut fields = no_fields();
    put_text(&mut fields, "role", message.role.as_str());
    put(&mut fields, "content", Json::array(blocks));
    assert(field_views(fields@) =~= anthropic_message(*message)->0->Object_0);
    Some(Json::object(fields))
}

/// The choice of a tool in the form that Bedrock takes. It has no word for using
/// none: the choice is left out then.
pub open spec fn bedrock_tool_choice(choice: Option<ToolChoice>) -> Option<JsonView> {
    match choice {
        None => None,
        Some(ToolChoice::Auto) => Some(typed("auto"@)),
        Some(ToolChoice::NoTools) => None,
        Some(ToolChoice::Required) => Some(typed("any"@)),
        Some(ToolChoice::Tool { name }) => Some(
            JsonView::Object(
                seq![("type"@, JsonView::String("tool"@)), ("name"@, JsonView::String(name@))],
            ),
        ),
    }
}

/// The choice of a tool in the form that Bedrock takes.
pub fn convert_tool_choice(choice: &Option<ToolChoice>) -> (r: Option<Json>)
    ensures
        opt_json(r) == bedrock_tool_choice(*choice),
{
    match choice {
        None => None,
        Some(ToolChoice::Auto) => Some(typed_json("auto")),
        Some(ToolChoice::NoTools) => None,
        Some(ToolChoice::Required) => Some(typed_json("any")),
        Some(ToolChoice::Tool { name }) => {
            let mut fields = no_fields();
            put_text(&mut fields, "type", "tool");
            put_text(&mut fields, "name", name.as_str());
            assert(field_views(fields@) =~= bedrock_tool_choice(*choice)->0->Object_0);
            Some(Json::object(fields))
        },
    }
}

/// The messages of a conversation in the form of Anthropic's models.
pub open spec fn anthropic_messages(messages: Seq<Message>) -> Seq<Option<JsonView>> {
    Seq::new(messages.len(), |i: int| anthropic_message(messages[i]))
}

/// The limit on a reply's tokens.
pub open spec fn max_tokens_of(request: GenerateRequest) -> u32 {
    match request.config.max_output_tokens {
        Some(n) => n,
        None => DEFAULT_MAX_TOKENS,
    }
}

/// A number, but at least one.
pub open spec fn at_least_one(n: u32) -> u32 {
    if n == 0 {
        1
    } else {
        n
    }
}

fn requested_tokens(request: &GenerateRequest) -> (r: u32)
    ensures
        r == max_tokens_of(*request),
{
    match request.config.max_output_tokens {
        Some(n) => n,
        None => DEFAULT_MAX_TOKENS,
    }
}

/// Texts as blocks.
pub open spec fn text_blocks(parts: Seq<Seq<char>>) -> Seq<JsonView> {
    Seq::new(parts.len(), |i: int| text_block(parts[i]))
}

/// What the system says to Anthropic's models. What is said of the form of the
/// reply stands there twice.
pub open spec fn system_blocks(request: GenerateRequest) -> Seq<JsonView> {
    text_blocks(instructions(request)) + text_blocks(
        listed(format_instruction(request.config.response_format)),
    )
}

/// The tools that a request offers.
pub open spec fn offered_tools(request: GenerateRequest) -> Seq<JsonView> {
    if request.tool_choice == Some(ToolChoice::NoTools) {
        Seq::empty()
    } else {
        anthropic_tools(request.tools@)
    }
}

/// Whether no message of the conversation is told to Anthropic's models.
pub open spec fn tells_nothing(request: GenerateRequest) -> bool {
    flattened(anthropic_messages(request.messages@)).len() == 0
}

/// What is wrong where no message is told.
pub open spec fn nothing_told() -> ErrorView {
    ErrorView::Configuration {
        message: "Bedrock anthropic requests require at least one user or assistant message"@,
        field: None,
    }
}

/// The payload for Anthropic's models.
pub open spec fn anthropic_payload(request: GenerateRequest) -> JsonView {
    JsonView::Object(
        seq![
            ("anthropic_version"@, JsonView::String("bedrock-2023-05-31"@)),
            (
                "messages"@,
                JsonView::Array(flattened(anthropic_messages(request.messages@))),
            ),
            ("max_tokens"@, whole_number(at_least_one(max_tokens_of(request)) as u64)),
        ] + field_if("system"@, unless_empty(system_blocks(request))) + field_if(
            "tools"@,
            unless_empty(offered_tools(request)),
        ) + field_if("tool_choice"@, bedrock_tool_choice(request.tool_choice)) + field_if(
            "temperature"@,
            number_view(request.config.temperature),
        ) + field_if("top_p"@, number_view(request.config.top_p)),
    )
}

/// The system's blocks (see `system_blocks`).
fn system_blocks_json(request: &GenerateRequest) -> (r: Vec<Json>)
    ensures
        json_views(r@) == system_blocks(*request),
{
    let parts = system_instructions(request);
    let mut out = no_items();
    let ghost all = text_blocks(instructions(*request));
    proof {
        whole_prefix(all);
    }
    let mut i: usize = 0;
    while i < parts.len()
        invariant
            i <= parts@.len(),
            texts(parts@) == instructions(*request),
            all == text_blocks(instructions(*request)),
            json_views(out@) == all.subrange(0, i as int),
        decreases parts@.len() - i,
    {
        put_item(&mut out, text_block_json(parts[i].as_str()));
        proof {
            assert(texts(parts@)[i as int] == parts@[i as int]@);
            prefix_next(all, i as int);
        }
        i = i + 1;
    }
    proof {
        assert(texts(parts@).len() == parts@.len());
        whole_prefix(all);
    }
    if let Some(instruction) = response_format_instruction(&request.config.response_format) {
        put_item(&mut out, text_block_json(instruction.as_str()));
    }
    assert(json_views(out@) =~= system_blocks(*request));
    out
}

/// The payload for Anthropic's models.
pub fn build_anthropic_payload(request: &GenerateRequest) -> (r: Result<Json, SdkError>)
    ensures
        match r {
            Ok(payload) => !tells_nothing(*request) && payload@ == anthropic_payload(*request),
            Err(e) => tells_nothing(*request) && e@ == nothing_told(),
        },
{
    let mut messages = no_items();
    let ghost all = anthropic_messages(request.messages@);
    proof {
        whole_prefix(all);
    }
    let mut i: usize = 0;
    while i < request.messages.len()
        invariant
            i <= request.messages@.len(),
            all == anthropic_messages(request.messages@),
            json_views(messages@) == flattened(all.subrange(0, i as int)),
        decreases request.messages@.len() - i,
    {
        proof {
            flattened_next(all, i as int);
        }
        if let Some(message) = anthropic_message_json(&request.messages[i]) {
            put_item(&mut messages, message);
        }
        i = i + 1;
    }
    proof {
        whole_prefix(all);
    }
    if messages.len() == 0 {
        assert(json_views(messages@).len() == 0);
        return Err(
            SdkError::Configuration {
                message:
                    "Bedrock anthropic requests require at least one user or assistant message".to_owned(),
                field: None,
            },
        );
    }
    assert(json_views(messages@).len() > 0);
    let requested: u32 = requested_tokens(request);
    let max_tokens: u32 = if requested == 0 {
        1
    } else {
        requested
    };
    let mut payload = no_fields();
    put_text(&mut payload, "anthropic_version", "bedrock-2023-05-31");
    put(&mut payload, "messages", Json::array(messages));
    put(&mut payload, "max_tokens", Json::whole(max_tokens as u64));
    put_opt(&mut payload, "system", array_unless_empty(system_blocks_json(request)));
    let tools = if matches!(request.tool_choice, Some(ToolChoice::NoTools)) {
        no_items()
    } else {
        convert_tools(&request.tools)
    };
    put_opt(&mut payload, "tools", array_unless_empty(tools));
    put_opt(&mut payload, "tool_choice", convert_tool_choice(&request.tool_choice));
    put_opt(&mut payload, "temperature", number_json(&request.config.temperature));
    put_opt(&mut payload, "top_p", number_json(&request.config.top_p));
    assert(field_views(payload@) =~= anthropic_payload(*request)->Object_0);
    Ok(Json::object(payload))
}

/// One turn in Llama's prompt.
pub open spec fn llama_turn(message: Message) -> Seq<char> {
    if message.role == MessageRole::System {
        Seq::empty()
    } else {
        "<|start_header_id|>"@ + message.role.name() + "<|end_header_id|>\n\n"@ + message.content@
            + "<|eot_id|>"@
    }
}

/// The turns of a conversation in Llama's prompt.
pub open spec fn llama_turns(messages: Seq<Message>) -> Seq<char>
    decreases messages.len(),
{
    if messages.len() == 0 {
        Seq::empty()
    } else {
        llama_turns(messages.drop_last()) + llama_turn(messages.last())
    }
}

/// Llama's prompt: the system's words, the turns, and the opening of the reply.
pub open spec fn llama_prompt(request: GenerateRequest) -> Seq<char> {
    "<|begin_of_text|>"@ + (if system_text(request).len() == 0 {
        Seq::empty()
    } else {
        "<|start_header_id|>system<|end_header_id|>\n\n"@ + system_text(request) + "<|eot_id|>"@
    }) + llama_turns(request.messages@) + "<|start_header_id|>assistant<|end_header_id|>\n\n"@
}

/// Llama's prompt.
pub fn format_meta_llama_prompt(request: &GenerateRequest) -> (r: String)
    ensures
        r@ == llama_prompt(*request),
{
    let mut prompt = "<|begin_of_text|>".to_owned();
    let system = joined_instructions(request);
    if !system.as_str().is_empty() {
        let block = concat3(
            "<|start_header_id|>system<|end_header_id|>\n\n",
            system.as_str(),
            "<|eot_id|>",
        );
        prompt.append(block.as_str());
    } else {
        assert(prompt@ + Seq::<char>::empty() =~= prompt@);
    }
    let ghost start = prompt@;
    let ghost all = request.messages@;
    proof {
        whole_prefix(all);
        assert(start + llama_turns(all.subrange(0, 0)) =~= start);
    }
    let mut i: usize = 0;
    while i < request.messages.len()
        invariant
            i <= request.messages@.len(),
            all == request.messages@,
            prompt@ == start + llama_turns(all.subrange(0, i as int)),
        decreases request.messages@.len() - i,
    {
        let message = &request.messages[i];
        let ghost before = prompt@;
        proof {
            prefix_next(all, i as int);
        }
        if message.role != MessageRole::System {
            let turn = concat5(
                "<|start_header_id|>",
                message.role.as_str(),
                "<|end_header_id|>\n\n",
                message.content.as_str(),
                "<|eot_id|>",
            );
            prompt.append(turn.as_str());
        }
        assert(prompt@ =~= before + llama_turn(*message));
        assert(prompt@ =~= start + llama_turns(all.subrange(0, i + 1)));
        i = i + 1;
    }
    proof {
        whole_prefix(all);
    }
    prompt.append("<|start_header_id|>assistant<|end_header_id|>\n\n");
    prompt
}

/// Mistral's prompt up to some message, and the system's words if they are still
/// to be said: they are put before the user's first words.
pub open spec fn mistral_turns(messages: Seq<Message>, system: Seq<char>) -> (Seq<char>, Seq<char>)
    decreases messages.len(),
{
    if messages.len() == 0 {
        (Seq::empty(), system)
    } else {
        let (said, pending) = mistral_turns(messages.drop_last(), system);
        let message = messages.last();
        match message.role {
            MessageRole::User => (
                said + "[INST] "@ + (if pending.len() == 0 {
                    Seq::empty()
                } else {
                    pending + "\n\n"@
                }) + message.content@ + " [/INST]"@,
                Seq::empty(),
            ),
            MessageRole::Assistant => (said + " "@ + message.content@ + "</s>"@, pending),
            MessageRole::System => (said, pending),
        }
    }
}

/// Mistral's prompt.
pub open spec fn mistral_prompt(request: GenerateRequest) -> Seq<char> {
    "<s>"@ + mistral_turns(request.messages@, system_text(request)).0
}

/// Mistral's prompt.
pub fn format_mistral_prompt(request: &GenerateRequest) -> (r: String)
    ensures
        r@ == mistral_prompt(*request),
{
    let mut said = String::new();
    let mut system = joined_instructions(request);
    let ghost all = request.messages@;
    proof {
        whole_prefix(all);
    }
    let mut i: usize = 0;
    while i < request.messages.len()
        invariant
            i <= request.messages@.len(),
            all == request.messages@,
            mistral_turns(all.subrange(0, i as int), system_text(*request)) == (said@, system@),
        decreases request.messages@.len() - i,
    {
        let message = &request.messages[i];
        proof {
            prefix_next(all, i as int);
        }
        match message.role {
            MessageRole::User => {
                said.append("[INST] ");
                if !system.as_str().is_empty() {
                    let words = concat2(system.as_str(), "\n\n");
                    said.append(words.as_str());
                } else {
                    assert(said@ + Seq::<char>::empty() =~= said@);
                }
                system = String::new();
                said.append(message.content.as_str());
                said.append(" [/INST]");
            },
            MessageRole::Assistant => {
                said.append(" ");
                said.append(message.content.as_str());
                said.append("</s>");
            },
            MessageRole::System => {},
        }
        i = i + 1;
    }
    proof {
        whole_prefix(all);
    }
    concat2("<s>", said.as_str())
}

/// One turn of a plain conversation.
pub open spec fn plain_turn(message: Message, assistant: Seq<char>) -> Seq<char> {
    match message.role {
        MessageRole::User => "User: "@ + message.content@ + "\n"@,
        MessageRole::Assistant => assistant + ": "@ + message.content@ + "\n"@,
        MessageRole::System => Seq::empty(),
    }
}

/// The turns of a plain conversation.
pub open spec fn plain_turns(messages: Seq<Message>, assistant: Seq<char>) -> Seq<char>
    decreases messages.len(),
{
    if messages.len() == 0 {
        Seq::empty()
    } else {
        plain_turns(messages.drop_last(), assistant) + plain_turn(messages.last(), assistant)
    }
}

/// A plain conversation that the model is to go on with.
pub open spec fn plain_conversation(request: GenerateRequest, assistant: Seq<char>) -> Seq<char> {
    (if system_text(request).len() == 0 {
        Seq::empty()
    } else {
        "System: "@ + system_text(request) + "\n"@
    }) + plain_turns(request.messages@, assistant) + (assistant + ":"@)
}

/// A plain conversation that the model is to go on with.
pub fn format_plain_conversation(request: &GenerateRequest, assistant_label: &str) -> (r: String)
    ensures
        r@ == plain_conversation(*request, assistant_label@),
{
    let mut prompt = String::new();
    let system = joined_instructions(request);
    if !system.as_str().is_empty() {
        prompt = concat3("System: ", system.as_str(), "\n");
    }
    let ghost start = prompt@;
    let ghost all = request.messages@;
    proof {
        whole_prefix(all);
        assert(start + plain_turns(all.subrange(0, 0), assistant_label@) =~= start);
    }
    let mut i: usize = 0;
    while i < request.messages.len()
        invariant
            i <= request.messages@.len(),
            all == request.messages@,
            prompt@ == start + plain_turns(all.subrange(0, i as int), assistant_label@),
        decreases request.messages@.len() - i,
    {
        let message = &request.messages[i];
        let ghost before = prompt@;
        proof {
            prefix_next(all, i as int);
        }
        match message.role {
            MessageRole::User => {
                let turn = concat3("User: ", message.content.as_str(), "\n");
                prompt.append(turn.as_str());
            },
            MessageRole::Assistant => {
                let turn = concat4(assistant_label, ": ", message.content.as_str(), "\n");
                prompt.append(turn.as_str());
            },
            MessageRole::System => {},
        }
        assert(prompt@ =~= before + plain_turn(*message, assistant_label@));
        assert(prompt@ =~= start + plain_turns(all.subrange(0, i + 1), assistant_label@));
        i = i + 1;
    }
    proof {
        whole_prefix(all);
    }
    let end = concat2(assistant_label, ":");
    prompt.append(end.as_str());
    assert(prompt@ =~= plain_conversation(*request, assistant_label@));
    prompt
}

/// The payload for Meta's models.
pub open spec fn meta_llama_payload(request: GenerateRequest) -> JsonView {
    JsonView::Object(
        seq![
            ("prompt"@, JsonView::String(llama_prompt(request))),
            ("max_gen_len"@, whole_number(at_least_one(max_tokens_of(request)) as u64)),
        ] + field_if("temperature"@, number_view(request.config.temperature)) + field_if(
            "top_p"@,
            number_view(request.config.top_p),
        ),
    )
}

/// The payload for Meta's models.
pub fn build_meta_llama_payload(request: &GenerateRequest) -> (r: Json)
    ensures
        r@ == meta_llama_payload(*request),
{
    let requested: u32 = requested_tokens(request);
    let max_tokens: u32 = if requested == 0 {
        1
    } else {
        requested
    };
    let mut payload = no_fields();
    put_text(&mut payload, "prompt", format_meta_llama_prompt(request).as_str());
    put(&mut payload, "max_gen_len", Json::whole(max_tokens as u64));
    put_opt(&mut payload, "temperature", number_json(&request.config.temperature));
    put_opt(&mut payload, "top_p", number_json(&request.config.top_p));
    assert(field_views(payload@) =~= meta_llama_payload(*request)->Object_0);
    Json::object(payload)
}

/// The settings for Amazon's models.
pub open spec fn titan_settings(request: GenerateRequest) -> JsonView {
    JsonView::Object(
        seq![("maxTokenCount"@, whole_number(max_tokens_of(request) as u64))] + field_if(
            "temperature"@,
            number_view(request.config.temperature),
        ) + field_if("topP"@, number_view(request.config.top_p)),
    )
}

/// The payload for Amazon's models.
pub open spec fn amazon_titan_payload(request: GenerateRequest) -> JsonView {
    JsonView::Object(
        seq![
            ("inputText"@, JsonView::String(plain_conversation(request, "Bot"@))),
            ("textGenerationConfig"@, titan_settings(request)),
        ],
    )
}

/// The payload for Amazon's models.
pub fn build_amazon_titan_payload(request: &GenerateRequest) -> (r: Json)
    ensures
        r@ == amazon_titan_payload(*request),
{
    let mut settings = no_fields();
    put(&mut settings, "maxTokenCount", Json::whole(requested_tokens(request) as u64));
    put_opt(&mut settings, "temperature", number_json(&request.config.temperature));
    put_opt(&mut settings, "topP", number_json(&request.config.top_p));
    assert(field_views(settings@) =~= titan_settings(*request)->Object_0);
    let mut payload = no_fields();
    put_text(&mut payload, "inputText", format_plain_conversation(request, "Bot").as_str());
    put(&mut payload, "textGenerationConfig", Json::object(settings));
    assert(field_views(payload@) =~= amazon_titan_payload(*request)->Object_0);
    Json::object(payload)
}

/// The payload for Cohere's text models.
pub open spec fn cohere_payload(request: GenerateRequest, streaming: bool) -> JsonView {
    JsonView::Object(
        seq![
            ("prompt"@, JsonView::String(plain_conversation(request, "Assistant"@))),
            ("max_tokens"@, whole_number(max_tokens_of(request) as u64)),
            ("stream"@, JsonView::Bool(streaming)),
            ("num_generations"@, whole_number(1)),
        ] + field_if("temperature"@, number_view(request.config.temperature)) + field_if(
            "p"@,
            number_view(request.config.top_p),
        ),
    )
}

/// The payload for Cohere's text models.
pub fn build_cohere_payload(request: &GenerateRequest, streaming: bool) -> (r: Json)
    ensures
        r@ == cohere_payload(*request, streaming),
{
    let mut payload = no_fields();
    put_text(&mut payload, "prompt", format_plain_conversation(request, "Assistant").as_str());
    put(&mut payload, "max_tokens", Json::whole(requested_tokens(request) as u64));
    put(&mut payload, "stream", Json::Bool(streaming));
    put(&mut payload, "num_generations", Json::whole(1));
    put_opt(&mut payload, "temperature", number_json(&request.config.temperature));
    put_opt(&mut payload, "p", number_json(&request.config.top_p));
    assert(field_views(payload@) =~= cohere_payload(*request, streaming)->Object_0);
    Json::object(payload)
}

/// The messages that are not the system's.
pub open spec fn spoken(messages: Seq<Message>) -> Seq<Message> {
    flattened(spoken_or_not(messages))
}

/// Each message, unless it is the system's.
pub open spec fn spoken_or_not(messages: Seq<Message>) -> Seq<Option<Message>> {
    Seq::new(
        messages.len(),
        |i: int|
            if messages[i].role == MessageRole::System {
                None
            } else {
                Some(messages[i])
            },
    )
}

/// One turn of a chat's history in Cohere's form.
pub open spec fn cohere_turn(message: Message) -> JsonView {
    JsonView::Object(
        seq![
            (
                "role"@,
                JsonView::String(
                    if message.role == MessageRole::Assistant {
                        "CHATBOT"@
                    } else {
                        "USER"@
                    },
                ),
            ),
            ("message"@, JsonView::String(message.content@)),
        ],
    )
}

fn cohere_turn_json(message: &Message) -> (r: Json)
    ensures
        r@ == cohere_turn(*message),
{
    let role = if message.role == MessageRole::Assistant {
        "CHATBOT"
    } else {
        "USER"
    };
    let mut fields = no_fields();
    put_text(&mut fields, "role", role);
    put_text(&mut fields, "message", message.content.as_str());
    assert(field_views(fields@) =~= cohere_turn(*message)->Object_0);
    Json::object(fields)
}

/// A chat's history in Cohere's form.
pub open spec fn cohere_history(messages: Seq<Message>) -> Seq<JsonView> {
    Seq::new(messages.len(), |i: int| cohere_turn(messages[i]))
}

/// The payload for Cohere's Command R: the last message, and those before it as
/// the history.
pub open spec fn cohere_command_r_payload(request: GenerateRequest) -> JsonView {
    let messages = spoken(request.messages@);
    JsonView::Object(
        seq![
            ("message"@, JsonView::String(messages.last().content@)),
            ("chat_history"@, JsonView::Array(cohere_history(messages.drop_last()))),
            ("max_tokens"@, whole_number(max_tokens_of(request) as u64)),
        ] + field_if("preamble"@, text_unless_empty(system_text(request))) + field_if(
            "temperature"@,
            number_view(request.config.temperature),
        ) + field_if("p"@, number_view(request.config.top_p)),
    )
}

/// Some message is spoken where one is not the system's.
pub proof fn turns_are_spoken(messages: Seq<Message>)
    ensures
        has_turn(messages) <==> spoken(messages).len() > 0,
    decreases messages.len(),
{
    if messages.len() > 0 {
        let shorter = messages.drop_last();
        turns_are_spoken(shorter);
        assert(spoken_or_not(messages).drop_last() =~= spoken_or_not(shorter));
        assert(spoken_or_not(messages).last() is Some <==> messages.last().role
            != MessageRole::System);
        if has_turn(shorter) {
            let i = choose|i: int|
                0 <= i < shorter.len() && (#[trigger] shorter[i]).role != MessageRole::System;
            assert(messages[i].role != MessageRole::System);
        }
        if has_turn(messages) && !has_turn(shorter) {
            let i = choose|i: int|
                0 <= i < messages.len() && (#[trigger] messages[i]).role != MessageRole::System;
            if i < shorter.len() {
                assert(shorter[i].role != MessageRole::System);
            }
        }
    }
}

/// The payload for Cohere's Command R.
pub fn build_cohere_command_r_payload(request: &GenerateRequest) -> (r: Json)
    requires
        has_turn(request.messages@),
    ensures
        r@ == cohere_command_r_payload(*request),
{
    let mut history = no_items();
    let mut current: Option<usize> = None;
    let ghost all = spoken_or_not(request.messages@);
    proof {
        whole_prefix(all);
    }
    let mut i: usize = 0;
    while i < request.messages.len()
        invariant
            i <= request.messages@.len(),
            all == spoken_or_not(request.messages@),
            match current {
                None => flattened(all.subrange(0, i as int)).len() == 0 && json_views(history@).len()
                    == 0,
                Some(j) => {
                    let so_far = flattened(all.subrange(0, i as int));
                    j < request.messages@.len() && so_far.len() > 0 && so_far.last()
                        == request.messages@[j as int] && json_views(history@) == cohere_history(
                        so_far.drop_last(),
                    )
                },
            },
        decreases request.messages@.len() - i,
    {
        let ghost so_far = flattened(all.subrange(0, i as int));
        let ghost told = json_views(history@);
        proof {
            flattened_next(all, i as int);
        }
        if request.messages[i].role != MessageRole::System {
            if let Some(j) = current {
                put_item(&mut history, cohere_turn_json(&request.messages[j]));
            }
            current = Some(i);
            proof {
                let more = so_far.push(request.messages@[i as int]);
                assert(more.drop_last() =~= so_far);
                if so_far.len() > 0 {
                    assert(json_views(history@) =~= cohere_history(so_far));
                } else {
                    assert(json_views(history@) =~= cohere_history(so_far));
                }
            }
        }
        i = i + 1;
    }
    proof {
        whole_prefix(all);
        turns_are_spoken(request.messages@);
    }
    let last: usize = match current {
        Some(j) => j,
        None => 0,
    };
    let mut payload = no_fields();
    put_text(&mut payload, "message", request.messages[last].content.as_str());
    put(&mut payload, "chat_history", Json::array(history));
    put(&mut payload, "max_tokens", Json::whole(requested_tokens(request) as u64));
    let preamble = joined_instructions(request);
    if !preamble.as_str().is_empty() {
        put_text(&mut payload, "preamble", preamble.as_str());
    }
    put_opt(&mut payload, "temperature", number_json(&request.config.temperature));
    put_opt(&mut payload, "p", number_json(&request.config.top_p));
    assert(field_views(payload@) =~= cohere_command_r_payload(*request)->Object_0);
    Json::object(payload)
}

/// The payload for Mistral's text models.
pub open spec fn mistral_payload(request: GenerateRequest) -> JsonView {
    JsonView::Object(
        seq![
            ("prompt"@, JsonView::String(mistral_prompt(request))),
            ("max_tokens"@, whole_number(max_tokens_of(request) as u64)),
        ] + field_if("temperature"@, number_view(request.config.temperature)) + field_if(
            "top_p"@,
            number_view(request.config.top_p),
        ),
    )
}

/// The payload for Mistral's text models.
pub fn build_mistral_payload(request: &GenerateRequest) -> (r: Json)
    ensures
        r@ == mistral_payload(*request),
{
    let mut payload = no_fields();
    put_text(&mut payload, "prompt", format_mistral_prompt(request).as_str());
    put(&mut payload, "max_tokens", Json::whole(requested_tokens(request) as u64));
    put_opt(&mut payload, "temperature", number_json(&request.config.temperature));
    put_opt(&mut payload, "top_p", number_json(&request.config.top_p));
    assert(field_views(payload@) =~= mistral_payload(*request)->Object_0);
    Json::object(payload)
}

/// A message of a chat: who speaks and what is said.
pub open spec fn chat_message(role: Seq<char>, content: Seq<char>) -> JsonView {
    JsonView::Object(
        seq![("role"@, JsonView::String(role)), ("content"@, JsonView::String(content))],
    )
}

fn chat_message_json(role: &str, content: &str) -> (r: Json)
    ensures
        r@ == chat_message(role@, content@),
{
    let mut fields = no_fields();
    put_text(&mut fields, "role", role);
    put_text(&mut fields, "content", content);
    assert(field_views(fields@) =~= chat_message(role@, content@)->Object_0);
    Json::object(fields)
}

/// The messages of a chat that are not the system's.
pub open spec fn chat_turns(messages: Seq<Message>) -> Seq<Option<JsonView>> {
    Seq::new(
        messages.len(),
        |i: int|
            if messages[i].role == MessageRole::System {
                None
            } else {
                Some(chat_message(messages[i].role.name(), messages[i].content@))
            },
    )
}

/// The payload for Mistral's chat models.
pub open spec fn mistral_chat_payload(request: GenerateRequest) -> JsonView {
    let messages = listed(
        if system_text(request).len() == 0 {
            None
        } else {
            Some(chat_message("system"@, system_text(request)))
        },
    ) + flattened(chat_turns(request.messages@));
    JsonView::Object(
        seq![
            ("messages"@, JsonView::Array(messages)),
            ("max_tokens"@, whole_number(max_tokens_of(request) as u64)),
        ] + field_if("temperature"@, number_view(request.config.temperature)) + field_if(
            "top_p"@,
            number_view(request.config.top_p),
        ),
    )
}

/// The payload for Mistral's chat models.
pub fn build_mistral_chat_payload(request: &GenerateRequest) -> (r: Json)
    ensures
        r@ == mistral_chat_payload(*request),
{
    let mut messages = no_items();
    let system = joined_instructions(request);
    if !system.as_str().is_empty() {
        put_item(&mut messages, chat_message_json("system", system.as_str()));
    }
    let ghost first = json_views(messages@);
    let ghost all = chat_turns(request.messages@);
    proof {
        whole_prefix(all);
        assert(first + flattened(all.subrange(0, 0)) =~= first);
    }
    let mut i: usize = 0;
    while i < request.messages.len()
        invariant
            i <= request.messages@.len(),
            all == chat_turns(request.messages@),
            json_views(messages@) == first + flattened(all.subrange(0, i as int)),
        decreases request.messages@.len() - i,
    {
        let message = &request.messages[i];
        proof {
            flattened_next(all, i as int);
        }
        if message.role != MessageRole::System {
            put_item(
                &mut messages,
                chat_message_json(message.role.as_str(), message.content.as_str()),
            );
            assert(json_views(messages@) =~= first + flattened(all.subrange(0, i + 1)));
        }
        i = i + 1;
    }
    proof {
        whole_prefix(all);
    }
    let ghost said = json_views(messages@);
    let mut payload = no_fields();
    put(&mut payload, "messages", Json::array(messages));
    put(&mut payload, "max_tokens", Json::whole(requested_tokens(request) as u64));
    put_opt(&mut payload, "temperature", number_json(&request.config.temperature));
    put_opt(&mut payload, "top_p", number_json(&request.config.top_p));
    proof {
        let wanted = mistral_chat_payload(*request);
        assert(said =~= wanted->Object_0[0].1->Array_0);
        assert(field_views(payload@) =~= wanted->Object_0);
    }
    Json::object(payload)
}

/// Whether a model of Cohere's is a Command R.
pub open spec fn is_command_r(model_id: Seq<char>) -> bool {
    begins_with(model_id, "cohere.command-r"@)
}

/// Whether a model of Cohere's is a Command R.
pub fn is_cohere_command_r(model_id: &str) -> (r: bool)
    ensures
        r == is_command_r(model_id@),
{
    starts_with(model_id, "cohere.command-r")
}

/// Whether a model of Mistral's is a chat model.
pub open spec fn is_chat_model(model_id: Seq<char>) -> bool {
    contains_text(model_id, "mistral-large-2407"@)
}

/// Whether a model of Mistral's is a chat model.
pub fn is_mistral_chat(model_id: &str) -> (r: bool)
    ensures
        r == is_chat_model(model_id@),
{
    contains(model_id, "mistral-large-2407")
}

/// The payload for a model.
pub open spec fn bedrock_payload(
    request: GenerateRequest,
    model_id: Seq<char>,
    family: BedrockModelFamily,
    streaming: bool,
) -> JsonView {
    match family {
        BedrockModelFamily::Anthropic => anthropic_payload(request),
        BedrockModelFamily::MetaLlama => meta_llama_payload(request),
        BedrockModelFamily::AmazonTitan => amazon_titan_payload(request),
        BedrockModelFamily::Cohere => if is_command_r(model_id) {
            cohere_command_r_payload(request)
        } else {
            cohere_payload(request, streaming)
        },
        BedrockModelFamily::Mistral => if is_chat_model(model_id) {
            mistral_chat_payload(request)
        } else {
            mistral_payload(request)
        },
    }
}

/// The payload for a model. The one for Command R needs a message that is not the
/// system's; the one for Anthropic's models is refused without a message to tell.
pub fn build_bedrock_payload(
    request: &GenerateRequest,
    model_id: &str,
    family: BedrockModelFamily,
    streaming: bool,
) -> (r: Result<Json, SdkError>)
    requires
        family == BedrockModelFamily::Cohere && is_command_r(model_id@) ==> has_turn(
            request.messages@,
        ),
    ensures
        match r {
            Ok(payload) => payload@ == bedrock_payload(*request, model_id@, family, streaming) && !(
            family == BedrockModelFamily::Anthropic && tells_nothing(*request)),
            Err(e) => family == BedrockModelFamily::Anthropic && tells_nothing(*request) && e@
                == nothing_told(),
        },
{
    match family {
        BedrockModelFamily::Anthropic => build_anthropic_payload(request),
        BedrockModelFamily::MetaLlama => Ok(build_meta_llama_payload(request)),
        BedrockModelFamily::AmazonTitan => Ok(build_amazon_titan_payload(request)),
        BedrockModelFamily::Cohere => {
            if is_cohere_command_r(model_id) {
                Ok(build_cohere_command_r_payload(request))
            } else {
                Ok(build_cohere_payload(request, streaming))
            }
        },
        BedrockModelFamily::Mistral => {
            if is_mistral_chat(model_id) {
                Ok(build_mistral_chat_payload(request))
            } else {
                Ok(build_mistral_payload(request))
            }
        },
    }
}

/// A message that is not the system's is told to Anthropic's models.
proof fn turns_make_messages(messages: Seq<Message>)
    ensures
        has_turn(messages) ==> flattened(anthropic_messages(messages)).len() > 0,
    decreases messages.len(),
{
    if messages.len() > 0 {
        let shorter = messages.drop_last();
        turns_make_messages(shorter);
        assert(anthropic_messages(messages).drop_last() =~= anthropic_messages(shorter));
        if has_turn(messages) && !has_turn(shorter) {
            let i = choose|i: int|
                0 <= i < messages.len() && (#[trigger] messages[i]).role != MessageRole::System;
            if i < shorter.len() {
                assert(shorter[i].role != MessageRole::System);
            }
            assert(anthropic_messages(messages).last() is Some);
        }
    }
}

/// A request that passes the check can be sent: whatever the model, it meets what
/// the payload asks for and is not refused.
pub proof fn checked_requests_have_a_payload(request: GenerateRequest, family: BedrockModelFamily)
    requires
        request_fault(request, family) is None,
    ensures
        has_turn(request.messages@),
        !tells_nothing(request),
{
    turns_make_messages(request.messages@);
}

/// With what keys Bedrock is had, and where.
#[derive(Clone, Debug)]
pub struct BedrockConfig {
    pub credentials: AwsCredentials,
    pub default_region: Option<String>,
    pub timeout: Duration,
    pub retry_config: RetryConfig,
}

/// What is wrong where a setting that Bedrock needs is missing.
pub open spec fn needed(name: Seq<char>) -> ErrorView {
    bad_setting(name + " must be set for Bedrock requests"@, name)
}

impl BedrockConfig {
    /// The configuration that the environment sets, by the values of
    /// `AWS_ACCESS_KEY_ID`, `AWS_SECRET_ACCESS_KEY`, `AWS_SESSION_TOKEN` and
    /// `AWS_REGION`.
    pub fn from_env(
        access_key: Option<String>,
        secret_key: Option<String>,
        session_token: Option<String>,
        region: Option<String>,
        retry_config: RetryConfig,
    ) -> (r: Result<Self, SdkError>)
        ensures
            match r {
                Ok(config) => {
                    &&& access_key == Some(config.credentials.access_key)
                    &&& secret_key == Some(config.credentials.secret_key)
                    &&& config.credentials.session_token == session_token
                    &&& config.default_region == region
                    &&& config.timeout@ == seconds(30)
                    &&& config.retry_config == retry_config
                },
                Err(e) => if access_key is None {
                    e@ == needed("AWS_ACCESS_KEY_ID"@)
                } else {
                    secret_key is None && e@ == needed("AWS_SECRET_ACCESS_KEY"@)
                },
            },
    {
        let access_key = match access_key {
            Some(key) => key,
            None => {
                return Err(
                    setting_error(
                        concat2("AWS_ACCESS_KEY_ID", " must be set for Bedrock requests"),
                        "AWS_ACCESS_KEY_ID",
                    ),
                );
            },
        };
        let secret_key = match secret_key {
            Some(key) => key,
            None => {
                return Err(
                    setting_error(
                        concat2("AWS_SECRET_ACCESS_KEY", " must be set for Bedrock requests"),
                        "AWS_SECRET_ACCESS_KEY",
                    ),
                );
            },
        };
        Ok(
            BedrockConfig {
                credentials: AwsCredentials { access_key, secret_key, session_token },
                default_region: region,
                timeout: Duration::from_secs(30),
                retry_config,
            },
        )
    }
}

/// Where a model is invoked.
pub fn invoke_url(region: &str, model_id: &str, streaming: bool) -> (r: String)
    ensures
        r@ == "https://bedrock-runtime."@ + region@ + ".amazonaws.com/model/"@ + model_id@ + (
        if streaming {
            "/invoke-with-response-stream"@
        } else {
            "/invoke"@
        }),
{
    let action = if streaming {
        "/invoke-with-response-stream"
    } else {
        "/invoke"
    };
    concat5("https://bedrock-runtime.", region, ".amazonaws.com/model/", model_id, action)
}

/// A request that has been checked: where it goes, and what is sent.
#[derive(Debug)]
pub struct BedrockCall {
    pub region: String,
    pub model_id: String,
    pub family: BedrockModelFamily,
    pub payload: Json,
}

/// What a request comes to: its region, its model and its payload, or what is wrong.
pub open spec fn planned_call(
    request: GenerateRequest,
    default_region: Option<Seq<char>>,
    streaming: bool,
) -> Result<(Seq<char>, Seq<char>, BedrockModelFamily, JsonView), ErrorView> {
    match region_and_model(request.model@, default_region) {
        Err(e) => Err(e),
        Ok((region, model_id)) => match family_of(model_id) {
            None => Err(
                bad_setting(
                    "unsupported Bedrock model family for `"@ + model_id
                        + "`; supported prefixes are anthropic., meta.llama, amazon.titan, cohere., and mistral."@,
                    "model"@,
                ),
            ),
            Some(family) => match request_fault(request, family) {
                Some(e) => Err(e),
                None => Ok(
                    (region, model_id, family, bedrock_payload(request, model_id, family, streaming)),
                ),
            },
        },
    }
}

/// Checks a request and prepares it for the model that it names.
pub fn prepare_call(request: &GenerateRequest, default_region: Option<&str>, streaming: bool) -> (r:
    Result<BedrockCall, SdkError>)
    ensures
        ({
            let region = match default_region {
                Some(s) => Some(s@),
                None => None,
            };
            match (planned_call(*request, region, streaming), r) {
                (Ok(plan), Ok(call)) => plan == (
                    call.region@,
                    call.model_id@,
                    call.family,
                    call.payload@,
                ),
                (Err(fault), Err(e)) => fault == e@,
                _ => false,
            }
        }),
{
    let (region, model_id) = match extract_region_and_model(request.model.as_str(), default_region) {
        Ok(p) => p,
        Err(e) => {
            return Err(e);
        },
    };
    let family = match model_family(model_id.as_str()) {
        Ok(family) => family,
        Err(e) => {
            return Err(e);
        },
    };
    if let Err(e) = validate_request(request, family) {
        return Err(e);
    }
    proof {
        checked_requests_have_a_payload(*request, family);
    }
    match build_bedrock_payload(request, model_id.as_str(), family, streaming) {
        Ok(payload) => Ok(BedrockCall { region, model_id, family, payload }),
        Err(e) => Err(e),
    }
}

/// The maker of a model is told by how its id begins, and there are no others.
pub proof fn makers_are_told_by_their_models(rest: Seq<char>, model_id: Seq<char>)
    ensures
        family_of("anthropic."@ + rest) == Some(BedrockModelFamily::Anthropic),
        family_of("meta.llama"@ + rest) == Some(BedrockModelFamily::MetaLlama),
        family_of("amazon.titan"@ + rest) == Some(BedrockModelFamily::AmazonTitan),
        family_of("cohere."@ + rest) == Some(BedrockModelFamily::Cohere),
        family_of("mistral."@ + rest) == Some(BedrockModelFamily::Mistral),
        family_of(model_id) is Some ==> begins_with(model_id, "anthropic."@) || begins_with(
            model_id,
            "meta.llama"@,
        ) || begins_with(model_id, "amazon.titan"@) || begins_with(model_id, "cohere."@)
            || begins_with(model_id, "mistral."@),
{
    reveal_strlit("anthropic.");
    reveal_strlit("meta.llama");
    reveal_strlit("amazon.titan");
    reveal_strlit("cohere.");
    reveal_strlit("mistral.");
    assert("anthropic."@.len() == 10
        && "meta.llama"@.len() == 10
        && "amazon.titan"@.len() == 12
        && "cohere."@.len() == 7
        && "mistral."@.len() == 8
        && "anthropic."@[0] == 'a'
        && "meta.llama"@[0] == 'm');
    crate::text::prefix_and_rest(model_id, "anthropic."@, rest);
    crate::text::prefix_and_rest(model_id, "meta.llama"@, rest);
    crate::text::prefix_and_rest(model_id, "amazon.titan"@, rest);
    crate::text::prefix_and_rest(model_id, "cohere."@, rest);
    crate::text::prefix_and_rest(model_id, "mistral."@, rest);
    assert("anthropic."@[0] == 'a' && "anthropic."@[1] == 'n' && "amazon.titan"@[0] == 'a'
        && "amazon.titan"@[1] == 'm' && "meta.llama"@[0] == 'm' && "meta.llama"@[1] == 'e'
        && "mistral."@[0] == 'm' && "mistral."@[1] == 'i' && "cohere."@[0] == 'c');
    not_both("meta.llama"@ + rest, "meta.llama"@, "anthropic."@, 0);
    not_both("amazon.titan"@ + rest, "amazon.titan"@, "anthropic."@, 1);
    not_both("amazon.titan"@ + rest, "amazon.titan"@, "meta.llama"@, 0);
    not_both("cohere."@ + rest, "cohere."@, "anthropic."@, 0);
    not_both("cohere."@ + rest, "cohere."@, "meta.llama"@, 0);
    not_both("cohere."@ + rest, "cohere."@, "amazon.titan"@, 0);
    not_both("mistral."@ + rest, "mistral."@, "anthropic."@, 0);
    not_both("mistral."@ + rest, "mistral."@, "meta.llama"@, 1);
    not_both("mistral."@ + rest, "mistral."@, "amazon.titan"@, 0);
    not_both("mistral."@ + rest, "mistral."@, "cohere."@, 0);
}

proof fn not_both(s: Seq<char>, a: Seq<char>, b: Seq<char>, at: int)
    requires
        begins_with(s, a),
        0 <= at < a.len(),
        at < b.len(),
        a[at] != b[at],
    ensures
        !begins_with(s, b),
{
    assert(s.subrange(0, a.len() as int)[at] == s[at]);
    if begins_with(s, b) {
        assert(s.subrange(0, b.len() as int)[at] == s[at]);
    }
}

/// The payload has the form that the maker of the model wants.
pub proof fn payloads_suit_their_models(
    request: GenerateRequest,
    model_id: Seq<char>,
    streaming: bool,
)
    ensures
        bedrock_payload(request, model_id, BedrockModelFamily::Anthropic, streaming)
            == anthropic_payload(request),
        bedrock_payload(request, model_id, BedrockModelFamily::MetaLlama, streaming)
            == meta_llama_payload(request),
        bedrock_payload(request, model_id, BedrockModelFamily::AmazonTitan, streaming)
            == amazon_titan_payload(request),
        begins_with(model_id, "cohere.command-r"@) ==> bedrock_payload(
            request,
            model_id,
            BedrockModelFamily::Cohere,
            streaming,
        ) == cohere_command_r_payload(request),
        !begins_with(model_id, "cohere.command-r"@) ==> bedrock_payload(
            request,
            model_id,
            BedrockModelFamily::Cohere,
            streaming,
        ) == cohere_payload(request, streaming),
        contains_text(model_id, "mistral-large-2407"@) ==> bedrock_payload(
            request,
            model_id,
            BedrockModelFamily::Mistral,
            streaming,
        ) == mistral_chat_payload(request),
        !contains_text(model_id, "mistral-large-2407"@) ==> bedrock_payload(
            request,
            model_id,
            BedrockModelFamily::Mistral,
            streaming,
        ) == mistral_payload(request),
{
}

/// The system's words are the prompt, then the system's messages in their order, then what
/// is said of the form of the reply; blank ones are left out, and a blank line stands
/// between them where they make one text.
pub proof fn the_system_speaks_in_order(
    request: GenerateRequest,
    messages: Seq<Message>,
    message: Message,
)
    ensures
        message.role == MessageRole::System && trimmed(message.content@).len() > 0 ==> flattened(
            system_texts(messages.push(message)),
        ) == flattened(system_texts(messages)).push(message.content@),
        message.role != MessageRole::System || trimmed(message.content@).len() == 0 ==> flattened(
            system_texts(messages.push(message)),
        ) == flattened(system_texts(messages)),
        request.system_prompt is Some && trimmed(request.system_prompt->0@).len() > 0
            ==> instructions(request).len() > 0 && instructions(request)[0]
            == request.system_prompt->0@,
        request.config.response_format is Json ==> instructions(request).len() > 0 && instructions(
            request,
        ).last() == "Please respond with a valid JSON object."@,
        request.system_prompt is None && request.config.response_format is Text ==> instructions(
            request,
        ) == flattened(system_texts(request.messages@)),
        system_text(request) == joined(instructions(request), "\n\n"@),
{
    assert(system_texts(messages.push(message)).drop_last() =~= system_texts(messages));
    if request.system_prompt is None && request.config.response_format is Text {
        assert(instructions(request) =~= flattened(system_texts(request.messages@)));
    }
}

/// A message keeps its speaker and its words, with the calls that it makes behind them in
/// their order; what a call gave is told as the user's, for that call; the system's
/// messages stand elsewhere.
pub proof fn messages_keep_their_speaker(message: Message, i: int)
    ensures
        message.tool_call_id matches Some(id) ==> anthropic_message(message) == Some(
            tool_result_message(id@, message.content@),
        ),
        message.tool_call_id is None && message.role == MessageRole::System ==> anthropic_message(
            message,
        ) is None,
        message.tool_call_id is None && message.role != MessageRole::System ==> ({
            let told = anthropic_message(message)->0;
            let blocks = told.field("content"@)->0.items()->0;
            let words: int = if message.content@.len() > 0 {
                1
            } else {
                0
            };
            &&& anthropic_message(message) is Some
            &&& message.role == MessageRole::User ==> told.field_text("role"@) == Some("user"@)
            &&& message.role == MessageRole::Assistant ==> told.field_text("role"@) == Some(
                "assistant"@,
            )
            &&& told.field("content"@)->0.items() is Some
            &&& message.content@.len() > 0 ==> blocks[0].field_text("text"@) == Some(
                message.content@,
            )
            &&& message.tool_calls is None ==> blocks.len() == words
            &&& message.tool_calls matches Some(calls) ==> blocks.len() == words + calls@.len() && (
            0 <= i < calls@.len() ==> blocks[words + i] == tool_use_block(calls@[i]))
        }),
{
    broadcast use crate::json::group_fields;

    reveal_with_fuel(crate::json::last_field, 3);
    reveal_strlit("role");
    reveal_strlit("content");
    reveal_strlit("type");
    reveal_strlit("text");
    assert("role"@.len() == 4
        && "content"@.len() == 7
        && "type"@.len() == 4
        && "text"@.len() == 4
        && "role"@[0] == 'r'
        && "type"@[0] == 't'
        && "text"@[0] == 't'
        && "type"@[1] == 'y'
        && "text"@[1] == 'e');
    if message.tool_call_id is None && message.role != MessageRole::System {
        assert(anthropic_message(message)->0.field("content"@) is Some);
    }
}

/// A conversation is told message by message, in its order, whatever the maker of the
/// model; the system's messages are no part of it.
pub proof fn conversations_are_told_in_order(
    messages: Seq<Message>,
    message: Message,
    assistant: Seq<char>,
)
    ensures
        anthropic_message(message) matches Some(told) ==> flattened(
            anthropic_messages(messages.push(message)),
        ) == flattened(anthropic_messages(messages)).push(told),
        anthropic_message(message) is None ==> flattened(
            anthropic_messages(messages.push(message)),
        ) == flattened(anthropic_messages(messages)),
        message.role == MessageRole::User ==> llama_turns(messages.push(message)) == llama_turns(
            messages,
        ) + "<|start_header_id|>user<|end_header_id|>\n\n"@ + message.content@ + "<|eot_id|>"@,
        message.role == MessageRole::Assistant ==> llama_turns(messages.push(message))
            == llama_turns(messages) + "<|start_header_id|>assistant<|end_header_id|>\n\n"@
            + message.content@ + "<|eot_id|>"@,
        message.role == MessageRole::User ==> plain_turns(messages.push(message), assistant)
            == plain_turns(messages, assistant) + "User: "@ + message.content@ + "\n"@,
        message.role == MessageRole::Assistant ==> plain_turns(messages.push(message), assistant)
            == plain_turns(messages, assistant) + assistant + ": "@ + message.content@ + "\n"@,
        message.role == MessageRole::System ==> llama_turns(messages.push(message)) == llama_turns(
            messages,
        ) && plain_turns(messages.push(message), assistant) == plain_turns(messages, assistant)
            && spoken(messages.push(message)) == spoken(messages) && flattened(
            chat_turns(messages.push(message)),
        ) == flattened(chat_turns(messages)),
        message.role != MessageRole::System ==> spoken(messages.push(message)) == spoken(
            messages,
        ).push(message),
        message.role == MessageRole::User ==> flattened(chat_turns(messages.push(message)))
            == flattened(chat_turns(messages)).push(chat_message("user"@, message.content@)),
        message.role == MessageRole::Assistant ==> flattened(chat_turns(messages.push(message)))
            == flattened(chat_turns(messages)).push(chat_message("assistant"@, message.content@)),
{
    let all = messages.push(message);
    assert(all.drop_last() =~= messages);
    assert(anthropic_messages(all).drop_last() =~= anthropic_messages(messages));
    assert(spoken_or_not(all).drop_last() =~= spoken_or_not(messages));
    assert(chat_turns(all).drop_last() =~= chat_turns(messages));
    reveal_strlit("<|start_header_id|>");
    reveal_strlit("<|end_header_id|>\n\n");
    reveal_strlit("user");
    reveal_strlit("assistant");
    reveal_strlit("<|start_header_id|>user<|end_header_id|>\n\n");
    reveal_strlit("<|start_header_id|>assistant<|end_header_id|>\n\n");
    assert("<|start_header_id|>"@ + "user"@ + "<|end_header_id|>\n\n"@
        =~= "<|start_header_id|>user<|end_header_id|>\n\n"@);
    assert("<|start_header_id|>"@ + "assistant"@ + "<|end_header_id|>\n\n"@
        =~= "<|start_header_id|>assistant<|end_header_id|>\n\n"@);
    let words = message.content@;
    let l = llama_turns(messages);
    let p = plain_turns(messages, assistant);
    if message.role == MessageRole::User {
        assert(llama_turns(all) =~= l + "<|start_header_id|>user<|end_header_id|>\n\n"@ + words
            + "<|eot_id|>"@);
        assert(plain_turns(all, assistant) =~= p + "User: "@ + words + "\n"@);
    } else if message.role == MessageRole::Assistant {
        assert(llama_turns(all) =~= l + "<|start_header_id|>assistant<|end_header_id|>\n\n"@ + words
            + "<|eot_id|>"@);
        assert(plain_turns(all, assistant) =~= p + assistant + ": "@ + words + "\n"@);
    } else {
        assert(l + Seq::<char>::empty() =~= l);
        assert(p + Seq::<char>::empty() =~= p);
    }
}

/// In Mistral's prompt the user's words stand between marks, the model's before one; the
/// system's words are said once, before the user's first words.
pub proof fn mistral_hears_the_system_once(
    messages: Seq<Message>,
    message: Message,
    system: Seq<char>,
)
    ensures
        ({
            let (said, pending) = mistral_turns(messages, system);
            let after = mistral_turns(messages.push(message), system);
            &&& message.role == MessageRole::User && pending.len() > 0 ==> after == (
                said + "[INST] "@ + pending + "\n\n"@ + message.content@ + " [/INST]"@,
                Seq::<char>::empty(),
            )
            &&& message.role == MessageRole::User && pending.len() == 0 ==> after == (
                said + "[INST] "@ + message.content@ + " [/INST]"@,
                Seq::<char>::empty(),
            )
            &&& message.role == MessageRole::Assistant ==> after == (
                said + " "@ + message.content@ + "</s>"@,
                pending,
            )
            &&& message.role == MessageRole::System ==> after == (said, pending)
        }),
        mistral_turns(Seq::empty(), system) == (Seq::<char>::empty(), system),
{
    assert(messages.push(message).drop_last() =~= messages);
    let (said, pending) = mistral_turns(messages, system);
    let after = mistral_turns(messages.push(message), system);
    if message.role == MessageRole::User {
        if pending.len() > 0 {
            assert(after.0 =~= said + "[INST] "@ + pending + "\n\n"@ + message.content@
                + " [/INST]"@);
        } else {
            assert(after.0 =~= said + "[INST] "@ + message.content@ + " [/INST]"@);
        }
    }
}

/// Prompts begin with the system's words, go on with the conversation and end where the
/// model is to speak.
pub proof fn prompts_end_where_the_model_speaks(request: GenerateRequest, assistant: Seq<char>)
    ensures
        system_text(request).len() > 0 ==> llama_prompt(request) == "<|begin_of_text|>"@
            + "<|start_header_id|>system<|end_header_id|>\n\n"@ + system_text(request)
            + "<|eot_id|>"@ + llama_turns(request.messages@)
            + "<|start_header_id|>assistant<|end_header_id|>\n\n"@,
        system_text(request).len() == 0 ==> llama_prompt(request) == "<|begin_of_text|>"@
            + llama_turns(request.messages@) + "<|start_header_id|>assistant<|end_header_id|>\n\n"@,
        system_text(request).len() > 0 ==> plain_conversation(request, assistant) == "System: "@
            + system_text(request) + "\n"@ + plain_turns(request.messages@, assistant) + assistant
            + ":"@,
        system_text(request).len() == 0 ==> plain_conversation(request, assistant) == plain_turns(
            request.messages@,
            assistant,
        ) + assistant + ":"@,
        mistral_prompt(request) == "<s>"@ + mistral_turns(
            request.messages@,
            system_text(request),
        ).0,
{
    let turns = llama_turns(request.messages@);
    let plain = plain_turns(request.messages@, assistant);
    let end = "<|start_header_id|>assistant<|end_header_id|>\n\n"@;
    if system_text(request).len() > 0 {
        assert(llama_prompt(request) =~= "<|begin_of_text|>"@
            + "<|start_header_id|>system<|end_header_id|>\n\n"@ + system_text(request)
            + "<|eot_id|>"@ + turns + end);
        assert(plain_conversation(request, assistant) =~= "System: "@ + system_text(request) + "\n"@
            + plain + assistant + ":"@);
    } else {
        assert(llama_prompt(request) =~= "<|begin_of_text|>"@ + turns + end);
        assert(plain_conversation(request, assistant) =~= plain + assistant + ":"@);
    }
}

/// What a request sets for Anthropic's models is in their payload. Tools are offered
/// unless none is to be used; a reply has at least one token, and at most 1024 where
/// nothing is said.
pub proof fn anthropic_payloads_carry_the_settings(request: GenerateRequest)
    ensures
        ({
            let payload = anthropic_payload(request);
            let limit = request.config.max_output_tokens;
            &&& payload.field_text("anthropic_version"@) == Some("bedrock-2023-05-31"@)
            &&& payload.field("messages"@)->0.items() == Some(
                flattened(anthropic_messages(request.messages@)),
            )
            &&& limit is None ==> payload.field_whole("max_tokens"@) == Some(1024u64)
            &&& limit == Some(0u32) ==> payload.field_whole("max_tokens"@) == Some(1u64)
            &&& limit is Some && limit->0 > 0 ==> payload.field_whole("max_tokens"@) == Some(
                limit->0 as u64,
            )
            &&& payload.field("temperature"@) == number_view(request.config.temperature)
            &&& payload.field("top_p"@) == number_view(request.config.top_p)
            &&& request.tool_choice == Some(ToolChoice::NoTools) ==> payload.field("tools"@) is None
                && payload.field("tool_choice"@) is None
            &&& request.tool_choice != Some(ToolChoice::NoTools) && request.tools@.len() > 0
                ==> payload.field("tools"@)->0.items() == Some(anthropic_tools(request.tools@))
            &&& request.tools@.len() == 0 ==> payload.field("tools"@) is None
            &&& request.tool_choice is None ==> payload.field("tool_choice"@) is None
            &&& request.tool_choice matches Some(ToolChoice::Auto) ==> payload.field(
                "tool_choice"@,
            )->0.field_text("type"@) == Some("auto"@)
            &&& request.tool_choice matches Some(ToolChoice::Required) ==> payload.field(
                "tool_choice"@,
            )->0.field_text("type"@) == Some("any"@)
            &&& request.tool_choice matches Some(ToolChoice::Tool { name }) ==> payload.field(
                "tool_choice"@,
            )->0.field_text("name"@) == Some(name@)
            &&& request.config.response_format is Text && instructions(request).len() > 0
                ==> payload.field("system"@)->0.items()->0.len() == instructions(request).len()
                && payload.field("system"@)->0.items()->0[0].field_text("text"@) == Some(
                instructions(request)[0],
            )
        }),
{
    let payload = anthropic_payload(request);
    reveal_strlit("anthropic_version");
    reveal_strlit("messages");
    reveal_strlit("max_tokens");
    reveal_strlit("system");
    reveal_strlit("tools");
    reveal_strlit("tool_choice");
    reveal_strlit("temperature");
    reveal_strlit("top_p");
    reveal_strlit("type");
    reveal_strlit("name");
    reveal_strlit("text");
    assert("anthropic_version"@.len() == 17
        && "messages"@.len() == 8
        && "max_tokens"@.len() == 10
        && "system"@.len() == 6
        && "tools"@.len() == 5
        && "tool_choice"@.len() == 11
        && "temperature"@.len() == 11
        && "top_p"@.len() == 5
        && "type"@.len() == 4
        && "name"@.len() == 4
        && "text"@.len() == 4
        && "tools"@[2] == 'o'
        && "top_p"@[2] == 'p'
        && "tool_choice"@[1] == 'o'
        && "temperature"@[1] == 'e'
        && "type"@[0] == 't'
        && "name"@[0] == 'n'
        && "type"@[1] == 'y'
        && "text"@[1] == 'e'
        && "text"@[0] == 't');
    let base = seq![
        ("anthropic_version"@, JsonView::String("bedrock-2023-05-31"@)),
        ("messages"@, JsonView::Array(flattened(anthropic_messages(request.messages@)))),
        ("max_tokens"@, whole_number(at_least_one(max_tokens_of(request)) as u64)),
    ];
    crate::json::field_found(base, 0);
    crate::json::field_found(base, 1);
    crate::json::field_found(base, 2);
    crate::json::field_not_found(base, "system"@);
    crate::json::field_not_found(base, "tools"@);
    crate::json::field_not_found(base, "tool_choice"@);
    crate::json::field_not_found(base, "temperature"@);
    crate::json::field_not_found(base, "top_p"@);
    assert(payload.field("anthropic_version"@) == Some(base[0].1)) by {
        broadcast use crate::json::group_fields;

    }
    assert(payload.field("messages"@) == Some(base[1].1)) by {
        broadcast use crate::json::group_fields;

    }
    assert(payload.field("max_tokens"@) == Some(base[2].1)) by {
        broadcast use crate::json::group_fields;

    }
    assert(payload.field("system"@) == unless_empty(system_blocks(request))) by {
        broadcast use crate::json::group_fields;

    }
    assert(payload.field("tools"@) == unless_empty(offered_tools(request))) by {
        broadcast use crate::json::group_fields;

    }
    assert(payload.field("tool_choice"@) == bedrock_tool_choice(request.tool_choice)) by {
        broadcast use crate::json::group_fields;

    }
    assert(payload.field("temperature"@) == number_view(request.config.temperature)) by {
        broadcast use crate::json::group_fields;

    }
    assert(payload.field("top_p"@) == number_view(request.config.top_p)) by {
        broadcast use crate::json::group_fields;

    }
    if request.tool_choice is Some && bedrock_tool_choice(request.tool_choice) is Some {
        broadcast use crate::json::group_fields;

        reveal_with_fuel(crate::json::last_field, 3);
        assert(payload.field("tool_choice"@)->0.field("type"@) is Some);
    }
    if request.config.response_format is Text && instructions(request).len() > 0 {
        broadcast use crate::json::group_fields;

        reveal_with_fuel(crate::json::last_field, 3);
        assert(system_blocks(request) =~= text_blocks(instructions(request)));
        assert(text_block(instructions(request)[0]).field("text"@) is Some);
    }
}

/// What a request sets is in the payloads for the other makers too, under the names that
/// they have for it.
pub proof fn other_payloads_carry_the_settings(request: GenerateRequest, streaming: bool)
    ensures
        ({
            let asked: u32 = if request.config.max_output_tokens is Some {
                request.config.max_output_tokens->0
            } else {
                1024
            };
            let temperature = number_view(request.config.temperature);
            let top_p = number_view(request.config.top_p);
            let llama = meta_llama_payload(request);
            let titan = amazon_titan_payload(request);
            let cohere = cohere_payload(request, streaming);
            let mistral = mistral_payload(request);
            &&& llama.field_text("prompt"@) == Some(llama_prompt(request))
            &&& asked > 0 ==> llama.field_whole("max_gen_len"@) == Some(asked as u64)
            &&& asked == 0 ==> llama.field_whole("max_gen_len"@) == Some(1u64)
            &&& llama.field("temperature"@) == temperature && llama.field("top_p"@) == top_p
            &&& titan.field_text("inputText"@) == Some(plain_conversation(request, "Bot"@))
            &&& titan.field("textGenerationConfig"@)->0.field_whole("maxTokenCount"@) == Some(
                asked as u64,
            )
            &&& titan.field("textGenerationConfig"@)->0.field("temperature"@) == temperature
            &&& titan.field("textGenerationConfig"@)->0.field("topP"@) == top_p
            &&& cohere.field_text("prompt"@) == Some(plain_conversation(request, "Assistant"@))
            &&& cohere.field_whole("max_tokens"@) == Some(asked as u64)
            &&& cohere.field("stream"@) == Some(JsonView::Bool(streaming))
            &&& cohere.field_whole("num_generations"@) == Some(1u64)
            &&& cohere.field("temperature"@) == temperature && cohere.field("p"@) == top_p
            &&& mistral.field_text("prompt"@) == Some(mistral_prompt(request))
            &&& mistral.field_whole("max_tokens"@) == Some(asked as u64)
            &&& mistral.field("temperature"@) == temperature && mistral.field("top_p"@) == top_p
        }),
{
    broadcast use crate::json::group_fields;

    reveal_with_fuel(crate::json::last_field, 5);
    reveal_strlit("prompt");
    reveal_strlit("max_gen_len");
    reveal_strlit("temperature");
    reveal_strlit("top_p");
    reveal_strlit("inputText");
    reveal_strlit("textGenerationConfig");
    reveal_strlit("maxTokenCount");
    reveal_strlit("topP");
    reveal_strlit("max_tokens");
    reveal_strlit("stream");
    reveal_strlit("num_generations");
    reveal_strlit("p");
    assert("prompt"@.len() == 6
        && "max_gen_len"@.len() == 11
        && "temperature"@.len() == 11
        && "top_p"@.len() == 5
        && "inputText"@.len() == 9
        && "textGenerationConfig"@.len() == 20
        && "maxTokenCount"@.len() == 13
        && "topP"@.len() == 4
        && "max_tokens"@.len() == 10
        && "stream"@.len() == 6
        && "num_generations"@.len() == 15
        && "p"@.len() == 1
        && "prompt"@[0] == 'p'
        && "stream"@[0] == 's'
        && "max_gen_len"@[0] == 'm'
        && "temperature"@[0] == 't');
    assert(amazon_titan_payload(request).field("textGenerationConfig"@) == Some(
        titan_settings(request),
    ));
}

/// Command R is told the last message, and those before it in their order with their
/// speakers; Mistral's chat models are told the system's words first.
pub proof fn chats_are_told_in_order(request: GenerateRequest, i: int)
    requires
        has_turn(request.messages@),
    ensures
        ({
            let messages = spoken(request.messages@);
            let payload = cohere_command_r_payload(request);
            let history = payload.field("chat_history"@)->0.items()->0;
            &&& messages.len() > 0
            &&& payload.field_text("message"@) == Some(messages.last().content@)
            &&& history.len() == messages.len() - 1
            &&& 0 <= i < history.len() ==> {
                &&& history[i].field_text("message"@) == Some(messages[i].content@)
                &&& messages[i].role == MessageRole::Assistant ==> history[i].field_text("role"@)
                    == Some("CHATBOT"@)
                &&& messages[i].role == MessageRole::User ==> history[i].field_text("role"@)
                    == Some("USER"@)
            }
            &&& system_text(request).len() > 0 ==> payload.field_text("preamble"@) == Some(
                system_text(request),
            )
            &&& system_text(request).len() == 0 ==> payload.field("preamble"@) is None
        }),
        ({
            let told = mistral_chat_payload(request).field("messages"@)->0.items()->0;
            &&& system_text(request).len() > 0 ==> told[0].field_text("role"@) == Some("system"@)
                && told[0].field_text("content"@) == Some(system_text(request)) && told.len() == 1
                + flattened(chat_turns(request.messages@)).len()
            &&& system_text(request).len() == 0 ==> told == flattened(
                chat_turns(request.messages@),
            )
        }),
        forall|role: Seq<char>, content: Seq<char>|
            (#[trigger] chat_message(role, content)).field_text("role"@) == Some(role)
                && chat_message(role, content).field_text("content"@) == Some(content),
{
    turns_are_spoken(request.messages@);
    broadcast use crate::json::group_fields;

    reveal_with_fuel(crate::json::last_field, 4);
    reveal_strlit("message");
    reveal_strlit("chat_history");
    reveal_strlit("max_tokens");
    reveal_strlit("preamble");
    reveal_strlit("temperature");
    reveal_strlit("p");
    reveal_strlit("role");
    reveal_strlit("messages");
    reveal_strlit("top_p");
    reveal_strlit("content");
    assert("message"@.len() == 7
        && "chat_history"@.len() == 12
        && "max_tokens"@.len() == 10
        && "preamble"@.len() == 8
        && "temperature"@.len() == 11
        && "p"@.len() == 1
        && "role"@.len() == 4
        && "messages"@.len() == 8
        && "top_p"@.len() == 5
        && "content"@.len() == 7
        && "message"@[0] == 'm'
        && "content"@[0] == 'c'
        && "preamble"@[0] == 'p'
        && "messages"@[0] == 'm');
    let payload = cohere_command_r_payload(request);
    let messages = spoken(request.messages@);
    assert(payload.field("chat_history"@) == Some(
        JsonView::Array(cohere_history(messages.drop_last())),
    ));
    assert(payload.field("message"@) == Some(JsonView::String(messages.last().content@)));
    assert(payload.field("preamble"@) == text_unless_empty(system_text(request)));
    if 0 <= i < messages.len() - 1 {
        assert(cohere_history(messages.drop_last())[i] == cohere_turn(messages[i]));
    }
    assert(mistral_chat_payload(request).field("messages"@) is Some);
    if system_text(request).len() == 0 {
        assert(mistral_chat_payload(request).field("messages"@)->0.items()->0 =~= flattened(
            chat_turns(request.messages@),
        ));
    }
}

/// A call goes to the region and the model that the request names, with the payload for
/// that model; a request is refused for a model that nobody makes, for a conversation in
/// which nobody speaks, and for tools that the model cannot call.
pub proof fn calls_go_where_they_are_sent(
    request: GenerateRequest,
    default_region: Option<Seq<char>>,
    streaming: bool,
)
    ensures
        planned_call(request, default_region, streaming) matches Ok(plan) ==> {
            &&& region_and_model(request.model@, default_region) == Ok::<
                (Seq<char>, Seq<char>),
                ErrorView,
            >((plan.0, plan.1))
            &&& family_of(plan.1) == Some(plan.2)
            &&& plan.3 == bedrock_payload(request, plan.1, plan.2, streaming)
            &&& has_turn(request.messages@)
            &&& plan.2 != BedrockModelFamily::Anthropic ==> request.tools@.len() == 0
                && request.tool_choice is None
        },
        forall|family: BedrockModelFamily|
            (#[trigger] request_fault(request, family)) is None <==> has_turn(request.messages@) && (
            family == BedrockModelFamily::Anthropic || (request.tools@.len() == 0
                && request.tool_choice is None)),
{
}

/// A model goes by its id behind the prefix, in the region that stands before it or, where
/// none does, in the usual one; an id without the prefix, or with a blank part, names
/// nothing.
pub proof fn regions_stand_before_models(model: Seq<char>, usual: Seq<char>)
    ensures
        parted(trimmed(model), "/"@) is None ==> region_and_model(model, Some(usual)) is Err,
        parted(trimmed(model), "/"@) matches Some((prefix, rest)) ==> {
            &&& prefix != "bedrock"@ ==> region_and_model(model, Some(usual)) == Err::<
                (Seq<char>, Seq<char>),
                ErrorView,
            >(
                bad_setting(
                    "Bedrock provider expects model ids prefixed with `bedrock/`; got `"@ + prefix
                        + "`"@,
                    "model"@,
                ),
            )
            &&& prefix == "bedrock"@ && parted(rest, "/"@) is None ==> region_and_model(
                model,
                Some(usual),
            ) == Ok::<(Seq<char>, Seq<char>), ErrorView>((usual, trimmed(rest)))
                && region_and_model(model, None) is Err
            &&& prefix == "bedrock"@ && parted(rest, "/"@) is Some ==> ({
                let (region, id) = parted(rest, "/"@)->0;
                &&& trimmed(region).len() > 0 && trimmed(id).len() > 0 ==> region_and_model(
                    model,
                    Some(usual),
                ) == Ok::<(Seq<char>, Seq<char>), ErrorView>((trimmed(region), trimmed(id)))
                    && region_and_model(model, None) == region_and_model(model, Some(usual))
                &&& trimmed(region).len() == 0 || trimmed(id).len() == 0 ==> region_and_model(
                    model,
                    Some(usual),
                ) is Err
            })
        },
{
}

} // verus!
