//! OpenAI's responses: replies.
use vstd::prelude::*;
use vstd::string::*;

use super::bedrock_response::reply_view;
use super::interface::{
    call_views, some_calls, GenerateResponse, ResponseView, TokenUsage, ToolCall, ToolCallView,
};
use crate::error::{ErrorView, SdkError};
use crate::json::{field_views, json_text, last_field, Json, JsonView};
use crate::seqs::{flattened, flattened_next, prefix_next, whole_prefix};
use crate::text::{concat2, concat3, join, joined, opt_text, str_eq, texts};

verus! {

/// A piece of a message's content.
#[derive(Clone, Debug)]
pub struct ContentItem {
    pub content_type: String,
    pub text: Option<String>,
}

/// An item of a reply.
#[derive(Clone, Debug)]
#[allow(inconsistent_fields)]
pub enum OutputItem {
    Message { content: Vec<ContentItem> },
    FunctionCall { arguments: String, call_id: String, name: String },
    ToolCall { tool_name: String, arguments: Json },
    Reasoning {  },
    WebSearchCall { id: String, provider_fields: Vec<(String, Json)> },
    CodeInterpreterCall { id: String, provider_fields: Vec<(String, Json)> },
    FileSearchCall { id: String, provider_fields: Vec<(String, Json)> },
    /// Any other item; it carries nothing to hand on.
    Unknown,
}

/// The tokens of a request and of its reply.
#[derive(Clone, Copy, Debug)]
pub struct ApiUsage {
    pub prompt_tokens: Option<u32>,
    pub completion_tokens: Option<u32>,
    pub total_tokens: Option<u32>,
}

/// A reply.
#[derive(Clone, Debug)]
pub struct ResponsesApiResponse {
    pub id: String,
    pub created_at: i64,
    pub model: String,
    pub status: String,
    pub output: Vec<OutputItem>,
    pub usage: Option<ApiUsage>,
    pub error: Option<Json>,
    pub incomplete_details: Option<Json>,
}

/// A field of a document is smaller than the document.
pub proof fn fields_are_smaller(value: JsonView, key: Seq<char>)
    ensures
        value.field(key) is Some ==> decreases_to!(value => value.field(key)->0),
{
    match value {
        JsonView::Object(fields) => {
            found_field(fields, key);
            if value.field(key) is Some {
                let i = choose|i: int|
                    0 <= i < fields.len() && last_field(fields, key) == Some(
                        (#[trigger] fields[i]).1,
                    );
                assert(decreases_to!(value => fields));
                assert(decreases_to!(fields => fields[i]));
                assert(decreases_to!(fields[i] => fields[i].1));
            }
        },
        _ => {},
    }
}

proof fn found_field(fields: Seq<(Seq<char>, JsonView)>, key: Seq<char>)
    ensures
        last_field(fields, key) is Some ==> exists|i: int|
            0 <= i < fields.len() && last_field(fields, key) == Some((#[trigger] fields[i]).1),
    decreases fields.len(),
{
    if fields.len() > 0 {
        if fields.last().0 == key {
            assert(fields[fields.len() - 1] == fields.last());
        } else {
            let rest = fields.drop_last();
            found_field(rest, key);
            if last_field(rest, key) is Some {
                let i = choose|i: int|
                    0 <= i < rest.len() && last_field(rest, key) == Some((#[trigger] rest[i]).1);
                assert(fields[i] == rest[i]);
            }
        }
    }
}

/// The text of an error: its message, that of the error inside it, its reason, or
/// its code, whichever is there first.
pub open spec fn error_text(value: JsonView) -> Option<Seq<char>>
    decreases value,
    via error_text_decreases
{
    let inner = match value.field("error"@) {
        Some(error) => error_text(error),
        None => None,
    };
    if value.field_text("message"@) is Some {
        value.field_text("message"@)
    } else if inner is Some {
        inner
    } else if value.field_text("reason"@) is Some {
        value.field_text("reason"@)
    } else {
        value.field_text("code"@)
    }
}

#[via_fn]
proof fn error_text_decreases(value: JsonView) {
    fields_are_smaller(value, "error"@);
}

/// The text of an error.
pub fn extract_openai_error_message(value: &Json) -> (r: Option<String>)
    ensures
        opt_text(r) == error_text(value@),
    decreases value@,
{
    if let Some(message) = value.get_str("message") {
        return Some(message.to_owned());
    }
    if let Some(error) = value.get("error") {
        proof {
            fields_are_smaller(value@, "error"@);
        }
        if let Some(message) = extract_openai_error_message(error) {
            return Some(message);
        }
    }
    if let Some(reason) = value.get_str("reason") {
        return Some(reason.to_owned());
    }
    match value.get_str("code") {
        Some(code) => Some(code.to_owned()),
        None => None,
    }
}

/// An error that OpenAI answers with.
pub open spec fn api_error(message: Seq<char>) -> ErrorView {
    ErrorView::LmApiError { status: 400, provider: "openai"@, message, request_id: None }
}

/// An error that OpenAI answers with.
pub fn openai_error(message: String) -> (r: SdkError)
    ensures
        r@ == api_error(message@),
{
    SdkError::LmApiError {
        status: 400,
        provider: "openai".to_owned(),
        message,
        request_id: None,
    }
}

/// What an optional document says of an error.
pub open spec fn opt_error_text(value: Option<Json>) -> Option<Seq<char>> {
    match value {
        Some(value) => error_text(value@),
        None => None,
    }
}

fn opt_error_message(value: &Option<Json>) -> (r: Option<String>)
    ensures
        opt_text(r) == opt_error_text(*value),
{
    match value {
        Some(value) => extract_openai_error_message(value),
        None => None,
    }
}

/// What an error event of a stream says: the text of the error, or the data as it is.
pub open spec fn streaming_error(data: Seq<char>) -> ErrorView {
    api_error(
        match crate::json::json_parsed(data) {
            Ok(value) => match error_text(value) {
                Some(message) => message,
                None => data,
            },
            Err(_) => data,
        },
    )
}

/// What an error event of a stream says.
pub fn openai_streaming_error(data: &str) -> (r: SdkError)
    ensures
        r@ == streaming_error(data@),
{
    let message = match Json::parse(data) {
        Ok(value) => match extract_openai_error_message(&value) {
            Some(message) => message,
            None => data.to_owned(),
        },
        Err(_) => data.to_owned(),
    };
    openai_error(message)
}

/// What a tool of OpenAI's was given, in JSON text.
pub open spec fn built_in_arguments(fields: Seq<(String, Json)>) -> Seq<char> {
    if fields.len() == 0 {
        "{}"@
    } else {
        json_text(JsonView::Object(field_views(fields)))
    }
}

/// What a tool of OpenAI's was given, in JSON text.
pub fn built_in_tool_arguments(provider_fields: &Vec<(String, Json)>) -> (r: String)
    ensures
        r@ == built_in_arguments(provider_fields@),
{
    if provider_fields.len() == 0 {
        return "{}".to_owned();
    }
    let mut fields: Vec<(String, Json)> = Vec::new();
    let mut i: usize = 0;
    while i < provider_fields.len()
        invariant
            i <= provider_fields@.len(),
            fields@.len() == i,
            forall|j: int|
                0 <= j < i ==> (#[trigger] fields@[j]).0@ == provider_fields@[j].0@ && fields@[j].1@
                    == provider_fields@[j].1@,
        decreases provider_fields@.len() - i,
    {
        fields.push((provider_fields[i].0.clone(), provider_fields[i].1.duplicate()));
        i = i + 1;
    }
    assert(field_views(fields@) =~= field_views(provider_fields@));
    Json::object(fields).to_text()
}

/// A call.
pub open spec fn call_view(id: Seq<char>, name: Seq<char>, arguments: Seq<char>) -> ToolCallView {
    ToolCallView { id, name, arguments, provider_data: None }
}

impl OutputItem {
    /// The call that an item makes; a tool of OpenAI's counts as called too.
    pub open spec fn call(self) -> Option<ToolCallView> {
        match self {
            OutputItem::FunctionCall { arguments, call_id, name } => Some(
                call_view(call_id@, name@, arguments@),
            ),
            OutputItem::ToolCall { tool_name, arguments } => Some(
                call_view("call_"@ + tool_name@, tool_name@, json_text(arguments@)),
            ),
            OutputItem::WebSearchCall { id, provider_fields } => Some(
                call_view(id@, "web_search_preview"@, built_in_arguments(provider_fields@)),
            ),
            OutputItem::CodeInterpreterCall { id, provider_fields } => Some(
                call_view(id@, "code_interpreter"@, built_in_arguments(provider_fields@)),
            ),
            OutputItem::FileSearchCall { id, provider_fields } => Some(
                call_view(id@, "file_search"@, built_in_arguments(provider_fields@)),
            ),
            _ => None,
        }
    }

    fn to_call(&self) -> (r: Option<ToolCall>)
        ensures
            match r {
                Some(call) => self.call() == Some(call@),
                None => self.call() is None,
            },
    {
        let (id, name, arguments) = match self {
            OutputItem::FunctionCall { arguments, call_id, name } => (
                call_id.clone(),
                name.clone(),
                arguments.clone(),
            ),
            OutputItem::ToolCall { tool_name, arguments } => (
                concat2("call_", tool_name.as_str()),
                tool_name.clone(),
                arguments.to_text(),
            ),
            OutputItem::WebSearchCall { id, provider_fields } => (
                id.clone(),
                "web_search_preview".to_owned(),
                built_in_tool_arguments(provider_fields),
            ),
            OutputItem::CodeInterpreterCall { id, provider_fields } => (
                id.clone(),
                "code_interpreter".to_owned(),
                built_in_tool_arguments(provider_fields),
            ),
            OutputItem::FileSearchCall { id, provider_fields } => (
                id.clone(),
                "file_search".to_owned(),
                built_in_tool_arguments(provider_fields),
            ),
            _ => {
                return None;
            },
        };
        Some(ToolCall { id, name, arguments, provider_data: None })
    }

    /// The texts of an item.
    pub open spec fn said(self) -> Seq<Seq<char>> {
        match self {
            OutputItem::Message { content } => flattened(content_texts(content@)),
            _ => Seq::empty(),
        }
    }
}

/// The text of each piece that is a text.
pub open spec fn content_texts(content: Seq<ContentItem>) -> Seq<Option<Seq<char>>> {
    Seq::new(
        content.len(),
        |i: int|
            if content[i].content_type@ == "output_text"@ || content[i].content_type@ == "text"@ {
                opt_text(content[i].text)
            } else {
                None
            },
    )
}

/// The texts of items.
pub open spec fn output_texts(output: Seq<OutputItem>) -> Seq<Seq<char>>
    decreases output.len(),
{
    if output.len() == 0 {
        Seq::empty()
    } else {
        output_texts(output.drop_last()) + output.last().said()
    }
}

/// The calls of items.
pub open spec fn output_calls(output: Seq<OutputItem>) -> Seq<Option<ToolCallView>> {
    Seq::new(output.len(), |i: int| output[i].call())
}

/// The calls of items.
pub fn tool_calls_from_output(output: &Vec<OutputItem>) -> (r: Vec<ToolCall>)
    ensures
        call_views(r@) == flattened(output_calls(output@)),
{
    let mut out: Vec<ToolCall> = Vec::new();
    let ghost all = output_calls(output@);
    let mut i: usize = 0;
    proof {
        whole_prefix(all);
        assert(call_views(out@) =~= Seq::empty());
    }
    while i < output.len()
        invariant
            i <= output@.len(),
            all == output_calls(output@),
            call_views(out@) == flattened(all.subrange(0, i as int)),
        decreases output@.len() - i,
    {
        let ghost before = call_views(out@);
        proof {
            flattened_next(all, i as int);
        }
        if let Some(call) = output[i].to_call() {
            out.push(call);
            assert(call_views(out@) =~= before.push(call@));
        }
        i = i + 1;
    }
    proof {
        whole_prefix(all);
    }
    out
}

fn push_content_texts(content: &Vec<ContentItem>, out: &mut Vec<String>)
    ensures
        texts(final(out)@) == texts(old(out)@) + flattened(content_texts(content@)),
{
    let ghost before = texts(out@);
    let ghost all = content_texts(content@);
    let mut i: usize = 0;
    proof {
        whole_prefix(all);
        assert(before + flattened(all.subrange(0, 0)) =~= before);
    }
    while i < content.len()
        invariant
            i <= content@.len(),
            all == content_texts(content@),
            texts(out@) == before + flattened(all.subrange(0, i as int)),
        decreases content@.len() - i,
    {
        let ghost now = texts(out@);
        let item = &content[i];
        proof {
            flattened_next(all, i as int);
        }
        if str_eq(item.content_type.as_str(), "output_text") || str_eq(
            item.content_type.as_str(),
            "text",
        ) {
            if let Some(text) = &item.text {
                out.push(text.clone());
                assert(texts(out@) =~= now.push(text@));
                assert(texts(out@) =~= before + flattened(all.subrange(0, i + 1)));
            }
        }
        i = i + 1;
    }
    proof {
        whole_prefix(all);
    }
}

/// A moment as an unsigned number, modulo the range of these.
pub open spec fn unsigned_time(t: i64) -> u64 {
    if t >= 0 {
        t as u64
    } else {
        (t + 0x1_0000_0000_0000_0000) as u64
    }
}

/// A moment as an unsigned number, modulo the range of these.
pub fn time_as_u64(t: i64) -> (r: u64)
    ensures
        r == unsigned_time(t),
{
    if t >= 0 {
        t as u64
    } else {
        let below: u64 = (-(t + 1)) as u64;
        0xffff_ffff_ffff_ffff - below
    }
}

/// What the counts make up.
pub open spec fn usage_view(usage: Option<ApiUsage>) -> Option<TokenUsage> {
    match usage {
        Some(u) => Some(
            TokenUsage {
                prompt_tokens: u.prompt_tokens,
                completion_tokens: u.completion_tokens,
                total_tokens: u.total_tokens,
                cached_tokens: None,
                cache_creation_tokens: None,
            },
        ),
        None => None,
    }
}

/// What the counts make up.
pub fn usage_of(usage: Option<ApiUsage>) -> (r: Option<TokenUsage>)
    ensures
        r == usage_view(usage),
{
    match usage {
        Some(u) => Some(
            TokenUsage {
                prompt_tokens: u.prompt_tokens,
                completion_tokens: u.completion_tokens,
                total_tokens: u.total_tokens,
                cached_tokens: None,
                cache_creation_tokens: None,
            },
        ),
        None => None,
    }
}

impl ResponsesApiResponse {
    /// What is wrong with a reply that is not complete.
    pub open spec fn fault(self) -> Option<ErrorView> {
        if self.status@ == "completed"@ {
            None
        } else {
            Some(
                api_error(
                    if self.status@ == "failed"@ {
                        match opt_error_text(self.error) {
                            Some(message) => message,
                            None => "OpenAI Responses API response failed"@,
                        }
                    } else if self.status@ == "incomplete"@ {
                        "OpenAI Responses API response incomplete: "@ + (match opt_error_text(
                            self.incomplete_details,
                        ) {
                            Some(message) => message,
                            None => "unknown reason"@,
                        })
                    } else {
                        "OpenAI Responses API returned non-completed status `"@ + self.status@
                            + "`"@
                    },
                ),
            )
        }
    }

    /// What is wrong with a reply that is not complete.
    pub fn status_error(&self) -> (r: Option<SdkError>)
        ensures
            match r {
                Some(e) => self.fault() == Some(e@),
                None => self.fault() is None,
            },
    {
        if str_eq(self.status.as_str(), "completed") {
            return None;
        }
        let message = if str_eq(self.status.as_str(), "failed") {
            match opt_error_message(&self.error) {
                Some(message) => message,
                None => "OpenAI Responses API response failed".to_owned(),
            }
        } else if str_eq(self.status.as_str(), "incomplete") {
            match opt_error_message(&self.incomplete_details) {
                Some(message) => concat2(
                    "OpenAI Responses API response incomplete: ",
                    message.as_str(),
                ),
                None => concat2("OpenAI Responses API response incomplete: ", "unknown reason"),
            }
        } else {
            concat3(
                "OpenAI Responses API returned non-completed status `",
                self.status.as_str(),
                "`",
            )
        };
        Some(openai_error(message))
    }

    /// The reply that this is.
    pub open spec fn answer(self) -> Result<ResponseView, ErrorView> {
        match self.fault() {
            Some(e) => Err(e),
            None => Ok(
                ResponseView {
                    id: self.id@,
                    model: self.model@,
                    created: Some(unsigned_time(self.created_at)),
                    text: joined(output_texts(self.output@), "\n"@),
                    usage: usage_view(self.usage),
                    finish_reason: Some(self.status@),
                    tool_calls: some_calls(flattened(output_calls(self.output@))),
                    object: None,
                    raw: None,
                    metadata: None,
                },
            ),
        }
    }

    /// The reply that this is.
    pub fn into_generate_response(self) -> (r: Result<GenerateResponse, SdkError>)
        ensures
            reply_view(r) == self.answer(),
    {
        if let Some(e) = self.status_error() {
            return Err(e);
        }
        let tool_calls = tool_calls_from_output(&self.output);
        let mut text_parts: Vec<String> = Vec::new();
        let ghost all = self.output@;
        let mut i: usize = 0;
        proof {
            whole_prefix(all);
            assert(texts(text_parts@) =~= Seq::empty());
        }
        while i < self.output.len()
            invariant
                i <= self.output@.len(),
                all == self.output@,
                texts(text_parts@) == output_texts(all.subrange(0, i as int)),
            decreases self.output@.len() - i,
        {
            proof {
                prefix_next(all, i as int);
                assert(texts(text_parts@) + Seq::<Seq<char>>::empty() =~= texts(text_parts@));
            }
            if let OutputItem::Message { content } = &self.output[i] {
                push_content_texts(content, &mut text_parts);
            }
            i = i + 1;
        }
        proof {
            whole_prefix(all);
        }
        let text = join(&text_parts, "\n");
        Ok(
            GenerateResponse {
                id: self.id,
                model: self.model,
                created: Some(time_as_u64(self.created_at)),
                text,
                usage: usage_of(self.usage),
                finish_reason: Some(self.status),
                tool_calls: if tool_calls.len() == 0 {
                    None
                } else {
                    Some(tool_calls)
                },
                object: None,
                raw: None,
                metadata: None,
            },
        )
    }
}

/// What an error says is its message; without one what the error inside it says, then its
/// reason, then its code.
pub proof fn errors_say_their_message_first(value: JsonView)
    ensures
        value.field_text("message"@) is Some ==> error_text(value) == value.field_text("message"@),
        value.field_text("message"@) is None && value.field("error"@) is Some && error_text(
            value.field("error"@)->0,
        ) is Some ==> error_text(value) == error_text(value.field("error"@)->0),
        value.field_text("message"@) is None && (value.field("error"@) is None || error_text(
            value.field("error"@)->0,
        ) is None) && value.field_text("reason"@) is Some ==> error_text(value)
            == value.field_text("reason"@),
        value.field_text("message"@) is None && (value.field("error"@) is None || error_text(
            value.field("error"@)->0,
        ) is None) && value.field_text("reason"@) is None ==> error_text(value)
            == value.field_text("code"@),
{
    fields_are_smaller(value, "error"@);
}

/// Each item that makes a call gives it under its id and its name; the others make none.
pub proof fn items_make_their_calls(item: OutputItem, fields: Seq<(String, Json)>)
    ensures
        item matches OutputItem::FunctionCall { arguments, call_id, name } ==> item.call() == Some(
            ToolCallView {
                id: call_id@,
                name: name@,
                arguments: arguments@,
                provider_data: None,
            },
        ),
        item matches OutputItem::ToolCall { tool_name, arguments } ==> item.call() == Some(
            ToolCallView {
                id: "call_"@ + tool_name@,
                name: tool_name@,
                arguments: json_text(arguments@),
                provider_data: None,
            },
        ),
        item matches OutputItem::WebSearchCall { id, provider_fields } ==> item.call() is Some
            && item.call()->0.id == id@ && item.call()->0.name == "web_search_preview"@
            && item.call()->0.arguments == built_in_arguments(provider_fields@),
        item matches OutputItem::CodeInterpreterCall { id, provider_fields } ==> item.call() is Some
            && item.call()->0.id == id@ && item.call()->0.name == "code_interpreter"@
            && item.call()->0.arguments == built_in_arguments(provider_fields@),
        item matches OutputItem::FileSearchCall { id, provider_fields } ==> item.call() is Some
            && item.call()->0.id == id@ && item.call()->0.name == "file_search"@
            && item.call()->0.arguments == built_in_arguments(provider_fields@),
        item is Message || item is Reasoning || item is Unknown ==> item.call() is None,
        fields.len() == 0 ==> built_in_arguments(fields) == "{}"@,
        fields.len() > 0 ==> built_in_arguments(fields) == json_text(
            JsonView::Object(field_views(fields)),
        ),
{
}

/// The texts and the calls of a reply are those of its items, in their order; only pieces
/// that are text count as such.
pub proof fn replies_are_gathered_in_order(
    output: Seq<OutputItem>,
    item: OutputItem,
    content: Seq<ContentItem>,
    piece: ContentItem,
)
    ensures
        item matches OutputItem::Message { content: said } ==> output_texts(output.push(item))
            == output_texts(output) + flattened(content_texts(said@)),
        !(item is Message) ==> output_texts(output.push(item)) == output_texts(output),
        item.call() matches Some(call) ==> flattened(output_calls(output.push(item))) == flattened(
            output_calls(output),
        ).push(call),
        item.call() is None ==> flattened(output_calls(output.push(item))) == flattened(
            output_calls(output),
        ),
        (piece.content_type@ == "output_text"@ || piece.content_type@ == "text"@)
            && piece.text is Some ==> flattened(content_texts(content.push(piece))) == flattened(
            content_texts(content),
        ).push(piece.text->0@),
        piece.text is None || (piece.content_type@ != "output_text"@ && piece.content_type@
            != "text"@) ==> flattened(content_texts(content.push(piece))) == flattened(
            content_texts(content),
        ),
{
    assert(output.push(item).drop_last() =~= output);
    assert(output_calls(output.push(item)).drop_last() =~= output_calls(output));
    assert(content_texts(content.push(piece)).drop_last() =~= content_texts(content));
    assert(output_texts(output) + Seq::<Seq<char>>::empty() =~= output_texts(output));
}

/// A reply counts only once it is complete; otherwise it is an error that says what went
/// wrong. A complete one tells its texts line by line, its calls and its counts.
pub proof fn only_complete_replies_count(response: ResponsesApiResponse)
    ensures
        response.status@ == "completed"@ <==> response.answer() is Ok,
        response.status@ == "completed"@ ==> ({
            let reply = response.answer()->Ok_0;
            &&& reply.id == response.id@
            &&& reply.model == response.model@
            &&& reply.text == joined(output_texts(response.output@), "\n"@)
            &&& reply.tool_calls == some_calls(flattened(output_calls(response.output@)))
            &&& reply.finish_reason == Some("completed"@)
            &&& response.created_at >= 0 ==> reply.created == Some(response.created_at as u64)
            &&& response.usage is None ==> reply.usage is None
            &&& response.usage matches Some(u) ==> {
                &&& reply.usage is Some
                &&& reply.usage->0.prompt_tokens == u.prompt_tokens
                &&& reply.usage->0.completion_tokens == u.completion_tokens
                &&& reply.usage->0.total_tokens == u.total_tokens
                &&& reply.usage->0.cached_tokens is None
                &&& reply.usage->0.cache_creation_tokens is None
            }
        }),
        response.answer() matches Err(e) ==> e is LmApiError && e->LmApiError_status == 400
            && e->LmApiError_provider == "openai"@ && ({
            let said = e->LmApiError_message;
            let error = opt_error_text(response.error);
            let details = opt_error_text(response.incomplete_details);
            &&& response.status@ == "failed"@ && error is Some ==> said == error->0
            &&& response.status@ == "failed"@ && error is None ==> said
                == "OpenAI Responses API response failed"@
            &&& response.status@ == "incomplete"@ && details is Some ==> said
                == "OpenAI Responses API response incomplete: "@ + details->0
            &&& response.status@ == "incomplete"@ && details is None ==> said
                == "OpenAI Responses API response incomplete: "@ + "unknown reason"@
            &&& response.status@ != "failed"@ && response.status@ != "incomplete"@ ==> said
                == "OpenAI Responses API returned non-completed status `"@ + response.status@ + "`"@
        }),
{
    reveal_strlit("completed");
    reveal_strlit("failed");
    reveal_strlit("incomplete");
    assert("completed"@.len() == 9
        && "failed"@.len() == 6
        && "incomplete"@.len() == 10);
}

/// A moment counts as it is, and one before the beginning of time wraps around.
pub proof fn moments_wrap_around(t: i64)
    ensures
        t >= 0 ==> unsigned_time(t) == t,
        t < 0 ==> unsigned_time(t) == t + 0x1_0000_0000_0000_0000,
{
}

} // verus!
