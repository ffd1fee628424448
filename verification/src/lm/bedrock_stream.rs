//! Replies of the models behind Amazon Bedrock that come piece by piece.
use vstd::prelude::*;
use vstd::string::*;

use super::bedrock::BedrockModelFamily;
use super::bedrock_response::{
    cached_usage, counts_fit, make_reply, or_else, or_empty, reply, reply_view, text_or_empty,
    usage_fits, usage_with_cache,
};
use super::event_stream::{
    drained, event_views, AwsEventStreamDecoder, AwsEventStreamMessage, EventView,
};
use super::interface::{
    call_views, chunk_views, delta_text, delta_text_of_both, push_chunk, ChunkView,
    ContentBlockType, GenerateResponse, OutputView, ResponseFormat, ResponseView, StreamChunk,
    StreamOutput, TokenUsage, ToolCall, ToolCallView,
};
use super::text_block::{block_text_is_handed_on, unstarted, BlockView, TextBlock};
use crate::error::{ErrorView, SdkError};
use crate::json::{json_parsed_bytes, json_text, json_views, no_fields, opt_json, Json, JsonView};
use crate::seqs::{flattened, flattened_next, whole_prefix};
use crate::slots::{ascending, setting_a_slot, slot, slot_by_position, slot_position, with_slot};
use crate::text::{
    concat2, concat4, decimal, from_utf8_lossy, last_pair, lossy_text, opt_text, str_eq, texts,
};

verus! {

/// A call of which some pieces have come.
#[derive(Debug)]
pub struct PartialBedrockToolCall {
    pub id: Option<String>,
    pub name: Option<String>,
    pub initial_input: Option<Json>,
    pub arguments: String,
}

/// What a `PartialBedrockToolCall` stands for.
pub struct PartialCallView {
    pub id: Option<Seq<char>>,
    pub name: Option<Seq<char>>,
    pub initial_input: Option<JsonView>,
    pub arguments: Seq<char>,
}

impl View for PartialBedrockToolCall {
    type V = PartialCallView;

    open spec fn view(&self) -> PartialCallView {
        PartialCallView {
            id: opt_text(self.id),
            name: opt_text(self.name),
            initial_input: opt_json(self.initial_input),
            arguments: self.arguments@,
        }
    }
}

/// A call of which nothing has come.
pub open spec fn blank_call() -> PartialCallView {
    PartialCallView { id: None, name: None, initial_input: None, arguments: Seq::empty() }
}

/// What calls under their numbers stand for.
pub open spec fn slot_views(calls: Seq<(u32, PartialBedrockToolCall)>) -> Seq<
    (u32, PartialCallView),
> {
    Seq::new(calls.len(), |i: int| (calls[i].0, calls[i].1@))
}

/// A reply of which some pieces have come.
#[derive(Debug)]
pub struct BedrockPartialResponse {
    pub id: Option<String>,
    pub model: String,
    pub finish_reason: Option<String>,
    pub prompt_tokens: Option<u32>,
    pub completion_tokens: Option<u32>,
    pub cache_creation_tokens: Option<u32>,
    pub cached_tokens: Option<u32>,
    /// The calls under the numbers of their blocks, in the order of these.
    pub tool_calls: Vec<(u32, PartialBedrockToolCall)>,
}

/// What a `BedrockPartialResponse` stands for.
pub struct PartialView {
    pub id: Option<Seq<char>>,
    pub model: Seq<char>,
    pub finish_reason: Option<Seq<char>>,
    pub prompt_tokens: Option<u32>,
    pub completion_tokens: Option<u32>,
    pub cache_creation_tokens: Option<u32>,
    pub cached_tokens: Option<u32>,
    pub tool_calls: Seq<(u32, PartialCallView)>,
}

impl View for BedrockPartialResponse {
    type V = PartialView;

    open spec fn view(&self) -> PartialView {
        PartialView {
            id: opt_text(self.id),
            model: self.model@,
            finish_reason: opt_text(self.finish_reason),
            prompt_tokens: self.prompt_tokens,
            completion_tokens: self.completion_tokens,
            cache_creation_tokens: self.cache_creation_tokens,
            cached_tokens: self.cached_tokens,
            tool_calls: slot_views(self.tool_calls@),
        }
    }
}

/// The whole number in a field, where it is a count.
pub open spec fn field_count(value: JsonView, key: Seq<char>) -> Option<u32> {
    match value.field_whole(key) {
        Some(n) => if n <= u32::MAX {
            Some(n as u32)
        } else {
            None
        },
        None => None,
    }
}

/// The text in a field, in a list, unless it is empty or not there.
pub open spec fn field_texts(value: JsonView, key: Seq<char>) -> Seq<Seq<char>> {
    match value.field_text(key) {
        Some(s) => if s.len() == 0 {
            Seq::empty()
        } else {
            seq![s]
        },
        None => Seq::empty(),
    }
}

/// The first item of an array in a field.
pub open spec fn first_item(value: JsonView, key: Seq<char>) -> Option<JsonView> {
    match value.field(key) {
        Some(v) => match v.items() {
            Some(items) => if items.len() == 0 {
                None
            } else {
                Some(items[0])
            },
            None => None,
        },
        None => None,
    }
}

/// The number of a block.
pub open spec fn block_index(value: JsonView) -> u32 {
    match field_count(value, "index"@) {
        Some(n) => n,
        None => 0,
    }
}

/// The call under a number, or a blank one.
pub open spec fn call_at(calls: Seq<(u32, PartialCallView)>, index: u32) -> PartialCallView {
    match slot(calls, index) {
        Some(call) => call,
        None => blank_call(),
    }
}

impl PartialView {
    /// The counts of a usage, in place of those that were there.
    pub open spec fn with_usage(self, usage: JsonView) -> PartialView {
        PartialView {
            prompt_tokens: or_else(field_count(usage, "input_tokens"@), self.prompt_tokens),
            completion_tokens: or_else(field_count(usage, "output_tokens"@), self.completion_tokens),
            cache_creation_tokens: or_else(
                field_count(usage, "cache_creation_input_tokens"@),
                self.cache_creation_tokens,
            ),
            cached_tokens: or_else(
                field_count(usage, "cache_read_input_tokens"@),
                self.cached_tokens,
            ),
            ..self
        }
    }

    /// The counts of a usage that may not be there.
    pub open spec fn with_opt_usage(self, usage: Option<JsonView>) -> PartialView {
        match usage {
            Some(usage) => self.with_usage(usage),
            None => self,
        }
    }

    /// The beginning of an Anthropic model's reply.
    pub open spec fn with_message(self, message: JsonView) -> PartialView {
        PartialView {
            id: or_else(message.field_text("id"@), self.id),
            model: or_else(message.field_text("model"@), Some(self.model))->0,
            ..self
        }.with_opt_usage(message.field("usage"@))
    }

    /// The beginning of a call.
    pub open spec fn with_call_start(self, index: u32, block: JsonView) -> PartialView {
        PartialView {
            tool_calls: with_slot(
                self.tool_calls,
                index,
                PartialCallView {
                    id: block.field_text("id"@),
                    name: block.field_text("name"@),
                    initial_input: block.field("input"@),
                    ..call_at(self.tool_calls, index)
                },
            ),
            ..self
        }
    }

    /// More of a call's arguments.
    pub open spec fn with_arguments(self, index: u32, more: Seq<char>) -> PartialView {
        let call = call_at(self.tool_calls, index);
        PartialView {
            tool_calls: with_slot(
                self.tool_calls,
                index,
                PartialCallView { arguments: call.arguments + more, ..call },
            ),
            ..self
        }
    }

    /// The reason why the reply ended, where one is given.
    pub open spec fn with_reason(self, value: JsonView, key: Seq<char>) -> PartialView {
        PartialView { finish_reason: or_else(value.field_text(key), self.finish_reason), ..self }
    }

    /// The two counts of a family without a cache.
    pub open spec fn with_counts(self, value: JsonView, input: Seq<char>, output: Seq<char>) -> PartialView {
        PartialView {
            prompt_tokens: or_else(field_count(value, input), self.prompt_tokens),
            completion_tokens: or_else(field_count(value, output), self.completion_tokens),
            ..self
        }
    }

    /// What an event of an Anthropic model tells, and the text that it brings.
    pub open spec fn anthropic_event(self, value: JsonView) -> (PartialView, Seq<Seq<char>>) {
        let kind = value.field_text("type"@);
        if kind == Some("message_start"@) {
            (
                match value.field("message"@) {
                    Some(message) => self.with_message(message),
                    None => self,
                },
                Seq::empty(),
            )
        } else if kind == Some("content_block_start"@) {
            match value.field("content_block"@) {
                Some(block) => {
                    let block_kind = block.field_text("type"@);
                    if block_kind == Some("text"@) {
                        (self, field_texts(block, "text"@))
                    } else if block_kind == Some("tool_use"@) {
                        (self.with_call_start(block_index(value), block), Seq::empty())
                    } else {
                        (self, Seq::empty())
                    }
                },
                None => (self, Seq::empty()),
            }
        } else if kind == Some("content_block_delta"@) {
            match value.field("delta"@) {
                Some(delta) => {
                    let delta_kind = delta.field_text("type"@);
                    if delta_kind == Some("text_delta"@) {
                        (self, field_texts(delta, "text"@))
                    } else if delta_kind == Some("input_json_delta"@) {
                        match delta.field_text("partial_json"@) {
                            Some(more) => (
                                self.with_arguments(block_index(value), more),
                                Seq::empty(),
                            ),
                            None => (self, Seq::empty()),
                        }
                    } else {
                        (self, Seq::empty())
                    }
                },
                None => (self, Seq::empty()),
            }
        } else if kind == Some("message_delta"@) {
            (
                (match value.field("delta"@) {
                    Some(delta) => self.with_reason(delta, "stop_reason"@),
                    None => self,
                }).with_opt_usage(value.field("usage"@)),
                Seq::empty(),
            )
        } else {
            (self, Seq::empty())
        }
    }

    /// What an event of a Cohere model tells, and the text that it brings.
    pub open spec fn cohere_event(self, value: JsonView) -> (PartialView, Seq<Seq<char>>) {
        match first_item(value, "generations"@) {
            Some(generation) => (
                PartialView {
                    id: or_else(
                        generation.field_text("id"@),
                        or_else(value.field_text("id"@), self.id),
                    ),
                    ..self
                }.with_reason(generation, "finish_reason"@),
                field_texts(generation, "text"@),
            ),
            None => {
                let named = PartialView {
                    id: or_else(
                        value.field_text("generation_id"@),
                        or_else(value.field_text("response_id"@), self.id),
                    ),
                    ..self
                }.with_reason(value, "finish_reason"@);
                let units = match value.field("meta"@) {
                    Some(meta) => meta.field("billed_units"@),
                    None => None,
                };
                (
                    match units {
                        Some(units) => named.with_counts(
                            units,
                            "input_tokens"@,
                            "output_tokens"@,
                        ),
                        None => named,
                    },
                    field_texts(value, "text"@),
                )
            },
        }
    }

    /// What an event of a Mistral model tells, and the text that it brings.
    pub open spec fn mistral_event(self, value: JsonView) -> (PartialView, Seq<Seq<char>>) {
        match first_item(value, "outputs"@) {
            Some(output) => (
                self.with_reason(output, "stop_reason"@),
                field_texts(output, "text"@),
            ),
            None => match first_item(value, "choices"@) {
                Some(choice) => (
                    self.with_reason(choice, "stop_reason"@),
                    match or_else(choice.field("delta"@), choice.field("message"@)) {
                        Some(delta) => field_texts(delta, "content"@),
                        None => Seq::empty(),
                    },
                ),
                None => (self, Seq::empty()),
            },
        }
    }

    /// What an event of a model tells, and the text that it brings.
    pub open spec fn event(self, family: BedrockModelFamily, value: JsonView) -> (
        PartialView,
        Seq<Seq<char>>,
    ) {
        match family {
            BedrockModelFamily::Anthropic => self.anthropic_event(value),
            BedrockModelFamily::MetaLlama => (
                self.with_counts(value, "prompt_token_count"@, "generation_token_count"@).with_reason(
                    value,
                    "stop_reason"@,
                ),
                field_texts(value, "generation"@),
            ),
            BedrockModelFamily::AmazonTitan => (
                self.with_counts(
                    value,
                    "inputTextTokenCount"@,
                    "totalOutputTextTokenCount"@,
                ).with_reason(value, "completionReason"@),
                field_texts(value, "outputText"@),
            ),
            BedrockModelFamily::Cohere => self.cohere_event(value),
            BedrockModelFamily::Mistral => self.mistral_event(value),
        }
    }

    /// Whether no sum of the counts is too large.
    pub open spec fn fits(self) -> bool {
        usage_fits(
            self.prompt_tokens,
            self.completion_tokens,
            self.cache_creation_tokens,
            self.cached_tokens,
        )
    }

    /// The usage, unless there is none to tell of.
    pub open spec fn usage(self) -> Option<TokenUsage> {
        if self.prompt_tokens is None && self.completion_tokens is None {
            None
        } else {
            Some(
                usage_with_cache(
                    self.prompt_tokens,
                    self.completion_tokens,
                    self.cache_creation_tokens,
                    self.cached_tokens,
                ),
            )
        }
    }

    /// The reply that the pieces make up, together with their text.
    pub open spec fn answer(self, text: Seq<char>, format: ResponseFormat) -> Result<
        ResponseView,
        ErrorView,
    > {
        reply(
            or_empty(self.id),
            self.model,
            text,
            self.usage(),
            self.finish_reason,
            flattened(finished_calls(self.tool_calls)),
            format,
        )
    }
}

/// A call, once its id and its name have come. Its arguments are the pieces that
/// came or, without any, the input it began with.
pub open spec fn finished_call(call: PartialCallView) -> Option<ToolCallView> {
    match (call.id, call.name) {
        (Some(id), Some(name)) => Some(
            ToolCallView {
                id,
                name,
                arguments: if call.arguments.len() == 0 {
                    json_text(
                        match call.initial_input {
                            Some(input) => input,
                            None => JsonView::Object(Seq::empty()),
                        },
                    )
                } else {
                    call.arguments
                },
                provider_data: None,
            },
        ),
        _ => None,
    }
}

/// The calls that have come.
pub open spec fn finished_calls(calls: Seq<(u32, PartialCallView)>) -> Seq<Option<ToolCallView>> {
    Seq::new(calls.len(), |i: int| finished_call(calls[i].1))
}

fn field_u32(value: &Json, key: &str, old: Option<u32>) -> (r: Option<u32>)
    ensures
        r == or_else(field_count(value@, key@), old),
{
    match value.get_u64(key) {
        Some(n) => if n <= 0xffff_ffff {
            Some(n as u32)
        } else {
            old
        },
        None => old,
    }
}

fn field_string(value: &Json, key: &str, old: Option<String>) -> (r: Option<String>)
    ensures
        opt_text(r) == or_else(value@.field_text(key@), opt_text(old)),
{
    match value.get_str(key) {
        Some(s) => Some(s.to_owned()),
        None => old,
    }
}

fn push_json_text(value: &Json, field: &str) -> (r: Vec<String>)
    ensures
        texts(r@) == field_texts(value@, field@),
{
    let mut out: Vec<String> = Vec::new();
    if let Some(text) = value.get_str(field) {
        if !text.is_empty() {
            out.push(text.to_owned());
        }
    }
    assert(texts(out@) =~= field_texts(value@, field@));
    out
}

fn no_texts() -> (r: Vec<String>)
    ensures
        texts(r@) == Seq::<Seq<char>>::empty(),
{
    let r: Vec<String> = Vec::new();
    assert(texts(r@) =~= Seq::empty());
    r
}

fn first_of<'a>(value: &'a Json, key: &str) -> (r: Option<&'a Json>)
    ensures
        match r {
            Some(v) => first_item(value@, key@) == Some(v@),
            None => first_item(value@, key@) is None,
        },
{
    match value.get(key) {
        Some(v) => match v.as_array() {
            Some(items) => if items.len() == 0 {
                assert(json_views(items@).len() == 0);
                None
            } else {
                assert(json_views(items@)[0] == items@[0]@);
                Some(&items[0])
            },
            None => None,
        },
        None => None,
    }
}

impl BedrockPartialResponse {
    /// The calls stand in the order of their numbers.
    pub open spec fn well_formed(self) -> bool {
        ascending(slot_views(self.tool_calls@))
    }

    pub fn new(model: String) -> (r: Self)
        ensures
            r.well_formed(),
            r@ == (PartialView {
                id: None,
                model: model@,
                finish_reason: None,
                prompt_tokens: None,
                completion_tokens: None,
                cache_creation_tokens: None,
                cached_tokens: None,
                tool_calls: Seq::empty(),
            }),
    {
        let r = BedrockPartialResponse {
            id: None,
            model,
            finish_reason: None,
            prompt_tokens: None,
            completion_tokens: None,
            cache_creation_tokens: None,
            cached_tokens: None,
            tool_calls: Vec::new(),
        };
        assert(slot_views(r.tool_calls@) =~= Seq::empty());
        r
    }

    fn take_reason(&mut self, value: &Json, key: &str)
        ensures
            final(self)@ == old(self)@.with_reason(value@, key@),
            final(self).tool_calls == old(self).tool_calls,
    {
        let old_reason = self.finish_reason.take();
        self.finish_reason = field_string(value, key, old_reason);
    }

    fn take_counts(&mut self, value: &Json, input: &str, output: &str)
        ensures
            final(self)@ == old(self)@.with_counts(value@, input@, output@),
            final(self).tool_calls == old(self).tool_calls,
    {
        self.prompt_tokens = field_u32(value, input, self.prompt_tokens);
        self.completion_tokens = field_u32(value, output, self.completion_tokens);
    }

    fn update_anthropic_usage(&mut self, usage: &Json)
        ensures
            final(self)@ == old(self)@.with_usage(usage@),
            final(self).tool_calls == old(self).tool_calls,
    {
        self.prompt_tokens = field_u32(usage, "input_tokens", self.prompt_tokens);
        self.completion_tokens = field_u32(usage, "output_tokens", self.completion_tokens);
        self.cache_creation_tokens = field_u32(
            usage,
            "cache_creation_input_tokens",
            self.cache_creation_tokens,
        );
        self.cached_tokens = field_u32(usage, "cache_read_input_tokens", self.cached_tokens);
    }

    fn take_message(&mut self, message: &Json)
        ensures
            final(self)@ == old(self)@.with_message(message@),
            final(self).tool_calls == old(self).tool_calls,
    {
        let old_id = self.id.take();
        self.id = field_string(message, "id", old_id);
        if let Some(model) = message.get_str("model") {
            self.model = model.to_owned();
        }
        if let Some(usage) = message.get("usage") {
            self.update_anthropic_usage(usage);
        }
    }

    /// Takes the call under a number out, or a blank one, and says where it goes.
    fn take_call(&mut self, index: u32) -> (r: (usize, bool, PartialBedrockToolCall))
        requires
            old(self).well_formed(),
        ensures
            r.2@ == call_at(old(self)@.tool_calls, index),
            r.0 <= final(self).tool_calls@.len(),
            forall|v: PartialCallView| with_slot(old(self)@.tool_calls, index, v)
                == #[trigger] slot_views(final(self).tool_calls@).insert(r.0 as int, (index, v)),
            final(self)@ == (PartialView { tool_calls: final(self)@.tool_calls, ..old(self)@ }),
    {
        let p: usize = slot_position(&self.tool_calls, index);
        let ghost calls = slot_views(self.tool_calls@);
        proof {
            assert forall|j: int| 0 <= j < p implies (#[trigger] calls[j]).0 < index by {
                assert(self.tool_calls@[j].0 < index);
            }
            assert forall|v: PartialCallView| #[trigger]
                with_slot(calls, index, v) == (if p < calls.len() && calls[p as int].0 == index {
                    calls.update(p as int, (index, v))
                } else {
                    calls.insert(p as int, (index, v))
                }) by {
                slot_by_position(calls, index, p as int, v);
            }
            slot_by_position(calls, index, p as int, blank_call());
        }
        if p < self.tool_calls.len() && self.tool_calls[p].0 == index {
            let (_, call) = self.tool_calls.remove(p);
            proof {
                let left = slot_views(self.tool_calls@);
                assert(left =~= calls.remove(p as int));
                assert forall|v: PartialCallView| with_slot(calls, index, v)
                    == #[trigger] left.insert(p as int, (index, v)) by {
                    assert(left.insert(p as int, (index, v)) =~= calls.update(
                        p as int,
                        (index, v),
                    ));
                }
            }
            (p, true, call)
        } else {
            let call = PartialBedrockToolCall {
                id: None,
                name: None,
                initial_input: None,
                arguments: String::new(),
            };
            (p, false, call)
        }
    }

    fn put_call(&mut self, position: usize, index: u32, call: PartialBedrockToolCall)
        requires
            position <= old(self).tool_calls@.len(),
        ensures
            final(self)@ == (PartialView {
                tool_calls: slot_views(old(self).tool_calls@).insert(
                    position as int,
                    (index, call@),
                ),
                ..old(self)@
            }),
    {
        let ghost before = slot_views(self.tool_calls@);
        self.tool_calls.insert(position, (index, call));
        assert(slot_views(self.tool_calls@) =~= before.insert(position as int, (index, call@)));
    }

    fn start_call(&mut self, index: u32, block: &Json)
        requires
            old(self).well_formed(),
        ensures
            final(self).well_formed(),
            final(self)@ == old(self)@.with_call_start(index, block@),
    {
        proof {
            let changed = PartialCallView {
                id: block@.field_text("id"@),
                name: block@.field_text("name"@),
                initial_input: block@.field("input"@),
                ..call_at(self@.tool_calls, index)
            };
            setting_a_slot(self@.tool_calls, index, changed, index);
        }
        let (position, _, mut call) = self.take_call(index);
        call.id = field_string(block, "id", None);
        call.name = field_string(block, "name", None);
        call.initial_input = match block.get("input") {
            Some(input) => Some(input.duplicate()),
            None => None,
        };
        self.put_call(position, index, call);
    }

    fn extend_call(&mut self, index: u32, fragment: &str)
        requires
            old(self).well_formed(),
        ensures
            final(self).well_formed(),
            final(self)@ == old(self)@.with_arguments(index, fragment@),
    {
        proof {
            let call = call_at(self@.tool_calls, index);
            setting_a_slot(
                self@.tool_calls,
                index,
                PartialCallView { arguments: call.arguments + fragment@, ..call },
                index,
            );
        }
        let (position, _, mut call) = self.take_call(index);
        call.arguments.append(fragment);
        self.put_call(position, index, call);
    }

    fn absorb_anthropic_event(&mut self, value: &Json) -> (r: Vec<String>)
        requires
            old(self).well_formed(),
        ensures
            final(self).well_formed(),
            old(self)@.anthropic_event(value@) == (final(self)@, texts(r@)),
    {
        let kind = match value.get_str("type") {
            Some(kind) => kind,
            None => {
                return no_texts();
            },
        };
        if str_eq(kind, "message_start") {
            if let Some(message) = value.get("message") {
                self.take_message(message);
            }
            no_texts()
        } else if str_eq(kind, "content_block_start") {
            let index: u32 = match field_u32(value, "index", None) {
                Some(n) => n,
                None => 0,
            };
            let block = match value.get("content_block") {
                Some(block) => block,
                None => {
                    return no_texts();
                },
            };
            match block.get_str("type") {
                Some(block_kind) => {
                    if str_eq(block_kind, "text") {
                        push_json_text(block, "text")
                    } else if str_eq(block_kind, "tool_use") {
                        self.start_call(index, block);
                        no_texts()
                    } else {
                        no_texts()
                    }
                },
                None => no_texts(),
            }
        } else if str_eq(kind, "content_block_delta") {
            let index: u32 = match field_u32(value, "index", None) {
                Some(n) => n,
                None => 0,
            };
            let delta = match value.get("delta") {
                Some(delta) => delta,
                None => {
                    return no_texts();
                },
            };
            match delta.get_str("type") {
                Some(delta_kind) => {
                    if str_eq(delta_kind, "text_delta") {
                        push_json_text(delta, "text")
                    } else if str_eq(delta_kind, "input_json_delta") {
                        if let Some(fragment) = delta.get_str("partial_json") {
                            self.extend_call(index, fragment);
                        }
                        no_texts()
                    } else {
                        no_texts()
                    }
                },
                None => no_texts(),
            }
        } else if str_eq(kind, "message_delta") {
            if let Some(delta) = value.get("delta") {
                self.take_reason(delta, "stop_reason");
            }
            if let Some(usage) = value.get("usage") {
                self.update_anthropic_usage(usage);
            }
            no_texts()
        } else {
            no_texts()
        }
    }

    fn absorb_cohere_event(&mut self, value: &Json) -> (r: Vec<String>)
        ensures
            final(self).tool_calls == old(self).tool_calls,
            old(self)@.cohere_event(value@) == (final(self)@, texts(r@)),
    {
        let old_id = self.id.take();
        match first_of(value, "generations") {
            Some(generation) => {
                let outer = field_string(value, "id", old_id);
                self.id = field_string(generation, "id", outer);
                self.take_reason(generation, "finish_reason");
                push_json_text(generation, "text")
            },
            None => {
                let outer = field_string(value, "response_id", old_id);
                self.id = field_string(value, "generation_id", outer);
                self.take_reason(value, "finish_reason");
                if let Some(meta) = value.get("meta") {
                    if let Some(units) = meta.get("billed_units") {
                        self.take_counts(units, "input_tokens", "output_tokens");
                    }
                }
                push_json_text(value, "text")
            },
        }
    }

    fn absorb_mistral_event(&mut self, value: &Json) -> (r: Vec<String>)
        ensures
            final(self).tool_calls == old(self).tool_calls,
            old(self)@.mistral_event(value@) == (final(self)@, texts(r@)),
    {
        match first_of(value, "outputs") {
            Some(output) => {
                self.take_reason(output, "stop_reason");
                push_json_text(output, "text")
            },
            None => match first_of(value, "choices") {
                Some(choice) => {
                    self.take_reason(choice, "stop_reason");
                    let delta = match choice.get("delta") {
                        Some(delta) => Some(delta),
                        None => choice.get("message"),
                    };
                    match delta {
                        Some(delta) => push_json_text(delta, "content"),
                        None => no_texts(),
                    }
                },
                None => no_texts(),
            },
        }
    }

    /// Takes in what an event tells and gives the text that it brings.
    pub fn absorb_value(&mut self, family: BedrockModelFamily, value: &Json) -> (r: Vec<String>)
        requires
            old(self).well_formed(),
        ensures
            final(self).well_formed(),
            old(self)@.event(family, value@) == (final(self)@, texts(r@)),
    {
        match family {
            BedrockModelFamily::Anthropic => self.absorb_anthropic_event(value),
            BedrockModelFamily::MetaLlama => {
                self.take_counts(value, "prompt_token_count", "generation_token_count");
                self.take_reason(value, "stop_reason");
                push_json_text(value, "generation")
            },
            BedrockModelFamily::AmazonTitan => {
                self.take_counts(value, "inputTextTokenCount", "totalOutputTextTokenCount");
                self.take_reason(value, "completionReason");
                push_json_text(value, "outputText")
            },
            BedrockModelFamily::Cohere => self.absorb_cohere_event(value),
            BedrockModelFamily::Mistral => self.absorb_mistral_event(value),
        }
    }

    /// Takes in the payload of an event and gives the text that it brings.
    pub fn absorb_payload(&mut self, family: BedrockModelFamily, payload: &[u8]) -> (r: Result<
        Vec<String>,
        SdkError,
    >)
        requires
            old(self).well_formed(),
        ensures
            final(self).well_formed(),
            match (json_parsed_bytes(payload@), r) {
                (Ok(value), Ok(text)) => old(self)@.event(family, value) == (
                    final(self)@,
                    texts(text@),
                ),
                (Err(message), Err(e)) => final(self)@ == old(self)@ && e@ == ErrorView::Other(
                    "failed to parse Bedrock stream payload: "@ + message,
                ),
                _ => false,
            },
    {
        match Json::parse_bytes(payload) {
            Ok(value) => Ok(self.absorb_value(family, &value)),
            Err(message) => Err(
                SdkError::Other(
                    concat2("failed to parse Bedrock stream payload: ", message.as_str()),
                ),
            ),
        }
    }

    /// The reply that the pieces make up, together with their text. The sums of the
    /// counts must not be too large.
    pub fn into_generate_response(self, text: String, response_format: &ResponseFormat) -> (r:
        Result<GenerateResponse, SdkError>)
        requires
            self@.fits(),
        ensures
            reply_view(r) == self@.answer(text@, *response_format),
    {
        let mut tool_calls: Vec<ToolCall> = Vec::new();
        let ghost all = finished_calls(self@.tool_calls);
        proof {
            whole_prefix(all);
            assert(call_views(tool_calls@) =~= Seq::empty());
        }
        let mut i: usize = 0;
        while i < self.tool_calls.len()
            invariant
                i <= self.tool_calls@.len(),
                all == finished_calls(self@.tool_calls),
                call_views(tool_calls@) == flattened(all.subrange(0, i as int)),
            decreases self.tool_calls@.len() - i,
        {
            let partial = &self.tool_calls[i].1;
            let ghost before = call_views(tool_calls@);
            proof {
                flattened_next(all, i as int);
                assert(self@.tool_calls[i as int].1 == partial@);
            }
            if let (Some(id), Some(name)) = (&partial.id, &partial.name) {
                let arguments = if partial.arguments.as_str().is_empty() {
                    match &partial.initial_input {
                        Some(input) => input.to_text(),
                        None => Json::object(no_fields()).to_text(),
                    }
                } else {
                    partial.arguments.clone()
                };
                let call = ToolCall {
                    id: id.clone(),
                    name: name.clone(),
                    arguments,
                    provider_data: None,
                };
                tool_calls.push(call);
                assert(call_views(tool_calls@) =~= before.push(call@));
            }
            i = i + 1;
        }
        proof {
            whole_prefix(all);
        }
        let usage = if self.prompt_tokens.is_none() && self.completion_tokens.is_none() {
            None
        } else {
            Some(
                cached_usage(
                    self.prompt_tokens,
                    self.completion_tokens,
                    self.cache_creation_tokens,
                    self.cached_tokens,
                ),
            )
        };
        make_reply(
            text_or_empty(self.id),
            self.model,
            text,
            usage,
            self.finish_reason,
            tool_calls,
            response_format,
        )
    }

    /// Whether no sum of the counts is too large.
    pub fn counts_are_small(&self) -> (r: bool)
        ensures
            r == self@.fits(),
    {
        counts_fit(
            self.prompt_tokens,
            self.completion_tokens,
            self.cache_creation_tokens,
            self.cached_tokens,
        )
    }
}

/// A stream of events that is being read.
#[derive(Debug)]
pub struct BedrockStream {
    pub family: BedrockModelFamily,
    pub format: ResponseFormat,
    pub decoder: AwsEventStreamDecoder,
    pub partial: BedrockPartialResponse,
    /// The one block of text.
    pub block: TextBlock,
}

/// What a stream has made of its events so far.
pub struct StreamView {
    pub partial: PartialView,
    pub block: BlockView,
}

impl View for BedrockStream {
    type V = StreamView;

    open spec fn view(&self) -> StreamView {
        StreamView {
            partial: self.partial@,
            block: self.block@,
        }
    }
}

/// A stream after some events, with what it gave on the way.
pub struct Streamed {
    pub state: StreamView,
    pub output: OutputView,
}

impl StreamView {
    /// One event.
    pub open spec fn with_event(self, family: BedrockModelFamily, event: EventView) -> Streamed {
        let kind = last_pair(event.headers, ":event-type"@);
        if last_pair(event.headers, ":message-type"@) == Some("exception"@) || kind != Some(
            "chunk"@,
        ) {
            Streamed {
                state: self,
                output: OutputView {
                    chunks: Seq::empty(),
                    failure: Some(
                        ErrorView::Other(
                            "Bedrock stream returned "@ + (match kind {
                                Some(kind) => kind,
                                None => "unknown event"@,
                            }) + ": "@ + lossy_text(event.payload),
                        ),
                    ),
                },
            }
        } else {
            match json_parsed_bytes(event.payload) {
                Err(message) => Streamed {
                    state: self,
                    output: OutputView {
                        chunks: Seq::empty(),
                        failure: Some(
                            ErrorView::Other("failed to parse Bedrock stream payload: "@ + message),
                        ),
                    },
                },
                Ok(value) => {
                    let (partial, parts) = self.partial.event(family, value);
                    let (block, chunks) = self.block.with_texts(parts);
                    Streamed {
                        state: StreamView { partial, block },
                        output: OutputView { chunks, failure: None },
                    }
                },
            }
        }
    }

    /// Events one after the other, up to one that fails.
    pub open spec fn with_events(
        self,
        family: BedrockModelFamily,
        events: Seq<EventView>,
    ) -> Streamed
        decreases events.len(),
    {
        if events.len() == 0 {
            Streamed { state: self, output: OutputView { chunks: Seq::empty(), failure: None } }
        } else {
            let first = self.with_event(family, events[0]);
            if first.output.failure is Some {
                first
            } else {
                streamed_after(
                    first.output.chunks,
                    first.state.with_events(family, events.drop_first()),
                )
            }
        }
    }
}

/// What was given before, then what else the stream gave.
pub open spec fn streamed_after(before: Seq<ChunkView>, next: Streamed) -> Streamed {
    Streamed {
        state: next.state,
        output: OutputView {
            chunks: before + next.output.chunks,
            failure: next.output.failure,
        },
    }
}

impl BedrockStream {
    pub open spec fn well_formed(self) -> bool {
        self.partial.well_formed()
    }

    /// Whether the settings and the bytes at hand are those of another moment.
    pub open spec fn same_settings(self, other: BedrockStream) -> bool {
        self.family == other.family && self.format == other.format
    }

    pub fn new(family: BedrockModelFamily, model: String, format: ResponseFormat) -> (r: Self)
        ensures
            r.well_formed(),
            r.family == family,
            r.format == format,
            r.decoder.buffer@.len() == 0,
            r.partial@.model == model@,
            r@ == (StreamView {
                partial: PartialView {
                    id: None,
                    model: model@,
                    finish_reason: None,
                    prompt_tokens: None,
                    completion_tokens: None,
                    cache_creation_tokens: None,
                    cached_tokens: None,
                    tool_calls: Seq::empty(),
                },
                block: unstarted(0, ContentBlockType::Text),
            }),
    {
        BedrockStream {
            family,
            format,
            decoder: AwsEventStreamDecoder::default(),
            partial: BedrockPartialResponse::new(model),
            block: TextBlock::new(0, ContentBlockType::Text),
        }
    }

    fn on_event(&mut self, event: &AwsEventStreamMessage, chunks: &mut Vec<StreamChunk>) -> (r:
        Option<SdkError>)
        requires
            old(self).well_formed(),
        ensures
            final(self).well_formed(),
            final(self).same_settings(*old(self)),
            final(self).decoder == old(self).decoder,
            ({
                let s = old(self)@.with_event(old(self).family, event@);
                &&& final(self)@ == s.state
                &&& chunk_views(final(chunks)@) == chunk_views(old(chunks)@) + s.output.chunks
                &&& s.output.failure == (match r {
                    Some(e) => Some(e@),
                    None => None,
                })
            }),
    {
        let ghost before = chunk_views(chunks@);
        let kind = event.header(":event-type");
        let failed = match event.header(":message-type") {
            Some(message_type) => str_eq(message_type, "exception"),
            None => false,
        };
        let is_chunk = match kind {
            Some(kind) => str_eq(kind, "chunk"),
            None => false,
        };
        assert(before + Seq::<ChunkView>::empty() =~= before);
        if failed || !is_chunk {
            let detail = from_utf8_lossy(event.payload.as_slice());
            let name = match kind {
                Some(kind) => kind,
                None => "unknown event",
            };
            return Some(
                SdkError::Other(concat4("Bedrock stream returned ", name, ": ", detail.as_str())),
            );
        }
        let parts = match self.partial.absorb_payload(self.family, event.payload.as_slice()) {
            Ok(parts) => parts,
            Err(e) => {
                return Some(e);
            },
        };
        self.block.emit_all(&parts, chunks);
        None
    }

    /// Takes in more bytes and hands on what they bring. After a failure the stream
    /// is over; what it gave before still counts.
    pub fn on_bytes(&mut self, bytes: &[u8]) -> (r: StreamOutput)
        requires
            old(self).well_formed(),
        ensures
            final(self).well_formed(),
            final(self).same_settings(*old(self)),
            ({
                let d = drained(old(self).decoder.buffer@ + bytes@);
                &&& final(self).decoder.buffer@ == d.rest
                &&& match d.fault {
                    Some(fault) => final(self)@ == old(self)@ && r@ == (OutputView {
                        chunks: Seq::empty(),
                        failure: Some(fault),
                    }),
                    None => {
                        let s = old(self)@.with_events(old(self).family, d.events);
                        final(self)@ == s.state && r@ == s.output
                    },
                }
            }),
    {
        let mut chunks: Vec<StreamChunk> = Vec::new();
        assert(chunk_views(chunks@) =~= Seq::empty());
        let events = match self.decoder.ingest(bytes) {
            Ok(events) => events,
            Err(e) => {
                return StreamOutput { chunks, failure: Some(e) };
            },
        };
        let ghost all = event_views(events@);
        let ghost start = self@;
        let ghost whole = start.with_events(self.family, all);
        let ghost buffer = self.decoder.buffer@;
        let mut i: usize = 0;
        proof {
            assert(all.subrange(0, all.len() as int) =~= all);
            assert(Seq::<ChunkView>::empty() + whole.output.chunks =~= whole.output.chunks);
        }
        while i < events.len()
            invariant
                i <= events@.len(),
                all == event_views(events@),
                self.well_formed(),
                self.same_settings(*old(self)),
                self.decoder.buffer@ == buffer,
                whole == start.with_events(old(self).family, all),
                start == old(self)@,
                whole == streamed_after(
                    chunk_views(chunks@),
                    self@.with_events(self.family, all.subrange(i as int, all.len() as int)),
                ),
                drained(old(self).decoder.buffer@ + bytes@).fault is None,
                drained(old(self).decoder.buffer@ + bytes@).rest == buffer,
                drained(old(self).decoder.buffer@ + bytes@).events == all,
            decreases events@.len() - i,
        {
            let ghost rest = all.subrange(i as int, all.len() as int);
            let ghost given = chunk_views(chunks@);
            let ghost step = self@.with_event(self.family, rest[0]);
            proof {
                assert(rest[0] == events@[i as int]@);
                assert(rest.drop_first() =~= all.subrange(i + 1, all.len() as int));
            }
            if let Some(e) = self.on_event(&events[i], &mut chunks) {
                return StreamOutput { chunks, failure: Some(e) };
            }
            proof {
                let next = self@.with_events(self.family, rest.drop_first());
                assert((given + step.output.chunks) + next.output.chunks =~= given + (
                step.output.chunks + next.output.chunks));
            }
            i = i + 1;
        }
        proof {
            assert(all.subrange(all.len() as int, all.len() as int) =~= Seq::empty());
            assert(chunk_views(chunks@) + Seq::<ChunkView>::empty() =~= chunk_views(chunks@));
        }
        StreamOutput { chunks, failure: None }
    }

    /// What the end of the bytes brings: the end of the block, if one was begun, and
    /// the reply that the pieces make up.
    pub open spec fn ending(self) -> OutputView {
        let stop = self@.block.stop();
        if self.decoder.buffer@.len() > 0 {
            OutputView {
                chunks: Seq::empty(),
                failure: Some(
                    ErrorView::Other(
                        "Bedrock event stream ended with "@ + decimal(self.decoder.buffer@.len())
                            + " truncated bytes"@,
                    ),
                ),
            }
        } else {
            match self@.partial.answer(self@.block.aggregate, self.format) {
                Ok(response) => OutputView {
                    chunks: stop.push(ChunkView::Completed(response)),
                    failure: None,
                },
                Err(e) => OutputView { chunks: stop, failure: Some(e) },
            }
        }
    }

    /// Ends the stream. The sums of the counts must not be too large.
    pub fn finish(self) -> (r: StreamOutput)
        requires
            self@.partial.fits(),
        ensures
            r@ == self.ending(),
    {
        let mut chunks: Vec<StreamChunk> = Vec::new();
        assert(chunk_views(chunks@) =~= Seq::empty());
        if let Err(e) = self.decoder.finish() {
            return StreamOutput { chunks, failure: Some(e) };
        }
        self.block.close(&mut chunks);
        assert(chunk_views(chunks@) =~= self@.block.stop());
        match self.partial.into_generate_response(self.block.aggregate, &self.format) {
            Ok(response) => {
                push_chunk(&mut chunks, StreamChunk::Completed(response));
                StreamOutput { chunks, failure: None }
            },
            Err(e) => StreamOutput { chunks, failure: Some(e) },
        }
    }
}

/// Nothing of a reply's text is lost or made up: what a stream has gathered grows by
/// exactly the text of the pieces that it hands on.
pub proof fn gathered_text_is_handed_on(
    state: StreamView,
    family: BedrockModelFamily,
    events: Seq<EventView>,
)
    ensures
        state.with_events(family, events).state.block.aggregate == state.block.aggregate + delta_text(
            state.with_events(family, events).output.chunks,
        ),
    decreases events.len(),
{
    assert(state.block.aggregate + delta_text(Seq::empty()) =~= state.block.aggregate);
    if events.len() > 0 {
        let first = state.with_event(family, events[0]);
        match json_parsed_bytes(events[0].payload) {
            Ok(value) => {
                let (partial, parts) = state.partial.event(family, value);
                block_text_is_handed_on(state.block, parts);
            },
            Err(_) => {},
        }
        assert(first.state.block.aggregate =~= state.block.aggregate + delta_text(first.output.chunks));
        if first.output.failure is None {
            let next = first.state.with_events(family, events.drop_first());
            gathered_text_is_handed_on(first.state, family, events.drop_first());
            delta_text_of_both(first.output.chunks, next.output.chunks);
            assert((state.block.aggregate + delta_text(first.output.chunks)) + delta_text(
                next.output.chunks,
            ) =~= state.block.aggregate + (delta_text(first.output.chunks) + delta_text(
                next.output.chunks,
            )));
        }
    }
}

/// Events that come in two lots give what they give in one.
pub proof fn events_in_two_lots(
    state: StreamView,
    family: BedrockModelFamily,
    a: Seq<EventView>,
    b: Seq<EventView>,
)
    requires
        state.with_events(family, a).output.failure is None,
    ensures
        state.with_events(family, a + b) == streamed_after(
            state.with_events(family, a).output.chunks,
            state.with_events(family, a).state.with_events(family, b),
        ),
    decreases a.len(),
{
    if a.len() == 0 {
        assert(a + b =~= b);
        let whole = state.with_events(family, b);
        assert(Seq::<ChunkView>::empty() + whole.output.chunks =~= whole.output.chunks);
    } else {
        let first = state.with_event(family, a[0]);
        let tail = a.drop_first();
        assert((a + b)[0] == a[0]);
        assert((a + b).drop_first() =~= tail + b);
        events_in_two_lots(first.state, family, tail, b);
        let mid = first.state.with_events(family, tail);
        let end = mid.state.with_events(family, b);
        assert(first.output.chunks + (mid.output.chunks + end.output.chunks) =~= (
        first.output.chunks + mid.output.chunks) + end.output.chunks);
    }
}

/// The number of a block is read from its event; a count is a whole number that is not too
/// large; a text is brought unless it is empty.
pub proof fn fields_are_read(value: JsonView, key: Seq<char>)
    ensures
        value.field_whole(key) is Some && value.field_whole(key)->0 <= u32::MAX ==> field_count(
            value,
            key,
        ) == Some(value.field_whole(key)->0 as u32),
        value.field_whole(key) is None ==> field_count(value, key) is None,
        value.field_whole(key) is Some && value.field_whole(key)->0 > u32::MAX ==> field_count(
            value,
            key,
        ) is None,
        value.field_text(key) is Some && value.field_text(key)->0.len() > 0 ==> field_texts(
            value,
            key,
        ) == seq![value.field_text(key)->0],
        value.field_text(key) is None || value.field_text(key)->0.len() == 0 ==> field_texts(
            value,
            key,
        ).len() == 0,
        field_count(value, "index"@) is Some ==> block_index(value) == field_count(
            value,
            "index"@,
        )->0,
        field_count(value, "index"@) is None ==> block_index(value) == 0,
        value.field(key) is Some && value.field(key)->0.items() is Some && value.field(
            key,
        )->0.items()->0.len() > 0 ==> first_item(value, key) == Some(
            value.field(key)->0.items()->0.first(),
        ),
{
}

/// Texts of an Anthropic model are brought as they come; pieces of a call's arguments go
/// on at the end of that call's.
pub proof fn pieces_are_brought_as_they_come(partial: PartialView, value: JsonView, other: u32)
    requires
        ascending(partial.tool_calls),
    ensures
        ({
            let (after, parts) = partial.anthropic_event(value);
            let kind = value.field_text("type"@);
            let block = value.field("content_block"@);
            let delta = value.field("delta"@);
            &&& kind == Some("content_block_start"@) && block is Some && block->0.field_text(
                "type"@,
            ) == Some("text"@) ==> after == partial && parts == field_texts(block->0, "text"@)
            &&& kind == Some("content_block_delta"@) && delta is Some && delta->0.field_text(
                "type"@,
            ) == Some("text_delta"@) ==> after == partial && parts == field_texts(
                delta->0,
                "text"@,
            )
            &&& kind == Some("content_block_start"@) && block is Some && block->0.field_text(
                "type"@,
            ) == Some("tool_use"@) ==> {
                let call = slot(after.tool_calls, block_index(value));
                &&& parts.len() == 0
                &&& call is Some
                &&& call->0.id == block->0.field_text("id"@)
                &&& call->0.name == block->0.field_text("name"@)
                &&& call->0.initial_input == block->0.field("input"@)
                &&& other != block_index(value) ==> slot(after.tool_calls, other) == slot(
                    partial.tool_calls,
                    other,
                )
            }
            &&& kind == Some("content_block_delta"@) && delta is Some && delta->0.field_text(
                "type"@,
            ) == Some("input_json_delta"@) && delta->0.field_text("partial_json"@) is Some ==> {
                let more = delta->0.field_text("partial_json"@)->0;
                let was = slot(partial.tool_calls, block_index(value));
                let call = slot(after.tool_calls, block_index(value));
                &&& parts.len() == 0
                &&& call is Some
                &&& was is Some ==> call->0.arguments == was->0.arguments + more && call->0.id
                    == was->0.id && call->0.name == was->0.name && call->0.initial_input
                    == was->0.initial_input
                &&& was is None ==> call->0.arguments == more
                &&& other != block_index(value) ==> slot(after.tool_calls, other) == slot(
                    partial.tool_calls,
                    other,
                )
            }
        }),
{
    reveal_strlit("type");
    reveal_strlit("text");
    reveal_strlit("text_delta");
    reveal_strlit("tool_use");
    reveal_strlit("input_json_delta");
    reveal_strlit("message_start");
    reveal_strlit("content_block_start");
    reveal_strlit("content_block_delta");
    reveal_strlit("message_delta");
    assert("type"@.len() == 4
        && "text"@.len() == 4
        && "text_delta"@.len() == 10
        && "tool_use"@.len() == 8
        && "input_json_delta"@.len() == 16
        && "message_start"@.len() == 13
        && "content_block_start"@.len() == 19
        && "content_block_delta"@.len() == 19
        && "message_delta"@.len() == 13
        && "type"@[1] == 'y'
        && "text"@[1] == 'e'
        && "message_start"@[8] == 's'
        && "message_delta"@[8] == 'd'
        && "content_block_start"@[14] == 's'
        && "content_block_delta"@[14] == 'd');
    let index = block_index(value);
    let was = call_at(partial.tool_calls, index);
    if value.field("content_block"@) is Some {
        let block = value.field("content_block"@)->0;
        crate::slots::setting_a_slot(
            partial.tool_calls,
            index,
            PartialCallView {
                id: block.field_text("id"@),
                name: block.field_text("name"@),
                initial_input: block.field("input"@),
                ..was
            },
            other,
        );
    }
    if value.field("delta"@) is Some && value.field("delta"@)->0.field_text("partial_json"@) is Some {
        let more = value.field("delta"@)->0.field_text("partial_json"@)->0;
        crate::slots::setting_a_slot(
            partial.tool_calls,
            index,
            PartialCallView { arguments: was.arguments + more, ..was },
            other,
        );
        assert(Seq::<char>::empty() + more =~= more);
    }
}

/// The head of an Anthropic model's reply says its id and its model; its end says why it
/// ended; each count takes the place of the one before it.
pub proof fn heads_and_ends_are_told(partial: PartialView, value: JsonView)
    ensures
        ({
            let (after, parts) = partial.anthropic_event(value);
            let message = value.field("message"@);
            let delta = value.field("delta"@);
            &&& value.field_text("type"@) == Some("message_start"@) && message is Some ==> {
                &&& parts.len() == 0
                &&& message->0.field_text("id"@) is Some ==> after.id == message->0.field_text(
                    "id"@,
                )
                &&& message->0.field_text("id"@) is None ==> after.id == partial.id
                &&& message->0.field_text("model"@) matches Some(model) ==> after.model == model
                &&& message->0.field_text("model"@) is None ==> after.model == partial.model
                &&& after.finish_reason == partial.finish_reason
                &&& after.tool_calls == partial.tool_calls
            }
            &&& value.field_text("type"@) == Some("message_delta"@) && delta is Some ==> {
                &&& parts.len() == 0
                &&& delta->0.field_text("stop_reason"@) is Some ==> after.finish_reason
                    == delta->0.field_text("stop_reason"@)
                &&& delta->0.field_text("stop_reason"@) is None ==> after.finish_reason
                    == partial.finish_reason
                &&& after.id == partial.id && after.model == partial.model
                &&& after.tool_calls == partial.tool_calls
            }
        }),
        ({
            let after = partial.with_usage(value);
            &&& field_count(value, "input_tokens"@) is Some ==> after.prompt_tokens == field_count(
                value,
                "input_tokens"@,
            )
            &&& field_count(value, "input_tokens"@) is None ==> after.prompt_tokens
                == partial.prompt_tokens
            &&& field_count(value, "output_tokens"@) is Some ==> after.completion_tokens
                == field_count(value, "output_tokens"@)
            &&& field_count(value, "output_tokens"@) is None ==> after.completion_tokens
                == partial.completion_tokens
            &&& field_count(value, "cache_creation_input_tokens"@) is Some
                ==> after.cache_creation_tokens == field_count(
                value,
                "cache_creation_input_tokens"@,
            )
            &&& field_count(value, "cache_creation_input_tokens"@) is None
                ==> after.cache_creation_tokens == partial.cache_creation_tokens
            &&& field_count(value, "cache_read_input_tokens"@) is Some ==> after.cached_tokens
                == field_count(value, "cache_read_input_tokens"@)
            &&& field_count(value, "cache_read_input_tokens"@) is None ==> after.cached_tokens
                == partial.cached_tokens
            &&& after.id == partial.id && after.tool_calls == partial.tool_calls
        }),
        partial.with_opt_usage(Some(value)) == partial.with_usage(value),
        partial.with_opt_usage(None) == partial,
{
    reveal_strlit("type");
    reveal_strlit("message_start");
    reveal_strlit("content_block_start");
    reveal_strlit("content_block_delta");
    reveal_strlit("message_delta");
    assert("type"@.len() == 4
        && "message_start"@.len() == 13
        && "content_block_start"@.len() == 19
        && "content_block_delta"@.len() == 19
        && "message_delta"@.len() == 13
        && "message_start"@[8] == 's'
        && "message_delta"@[8] == 'd'
        && "content_block_start"@[14] == 's'
        && "content_block_delta"@[14] == 'd');
}

/// The events of the other makers bring the text of their piece, and say why the reply
/// ended.
pub proof fn other_makers_events(partial: PartialView, value: JsonView)
    ensures
        partial.event(BedrockModelFamily::Anthropic, value) == partial.anthropic_event(value),
        partial.event(BedrockModelFamily::MetaLlama, value).1 == field_texts(value, "generation"@),
        partial.event(BedrockModelFamily::AmazonTitan, value).1 == field_texts(
            value,
            "outputText"@,
        ),
        first_item(value, "generations"@) matches Some(g) ==> partial.event(
            BedrockModelFamily::Cohere,
            value,
        ).1 == field_texts(g, "text"@),
        first_item(value, "generations"@) is None ==> partial.event(
            BedrockModelFamily::Cohere,
            value,
        ).1 == field_texts(value, "text"@),
        first_item(value, "outputs"@) matches Some(o) ==> partial.event(
            BedrockModelFamily::Mistral,
            value,
        ).1 == field_texts(o, "text"@),
        value.field_text("stop_reason"@) is Some ==> partial.event(
            BedrockModelFamily::MetaLlama,
            value,
        ).0.finish_reason == value.field_text("stop_reason"@),
        value.field_text("completionReason"@) is Some ==> partial.event(
            BedrockModelFamily::AmazonTitan,
            value,
        ).0.finish_reason == value.field_text("completionReason"@),
        first_item(value, "generations"@) is Some && first_item(
            value,
            "generations"@,
        )->0.field_text("finish_reason"@) is Some ==> partial.event(
            BedrockModelFamily::Cohere,
            value,
        ).0.finish_reason == first_item(value, "generations"@)->0.field_text("finish_reason"@),
        first_item(value, "generations"@) is None && value.field_text("finish_reason"@) is Some
            ==> partial.event(BedrockModelFamily::Cohere, value).0.finish_reason
            == value.field_text("finish_reason"@),
        first_item(value, "outputs"@) is Some && first_item(value, "outputs"@)->0.field_text(
            "stop_reason"@,
        ) is Some ==> partial.event(BedrockModelFamily::Mistral, value).0.finish_reason
            == first_item(value, "outputs"@)->0.field_text("stop_reason"@),
        first_item(value, "outputs"@) is None && first_item(value, "choices"@) is Some ==> ({
            let choice = first_item(value, "choices"@)->0;
            let (after, parts) = partial.event(BedrockModelFamily::Mistral, value);
            &&& choice.field("delta"@) is Some ==> parts == field_texts(
                choice.field("delta"@)->0,
                "content"@,
            )
            &&& choice.field("delta"@) is None && choice.field("message"@) is Some ==> parts
                == field_texts(choice.field("message"@)->0, "content"@)
            &&& choice.field_text("stop_reason"@) is Some ==> after.finish_reason
                == choice.field_text("stop_reason"@)
        }),
        field_count(value, "prompt_token_count"@) is Some ==> partial.event(
            BedrockModelFamily::MetaLlama,
            value,
        ).0.prompt_tokens == field_count(value, "prompt_token_count"@),
        field_count(value, "generation_token_count"@) is Some ==> partial.event(
            BedrockModelFamily::MetaLlama,
            value,
        ).0.completion_tokens == field_count(value, "generation_token_count"@),
        field_count(value, "inputTextTokenCount"@) is Some ==> partial.event(
            BedrockModelFamily::AmazonTitan,
            value,
        ).0.prompt_tokens == field_count(value, "inputTextTokenCount"@),
        field_count(value, "totalOutputTextTokenCount"@) is Some ==> partial.event(
            BedrockModelFamily::AmazonTitan,
            value,
        ).0.completion_tokens == field_count(value, "totalOutputTextTokenCount"@),
{
}

/// A call is complete with its id and its name; its arguments are the pieces that came,
/// or what it began with where none did. The calls stand in the order of their blocks.
pub proof fn calls_are_finished_in_order(
    call: PartialCallView,
    calls: Seq<(u32, PartialCallView)>,
    index: u32,
)
    ensures
        finished_call(call) is Some <==> call.id is Some && call.name is Some,
        finished_call(call) matches Some(c) ==> {
            &&& c.id == call.id->0 && c.name == call.name->0
            &&& call.arguments.len() > 0 ==> c.arguments == call.arguments
            &&& call.arguments.len() == 0 && call.initial_input is Some ==> c.arguments
                == json_text(call.initial_input->0)
            &&& call.arguments.len() == 0 && call.initial_input is None ==> c.arguments
                == json_text(JsonView::Object(Seq::empty()))
        },
        finished_call(call) matches Some(c) ==> flattened(
            finished_calls(calls.push((index, call))),
        ) == flattened(finished_calls(calls)).push(c),
        finished_call(call) is None ==> flattened(finished_calls(calls.push((index, call))))
            == flattened(finished_calls(calls)),
{
    assert(finished_calls(calls.push((index, call))).drop_last() =~= finished_calls(calls));
}

/// An event that is no chunk, and one whose payload cannot be read, is a failure that
/// brings nothing and changes nothing; any other brings its texts.
pub proof fn only_chunks_bring_texts(
    state: StreamView,
    family: BedrockModelFamily,
    event: EventView,
)
    ensures
        ({
            let s = state.with_event(family, event);
            let kind = last_pair(event.headers, ":event-type"@);
            let exception = last_pair(event.headers, ":message-type"@) == Some("exception"@);
            let value = json_parsed_bytes(event.payload);
            &&& exception || kind != Some("chunk"@) || value is Err ==> s.state == state
                && s.output.chunks.len() == 0 && s.output.failure is Some
            &&& (exception || kind != Some("chunk"@)) && kind is Some ==> s.output.failure == Some(
                ErrorView::Other(
                    "Bedrock stream returned "@ + kind->0 + ": "@ + lossy_text(event.payload),
                ),
            )
            &&& !exception && kind == Some("chunk"@) && value is Ok ==> {
                let (partial, parts) = state.partial.event(family, value->Ok_0);
                &&& s.output.failure is None
                &&& s.state.partial == partial
                &&& s.state.block == state.block.with_texts(parts).0
                &&& s.output.chunks == state.block.with_texts(parts).1
            }
        }),
{
}

/// The end brings the end of the block and the reply, whose text is what was handed on;
/// bytes that are left over are an error.
pub proof fn the_end_brings_what_was_gathered(stream: BedrockStream)
    ensures
        stream.decoder.buffer@.len() > 0 ==> stream.ending().chunks.len() == 0
            && stream.ending().failure == Some(
            ErrorView::Other(
                "Bedrock event stream ended with "@ + decimal(stream.decoder.buffer@.len())
                    + " truncated bytes"@,
            ),
        ),
        stream.decoder.buffer@.len() == 0 && stream.format is Text ==> ({
            let end = stream.ending();
            let told = end.chunks.last()->Completed_0;
            let partial = stream@.partial;
            &&& end.failure is None
            &&& end.chunks == stream@.block.stop().push(ChunkView::Completed(told))
            &&& told.text == stream@.block.aggregate
            &&& told.model == partial.model
            &&& told.finish_reason == partial.finish_reason
            &&& partial.id is Some ==> told.id == partial.id->0
            &&& partial.prompt_tokens is None && partial.completion_tokens is None
                ==> told.usage is None
            &&& partial.prompt_tokens is Some || partial.completion_tokens is Some ==> told.usage
                == Some(
                usage_with_cache(
                    partial.prompt_tokens,
                    partial.completion_tokens,
                    partial.cache_creation_tokens,
                    partial.cached_tokens,
                ),
            )
            &&& told.tool_calls == super::interface::some_calls(
                flattened(finished_calls(partial.tool_calls)),
            )
        }),
{
}

} // verus!
