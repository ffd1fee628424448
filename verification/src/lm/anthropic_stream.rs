//! Anthropic's replies piece by piece.
use vstd::prelude::*;
use vstd::string::*;

use super::anthropic::{sum_fits, usage_from_api, usage_is_small, usage_view, Usage};
use super::bedrock_response::{or_empty, reply_view};
use super::formats::{object_reply, parse_object};
use super::interface::{
    call_views, chunk_views, push_chunk, some_calls, text_of_kind, text_of_kind_in_both, ChunkView,
    ContentBlockType, GenerateResponse, OutputView, ResponseFormat, ResponseView, StreamChunk,
    StreamOutput, ToolCall, ToolCallView,
};
use crate::error::{ErrorView, SdkError};
use crate::json::{
    field_views, json_parsed, json_text, no_fields, opt_json, or_null, put, put_text, text_view, Json, JsonView,
};
use crate::text::{concat2, opt_text, str_eq, trimmed};

verus! {

/// An event of a stream.
#[derive(Debug)]
#[allow(inconsistent_fields)]
pub enum StreamEvent {
    MessageStart { message: StreamMessage },
    ContentBlockStart { index: u32, content_block: StreamContentBlock },
    ContentBlockDelta { index: u32, delta: StreamContentDelta },
    ContentBlockStop { index: u32 },
    MessageDelta { delta: StreamMessageDelta, usage: Option<Usage> },
    MessageStop,
    /// Any other event; the stream goes on.
    Unknown,
}

/// The beginning of a reply.
#[derive(Debug)]
pub struct StreamMessage {
    pub id: String,
    pub model: String,
    pub usage: Usage,
}

/// The beginning of a block.
#[derive(Debug)]
pub struct StreamContentBlock {
    pub block_type: String,
    pub text: Option<String>,
    pub thinking: Option<String>,
    pub id: Option<String>,
    pub name: Option<String>,
    pub input: Option<Json>,
}

/// More of a block.
#[derive(Debug)]
pub struct StreamContentDelta {
    pub delta_type: String,
    pub text: Option<String>,
    pub thinking: Option<String>,
    pub input: Option<Json>,
}

/// More of a reply.
#[derive(Debug)]
pub struct StreamMessageDelta {
    pub stop_reason: Option<String>,
}

/// The input of a call, or an empty object.
pub open spec fn input_or_empty(input: Option<Json>) -> JsonView {
    match input {
        Some(input) => input@,
        None => JsonView::Object(Seq::empty()),
    }
}

fn input_json(input: &Option<Json>) -> (r: Json)
    ensures
        r@ == input_or_empty(*input),
{
    match input {
        Some(input) => input.duplicate(),
        None => Json::object(no_fields()),
    }
}

impl StreamContentBlock {
    /// The kind of the block.
    pub open spec fn kind(self) -> ContentBlockType {
        if self.block_type@ == "thinking"@ {
            ContentBlockType::Thinking
        } else {
            ContentBlockType::Text
        }
    }

    /// The kind of the block.
    pub fn content_block_type(&self) -> (r: ContentBlockType)
        ensures
            r == self.kind(),
    {
        if self.is_thinking() {
            ContentBlockType::Thinking
        } else {
            ContentBlockType::Text
        }
    }

    /// Whether the block holds what the model thinks.
    pub fn is_thinking(&self) -> (r: bool)
        ensures
            r == (self.block_type@ == "thinking"@),
    {
        str_eq(self.block_type.as_str(), "thinking")
    }

    /// What the block begins with.
    pub open spec fn beginning(self) -> Option<Seq<char>> {
        if self.block_type@ == "thinking"@ {
            opt_text(self.thinking)
        } else {
            opt_text(self.text)
        }
    }

    /// What the block begins with.
    pub fn initial_content(&self) -> (r: Option<String>)
        ensures
            opt_text(r) == self.beginning(),
    {
        let source = if self.is_thinking() {
            &self.thinking
        } else {
            &self.text
        };
        match source {
            Some(s) => Some(s.clone()),
            None => None,
        }
    }

    /// The text of a block of text.
    pub fn to_text_delta(&self) -> (r: Option<String>)
        ensures
            opt_text(r) == (if self.block_type@ == "text"@ {
                opt_text(self.text)
            } else {
                None
            }),
    {
        if str_eq(self.block_type.as_str(), "text") {
            match &self.text {
                Some(s) => Some(s.clone()),
                None => None,
            }
        } else {
            None
        }
    }

    /// What the model thinks in a block of thinking.
    pub fn to_thinking_delta(&self) -> (r: Option<String>)
        ensures
            opt_text(r) == (if self.block_type@ == "thinking"@ {
                opt_text(self.thinking)
            } else {
                None
            }),
    {
        if str_eq(self.block_type.as_str(), "thinking") {
            match &self.thinking {
                Some(s) => Some(s.clone()),
                None => None,
            }
        } else {
            None
        }
    }

    /// The call of the block as a document.
    pub open spec fn call_document(self) -> JsonView {
        JsonView::Object(
            seq![
                ("type"@, JsonView::String("tool_use"@)),
                ("id"@, or_null(text_view(self.id))),
                ("name"@, or_null(text_view(self.name))),
                ("input"@, input_or_empty(self.input)),
            ],
        )
    }

    /// The call of a block that makes one, in JSON text.
    pub fn to_tool_use_json(&self) -> (r: Option<String>)
        ensures
            opt_text(r) == (if self.block_type@ == "tool_use"@ {
                Some(json_text(self.call_document()))
            } else {
                None
            }),
    {
        if !str_eq(self.block_type.as_str(), "tool_use") {
            return None;
        }
        let id = match &self.id {
            Some(id) => Json::String(id.clone()),
            None => Json::Null,
        };
        let name = match &self.name {
            Some(name) => Json::String(name.clone()),
            None => Json::Null,
        };
        let mut fields = no_fields();
        put_text(&mut fields, "type", "tool_use");
        put(&mut fields, "id", id);
        put(&mut fields, "name", name);
        put(&mut fields, "input", input_json(&self.input));
        assert(field_views(fields@) =~= self.call_document()->Object_0);
        Some(Json::object(fields).to_text())
    }

    /// The call that the block makes.
    pub open spec fn call(self) -> Option<ToolCallView> {
        if self.block_type@ == "tool_use"@ {
            match (self.id, self.name) {
                (Some(id), Some(name)) => Some(
                    ToolCallView {
                        id: id@,
                        name: name@,
                        arguments: json_text(input_or_empty(self.input)),
                        provider_data: None,
                    },
                ),
                _ => None,
            }
        } else {
            None
        }
    }

    fn to_call(&self) -> (r: Option<ToolCall>)
        ensures
            match r {
                Some(call) => self.call() == Some(call@),
                None => self.call() is None,
            },
    {
        if !str_eq(self.block_type.as_str(), "tool_use") {
            return None;
        }
        match (&self.id, &self.name) {
            (Some(id), Some(name)) => Some(
                ToolCall {
                    id: id.clone(),
                    name: name.clone(),
                    arguments: input_json(&self.input).to_text(),
                    provider_data: None,
                },
            ),
            _ => None,
        }
    }
}

/// A reply of which some pieces have come.
#[derive(Debug)]
pub struct PartialResponse {
    pub id: Option<String>,
    pub model: Option<String>,
    pub usage: Option<Usage>,
    pub stop_reason: Option<String>,
}

/// A stream that is being read.
#[derive(Debug)]
pub struct AnthropicStream {
    pub format: ResponseFormat,
    pub partial: PartialResponse,
    /// The text so far, without what the model thinks.
    pub aggregate: String,
    pub tool_calls: Vec<ToolCall>,
    /// The kind of the block that was begun last.
    pub current_block_type: ContentBlockType,
}

/// What an `AnthropicStream` has made of its events so far.
pub struct StreamView {
    pub id: Option<Seq<char>>,
    pub model: Option<Seq<char>>,
    pub usage: Option<Usage>,
    pub stop_reason: Option<Seq<char>>,
    pub aggregate: Seq<char>,
    pub calls: Seq<ToolCallView>,
    pub kind: ContentBlockType,
}

impl View for AnthropicStream {
    type V = StreamView;

    open spec fn view(&self) -> StreamView {
        StreamView {
            id: opt_text(self.partial.id),
            model: opt_text(self.partial.model),
            usage: self.partial.usage,
            stop_reason: opt_text(self.partial.stop_reason),
            aggregate: self.aggregate@,
            calls: call_views(self.tool_calls@),
            kind: self.current_block_type,
        }
    }
}

/// A piece of a block.
pub open spec fn piece(content: Seq<char>, index: u32, block_type: ContentBlockType) -> ChunkView {
    ChunkView::Delta { content, index, block_type }
}

impl StreamView {
    /// A text of a block: it is handed on unless it is empty, and gathered unless
    /// it is what the model thinks.
    pub open spec fn with_text(self, text: Seq<char>, index: u32) -> (StreamView, Seq<ChunkView>) {
        if text.len() == 0 {
            (self, Seq::empty())
        } else {
            (
                if self.kind == ContentBlockType::Text {
                    StreamView { aggregate: self.aggregate + text, ..self }
                } else {
                    self
                },
                seq![piece(text, index, self.kind)],
            )
        }
    }

    /// The beginning of a block.
    pub open spec fn with_block(self, index: u32, block: StreamContentBlock) -> (
        StreamView,
        Seq<ChunkView>,
    ) {
        let begun = StreamView {
            kind: block.kind(),
            calls: match block.call() {
                Some(call) => self.calls.push(call),
                None => self.calls,
            },
            ..self
        };
        let start = seq![ChunkView::ContentBlockStart { index, block_type: block.kind() }];
        match block.beginning() {
            Some(text) => {
                let (state, more) = begun.with_text(text, index);
                (state, start + more)
            },
            None => (
                begun,
                if block.block_type@ == "tool_use"@ {
                    start.push(
                        piece(json_text(block.call_document()), index, ContentBlockType::Text),
                    )
                } else {
                    start
                },
            ),
        }
    }

    /// More of a block.
    pub open spec fn with_delta(self, index: u32, delta: StreamContentDelta) -> (
        StreamView,
        Seq<ChunkView>,
    ) {
        match (opt_text(delta.text), opt_text(delta.thinking), opt_json(delta.input)) {
            (Some(text), _, _) => self.with_text(text, index),
            (None, Some(thought), _) => (
                self,
                if thought.len() == 0 {
                    Seq::empty()
                } else {
                    seq![piece(thought, index, ContentBlockType::Thinking)]
                },
            ),
            (None, None, Some(input)) => (
                self,
                seq![piece(json_text(input_delta(input)), index, ContentBlockType::Text)],
            ),
            (None, None, None) => (self, Seq::empty()),
        }
    }

    /// The reply that the pieces make up.
    pub open spec fn answer(self, format: ResponseFormat) -> Result<ResponseView, ErrorView> {
        match object_reply(self.aggregate, format) {
            Err(e) => Err(e),
            Ok(object) => Ok(
                ResponseView {
                    id: or_empty(self.id),
                    model: or_empty(self.model),
                    created: None,
                    text: self.aggregate,
                    usage: usage_view(self.usage),
                    finish_reason: self.stop_reason,
                    tool_calls: some_calls(self.calls),
                    object,
                    raw: None,
                    metadata: None,
                },
            ),
        }
    }

    /// What the end of the reply brings.
    pub open spec fn ending(self, format: ResponseFormat) -> OutputView {
        match self.answer(format) {
            Ok(response) => OutputView {
                chunks: seq![ChunkView::Completed(response)],
                failure: None,
            },
            Err(e) => OutputView { chunks: Seq::empty(), failure: Some(e) },
        }
    }

    /// What an event changes, and what it brings.
    pub open spec fn with_event(self, event: StreamEvent, format: ResponseFormat) -> (
        StreamView,
        OutputView,
    ) {
        match event {
            StreamEvent::MessageStart { message } => (
                StreamView {
                    id: Some(message.id@),
                    model: Some(message.model@),
                    usage: Some(message.usage),
                    ..self
                },
                quiet(),
            ),
            StreamEvent::ContentBlockStart { index, content_block } => {
                let (state, chunks) = self.with_block(index, content_block);
                (state, OutputView { chunks, failure: None })
            },
            StreamEvent::ContentBlockDelta { index, delta } => {
                let (state, chunks) = self.with_delta(index, delta);
                (state, OutputView { chunks, failure: None })
            },
            StreamEvent::ContentBlockStop { index } => (
                self,
                OutputView {
                    chunks: seq![ChunkView::ContentBlockStop { index }],
                    failure: None,
                },
            ),
            StreamEvent::MessageDelta { delta, usage } => (
                StreamView {
                    stop_reason: match opt_text(delta.stop_reason) {
                        Some(reason) => Some(reason),
                        None => self.stop_reason,
                    },
                    usage: match usage {
                        Some(_) => usage,
                        None => self.usage,
                    },
                    ..self
                },
                quiet(),
            ),
            StreamEvent::MessageStop => (self, self.ending(format)),
            StreamEvent::Unknown => (self, quiet()),
        }
    }
}

/// Nothing to hand on.
pub open spec fn quiet() -> OutputView {
    OutputView { chunks: Seq::empty(), failure: None }
}

/// More of a call's input, as a document.
pub open spec fn input_delta(input: JsonView) -> JsonView {
    JsonView::Object(seq![("type"@, JsonView::String("tool_use_delta"@)), ("input"@, input)])
}

/// The error for an event that cannot be read.
pub fn unreadable_event(reason: &str) -> (r: SdkError)
    ensures
        r@ == ErrorView::Other("failed to parse Anthropic stream event: "@ + reason@),
{
    SdkError::Other(concat2("failed to parse Anthropic stream event: ", reason))
}

impl AnthropicStream {
    pub fn new(format: ResponseFormat) -> (r: Self)
        ensures
            r.format == format,
            r@ == (StreamView {
                id: None,
                model: None,
                usage: None,
                stop_reason: None,
                aggregate: Seq::empty(),
                calls: Seq::empty(),
                kind: ContentBlockType::Text,
            }),
    {
        let r = AnthropicStream {
            format,
            partial: PartialResponse { id: None, model: None, usage: None, stop_reason: None },
            aggregate: String::new(),
            tool_calls: Vec::new(),
            current_block_type: ContentBlockType::Text,
        };
        assert(call_views(r.tool_calls@) =~= Seq::empty());
        r
    }

    /// Whether the sum of the counts is not too large.
    pub fn counts_are_small(&self) -> (r: bool)
        ensures
            r == sum_fits(self@.usage),
    {
        usage_is_small(self.partial.usage)
    }

    fn copy_calls(&self) -> (r: Option<Vec<ToolCall>>)
        ensures
            super::interface::opt_calls(r) == some_calls(call_views(self.tool_calls@)),
    {
        if self.tool_calls.len() == 0 {
            return None;
        }
        let mut out: Vec<ToolCall> = Vec::new();
        let mut i: usize = 0;
        while i < self.tool_calls.len()
            invariant
                i <= self.tool_calls@.len(),
                out@.len() == i,
                forall|j: int| 0 <= j < i ==> (#[trigger] out@[j])@ == self.tool_calls@[j]@,
            decreases self.tool_calls@.len() - i,
        {
            out.push(self.tool_calls[i].duplicate());
            i = i + 1;
        }
        assert(call_views(out@) =~= call_views(self.tool_calls@));
        Some(out)
    }

    /// The reply that the pieces make up. The sum of its counts must not be too large.
    pub fn into_generate_response(&self) -> (r: Result<GenerateResponse, SdkError>)
        requires
            sum_fits(self@.usage),
        ensures
            reply_view(r) == self@.answer(self.format),
    {
        let object = match parse_object(self.aggregate.as_str(), &self.format) {
            Ok(object) => object,
            Err(e) => {
                return Err(e);
            },
        };
        let id = match &self.partial.id {
            Some(id) => id.clone(),
            None => String::new(),
        };
        let model = match &self.partial.model {
            Some(model) => model.clone(),
            None => String::new(),
        };
        let finish_reason = match &self.partial.stop_reason {
            Some(reason) => Some(reason.clone()),
            None => None,
        };
        Ok(
            GenerateResponse {
                id,
                model,
                created: None,
                text: self.aggregate.clone(),
                usage: usage_from_api(self.partial.usage),
                finish_reason,
                tool_calls: self.copy_calls(),
                object,
                raw: None,
                metadata: None,
            },
        )
    }

    /// What the end of the reply brings.
    pub fn on_done(&self) -> (r: StreamOutput)
        requires
            sum_fits(self@.usage),
        ensures
            r@ == self@.ending(self.format),
    {
        let mut chunks: Vec<StreamChunk> = Vec::new();
        assert(chunk_views(chunks@) =~= Seq::empty());
        match self.into_generate_response() {
            Ok(response) => {
                push_chunk(&mut chunks, StreamChunk::Completed(response));
                assert(chunk_views(chunks@) =~= self@.ending(self.format).chunks);
                StreamOutput { chunks, failure: None }
            },
            Err(e) => StreamOutput { chunks, failure: Some(e) },
        }
    }

    fn emit(&mut self, text: String, index: u32, chunks: &mut Vec<StreamChunk>)
        ensures
            final(self).format == old(self).format,
            final(self)@ == old(self)@.with_text(text@, index).0,
            chunk_views(final(chunks)@) == chunk_views(old(chunks)@) + old(self)@.with_text(
                text@,
                index,
            ).1,
    {
        let ghost before = chunk_views(chunks@);
        if text.as_str().is_empty() {
            assert(before + Seq::<ChunkView>::empty() =~= before);
            return;
        }
        if self.current_block_type == ContentBlockType::Text {
            self.aggregate.append(text.as_str());
        }
        push_chunk(
            chunks,
            StreamChunk::Delta { content: text, index, block_type: self.current_block_type },
        );
        assert(chunk_views(chunks@) =~= before + old(self)@.with_text(text@, index).1);
    }

    fn on_block(&mut self, index: u32, block: StreamContentBlock, chunks: &mut Vec<StreamChunk>)
        requires
            old(chunks)@.len() == 0,
        ensures
            final(self).format == old(self).format,
            old(self)@.with_block(index, block) == (final(self)@, chunk_views(final(chunks)@)),
    {
        assert(chunk_views(chunks@) =~= Seq::empty());
        let ghost calls = call_views(self.tool_calls@);
        self.current_block_type = block.content_block_type();
        push_chunk(
            chunks,
            StreamChunk::ContentBlockStart { index, block_type: self.current_block_type },
        );
        if let Some(call) = block.to_call() {
            self.tool_calls.push(call);
            assert(call_views(self.tool_calls@) =~= calls.push(call@));
        }
        proof {
            let start = seq![ChunkView::ContentBlockStart { index, block_type: block.kind() }];
            assert(chunk_views(chunks@) =~= start);
        }
        match block.initial_content() {
            Some(text) => {
                self.emit(text, index, chunks);
            },
            None => {
                if let Some(tool_json) = block.to_tool_use_json() {
                    push_chunk(
                        chunks,
                        StreamChunk::Delta {
                            content: tool_json,
                            index,
                            block_type: ContentBlockType::Text,
                        },
                    );
                }
            },
        }
    }

    fn on_delta(&mut self, index: u32, delta: StreamContentDelta, chunks: &mut Vec<StreamChunk>)
        requires
            old(chunks)@.len() == 0,
        ensures
            final(self).format == old(self).format,
            old(self)@.with_delta(index, delta) == (final(self)@, chunk_views(final(chunks)@)),
    {
        assert(chunk_views(chunks@) =~= Seq::empty());
        assert(forall|s: Seq<ChunkView>| Seq::<ChunkView>::empty() + s =~= s);
        if let Some(text) = delta.text {
            self.emit(text, index, chunks);
        } else if let Some(thinking) = delta.thinking {
            if !thinking.as_str().is_empty() {
                push_chunk(
                    chunks,
                    StreamChunk::Delta {
                        content: thinking,
                        index,
                        block_type: ContentBlockType::Thinking,
                    },
                );
                assert(chunk_views(chunks@) =~= seq![
                    piece(thinking@, index, ContentBlockType::Thinking),
                ]);
            }
        } else if let Some(input) = delta.input {
            let ghost document = input_delta(input@);
            let mut fields = no_fields();
            put_text(&mut fields, "type", "tool_use_delta");
            put(&mut fields, "input", input);
            assert(field_views(fields@) =~= document->Object_0);
            let content = Json::object(fields).to_text();
            push_chunk(
                chunks,
                StreamChunk::Delta { content, index, block_type: ContentBlockType::Text },
            );
            assert(chunk_views(chunks@) =~= seq![
                piece(json_text(document), index, ContentBlockType::Text),
            ]);
        }
    }

    /// Takes in an event and hands on what it brings. With the event that ends the
    /// reply the sum of the counts must not be too large.
    pub fn on_event(&mut self, event: StreamEvent) -> (r: StreamOutput)
        requires
            event is MessageStop ==> sum_fits(old(self)@.usage),
        ensures
            final(self).format == old(self).format,
            old(self)@.with_event(event, old(self).format) == (final(self)@, r@),
    {
        let mut chunks: Vec<StreamChunk> = Vec::new();
        assert(chunk_views(chunks@) =~= Seq::empty());
        match event {
            StreamEvent::MessageStart { message } => {
                self.partial.id = Some(message.id);
                self.partial.model = Some(message.model);
                self.partial.usage = Some(message.usage);
            },
            StreamEvent::ContentBlockStart { index, content_block } => {
                self.on_block(index, content_block, &mut chunks);
            },
            StreamEvent::ContentBlockDelta { index, delta } => {
                self.on_delta(index, delta, &mut chunks);
            },
            StreamEvent::ContentBlockStop { index } => {
                push_chunk(&mut chunks, StreamChunk::ContentBlockStop { index });
                assert(chunk_views(chunks@) =~= seq![ChunkView::ContentBlockStop { index }]);
            },
            StreamEvent::MessageDelta { delta, usage } => {
                if let Some(reason) = delta.stop_reason {
                    self.partial.stop_reason = Some(reason);
                }
                if usage.is_some() {
                    self.partial.usage = usage;
                }
            },
            StreamEvent::MessageStop => {
                return self.on_done();
            },
            StreamEvent::Unknown => {},
        }
        StreamOutput { chunks, failure: None }
    }
}

/// What is gathered is what was said: an event makes the text longer by the text of
/// the block that it belongs to, and what the model thinks is never part of it.
pub proof fn thoughts_are_not_gathered(
    state: StreamView,
    event: StreamEvent,
    format: ResponseFormat,
)
    requires
        match event {
            StreamEvent::ContentBlockStart { content_block, .. } => content_block.kind()
                == ContentBlockType::Thinking,
            StreamEvent::ContentBlockDelta { delta, .. } => state.kind == ContentBlockType::Thinking
                || delta.text is None,
            _ => true,
        },
    ensures
        state.with_event(event, format).0.aggregate == state.aggregate,
{
}

/// What a stream has made of events, one after the other.
pub open spec fn after_events(
    state: StreamView,
    events: Seq<StreamEvent>,
    format: ResponseFormat,
) -> StreamView
    decreases events.len(),
{
    if events.len() == 0 {
        state
    } else {
        after_events(state, events.drop_last(), format).with_event(events.last(), format).0
    }
}

/// The pieces that events bring, one after the other.
pub open spec fn handed_on(
    state: StreamView,
    events: Seq<StreamEvent>,
    format: ResponseFormat,
) -> Seq<ChunkView>
    decreases events.len(),
{
    if events.len() == 0 {
        Seq::empty()
    } else {
        handed_on(state, events.drop_last(), format) + after_events(
            state,
            events.drop_last(),
            format,
        ).with_event(events.last(), format).1.chunks
    }
}

/// Whether an event has nothing to do with a call of a tool.
pub open spec fn makes_no_call(event: StreamEvent) -> bool {
    match event {
        StreamEvent::ContentBlockStart { content_block, .. } => content_block.block_type@
            != "tool_use"@,
        StreamEvent::ContentBlockDelta { delta, .. } => delta.text is Some || delta.thinking is Some
            || delta.input is None,
        _ => true,
    }
}

/// The text of the reply is what was handed on: in any run of events without calls, the
/// text that the whole reply has is the text of the pieces of text, one after the other
/// in the order in which they came, and the pieces of thinking are no part of it.
pub proof fn reply_is_what_was_handed_on(
    state: StreamView,
    events: Seq<StreamEvent>,
    format: ResponseFormat,
)
    requires
        forall|i: int| 0 <= i < events.len() ==> makes_no_call(#[trigger] events[i]),
    ensures
        after_events(state, events, format).aggregate == state.aggregate + text_of_kind(
            handed_on(state, events, format),
            ContentBlockType::Text,
        ),
        state.aggregate.len() == 0 ==> after_events(state, events, format).with_event(
            StreamEvent::MessageStop,
            ResponseFormat::Text,
        ).1.chunks[0]->Completed_0.text == text_of_kind(
            handed_on(state, events, format),
            ContentBlockType::Text,
        ),
    decreases events.len(),
{
    let text = ContentBlockType::Text;
    reveal_strlit("tool_use");
    reveal_strlit("thinking");
    assert("tool_use"@.len() == 8
        && "thinking"@.len() == 8
        && "tool_use"@[1] == 'o'
        && "thinking"@[1] == 'h');
    if events.len() == 0 {
        assert(state.aggregate + Seq::<char>::empty() =~= state.aggregate);
        if state.aggregate.len() == 0 {
            assert(state.aggregate =~= Seq::empty());
        }
    } else {
        let earlier = events.drop_last();
        assert forall|i: int| 0 <= i < earlier.len() implies makes_no_call(#[trigger] earlier[i]) by {
            assert(earlier[i] == events[i]);
        }
        reply_is_what_was_handed_on(state, earlier, format);
        let event = events.last();
        assert(event == events[events.len() - 1]);
        let before = after_events(state, earlier, format);
        let more = before.with_event(event, format).1.chunks;
        let pieces = handed_on(state, earlier, format);
        text_of_kind_in_both(pieces, more, text);
        reveal_with_fuel(text_of_kind, 3);
        let said = text_of_kind(more, text);
        assert(before.with_event(event, format).0.aggregate =~= before.aggregate + said) by {
            match event {
                StreamEvent::ContentBlockStart { index, content_block } => {
                    let start = seq![
                        ChunkView::ContentBlockStart { index, block_type: content_block.kind() },
                    ];
                    assert(start.drop_last() =~= Seq::empty());
                    match content_block.beginning() {
                        Some(t) => {
                            if t.len() > 0 {
                                let one = seq![piece(t, index, content_block.kind())];
                                assert(more =~= start + one);
                                assert(more.drop_last() =~= start);
                                assert(more.last() == one[0]);
                            } else {
                                assert(more =~= start);
                            }
                        },
                        None => {
                            assert(more =~= start);
                        },
                    }
                },
                StreamEvent::ContentBlockDelta { index, delta } => {
                    if more.len() > 0 {
                        assert(more.drop_last() =~= Seq::empty());
                    }
                },
                StreamEvent::ContentBlockStop { index } => {
                    assert(more.drop_last() =~= Seq::empty());
                },
                StreamEvent::MessageStop => {
                    if more.len() > 0 {
                        assert(more.drop_last() =~= Seq::empty());
                    }
                },
                _ => {},
            }
        }
        assert(state.aggregate + text_of_kind(pieces, text) + said =~= state.aggregate + (
        text_of_kind(pieces, text) + said));
        if state.aggregate.len() == 0 {
            assert(state.aggregate + text_of_kind(handed_on(state, events, format), text)
                =~= text_of_kind(handed_on(state, events, format), text));
        }
    }
}

/// A piece of a block's text comes behind what was said before it, and is handed on with
/// the number of its block and the block's kind; an empty one does nothing.
pub proof fn pieces_of_text_come_at_the_end(
    state: StreamView,
    index: u32,
    delta: StreamContentDelta,
    format: ResponseFormat,
)
    requires
        delta.text is Some,
    ensures
        ({
            let (after, out) = state.with_event(
                StreamEvent::ContentBlockDelta { index, delta },
                format,
            );
            let text = delta.text->0@;
            &&& state.kind == ContentBlockType::Text ==> after.aggregate == state.aggregate + text
            &&& state.kind == ContentBlockType::Thinking ==> after.aggregate == state.aggregate
            &&& text.len() > 0 ==> out.chunks == seq![
                ChunkView::Delta { content: text, index, block_type: state.kind },
            ]
            &&& text.len() == 0 ==> out.chunks.len() == 0
            &&& out.failure is None
            &&& after.calls == state.calls && after.kind == state.kind && after.id == state.id
                && after.model == state.model && after.usage == state.usage && after.stop_reason
                == state.stop_reason
        }),
{
    if delta.text->0@.len() == 0 {
        assert(state.aggregate + delta.text->0@ =~= state.aggregate);
    }
}

/// A thought is handed on as a thought, more of a call's input as a document of its own;
/// neither changes what was gathered.
pub proof fn thoughts_and_inputs_are_only_handed_on(
    state: StreamView,
    index: u32,
    delta: StreamContentDelta,
    format: ResponseFormat,
)
    requires
        delta.text is None,
    ensures
        ({
            let (after, out) = state.with_event(
                StreamEvent::ContentBlockDelta { index, delta },
                format,
            );
            &&& after == state
            &&& out.failure is None
            &&& delta.thinking is Some && delta.thinking->0@.len() > 0 ==> out.chunks == seq![
                ChunkView::Delta {
                    content: delta.thinking->0@,
                    index,
                    block_type: ContentBlockType::Thinking,
                },
            ]
            &&& delta.thinking is Some && delta.thinking->0@.len() == 0 ==> out.chunks.len()
                == 0
            &&& delta.thinking is None && delta.input is None ==> out.chunks.len() == 0
            &&& delta.thinking is None && delta.input is Some ==> {
                &&& out.chunks.len() == 1
                &&& exists|document: JsonView|
                    {
                        &&& #[trigger] document.field_text("type"@) == Some("tool_use_delta"@)
                        &&& document.field("input"@) == Some(delta.input->0@)
                        &&& out.chunks[0] == ChunkView::Delta {
                            content: json_text(document),
                            index,
                            block_type: ContentBlockType::Text,
                        }
                    }
            }
        }),
{
    broadcast use crate::json::group_fields;

    if delta.thinking is None && delta.input is Some {
        reveal_with_fuel(crate::json::last_field, 3);
        let document = input_delta(delta.input->0@);
        reveal_strlit("type");
        reveal_strlit("input");
        assert("type"@.len() == 4
            && "input"@.len() == 5);
        assert(document.field("input"@) == Some(delta.input->0@));
        assert(document.field_text("type"@) == Some("tool_use_delta"@));
    }
}

/// A block begins with a piece that tells its number and kind. What it begins with is
/// said or thought, by its kind, behind what was said before; a block that calls a tool
/// enters the call, with its id, its name and its input, behind the calls before it.
pub proof fn blocks_begin_with_their_kind(
    state: StreamView,
    index: u32,
    block: StreamContentBlock,
    format: ResponseFormat,
)
    ensures
        ({
            let (after, out) = state.with_event(
                StreamEvent::ContentBlockStart { index, content_block: block },
                format,
            );
            let thinking = block.block_type@ == "thinking"@;
            let kind = if thinking {
                ContentBlockType::Thinking
            } else {
                ContentBlockType::Text
            };
            &&& out.failure is None
            &&& out.chunks.len() > 0
            &&& out.chunks[0] == ChunkView::ContentBlockStart { index, block_type: kind }
            &&& after.kind == kind
            &&& after.id == state.id && after.model == state.model && after.usage == state.usage
                && after.stop_reason == state.stop_reason
            &&& !thinking && block.text is Some ==> after.aggregate == state.aggregate
                + block.text->0@
            &&& thinking || block.text is None ==> after.aggregate == state.aggregate
            &&& !thinking && block.text is Some && block.text->0@.len() > 0 ==> out.chunks
                == seq![
                ChunkView::ContentBlockStart { index, block_type: kind },
                ChunkView::Delta { content: block.text->0@, index, block_type: kind },
            ]
            &&& thinking && block.thinking is Some && block.thinking->0@.len() > 0 ==> out.chunks
                == seq![
                ChunkView::ContentBlockStart { index, block_type: kind },
                ChunkView::Delta { content: block.thinking->0@, index, block_type: kind },
            ]
            &&& block.block_type@ == "tool_use"@ && block.id is Some && block.name is Some ==> {
                &&& after.calls.len() == state.calls.len() + 1
                &&& after.calls.drop_last() == state.calls
                &&& after.calls.last().id == block.id->0@
                &&& after.calls.last().name == block.name->0@
                &&& block.input matches Some(input) ==> after.calls.last().arguments == json_text(
                    input@,
                )
                &&& block.input is None ==> after.calls.last().arguments == json_text(
                    JsonView::Object(Seq::empty()),
                )
                &&& after.calls.last().provider_data is None
            }
            &&& block.block_type@ != "tool_use"@ || block.id is None || block.name is None
                ==> after.calls == state.calls
            &&& block.block_type@ == "tool_use"@ && block.text is None ==> {
                &&& out.chunks.len() == 2
                &&& exists|document: JsonView|
                    {
                        &&& #[trigger] document.field_text("type"@) == Some("tool_use"@)
                        &&& document.field("id"@) == Some(or_null(text_view(block.id)))
                        &&& document.field("name"@) == Some(or_null(text_view(block.name)))
                        &&& block.input matches Some(input) ==> document.field("input"@) == Some(
                            input@,
                        )
                        &&& out.chunks[1] == ChunkView::Delta {
                            content: json_text(document),
                            index,
                            block_type: ContentBlockType::Text,
                        }
                    }
            }
        }),
{
    broadcast use crate::json::group_fields;

    reveal_with_fuel(crate::json::last_field, 5);
    reveal_strlit("tool_use");
    reveal_strlit("thinking");
    reveal_strlit("type");
    reveal_strlit("id");
    reveal_strlit("name");
    reveal_strlit("input");
    assert("tool_use"@.len() == 8
        && "thinking"@.len() == 8
        && "type"@.len() == 4
        && "id"@.len() == 2
        && "name"@.len() == 4
        && "input"@.len() == 5
        && "tool_use"@[1] == 'o'
        && "thinking"@[1] == 'h'
        && "type"@[0] == 't'
        && "name"@[0] == 'n');
    let (after, out) = state.with_event(
        StreamEvent::ContentBlockStart { index, content_block: block },
        format,
    );
    if block.text is Some && block.text->0@.len() == 0 {
        assert(state.aggregate + block.text->0@ =~= state.aggregate);
    }
    if after.calls.len() > state.calls.len() {
        assert(after.calls.drop_last() =~= state.calls);
    }
    let start = seq![ChunkView::ContentBlockStart { index, block_type: block.kind() }];
    match block.beginning() {
        Some(t) => {
            if t.len() > 0 {
                assert(out.chunks =~= seq![
                    ChunkView::ContentBlockStart { index, block_type: block.kind() },
                    ChunkView::Delta { content: t, index, block_type: block.kind() },
                ]);
            } else {
                assert(out.chunks =~= start);
            }
        },
        None => {},
    }
    if block.block_type@ == "tool_use"@ && block.text is None {
        let document = block.call_document();
        assert(document.field_text("type"@) == Some("tool_use"@));
        assert(document.field("id"@) == Some(or_null(text_view(block.id))));
        assert(document.field("name"@) == Some(or_null(text_view(block.name))));
        assert(document.field("input"@) == Some(input_or_empty(block.input)));
    }
}

/// What is told of the message stays until it is told anew: its id and model come with
/// its start, its counts with the last event that has any, its reason to stop with the
/// last event that has one. None of this is handed on before the end, and the end of a
/// block is handed on with its number.
pub proof fn messages_are_told_of_as_they_go(
    state: StreamView,
    event: StreamEvent,
    format: ResponseFormat,
)
    ensures
        ({
            let (after, out) = state.with_event(event, format);
            &&& event matches StreamEvent::MessageStart { message } ==> {
                &&& after.id == Some(message.id@)
                &&& after.model == Some(message.model@)
                &&& after.usage == Some(message.usage)
                &&& after.stop_reason == state.stop_reason
            }
            &&& event matches StreamEvent::MessageDelta { delta, usage } ==> {
                &&& delta.stop_reason matches Some(reason) ==> after.stop_reason == Some(reason@)
                &&& delta.stop_reason is None ==> after.stop_reason == state.stop_reason
                &&& usage is Some ==> after.usage == usage
                &&& usage is None ==> after.usage == state.usage
                &&& after.id == state.id && after.model == state.model
            }
            &&& event is MessageStart || event is MessageDelta || event is Unknown ==> {
                &&& out.chunks.len() == 0 && out.failure is None
                &&& after.aggregate == state.aggregate && after.calls == state.calls && after.kind
                    == state.kind
            }
            &&& event is Unknown || event is MessageStop ==> after == state
            &&& event matches StreamEvent::ContentBlockStop { index } ==> after == state
                && out.failure is None && out.chunks == seq![ChunkView::ContentBlockStop { index }]
        }),
{
}

/// The end brings one whole reply with what was gathered, each thing in its place. Where
/// a document is asked for, the reply has the document that its text is, and without one
/// the stream fails.
pub proof fn the_end_brings_what_was_gathered(state: StreamView, format: ResponseFormat)
    ensures
        ({
            let out = state.with_event(StreamEvent::MessageStop, format).1;
            &&& format is Text ==> out.failure is None
            &&& out.failure is None ==> {
                &&& out.chunks.len() == 1
                &&& out.chunks[0] matches ChunkView::Completed(reply)
                &&& reply.text == state.aggregate
                &&& state.id matches Some(id) ==> reply.id == id
                &&& state.model matches Some(model) ==> reply.model == model
                &&& state.id is None ==> reply.id.len() == 0
                &&& state.model is None ==> reply.model.len() == 0
                &&& reply.finish_reason == state.stop_reason
                &&& state.calls.len() > 0 ==> reply.tool_calls == Some(state.calls)
                &&& state.calls.len() == 0 ==> reply.tool_calls is None
                &&& state.usage is None ==> reply.usage is None
                &&& state.usage matches Some(usage) ==> {
                    &&& reply.usage is Some
                    &&& reply.usage->0.prompt_tokens == usage.input_tokens
                    &&& reply.usage->0.completion_tokens == usage.output_tokens
                    &&& usage.input_tokens is Some && usage.output_tokens is Some
                        ==> reply.usage->0.total_tokens == Some(
                        (usage.input_tokens->0 + usage.output_tokens->0) as u32,
                    )
                    &&& usage.input_tokens is None || usage.output_tokens is None
                        ==> reply.usage->0.total_tokens is None
                }
                &&& format is Text ==> reply.object is None
                &&& !(format is Text) ==> reply.object == Some(
                    json_parsed(trimmed(state.aggregate))->Ok_0,
                )
            }
            &&& out.failure is Some ==> out.chunks.len() == 0
            &&& !(format is Text) ==> (out.failure is None <==> trimmed(state.aggregate).len() > 0
                && json_parsed(trimmed(state.aggregate)) is Ok)
        }),
{
}

} // verus!
