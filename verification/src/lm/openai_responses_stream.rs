//! OpenAI's responses, piece by piece.
use vstd::prelude::*;
use vstd::string::*;
use vstd::utf8::*;

use super::bedrock_response::{or_empty, reply_view};
use super::formats::{object_or_calls, response_object};
use super::interface::{
    call_views, chunk_views, opt_calls, push_chunk, some_calls, ChunkView, ContentBlockType,
    GenerateResponse, OutputView, ResponseFormat, ResponseView, StreamChunk, StreamOutput, ToolCall,
    ToolCallView,
};
use super::openai_responses::{
    api_error, openai_error, openai_streaming_error, output_calls, streaming_error, time_as_u64,
    tool_calls_from_output, unsigned_time, usage_of, usage_view, ApiUsage, ResponsesApiResponse,
};
use super::sse::{cut_blocks, not_utf8, take_blocks};
use super::text_block::{unstarted, BlockView, TextBlock};
use crate::error::{other_error, ErrorView, SdkError};
use crate::seqs::{flattened, flattened_next, prefix_next, whole_prefix};
use crate::text::{
    after_prefix, concat2, concat3, from_utf8, join, joined, lines, lines_of, opt_text, pair_views,
    str_eq, strip_prefix, texts, trim, trim_start, trimmed, trimmed_start,
};

verus! {

/// The type that lines give: what the last line with one says.
pub open spec fn type_in(lines: Seq<Seq<char>>) -> Seq<char>
    decreases lines.len(),
{
    if lines.len() == 0 {
        Seq::empty()
    } else {
        match after_prefix(lines.last(), "event:"@) {
            Some(rest) => trimmed(rest),
            None => type_in(lines.drop_last()),
        }
    }
}

/// The data that each line carries.
pub open spec fn data_lines(lines: Seq<Seq<char>>) -> Seq<Option<Seq<char>>> {
    Seq::new(
        lines.len(),
        |i: int|
            if after_prefix(lines[i], "event:"@) is Some {
                None
            } else {
                match after_prefix(lines[i], "data:"@) {
                    Some(rest) => Some(trimmed_start(rest)),
                    None => None,
                }
            },
    )
}

/// The type and the data of a block, unless it has neither.
pub open spec fn typed_event(block: Seq<char>) -> Option<(Seq<char>, Seq<char>)> {
    let kind = type_in(lines_of(block));
    let data = flattened(data_lines(lines_of(block)));
    if kind.len() == 0 && data.len() == 0 {
        None
    } else {
        Some((kind, joined(data, "\n"@)))
    }
}

/// The type and the data of a block, unless it has neither.
pub fn read_typed_event(block: &str) -> (r: Option<(String, String)>)
    ensures
        match r {
            Some(e) => typed_event(block@) == Some((e.0@, e.1@)),
            None => typed_event(block@) is None,
        },
{
    let list = lines(block);
    let ghost all = texts(list@);
    let ghost all_data = data_lines(all);
    let mut kind = String::new();
    let mut parts: Vec<String> = Vec::new();
    let mut i: usize = 0;
    proof {
        whole_prefix(all);
        whole_prefix(all_data);
        assert(texts(parts@) =~= Seq::empty());
    }
    while i < list.len()
        invariant
            i <= list@.len(),
            all == texts(list@),
            all_data == data_lines(all),
            kind@ == type_in(all.subrange(0, i as int)),
            texts(parts@) == flattened(all_data.subrange(0, i as int)),
        decreases list@.len() - i,
    {
        let ghost before = texts(parts@);
        proof {
            prefix_next(all, i as int);
            flattened_next(all_data, i as int);
        }
        if let Some(rest) = strip_prefix(list[i].as_str(), "event:") {
            kind = trim(rest.as_str());
        } else if let Some(rest) = strip_prefix(list[i].as_str(), "data:") {
            let value = trim_start(rest.as_str());
            parts.push(value);
            assert(texts(parts@) =~= before.push(value@));
        }
        i = i + 1;
    }
    proof {
        whole_prefix(all);
        whole_prefix(all_data);
        assert(texts(parts@).len() == parts@.len());
    }
    if kind.as_str().is_empty() && parts.len() == 0 {
        None
    } else {
        Some((kind, join(&parts, "\n")))
    }
}

/// The events of blocks.
pub open spec fn typed_or_not(blocks: Seq<Seq<char>>) -> Seq<Option<(Seq<char>, Seq<char>)>> {
    Seq::new(blocks.len(), |i: int| typed_event(blocks[i]))
}

/// Reads a stream of events with types.
#[derive(Debug)]
pub struct ResponsesSseDecoder {
    pub buffer: String,
}

impl Default for ResponsesSseDecoder {
    fn default() -> (r: Self)
        ensures
            r.buffer@.len() == 0,
    {
        ResponsesSseDecoder { buffer: String::new() }
    }
}

impl ResponsesSseDecoder {
    /// Takes in a piece and gives the types and the data of the blocks that are now
    /// complete.
    pub fn ingest(&mut self, chunk: &[u8]) -> (r: Result<Vec<(String, String)>, SdkError>)
        ensures
            match r {
                Ok(events) => {
                    let all = old(self).buffer@ + decode_utf8(chunk@);
                    &&& valid_utf8(chunk@)
                    &&& pair_views(events@) == flattened(typed_or_not(cut_blocks(all).blocks))
                    &&& final(self).buffer@ == cut_blocks(all).rest
                },
                Err(e) => !valid_utf8(chunk@) && e@ == not_utf8(chunk@) && final(self).buffer
                    == old(self).buffer,
            },
    {
        let text = match from_utf8(chunk) {
            Ok(text) => text,
            Err(fault) => {
                return Err(
                    SdkError::Other(
                        concat2("invalid UTF-8 in SSE stream: ", fault.message.as_str()),
                    ),
                );
            },
        };
        self.buffer.append(text.as_str());
        let blocks = take_blocks(&mut self.buffer);
        let mut out: Vec<(String, String)> = Vec::new();
        let ghost all = typed_or_not(texts(blocks@));
        let ghost rest = self.buffer@;
        let mut i: usize = 0;
        proof {
            whole_prefix(all);
            assert(pair_views(out@) =~= Seq::empty());
        }
        while i < blocks.len()
            invariant
                i <= blocks@.len(),
                all == typed_or_not(texts(blocks@)),
                pair_views(out@) == flattened(all.subrange(0, i as int)),
                self.buffer@ == rest,
            decreases blocks@.len() - i,
        {
            let ghost before = pair_views(out@);
            proof {
                flattened_next(all, i as int);
                assert(texts(blocks@)[i as int] == blocks@[i as int]@);
            }
            if let Some(event) = read_typed_event(blocks[i].as_str()) {
                out.push(event);
                assert(pair_views(out@) =~= before.push((event.0@, event.1@)));
            }
            i = i + 1;
        }
        proof {
            whole_prefix(all);
        }
        Ok(out)
    }
}

/// More of the reply's text.
#[derive(Debug)]
pub struct OutputTextDelta {
    pub delta: String,
    pub item_id: Option<String>,
    pub output_index: Option<u32>,
    pub content_index: Option<u32>,
}

/// More of what the model thinks.
#[derive(Debug)]
pub struct ReasoningTextDelta {
    pub delta: String,
    pub item_id: Option<String>,
}

/// The end of a reply.
#[derive(Debug)]
pub struct ResponseCompletedEvent {
    pub response: ResponsesApiResponse,
}

/// What the type of an event makes of it.
#[derive(Clone, Copy, Debug, PartialEq, Eq, Structural)]
pub enum EventKind {
    Created,
    TextDelta,
    ThinkingDelta,
    Completed,
    Failed,
    Error,
    /// Any other event, and one without data.
    Ignored,
}

/// What the type of an event makes of it.
pub open spec fn kind_of(event_type: Seq<char>, data: Seq<char>) -> EventKind {
    if data.len() == 0 {
        EventKind::Ignored
    } else if event_type == "response.created"@ {
        EventKind::Created
    } else if event_type == "response.output_text.delta"@ {
        EventKind::TextDelta
    } else if event_type == "response.reasoning_summary_text.delta"@ || event_type
        == "response.reasoning_text.delta"@ {
        EventKind::ThinkingDelta
    } else if event_type == "response.completed"@ {
        EventKind::Completed
    } else if event_type == "response.failed"@ || event_type == "response.incomplete"@ {
        EventKind::Failed
    } else if event_type == "error"@ {
        EventKind::Error
    } else {
        EventKind::Ignored
    }
}

/// What the type of an event makes of it.
pub fn event_kind(event_type: &str, data: &str) -> (r: EventKind)
    ensures
        r == kind_of(event_type@, data@),
{
    if data.is_empty() {
        EventKind::Ignored
    } else if str_eq(event_type, "response.created") {
        EventKind::Created
    } else if str_eq(event_type, "response.output_text.delta") {
        EventKind::TextDelta
    } else if str_eq(event_type, "response.reasoning_summary_text.delta") || str_eq(
        event_type,
        "response.reasoning_text.delta",
    ) {
        EventKind::ThinkingDelta
    } else if str_eq(event_type, "response.completed") {
        EventKind::Completed
    } else if str_eq(event_type, "response.failed") || str_eq(event_type, "response.incomplete") {
        EventKind::Failed
    } else if str_eq(event_type, "error") {
        EventKind::Error
    } else {
        EventKind::Ignored
    }
}

/// An event with its data read. Data that could not be read is not there; for a
/// failure the reason is.
#[derive(Debug)]
pub enum ResponsesEvent {
    Created(Option<ResponsesApiResponse>),
    TextDelta(Option<OutputTextDelta>),
    ThinkingDelta(Option<ReasoningTextDelta>),
    Completed(Option<ResponseCompletedEvent>),
    Failed { event_type: String, event: Result<ResponseCompletedEvent, String> },
    Error { data: String },
    Ignored,
}

/// A reply of which some pieces have come.
#[derive(Debug)]
pub struct StreamingState {
    pub text: TextBlock,
    pub thinking: TextBlock,
    pub response_id: Option<String>,
    pub model: Option<String>,
    pub created_at: Option<i64>,
    pub usage: Option<ApiUsage>,
    pub tool_calls: Vec<ToolCall>,
}

/// What a `StreamingState` stands for.
pub struct StateView {
    pub text: BlockView,
    pub thinking: BlockView,
    pub response_id: Option<Seq<char>>,
    pub model: Option<Seq<char>>,
    pub created_at: Option<i64>,
    pub usage: Option<ApiUsage>,
    pub calls: Seq<ToolCallView>,
}

impl View for StreamingState {
    type V = StateView;

    open spec fn view(&self) -> StateView {
        StateView {
            text: self.text@,
            thinking: self.thinking@,
            response_id: opt_text(self.response_id),
            model: opt_text(self.model),
            created_at: self.created_at,
            usage: self.usage,
            calls: call_views(self.tool_calls@),
        }
    }
}

/// Nothing to hand on.
pub open spec fn quiet() -> OutputView {
    OutputView { chunks: Seq::empty(), failure: None }
}

/// A failure, and nothing to hand on.
pub open spec fn failed(e: ErrorView) -> OutputView {
    OutputView { chunks: Seq::empty(), failure: Some(e) }
}

/// What is wrong with a reply that failed.
pub open spec fn failure_of(event_type: Seq<char>, event: Result<ResponseCompletedEvent, String>) -> ErrorView {
    match event {
        Err(reason) => ErrorView::Other(
            "failed to parse OpenAI Responses failure event: "@ + reason@,
        ),
        Ok(event) => match event.response.fault() {
            Some(e) => e,
            None => api_error(
                "OpenAI Responses API returned "@ + event_type + " event without error details"@,
            ),
        },
    }
}

impl StateView {
    /// The reply that the pieces make up. Where a document is asked for, there need
    /// not be one without a text.
    pub open spec fn answer(self, format: ResponseFormat) -> Result<ResponseView, ErrorView> {
        match object_or_calls(self.text.aggregate, format, true) {
            Err(e) => Err(e),
            Ok(object) => Ok(
                ResponseView {
                    id: or_empty(self.response_id),
                    model: or_empty(self.model),
                    created: match self.created_at {
                        Some(t) => Some(unsigned_time(t)),
                        None => None,
                    },
                    text: self.text.aggregate,
                    usage: usage_view(self.usage),
                    finish_reason: Some("completed"@),
                    tool_calls: some_calls(self.calls),
                    object,
                    raw: None,
                    metadata: None,
                },
            ),
        }
    }

    /// The reply that the pieces make up, after some other pieces.
    pub open spec fn ending(self, before: Seq<ChunkView>, format: ResponseFormat) -> OutputView {
        match self.answer(format) {
            Ok(response) => OutputView {
                chunks: before.push(ChunkView::Completed(response)),
                failure: None,
            },
            Err(e) => OutputView { chunks: before, failure: Some(e) },
        }
    }

    /// What the complete reply says of itself.
    pub open spec fn with_completed(self, event: Option<ResponseCompletedEvent>) -> StateView {
        match event {
            Some(event) => StateView {
                usage: event.response.usage,
                response_id: Some(event.response.id@),
                model: Some(event.response.model@),
                calls: flattened(output_calls(event.response.output@)),
                ..self
            },
            None => self,
        }
    }

    /// What an event changes, and what it brings.
    pub open spec fn with_event(self, event: ResponsesEvent, format: ResponseFormat) -> (
        StateView,
        OutputView,
    ) {
        match event {
            ResponsesEvent::Created(Some(response)) => (
                StateView {
                    response_id: Some(response.id@),
                    model: Some(response.model@),
                    created_at: Some(response.created_at),
                    ..self
                },
                quiet(),
            ),
            ResponsesEvent::TextDelta(Some(delta)) => {
                let (text, chunks) = self.text.with_text(delta.delta@);
                (StateView { text, ..self }, OutputView { chunks, failure: None })
            },
            ResponsesEvent::ThinkingDelta(Some(delta)) => {
                let (thinking, chunks) = self.thinking.with_text(delta.delta@);
                (StateView { thinking, ..self }, OutputView { chunks, failure: None })
            },
            ResponsesEvent::Completed(event) => {
                let state = self.with_completed(event);
                (state, state.ending(self.text.stop() + self.thinking.stop(), format))
            },
            ResponsesEvent::Failed { event_type, event } => (
                self,
                failed(failure_of(event_type@, event)),
            ),
            ResponsesEvent::Error { data } => (self, failed(streaming_error(data@))),
            _ => (self, quiet()),
        }
    }

    /// What the end of the bytes brings, where the reply was not said to be complete.
    pub open spec fn cut_off(self, format: ResponseFormat) -> OutputView {
        if self.text.started || self.thinking.started {
            self.ending(Seq::empty(), format)
        } else {
            failed(ErrorView::Other("stream ended without response data"@))
        }
    }
}

/// A reply of which nothing has come.
pub open spec fn blank_state() -> StateView {
    StateView {
        text: unstarted(0, ContentBlockType::Text),
        thinking: unstarted(1, ContentBlockType::Thinking),
        response_id: None,
        model: None,
        created_at: None,
        usage: None,
        calls: Seq::empty(),
    }
}

impl Default for StreamingState {
    fn default() -> (r: Self)
        ensures
            r@ == blank_state(),
    {
        let r = StreamingState {
            text: TextBlock::new(0, ContentBlockType::Text),
            thinking: TextBlock::new(1, ContentBlockType::Thinking),
            response_id: None,
            model: None,
            created_at: None,
            usage: None,
            tool_calls: Vec::new(),
        };
        assert(call_views(r.tool_calls@) =~= Seq::empty());
        r
    }
}

impl StreamingState {
    fn copy_calls(&self) -> (r: Option<Vec<ToolCall>>)
        ensures
            opt_calls(r) == some_calls(call_views(self.tool_calls@)),
    {
        if self.tool_calls.len() == 0 {
            return None;
        }
        let mut out: Vec<ToolCall> = Vec::new();
        let mut i: usize = 0;
        while i < self.tool_calls.len()
            invariant
                i <= self.tool_calls@.len(),
                out@.len() == i,
                forall|j: int| 0 <= j < i ==> (#[trigger] out@[j])@ == self.tool_calls@[j]@,
            decreases self.tool_calls@.len() - i,
        {
            out.push(self.tool_calls[i].duplicate());
            i = i + 1;
        }
        assert(call_views(out@) =~= call_views(self.tool_calls@));
        Some(out)
    }

    /// The reply that the pieces make up.
    pub fn into_generate_response(&self, response_format: &ResponseFormat) -> (r: Result<
        GenerateResponse,
        SdkError,
    >)
        ensures
            reply_view(r) == self@.answer(*response_format),
    {
        let object = match response_object(
            self.text.aggregate.as_str(),
            response_format,
            true,
        ) {
            Ok(object) => object,
            Err(e) => {
                return Err(e);
            },
        };
        let id = match &self.response_id {
            Some(id) => id.clone(),
            None => String::new(),
        };
        let model = match &self.model {
            Some(model) => model.clone(),
            None => String::new(),
        };
        let created = match self.created_at {
            Some(t) => Some(time_as_u64(t)),
            None => None,
        };
        Ok(
            GenerateResponse {
                id,
                model,
                created,
                text: self.text.aggregate.clone(),
                usage: usage_of(self.usage),
                finish_reason: Some("completed".to_owned()),
                tool_calls: self.copy_calls(),
                object,
                raw: None,
                metadata: None,
            },
        )
    }

    fn end(&self, before: Vec<StreamChunk>, format: &ResponseFormat) -> (r: StreamOutput)
        ensures
            r@ == self@.ending(chunk_views(before@), *format),
    {
        let mut chunks = before;
        match self.into_generate_response(format) {
            Ok(response) => {
                push_chunk(&mut chunks, StreamChunk::Completed(response));
                StreamOutput { chunks, failure: None }
            },
            Err(e) => StreamOutput { chunks, failure: Some(e) },
        }
    }

    /// Takes in an event and hands on what it brings.
    pub fn on_event(&mut self, event: ResponsesEvent, format: &ResponseFormat) -> (r: StreamOutput)
        ensures
            old(self)@.with_event(event, *format) == (final(self)@, r@),
    {
        let mut chunks: Vec<StreamChunk> = Vec::new();
        let mut failure: Option<SdkError> = None;
        proof {
            assert(chunk_views(chunks@) =~= Seq::empty());
            assert(forall|s: Seq<ChunkView>| Seq::<ChunkView>::empty() + s =~= s);
        }
        match event {
            ResponsesEvent::Created(Some(response)) => {
                self.response_id = Some(response.id);
                self.model = Some(response.model);
                self.created_at = Some(response.created_at);
            },
            ResponsesEvent::TextDelta(Some(delta)) => {
                self.text.emit(delta.delta.as_str(), &mut chunks);
            },
            ResponsesEvent::ThinkingDelta(Some(delta)) => {
                self.thinking.emit(delta.delta.as_str(), &mut chunks);
            },
            ResponsesEvent::Completed(event) => {
                self.text.close(&mut chunks);
                self.thinking.close(&mut chunks);
                if let Some(event) = event {
                    self.tool_calls = tool_calls_from_output(&event.response.output);
                    self.usage = event.response.usage;
                    self.response_id = Some(event.response.id);
                    self.model = Some(event.response.model);
                }
                return self.end(chunks, format);
            },
            ResponsesEvent::Failed { event_type, event } => {
                failure = Some(
                    match event {
                        Err(reason) => SdkError::Other(
                            concat2(
                                "failed to parse OpenAI Responses failure event: ",
                                reason.as_str(),
                            ),
                        ),
                        Ok(event) => match event.response.status_error() {
                            Some(e) => e,
                            None => openai_error(
                                concat3(
                                    "OpenAI Responses API returned ",
                                    event_type.as_str(),
                                    " event without error details",
                                ),
                            ),
                        },
                    },
                );
            },
            ResponsesEvent::Error { data } => {
                failure = Some(openai_streaming_error(data.as_str()));
            },
            _ => {},
        }
        StreamOutput { chunks, failure }
    }

    /// Ends a stream whose reply was not said to be complete.
    pub fn on_end(&self, format: &ResponseFormat) -> (r: StreamOutput)
        ensures
            r@ == self@.cut_off(*format),
    {
        let chunks: Vec<StreamChunk> = Vec::new();
        assert(chunk_views(chunks@) =~= Seq::empty());
        if self.text.started || self.thinking.started {
            self.end(chunks, format)
        } else {
            StreamOutput {
                chunks,
                failure: Some(other_error("stream ended without response data")),
            }
        }
    }
}

/// A line with a type gives the type of its event, the last one counting; the lines with
/// data give it, in their order and line by line.
pub proof fn events_are_read_line_by_line(lines: Seq<Seq<char>>, line: Seq<char>)
    ensures
        after_prefix(line, "event:"@) matches Some(rest) ==> type_in(lines.push(line)) == trimmed(
            rest,
        ) && flattened(data_lines(lines.push(line))) == flattened(data_lines(lines)),
        after_prefix(line, "event:"@) is None ==> type_in(lines.push(line)) == type_in(lines),
        after_prefix(line, "event:"@) is None && after_prefix(line, "data:"@) is Some ==> flattened(
            data_lines(lines.push(line)),
        ) == flattened(data_lines(lines)).push(trimmed_start(after_prefix(line, "data:"@)->0)),
        after_prefix(line, "event:"@) is None && after_prefix(line, "data:"@) is None ==> flattened(
            data_lines(lines.push(line)),
        ) == flattened(data_lines(lines)),
        type_in(Seq::empty()).len() == 0,
{
    assert(lines.push(line).drop_last() =~= lines);
    assert(data_lines(lines.push(line)).drop_last() =~= data_lines(lines));
}

/// A block is an event unless it has neither a type nor data.
pub proof fn blocks_without_anything_are_no_events(block: Seq<char>)
    ensures
        typed_event(block) is None <==> type_in(lines_of(block)).len() == 0 && flattened(
            data_lines(lines_of(block)),
        ).len() == 0,
        typed_event(block) matches Some(event) ==> event.0 == type_in(lines_of(block)) && event.1
            == joined(flattened(data_lines(lines_of(block))), "\n"@),
{
}

/// The type of an event with data says what it is.
pub proof fn types_say_what_events_are(data: Seq<char>, other: Seq<char>)
    requires
        data.len() > 0,
    ensures
        kind_of("response.created"@, data) == EventKind::Created,
        kind_of("response.output_text.delta"@, data) == EventKind::TextDelta,
        kind_of("response.reasoning_summary_text.delta"@, data) == EventKind::ThinkingDelta,
        kind_of("response.reasoning_text.delta"@, data) == EventKind::ThinkingDelta,
        kind_of("response.completed"@, data) == EventKind::Completed,
        kind_of("response.failed"@, data) == EventKind::Failed,
        kind_of("response.incomplete"@, data) == EventKind::Failed,
        kind_of("error"@, data) == EventKind::Error,
        kind_of(other, Seq::empty()) == EventKind::Ignored,
        other != "response.created"@ && other != "response.output_text.delta"@ && other
            != "response.reasoning_summary_text.delta"@ && other != "response.reasoning_text.delta"@
            && other != "response.completed"@ && other != "response.failed"@ && other
            != "response.incomplete"@ && other != "error"@ ==> kind_of(other, data)
            == EventKind::Ignored,
{
    reveal_strlit("response.created");
    reveal_strlit("response.output_text.delta");
    reveal_strlit("response.reasoning_summary_text.delta");
    reveal_strlit("response.reasoning_text.delta");
    reveal_strlit("response.completed");
    reveal_strlit("response.failed");
    reveal_strlit("response.incomplete");
    reveal_strlit("error");
    assert("response.created"@.len() == 16
        && "response.output_text.delta"@.len() == 26
        && "response.reasoning_summary_text.delta"@.len() == 37
        && "response.reasoning_text.delta"@.len() == 29
        && "response.completed"@.len() == 18
        && "response.failed"@.len() == 15
        && "response.incomplete"@.len() == 19
        && "error"@.len() == 5);
}

/// Texts and thoughts are handed on as they come, each in its own block, and nothing else
/// changes.
pub proof fn pieces_go_to_their_block(
    state: StateView,
    format: ResponseFormat,
    text: OutputTextDelta,
    thought: ReasoningTextDelta,
)
    ensures
        ({
            let (after, output) = state.with_event(ResponsesEvent::TextDelta(Some(text)), format);
            &&& after == (StateView { text: state.text.with_text(text.delta@).0, ..state })
            &&& output.chunks == state.text.with_text(text.delta@).1
            &&& output.failure is None
            &&& after.text.aggregate == state.text.aggregate + text.delta@
        }),
        ({
            let (after, output) = state.with_event(
                ResponsesEvent::ThinkingDelta(Some(thought)),
                format,
            );
            &&& after == (StateView {
                thinking: state.thinking.with_text(thought.delta@).0,
                ..state
            })
            &&& output.chunks == state.thinking.with_text(thought.delta@).1
            &&& output.failure is None
            &&& after.thinking.aggregate == state.thinking.aggregate + thought.delta@
        }),
{
    crate::lm::text_block::blocks_begin_once_and_end(state.text, text.delta@);
    crate::lm::text_block::blocks_begin_once_and_end(state.thinking, thought.delta@);
}

/// A reply's head says its id, its model and its time. The whole reply says its id, its
/// model, its counts and its calls; it ends the blocks that have begun, the text's first,
/// and brings the reply, whose text is what was handed on.
pub proof fn the_end_brings_what_was_gathered(
    state: StateView,
    format: ResponseFormat,
    head: ResponsesApiResponse,
    event: ResponseCompletedEvent,
)
    ensures
        ({
            let (after, output) = state.with_event(ResponsesEvent::Created(Some(head)), format);
            &&& after.response_id == Some(head.id@) && after.model == Some(head.model@)
            &&& after.created_at == Some(head.created_at)
            &&& after.text == state.text && after.thinking == state.thinking && after.usage
                == state.usage && after.calls == state.calls
            &&& output.chunks.len() == 0 && output.failure is None
        }),
        ({
            let (after, output) = state.with_event(ResponsesEvent::Completed(Some(event)), format);
            let reply = output.chunks.last()->Completed_0;
            &&& after.text == state.text && after.thinking == state.thinking
            &&& after.created_at == state.created_at
            &&& object_or_calls(state.text.aggregate, format, true) matches Ok(object) ==> {
                &&& output.failure is None
                &&& output.chunks == (state.text.stop() + state.thinking.stop()).push(
                    ChunkView::Completed(reply),
                )
                &&& reply.text == state.text.aggregate
                &&& reply.object == object
                &&& reply.id == event.response.id@
                &&& reply.model == event.response.model@
                &&& reply.usage == usage_view(event.response.usage)
                &&& reply.tool_calls == some_calls(flattened(output_calls(event.response.output@)))
                &&& reply.finish_reason == Some("completed"@)
                &&& state.created_at is None ==> reply.created is None
                &&& state.created_at is Some ==> reply.created == Some(
                    unsigned_time(state.created_at->0),
                )
            }
            &&& object_or_calls(state.text.aggregate, format, true) matches Err(e)
                ==> output.failure == Some(e)
        }),
{
}

/// A failure ends the stream with what it says; an event that could not be read, and any
/// other, changes nothing and brings nothing.
pub proof fn failures_end_the_stream(
    state: StateView,
    format: ResponseFormat,
    event_type: String,
    event: ResponseCompletedEvent,
    reason: String,
    data: String,
)
    ensures
        ({
            let (after, output) = state.with_event(
                ResponsesEvent::Failed { event_type, event: Ok(event) },
                format,
            );
            &&& after == state && output.chunks.len() == 0 && output.failure is Some
            &&& event.response.fault() is Some ==> output.failure == event.response.fault()
        }),
        ({
            let (after, output) = state.with_event(
                ResponsesEvent::Failed { event_type, event: Err(reason) },
                format,
            );
            &&& after == state && output.chunks.len() == 0
            &&& output.failure == Some(
                ErrorView::Other("failed to parse OpenAI Responses failure event: "@ + reason@),
            )
        }),
        ({
            let (after, output) = state.with_event(ResponsesEvent::Error { data }, format);
            &&& after == state && output.chunks.len() == 0
            &&& output.failure == Some(streaming_error(data@))
        }),
        state.with_event(ResponsesEvent::Ignored, format) == (state, quiet()),
        state.with_event(ResponsesEvent::Created(None), format) == (state, quiet()),
        state.with_event(ResponsesEvent::TextDelta(None), format) == (state, quiet()),
        state.with_event(ResponsesEvent::ThinkingDelta(None), format) == (state, quiet()),
        quiet().chunks.len() == 0 && quiet().failure is None,
        !state.text.started && !state.thinking.started ==> state.cut_off(format).failure == Some(
            ErrorView::Other("stream ended without response data"@),
        ) && state.cut_off(format).chunks.len() == 0,
        (state.text.started || state.thinking.started) && object_or_calls(
            state.text.aggregate,
            format,
            true,
        ) is Ok ==> state.cut_off(format).chunks.len() == 1 && state.cut_off(
            format,
        ).chunks[0] is Completed && state.cut_off(format).chunks[0]->Completed_0.text
            == state.text.aggregate,
{
}

/// A stream begins with nothing; its text is the block before its thoughts.
pub proof fn streams_begin_with_nothing()
    ensures
        ({
            let state = blank_state();
            &&& state.text.index == 0 && state.text.block_type == ContentBlockType::Text
            &&& state.thinking.index == 1 && state.thinking.block_type == ContentBlockType::Thinking
            &&& !state.text.started && !state.thinking.started
            &&& state.text.aggregate.len() == 0 && state.thinking.aggregate.len() == 0
            &&& state.response_id is None && state.model is None && state.created_at is None
            &&& state.usage is None && state.calls.len() == 0
        }),
{
}

/// Events come in the order of their blocks; blocks that are none are passed over.
pub proof fn events_come_in_order(blocks: Seq<Seq<char>>, block: Seq<char>)
    ensures
        typed_event(block) matches Some(event) ==> flattened(typed_or_not(blocks.push(block)))
            == flattened(typed_or_not(blocks)).push(event),
        typed_event(block) is None ==> flattened(typed_or_not(blocks.push(block))) == flattened(
            typed_or_not(blocks),
        ),
{
    assert(typed_or_not(blocks.push(block)).drop_last() =~= typed_or_not(blocks));
}

} // verus!
