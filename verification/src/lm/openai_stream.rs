//! Chat completions in the form of OpenAI, piece by piece.
use vstd::prelude::*;
use vstd::string::*;

use super::bedrock_response::{or_empty, reply_view, text_or_empty};
use super::formats::{object_reply, parse_object};
use super::interface::{
    call_views, chunk_views, opt_calls, push_chunk, some_calls, ChunkView, ContentBlockType,
    GenerateResponse, OutputView, ResponseFormat, ResponseView, StreamChunk, StreamOutput, ToolCall,
    ToolCallView,
};
use super::openai_common::{usage_from_api, usage_view, ApiUsage};
use super::text_block::{unstarted, BlockView, TextBlock};
use crate::error::{ErrorView, SdkError};
use crate::seqs::{flattened, flattened_next, prefix_next, whole_prefix};
use crate::text::{concat2, concat3, decimal, decimal_text, opt_text};

verus! {

/// A piece of a reply.
#[derive(Debug)]
pub struct ChatCompletionChunk {
    pub id: Option<String>,
    pub model: Option<String>,
    pub created: Option<u64>,
    pub choices: Vec<ChunkChoice>,
    pub usage: Option<ApiUsage>,
}

#[derive(Debug)]
pub struct ChunkChoice {
    pub index: Option<u32>,
    pub delta: ChunkDelta,
    pub finish_reason: Option<String>,
}

#[derive(Debug)]
pub struct ChunkDelta {
    pub role: Option<String>,
    pub content: Option<String>,
    pub tool_calls: Option<Vec<ApiToolCallDelta>>,
}

#[derive(Debug)]
pub struct ApiToolCallDelta {
    pub index: usize,
    pub id: Option<String>,
    pub tool_type: Option<String>,
    pub function: Option<ApiToolCallFunctionDelta>,
}

#[derive(Debug)]
pub struct ApiToolCallFunctionDelta {
    pub name: Option<String>,
    pub arguments: Option<String>,
}

/// A call of which some pieces have come.
#[derive(Debug)]
pub struct PartialToolCall {
    pub id: Option<String>,
    pub name: Option<String>,
    pub arguments: String,
}

/// What a `PartialToolCall` stands for.
pub struct PartialCallView {
    pub id: Option<Seq<char>>,
    pub name: Option<Seq<char>>,
    pub arguments: Seq<char>,
}

impl View for PartialToolCall {
    type V = PartialCallView;

    open spec fn view(&self) -> PartialCallView {
        PartialCallView {
            id: opt_text(self.id),
            name: opt_text(self.name),
            arguments: self.arguments@,
        }
    }
}

/// What calls stand for.
pub open spec fn partial_views(calls: Seq<PartialToolCall>) -> Seq<PartialCallView> {
    Seq::new(calls.len(), |i: int| calls[i]@)
}

/// A call of which nothing has come.
pub open spec fn blank_call() -> PartialCallView {
    PartialCallView { id: None, name: None, arguments: Seq::empty() }
}

/// The calls, with blank ones after them up to a length.
pub open spec fn padded(calls: Seq<PartialCallView>, len: nat) -> Seq<PartialCallView> {
    if calls.len() >= len {
        calls
    } else {
        calls + Seq::new((len - calls.len()) as nat, |i: int| blank_call())
    }
}

impl PartialCallView {
    /// A piece of the call.
    pub open spec fn with_delta(self, delta: ApiToolCallDelta) -> PartialCallView {
        PartialCallView {
            id: match delta.id {
                Some(id) => Some(id@),
                None => self.id,
            },
            name: match delta.function {
                Some(function) => match function.name {
                    Some(name) => Some(name@),
                    None => self.name,
                },
                None => self.name,
            },
            arguments: match delta.function {
                Some(function) => self.arguments + or_empty(opt_text(function.arguments)),
                None => self.arguments,
            },
        }
    }

    /// The call, once its name has come; without an id of its own it goes by its
    /// place.
    pub open spec fn finished(self, index: nat) -> Option<ToolCallView> {
        match self.name {
            Some(name) => Some(
                ToolCallView {
                    id: match self.id {
                        Some(id) => id,
                        None => "call_"@ + decimal(index),
                    },
                    name,
                    arguments: self.arguments,
                    provider_data: None,
                },
            ),
            None => None,
        }
    }
}

/// The calls after a piece of one of them.
pub open spec fn with_call_delta(calls: Seq<PartialCallView>, delta: ApiToolCallDelta) -> Seq<
    PartialCallView,
> {
    let long = padded(calls, delta.index as nat + 1);
    long.update(delta.index as int, long[delta.index as int].with_delta(delta))
}

/// The calls after pieces of them.
pub open spec fn with_call_deltas(
    calls: Seq<PartialCallView>,
    deltas: Seq<ApiToolCallDelta>,
) -> Seq<PartialCallView>
    decreases deltas.len(),
{
    if deltas.len() == 0 {
        calls
    } else {
        with_call_delta(with_call_deltas(calls, deltas.drop_last()), deltas.last())
    }
}

/// The calls that have come.
pub open spec fn finished_calls(calls: Seq<PartialCallView>) -> Seq<Option<ToolCallView>> {
    Seq::new(calls.len(), |i: int| calls[i].finished(i as nat))
}

/// Whether the places of the calls can be had.
pub open spec fn places_fit(deltas: Seq<ApiToolCallDelta>) -> bool {
    forall|i: int| 0 <= i < deltas.len() ==> (#[trigger] deltas[i]).index < usize::MAX
}

/// A reply of which some pieces have come.
#[derive(Debug)]
pub struct PartialResponse {
    pub id: Option<String>,
    pub model: Option<String>,
    pub created: Option<u64>,
    pub finish_reason: Option<String>,
    pub usage: Option<ApiUsage>,
    pub tool_calls: Vec<PartialToolCall>,
}

/// What a `PartialResponse` stands for.
pub struct PartialView {
    pub id: Option<Seq<char>>,
    pub model: Option<Seq<char>>,
    pub created: Option<u64>,
    pub finish_reason: Option<Seq<char>>,
    pub usage: Option<ApiUsage>,
    pub calls: Seq<PartialCallView>,
}

impl View for PartialResponse {
    type V = PartialView;

    open spec fn view(&self) -> PartialView {
        PartialView {
            id: opt_text(self.id),
            model: opt_text(self.model),
            created: self.created,
            finish_reason: opt_text(self.finish_reason),
            usage: self.usage,
            calls: partial_views(self.tool_calls@),
        }
    }
}

/// A reply of which nothing has come.
pub open spec fn blank_reply() -> PartialView {
    PartialView {
        id: None,
        model: None,
        created: None,
        finish_reason: None,
        usage: None,
        calls: Seq::empty(),
    }
}

impl PartialView {
    /// What a piece says of the reply as a whole.
    pub open spec fn with_head(self, chunk: ChatCompletionChunk) -> PartialView {
        PartialView {
            id: match chunk.id {
                Some(id) => Some(id@),
                None => self.id,
            },
            model: match chunk.model {
                Some(model) => Some(model@),
                None => self.model,
            },
            created: match chunk.created {
                Some(_) => chunk.created,
                None => self.created,
            },
            usage: match chunk.usage {
                Some(_) => chunk.usage,
                None => self.usage,
            },
            ..self
        }
    }

    /// One choice of a piece. The first reason that is given stays.
    pub open spec fn with_choice(self, choice: ChunkChoice) -> PartialView {
        PartialView {
            calls: match choice.delta.tool_calls {
                Some(deltas) => with_call_deltas(self.calls, deltas@),
                None => self.calls,
            },
            finish_reason: match self.finish_reason {
                Some(_) => self.finish_reason,
                None => opt_text(choice.finish_reason),
            },
            ..self
        }
    }

    /// The choices of a piece.
    pub open spec fn with_choices(self, choices: Seq<ChunkChoice>) -> PartialView
        decreases choices.len(),
    {
        if choices.len() == 0 {
            self
        } else {
            self.with_choices(choices.drop_last()).with_choice(choices.last())
        }
    }

    /// The reply that the pieces make up.
    pub open spec fn answer(self, text: Seq<char>, format: ResponseFormat) -> Result<
        ResponseView,
        ErrorView,
    > {
        match object_reply(text, format) {
            Err(e) => Err(e),
            Ok(object) => Ok(
                ResponseView {
                    id: or_empty(self.id),
                    model: or_empty(self.model),
                    created: self.created,
                    text,
                    usage: usage_view(self.usage),
                    finish_reason: self.finish_reason,
                    tool_calls: some_calls(flattened(finished_calls(self.calls))),
                    object,
                    raw: None,
                    metadata: None,
                },
            ),
        }
    }
}

/// The texts of choices.
pub open spec fn choice_texts(choices: Seq<ChunkChoice>) -> Seq<Seq<char>> {
    Seq::new(choices.len(), |i: int| or_empty(opt_text(choices[i].delta.content)))
}

/// Whether the places of all calls of the choices can be had.
pub open spec fn choices_fit(choices: Seq<ChunkChoice>) -> bool {
    forall|i: int|
        0 <= i < choices.len() ==> match (#[trigger] choices[i]).delta.tool_calls {
            Some(deltas) => places_fit(deltas@),
            None => true,
        }
}

impl Default for PartialResponse {
    fn default() -> (r: Self)
        ensures
            r@ == blank_reply(),
    {
        let r = PartialResponse {
            id: None,
            model: None,
            created: None,
            finish_reason: None,
            usage: None,
            tool_calls: Vec::new(),
        };
        assert(partial_views(r.tool_calls@) =~= Seq::empty());
        r
    }
}

impl PartialResponse {
    /// Takes in what a piece says of the reply as a whole.
    pub fn update(&mut self, chunk: &ChatCompletionChunk)
        ensures
            final(self)@ == old(self)@.with_head(*chunk),
    {
        if let Some(id) = &chunk.id {
            self.id = Some(id.clone());
        }
        if let Some(model) = &chunk.model {
            self.model = Some(model.clone());
        }
        if chunk.created.is_some() {
            self.created = chunk.created;
        }
        if chunk.usage.is_some() {
            self.usage = chunk.usage;
        }
    }

    fn update_tool_call(&mut self, delta: &ApiToolCallDelta)
        requires
            delta.index < usize::MAX,
        ensures
            final(self)@ == (PartialView {
                calls: with_call_delta(old(self)@.calls, *delta),
                ..old(self)@
            }),
    {
        let ghost start = partial_views(self.tool_calls@);
        assert(padded(start, start.len()) == start);
        while self.tool_calls.len() <= delta.index
            invariant
                delta.index < usize::MAX,
                self@ == (PartialView { calls: partial_views(self.tool_calls@), ..old(self)@ }),
                start == old(self)@.calls,
                start.len() <= self.tool_calls@.len(),
                partial_views(self.tool_calls@) == padded(start, self.tool_calls@.len()),
                self.tool_calls@.len() <= delta.index + 1 || self.tool_calls@.len() == start.len(),
            decreases delta.index + 1 - self.tool_calls@.len(),
        {
            let ghost before = partial_views(self.tool_calls@);
            let blank = PartialToolCall { id: None, name: None, arguments: String::new() };
            self.tool_calls.push(blank);
            assert(partial_views(self.tool_calls@) =~= before.push(blank_call()));
            assert(partial_views(self.tool_calls@) =~= padded(start, self.tool_calls@.len()));
        }
        let ghost long = partial_views(self.tool_calls@);
        assert(long =~= padded(start, delta.index as nat + 1));
        let i: usize = delta.index;
        assert(long[i as int] == self.tool_calls@[i as int]@);
        let id = match &delta.id {
            Some(id) => Some(id.clone()),
            None => match &self.tool_calls[i].id {
                Some(id) => Some(id.clone()),
                None => None,
            },
        };
        let mut name = match &self.tool_calls[i].name {
            Some(name) => Some(name.clone()),
            None => None,
        };
        let mut arguments = self.tool_calls[i].arguments.clone();
        if let Some(function) = &delta.function {
            if let Some(given) = &function.name {
                name = Some(given.clone());
            }
            if let Some(more) = &function.arguments {
                arguments.append(more.as_str());
            } else {
                assert(arguments@ + Seq::<char>::empty() =~= arguments@);
            }
        }
        let changed = PartialToolCall { id, name, arguments };
        assert(changed@ == long[i as int].with_delta(*delta));
        self.tool_calls[i] = changed;
        assert(partial_views(self.tool_calls@) =~= long.update(i as int, changed@));
    }

    /// Takes in pieces of calls.
    pub fn update_tool_calls(&mut self, deltas: &Vec<ApiToolCallDelta>)
        requires
            places_fit(deltas@),
        ensures
            final(self)@ == (PartialView {
                calls: with_call_deltas(old(self)@.calls, deltas@),
                ..old(self)@
            }),
    {
        let ghost all = deltas@;
        let mut i: usize = 0;
        proof {
            whole_prefix(all);
        }
        while i < deltas.len()
            invariant
                i <= deltas@.len(),
                all == deltas@,
                places_fit(deltas@),
                self@ == (PartialView {
                    calls: with_call_deltas(old(self)@.calls, all.subrange(0, i as int)),
                    ..old(self)@
                }),
            decreases deltas@.len() - i,
        {
            proof {
                prefix_next(all, i as int);
            }
            self.update_tool_call(&deltas[i]);
            i = i + 1;
        }
        proof {
            whole_prefix(all);
        }
    }

    /// The calls that have come, unless there are none.
    pub fn tool_calls(&self) -> (r: Option<Vec<ToolCall>>)
        ensures
            opt_calls(r) == some_calls(flattened(finished_calls(self@.calls))),
    {
        let mut out: Vec<ToolCall> = Vec::new();
        let ghost all = finished_calls(self@.calls);
        let mut i: usize = 0;
        proof {
            whole_prefix(all);
            assert(call_views(out@) =~= Seq::empty());
        }
        while i < self.tool_calls.len()
            invariant
                i <= self.tool_calls@.len(),
                all == finished_calls(self@.calls),
                call_views(out@) == flattened(all.subrange(0, i as int)),
            decreases self.tool_calls@.len() - i,
        {
            let partial = &self.tool_calls[i];
            let ghost before = call_views(out@);
            proof {
                flattened_next(all, i as int);
                assert(self@.calls[i as int] == partial@);
            }
            if let Some(name) = &partial.name {
                let id = match &partial.id {
                    Some(id) => id.clone(),
                    None => concat2("call_", decimal_text(i as u64).as_str()),
                };
                let call = ToolCall {
                    id,
                    name: name.clone(),
                    arguments: partial.arguments.clone(),
                    provider_data: None,
                };
                out.push(call);
                assert(call_views(out@) =~= before.push(call@));
            }
            i = i + 1;
        }
        proof {
            whole_prefix(all);
            assert(call_views(out@).len() == out@.len());
        }
        if out.len() == 0 {
            None
        } else {
            Some(out)
        }
    }

    /// The reply that the pieces make up.
    pub fn into_generate_response(self, text: String, response_format: &ResponseFormat) -> (r:
        Result<GenerateResponse, SdkError>)
        ensures
            reply_view(r) == self@.answer(text@, *response_format),
    {
        let tool_calls = self.tool_calls();
        let object = match parse_object(text.as_str(), response_format) {
            Ok(object) => object,
            Err(e) => {
                return Err(e);
            },
        };
        Ok(
            GenerateResponse {
                id: text_or_empty(self.id),
                model: text_or_empty(self.model),
                created: self.created,
                text,
                usage: usage_from_api(self.usage),
                finish_reason: self.finish_reason,
                tool_calls,
                object,
                raw: None,
                metadata: None,
            },
        )
    }
}

/// A stream that is being read.
#[derive(Debug)]
pub struct ChatStream {
    pub format: ResponseFormat,
    pub partial: PartialResponse,
    pub block: TextBlock,
}

/// The error for a piece that cannot be read.
pub fn unreadable_chunk(reason: &str) -> (r: SdkError)
    ensures
        r@ == ErrorView::Other("failed to parse OpenAI-style stream chunk: "@ + reason@),
{
    SdkError::Other(concat2("failed to parse OpenAI-style stream chunk: ", reason))
}

/// What the end of a stream brings.
pub open spec fn ending(partial: PartialView, block: BlockView, format: ResponseFormat) -> OutputView {
    match partial.answer(block.aggregate, format) {
        Ok(response) => OutputView {
            chunks: block.stop().push(ChunkView::Completed(response)),
            failure: None,
        },
        Err(e) => OutputView { chunks: block.stop(), failure: Some(e) },
    }
}

impl ChatStream {
    pub fn new(format: ResponseFormat) -> (r: Self)
        ensures
            r.format == format,
            r.partial@ == blank_reply(),
            r.block@ == unstarted(0, ContentBlockType::Text),
    {
        ChatStream {
            format,
            partial: PartialResponse::default(),
            block: TextBlock::new(0, ContentBlockType::Text),
        }
    }

    /// Takes in a piece and hands on the texts that it brings.
    pub fn on_chunk(&mut self, chunk: &ChatCompletionChunk) -> (r: StreamOutput)
        requires
            choices_fit(chunk.choices@),
        ensures
            final(self).format == old(self).format,
            final(self).partial@ == old(self).partial@.with_head(*chunk).with_choices(
                chunk.choices@,
            ),
            old(self).block@.with_texts(choice_texts(chunk.choices@)) == (
                final(self).block@,
                r@.chunks,
            ),
            r@.failure is None,
    {
        let mut chunks: Vec<StreamChunk> = Vec::new();
        assert(chunk_views(chunks@) =~= Seq::empty());
        self.partial.update(chunk);
        let ghost start = self.partial@;
        let ghost block = self.block@;
        let ghost all = chunk.choices@;
        let ghost parts = choice_texts(all);
        let mut i: usize = 0;
        proof {
            whole_prefix(all);
            whole_prefix(parts);
        }
        while i < chunk.choices.len()
            invariant
                i <= chunk.choices@.len(),
                all == chunk.choices@,
                parts == choice_texts(all),
                choices_fit(all),
                self.format == old(self).format,
                self.partial@ == start.with_choices(all.subrange(0, i as int)),
                block.with_texts(parts.subrange(0, i as int)) == (
                    self.block@,
                    chunk_views(chunks@),
                ),
            decreases chunk.choices@.len() - i,
        {
            let choice = &chunk.choices[i];
            proof {
                prefix_next(all, i as int);
                prefix_next(parts, i as int);
                assert(all[i as int] == *choice);
            }
            if let Some(deltas) = &choice.delta.tool_calls {
                self.partial.update_tool_calls(deltas);
            }
            match &choice.delta.content {
                Some(content) => {
                    self.block.emit(content.as_str(), &mut chunks);
                },
                None => {
                    assert(chunk_views(chunks@) + Seq::<ChunkView>::empty() =~= chunk_views(
                        chunks@,
                    ));
                },
            }
            if let Some(reason) = &choice.finish_reason {
                if self.partial.finish_reason.is_none() {
                    self.partial.finish_reason = Some(reason.clone());
                }
            }
            i = i + 1;
        }
        proof {
            whole_prefix(all);
            whole_prefix(parts);
        }
        StreamOutput { chunks, failure: None }
    }

    /// Ends the stream.
    pub fn on_done(self) -> (r: StreamOutput)
        ensures
            r@ == ending(self.partial@, self.block@, self.format),
    {
        let mut chunks: Vec<StreamChunk> = Vec::new();
        assert(chunk_views(chunks@) =~= Seq::empty());
        self.block.close(&mut chunks);
        assert(chunk_views(chunks@) =~= self.block@.stop());
        match self.partial.into_generate_response(self.block.aggregate, &self.format) {
            Ok(response) => {
                push_chunk(&mut chunks, StreamChunk::Completed(response));
                StreamOutput { chunks, failure: None }
            },
            Err(e) => StreamOutput { chunks, failure: Some(e) },
        }
    }
}

/// How the bytes of a stream can fail to come.
#[derive(Clone, Copy, Debug, PartialEq, Eq, Structural)]
pub enum TransportFault {
    Timeout,
    Connect,
    Decode,
    Other,
}

/// What is said when the bytes of a stream fail to come.
pub open spec fn streaming_message(fault: TransportFault, reason: Seq<char>, timeout_secs: u64) -> Seq<char> {
    match fault {
        TransportFault::Timeout => "OpenAI API streaming timed out after "@ + decimal(
            timeout_secs as nat,
        )
            + " seconds. To increase, set OPENAI_REQUEST_TIMEOUT_SECS (e.g., OPENAI_REQUEST_TIMEOUT_SECS=1200)"@,
        TransportFault::Connect =>
            "OpenAI API streaming failed: Unable to connect. Check your network connection. Error: "@
            + reason,
        TransportFault::Decode =>
            "OpenAI API streaming failed: Unable to decode response. The response may be malformed. Error: "@
            + reason,
        TransportFault::Other => "OpenAI API streaming failed: "@ + reason,
    }
}

/// The error when the bytes of a stream fail to come.
pub fn format_streaming_error(fault: TransportFault, reason: &str, timeout_secs: u64) -> (r: SdkError)
    ensures
        r@ == ErrorView::Other(streaming_message(fault, reason@, timeout_secs)),
{
    SdkError::Other(
        match fault {
            TransportFault::Timeout => concat3(
                "OpenAI API streaming timed out after ",
                decimal_text(timeout_secs).as_str(),
                " seconds. To increase, set OPENAI_REQUEST_TIMEOUT_SECS (e.g., OPENAI_REQUEST_TIMEOUT_SECS=1200)",
            ),
            TransportFault::Connect => concat2(
                "OpenAI API streaming failed: Unable to connect. Check your network connection. Error: ",
                reason,
            ),
            TransportFault::Decode => concat2(
                "OpenAI API streaming failed: Unable to decode response. The response may be malformed. Error: ",
                reason,
            ),
            TransportFault::Other => concat2("OpenAI API streaming failed: ", reason),
        },
    )
}

/// Pieces of a call's arguments come together in their order, and no piece of one
/// call changes another.
pub proof fn pieces_of_calls(calls: Seq<PartialCallView>, delta: ApiToolCallDelta, other: int)
    requires
        0 <= other < calls.len(),
    ensures
        other != delta.index ==> with_call_delta(calls, delta)[other] == calls[other],
        other == delta.index ==> with_call_delta(calls, delta)[other] == calls[other].with_delta(
            delta,
        ),
        with_call_delta(calls, delta).len() >= calls.len(),
{
}

/// A piece of a call goes to the call at its place: a new id and a new name take the place
/// of the old, and arguments go on at the end. Places that nothing has come for are blank.
pub proof fn pieces_of_calls_go_to_their_place(
    calls: Seq<PartialCallView>,
    delta: ApiToolCallDelta,
    deltas: Seq<ApiToolCallDelta>,
    other: int,
)
    ensures
        ({
            let at = delta.index as int;
            let after = with_call_delta(calls, delta);
            let was = if at < calls.len() {
                calls[at]
            } else {
                PartialCallView { id: None, name: None, arguments: Seq::empty() }
            };
            &&& after.len() == if at < calls.len() {
                calls.len() as int
            } else {
                at + 1
            }
            &&& delta.id matches Some(id) ==> after[at].id == Some(id@)
            &&& delta.id is None ==> after[at].id == was.id
            &&& delta.function is None ==> after[at].name == was.name && after[at].arguments
                == was.arguments
            &&& delta.function matches Some(f) ==> {
                &&& f.name is Some ==> after[at].name == Some(f.name->0@)
                &&& f.name is None ==> after[at].name == was.name
                &&& f.arguments is Some ==> after[at].arguments == was.arguments + f.arguments->0@
                &&& f.arguments is None ==> after[at].arguments == was.arguments
            }
            &&& 0 <= other < calls.len() && other != at ==> after[other] == calls[other]
            &&& calls.len() <= other < at ==> after[other] == (PartialCallView {
                id: None,
                name: None,
                arguments: Seq::empty(),
            })
        }),
        with_call_deltas(calls, deltas.push(delta)) == with_call_delta(
            with_call_deltas(calls, deltas),
            delta,
        ),
        with_call_deltas(calls, Seq::empty()) == calls,
{
    assert(deltas.push(delta).drop_last() =~= deltas);
    let was = if (delta.index as int) < calls.len() {
        calls[delta.index as int]
    } else {
        blank_call()
    };
    assert(was.arguments + Seq::<char>::empty() =~= was.arguments);
}

/// What a piece says of the whole reply takes the place of what was said; the reason why
/// it ended is the first that was given; the choices count in their order.
pub proof fn pieces_make_up_the_reply(
    partial: PartialView,
    chunk: ChatCompletionChunk,
    choice: ChunkChoice,
    choices: Seq<ChunkChoice>,
)
    ensures
        ({
            let after = partial.with_head(chunk);
            &&& chunk.id matches Some(id) ==> after.id == Some(id@)
            &&& chunk.id is None ==> after.id == partial.id
            &&& chunk.model matches Some(model) ==> after.model == Some(model@)
            &&& chunk.model is None ==> after.model == partial.model
            &&& chunk.created is Some ==> after.created == chunk.created
            &&& chunk.created is None ==> after.created == partial.created
            &&& chunk.usage is Some ==> after.usage == chunk.usage
            &&& chunk.usage is None ==> after.usage == partial.usage
            &&& after.finish_reason == partial.finish_reason && after.calls == partial.calls
        }),
        ({
            let after = partial.with_choice(choice);
            &&& partial.finish_reason is Some ==> after.finish_reason == partial.finish_reason
            &&& partial.finish_reason is None && choice.finish_reason is Some
                ==> after.finish_reason == Some(choice.finish_reason->0@)
            &&& partial.finish_reason is None && choice.finish_reason is None
                ==> after.finish_reason is None
            &&& choice.delta.tool_calls is None ==> after.calls == partial.calls
            &&& choice.delta.tool_calls matches Some(deltas) ==> after.calls == with_call_deltas(
                partial.calls,
                deltas@,
            )
            &&& after.id == partial.id && after.model == partial.model && after.created
                == partial.created && after.usage == partial.usage
        }),
        partial.with_choices(choices.push(choice)) == partial.with_choices(choices).with_choice(
            choice,
        ),
        choice.delta.content matches Some(text) ==> choice_texts(choices.push(choice))
            == choice_texts(choices).push(text@),
        choice.delta.content is None ==> choice_texts(choices.push(choice)) == choice_texts(
            choices,
        ).push(Seq::empty()),
{
    assert(choices.push(choice).drop_last() =~= choices);
    assert(choice_texts(choices.push(choice)).drop_last() =~= choice_texts(choices));
    assert(choice_texts(choices.push(choice)) =~= choice_texts(choices).push(
        choice_texts(choices.push(choice)).last(),
    ));
}

/// The reply is what the pieces said, with the text that was handed on and the calls whose
/// names have come, in their order; a call without an id goes by its place.
pub proof fn the_end_brings_what_was_gathered(
    partial: PartialView,
    block: BlockView,
    format: ResponseFormat,
    call: PartialCallView,
)
    ensures
        ({
            let end = ending(partial, block, format);
            let reply = end.chunks.last()->Completed_0;
            &&& object_reply(block.aggregate, format) matches Ok(object) ==> {
                &&& end.failure is None
                &&& end.chunks.len() == block.stop().len() + 1
                &&& block.started ==> end.chunks[0] == (ChunkView::ContentBlockStop {
                    index: block.index,
                })
                &&& end.chunks.last() is Completed
                &&& reply.text == block.aggregate
                &&& reply.object == object
                &&& partial.id is Some ==> reply.id == partial.id->0
                &&& partial.id is None ==> reply.id.len() == 0
                &&& partial.model is Some ==> reply.model == partial.model->0
                &&& partial.model is None ==> reply.model.len() == 0
                &&& reply.created == partial.created
                &&& reply.finish_reason == partial.finish_reason
                &&& reply.usage == usage_view(partial.usage)
                &&& reply.tool_calls == some_calls(flattened(finished_calls(partial.calls)))
            }
            &&& object_reply(block.aggregate, format) matches Err(e) ==> end.failure == Some(e)
                && end.chunks == block.stop()
        }),
        ({
            let with = flattened(finished_calls(partial.calls.push(call)));
            let before = flattened(finished_calls(partial.calls));
            &&& call.name is None ==> with == before
            &&& call.name matches Some(name) ==> with == before.push(
                ToolCallView {
                    id: match call.id {
                        Some(id) => id,
                        None => "call_"@ + decimal(partial.calls.len()),
                    },
                    name,
                    arguments: call.arguments,
                    provider_data: None,
                },
            )
        }),
{
    assert(finished_calls(partial.calls.push(call)).drop_last() =~= finished_calls(partial.calls));
}

/// Each fault of the transport is told in its own words; a timeout names how long was
/// waited.
pub proof fn transport_faults_are_told(reason: Seq<char>, secs: u64)
    ensures
        streaming_message(TransportFault::Timeout, reason, secs)
            == "OpenAI API streaming timed out after "@ + decimal(secs as nat)
            + " seconds. To increase, set OPENAI_REQUEST_TIMEOUT_SECS (e.g., OPENAI_REQUEST_TIMEOUT_SECS=1200)"@,
        streaming_message(TransportFault::Connect, reason, secs)
            == "OpenAI API streaming failed: Unable to connect. Check your network connection. Error: "@
            + reason,
        streaming_message(TransportFault::Decode, reason, secs)
            == "OpenAI API streaming failed: Unable to decode response. The response may be malformed. Error: "@
            + reason,
        streaming_message(TransportFault::Other, reason, secs) == "OpenAI API streaming failed: "@
            + reason,
{
}

/// A reply begins with nothing.
pub proof fn replies_begin_with_nothing()
    ensures
        blank_reply().id is None,
        blank_reply().model is None,
        blank_reply().created is None,
        blank_reply().finish_reason is None,
        blank_reply().usage is None,
        blank_reply().calls.len() == 0,
        blank_call().id is None && blank_call().name is None && blank_call().arguments.len() == 0,
{
}

} // verus!
