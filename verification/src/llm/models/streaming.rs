//! Replies piece by piece.
use vstd::prelude::*;
use vstd::string::*;

use super::tools::{calls_view, copy_calls, ToolCall};
use super::usage::{no_usage, usage_or_none, Usage};
use crate::error::SdkError;
use crate::json::Json;
use crate::seqs::{prefix_next, whole_prefix};
use crate::text::{concat2, opt_text};

verus! {

/// What a piece adds to a message.
#[derive(Clone, Debug)]
pub struct ChatMessageDelta {
    pub role: Option<String>,
    pub content: Option<String>,
    pub tool_calls: Option<Vec<ToolCall>>,
    pub refusal: Option<String>,
}

/// What a piece adds to one way to go on.
#[derive(Clone, Debug)]
pub struct ChatCompletionChunkChoice {
    pub index: u32,
    pub delta: ChatMessageDelta,
    pub finish_reason: Option<String>,
    pub logprobs: Option<Json>,
}

/// A piece of a reply.
#[derive(Clone, Debug)]
pub struct ChatCompletionChunk {
    pub id: String,
    pub object: Option<String>,
    pub created: Option<u64>,
    pub model: String,
    pub choices: Vec<ChatCompletionChunkChoice>,
    /// Only the last piece tells it.
    pub usage: Option<Usage>,
    pub system_fingerprint: Option<String>,
}

/// A piece of one completion of a prompt.
#[derive(Clone, Debug)]
pub struct CompletionChunkChoice {
    pub index: u32,
    pub text: String,
    pub finish_reason: Option<String>,
    pub logprobs: Option<Json>,
}

/// A piece of the completions of a prompt.
#[derive(Clone, Debug)]
pub struct CompletionChunk {
    pub id: String,
    pub object: Option<String>,
    pub created: Option<u64>,
    pub model: String,
    pub choices: Vec<CompletionChunkChoice>,
}

/// What comes next of a reply: a piece, an error, or the end.
#[derive(Debug)]
pub enum StreamingResponse<T> {
    Chunk(T),
    Error(SdkError),
    Done,
}

impl<T> StreamingResponse<T> {
    pub fn is_chunk(&self) -> (r: bool)
        ensures
            r == (self is Chunk),
    {
        matches!(self, StreamingResponse::Chunk(_))
    }

    pub fn is_error(&self) -> (r: bool)
        ensures
            r == (self is Error),
    {
        matches!(self, StreamingResponse::Error(_))
    }

    pub fn is_done(&self) -> (r: bool)
        ensures
            r == (self is Done),
    {
        matches!(self, StreamingResponse::Done)
    }

    /// The piece, if it is one.
    pub fn into_chunk(self) -> (r: Option<T>)
        ensures
            r == (match self {
                StreamingResponse::Chunk(chunk) => Some(chunk),
                _ => None,
            }),
    {
        match self {
            StreamingResponse::Chunk(chunk) => Some(chunk),
            _ => None,
        }
    }

    /// The error, if it is one.
    pub fn into_error(self) -> (r: Option<SdkError>)
        ensures
            r == (match self {
                StreamingResponse::Error(error) => Some(error),
                _ => None,
            }),
    {
        match self {
            StreamingResponse::Error(error) => Some(error),
            _ => None,
        }
    }
}

/// Gathers the pieces of a reply.
#[derive(Debug)]
pub struct ChatCompletionAccumulator {
    pub id: String,
    pub model: String,
    pub choices: Vec<AccumulatedChoice>,
    pub usage: Usage,
    pub system_fingerprint: Option<String>,
}

/// What has come of one way to go on.
#[derive(Debug)]
pub struct AccumulatedChoice {
    pub index: u32,
    pub content: String,
    pub role: String,
    pub tool_calls: Option<Vec<ToolCall>>,
    pub finish_reason: Option<String>,
}

/// What an `AccumulatedChoice` says.
pub struct AccumulatedView {
    pub index: u32,
    pub content: Seq<char>,
    pub role: Seq<char>,
    pub tool_calls: Option<Seq<ToolCall>>,
    pub finish_reason: Option<Seq<char>>,
}

impl View for AccumulatedChoice {
    type V = AccumulatedView;

    open spec fn view(&self) -> AccumulatedView {
        AccumulatedView {
            index: self.index,
            content: self.content@,
            role: self.role@,
            tool_calls: calls_view(self.tool_calls),
            finish_reason: opt_text(self.finish_reason),
        }
    }
}

/// What gathered choices say.
pub open spec fn accumulated_views(list: Seq<AccumulatedChoice>) -> Seq<AccumulatedView> {
    Seq::new(list.len(), |i: int| list[i]@)
}

/// A text, or none at all.
pub open spec fn text_or_nothing(s: Option<String>) -> Seq<char> {
    match s {
        Some(s) => s@,
        None => Seq::empty(),
    }
}

/// A text, or none at all.
pub fn or_nothing(s: &Option<String>) -> (r: String)
    ensures
        r@ == text_or_nothing(*s),
{
    match s {
        Some(s) => s.clone(),
        None => {
            let r = String::new();
            assert(r@ =~= Seq::empty());
            r
        },
    }
}

/// The role that a piece names, or that of the model.
pub open spec fn role_or_assistant(role: Option<String>) -> Seq<char> {
    match role {
        Some(role) => role@,
        None => "assistant"@,
    }
}

/// The role that a piece names, or that of the model.
pub fn or_assistant(role: &Option<String>) -> (r: String)
    ensures
        r@ == role_or_assistant(*role),
{
    match role {
        Some(role) => role.clone(),
        None => "assistant".to_owned(),
    }
}

/// A choice as its first piece leaves it.
pub open spec fn first_choice(piece: ChatCompletionChunkChoice) -> AccumulatedView {
    AccumulatedView {
        index: piece.index,
        content: text_or_nothing(piece.delta.content),
        role: role_or_assistant(piece.delta.role),
        tool_calls: calls_view(piece.delta.tool_calls),
        finish_reason: opt_text(piece.finish_reason),
    }
}

/// The choices as the first piece of a reply leaves them.
pub open spec fn first_choices(pieces: Seq<ChatCompletionChunkChoice>) -> Seq<AccumulatedView> {
    Seq::new(pieces.len(), |i: int| first_choice(pieces[i]))
}

/// A choice after one more piece: its text is added; calls and the reason for the
/// end take the place of those before.
pub open spec fn merged(choice: AccumulatedView, piece: ChatCompletionChunkChoice) -> AccumulatedView {
    AccumulatedView {
        index: choice.index,
        content: choice.content + text_or_nothing(piece.delta.content),
        role: choice.role,
        tool_calls: match piece.delta.tool_calls {
            Some(calls) => Some(calls@),
            None => choice.tool_calls,
        },
        finish_reason: match piece.finish_reason {
            Some(reason) => Some(reason@),
            None => choice.finish_reason,
        },
    }
}

/// The choices after more pieces, each of which goes to the choice at its place. One
/// for a place that is not there is lost.
pub open spec fn merged_all(
    choices: Seq<AccumulatedView>,
    pieces: Seq<ChatCompletionChunkChoice>,
) -> Seq<AccumulatedView>
    decreases pieces.len(),
{
    if pieces.len() == 0 {
        choices
    } else {
        let before = merged_all(choices, pieces.drop_last());
        let piece = pieces.last();
        if piece.index < before.len() {
            before.update(piece.index as int, merged(before[piece.index as int], piece))
        } else {
            before
        }
    }
}

/// The texts of the pieces for one place, one after the other.
pub open spec fn text_for(pieces: Seq<ChatCompletionChunkChoice>, place: int) -> Seq<char>
    decreases pieces.len(),
{
    if pieces.len() == 0 {
        Seq::empty()
    } else if pieces.last().index == place {
        text_for(pieces.drop_last(), place) + text_or_nothing(pieces.last().delta.content)
    } else {
        text_for(pieces.drop_last(), place)
    }
}

/// The text at a place is what was there and then the texts of the pieces for it, in
/// their order; choices neither come nor go, and keep their role.
pub proof fn texts_are_gathered(
    choices: Seq<AccumulatedView>,
    pieces: Seq<ChatCompletionChunkChoice>,
    place: int,
)
    requires
        0 <= place < choices.len(),
    ensures
        merged_all(choices, pieces).len() == choices.len(),
        merged_all(choices, pieces)[place].content == choices[place].content + text_for(
            pieces,
            place,
        ),
        merged_all(choices, pieces)[place].role == choices[place].role,
        merged_all(choices, pieces)[place].index == choices[place].index,
    decreases pieces.len(),
{
    if pieces.len() == 0 {
        assert(choices[place].content + Seq::<char>::empty() =~= choices[place].content);
    } else {
        texts_are_gathered(choices, pieces.drop_last(), place);
        let before = choices[place].content;
        let part = text_for(pieces.drop_last(), place);
        let next = text_or_nothing(pieces.last().delta.content);
        assert((before + part) + next =~= before + (part + next));
    }
}

/// Whether pieces come in one piece of a reply or in two makes no difference.
pub proof fn pieces_in_two_lots(
    choices: Seq<AccumulatedView>,
    first: Seq<ChatCompletionChunkChoice>,
    second: Seq<ChatCompletionChunkChoice>,
)
    ensures
        merged_all(merged_all(choices, first), second) == merged_all(choices, first + second),
    decreases second.len(),
{
    if second.len() == 0 {
        assert(first + second =~= first);
    } else {
        pieces_in_two_lots(choices, first, second.drop_last());
        assert((first + second).drop_last() =~= first + second.drop_last());
        assert((first + second).last() == second.last());
    }
}

impl ChatCompletionAccumulator {
    /// Begins with the first piece of a reply.
    pub fn new(first_chunk: &ChatCompletionChunk) -> (r: Self)
        ensures
            r.id@ == first_chunk.id@,
            r.model@ == first_chunk.model@,
            accumulated_views(r.choices@) == first_choices(first_chunk.choices@),
            r.usage == (match first_chunk.usage {
                Some(usage) => usage,
                None => no_usage(),
            }),
            opt_text(r.system_fingerprint) == opt_text(first_chunk.system_fingerprint),
    {
        let mut choices: Vec<AccumulatedChoice> = Vec::new();
        let ghost all = first_choices(first_chunk.choices@);
        let mut i: usize = 0;
        proof {
            whole_prefix(all);
            assert(accumulated_views(choices@) =~= Seq::empty());
        }
        while i < first_chunk.choices.len()
            invariant
                i <= first_chunk.choices@.len(),
                all == first_choices(first_chunk.choices@),
                accumulated_views(choices@) == all.subrange(0, i as int),
            decreases first_chunk.choices@.len() - i,
        {
            let piece = &first_chunk.choices[i];
            let ghost before = accumulated_views(choices@);
            let choice = AccumulatedChoice {
                index: piece.index,
                content: or_nothing(&piece.delta.content),
                role: or_assistant(&piece.delta.role),
                tool_calls: copy_calls(&piece.delta.tool_calls),
                finish_reason: copy_text(&piece.finish_reason),
            };
            choices.push(choice);
            proof {
                assert(accumulated_views(choices@) =~= before.push(choice@));
                prefix_next(all, i as int);
            }
            i = i + 1;
        }
        proof {
            whole_prefix(all);
        }
        ChatCompletionAccumulator {
            id: first_chunk.id.clone(),
            model: first_chunk.model.clone(),
            choices,
            usage: usage_or_none(&first_chunk.usage),
            system_fingerprint: copy_text(&first_chunk.system_fingerprint),
        }
    }

    /// Adds a piece.
    pub fn add_chunk(&mut self, chunk: &ChatCompletionChunk)
        ensures
            final(self).id == old(self).id,
            final(self).model == old(self).model,
            final(self).system_fingerprint == old(self).system_fingerprint,
            accumulated_views(final(self).choices@) == merged_all(
                accumulated_views(old(self).choices@),
                chunk.choices@,
            ),
            final(self).usage == (match chunk.usage {
                Some(usage) => usage,
                None => old(self).usage,
            }),
    {
        let ghost start = accumulated_views(self.choices@);
        let mut i: usize = 0;
        proof {
            whole_prefix(chunk.choices@);
        }
        while i < chunk.choices.len()
            invariant
                i <= chunk.choices@.len(),
                self.id == old(self).id,
                self.model == old(self).model,
                self.system_fingerprint == old(self).system_fingerprint,
                self.usage == old(self).usage,
                accumulated_views(self.choices@) == merged_all(
                    start,
                    chunk.choices@.subrange(0, i as int),
                ),
            decreases chunk.choices@.len() - i,
        {
            let piece = &chunk.choices[i];
            let ghost before = accumulated_views(self.choices@);
            proof {
                prefix_next(chunk.choices@, i as int);
            }
            let place: usize = piece.index as usize;
            if place < self.choices.len() {
                let AccumulatedChoice { index, content, role, tool_calls, finish_reason } =
                    self.choices.remove(place);
                let next = AccumulatedChoice {
                    index,
                    content: match &piece.delta.content {
                        Some(more) => concat2(content.as_str(), more.as_str()),
                        None => {
                            assert(content@ + Seq::<char>::empty() =~= content@);
                            content
                        },
                    },
                    role,
                    tool_calls: match &piece.delta.tool_calls {
                        Some(_) => copy_calls(&piece.delta.tool_calls),
                        None => tool_calls,
                    },
                    finish_reason: match &piece.finish_reason {
                        Some(reason) => Some(reason.clone()),
                        None => finish_reason,
                    },
                };
                self.choices.insert(place, next);
                assert(accumulated_views(self.choices@) =~= before.update(
                    place as int,
                    merged(before[place as int], *piece),
                ));
            }
            i = i + 1;
        }
        proof {
            whole_prefix(chunk.choices@);
        }
        if let Some(usage) = &chunk.usage {
            self.usage = *usage;
        }
    }
}

/// A copy of an optional text.
pub fn copy_text(s: &Option<String>) -> (r: Option<String>)
    ensures
        r == *s,
{
    match s {
        Some(s) => Some(s.clone()),
        None => None,
    }
}

/// A piece goes to the choice at its place: its text goes on at the end, its calls and its
/// reason take the place of those before; all other choices stay as they were.
pub proof fn pieces_go_to_their_choice(
    choices: Seq<AccumulatedView>,
    pieces: Seq<ChatCompletionChunkChoice>,
    piece: ChatCompletionChunkChoice,
    other: int,
)
    ensures
        ({
            let before = merged_all(choices, pieces);
            let after = merged_all(choices, pieces.push(piece));
            let at = piece.index as int;
            &&& after.len() == before.len()
            &&& 0 <= other < before.len() && other != at ==> after[other] == before[other]
            &&& at < before.len() ==> {
                &&& piece.delta.content is Some ==> after[at].content == before[at].content
                    + piece.delta.content->0@
                &&& piece.delta.content is None ==> after[at].content == before[at].content
                &&& piece.delta.tool_calls matches Some(calls) ==> after[at].tool_calls == Some(
                    calls@,
                )
                &&& piece.delta.tool_calls is None ==> after[at].tool_calls == before[at].tool_calls
                &&& piece.finish_reason matches Some(reason) ==> after[at].finish_reason == Some(
                    reason@,
                )
                &&& piece.finish_reason is None ==> after[at].finish_reason
                    == before[at].finish_reason
                &&& after[at].role == before[at].role && after[at].index == before[at].index
            }
        }),
{
    assert(pieces.push(piece).drop_last() =~= pieces);
    let before = merged_all(choices, pieces);
    let at = piece.index as int;
    if at < before.len() {
        assert(before[at].content + Seq::<char>::empty() =~= before[at].content);
    }
}

/// The first piece of a reply begins its choices, in their order; who speaks is the model
/// unless it is said.
pub proof fn first_pieces_begin_choices(pieces: Seq<ChatCompletionChunkChoice>, i: int)
    requires
        0 <= i < pieces.len(),
    ensures
        first_choices(pieces).len() == pieces.len(),
        ({
            let choice = first_choices(pieces)[i];
            let piece = pieces[i];
            &&& choice.index == piece.index
            &&& piece.delta.content is Some ==> choice.content == piece.delta.content->0@
            &&& piece.delta.content is None ==> choice.content.len() == 0
            &&& piece.delta.role is Some ==> choice.role == piece.delta.role->0@
            &&& piece.delta.role is None ==> choice.role == "assistant"@
            &&& piece.delta.tool_calls is None ==> choice.tool_calls is None
            &&& piece.delta.tool_calls matches Some(calls) ==> choice.tool_calls == Some(calls@)
            &&& piece.finish_reason is None ==> choice.finish_reason is None
            &&& piece.finish_reason matches Some(reason) ==> choice.finish_reason == Some(reason@)
        }),
{
}

} // verus!
