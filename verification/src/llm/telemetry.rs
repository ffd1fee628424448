//! What is recorded of calls: the attributes of their spans.
use vstd::prelude::*;
use vstd::string::*;

use super::models::chat::{
    ChatChoice, ChatCompletion, ChatCompletionRequest, ChatCompletionResponse, ChatMessage,
    ChatMessageContent,
};
use super::models::completion::{CompletionChoice, CompletionRequest, CompletionResponse};
use super::models::embeddings::{EmbeddingsRequest, EmbeddingsResponse};
use super::models::streaming::{
    copy_text, or_assistant, or_nothing, role_or_assistant, text_or_nothing, ChatCompletionChunk,
    ChatCompletionChunkChoice,
};
use super::models::tools::{calls_view, copy_calls, ToolCall};
use super::models::usage::{no_usage, usage_or_none, EmbeddingUsage, Usage};
use super::provider::{get_vendor_name, vendor_name, ProviderType};
use crate::json::{json_text, opt_json, JsonView};
use crate::lm::telemetry::{
    attribute_if, attribute_views, count_attribute, count_value, number_attribute, number_value,
    set_attribute, set_opt, set_text, Attribute, AttributeValue, ValueView,
};
use crate::seqs::{prefix_next, whole_prefix};
use crate::text::{concat2, concat3, decimal, decimal_text, opt_text, str_eq};

verus! {

/// An attribute's name and value.
pub type Recorded = Seq<(Seq<char>, ValueView)>;

/// What can be recorded of a call.
pub trait RecordSpan {
    /// What is recorded; `trace` tells whether what is said is recorded too.
    spec fn recorded(&self, trace: bool) -> Recorded;

    /// Records it.
    fn record_span(&self, span: &mut Vec<Attribute>, trace: bool)
        ensures
            attribute_views(final(span)@) == attribute_views(old(span)@) + self.recorded(trace),
    ;
}

/// Whether what is said is recorded, by the setting for it.
pub open spec fn traces_content(setting: Option<Seq<char>>) -> bool {
    setting == Some("true"@)
}

/// Whether what is said is recorded, by the setting for it.
pub fn should_trace_content(setting: Option<&str>) -> (r: bool)
    ensures
        r == traces_content(
            match setting {
                Some(s) => Some(s@),
                None => None,
            },
        ),
{
    match setting {
        Some(s) => str_eq(s, "true"),
        None => false,
    }
}

/// What is said, as one text; parts are told as JSON.
pub open spec fn content_text(content: ChatMessageContent) -> Seq<char> {
    match content {
        ChatMessageContent::String(text) => text@,
        ChatMessageContent::Array(_) => json_text(content.document()),
    }
}

fn text_of_content(content: &ChatMessageContent) -> (r: String)
    ensures
        r@ == content_text(*content),
{
    match content {
        ChatMessageContent::String(text) => text.clone(),
        ChatMessageContent::Array(_) => content.to_json().to_text(),
    }
}

/// The name of an attribute of something in a list.
pub open spec fn numbered(start: Seq<char>, n: nat, end: Seq<char>) -> Seq<char> {
    start + decimal(n) + end
}

fn set_numbered(span: &mut Vec<Attribute>, start: &str, n: u64, end: &str, value: &str)
    ensures
        attribute_views(final(span)@) == attribute_views(old(span)@).push(
            (numbered(start@, n as nat, end@), ValueView::Text(value@)),
        ),
{
    let key = concat3(start, decimal_text(n).as_str(), end);
    set_text(span, key.as_str(), value);
}

/// What is recorded of the message at a place.
pub open spec fn message_attributes(message: ChatMessage, at: nat) -> Recorded {
    seq![(numbered("gen_ai.prompt."@, at, ".role"@), ValueView::Text(message.role@))] + (
    match message.content {
        Some(content) => seq![
            (
                numbered("gen_ai.prompt."@, at, ".content"@),
                ValueView::Text(content_text(content)),
            ),
        ],
        None => Seq::empty(),
    })
}

/// What is recorded of messages.
pub open spec fn all_message_attributes(messages: Seq<ChatMessage>) -> Recorded
    decreases messages.len(),
{
    if messages.len() == 0 {
        Seq::empty()
    } else {
        all_message_attributes(messages.drop_last()) + message_attributes(
            messages.last(),
            (messages.len() - 1) as nat,
        )
    }
}

fn record_messages(span: &mut Vec<Attribute>, messages: &Vec<ChatMessage>)
    ensures
        attribute_views(final(span)@) == attribute_views(old(span)@) + all_message_attributes(
            messages@,
        ),
{
    let ghost start = attribute_views(span@);
    let mut i: usize = 0;
    proof {
        whole_prefix(messages@);
        assert(start + Seq::<(Seq<char>, ValueView)>::empty() =~= start);
    }
    while i < messages.len()
        invariant
            i <= messages@.len(),
            attribute_views(span@) == start + all_message_attributes(
                messages@.subrange(0, i as int),
            ),
        decreases messages@.len() - i,
    {
        let message = &messages[i];
        let ghost before = attribute_views(span@);
        set_numbered(span, "gen_ai.prompt.", i as u64, ".role", message.role.as_str());
        if let Some(content) = &message.content {
            let text = text_of_content(content);
            set_numbered(span, "gen_ai.prompt.", i as u64, ".content", text.as_str());
        }
        proof {
            let added = message_attributes(*message, i as nat);
            assert(attribute_views(span@) =~= before + added);
            prefix_next(messages@, i as int);
            let part = all_message_attributes(messages@.subrange(0, i as int));
            assert((start + part) + added =~= start + (part + added));
        }
        i = i + 1;
    }
    proof {
        whole_prefix(messages@);
    }
}

/// What holds first of two limits.
pub open spec fn first_limit(a: Option<u32>, b: Option<u32>) -> Option<u32> {
    match a {
        Some(n) => Some(n),
        None => b,
    }
}

impl RecordSpan for ChatCompletionRequest {
    open spec fn recorded(&self, trace: bool) -> Recorded {
        seq![
            ("llm.request.type"@, ValueView::Text("chat"@)),
            ("gen_ai.request.model"@, ValueView::Text(self.model@)),
        ] + attribute_if(
            "gen_ai.request.max_tokens"@,
            count_value(first_limit(self.max_tokens, self.max_completion_tokens)),
        ) + attribute_if(
            "gen_ai.request.frequency_penalty"@,
            number_value(self.frequency_penalty),
        ) + attribute_if("gen_ai.request.presence_penalty"@, number_value(self.presence_penalty))
            + attribute_if("gen_ai.request.top_p"@, number_value(self.top_p)) + attribute_if(
            "gen_ai.request.temperature"@,
            number_value(self.temperature),
        ) + (if trace {
            all_message_attributes(self.messages@)
        } else {
            Seq::empty()
        })
    }

    fn record_span(&self, span: &mut Vec<Attribute>, trace: bool) {
        let limit = match self.max_tokens {
            Some(n) => Some(n),
            None => self.max_completion_tokens,
        };
        let mut own: Vec<Attribute> = Vec::new();
        set_text(&mut own, "llm.request.type", "chat");
        set_text(&mut own, "gen_ai.request.model", self.model.as_str());
        assert(attribute_views(own@) =~= seq![
            ("llm.request.type"@, ValueView::Text("chat"@)),
            ("gen_ai.request.model"@, ValueView::Text(self.model@)),
        ]);
        set_opt(&mut own, "gen_ai.request.max_tokens", count_attribute(limit));
        set_opt(
            &mut own,
            "gen_ai.request.frequency_penalty",
            number_attribute(&self.frequency_penalty),
        );
        set_opt(
            &mut own,
            "gen_ai.request.presence_penalty",
            number_attribute(&self.presence_penalty),
        );
        set_opt(&mut own, "gen_ai.request.top_p", number_attribute(&self.top_p));
        set_opt(&mut own, "gen_ai.request.temperature", number_attribute(&self.temperature));
        let ghost before = attribute_views(own@);
        if trace {
            record_messages(&mut own, &self.messages);
        } else {
            assert(before + Seq::<(Seq<char>, ValueView)>::empty() =~= before);
        }
        append_attributes(span, own);
    }
}

fn append_attributes(span: &mut Vec<Attribute>, more: Vec<Attribute>)
    ensures
        attribute_views(final(span)@) == attribute_views(old(span)@) + attribute_views(more@),
{
    let ghost before = span@;
    let mut rest = more;
    span.append(&mut rest);
    assert(attribute_views(span@) =~= attribute_views(before) + attribute_views(more@));
}

/// A count that may be there, by its detail.
pub open spec fn reasoning_tokens(usage: Usage) -> Option<u32> {
    match usage.completion_tokens_details {
        Some(details) => details.reasoning_tokens,
        None => None,
    }
}

/// How many tokens of the prompt were kept from before, where it is known.
pub open spec fn cached_tokens(usage: Usage) -> Option<u32> {
    match usage.prompt_tokens_details {
        Some(details) => details.cached_tokens,
        None => None,
    }
}

impl RecordSpan for Usage {
    open spec fn recorded(&self, trace: bool) -> Recorded {
        seq![
            ("gen_ai.usage.input_tokens"@, ValueView::Int(self.prompt_tokens as i64)),
            ("gen_ai.usage.output_tokens"@, ValueView::Int(self.completion_tokens as i64)),
        ] + attribute_if("gen_ai.usage.reasoning_tokens"@, count_value(reasoning_tokens(*self)))
            + attribute_if("gen_ai.usage.cached_tokens"@, count_value(cached_tokens(*self)))
    }

    fn record_span(&self, span: &mut Vec<Attribute>, trace: bool) {
        let reasoning = match self.completion_tokens_details {
            Some(details) => details.reasoning_tokens,
            None => None,
        };
        let cached = match self.prompt_tokens_details {
            Some(details) => details.cached_tokens,
            None => None,
        };
        let mut own: Vec<Attribute> = Vec::new();
        set_attribute(
            &mut own,
            "gen_ai.usage.input_tokens",
            AttributeValue::Int(self.prompt_tokens as i64),
        );
        set_attribute(
            &mut own,
            "gen_ai.usage.output_tokens",
            AttributeValue::Int(self.completion_tokens as i64),
        );
        assert(attribute_views(own@) =~= seq![
            ("gen_ai.usage.input_tokens"@, ValueView::Int(self.prompt_tokens as i64)),
            ("gen_ai.usage.output_tokens"@, ValueView::Int(self.completion_tokens as i64)),
        ]);
        set_opt(&mut own, "gen_ai.usage.reasoning_tokens", count_attribute(reasoning));
        set_opt(&mut own, "gen_ai.usage.cached_tokens", count_attribute(cached));
        append_attributes(span, own);
    }
}

impl RecordSpan for EmbeddingUsage {
    open spec fn recorded(&self, trace: bool) -> Recorded {
        seq![("gen_ai.usage.input_tokens"@, ValueView::Int(self.prompt_tokens as i64))]
    }

    fn record_span(&self, span: &mut Vec<Attribute>, trace: bool) {
        let ghost before = attribute_views(span@);
        set_attribute(
            span,
            "gen_ai.usage.input_tokens",
            AttributeValue::Int(self.prompt_tokens as i64),
        );
        assert(attribute_views(span@) =~= before + self.recorded(trace));
    }
}

/// What is recorded of one way to go on.
pub open spec fn choice_attributes(choice: ChatChoice) -> Recorded {
    (match choice.message.content {
        Some(content) => seq![
            (
                numbered("gen_ai.completion."@, choice.index as nat, ".role"@),
                ValueView::Text(choice.message.role@),
            ),
            (
                numbered("gen_ai.completion."@, choice.index as nat, ".content"@),
                ValueView::Text(content_text(content)),
            ),
        ],
        None => Seq::empty(),
    }) + seq![
        (
            numbered("gen_ai.completion."@, choice.index as nat, ".finish_reason"@),
            ValueView::Text(text_or_nothing(choice.finish_reason)),
        ),
    ]
}

/// What is recorded of the ways to go on.
pub open spec fn all_choice_attributes(choices: Seq<ChatChoice>) -> Recorded
    decreases choices.len(),
{
    if choices.len() == 0 {
        Seq::empty()
    } else {
        all_choice_attributes(choices.drop_last()) + choice_attributes(choices.last())
    }
}

fn record_choices(span: &mut Vec<Attribute>, choices: &Vec<ChatChoice>)
    ensures
        attribute_views(final(span)@) == attribute_views(old(span)@) + all_choice_attributes(
            choices@,
        ),
{
    let ghost start = attribute_views(span@);
    let mut i: usize = 0;
    proof {
        whole_prefix(choices@);
        assert(start + Seq::<(Seq<char>, ValueView)>::empty() =~= start);
    }
    while i < choices.len()
        invariant
            i <= choices@.len(),
            attribute_views(span@) == start + all_choice_attributes(choices@.subrange(0, i as int)),
        decreases choices@.len() - i,
    {
        let choice = &choices[i];
        let ghost before = attribute_views(span@);
        let n: u64 = choice.index as u64;
        if let Some(content) = &choice.message.content {
            set_numbered(span, "gen_ai.completion.", n, ".role", choice.message.role.as_str());
            let text = text_of_content(content);
            set_numbered(span, "gen_ai.completion.", n, ".content", text.as_str());
        }
        let reason = or_nothing(&choice.finish_reason);
        set_numbered(span, "gen_ai.completion.", n, ".finish_reason", reason.as_str());
        proof {
            let added = choice_attributes(*choice);
            assert(attribute_views(span@) =~= before + added);
            prefix_next(choices@, i as int);
            let part = all_choice_attributes(choices@.subrange(0, i as int));
            assert((start + part) + added =~= start + (part + added));
        }
        i = i + 1;
    }
    proof {
        whole_prefix(choices@);
    }
}

/// What is recorded of the origin of a reply.
pub open spec fn origin(model: Seq<char>, id: Seq<char>) -> Recorded {
    seq![
        ("gen_ai.response.model"@, ValueView::Text(model)),
        ("gen_ai.response.id"@, ValueView::Text(id)),
    ]
}

fn record_origin(model: &str, id: &str) -> (r: Vec<Attribute>)
    ensures
        attribute_views(r@) == origin(model@, id@),
{
    let mut own: Vec<Attribute> = Vec::new();
    set_text(&mut own, "gen_ai.response.model", model);
    set_text(&mut own, "gen_ai.response.id", id);
    assert(attribute_views(own@) =~= origin(model@, id@));
    own
}

impl RecordSpan for ChatCompletion {
    open spec fn recorded(&self, trace: bool) -> Recorded {
        origin(self.model@, self.id@) + self.usage.recorded(trace) + (if trace {
            all_choice_attributes(self.choices@)
        } else {
            Seq::empty()
        })
    }

    fn record_span(&self, span: &mut Vec<Attribute>, trace: bool) {
        let mut own = record_origin(self.model.as_str(), self.id.as_str());
        self.usage.record_span(&mut own, trace);
        let ghost before = attribute_views(own@);
        if trace {
            record_choices(&mut own, &self.choices);
        } else {
            assert(before + Seq::<(Seq<char>, ValueView)>::empty() =~= before);
        }
        append_attributes(span, own);
    }
}

impl<S> RecordSpan for ChatCompletionResponse<S> {
    open spec fn recorded(&self, trace: bool) -> Recorded {
        match self {
            ChatCompletionResponse::NonStream(completion) => completion.recorded(trace),
            ChatCompletionResponse::Stream(_) => seq![
                ("gen_ai.response.stream"@, ValueView::Bool(true)),
            ],
        }
    }

    fn record_span(&self, span: &mut Vec<Attribute>, trace: bool) {
        match self {
            ChatCompletionResponse::NonStream(completion) => completion.record_span(span, trace),
            ChatCompletionResponse::Stream(_) => {
                let ghost before = attribute_views(span@);
                set_attribute(span, "gen_ai.response.stream", AttributeValue::Bool(true));
                assert(attribute_views(span@) =~= before + self.recorded(trace));
            },
        }
    }
}

impl RecordSpan for CompletionRequest {
    open spec fn recorded(&self, trace: bool) -> Recorded {
        seq![
            ("llm.request.type"@, ValueView::Text("completion"@)),
            ("gen_ai.request.model"@, ValueView::Text(self.model@)),
        ] + attribute_if("gen_ai.request.max_tokens"@, count_value(self.max_tokens)) + attribute_if(
            "gen_ai.request.frequency_penalty"@,
            number_value(self.frequency_penalty),
        ) + attribute_if("gen_ai.request.presence_penalty"@, number_value(self.presence_penalty))
            + attribute_if("gen_ai.request.top_p"@, number_value(self.top_p)) + attribute_if(
            "gen_ai.request.temperature"@,
            number_value(self.temperature),
        ) + attribute_if(
            "gen_ai.prompt"@,
            if trace {
                Some(ValueView::Text(self.prompt@))
            } else {
                None
            },
        )
    }

    fn record_span(&self, span: &mut Vec<Attribute>, trace: bool) {
        let prompt = if trace {
            Some(AttributeValue::Text(self.prompt.clone()))
        } else {
            None
        };
        let mut own: Vec<Attribute> = Vec::new();
        set_text(&mut own, "llm.request.type", "completion");
        set_text(&mut own, "gen_ai.request.model", self.model.as_str());
        assert(attribute_views(own@) =~= seq![
            ("llm.request.type"@, ValueView::Text("completion"@)),
            ("gen_ai.request.model"@, ValueView::Text(self.model@)),
        ]);
        set_opt(&mut own, "gen_ai.request.max_tokens", count_attribute(self.max_tokens));
        set_opt(
            &mut own,
            "gen_ai.request.frequency_penalty",
            number_attribute(&self.frequency_penalty),
        );
        set_opt(
            &mut own,
            "gen_ai.request.presence_penalty",
            number_attribute(&self.presence_penalty),
        );
        set_opt(&mut own, "gen_ai.request.top_p", number_attribute(&self.top_p));
        set_opt(&mut own, "gen_ai.request.temperature", number_attribute(&self.temperature));
        set_opt(&mut own, "gen_ai.prompt", prompt);
        append_attributes(span, own);
    }
}

/// What is recorded of one completion.
pub open spec fn completion_attributes(choice: CompletionChoice) -> Recorded {
    seq![
        (
            numbered("gen_ai.completion."@, choice.index as nat, ".content"@),
            ValueView::Text(choice.text@),
        ),
        (
            numbered("gen_ai.completion."@, choice.index as nat, ".finish_reason"@),
            ValueView::Text(text_or_nothing(choice.finish_reason)),
        ),
    ]
}

/// What is recorded of completions.
pub open spec fn all_completion_attributes(choices: Seq<CompletionChoice>) -> Recorded
    decreases choices.len(),
{
    if choices.len() == 0 {
        Seq::empty()
    } else {
        all_completion_attributes(choices.drop_last()) + completion_attributes(choices.last())
    }
}

fn record_completions(span: &mut Vec<Attribute>, choices: &Vec<CompletionChoice>)
    ensures
        attribute_views(final(span)@) == attribute_views(old(span)@) + all_completion_attributes(
            choices@,
        ),
{
    let ghost start = attribute_views(span@);
    let mut i: usize = 0;
    proof {
        whole_prefix(choices@);
        assert(start + Seq::<(Seq<char>, ValueView)>::empty() =~= start);
    }
    while i < choices.len()
        invariant
            i <= choices@.len(),
            attribute_views(span@) == start + all_completion_attributes(
                choices@.subrange(0, i as int),
            ),
        decreases choices@.len() - i,
    {
        let choice = &choices[i];
        let ghost before = attribute_views(span@);
        let n: u64 = choice.index as u64;
        set_numbered(span, "gen_ai.completion.", n, ".content", choice.text.as_str());
        let reason = or_nothing(&choice.finish_reason);
        set_numbered(span, "gen_ai.completion.", n, ".finish_reason", reason.as_str());
        proof {
            let added = completion_attributes(*choice);
            assert(attribute_views(span@) =~= before + added);
            prefix_next(choices@, i as int);
            let part = all_completion_attributes(choices@.subrange(0, i as int));
            assert((start + part) + added =~= start + (part + added));
        }
        i = i + 1;
    }
    proof {
        whole_prefix(choices@);
    }
}

impl RecordSpan for CompletionResponse {
    open spec fn recorded(&self, trace: bool) -> Recorded {
        origin(self.model@, self.id@) + self.usage.recorded(trace) + (if trace {
            all_completion_attributes(self.choices@)
        } else {
            Seq::empty()
        })
    }

    fn record_span(&self, span: &mut Vec<Attribute>, trace: bool) {
        let mut own = record_origin(self.model.as_str(), self.id.as_str());
        self.usage.record_span(&mut own, trace);
        let ghost before = attribute_views(own@);
        if trace {
            record_completions(&mut own, &self.choices);
        } else {
            assert(before + Seq::<(Seq<char>, ValueView)>::empty() =~= before);
        }
        append_attributes(span, own);
    }
}

impl RecordSpan for EmbeddingsRequest {
    open spec fn recorded(&self, trace: bool) -> Recorded {
        seq![
            ("llm.request.type"@, ValueView::Text("embeddings"@)),
            ("gen_ai.request.model"@, ValueView::Text(self.model@)),
            ("gen_ai.embeddings.input_count"@, ValueView::Int(self.input.count() as i64)),
        ] + attribute_if("gen_ai.embeddings.dimensions"@, count_value(self.dimensions))
    }

    fn record_span(&self, span: &mut Vec<Attribute>, trace: bool) {
        let mut own: Vec<Attribute> = Vec::new();
        set_text(&mut own, "llm.request.type", "embeddings");
        set_text(&mut own, "gen_ai.request.model", self.model.as_str());
        let count: usize = self.input.len();
        set_attribute(
            &mut own,
            "gen_ai.embeddings.input_count",
            AttributeValue::Int(
                #[verifier::truncate]
                (count as i64),
            ),
        );
        assert(attribute_views(own@) =~= seq![
            ("llm.request.type"@, ValueView::Text("embeddings"@)),
            ("gen_ai.request.model"@, ValueView::Text(self.model@)),
            ("gen_ai.embeddings.input_count"@, ValueView::Int(self.input.count() as i64)),
        ]);
        set_opt(&mut own, "gen_ai.embeddings.dimensions", count_attribute(self.dimensions));
        append_attributes(span, own);
    }
}

/// How many components the first vector has.
pub open spec fn dimension_value<F>(response: EmbeddingsResponse<F>) -> Option<ValueView> {
    if response.data@.len() > 0 {
        Some(ValueView::Int(response.data@[0].embedding@.len() as i64))
    } else {
        None
    }
}

impl<F> RecordSpan for EmbeddingsResponse<F> {
    open spec fn recorded(&self, trace: bool) -> Recorded {
        seq![
            ("gen_ai.response.model"@, ValueView::Text(self.model@)),
            ("gen_ai.embeddings.vector_count"@, ValueView::Int(self.data@.len() as i64)),
        ] + attribute_if("gen_ai.embeddings.dimension"@, dimension_value(*self))
            + self.usage.recorded(trace)
    }

    fn record_span(&self, span: &mut Vec<Attribute>, trace: bool) {
        let mut own: Vec<Attribute> = Vec::new();
        set_text(&mut own, "gen_ai.response.model", self.model.as_str());
        let count: usize = self.data.len();
        set_attribute(
            &mut own,
            "gen_ai.embeddings.vector_count",
            AttributeValue::Int(
                #[verifier::truncate]
                (count as i64),
            ),
        );
        assert(attribute_views(own@) =~= seq![
            ("gen_ai.response.model"@, ValueView::Text(self.model@)),
            ("gen_ai.embeddings.vector_count"@, ValueView::Int(self.data@.len() as i64)),
        ]);
        let dimension = match self.dimension() {
            Some(n) => Some(
                AttributeValue::Int(
                    #[verifier::truncate]
                    (n as i64),
                ),
            ),
            None => None,
        };
        set_opt(&mut own, "gen_ai.embeddings.dimension", dimension);
        self.usage.record_span(&mut own, trace);
        append_attributes(span, own);
    }
}

/// What a message says: a text, or anything else.
pub enum SaidView {
    Text(Seq<char>),
    Other(Option<ChatMessageContent>),
}

/// What a message says.
pub open spec fn said(content: Option<ChatMessageContent>) -> SaidView {
    match content {
        Some(ChatMessageContent::String(text)) => SaidView::Text(text@),
        other => SaidView::Other(other),
    }
}

/// What a `ChatChoice` says.
pub struct ChoiceView {
    pub index: u32,
    pub role: Seq<char>,
    pub said: SaidView,
    pub name: Option<Seq<char>>,
    pub tool_calls: Option<Seq<ToolCall>>,
    pub tool_call_id: Option<Seq<char>>,
    pub refusal: Option<Seq<char>>,
    pub finish_reason: Option<Seq<char>>,
    pub logprobs: Option<JsonView>,
}

/// What a choice says.
pub open spec fn choice_view(choice: ChatChoice) -> ChoiceView {
    ChoiceView {
        index: choice.index,
        role: choice.message.role@,
        said: said(choice.message.content),
        name: opt_text(choice.message.name),
        tool_calls: calls_view(choice.message.tool_calls),
        tool_call_id: opt_text(choice.message.tool_call_id),
        refusal: opt_text(choice.message.refusal),
        finish_reason: opt_text(choice.finish_reason),
        logprobs: opt_json(choice.logprobs),
    }
}

/// What choices say.
pub open spec fn choice_views(choices: Seq<ChatChoice>) -> Seq<ChoiceView> {
    Seq::new(choices.len(), |i: int| choice_view(choices[i]))
}

/// A choice that a piece begins.
pub open spec fn begun(piece: ChatCompletionChunkChoice) -> ChoiceView {
    ChoiceView {
        index: piece.index,
        role: role_or_assistant(piece.delta.role),
        said: SaidView::Text(text_or_nothing(piece.delta.content)),
        name: None,
        tool_calls: calls_view(piece.delta.tool_calls),
        tool_call_id: None,
        refusal: opt_text(piece.delta.refusal),
        finish_reason: opt_text(piece.finish_reason),
        logprobs: opt_json(piece.logprobs),
    }
}

/// A choice after one more piece: its text and the reason for its end.
pub open spec fn continued(choice: ChoiceView, piece: ChatCompletionChunkChoice) -> ChoiceView {
    ChoiceView {
        said: match choice.said {
            SaidView::Text(text) => SaidView::Text(text + text_or_nothing(piece.delta.content)),
            other => other,
        },
        finish_reason: match piece.finish_reason {
            Some(reason) => Some(reason@),
            None => choice.finish_reason,
        },
        ..choice
    }
}

/// The choices after more pieces. A piece goes to the choice at its place, and where
/// there is none begins one at the end.
pub open spec fn logged(choices: Seq<ChoiceView>, pieces: Seq<ChatCompletionChunkChoice>) -> Seq<
    ChoiceView,
>
    decreases pieces.len(),
{
    if pieces.len() == 0 {
        choices
    } else {
        let before = logged(choices, pieces.drop_last());
        let piece = pieces.last();
        if piece.index < before.len() {
            before.update(piece.index as int, continued(before[piece.index as int], piece))
        } else {
            before.push(begun(piece))
        }
    }
}

/// Choices are never lost: those that were there stay in their places.
pub proof fn logged_choices_stay(choices: Seq<ChoiceView>, pieces: Seq<ChatCompletionChunkChoice>)
    ensures
        logged(choices, pieces).len() >= choices.len(),
        forall|i: int|
            0 <= i < choices.len() ==> {
                &&& (#[trigger] logged(choices, pieces)[i]).index == choices[i].index
                &&& logged(choices, pieces)[i].role == choices[i].role
                &&& logged(choices, pieces)[i].tool_calls == choices[i].tool_calls
            },
    decreases pieces.len(),
{
    if pieces.len() > 0 {
        logged_choices_stay(choices, pieces.drop_last());
    }
}

/// What is recorded of a call while it lasts.
#[derive(Debug)]
pub struct LlmSpan {
    pub name: String,
    pub attributes: Vec<Attribute>,
    /// What has come of a reply piece by piece.
    pub accumulated_completion: Option<ChatCompletion>,
}

/// Whether what has come of a reply is what was there and one more piece.
pub open spec fn completion_after(
    before: Option<ChatCompletion>,
    chunk: ChatCompletionChunk,
    after: Option<ChatCompletion>,
) -> bool {
    &&& after matches Some(now)
    &&& match before {
        Some(old) => {
            &&& now.id == old.id
            &&& now.object == old.object
            &&& now.created == old.created
            &&& now.model == old.model
            &&& now.system_fingerprint == old.system_fingerprint
            &&& choice_views(now.choices@) == logged(choice_views(old.choices@), chunk.choices@)
            &&& now.usage == (match chunk.usage {
                Some(usage) => usage,
                None => old.usage,
            })
        },
        None => {
            &&& now.id@ == chunk.id@
            &&& now.object is None
            &&& now.created is None
            &&& now.model@ == chunk.model@
            &&& opt_text(now.system_fingerprint) == opt_text(chunk.system_fingerprint)
            &&& choice_views(now.choices@) == logged(Seq::empty(), chunk.choices@)
            &&& now.usage == (match chunk.usage {
                Some(usage) => usage,
                None => no_usage(),
            })
        },
    }
}

/// What is recorded at the end of what has come of a reply.
pub open spec fn completion_recorded(completion: Option<ChatCompletion>, trace: bool) -> Recorded {
    match completion {
        Some(completion) => completion.recorded(trace),
        None => Seq::empty(),
    }
}

fn log_choice(choices: &mut Vec<ChatChoice>, piece: &ChatCompletionChunkChoice)
    ensures
        choice_views(final(choices)@) == (if piece.index < old(choices)@.len() {
            choice_views(old(choices)@).update(
                piece.index as int,
                continued(choice_views(old(choices)@)[piece.index as int], *piece),
            )
        } else {
            choice_views(old(choices)@).push(begun(*piece))
        }),
{
    let ghost before = choice_views(choices@);
    let place: usize = piece.index as usize;
    if place < choices.len() {
        let ChatChoice { index, message, finish_reason, logprobs } = choices.remove(place);
        let ChatMessage { role, content, name, tool_calls, tool_call_id, refusal } = message;
        let next_content = match content {
            Some(ChatMessageContent::String(text)) => match &piece.delta.content {
                Some(more) => Some(
                    ChatMessageContent::String(concat2(text.as_str(), more.as_str())),
                ),
                None => {
                    assert(text@ + Seq::<char>::empty() =~= text@);
                    Some(ChatMessageContent::String(text))
                },
            },
            other => other,
        };
        let next_reason = match &piece.finish_reason {
            Some(reason) => Some(reason.clone()),
            None => finish_reason,
        };
        let next = ChatChoice {
            index,
            message: ChatMessage {
                role,
                content: next_content,
                name,
                tool_calls,
                tool_call_id,
                refusal,
            },
            finish_reason: next_reason,
            logprobs,
        };
        choices.insert(place, next);
        assert(choice_views(choices@) =~= before.update(
            place as int,
            continued(before[place as int], *piece),
        ));
    } else {
        let logprobs = match &piece.logprobs {
            Some(json) => Some(json.duplicate()),
            None => None,
        };
        let next = ChatChoice {
            index: piece.index,
            message: ChatMessage {
                role: or_assistant(&piece.delta.role),
                content: Some(ChatMessageContent::String(or_nothing(&piece.delta.content))),
                name: None,
                tool_calls: copy_calls(&piece.delta.tool_calls),
                tool_call_id: None,
                refusal: copy_text(&piece.delta.refusal),
            },
            finish_reason: copy_text(&piece.finish_reason),
            logprobs,
        };
        choices.push(next);
        assert(choice_views(choices@) =~= before.push(choice_view(next)));
    }
}

impl LlmSpan {
    fn start(name: &str, provider_type: ProviderType) -> (r: Self)
        ensures
            r.name@ == name@,
            attribute_views(r.attributes@) == seq![
                ("gen_ai.system"@, ValueView::Text(vendor_name(provider_type))),
            ],
            r.accumulated_completion is None,
    {
        let mut span = LlmSpan {
            name: name.to_owned(),
            attributes: Vec::new(),
            accumulated_completion: None,
        };
        assert(attribute_views(span.attributes@) =~= Seq::empty());
        span.set_vendor(&provider_type);
        assert(attribute_views(span.attributes@) =~= seq![
            ("gen_ai.system"@, ValueView::Text(vendor_name(provider_type))),
        ]);
        span
    }

    /// Begins to record a conversation.
    pub fn start_chat_completion(
        request: &ChatCompletionRequest,
        provider_type: ProviderType,
        trace: bool,
    ) -> (r: Self)
        ensures
            r.name@ == "llm.chat_completion"@,
            attribute_views(r.attributes@) == seq![
                ("gen_ai.system"@, ValueView::Text(vendor_name(provider_type))),
            ] + request.recorded(trace),
            r.accumulated_completion is None,
    {
        let mut span = LlmSpan::start("llm.chat_completion", provider_type);
        request.record_span(&mut span.attributes, trace);
        span
    }

    /// Begins to record the completion of a prompt.
    pub fn start_completion(
        request: &CompletionRequest,
        provider_type: ProviderType,
        trace: bool,
    ) -> (r: Self)
        ensures
            r.name@ == "llm.completion"@,
            attribute_views(r.attributes@) == seq![
                ("gen_ai.system"@, ValueView::Text(vendor_name(provider_type))),
            ] + request.recorded(trace),
            r.accumulated_completion is None,
    {
        let mut span = LlmSpan::start("llm.completion", provider_type);
        request.record_span(&mut span.attributes, trace);
        span
    }

    /// Begins to record the embedding of texts.
    pub fn start_embeddings(
        request: &EmbeddingsRequest,
        provider_type: ProviderType,
        trace: bool,
    ) -> (r: Self)
        ensures
            r.name@ == "llm.embeddings"@,
            attribute_views(r.attributes@) == seq![
                ("gen_ai.system"@, ValueView::Text(vendor_name(provider_type))),
            ] + request.recorded(trace),
            r.accumulated_completion is None,
    {
        let mut span = LlmSpan::start("llm.embeddings", provider_type);
        request.record_span(&mut span.attributes, trace);
        span
    }

    /// Records whose model it is.
    pub fn set_vendor(&mut self, provider_type: &ProviderType)
        ensures
            final(self).name == old(self).name,
            attribute_views(final(self).attributes@) == attribute_views(old(self).attributes@).push(
                ("gen_ai.system"@, ValueView::Text(vendor_name(*provider_type))),
            ),
            final(self).accumulated_completion == old(self).accumulated_completion,
    {
        set_text(&mut self.attributes, "gen_ai.system", get_vendor_name(provider_type));
    }

    /// Takes in a piece of a reply.
    pub fn log_chunk(&mut self, chunk: &ChatCompletionChunk)
        ensures
            final(self).name == old(self).name,
            final(self).attributes == old(self).attributes,
            completion_after(
                old(self).accumulated_completion,
                *chunk,
                final(self).accumulated_completion,
            ),
    {
        let mut taken: Option<ChatCompletion> = None;
        core::mem::swap(&mut taken, &mut self.accumulated_completion);
        let mut completion = match taken {
            Some(completion) => completion,
            None => {
                let fresh = ChatCompletion {
                    id: chunk.id.clone(),
                    object: None,
                    created: None,
                    model: chunk.model.clone(),
                    choices: Vec::new(),
                    usage: usage_or_none(&chunk.usage),
                    system_fingerprint: copy_text(&chunk.system_fingerprint),
                };
                assert(choice_views(fresh.choices@) =~= Seq::empty());
                fresh
            },
        };
        let ghost start = completion;
        let ghost views = choice_views(completion.choices@);
        let mut i: usize = 0;
        proof {
            whole_prefix(chunk.choices@);
        }
        while i < chunk.choices.len()
            invariant
                i <= chunk.choices@.len(),
                completion.id == start.id,
                completion.object == start.object,
                completion.created == start.created,
                completion.model == start.model,
                completion.usage == start.usage,
                completion.system_fingerprint == start.system_fingerprint,
                choice_views(completion.choices@) == logged(
                    views,
                    chunk.choices@.subrange(0, i as int),
                ),
            decreases chunk.choices@.len() - i,
        {
            proof {
                prefix_next(chunk.choices@, i as int);
                assert(choice_views(completion.choices@).len() == completion.choices@.len());
            }
            log_choice(&mut completion.choices, &chunk.choices[i]);
            i = i + 1;
        }
        proof {
            whole_prefix(chunk.choices@);
        }
        if let Some(usage) = &chunk.usage {
            completion.usage = *usage;
        }
        self.accumulated_completion = Some(completion);
    }

    /// Records a reply.
    pub fn log_success<T: RecordSpan>(&mut self, response: &T, trace: bool)
        ensures
            final(self).name == old(self).name,
            attribute_views(final(self).attributes@) == attribute_views(old(self).attributes@)
                + response.recorded(trace),
            final(self).accumulated_completion == old(self).accumulated_completion,
    {
        response.record_span(&mut self.attributes, trace);
    }

    /// All that is recorded once the call is over: what has come of a reply piece by
    /// piece is recorded too.
    pub fn close(self, trace: bool) -> (r: Vec<Attribute>)
        ensures
            attribute_views(r@) == attribute_views(self.attributes@) + completion_recorded(
                self.accumulated_completion,
                trace,
            ),
    {
        let LlmSpan { name: _, attributes, accumulated_completion } = self;
        let mut out = attributes;
        let ghost before = attribute_views(out@);
        match &accumulated_completion {
            Some(completion) => completion.record_span(&mut out, trace),
            None => {
                assert(before + Seq::<(Seq<char>, ValueView)>::empty() =~= before);
            },
        }
        out
    }

    /// Ends the recording. What has come of a reply piece by piece is recorded before
    /// the end and once more at it.
    pub fn finish(self, trace: bool) -> (r: Vec<Attribute>)
        ensures
            attribute_views(r@) == attribute_views(self.attributes@) + completion_recorded(
                self.accumulated_completion,
                trace,
            ) + completion_recorded(self.accumulated_completion, trace),
    {
        let mut span = self;
        let ghost before = attribute_views(span.attributes@);
        match &span.accumulated_completion {
            Some(completion) => completion.record_span(&mut span.attributes, trace),
            None => {
                assert(before + Seq::<(Seq<char>, ValueView)>::empty() =~= before);
            },
        }
        span.close(trace)
    }
}

/// What is said is recorded only where the setting says `true`.
pub proof fn content_is_traced_only_on_request(setting: Option<Seq<char>>)
    ensures
        traces_content(setting) <==> setting is Some && setting->0 == "true"@,
{
}

/// Messages are recorded in their order under their places: who speaks, and what is said.
pub proof fn messages_are_recorded_in_order(messages: Seq<ChatMessage>, message: ChatMessage)
    ensures
        ({
            let at = decimal(messages.len());
            let before = all_message_attributes(messages);
            let all = all_message_attributes(messages.push(message));
            &&& message.content is None ==> all == before.push(
                ("gen_ai.prompt."@ + at + ".role"@, ValueView::Text(message.role@)),
            )
            &&& message.content matches Some(content) ==> all == before.push(
                ("gen_ai.prompt."@ + at + ".role"@, ValueView::Text(message.role@)),
            ).push(("gen_ai.prompt."@ + at + ".content"@, ValueView::Text(content_text(content))))
        }),
        message.content matches Some(ChatMessageContent::String(text)) ==> content_text(
            message.content->0,
        ) == text@,
{
    assert(messages.push(message).drop_last() =~= messages);
    let before = all_message_attributes(messages);
    let all = all_message_attributes(messages.push(message));
    if message.content is None {
        assert(all =~= before.push(all.last()));
    } else {
        assert(all =~= before.push(all[before.len() as int]).push(all.last()));
    }
}

/// Choices are recorded in their order under their numbers: who speaks, what is said, and
/// why it ended.
pub proof fn choices_are_recorded_in_order(choices: Seq<ChatChoice>, choice: ChatChoice)
    ensures
        ({
            let at = decimal(choice.index as nat);
            let before = all_choice_attributes(choices);
            let all = all_choice_attributes(choices.push(choice));
            let end = (
                "gen_ai.completion."@ + at + ".finish_reason"@,
                ValueView::Text(text_or_nothing(choice.finish_reason)),
            );
            &&& choice.message.content is None ==> all == before.push(end)
            &&& choice.message.content matches Some(content) ==> all == before.push(
                ("gen_ai.completion."@ + at + ".role"@, ValueView::Text(choice.message.role@)),
            ).push(
                ("gen_ai.completion."@ + at + ".content"@, ValueView::Text(content_text(content))),
            ).push(end)
        }),
{
    assert(choices.push(choice).drop_last() =~= choices);
    let before = all_choice_attributes(choices);
    let all = all_choice_attributes(choices.push(choice));
    if choice.message.content is None {
        assert(all =~= before.push(all.last()));
    } else {
        let n = before.len() as int;
        assert(all =~= before.push(all[n]).push(all[n + 1]).push(all.last()));
    }
}

/// Completions are recorded in their order under their numbers: the text, and why it
/// ended.
pub proof fn completions_are_recorded_in_order(
    choices: Seq<CompletionChoice>,
    choice: CompletionChoice,
)
    ensures
        ({
            let at = decimal(choice.index as nat);
            all_completion_attributes(choices.push(choice)) == all_completion_attributes(
                choices,
            ).push(("gen_ai.completion."@ + at + ".content"@, ValueView::Text(choice.text@))).push(
                (
                    "gen_ai.completion."@ + at + ".finish_reason"@,
                    ValueView::Text(text_or_nothing(choice.finish_reason)),
                ),
            )
        }),
{
    assert(choices.push(choice).drop_last() =~= choices);
    let before = all_completion_attributes(choices);
    let all = all_completion_attributes(choices.push(choice));
    assert(all =~= before.push(all[before.len() as int]).push(all.last()));
}

/// What a request asks for is recorded under the names that spans have for it, and what is
/// said only where it is wanted.
pub proof fn requests_are_recorded_under_their_names(
    request: ChatCompletionRequest,
    prompt: CompletionRequest,
    embedding: EmbeddingsRequest,
    trace: bool,
)
    ensures
        request.recorded(trace)[0] == ("llm.request.type"@, ValueView::Text("chat"@)),
        request.recorded(trace)[1] == (
            "gen_ai.request.model"@,
            ValueView::Text(request.model@),
        ),
        request.recorded(true) == request.recorded(false) + all_message_attributes(
            request.messages@,
        ),
        request.max_tokens is Some ==> request.recorded(trace)[2] == (
            "gen_ai.request.max_tokens"@,
            ValueView::Int(request.max_tokens->0 as i64),
        ),
        request.max_tokens is None && request.max_completion_tokens is Some ==> request.recorded(
            trace,
        )[2] == (
            "gen_ai.request.max_tokens"@,
            ValueView::Int(request.max_completion_tokens->0 as i64),
        ),
        request.temperature is Some ==> request.recorded(false).last() == (
            "gen_ai.request.temperature"@,
            ValueView::Number(request.temperature->0@),
        ),
        prompt.recorded(trace)[0] == ("llm.request.type"@, ValueView::Text("completion"@)),
        prompt.recorded(trace)[1] == ("gen_ai.request.model"@, ValueView::Text(prompt.model@)),
        prompt.recorded(true) == prompt.recorded(false).push(
            ("gen_ai.prompt"@, ValueView::Text(prompt.prompt@)),
        ),
        embedding.recorded(trace)[0] == ("llm.request.type"@, ValueView::Text("embeddings"@)),
        embedding.recorded(trace)[1] == (
            "gen_ai.request.model"@,
            ValueView::Text(embedding.model@),
        ),
        embedding.recorded(trace)[2] == (
            "gen_ai.embeddings.input_count"@,
            ValueView::Int(embedding.input.count() as i64),
        ),
{
    assert(request.recorded(false) + Seq::<(Seq<char>, ValueView)>::empty() =~= request.recorded(
        false,
    ));
    assert(request.recorded(true) =~= request.recorded(false) + all_message_attributes(
        request.messages@,
    ));
    assert(prompt.recorded(true) =~= prompt.recorded(false).push(prompt.recorded(true).last()));
}

/// What a reply took is recorded under the name of each count, and where it came from
/// before it.
pub proof fn replies_are_recorded_under_their_names(
    completion: ChatCompletion,
    usage: Usage,
    trace: bool,
)
    ensures
        completion.recorded(trace)[0] == (
            "gen_ai.response.model"@,
            ValueView::Text(completion.model@),
        ),
        completion.recorded(trace)[1] == ("gen_ai.response.id"@, ValueView::Text(completion.id@)),
        completion.recorded(trace)[2] == (
            "gen_ai.usage.input_tokens"@,
            ValueView::Int(completion.usage.prompt_tokens as i64),
        ),
        completion.recorded(trace)[3] == (
            "gen_ai.usage.output_tokens"@,
            ValueView::Int(completion.usage.completion_tokens as i64),
        ),
        completion.recorded(true) == completion.recorded(false) + all_choice_attributes(
            completion.choices@,
        ),
        usage.recorded(trace)[0] == (
            "gen_ai.usage.input_tokens"@,
            ValueView::Int(usage.prompt_tokens as i64),
        ),
        usage.recorded(trace)[1] == (
            "gen_ai.usage.output_tokens"@,
            ValueView::Int(usage.completion_tokens as i64),
        ),
        usage.completion_tokens_details is Some
            && usage.completion_tokens_details->0.reasoning_tokens is Some ==> usage.recorded(
            trace,
        )[2] == (
            "gen_ai.usage.reasoning_tokens"@,
            ValueView::Int(usage.completion_tokens_details->0.reasoning_tokens->0 as i64),
        ),
        usage.prompt_tokens_details is Some && usage.prompt_tokens_details->0.cached_tokens is Some
            ==> usage.recorded(trace).last() == (
            "gen_ai.usage.cached_tokens"@,
            ValueView::Int(usage.prompt_tokens_details->0.cached_tokens->0 as i64),
        ),
{
    assert(completion.recorded(true) =~= completion.recorded(false) + all_choice_attributes(
        completion.choices@,
    ));
}

/// A piece goes to the choice at its place: its text goes on at the end, the last reason
/// stands, and all other choices stay as they were. A piece for a place that is not there
/// begins a choice.
pub proof fn pieces_go_to_their_choice(
    choices: Seq<ChoiceView>,
    pieces: Seq<ChatCompletionChunkChoice>,
    piece: ChatCompletionChunkChoice,
    other: int,
)
    ensures
        ({
            let before = logged(choices, pieces);
            let after = logged(choices, pieces.push(piece));
            let at = piece.index as int;
            &&& at < before.len() ==> {
                &&& after.len() == before.len()
                &&& 0 <= other < before.len() && other != at ==> after[other] == before[other]
                &&& before[at].said is Text && piece.delta.content is Some ==> after[at].said
                    == SaidView::Text(before[at].said->Text_0 + piece.delta.content->0@)
                &&& before[at].said is Text && piece.delta.content is None ==> after[at].said
                    == before[at].said
                &&& piece.finish_reason matches Some(reason) ==> after[at].finish_reason == Some(
                    reason@,
                )
                &&& piece.finish_reason is None ==> after[at].finish_reason
                    == before[at].finish_reason
                &&& after[at].role == before[at].role
            }
            &&& at >= before.len() ==> {
                &&& after.len() == before.len() + 1
                &&& after.drop_last() == before
                &&& after.last().index == piece.index
                &&& piece.delta.content is Some ==> after.last().said == SaidView::Text(
                    piece.delta.content->0@,
                )
                &&& piece.delta.role is Some ==> after.last().role == piece.delta.role->0@
                &&& piece.delta.role is None ==> after.last().role == "assistant"@
                &&& after.last().finish_reason == opt_text(piece.finish_reason)
            }
        }),
{
    assert(pieces.push(piece).drop_last() =~= pieces);
    let before = logged(choices, pieces);
    let at = piece.index as int;
    if at < before.len() {
        if before[at].said is Text && piece.delta.content is None {
            assert(before[at].said->Text_0 + Seq::<char>::empty() =~= before[at].said->Text_0);
        }
    } else {
        assert(logged(choices, pieces.push(piece)).drop_last() =~= before);
    }
}

/// What has come of a reply keeps its origin; its choices grow by the piece's, and the last
/// counts stand.
pub proof fn replies_grow_piece_by_piece(
    old: ChatCompletion,
    chunk: ChatCompletionChunk,
    now: ChatCompletion,
)
    ensures
        completion_after(Some(old), chunk, Some(now)) ==> now.id == old.id && now.model == old.model
            && choice_views(now.choices@) == logged(choice_views(old.choices@), chunk.choices@) && (
        chunk.usage is Some ==> now.usage == chunk.usage->0) && (chunk.usage is None ==> now.usage
            == old.usage),
        completion_after(None, chunk, Some(now)) ==> now.id@ == chunk.id@ && now.model@
            == chunk.model@ && choice_views(now.choices@) == logged(Seq::empty(), chunk.choices@)
            && (chunk.usage is Some ==> now.usage == chunk.usage->0) && (chunk.usage is None
            ==> now.usage.total_tokens == 0),
        !completion_after(Some(old), chunk, None),
        completion_recorded(None, true).len() == 0,
        completion_recorded(Some(old), true) == old.recorded(true),
        completion_recorded(Some(old), false) == old.recorded(false),
{
}

/// How many components the first vector has is recorded, where there is one.
pub proof fn dimensions_are_recorded<F>(response: EmbeddingsResponse<F>, trace: bool)
    ensures
        response.data@.len() == 0 ==> dimension_value(response) is None,
        response.data@.len() > 0 ==> response.recorded(trace)[2] == (
            "gen_ai.embeddings.dimension"@,
            ValueView::Int(response.data@.first().embedding@.len() as i64),
        ),
        response.recorded(trace)[0] == (
            "gen_ai.response.model"@,
            ValueView::Text(response.model@),
        ),
        response.recorded(trace)[1] == (
            "gen_ai.embeddings.vector_count"@,
            ValueView::Int(response.data@.len() as i64),
        ),
        response.recorded(trace).last() == (
            "gen_ai.usage.input_tokens"@,
            ValueView::Int(response.usage.prompt_tokens as i64),
        ),
{
}

} // verus!
