//! Gemini's replies, whole and piece by piece.
use vstd::prelude::*;
use vstd::string::*;

use super::bedrock_response::reply_view;
use super::formats::{object_or_calls, object_reply, parse_object, response_object};
use super::interface::{
    call_views, chunk_views, push_chunk, some_calls, ChunkView, ContentBlockType, GenerateResponse,
    OutputView, ResponseFormat, ResponseView, StreamChunk, StreamOutput, TokenUsage, ToolCall,
    ToolCallView,
};
use super::text_block::{unstarted, BlockView, TextBlock};
use crate::error::{ErrorView, SdkError};
use crate::ids::new_uuid;
use crate::json::{
    count_json, count_view, field_if, field_views, json_text, json_views, no_fields, no_items,
    or_null, put, put_item, put_opt, put_text, text_json, text_or_null, text_view, Json, JsonView,
};
use crate::seqs::{flattened, flattened_next, prefix_next, whole_prefix};
use crate::text::{concat2, decimal, decimal_text, opt_text, texts, trim, trimmed};

verus! {

/// A part of a message: a text, a call, or what a call gave.
#[derive(Debug)]
pub struct GeminiPart {
    pub text: Option<String>,
    pub function_call: Option<GeminiFunctionCall>,
    pub function_response: Option<GeminiFunctionResponse>,
    pub thought_signature: Option<String>,
}

#[derive(Debug)]
pub struct GeminiFunctionCall {
    pub id: Option<String>,
    pub name: String,
    pub args: Json,
}

#[derive(Debug)]
pub struct GeminiFunctionResponse {
    pub name: String,
    pub response: Json,
    pub id: Option<String>,
}

#[derive(Debug)]
pub struct GeminiContentResponse {
    pub parts: Vec<GeminiPart>,
}

#[derive(Debug)]
pub struct GeminiCandidate {
    pub content: Option<GeminiContentResponse>,
    pub finish_reason: Option<String>,
}

/// The tokens of a request and of its reply; those served from a cache are among
/// the prompt's.
#[derive(Clone, Copy, Debug)]
pub struct GeminiUsageMetadata {
    pub prompt_token_count: Option<u32>,
    pub candidates_token_count: Option<u32>,
    pub total_token_count: Option<u32>,
    pub cached_content_token_count: Option<u32>,
}

/// A reply.
#[derive(Debug)]
pub struct GeminiResponse {
    pub candidates: Option<Vec<GeminiCandidate>>,
    pub usage_metadata: Option<GeminiUsageMetadata>,
}

/// A piece of a reply.
#[derive(Debug)]
pub struct GeminiStreamResponse {
    pub candidates: Option<Vec<GeminiCandidate>>,
    pub usage_metadata: Option<GeminiUsageMetadata>,
}

impl GeminiFunctionCall {
    pub open spec fn document(self) -> JsonView {
        JsonView::Object(
            field_if("id"@, text_view(self.id)) + seq![
                ("name"@, JsonView::String(self.name@)),
                ("args"@, self.args@),
            ],
        )
    }

    fn to_json(&self) -> (r: Json)
        ensures
            r@ == self.document(),
    {
        let mut fields = no_fields();
        put_opt(&mut fields, "id", text_json(&self.id));
        put_text(&mut fields, "name", self.name.as_str());
        put(&mut fields, "args", self.args.duplicate());
        assert(field_views(fields@) =~= self.document()->Object_0);
        Json::object(fields)
    }
}

impl GeminiFunctionResponse {
    pub open spec fn document(self) -> JsonView {
        JsonView::Object(
            seq![("name"@, JsonView::String(self.name@)), ("response"@, self.response@)]
                + field_if("id"@, text_view(self.id)),
        )
    }

    fn to_json(&self) -> (r: Json)
        ensures
            r@ == self.document(),
    {
        let mut fields = no_fields();
        put_text(&mut fields, "name", self.name.as_str());
        put(&mut fields, "response", self.response.duplicate());
        put_opt(&mut fields, "id", text_json(&self.id));
        assert(field_views(fields@) =~= self.document()->Object_0);
        Json::object(fields)
    }
}

/// The place of the signature that a call came with.
pub open spec fn signature_data(signature: Seq<char>) -> JsonView {
    JsonView::Object(
        seq![
            (
                "google"@,
                JsonView::Object(seq![("thought_signature"@, JsonView::String(signature))]),
            ),
        ],
    )
}

fn signature_json(signature: &str) -> (r: Json)
    ensures
        r@ == signature_data(signature@),
{
    let mut inner = no_fields();
    put_text(&mut inner, "thought_signature", signature);
    let ghost inner_view = field_views(inner@);
    let mut fields = no_fields();
    put(&mut fields, "google", Json::object(inner));
    proof {
        let wanted = signature_data(signature@)->Object_0;
        assert(inner_view =~= wanted[0].1->Object_0);
        assert(field_views(fields@) =~= wanted);
    }
    Json::object(fields)
}

impl GeminiPart {
    pub open spec fn document(self) -> JsonView {
        JsonView::Object(
            field_if("text"@, text_view(self.text)) + field_if(
                "functionCall"@,
                match self.function_call {
                    Some(call) => Some(call.document()),
                    None => None,
                },
            ) + field_if(
                "functionResponse"@,
                match self.function_response {
                    Some(response) => Some(response.document()),
                    None => None,
                },
            ) + field_if("thoughtSignature"@, text_view(self.thought_signature)),
        )
    }

    fn to_json(&self) -> (r: Json)
        ensures
            r@ == self.document(),
    {
        let call = match &self.function_call {
            Some(call) => Some(call.to_json()),
            None => None,
        };
        let response = match &self.function_response {
            Some(response) => Some(response.to_json()),
            None => None,
        };
        let mut fields = no_fields();
        put_opt(&mut fields, "text", text_json(&self.text));
        put_opt(&mut fields, "functionCall", call);
        put_opt(&mut fields, "functionResponse", response);
        put_opt(&mut fields, "thoughtSignature", text_json(&self.thought_signature));
        assert(field_views(fields@) =~= self.document()->Object_0);
        Json::object(fields)
    }

    /// The call of a part that makes one; without an id of its own it goes by its
    /// place among the calls.
    pub open spec fn call(self, index: nat) -> Option<ToolCallView> {
        match self.function_call {
            Some(call) => Some(
                ToolCallView {
                    id: match call.id {
                        Some(id) => id@,
                        None => "call_"@ + decimal(index),
                    },
                    name: call.name@,
                    arguments: json_text(call.args@),
                    provider_data: match self.thought_signature {
                        Some(signature) => Some(signature_data(signature@)),
                        None => None,
                    },
                },
            ),
            None => None,
        }
    }

    /// The call of a part that makes one.
    pub fn to_tool_call(&self, index: usize) -> (r: Option<ToolCall>)
        ensures
            match r {
                Some(call) => self.call(index as nat) == Some(call@),
                None => self.call(index as nat) is None,
            },
    {
        match &self.function_call {
            Some(call) => {
                let id = match &call.id {
                    Some(id) => id.clone(),
                    None => concat2("call_", decimal_text(index as u64).as_str()),
                };
                let provider_data = match &self.thought_signature {
                    Some(signature) => Some(signature_json(signature.as_str())),
                    None => None,
                };
                Some(
                    ToolCall {
                        id,
                        name: call.name.clone(),
                        arguments: call.args.to_text(),
                        provider_data,
                    },
                )
            },
            None => None,
        }
    }
}

/// Parts as documents.
pub open spec fn part_documents(parts: Seq<GeminiPart>) -> Seq<JsonView> {
    Seq::new(parts.len(), |i: int| parts[i].document())
}

impl GeminiCandidate {
    pub open spec fn document(self) -> JsonView {
        JsonView::Object(
            seq![
                (
                    "content"@,
                    match self.content {
                        Some(content) => JsonView::Object(
                            seq![("parts"@, JsonView::Array(part_documents(content.parts@)))],
                        ),
                        None => JsonView::Null,
                    },
                ),
                ("finishReason"@, or_null(text_view(self.finish_reason))),
            ],
        )
    }

    fn to_json(&self) -> (r: Json)
        ensures
            r@ == self.document(),
    {
        let content = match &self.content {
            Some(content) => {
                let mut parts = no_items();
                let ghost all = part_documents(content.parts@);
                let mut i: usize = 0;
                proof {
                    whole_prefix(all);
                }
                while i < content.parts.len()
                    invariant
                        i <= content.parts@.len(),
                        all == part_documents(content.parts@),
                        json_views(parts@) == all.subrange(0, i as int),
                    decreases content.parts@.len() - i,
                {
                    put_item(&mut parts, content.parts[i].to_json());
                    proof {
                        prefix_next(all, i as int);
                    }
                    i = i + 1;
                }
                proof {
                    whole_prefix(all);
                }
                let mut fields = no_fields();
                put(&mut fields, "parts", Json::array(parts));
                assert(field_views(fields@) =~= seq![("parts"@, JsonView::Array(all))]);
                Json::object(fields)
            },
            None => Json::Null,
        };
        let mut fields = no_fields();
        put(&mut fields, "content", content);
        put(&mut fields, "finishReason", text_or_null(&self.finish_reason));
        assert(field_views(fields@) =~= self.document()->Object_0);
        Json::object(fields)
    }

    /// The parts of a candidate.
    pub open spec fn parts(self) -> Seq<GeminiPart> {
        match self.content {
            Some(content) => content.parts@,
            None => Seq::empty(),
        }
    }
}

/// Candidates as documents.
pub open spec fn candidate_documents(candidates: Seq<GeminiCandidate>) -> Seq<JsonView> {
    Seq::new(candidates.len(), |i: int| candidates[i].document())
}

/// The counts as a document.
pub open spec fn usage_document(usage: GeminiUsageMetadata) -> JsonView {
    JsonView::Object(
        seq![
            ("promptTokenCount"@, count_view(usage.prompt_token_count)),
            ("candidatesTokenCount"@, count_view(usage.candidates_token_count)),
            ("totalTokenCount"@, count_view(usage.total_token_count)),
            ("cachedContentTokenCount"@, count_view(usage.cached_content_token_count)),
        ],
    )
}

/// What the counts make up.
pub open spec fn usage_view(usage: Option<GeminiUsageMetadata>) -> Option<TokenUsage> {
    match usage {
        Some(u) => Some(
            TokenUsage {
                prompt_tokens: u.prompt_token_count,
                completion_tokens: u.candidates_token_count,
                total_tokens: u.total_token_count,
                cached_tokens: u.cached_content_token_count,
                cache_creation_tokens: None,
            },
        ),
        None => None,
    }
}

fn usage_of(usage: Option<GeminiUsageMetadata>) -> (r: Option<TokenUsage>)
    ensures
        r == usage_view(usage),
{
    match usage {
        Some(u) => Some(
            TokenUsage {
                prompt_tokens: u.prompt_token_count,
                completion_tokens: u.candidates_token_count,
                total_tokens: u.total_token_count,
                cached_tokens: u.cached_content_token_count,
                cache_creation_tokens: None,
            },
        ),
        None => None,
    }
}

/// The texts of parts.
pub open spec fn part_texts(parts: Seq<GeminiPart>) -> Seq<Option<Seq<char>>> {
    Seq::new(parts.len(), |i: int| opt_text(parts[i].text))
}

/// The texts of parts, one after the other.
pub open spec fn parts_text(parts: Seq<GeminiPart>) -> Seq<char>
    decreases parts.len(),
{
    if parts.len() == 0 {
        Seq::empty()
    } else {
        match parts.last().text {
            Some(text) => parts_text(parts.drop_last()) + text@,
            None => parts_text(parts.drop_last()),
        }
    }
}

/// The calls so far, then those of the parts.
pub open spec fn with_part_calls(calls: Seq<ToolCallView>, parts: Seq<GeminiPart>) -> Seq<
    ToolCallView,
>
    decreases parts.len(),
{
    if parts.len() == 0 {
        calls
    } else {
        let before = with_part_calls(calls, parts.drop_last());
        match parts.last().call(before.len()) {
            Some(call) => before.push(call),
            None => before,
        }
    }
}

impl GeminiResponse {
    /// The reply as a document.
    pub open spec fn document(self) -> JsonView {
        JsonView::Object(
            seq![
                (
                    "candidates"@,
                    match self.candidates {
                        Some(candidates) => JsonView::Array(candidate_documents(candidates@)),
                        None => JsonView::Null,
                    },
                ),
                (
                    "usageMetadata"@,
                    match self.usage_metadata {
                        Some(usage) => usage_document(usage),
                        None => JsonView::Null,
                    },
                ),
            ],
        )
    }

    fn to_json(&self) -> (r: Json)
        ensures
            r@ == self.document(),
    {
        let candidates = match &self.candidates {
            Some(candidates) => {
                let mut items = no_items();
                let ghost all = candidate_documents(candidates@);
                let mut i: usize = 0;
                proof {
                    whole_prefix(all);
                }
                while i < candidates.len()
                    invariant
                        i <= candidates@.len(),
                        all == candidate_documents(candidates@),
                        json_views(items@) == all.subrange(0, i as int),
                    decreases candidates@.len() - i,
                {
                    put_item(&mut items, candidates[i].to_json());
                    proof {
                        prefix_next(all, i as int);
                    }
                    i = i + 1;
                }
                proof {
                    whole_prefix(all);
                }
                Json::array(items)
            },
            None => Json::Null,
        };
        let usage = match &self.usage_metadata {
            Some(usage) => {
                let mut fields = no_fields();
                put(&mut fields, "promptTokenCount", count_json(usage.prompt_token_count));
                put(&mut fields, "candidatesTokenCount", count_json(usage.candidates_token_count));
                put(&mut fields, "totalTokenCount", count_json(usage.total_token_count));
                put(
                    &mut fields,
                    "cachedContentTokenCount",
                    count_json(usage.cached_content_token_count),
                );
                assert(field_views(fields@) =~= usage_document(*usage)->Object_0);
                Json::object(fields)
            },
            None => Json::Null,
        };
        let mut fields = no_fields();
        put(&mut fields, "candidates", candidates);
        put(&mut fields, "usageMetadata", usage);
        assert(field_views(fields@) =~= self.document()->Object_0);
        Json::object(fields)
    }

    /// The candidate that counts.
    pub open spec fn first_candidate(self) -> Option<GeminiCandidate> {
        match self.candidates {
            Some(candidates) => if candidates@.len() > 0 {
                Some(candidates@[0])
            } else {
                None
            },
            None => None,
        }
    }

    /// The parts of the candidate that counts.
    pub open spec fn first_parts(self) -> Seq<GeminiPart> {
        match self.first_candidate() {
            Some(candidate) => candidate.parts(),
            None => Seq::empty(),
        }
    }

    /// The reply that this is, under an id.
    pub open spec fn answer(self, id: Seq<char>, model: Seq<char>, format: ResponseFormat) -> Result<
        ResponseView,
        ErrorView,
    > {
        let text = parts_text(self.first_parts());
        match object_reply(text, format) {
            Err(e) => Err(e),
            Ok(object) => Ok(
                ResponseView {
                    id,
                    model,
                    created: None,
                    text,
                    usage: usage_view(self.usage_metadata),
                    finish_reason: match self.first_candidate() {
                        Some(candidate) => opt_text(candidate.finish_reason),
                        None => None,
                    },
                    tool_calls: some_calls(with_part_calls(Seq::empty(), self.first_parts())),
                    object,
                    raw: Some(self.document()),
                    metadata: None,
                },
            ),
        }
    }

    /// The reply that this is, under an id.
    pub fn into_response_with_id(self, id: String, model: &str, response_format: &ResponseFormat) -> (r:
        Result<GenerateResponse, SdkError>)
        ensures
            reply_view(r) == self.answer(id@, model@, *response_format),
    {
        let raw = self.to_json();
        let mut text = String::new();
        let mut finish_reason: Option<String> = None;
        let mut tool_calls: Vec<ToolCall> = Vec::new();
        assert(call_views(tool_calls@) =~= Seq::empty());
        if let Some(candidates) = &self.candidates {
            if candidates.len() > 0 {
                let candidate = &candidates[0];
                finish_reason = match &candidate.finish_reason {
                    Some(reason) => Some(reason.clone()),
                    None => None,
                };
                if let Some(content) = &candidate.content {
                    let ghost all = content.parts@;
                    let mut i: usize = 0;
                    proof {
                        whole_prefix(all);
                    }
                    while i < content.parts.len()
                        invariant
                            i <= content.parts@.len(),
                            all == content.parts@,
                            text@ == parts_text(all.subrange(0, i as int)),
                            call_views(tool_calls@) == with_part_calls(
                                Seq::empty(),
                                all.subrange(0, i as int),
                            ),
                        decreases content.parts@.len() - i,
                    {
                        let part = &content.parts[i];
                        let ghost before = call_views(tool_calls@);
                        proof {
                            prefix_next(all, i as int);
                        }
                        if let Some(t) = &part.text {
                            text.append(t.as_str());
                        }
                        if let Some(call) = part.to_tool_call(tool_calls.len()) {
                            tool_calls.push(call);
                            assert(call_views(tool_calls@) =~= before.push(call@));
                        }
                        i = i + 1;
                    }
                    proof {
                        whole_prefix(all);
                    }
                }
            }
        }
        let object = match parse_object(text.as_str(), response_format) {
            Ok(object) => object,
            Err(e) => {
                return Err(e);
            },
        };
        Ok(
            GenerateResponse {
                id,
                model: model.to_owned(),
                created: None,
                text,
                usage: usage_of(self.usage_metadata),
                finish_reason,
                tool_calls: if tool_calls.len() == 0 {
                    None
                } else {
                    Some(tool_calls)
                },
                object,
                raw: Some(raw),
                metadata: None,
            },
        )
    }

    /// The reply that this is, under an id drawn at random.
    pub fn into_generate_response(self, model: &str, response_format: &ResponseFormat) -> (r: Result<
        GenerateResponse,
        SdkError,
    >)
        ensures
            exists|id: Seq<char>|
                #![trigger self.answer(id, model@, *response_format)]
                id.len() == 36 && reply_view(r) == self.answer(id, model@, *response_format),
    {
        let id = new_uuid();
        self.into_response_with_id(id, model, response_format)
    }
}

/// A reply of which some pieces have come.
#[derive(Debug)]
pub struct PartialResponse {
    pub model: String,
    pub usage: Option<GeminiUsageMetadata>,
    pub finish_reason: Option<String>,
    pub tool_calls: Vec<ToolCall>,
}

/// What a `PartialResponse` stands for.
pub struct PartialView {
    pub model: Seq<char>,
    pub usage: Option<GeminiUsageMetadata>,
    pub finish_reason: Option<Seq<char>>,
    pub calls: Seq<ToolCallView>,
}

impl View for PartialResponse {
    type V = PartialView;

    open spec fn view(&self) -> PartialView {
        PartialView {
            model: self.model@,
            usage: self.usage,
            finish_reason: opt_text(self.finish_reason),
            calls: call_views(self.tool_calls@),
        }
    }
}

/// The candidates of a piece.
pub open spec fn candidates_of(response: GeminiStreamResponse) -> Seq<GeminiCandidate> {
    match response.candidates {
        Some(candidates) => candidates@,
        None => Seq::empty(),
    }
}

/// The texts of candidates.
pub open spec fn candidate_texts(candidates: Seq<GeminiCandidate>) -> Seq<Seq<char>>
    decreases candidates.len(),
{
    if candidates.len() == 0 {
        Seq::empty()
    } else {
        candidate_texts(candidates.drop_last()) + flattened(part_texts(candidates.last().parts()))
    }
}

impl PartialView {
    /// One candidate of a piece.
    pub open spec fn with_candidate(self, candidate: GeminiCandidate) -> PartialView {
        PartialView {
            finish_reason: match candidate.finish_reason {
                Some(reason) => Some(reason@),
                None => self.finish_reason,
            },
            calls: with_part_calls(self.calls, candidate.parts()),
            ..self
        }
    }

    /// The candidates of a piece.
    pub open spec fn with_candidates(self, candidates: Seq<GeminiCandidate>) -> PartialView
        decreases candidates.len(),
    {
        if candidates.len() == 0 {
            self
        } else {
            self.with_candidates(candidates.drop_last()).with_candidate(candidates.last())
        }
    }

    /// A piece of the reply.
    pub open spec fn with_piece(self, response: GeminiStreamResponse) -> PartialView {
        PartialView {
            usage: match response.usage_metadata {
                Some(_) => response.usage_metadata,
                None => self.usage,
            },
            ..self
        }.with_candidates(candidates_of(response))
    }

    /// The reply that the pieces make up. Where a document is asked for, there need
    /// not be one without a text.
    pub open spec fn answer(self, id: Seq<char>, text: Seq<char>, format: ResponseFormat) -> Result<
        ResponseView,
        ErrorView,
    > {
        match object_or_calls(text, format, true) {
            Err(e) => Err(e),
            Ok(object) => Ok(
                ResponseView {
                    id,
                    model: self.model,
                    created: None,
                    text,
                    usage: usage_view(self.usage),
                    finish_reason: self.finish_reason,
                    tool_calls: some_calls(self.calls),
                    object,
                    raw: None,
                    metadata: None,
                },
            ),
        }
    }
}

impl PartialResponse {
    pub fn new(model: String) -> (r: Self)
        ensures
            r@ == (PartialView {
                model: model@,
                usage: None,
                finish_reason: None,
                calls: Seq::empty(),
            }),
    {
        let r = PartialResponse { model, usage: None, finish_reason: None, tool_calls: Vec::new() };
        assert(call_views(r.tool_calls@) =~= Seq::empty());
        r
    }

    fn absorb_parts(&mut self, parts: &Vec<GeminiPart>, out: &mut Vec<String>)
        ensures
            final(self)@ == (PartialView {
                calls: with_part_calls(old(self)@.calls, parts@),
                ..old(self)@
            }),
            texts(final(out)@) == texts(old(out)@) + flattened(part_texts(parts@)),
    {
        let ghost all_texts = part_texts(parts@);
        let ghost before_texts = texts(out@);
        let ghost before_calls = call_views(self.tool_calls@);
        let mut i: usize = 0;
        proof {
            whole_prefix(parts@);
            whole_prefix(all_texts);
            assert(before_texts + flattened(all_texts.subrange(0, 0)) =~= before_texts);
        }
        while i < parts.len()
            invariant
                i <= parts@.len(),
                all_texts == part_texts(parts@),
                texts(out@) == before_texts + flattened(all_texts.subrange(0, i as int)),
                self@ == (PartialView {
                    calls: with_part_calls(before_calls, parts@.subrange(0, i as int)),
                    ..old(self)@
                }),
            decreases parts@.len() - i,
        {
            let ghost now = call_views(self.tool_calls@);
            let part = &parts[i];
            proof {
                prefix_next(parts@, i as int);
                flattened_next(all_texts, i as int);
            }
            if let Some(call) = part.to_tool_call(self.tool_calls.len()) {
                self.tool_calls.push(call);
                assert(call_views(self.tool_calls@) =~= now.push(call@));
            }
            if let Some(text) = &part.text {
                let ghost said = texts(out@);
                out.push(text.clone());
                assert(texts(out@) =~= said.push(text@));
                assert(texts(out@) =~= before_texts + flattened(all_texts.subrange(0, i + 1)));
            }
            i = i + 1;
        }
        proof {
            whole_prefix(parts@);
            whole_prefix(all_texts);
        }
    }

    /// Takes in a piece and gives the texts that it brings.
    pub fn absorb(&mut self, response: &GeminiStreamResponse) -> (r: Vec<String>)
        ensures
            final(self)@ == old(self)@.with_piece(*response),
            texts(r@) == candidate_texts(candidates_of(*response)),
    {
        if response.usage_metadata.is_some() {
            self.usage = response.usage_metadata;
        }
        let mut out: Vec<String> = Vec::new();
        assert(texts(out@) =~= Seq::empty());
        let ghost start = self@;
        if let Some(candidates) = &response.candidates {
            let ghost all = candidates@;
            let mut i: usize = 0;
            proof {
                whole_prefix(all);
            }
            while i < candidates.len()
                invariant
                    i <= candidates@.len(),
                    all == candidates@,
                    self@ == start.with_candidates(all.subrange(0, i as int)),
                    texts(out@) == candidate_texts(all.subrange(0, i as int)),
                decreases candidates@.len() - i,
            {
                let candidate = &candidates[i];
                proof {
                    prefix_next(all, i as int);
                    whole_prefix(Seq::<GeminiPart>::empty());
                    assert(part_texts(Seq::empty()) =~= Seq::empty());
                    assert(texts(out@) + flattened(part_texts(Seq::empty())) =~= texts(out@));
                }
                if let Some(reason) = &candidate.finish_reason {
                    self.finish_reason = Some(reason.clone());
                }
                if let Some(content) = &candidate.content {
                    self.absorb_parts(&content.parts, &mut out);
                }
                i = i + 1;
            }
            proof {
                whole_prefix(all);
            }
        }
        out
    }

    /// The reply that the pieces make up, under an id.
    pub fn into_response_with_id(
        self,
        id: String,
        text: String,
        response_format: &ResponseFormat,
    ) -> (r: Result<GenerateResponse, SdkError>)
        ensures
            reply_view(r) == self@.answer(id@, text@, *response_format),
    {
        let object = match response_object(text.as_str(), response_format, true) {
            Ok(object) => object,
            Err(e) => {
                return Err(e);
            },
        };
        Ok(
            GenerateResponse {
                id,
                model: self.model,
                created: None,
                text,
                usage: usage_of(self.usage),
                finish_reason: self.finish_reason,
                tool_calls: if self.tool_calls.len() == 0 {
                    None
                } else {
                    Some(self.tool_calls)
                },
                object,
                raw: None,
                metadata: None,
            },
        )
    }
}

/// A stream that is being read.
#[derive(Debug)]
pub struct GoogleStream {
    pub format: ResponseFormat,
    pub partial: PartialResponse,
    pub block: TextBlock,
}

/// What the data of a stream is: nothing, or an event to be read.
pub fn event_text(data: &str) -> (r: Option<String>)
    ensures
        opt_text(r) == (if trimmed(data@).len() == 0 {
            None
        } else {
            Some(trimmed(data@))
        }),
{
    let body = trim(data);
    if body.as_str().is_empty() {
        None
    } else {
        Some(body)
    }
}

/// The error for an event that cannot be read.
pub fn unreadable_event(reason: &str) -> (r: SdkError)
    ensures
        r@ == ErrorView::Other("failed to parse Google stream event: "@ + reason@),
{
    SdkError::Other(concat2("failed to parse Google stream event: ", reason))
}

/// What the end of a stream brings, under an id.
pub open spec fn ending(
    partial: PartialView,
    block: BlockView,
    id: Seq<char>,
    format: ResponseFormat,
) -> OutputView {
    match partial.answer(id, block.aggregate, format) {
        Ok(response) => OutputView {
            chunks: block.stop().push(ChunkView::Completed(response)),
            failure: None,
        },
        Err(e) => OutputView { chunks: block.stop(), failure: Some(e) },
    }
}

impl GoogleStream {
    pub fn new(model: String, format: ResponseFormat) -> (r: Self)
        ensures
            r.format == format,
            r.partial@ == (PartialView {
                model: model@,
                usage: None,
                finish_reason: None,
                calls: Seq::empty(),
            }),
            r.block@ == unstarted(0, ContentBlockType::Text),
    {
        GoogleStream {
            format,
            partial: PartialResponse::new(model),
            block: TextBlock::new(0, ContentBlockType::Text),
        }
    }

    /// Takes in an event and hands on the texts that it brings.
    pub fn on_event(&mut self, response: &GeminiStreamResponse) -> (r: StreamOutput)
        ensures
            final(self).format == old(self).format,
            final(self).partial@ == old(self).partial@.with_piece(*response),
            old(self).block@.with_texts(candidate_texts(candidates_of(*response))) == (
                final(self).block@,
                r@.chunks,
            ),
            r@.failure is None,
    {
        let mut chunks: Vec<StreamChunk> = Vec::new();
        assert(chunk_views(chunks@) =~= Seq::empty());
        let parts = self.partial.absorb(response);
        let ghost brought = self.block@.with_texts(texts(parts@)).1;
        self.block.emit_all(&parts, &mut chunks);
        assert(chunk_views(chunks@) =~= brought);
        StreamOutput { chunks, failure: None }
    }

    /// Ends the stream, under an id.
    pub fn finish_with_id(self, id: String) -> (r: StreamOutput)
        ensures
            r@ == ending(self.partial@, self.block@, id@, self.format),
    {
        let mut chunks: Vec<StreamChunk> = Vec::new();
        assert(chunk_views(chunks@) =~= Seq::empty());
        self.block.close(&mut chunks);
        assert(chunk_views(chunks@) =~= self.block@.stop());
        match self.partial.into_response_with_id(id, self.block.aggregate, &self.format) {
            Ok(response) => {
                push_chunk(&mut chunks, StreamChunk::Completed(response));
                StreamOutput { chunks, failure: None }
            },
            Err(e) => StreamOutput { chunks, failure: Some(e) },
        }
    }

    /// Ends the stream, under an id drawn at random.
    pub fn finish(self) -> (r: StreamOutput)
        ensures
            exists|id: Seq<char>|
                #![trigger ending(self.partial@, self.block@, id, self.format)]
                id.len() == 36 && r@ == ending(self.partial@, self.block@, id, self.format),
    {
        let id = new_uuid();
        self.finish_with_id(id)
    }
}

/// The signature that a call came with is found again when the call is told back.
pub proof fn signatures_survive(part: GeminiPart, index: nat, call: ToolCall)
    requires
        part.call(index) == Some(call@),
    ensures
        super::google::signature_of(call) == opt_text(part.thought_signature),
{
    match part.thought_signature {
        Some(signature) => {
            reveal_with_fuel(crate::json::last_field, 2);
            let data = signature_data(signature@);
            assert(data->Object_0.last().0 == "google"@);
            assert(data.field("google"@) == Some(data->Object_0[0].1));
        },
        None => {},
    }
}

/// A part that calls a function makes a call under its id, or under its place among the
/// calls, with its name, its arguments and the signature that came with it.
pub proof fn parts_make_their_calls(part: GeminiPart, index: nat)
    ensures
        part.function_call is None ==> part.call(index) is None,
        part.function_call matches Some(call) ==> {
            &&& part.call(index) is Some
            &&& part.call(index)->0.name == call.name@
            &&& part.call(index)->0.arguments == json_text(call.args@)
            &&& call.id is Some ==> part.call(index)->0.id == call.id->0@
            &&& call.id is None ==> part.call(index)->0.id == "call_"@ + decimal(index)
            &&& part.thought_signature is None ==> part.call(index)->0.provider_data is None
            &&& part.thought_signature is Some ==> part.call(
                index,
            )->0.provider_data->0.field("google"@)->0.field_text("thought_signature"@) == Some(
                part.thought_signature->0@,
            )
        },
{
    broadcast use crate::json::group_fields;

    if part.thought_signature is Some {
        let data = signature_data(part.thought_signature->0@);
        assert(data.field("google"@) is Some);
        assert(data.field("google"@)->0.field("thought_signature"@) is Some);
    }
}

/// The text and the calls of a reply are those of its parts, in their order.
pub proof fn replies_are_gathered_in_order(
    parts: Seq<GeminiPart>,
    part: GeminiPart,
    calls: Seq<ToolCallView>,
    candidates: Seq<GeminiCandidate>,
    candidate: GeminiCandidate,
)
    ensures
        part.text matches Some(text) ==> parts_text(parts.push(part)) == parts_text(parts) + text@
            && flattened(part_texts(parts.push(part))) == flattened(part_texts(parts)).push(text@),
        part.text is None ==> parts_text(parts.push(part)) == parts_text(parts) && flattened(
            part_texts(parts.push(part)),
        ) == flattened(part_texts(parts)),
        part.function_call is None ==> with_part_calls(calls, parts.push(part)) == with_part_calls(
            calls,
            parts,
        ),
        part.function_call is Some ==> with_part_calls(calls, parts.push(part)) == with_part_calls(
            calls,
            parts,
        ).push(part.call(with_part_calls(calls, parts).len())->0),
        with_part_calls(calls, Seq::empty()) == calls,
        parts_text(Seq::empty()).len() == 0,
        candidate.content matches Some(content) ==> candidate_texts(candidates.push(candidate))
            == candidate_texts(candidates) + flattened(part_texts(content.parts@)),
        candidate.content is None ==> candidate_texts(candidates.push(candidate))
            == candidate_texts(candidates),
{
    assert(parts.push(part).drop_last() =~= parts);
    assert(part_texts(parts.push(part)).drop_last() =~= part_texts(parts));
    assert(candidates.push(candidate).drop_last() =~= candidates);
    if candidate.content is None {
        assert(part_texts(candidate.parts()) =~= Seq::empty());
        assert(flattened(part_texts(candidate.parts())) =~= Seq::empty());
        assert(candidate_texts(candidates) + Seq::<Seq<char>>::empty() =~= candidate_texts(
            candidates,
        ));
    }
}

/// The first candidate is the reply; the counts are told as they came.
pub proof fn the_first_candidate_is_the_reply(
    response: GeminiResponse,
    id: Seq<char>,
    model: Seq<char>,
    format: ResponseFormat,
)
    ensures
        format is Text ==> response.answer(id, model, format) is Ok,
        response.answer(id, model, format) matches Ok(reply) ==> {
            &&& reply.id == id && reply.model == model
            &&& reply.raw == Some(response.document())
            &&& response.usage_metadata is None ==> reply.usage is None
            &&& response.usage_metadata matches Some(u) ==> {
                &&& reply.usage is Some
                &&& reply.usage->0.prompt_tokens == u.prompt_token_count
                &&& reply.usage->0.completion_tokens == u.candidates_token_count
                &&& reply.usage->0.total_tokens == u.total_token_count
                &&& reply.usage->0.cached_tokens == u.cached_content_token_count
                &&& reply.usage->0.cache_creation_tokens is None
            }
            &&& response.candidates is None ==> reply.text.len() == 0 && reply.tool_calls is None
                && reply.finish_reason is None
            &&& response.candidates is Some && response.candidates->0@.len() > 0 ==> {
                let first = response.candidates->0@.first();
                &&& reply.finish_reason == opt_text(first.finish_reason)
                &&& first.content matches Some(content) ==> reply.text == parts_text(
                    content.parts@,
                ) && reply.tool_calls == some_calls(with_part_calls(Seq::empty(), content.parts@))
                &&& first.content is None ==> reply.text.len() == 0 && reply.tool_calls is None
            }
        },
{
}

/// Pieces of a reply come together in their order: the last reason and the last counts
/// stand, and calls go on behind those that came before.
pub proof fn pieces_make_up_the_reply(
    partial: PartialView,
    response: GeminiStreamResponse,
    candidates: Seq<GeminiCandidate>,
    candidate: GeminiCandidate,
)
    ensures
        ({
            let after = partial.with_candidate(candidate);
            &&& candidate.finish_reason matches Some(reason) ==> after.finish_reason == Some(
                reason@,
            )
            &&& candidate.finish_reason is None ==> after.finish_reason == partial.finish_reason
            &&& candidate.content matches Some(content) ==> after.calls == with_part_calls(
                partial.calls,
                content.parts@,
            )
            &&& candidate.content is None ==> after.calls == partial.calls
            &&& after.model == partial.model && after.usage == partial.usage
        }),
        partial.with_candidates(candidates.push(candidate)) == partial.with_candidates(
            candidates,
        ).with_candidate(candidate),
        partial.with_candidates(Seq::empty()) == partial,
        response.usage_metadata is Some && response.candidates is Some ==> partial.with_piece(
            response,
        ) == (PartialView { usage: response.usage_metadata, ..partial }).with_candidates(
            response.candidates->0@,
        ),
        response.usage_metadata is None && response.candidates is Some ==> partial.with_piece(
            response,
        ) == partial.with_candidates(response.candidates->0@),
        response.usage_metadata is Some && response.candidates is None ==> partial.with_piece(
            response,
        ) == (PartialView { usage: response.usage_metadata, ..partial }),
{
    assert(candidates.push(candidate).drop_last() =~= candidates);
}

/// The end brings the end of the block and the reply, whose text is what was handed on.
pub proof fn the_end_brings_what_was_gathered(
    partial: PartialView,
    block: BlockView,
    id: Seq<char>,
    format: ResponseFormat,
)
    ensures
        ({
            let end = ending(partial, block, id, format);
            let reply = end.chunks.last()->Completed_0;
            let object = super::formats::object_or_calls(block.aggregate, format, true);
            &&& object is Ok ==> {
                &&& end.failure is None
                &&& end.chunks == block.stop().push(ChunkView::Completed(reply))
                &&& reply.text == block.aggregate && reply.id == id && reply.model == partial.model
                &&& reply.finish_reason == partial.finish_reason
                &&& reply.usage == usage_view(partial.usage)
                &&& reply.object == object->Ok_0
                &&& partial.calls.len() > 0 ==> reply.tool_calls == Some(partial.calls)
                &&& partial.calls.len() == 0 ==> reply.tool_calls is None
            }
            &&& object is Err ==> end.failure == Some(object->Err_0) && end.chunks == block.stop()
        }),
{
}

/// What Gemini said is kept as it came: candidates and their parts in their order, and the
/// counts.
pub proof fn documents_tell_the_reply(response: GeminiResponse, i: int, part: GeminiPart)
    ensures
        ({
            let told = response.document();
            &&& response.candidates is None ==> told.field("candidates"@) == Some(JsonView::Null)
            &&& response.usage_metadata is None ==> told.field("usageMetadata"@) == Some(
                JsonView::Null,
            )
            &&& response.candidates is Some ==> ({
                let all = response.candidates->0@;
                let items = told.field("candidates"@)->0.items()->0;
                &&& items.len() == all.len()
                &&& 0 <= i < all.len() ==> {
                    &&& all[i].content is None ==> items[i].field("content"@) == Some(
                        JsonView::Null,
                    )
                    &&& all[i].content is Some ==> items[i].field("content"@)->0.field(
                        "parts"@,
                    )->0.items() == Some(part_documents(all[i].content->0.parts@))
                    &&& all[i].finish_reason is Some ==> items[i].field_text("finishReason"@)
                        == Some(all[i].finish_reason->0@)
                }
            })
            &&& response.usage_metadata matches Some(u) ==> ({
                let counts = told.field("usageMetadata"@)->0;
                &&& counts.field("promptTokenCount"@) == Some(count_view(u.prompt_token_count))
                &&& counts.field("candidatesTokenCount"@) == Some(
                    count_view(u.candidates_token_count),
                )
                &&& counts.field("totalTokenCount"@) == Some(count_view(u.total_token_count))
                &&& counts.field("cachedContentTokenCount"@) == Some(
                    count_view(u.cached_content_token_count),
                )
            })
        }),
        ({
            let told = part.document();
            &&& told.field("text"@) == text_view(part.text)
            &&& told.field("thoughtSignature"@) == text_view(part.thought_signature)
            &&& part.function_call is None ==> told.field("functionCall"@) is None
            &&& part.function_call matches Some(call) ==> {
                &&& told.field("functionCall"@)->0.field("id"@) == text_view(call.id)
                &&& told.field("functionCall"@)->0.field_text("name"@) == Some(call.name@)
                &&& told.field("functionCall"@)->0.field("args"@) == Some(call.args@)
            }
            &&& part.function_response is None ==> told.field("functionResponse"@) is None
            &&& part.function_response matches Some(r) ==> {
                &&& told.field("functionResponse"@)->0.field("id"@) == text_view(r.id)
                &&& told.field("functionResponse"@)->0.field_text("name"@) == Some(r.name@)
                &&& told.field("functionResponse"@)->0.field("response"@) == Some(r.response@)
            }
        }),
{
    broadcast use crate::json::group_fields;

    reveal_with_fuel(crate::json::last_field, 5);
    reveal_strlit("candidates");
    reveal_strlit("usageMetadata");
    reveal_strlit("content");
    reveal_strlit("finishReason");
    reveal_strlit("parts");
    reveal_strlit("promptTokenCount");
    reveal_strlit("candidatesTokenCount");
    reveal_strlit("totalTokenCount");
    reveal_strlit("cachedContentTokenCount");
    reveal_strlit("text");
    reveal_strlit("functionCall");
    reveal_strlit("functionResponse");
    reveal_strlit("thoughtSignature");
    reveal_strlit("id");
    reveal_strlit("name");
    reveal_strlit("args");
    reveal_strlit("response");
    assert("candidates"@.len() == 10
        && "usageMetadata"@.len() == 13
        && "content"@.len() == 7
        && "finishReason"@.len() == 12
        && "parts"@.len() == 5
        && "promptTokenCount"@.len() == 16
        && "candidatesTokenCount"@.len() == 20
        && "totalTokenCount"@.len() == 15
        && "cachedContentTokenCount"@.len() == 23
        && "text"@.len() == 4
        && "functionCall"@.len() == 12
        && "functionResponse"@.len() == 16
        && "thoughtSignature"@.len() == 16
        && "id"@.len() == 2
        && "name"@.len() == 4
        && "args"@.len() == 4
        && "response"@.len() == 8
        && "finishReason"@[1] == 'i'
        && "functionCall"@[1] == 'u'
        && "promptTokenCount"@[0] == 'p'
        && "functionResponse"@[0] == 'f'
        && "thoughtSignature"@[0] == 't'
        && "text"@[0] == 't'
        && "name"@[0] == 'n'
        && "args"@[0] == 'a');
    let told = response.document();
    assert(told.field("candidates"@) is Some && told.field("usageMetadata"@) is Some);
    if response.candidates is Some && 0 <= i < response.candidates->0@.len() {
        let c = response.candidates->0@[i];
        assert(told.field("candidates"@)->0.items()->0[i] == c.document());
        assert(c.document().field("content"@) is Some);
    }
    if part.function_call is Some {
        assert(part.document().field("functionCall"@) == Some(part.function_call->0.document()));
    }
    if part.function_response is Some {
        assert(part.document().field("functionResponse"@) == Some(
            part.function_response->0.document(),
        ));
    }
}

} // verus!
