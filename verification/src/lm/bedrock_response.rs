//! Replies of the models behind Amazon Bedrock, whole and piece by piece.
use vstd::prelude::*;
use vstd::string::*;

use super::bedrock::{
    is_chat_model, is_cohere_command_r, is_command_r, is_mistral_chat, BedrockModelFamily,
};
use super::formats::{object_or_calls, response_object};
use super::interface::{
    call_views, some_calls, GenerateResponse, ResponseFormat, ResponseView, TokenUsage, ToolCall,
    ToolCallView,
};
use crate::error::{other_error, ErrorView, SdkError};
use crate::json::{json_text, Json};
use crate::seqs::{flattened, flattened_next, whole_prefix};
use crate::text::{concat2, join, joined, opt_text, str_eq, texts};

verus! {

/// A reply of an Anthropic model.
#[derive(Debug)]
pub struct BedrockAnthropicResponse {
    pub id: Option<String>,
    pub model: Option<String>,
    pub stop_reason: Option<String>,
    pub usage: Option<BedrockUsage>,
    pub content: Vec<BedrockContentBlock>,
}

/// A block of an Anthropic model's reply.
#[derive(Debug)]
pub struct BedrockContentBlock {
    pub block_type: String,
    pub text: Option<String>,
    pub id: Option<String>,
    pub name: Option<String>,
    pub input: Option<Json>,
}

/// The tokens of an Anthropic model's reply; those read from and written to a cache
/// are not among the input's.
#[derive(Clone, Copy, Debug)]
pub struct BedrockUsage {
    pub input_tokens: Option<u32>,
    pub output_tokens: Option<u32>,
    pub cache_creation_input_tokens: Option<u32>,
    pub cache_read_input_tokens: Option<u32>,
}

#[derive(Debug)]
pub struct MetaLlamaResponse {
    pub generation: String,
    pub prompt_token_count: Option<u32>,
    pub generation_token_count: Option<u32>,
    pub stop_reason: Option<String>,
}

#[derive(Debug)]
pub struct AmazonTitanResponse {
    pub input_text_token_count: Option<u32>,
    pub results: Vec<AmazonTitanResult>,
}

#[derive(Debug)]
pub struct AmazonTitanResult {
    pub token_count: Option<u32>,
    pub output_text: String,
    pub completion_reason: Option<String>,
}

#[derive(Debug)]
pub struct CohereResponse {
    pub id: Option<String>,
    pub generations: Vec<CohereGeneration>,
}

#[derive(Debug)]
pub struct CohereGeneration {
    pub id: Option<String>,
    pub text: String,
    pub finish_reason: Option<String>,
}

#[derive(Debug)]
pub struct CohereCommandRResponse {
    pub response_id: Option<String>,
    pub generation_id: Option<String>,
    pub text: String,
    pub finish_reason: Option<String>,
    pub meta: Option<CohereMeta>,
}

#[derive(Clone, Copy, Debug)]
pub struct CohereMeta {
    pub billed_units: Option<CohereBilledUnits>,
}

#[derive(Clone, Copy, Debug)]
pub struct CohereBilledUnits {
    pub input_tokens: Option<u32>,
    pub output_tokens: Option<u32>,
}

#[derive(Debug)]
pub struct MistralResponse {
    pub outputs: Vec<MistralOutput>,
}

#[derive(Debug)]
pub struct MistralOutput {
    pub text: String,
    pub stop_reason: Option<String>,
}

#[derive(Debug)]
pub struct MistralChatResponse {
    pub choices: Vec<MistralChatChoice>,
}

#[derive(Debug)]
pub struct MistralChatChoice {
    pub message: MistralChatMessage,
    pub stop_reason: Option<String>,
}

#[derive(Debug)]
pub struct MistralChatMessage {
    pub content: Option<String>,
}

/// The shapes that a reply's body can have.
#[derive(Clone, Copy, Debug, PartialEq, Eq, Structural)]
pub enum BedrockShape {
    Anthropic,
    MetaLlama,
    AmazonTitan,
    CohereCommandR,
    Cohere,
    MistralChat,
    Mistral,
}

/// A reply's body.
#[derive(Debug)]
pub enum BedrockBody {
    Anthropic(BedrockAnthropicResponse),
    MetaLlama(MetaLlamaResponse),
    AmazonTitan(AmazonTitanResponse),
    CohereCommandR(CohereCommandRResponse),
    Cohere(CohereResponse),
    MistralChat(MistralChatResponse),
    Mistral(MistralResponse),
}

/// The shape of a model's reply.
pub open spec fn shape_for(family: BedrockModelFamily, model_id: Seq<char>) -> BedrockShape {
    match family {
        BedrockModelFamily::Anthropic => BedrockShape::Anthropic,
        BedrockModelFamily::MetaLlama => BedrockShape::MetaLlama,
        BedrockModelFamily::AmazonTitan => BedrockShape::AmazonTitan,
        BedrockModelFamily::Cohere => if is_command_r(model_id) {
            BedrockShape::CohereCommandR
        } else {
            BedrockShape::Cohere
        },
        BedrockModelFamily::Mistral => if is_chat_model(model_id) {
            BedrockShape::MistralChat
        } else {
            BedrockShape::Mistral
        },
    }
}

/// The shape of a model's reply.
pub fn response_shape(family: BedrockModelFamily, model_id: &str) -> (r: BedrockShape)
    ensures
        r == shape_for(family, model_id@),
{
    match family {
        BedrockModelFamily::Anthropic => BedrockShape::Anthropic,
        BedrockModelFamily::MetaLlama => BedrockShape::MetaLlama,
        BedrockModelFamily::AmazonTitan => BedrockShape::AmazonTitan,
        BedrockModelFamily::Cohere => if is_cohere_command_r(model_id) {
            BedrockShape::CohereCommandR
        } else {
            BedrockShape::Cohere
        },
        BedrockModelFamily::Mistral => if is_mistral_chat(model_id) {
            BedrockShape::MistralChat
        } else {
            BedrockShape::Mistral
        },
    }
}

/// What is said of a body that does not have its shape.
pub open spec fn unreadable(shape: BedrockShape) -> Seq<char> {
    match shape {
        BedrockShape::Anthropic => "failed to parse Bedrock Anthropic response: "@,
        BedrockShape::MetaLlama => "failed to parse Bedrock Meta Llama response: "@,
        BedrockShape::AmazonTitan => "failed to parse Bedrock Amazon Titan response: "@,
        BedrockShape::CohereCommandR => "failed to parse Bedrock Cohere Command R response: "@,
        BedrockShape::Cohere => "failed to parse Bedrock Cohere response: "@,
        BedrockShape::MistralChat => "failed to parse Bedrock Mistral chat response: "@,
        BedrockShape::Mistral => "failed to parse Bedrock Mistral response: "@,
    }
}

/// The error for a body that does not have its shape.
pub fn unreadable_response(shape: BedrockShape, reason: &str) -> (r: SdkError)
    ensures
        r@ == ErrorView::Other(unreadable(shape) + reason@),
{
    let what = match shape {
        BedrockShape::Anthropic => "failed to parse Bedrock Anthropic response: ",
        BedrockShape::MetaLlama => "failed to parse Bedrock Meta Llama response: ",
        BedrockShape::AmazonTitan => "failed to parse Bedrock Amazon Titan response: ",
        BedrockShape::CohereCommandR => "failed to parse Bedrock Cohere Command R response: ",
        BedrockShape::Cohere => "failed to parse Bedrock Cohere response: ",
        BedrockShape::MistralChat => "failed to parse Bedrock Mistral chat response: ",
        BedrockShape::Mistral => "failed to parse Bedrock Mistral response: ",
    };
    SdkError::Other(concat2(what, reason))
}

/// A count, or zero where there is none.
pub open spec fn count(n: Option<u32>) -> int {
    match n {
        Some(n) => n as int,
        None => 0,
    }
}

/// All tokens that went in, those of the cache among them.
pub open spec fn all_input(input: Option<u32>, created: Option<u32>, read: Option<u32>) -> Option<
    int,
> {
    match input {
        Some(n) => Some(n + count(created) + count(read)),
        None => None,
    }
}

/// The sum of two counts, where both are there.
pub open spec fn both(a: Option<int>, b: Option<u32>) -> Option<int> {
    match (a, b) {
        (Some(x), Some(y)) => Some(x + y),
        _ => None,
    }
}

/// A count that may be too large.
pub open spec fn small(n: Option<int>) -> bool {
    match n {
        Some(n) => n <= u32::MAX,
        None => true,
    }
}

/// A count that is not too large.
pub open spec fn as_count(n: Option<int>) -> Option<u32> {
    match n {
        Some(n) => Some(n as u32),
        None => None,
    }
}

/// The usage that these counts make up. All tokens that went in count as the
/// prompt's, those read from a cache too.
pub open spec fn usage_with_cache(
    input: Option<u32>,
    output: Option<u32>,
    created: Option<u32>,
    read: Option<u32>,
) -> TokenUsage {
    let prompt = all_input(input, created, read);
    TokenUsage {
        prompt_tokens: as_count(prompt),
        completion_tokens: output,
        total_tokens: as_count(both(prompt, output)),
        cached_tokens: read,
        cache_creation_tokens: created,
    }
}

/// Whether no sum of these counts is too large.
pub open spec fn usage_fits(
    input: Option<u32>,
    output: Option<u32>,
    created: Option<u32>,
    read: Option<u32>,
) -> bool {
    small(all_input(input, created, read)) && small(both(all_input(input, created, read), output))
}

/// The prompt's tokens count all that went in: what was read from and written to a
/// cache is part of them, and with the reply's they make up the total.
pub proof fn cached_tokens_are_part_of_the_prompt(
    input: Option<u32>,
    output: Option<u32>,
    created: Option<u32>,
    read: Option<u32>,
)
    requires
        usage_fits(input, output, created, read),
    ensures
        usage_with_cache(input, output, created, read).prompt_tokens matches Some(prompt) ==> {
            &&& read matches Some(n) ==> n <= prompt
            &&& created matches Some(n) ==> n <= prompt
            &&& read matches Some(n) ==> created matches Some(m) ==> n + m <= prompt
            &&& output matches Some(n) ==> usage_with_cache(
                input,
                output,
                created,
                read,
            ).total_tokens == Some((prompt + n) as u32)
        },
        usage_with_cache(input, output, created, read).cached_tokens == read,
{
}

/// Whether no sum of these counts is too large.
pub fn counts_fit(
    input: Option<u32>,
    output: Option<u32>,
    created: Option<u32>,
    read: Option<u32>,
) -> (r: bool)
    ensures
        r == usage_fits(input, output, created, read),
{
    match input {
        None => true,
        Some(n) => {
            let total: u64 = n as u64 + created.unwrap_or(0) as u64 + read.unwrap_or(0) as u64;
            total <= 0xffff_ffff && total + output.unwrap_or(0) as u64 <= 0xffff_ffff
        },
    }
}

/// The usage that these counts make up (see `usage_with_cache`).
pub fn cached_usage(
    input: Option<u32>,
    output: Option<u32>,
    created: Option<u32>,
    read: Option<u32>,
) -> (r: TokenUsage)
    requires
        usage_fits(input, output, created, read),
    ensures
        r == usage_with_cache(input, output, created, read),
{
    let prompt_tokens: Option<u32> = match input {
        Some(n) => Some(n + created.unwrap_or(0) + read.unwrap_or(0)),
        None => None,
    };
    let total_tokens: Option<u32> = match (prompt_tokens, output) {
        (Some(prompt), Some(completion)) => Some(prompt + completion),
        _ => None,
    };
    TokenUsage {
        prompt_tokens,
        completion_tokens: output,
        total_tokens,
        cached_tokens: read,
        cache_creation_tokens: created,
    }
}

/// The usage that two counts make up, unless neither is there.
pub open spec fn plain_usage(prompt: Option<u32>, completion: Option<u32>) -> Option<TokenUsage> {
    if prompt is None && completion is None {
        None
    } else {
        Some(usage_with_cache(prompt, completion, None, None))
    }
}

/// The usage that two counts make up, unless neither is there.
pub fn token_usage(prompt_tokens: Option<u32>, completion_tokens: Option<u32>) -> (r: Option<
    TokenUsage,
>)
    requires
        usage_fits(prompt_tokens, completion_tokens, None, None),
    ensures
        r == plain_usage(prompt_tokens, completion_tokens),
{
    if prompt_tokens.is_none() && completion_tokens.is_none() {
        None
    } else {
        Some(cached_usage(prompt_tokens, completion_tokens, None, None))
    }
}

impl BedrockUsage {
    pub open spec fn fits(self) -> bool {
        usage_fits(
            self.input_tokens,
            self.output_tokens,
            self.cache_creation_input_tokens,
            self.cache_read_input_tokens,
        )
    }

    pub fn into_token_usage(self) -> (r: Option<TokenUsage>)
        requires
            self.fits(),
        ensures
            r == Some(
                usage_with_cache(
                    self.input_tokens,
                    self.output_tokens,
                    self.cache_creation_input_tokens,
                    self.cache_read_input_tokens,
                ),
            ),
    {
        Some(
            cached_usage(
                self.input_tokens,
                self.output_tokens,
                self.cache_creation_input_tokens,
                self.cache_read_input_tokens,
            ),
        )
    }
}

/// A text, or none at all.
pub open spec fn or_empty(s: Option<Seq<char>>) -> Seq<char> {
    match s {
        Some(s) => s,
        None => Seq::empty(),
    }
}

/// A text, or none at all.
pub fn text_or_empty(s: Option<String>) -> (r: String)
    ensures
        r@ == or_empty(opt_text(s)),
{
    match s {
        Some(s) => s,
        None => String::new(),
    }
}

/// The first of two values that is there.
pub open spec fn or_else<T>(a: Option<T>, b: Option<T>) -> Option<T> {
    match a {
        Some(_) => a,
        None => b,
    }
}

/// The text of a block of text.
pub open spec fn block_text(block: BedrockContentBlock) -> Option<Seq<char>> {
    if block.block_type@ == "text"@ {
        opt_text(block.text)
    } else {
        None
    }
}

/// The call of a block that makes one.
pub open spec fn block_call(block: BedrockContentBlock) -> Option<ToolCallView> {
    if block.block_type@ == "tool_use"@ {
        match (block.id, block.name, block.input) {
            (Some(id), Some(name), Some(input)) => Some(
                ToolCallView {
                    id: id@,
                    name: name@,
                    arguments: json_text(input@),
                    provider_data: None,
                },
            ),
            _ => None,
        }
    } else {
        None
    }
}

/// The texts of a reply's blocks.
pub open spec fn block_texts(blocks: Seq<BedrockContentBlock>) -> Seq<Option<Seq<char>>> {
    Seq::new(blocks.len(), |i: int| block_text(blocks[i]))
}

/// The calls of a reply's blocks.
pub open spec fn block_calls(blocks: Seq<BedrockContentBlock>) -> Seq<Option<ToolCallView>> {
    Seq::new(blocks.len(), |i: int| block_call(blocks[i]))
}

/// A reply with what every family tells.
pub open spec fn reply(
    id: Seq<char>,
    model: Seq<char>,
    text: Seq<char>,
    usage: Option<TokenUsage>,
    finish_reason: Option<Seq<char>>,
    calls: Seq<ToolCallView>,
    format: ResponseFormat,
) -> Result<ResponseView, ErrorView> {
    match object_or_calls(text, format, calls.len() > 0) {
        Err(e) => Err(e),
        Ok(object) => Ok(
            ResponseView {
                id,
                model,
                created: None,
                text,
                usage,
                finish_reason,
                tool_calls: some_calls(calls),
                object,
                raw: None,
                metadata: None,
            },
        ),
    }
}

/// What a result says.
pub open spec fn reply_view(r: Result<GenerateResponse, SdkError>) -> Result<
    ResponseView,
    ErrorView,
> {
    match r {
        Ok(response) => Ok(response@),
        Err(e) => Err(e@),
    }
}

/// A reply with what every family tells (see `reply`).
pub fn make_reply(
    id: String,
    model: String,
    text: String,
    usage: Option<TokenUsage>,
    finish_reason: Option<String>,
    tool_calls: Vec<ToolCall>,
    format: &ResponseFormat,
) -> (r: Result<GenerateResponse, SdkError>)
    ensures
        reply_view(r) == reply(
            id@,
            model@,
            text@,
            usage,
            opt_text(finish_reason),
            call_views(tool_calls@),
            *format,
        ),
{
    let object = match response_object(text.as_str(), format, tool_calls.len() > 0) {
        Ok(object) => object,
        Err(e) => {
            return Err(e);
        },
    };
    Ok(
        GenerateResponse {
            id,
            model,
            created: None,
            text,
            usage,
            finish_reason,
            tool_calls: if tool_calls.len() == 0 {
                None
            } else {
                Some(tool_calls)
            },
            object,
            raw: None,
            metadata: None,
        },
    )
}

impl BedrockAnthropicResponse {
    pub open spec fn fits(self) -> bool {
        match self.usage {
            Some(usage) => usage.fits(),
            None => true,
        }
    }

    /// The reply that this body is.
    pub open spec fn answer(self, format: ResponseFormat) -> Result<ResponseView, ErrorView> {
        reply(
            or_empty(opt_text(self.id)),
            or_empty(opt_text(self.model)),
            joined(flattened(block_texts(self.content@)), Seq::empty()),
            match self.usage {
                Some(usage) => Some(
                    usage_with_cache(
                        usage.input_tokens,
                        usage.output_tokens,
                        usage.cache_creation_input_tokens,
                        usage.cache_read_input_tokens,
                    ),
                ),
                None => None,
            },
            opt_text(self.stop_reason),
            flattened(block_calls(self.content@)),
            format,
        )
    }

    pub fn into_generate_response(self, response_format: &ResponseFormat) -> (r: Result<
        GenerateResponse,
        SdkError,
    >)
        requires
            self.fits(),
        ensures
            reply_view(r) == self.answer(*response_format),
    {
        let mut text_parts: Vec<String> = Vec::new();
        let mut tool_calls: Vec<ToolCall> = Vec::new();
        let ghost all_texts = block_texts(self.content@);
        let ghost all_calls = block_calls(self.content@);
        proof {
            whole_prefix(all_texts);
            whole_prefix(all_calls);
            assert(texts(text_parts@) =~= Seq::empty());
            assert(call_views(tool_calls@) =~= Seq::empty());
        }
        let mut i: usize = 0;
        while i < self.content.len()
            invariant
                i <= self.content@.len(),
                all_texts == block_texts(self.content@),
                all_calls == block_calls(self.content@),
                texts(text_parts@) == flattened(all_texts.subrange(0, i as int)),
                call_views(tool_calls@) == flattened(all_calls.subrange(0, i as int)),
            decreases self.content@.len() - i,
        {
            let block = &self.content[i];
            let ghost before_texts = texts(text_parts@);
            let ghost before_calls = call_views(tool_calls@);
            proof {
                flattened_next(all_texts, i as int);
                flattened_next(all_calls, i as int);
            }
            if str_eq(block.block_type.as_str(), "text") {
                proof {
                    reveal_strlit("text");
                    reveal_strlit("tool_use");
                    assert("text"@.len() != "tool_use"@.len());
                }
                if let Some(text) = &block.text {
                    text_parts.push(text.clone());
                    assert(texts(text_parts@) =~= before_texts.push(text@));
                }
            } else if str_eq(block.block_type.as_str(), "tool_use") {
                if let (Some(id), Some(name), Some(input)) = (&block.id, &block.name, &block.input) {
                    let call = ToolCall {
                        id: id.clone(),
                        name: name.clone(),
                        arguments: input.to_text(),
                        provider_data: None,
                    };
                    tool_calls.push(call);
                    assert(call_views(tool_calls@) =~= before_calls.push(call@));
                }
            }
            i = i + 1;
        }
        proof {
            whole_prefix(all_texts);
            whole_prefix(all_calls);
            reveal_strlit("");
            assert(""@ =~= Seq::<char>::empty());
        }
        let text = join(&text_parts, "");
        let usage = match self.usage {
            Some(usage) => usage.into_token_usage(),
            None => None,
        };
        make_reply(
            text_or_empty(self.id),
            text_or_empty(self.model),
            text,
            usage,
            self.stop_reason,
            tool_calls,
            response_format,
        )
    }
}

/// A reply of a family that has no calls.
pub open spec fn plain_reply(
    id: Seq<char>,
    model: Seq<char>,
    text: Seq<char>,
    finish_reason: Option<Seq<char>>,
    usage: Option<TokenUsage>,
    format: ResponseFormat,
) -> Result<ResponseView, ErrorView> {
    reply(id, model, text, usage, finish_reason, Seq::empty(), format)
}

/// A reply of a family that has no calls.
pub fn generic_generate_response(
    id: String,
    model: &str,
    text: String,
    finish_reason: Option<String>,
    usage: Option<TokenUsage>,
    response_format: &ResponseFormat,
) -> (r: Result<GenerateResponse, SdkError>)
    ensures
        reply_view(r) == plain_reply(
            id@,
            model@,
            text@,
            opt_text(finish_reason),
            usage,
            *response_format,
        ),
{
    let none: Vec<ToolCall> = Vec::new();
    assert(call_views(none@) =~= Seq::empty());
    make_reply(id, model.to_owned(), text, usage, finish_reason, none, response_format)
}

impl BedrockBody {
    /// Whether no sum of the counts in the body is too large.
    pub open spec fn fits(self) -> bool {
        match self {
            BedrockBody::Anthropic(r) => r.fits(),
            BedrockBody::MetaLlama(r) => usage_fits(
                r.prompt_token_count,
                r.generation_token_count,
                None,
                None,
            ),
            BedrockBody::AmazonTitan(r) => r.results@.len() > 0 ==> usage_fits(
                r.input_text_token_count,
                r.results@[0].token_count,
                None,
                None,
            ),
            BedrockBody::CohereCommandR(r) => match r.meta {
                Some(CohereMeta { billed_units: Some(units) }) => usage_fits(
                    units.input_tokens,
                    units.output_tokens,
                    None,
                    None,
                ),
                _ => true,
            },
            _ => true,
        }
    }

    /// The reply that this body is.
    pub open spec fn answer(self, model_id: Seq<char>, format: ResponseFormat) -> Result<
        ResponseView,
        ErrorView,
    > {
        match self {
            BedrockBody::Anthropic(r) => r.answer(format),
            BedrockBody::MetaLlama(r) => plain_reply(
                Seq::empty(),
                model_id,
                r.generation@,
                opt_text(r.stop_reason),
                plain_usage(r.prompt_token_count, r.generation_token_count),
                format,
            ),
            BedrockBody::AmazonTitan(r) => if r.results@.len() == 0 {
                Err(ErrorView::Other("Bedrock Amazon Titan response had no results"@))
            } else {
                plain_reply(
                    Seq::empty(),
                    model_id,
                    r.results@[0].output_text@,
                    opt_text(r.results@[0].completion_reason),
                    plain_usage(r.input_text_token_count, r.results@[0].token_count),
                    format,
                )
            },
            BedrockBody::CohereCommandR(r) => plain_reply(
                or_empty(or_else(opt_text(r.generation_id), opt_text(r.response_id))),
                model_id,
                r.text@,
                opt_text(r.finish_reason),
                match r.meta {
                    Some(CohereMeta { billed_units: Some(units) }) => plain_usage(
                        units.input_tokens,
                        units.output_tokens,
                    ),
                    _ => None,
                },
                format,
            ),
            BedrockBody::Cohere(r) => if r.generations@.len() == 0 {
                Err(ErrorView::Other("Bedrock Cohere response had no generations"@))
            } else {
                plain_reply(
                    or_empty(or_else(opt_text(r.generations@[0].id), opt_text(r.id))),
                    model_id,
                    r.generations@[0].text@,
                    opt_text(r.generations@[0].finish_reason),
                    None,
                    format,
                )
            },
            BedrockBody::MistralChat(r) => if r.choices@.len() == 0 {
                Err(ErrorView::Other("Bedrock Mistral response had no choices"@))
            } else {
                plain_reply(
                    Seq::empty(),
                    model_id,
                    or_empty(opt_text(r.choices@[0].message.content)),
                    opt_text(r.choices@[0].stop_reason),
                    None,
                    format,
                )
            },
            BedrockBody::Mistral(r) => if r.outputs@.len() == 0 {
                Err(ErrorView::Other("Bedrock Mistral response had no outputs"@))
            } else {
                plain_reply(
                    Seq::empty(),
                    model_id,
                    r.outputs@[0].text@,
                    opt_text(r.outputs@[0].stop_reason),
                    None,
                    format,
                )
            },
        }
    }

    /// Whether no sum of the counts in the body is too large.
    pub fn counts_are_small(&self) -> (r: bool)
        ensures
            r == self.fits(),
    {
        match self {
            BedrockBody::Anthropic(r) => match &r.usage {
                Some(usage) => counts_fit(
                    usage.input_tokens,
                    usage.output_tokens,
                    usage.cache_creation_input_tokens,
                    usage.cache_read_input_tokens,
                ),
                None => true,
            },
            BedrockBody::MetaLlama(r) => counts_fit(
                r.prompt_token_count,
                r.generation_token_count,
                None,
                None,
            ),
            BedrockBody::AmazonTitan(r) => r.results.len() == 0 || counts_fit(
                r.input_text_token_count,
                r.results[0].token_count,
                None,
                None,
            ),
            BedrockBody::CohereCommandR(r) => match r.meta {
                Some(CohereMeta { billed_units: Some(units) }) => counts_fit(
                    units.input_tokens,
                    units.output_tokens,
                    None,
                    None,
                ),
                _ => true,
            },
            _ => true,
        }
    }
}

/// The reply that a body is. The sums of the counts in it must not be too large.
pub fn parse_bedrock_response(
    model_id: &str,
    body: BedrockBody,
    response_format: &ResponseFormat,
) -> (r: Result<GenerateResponse, SdkError>)
    requires
        body.fits(),
    ensures
        reply_view(r) == body.answer(model_id@, *response_format),
{
    match body {
        BedrockBody::Anthropic(response) => response.into_generate_response(response_format),
        BedrockBody::MetaLlama(response) => {
            let usage = token_usage(response.prompt_token_count, response.generation_token_count);
            generic_generate_response(
                String::new(),
                model_id,
                response.generation,
                response.stop_reason,
                usage,
                response_format,
            )
        },
        BedrockBody::AmazonTitan(response) => {
            let mut results = response.results;
            if results.len() == 0 {
                return Err(other_error("Bedrock Amazon Titan response had no results"));
            }
            let result = results.swap_remove(0);
            let usage = token_usage(response.input_text_token_count, result.token_count);
            generic_generate_response(
                String::new(),
                model_id,
                result.output_text,
                result.completion_reason,
                usage,
                response_format,
            )
        },
        BedrockBody::CohereCommandR(response) => {
            let usage = match response.meta {
                Some(CohereMeta { billed_units: Some(units) }) => token_usage(
                    units.input_tokens,
                    units.output_tokens,
                ),
                _ => None,
            };
            let id = match response.generation_id {
                Some(id) => Some(id),
                None => response.response_id,
            };
            generic_generate_response(
                text_or_empty(id),
                model_id,
                response.text,
                response.finish_reason,
                usage,
                response_format,
            )
        },
        BedrockBody::Cohere(response) => {
            let mut generations = response.generations;
            if generations.len() == 0 {
                return Err(other_error("Bedrock Cohere response had no generations"));
            }
            let generation = generations.swap_remove(0);
            let id = match generation.id {
                Some(id) => Some(id),
                None => response.id,
            };
            generic_generate_response(
                text_or_empty(id),
                model_id,
                generation.text,
                generation.finish_reason,
                None,
                response_format,
            )
        },
        BedrockBody::MistralChat(response) => {
            let mut choices = response.choices;
            if choices.len() == 0 {
                return Err(other_error("Bedrock Mistral response had no choices"));
            }
            let choice = choices.swap_remove(0);
            generic_generate_response(
                String::new(),
                model_id,
                text_or_empty(choice.message.content),
                choice.stop_reason,
                None,
                response_format,
            )
        },
        BedrockBody::Mistral(response) => {
            let mut outputs = response.outputs;
            if outputs.len() == 0 {
                return Err(other_error("Bedrock Mistral response had no outputs"));
            }
            let output = outputs.swap_remove(0);
            generic_generate_response(
                String::new(),
                model_id,
                output.text,
                output.stop_reason,
                None,
                response_format,
            )
        },
    }
}

/// The shape of a reply is that of the model's maker.
pub proof fn replies_have_the_shape_of_their_maker(model_id: Seq<char>)
    ensures
        shape_for(BedrockModelFamily::Anthropic, model_id) == BedrockShape::Anthropic,
        shape_for(BedrockModelFamily::MetaLlama, model_id) == BedrockShape::MetaLlama,
        shape_for(BedrockModelFamily::AmazonTitan, model_id) == BedrockShape::AmazonTitan,
        crate::text::begins_with(model_id, "cohere.command-r"@) ==> shape_for(
            BedrockModelFamily::Cohere,
            model_id,
        ) == BedrockShape::CohereCommandR,
        !crate::text::begins_with(model_id, "cohere.command-r"@) ==> shape_for(
            BedrockModelFamily::Cohere,
            model_id,
        ) == BedrockShape::Cohere,
        crate::text::contains_text(model_id, "mistral-large-2407"@) ==> shape_for(
            BedrockModelFamily::Mistral,
            model_id,
        ) == BedrockShape::MistralChat,
        !crate::text::contains_text(model_id, "mistral-large-2407"@) ==> shape_for(
            BedrockModelFamily::Mistral,
            model_id,
        ) == BedrockShape::Mistral,
{
}

/// The prompt's tokens are the sum of those sent and those of the cache; with those of the
/// reply they make up the total, which is there only where both are.
pub proof fn counts_add_up(input: u32, output: u32, created: Option<u32>, read: Option<u32>)
    requires
        usage_fits(Some(input), Some(output), created, read),
    ensures
        ({
            let usage = usage_with_cache(Some(input), Some(output), created, read);
            let c: int = if created is Some {
                created->0 as int
            } else {
                0
            };
            let r: int = if read is Some {
                read->0 as int
            } else {
                0
            };
            &&& usage.prompt_tokens is Some && usage.prompt_tokens->0 == input + c + r
            &&& usage.completion_tokens == Some(output)
            &&& usage.total_tokens is Some && usage.total_tokens->0 == input + c + r + output
            &&& usage.cached_tokens == read && usage.cache_creation_tokens == created
        }),
        usage_with_cache(None, Some(output), created, read).prompt_tokens is None,
        usage_with_cache(None, Some(output), created, read).total_tokens is None,
        usage_with_cache(None, Some(output), created, read).completion_tokens == Some(output),
        usage_with_cache(Some(input), None, created, read).total_tokens is None,
        plain_usage(None, None) is None,
        plain_usage(Some(input), Some(output)) is Some && plain_usage(
            Some(input),
            Some(output),
        )->0.completion_tokens == Some(output),
        plain_usage(Some(input), Some(output))->0.prompt_tokens == Some(input),
        plain_usage(Some(input), Some(output))->0.total_tokens == Some((input + output) as u32),
        plain_usage(Some(input), None) is Some && plain_usage(None, Some(output)) is Some,
{
}

/// The texts and the calls of a reply are those of its blocks, in their order: a block is
/// a text or a call by its type.
pub proof fn blocks_are_gathered_in_order(
    blocks: Seq<BedrockContentBlock>,
    block: BedrockContentBlock,
)
    ensures
        block.block_type@ == "text"@ && block.text is Some ==> flattened(
            block_texts(blocks.push(block)),
        ) == flattened(block_texts(blocks)).push(block.text->0@) && flattened(
            block_calls(blocks.push(block)),
        ) == flattened(block_calls(blocks)),
        block.block_type@ == "tool_use"@ && block.id is Some && block.name is Some
            && block.input is Some ==> flattened(block_calls(blocks.push(block))) == flattened(
            block_calls(blocks),
        ).push(
            ToolCallView {
                id: block.id->0@,
                name: block.name->0@,
                arguments: json_text(block.input->0@),
                provider_data: None,
            },
        ) && flattened(block_texts(blocks.push(block))) == flattened(block_texts(blocks)),
        block.block_type@ != "text"@ ==> flattened(block_texts(blocks.push(block))) == flattened(
            block_texts(blocks),
        ),
        block.block_type@ != "tool_use"@ ==> flattened(block_calls(blocks.push(block)))
            == flattened(block_calls(blocks)),
{
    assert(block_texts(blocks.push(block)).drop_last() =~= block_texts(blocks));
    assert(block_calls(blocks.push(block)).drop_last() =~= block_calls(blocks));
    reveal_strlit("text");
    reveal_strlit("tool_use");
    assert("text"@.len() == 4
        && "tool_use"@.len() == 8);
}

/// A reply tells what came, and has a document where one was asked for.
pub proof fn replies_tell_what_came(
    id: Seq<char>,
    model: Seq<char>,
    text: Seq<char>,
    usage: Option<TokenUsage>,
    reason: Option<Seq<char>>,
    calls: Seq<ToolCallView>,
    format: ResponseFormat,
)
    ensures
        ({
            let told = reply(id, model, text, usage, reason, calls, format);
            let plain = plain_reply(id, model, text, reason, usage, format);
            &&& told is Ok <==> object_or_calls(text, format, calls.len() > 0) is Ok
            &&& told matches Ok(r) ==> {
                &&& r.id == id && r.model == model && r.text == text && r.usage == usage
                &&& r.finish_reason == reason
                &&& calls.len() > 0 ==> r.tool_calls == Some(calls)
                &&& calls.len() == 0 ==> r.tool_calls is None
                &&& Ok::<Option<crate::json::JsonView>, ErrorView>(r.object) == object_or_calls(
                    text,
                    format,
                    calls.len() > 0,
                )
            }
            &&& plain matches Ok(r) ==> {
                &&& r.id == id && r.model == model && r.text == text && r.usage == usage
                &&& r.finish_reason == reason && r.tool_calls is None
            }
            &&& format is Text ==> told is Ok && plain is Ok
        }),
{
}

/// An Anthropic model's reply is the texts of its blocks one after the other, and their
/// calls.
pub proof fn anthropic_replies(body: BedrockAnthropicResponse, format: ResponseFormat)
    ensures
        body.answer(format) matches Ok(r) ==> {
            &&& r.text == joined(flattened(block_texts(body.content@)), Seq::empty())
            &&& r.tool_calls == some_calls(flattened(block_calls(body.content@)))
            &&& r.finish_reason == opt_text(body.stop_reason)
            &&& body.id is Some ==> r.id == body.id->0@
            &&& body.model is Some ==> r.model == body.model->0@
            &&& body.usage is None ==> r.usage is None
            &&& body.usage matches Some(u) ==> r.usage is Some && r.usage->0.completion_tokens
                == u.output_tokens && r.usage->0.cached_tokens == u.cache_read_input_tokens
                && r.usage->0.cache_creation_tokens == u.cache_creation_input_tokens && r.usage
                == Some(
                usage_with_cache(
                    u.input_tokens,
                    u.output_tokens,
                    u.cache_creation_input_tokens,
                    u.cache_read_input_tokens,
                ),
            )
        },
        format is Text ==> body.answer(format) is Ok,
{
}

/// The other makers' replies are the text of the first candidate, with why it ended and
/// what was counted; without a candidate there is an error.
pub proof fn first_candidates_are_the_reply(
    body: BedrockBody,
    model_id: Seq<char>,
    format: ResponseFormat,
)
    ensures
        body matches BedrockBody::MetaLlama(r) ==> body.answer(model_id, format) == plain_reply(
            Seq::empty(),
            model_id,
            r.generation@,
            opt_text(r.stop_reason),
            plain_usage(r.prompt_token_count, r.generation_token_count),
            format,
        ),
        body matches BedrockBody::AmazonTitan(r) ==> ({
            &&& r.results@.len() == 0 ==> body.answer(model_id, format) == Err::<
                ResponseView,
                ErrorView,
            >(ErrorView::Other("Bedrock Amazon Titan response had no results"@))
            &&& r.results@.len() > 0 ==> body.answer(model_id, format) == plain_reply(
                Seq::empty(),
                model_id,
                r.results@.first().output_text@,
                opt_text(r.results@.first().completion_reason),
                plain_usage(r.input_text_token_count, r.results@.first().token_count),
                format,
            )
        }),
        body matches BedrockBody::CohereCommandR(r) ==> ({
            &&& body.answer(model_id, format) matches Ok(told) ==> {
                &&& told.text == r.text@ && told.model == model_id
                &&& told.finish_reason == opt_text(r.finish_reason)
                &&& r.generation_id is Some ==> told.id == r.generation_id->0@
                &&& r.generation_id is None && r.response_id is Some ==> told.id
                    == r.response_id->0@
                &&& r.meta is Some && r.meta->0.billed_units is Some ==> told.usage == plain_usage(
                    r.meta->0.billed_units->0.input_tokens,
                    r.meta->0.billed_units->0.output_tokens,
                )
                &&& r.meta is None ==> told.usage is None
            }
            &&& format is Text ==> body.answer(model_id, format) is Ok
        }),
        body matches BedrockBody::Cohere(r) ==> ({
            &&& r.generations@.len() == 0 ==> body.answer(model_id, format) == Err::<
                ResponseView,
                ErrorView,
            >(ErrorView::Other("Bedrock Cohere response had no generations"@))
            &&& r.generations@.len() > 0 && format is Text ==> body.answer(model_id, format) is Ok
            &&& r.generations@.len() > 0 && body.answer(model_id, format) is Ok ==> ({
                let told = body.answer(model_id, format)->Ok_0;
                let first = r.generations@.first();
                &&& told.text == first.text@ && told.model == model_id && told.usage is None
                &&& told.finish_reason == opt_text(first.finish_reason)
                &&& first.id is Some ==> told.id == first.id->0@
                &&& first.id is None && r.id is Some ==> told.id == r.id->0@
            })
        }),
        body matches BedrockBody::MistralChat(r) ==> ({
            &&& r.choices@.len() == 0 ==> body.answer(model_id, format) == Err::<
                ResponseView,
                ErrorView,
            >(ErrorView::Other("Bedrock Mistral response had no choices"@))
            &&& r.choices@.len() > 0 && r.choices@.first().message.content is Some ==> body.answer(
                model_id,
                format,
            ) == plain_reply(
                Seq::empty(),
                model_id,
                r.choices@.first().message.content->0@,
                opt_text(r.choices@.first().stop_reason),
                None,
                format,
            )
        }),
        body matches BedrockBody::Mistral(r) ==> ({
            &&& r.outputs@.len() == 0 ==> body.answer(model_id, format) == Err::<
                ResponseView,
                ErrorView,
            >(ErrorView::Other("Bedrock Mistral response had no outputs"@))
            &&& r.outputs@.len() > 0 ==> body.answer(model_id, format) == plain_reply(
                Seq::empty(),
                model_id,
                r.outputs@.first().text@,
                opt_text(r.outputs@.first().stop_reason),
                None,
                format,
            )
        }),
{
}

} // verus!
