//! Generation from what is found in a vector database.
//!
//! `F` is the type of the components of vectors; nothing here computes with them.
use vstd::prelude::*;
use vstd::string::*;

use super::chunking::{usual_separators, DocumentChunk, DocumentProcessor};
use super::types::{MetadataView, SearchQuery, SearchResult, VectorEntry};
use crate::error::{other_error, ErrorView, SdkError};
use crate::ids::new_uuid;
use crate::json::JsonNumber;
use crate::llm::models::chat::{
    says, text_message, ChatCompletionRequest, ChatCompletionResponse, ChatMessage,
    ChatMessageContent,
};
use crate::llm::models::embeddings::{EmbeddingsInput, EmbeddingsRequest, EmbeddingsResponse};
use crate::seqs::{flattened, flattened_next, whole_prefix};
use crate::text::{concat5, join, joined, opt_text, texts};

verus! {

/// Answers questions from the documents of a collection.
#[derive(Debug)]
pub struct RagPipeline {
    pub document_processor: DocumentProcessor,
    pub embedding_model: String,
    pub llm_provider: String,
    pub collection_name: String,
}

/// An answer and what it was made from.
#[derive(Debug)]
pub struct RagResponse<F> {
    pub answer: String,
    pub sources: Vec<SearchResult<F>>,
    pub context: String,
}

/// What a question becomes once documents were found for it.
#[derive(Debug)]
pub struct RagQuestion {
    pub context: String,
    pub request: ChatCompletionRequest,
}

/// The text of a result.
pub open spec fn result_text<F>(result: SearchResult<F>) -> Option<Seq<char>> {
    match result.metadata {
        Some(metadata) => opt_text(metadata.text),
        None => None,
    }
}

/// The texts of results.
pub open spec fn result_texts<F>(results: Seq<SearchResult<F>>) -> Seq<Option<Seq<char>>> {
    Seq::new(results.len(), |i: int| result_text(results[i]))
}

/// What the model is told of results: their texts, with a line between them.
pub open spec fn context_of<F>(results: Seq<SearchResult<F>>) -> Seq<char> {
    joined(flattened(result_texts(results)), "\n\n---\n\n"@)
}

/// What the model is asked.
pub open spec fn prompt_of(question: Seq<char>, context: Seq<char>) -> Seq<char> {
    "Use the following context to answer the question. If you cannot answer based on the context, say so.\n\nContext:\n"@
        + context + "\n\nQuestion: "@ + question + "\n\nAnswer:"@
}

/// Whether a request asks a model for an answer and nothing else.
pub open spec fn asks(request: ChatCompletionRequest, model: Seq<char>, prompt: Seq<char>) -> bool {
    &&& request.model@ == model
    &&& request.messages@.len() == 1
    &&& says(request.messages@[0], "user"@, prompt)
    &&& request.temperature matches Some(JsonNumber::Decimal(n)) && n@ == "0.7"@
    &&& request.max_tokens == Some(2000u32)
    &&& request.stream == Some(false)
    &&& request.top_p is None
    &&& request.n is None
    &&& request.stop is None
    &&& request.max_completion_tokens is None
    &&& request.presence_penalty is None
    &&& request.frequency_penalty is None
    &&& request.tools is None
    &&& request.tool_choice is None
    &&& request.response_format is None
    &&& request.reasoning is None
    &&& request.logprobs is None
    &&& request.top_logprobs is None
    &&& request.seed is None
    &&& request.user is None
}

/// The text of a reply's first choice.
pub open spec fn answer_text<S>(response: ChatCompletionResponse<S>) -> Result<
    Seq<char>,
    ErrorView,
> {
    match response {
        ChatCompletionResponse::NonStream(completion) => Ok(
            if completion.choices@.len() == 0 {
                "No response generated"@
            } else {
                match completion.choices@[0].message.content {
                    Some(ChatMessageContent::String(text)) => text@,
                    _ => "No response generated"@,
                }
            },
        ),
        ChatCompletionResponse::Stream(_) => Err(
            ErrorView::Other("Streaming not supported in RAG pipeline yet"@),
        ),
    }
}

/// The text of a reply's first choice.
pub fn answer_of<S>(response: &ChatCompletionResponse<S>) -> (r: Result<String, SdkError>)
    ensures
        match r {
            Ok(text) => answer_text(*response) == Ok::<Seq<char>, ErrorView>(text@),
            Err(e) => answer_text(*response) == Err::<Seq<char>, ErrorView>(e@),
        },
{
    match response {
        ChatCompletionResponse::NonStream(completion) => {
            if completion.choices.len() > 0 {
                if let Some(ChatMessageContent::String(text)) =
                    &completion.choices[0].message.content {
                    return Ok(text.clone());
                }
            }
            Ok("No response generated".to_owned())
        },
        ChatCompletionResponse::Stream(_) => Err(
            other_error("Streaming not supported in RAG pipeline yet"),
        ),
    }
}

/// The first vector of a reply, taken out of it.
pub fn take_first_embedding<F>(response: EmbeddingsResponse<F>) -> (r: Option<Vec<F>>)
    ensures
        match r {
            Some(v) => response.data@.len() > 0 && v == response.data@[0].embedding,
            None => response.data@.len() == 0,
        },
{
    let mut data = response.data;
    if data.len() > 0 {
        Some(data.remove(0).embedding)
    } else {
        None
    }
}

impl RagPipeline {
    pub fn new(embedding_model: String, llm_provider: String, collection_name: String) -> (r: Self)
        ensures
            r.embedding_model == embedding_model,
            r.llm_provider == llm_provider,
            r.collection_name == collection_name,
            r.document_processor.max_chunk_size == 1000,
            r.document_processor.chunk_overlap == 200,
            texts(r.document_processor.separators@) == usual_separators(),
    {
        RagPipeline {
            document_processor: DocumentProcessor::new(),
            embedding_model,
            llm_provider,
            collection_name,
        }
    }

    pub fn with_document_processor(self, processor: DocumentProcessor) -> (r: Self)
        ensures
            r == (RagPipeline { document_processor: processor, ..self }),
    {
        RagPipeline { document_processor: processor, ..self }
    }

    /// The request for the vector of a text.
    pub fn embedding_request(&self, text: &str) -> (r: EmbeddingsRequest)
        ensures
            r.model@ == self.embedding_model@,
            r.input matches EmbeddingsInput::String(s) && s@ == text@,
            r.encoding_format is None,
            r.dimensions is None,
            r.user is None,
    {
        EmbeddingsRequest {
            model: self.embedding_model.clone(),
            input: EmbeddingsInput::String(text.to_owned()),
            encoding_format: None,
            dimensions: None,
            user: None,
        }
    }

    /// Whether an entry is that for a chunk, under an id: there is one if there is a
    /// vector for it.
    pub open spec fn entry_under<F>(
        r: Option<VectorEntry<F>>,
        chunk: DocumentChunk,
        response: EmbeddingsResponse<F>,
        id: Seq<char>,
    ) -> bool {
        match r {
            Some(entry) => {
                &&& response.data@.len() > 0
                &&& entry.id@ == id
                &&& entry.vector == response.data@[0].embedding
                &&& entry.metadata@ == (MetadataView {
                    text: Some(chunk.text@),
                    ..chunk.metadata@
                })
            },
            None => response.data@.len() == 0,
        }
    }

    /// The entry for a chunk, under an id, if there is a vector for it.
    pub fn chunk_entry_with_id<F>(
        &self,
        chunk: DocumentChunk,
        response: EmbeddingsResponse<F>,
        id: String,
    ) -> (r: Option<VectorEntry<F>>)
        ensures
            RagPipeline::entry_under(r, chunk, response, id@),
    {
        match take_first_embedding(response) {
            Some(vector) => {
                let DocumentChunk { text, metadata } = chunk;
                Some(VectorEntry { id, vector, metadata: metadata.with_text(text.as_str()) })
            },
            None => None,
        }
    }

    /// The entry for a chunk, under an id drawn at random, if there is a vector for
    /// it. That ids differ rests on chance.
    pub fn chunk_entry<F>(&self, chunk: DocumentChunk, response: EmbeddingsResponse<F>) -> (r:
        Option<VectorEntry<F>>)
        ensures
            exists|id: Seq<char>|
                id.len() == 36 && #[trigger] RagPipeline::entry_under(r, chunk, response, id),
    {
        let id = new_uuid();
        let r = self.chunk_entry_with_id(chunk, response, id);
        assert(RagPipeline::entry_under(r, chunk, response, id@));
        r
    }

    /// The search for what a question needs, by its vector.
    pub fn question_query<F>(&self, response: EmbeddingsResponse<F>, num_results: u32) -> (r: Result<
        SearchQuery<F>,
        SdkError,
    >)
        ensures
            match r {
                Ok(query) => response.data@.len() > 0 && query == (SearchQuery {
                    vector: response.data@[0].embedding,
                    limit: num_results,
                    min_score: None,
                    filter: None,
                    distance_metric: None,
                    include_vectors: false,
                    include_metadata: true,
                }),
                Err(e) => response.data@.len() == 0 && e@ == ErrorView::Other(
                    "Failed to generate question embedding"@,
                ),
            },
    {
        match take_first_embedding(response) {
            Some(vector) => Ok(
                SearchQuery::new(vector).with_limit(num_results).include_metadata(),
            ),
            None => Err(other_error("Failed to generate question embedding")),
        }
    }

    /// What the model is told of results.
    pub fn build_context<F>(&self, search_results: &Vec<SearchResult<F>>) -> (r: String)
        ensures
            r@ == context_of(search_results@),
    {
        let mut found: Vec<String> = Vec::new();
        let ghost all = result_texts(search_results@);
        let mut i: usize = 0;
        proof {
            whole_prefix(all);
            assert(texts(found@) =~= Seq::empty());
        }
        while i < search_results.len()
            invariant
                i <= search_results@.len(),
                all == result_texts(search_results@),
                texts(found@) == flattened(all.subrange(0, i as int)),
            decreases search_results@.len() - i,
        {
            let ghost before = texts(found@);
            if let Some(metadata) = &search_results[i].metadata {
                if let Some(text) = &metadata.text {
                    found.push(text.clone());
                    assert(texts(found@) =~= before.push(text@));
                }
            }
            proof {
                flattened_next(all, i as int);
            }
            i = i + 1;
        }
        proof {
            whole_prefix(all);
        }
        join(&found, "\n\n---\n\n")
    }

    /// What the model is asked.
    pub fn build_prompt(&self, question: &str, context: &str) -> (r: String)
        ensures
            r@ == prompt_of(question@, context@),
    {
        concat5(
            "Use the following context to answer the question. If you cannot answer based on the context, say so.\n\nContext:\n",
            context,
            "\n\nQuestion: ",
            question,
            "\n\nAnswer:",
        )
    }

    /// What a question becomes once documents were found for it.
    pub fn ask<F>(&self, question: &str, search_results: &Vec<SearchResult<F>>, model: &str) -> (r:
        RagQuestion)
        ensures
            r.context@ == context_of(search_results@),
            asks(r.request, model@, prompt_of(question@, context_of(search_results@))),
    {
        let context = self.build_context(search_results);
        let prompt = self.build_prompt(question, context.as_str());
        let mut messages: Vec<ChatMessage> = Vec::new();
        messages.push(text_message("user", prompt));
        let request = ChatCompletionRequest {
            model: model.to_owned(),
            messages,
            temperature: Some(JsonNumber::Decimal("0.7".to_owned())),
            top_p: None,
            n: None,
            stream: Some(false),
            stop: None,
            max_tokens: Some(2000),
            max_completion_tokens: None,
            presence_penalty: None,
            frequency_penalty: None,
            tools: None,
            tool_choice: None,
            response_format: None,
            reasoning: None,
            logprobs: None,
            top_logprobs: None,
            seed: None,
            user: None,
        };
        RagQuestion { context, request }
    }

    /// The answer, with what it was made from.
    pub fn answer<F, S>(
        &self,
        response: &ChatCompletionResponse<S>,
        sources: Vec<SearchResult<F>>,
        context: String,
    ) -> (r: Result<RagResponse<F>, SdkError>)
        ensures
            match r {
                Ok(answer) => {
                    &&& answer_text(*response) == Ok::<Seq<char>, ErrorView>(answer.answer@)
                    &&& answer.sources == sources
                    &&& answer.context == context
                },
                Err(e) => answer_text(*response) == Err::<Seq<char>, ErrorView>(e@),
            },
    {
        match answer_of(response) {
            Ok(answer) => Ok(RagResponse { answer, sources, context }),
            Err(e) => Err(e),
        }
    }
}

/// How questions are answered.
#[derive(Clone, Debug)]
pub struct RagConfig {
    pub embedding_model: String,
    pub llm_provider: String,
    pub llm_model: String,
    pub collection_name: String,
    /// How many documents are looked up.
    pub num_results: u32,
    pub document_processor: DocumentProcessor,
}

impl RagConfig {
    pub fn new(
        embedding_model: String,
        llm_provider: String,
        llm_model: String,
        collection_name: String,
    ) -> (r: Self)
        ensures
            r.embedding_model == embedding_model,
            r.llm_provider == llm_provider,
            r.llm_model == llm_model,
            r.collection_name == collection_name,
            r.num_results == 5,
            r.document_processor.max_chunk_size == 1000,
            r.document_processor.chunk_overlap == 200,
            texts(r.document_processor.separators@) == usual_separators(),
    {
        RagConfig {
            embedding_model,
            llm_provider,
            llm_model,
            collection_name,
            num_results: 5,
            document_processor: DocumentProcessor::new(),
        }
    }

    pub fn with_num_results(self, num_results: u32) -> (r: Self)
        ensures
            r == (RagConfig { num_results, ..self }),
    {
        RagConfig { num_results, ..self }
    }

    pub fn with_document_processor(self, processor: DocumentProcessor) -> (r: Self)
        ensures
            r == (RagConfig { document_processor: processor, ..self }),
    {
        RagConfig { document_processor: processor, ..self }
    }
}

/// The model is told the texts that were found, in the order in which they were found and
/// with a line between them; a result without a text is left out.
pub proof fn results_are_told_in_order<F>(results: Seq<SearchResult<F>>, result: SearchResult<F>)
    ensures
        ({
            let before = flattened(result_texts(results));
            let all = flattened(result_texts(results.push(result)));
            let has_text = result.metadata is Some && result.metadata->0.text is Some;
            &&& has_text ==> all == before.push(result.metadata->0.text->0@)
            &&& !has_text ==> all == before && context_of(results.push(result)) == context_of(
                results,
            )
            &&& has_text && before.len() > 0 ==> context_of(results.push(result)) == context_of(
                results,
            ) + "\n\n---\n\n"@ + result.metadata->0.text->0@
            &&& has_text && before.len() == 0 ==> context_of(results.push(result))
                == result.metadata->0.text->0@
        }),
{
    assert(result_texts(results.push(result)).drop_last() =~= result_texts(results));
    let before = flattened(result_texts(results));
    if result.metadata is Some && result.metadata->0.text is Some {
        crate::text::joining_goes_on_at_the_end(
            before,
            result.metadata->0.text->0@,
            "\n\n---\n\n"@,
        );
    }
}

/// A question is asked after the context that it is to be answered from.
pub proof fn the_context_comes_before_the_question(question: Seq<char>, context: Seq<char>)
    ensures
        ({
            let prompt = prompt_of(question, context);
            let begin =
                "Use the following context to answer the question. If you cannot answer based on the context, say so.\n\nContext:\n"@;
            let between = "\n\nQuestion: "@;
            let end = "\n\nAnswer:"@;
            let at = (begin.len() + context.len() + between.len()) as int;
            &&& prompt.subrange(0, begin.len() as int) == begin
            &&& prompt.subrange(begin.len() as int, (begin.len() + context.len()) as int) == context
            &&& prompt.subrange((begin.len() + context.len()) as int, at) == between
            &&& prompt.subrange(at, (at + question.len()) as int) == question
            &&& prompt.subrange((at + question.len()) as int, prompt.len() as int) == end
        }),
{
    let prompt = prompt_of(question, context);
    let begin =
        "Use the following context to answer the question. If you cannot answer based on the context, say so.\n\nContext:\n"@;
    let between = "\n\nQuestion: "@;
    let at = (begin.len() + context.len() + between.len()) as int;
    assert(prompt.subrange(0, begin.len() as int) =~= begin);
    assert(prompt.subrange(begin.len() as int, (begin.len() + context.len()) as int) =~= context);
    assert(prompt.subrange((begin.len() + context.len()) as int, at) =~= between);
    assert(prompt.subrange(at, (at + question.len()) as int) =~= question);
    assert(prompt.subrange((at + question.len()) as int, prompt.len() as int) =~= "\n\nAnswer:"@);
}

/// The answer is the text of the first choice; without one, that is said.
pub proof fn the_first_choice_is_the_answer<S>(response: ChatCompletionResponse<S>)
    ensures
        response matches ChatCompletionResponse::NonStream(completion) ==> ({
            let choices = completion.choices@;
            let first = choices.first().message.content;
            &&& choices.len() > 0 && first is Some && first->0 is String ==> answer_text(response)
                == Ok::<Seq<char>, ErrorView>((first->0)->String_0@)
            &&& choices.len() == 0 ==> answer_text(response) == Ok::<Seq<char>, ErrorView>(
                "No response generated"@,
            )
            &&& choices.len() > 0 && first is None ==> answer_text(response) == Ok::<
                Seq<char>,
                ErrorView,
            >("No response generated"@)
        }),
        response is Stream ==> answer_text(response) == Err::<Seq<char>, ErrorView>(
            ErrorView::Other("Streaming not supported in RAG pipeline yet"@),
        ),
{
}

/// A question goes to the model as the user's one message, with the settings for answers.
pub proof fn questions_are_asked_by_the_user(
    request: ChatCompletionRequest,
    model: Seq<char>,
    prompt: Seq<char>,
)
    requires
        asks(request, model, prompt),
    ensures
        request.model@ == model,
        request.messages@.len() == 1,
        says(request.messages@[0], "user"@, prompt),
        request.max_tokens == Some(2000u32),
        request.stream == Some(false),
        request.temperature is Some && request.temperature->0@ == crate::json::NumberView::Decimal(
            "0.7"@,
        ),
        request.tools is None,
        request.response_format is None,
{
}

/// An entry for a chunk holds the chunk's text and what is known of it, under the vector
/// that came first.
pub proof fn entries_hold_their_chunk<F>(
    entry: VectorEntry<F>,
    chunk: DocumentChunk,
    response: EmbeddingsResponse<F>,
    id: Seq<char>,
)
    requires
        RagPipeline::entry_under(Some(entry), chunk, response, id),
    ensures
        entry.id@ == id,
        entry.metadata@.text == Some(chunk.text@),
        entry.metadata@.source == chunk.metadata@.source,
        entry.metadata@.chunk_index == chunk.metadata@.chunk_index,
        entry.metadata@.extra == chunk.metadata@.extra,
        response.data@.len() > 0 && entry.vector == response.data@.first().embedding,
{
}

} // verus!
