//! Google's Gemini as a provider.
use vstd::prelude::*;
use vstd::string::*;

use super::anthropic::{one_choice, single_choice};
use super::call::{json_body, no_headers, push_json_body, CallView, HttpCall};
use crate::clock::{as_count, seconds_count, unix_seconds};
use crate::error::{other_error, ErrorView, SdkError};
use crate::ids::new_uuid;
use crate::json::{
    field_if, field_views, json_views, no_fields, no_items, number_json, number_view,
    opt_count_json, opt_count_view, put, put_item, put_opt, put_text, Json, JsonNumber, JsonView,
};
use crate::llm::models::chat::{ChatCompletion, ChatCompletionRequest, ChatMessage};
use crate::llm::models::usage::{no_usage, Usage};
use crate::llm::provider::{ProviderConfig, ProviderType};
use crate::seqs::{flattened, flattened_next, prefix_next, whole_prefix};
use crate::text::{concat2, concat4, join, joined, opt_text, str_eq, texts};

verus! {

/// A request in Gemini's form.
#[derive(Debug)]
pub struct GeminiRequest {
    pub contents: Vec<GeminiContent>,
    pub generation_config: Option<GeminiGenerationConfig>,
}

/// What someone says.
#[derive(Debug)]
pub struct GeminiContent {
    pub role: String,
    pub parts: Vec<GeminiPart>,
}

/// A part of what someone says.
#[derive(Debug)]
pub struct GeminiPart {
    pub text: String,
}

/// How a reply is generated.
#[derive(Debug)]
pub struct GeminiGenerationConfig {
    pub temperature: Option<JsonNumber>,
    pub max_output_tokens: Option<u32>,
    pub top_p: Option<JsonNumber>,
}

/// A reply in Gemini's form.
#[derive(Debug)]
pub struct GeminiResponse {
    pub candidates: Vec<GeminiCandidate>,
    pub usage_metadata: Option<GeminiUsage>,
}

/// One way to go on.
#[derive(Debug)]
pub struct GeminiCandidate {
    pub content: GeminiContent,
    pub finish_reason: Option<String>,
}

/// How many tokens a call took.
#[derive(Clone, Copy, Debug, PartialEq, Eq, Structural)]
pub struct GeminiUsage {
    pub prompt_token_count: u32,
    pub candidates_token_count: u32,
    pub total_token_count: u32,
}

/// Who speaks, as Gemini knows it: the model, or the user for everyone else.
pub open spec fn gemini_role(role: Seq<char>) -> Seq<char> {
    if role == "assistant"@ {
        "model"@
    } else {
        "user"@
    }
}

/// A message as Gemini wants it; one that says nothing is left out.
pub open spec fn gemini_turn(message: ChatMessage) -> Option<(Seq<char>, Seq<char>)> {
    match message.content {
        Some(content) => Some((gemini_role(message.role@), content.plain())),
        None => None,
    }
}

/// The messages as Gemini wants them.
pub open spec fn gemini_turns(messages: Seq<ChatMessage>) -> Seq<Option<(Seq<char>, Seq<char>)>> {
    Seq::new(messages.len(), |i: int| gemini_turn(messages[i]))
}

/// Whether something that is said is one text.
pub open spec fn is_turn(content: GeminiContent, turn: (Seq<char>, Seq<char>)) -> bool {
    &&& content.role@ == turn.0
    &&& content.parts@.len() == 1
    &&& content.parts@[0].text@ == turn.1
}

/// Whether what is said is one text each.
pub open spec fn are_turns(contents: Seq<GeminiContent>, turns: Seq<(Seq<char>, Seq<char>)>) -> bool {
    &&& contents.len() == turns.len()
    &&& forall|i: int| 0 <= i < contents.len() ==> is_turn(#[trigger] contents[i], turns[i])
}

/// Whether anything is said of how a reply is generated.
pub open spec fn is_configured(request: ChatCompletionRequest) -> bool {
    request.temperature is Some || request.max_tokens is Some
        || request.max_completion_tokens is Some || request.top_p is Some
}

/// How many tokens the reply may have.
pub open spec fn output_limit(request: ChatCompletionRequest) -> Option<u32> {
    match request.max_completion_tokens {
        Some(n) => Some(n),
        None => request.max_tokens,
    }
}

/// What someone says, as a document.
pub open spec fn turn_document(turn: (Seq<char>, Seq<char>)) -> JsonView {
    JsonView::Object(
        seq![
            ("role"@, JsonView::String(turn.0)),
            (
                "parts"@,
                JsonView::Array(
                    seq![JsonView::Object(seq![("text"@, JsonView::String(turn.1))])],
                ),
            ),
        ],
    )
}

/// What is said, as documents.
pub open spec fn turn_documents(turns: Seq<(Seq<char>, Seq<char>)>) -> Seq<JsonView> {
    Seq::new(turns.len(), |i: int| turn_document(turns[i]))
}

/// How a reply is generated, as a document.
pub open spec fn config_document(request: ChatCompletionRequest) -> Option<JsonView> {
    if is_configured(request) {
        Some(
            JsonView::Object(
                Seq::<(Seq<char>, JsonView)>::empty() + field_if(
                    "temperature"@,
                    number_view(request.temperature),
                ) + field_if("maxOutputTokens"@, opt_count_view(output_limit(request))) + field_if(
                    "topP"@,
                    number_view(request.top_p),
                ),
            ),
        )
    } else {
        None
    }
}

/// The document that Gemini is sent.
pub open spec fn gemini_document(request: ChatCompletionRequest) -> JsonView {
    JsonView::Object(
        seq![
            (
                "contents"@,
                JsonView::Array(turn_documents(flattened(gemini_turns(request.messages@)))),
            ),
        ] + field_if("generation_config"@, config_document(request)),
    )
}

fn turn_json(content: &GeminiContent) -> (r: Json)
    requires
        content.parts@.len() == 1,
    ensures
        r@ == turn_document((content.role@, content.parts@[0].text@)),
{
    let ghost wanted = turn_document((content.role@, content.parts@[0].text@));
    let mut part = no_fields();
    put_text(&mut part, "text", content.parts[0].text.as_str());
    assert(field_views(part@) =~= wanted->Object_0[1].1->Array_0[0]->Object_0);
    let mut parts = no_items();
    put_item(&mut parts, Json::object(part));
    assert(json_views(parts@) =~= wanted->Object_0[1].1->Array_0);
    let mut fields = no_fields();
    put_text(&mut fields, "role", content.role.as_str());
    put(&mut fields, "parts", Json::array(parts));
    assert(field_views(fields@) =~= wanted->Object_0);
    Json::object(fields)
}

/// The texts of parts.
pub open spec fn part_texts(parts: Seq<GeminiPart>) -> Seq<Seq<char>> {
    Seq::new(parts.len(), |i: int| parts[i].text@)
}

/// What a call took.
pub open spec fn gemini_usage(usage: Option<GeminiUsage>) -> Usage {
    match usage {
        Some(u) => Usage {
            prompt_tokens: u.prompt_token_count,
            completion_tokens: u.candidates_token_count,
            total_tokens: u.total_token_count,
            completion_tokens_details: None,
            prompt_tokens_details: None,
        },
        None => no_usage(),
    }
}

/// Gemini as a provider.
#[derive(Debug)]
pub struct VertexAIProvider {
    pub config: ProviderConfig,
}

impl VertexAIProvider {
    pub fn new(config: &ProviderConfig) -> (r: Self)
        ensures
            r.config@ == config@,
    {
        VertexAIProvider { config: config.duplicate() }
    }

    pub fn key(&self) -> (r: String)
        ensures
            r@ == self.config.key@,
    {
        self.config.key.clone()
    }

    pub fn provider_type(&self) -> (r: ProviderType)
        ensures
            r == ProviderType::VertexAI,
    {
        ProviderType::VertexAI
    }

    /// The project of Google's cloud.
    pub fn project_id(&self) -> (r: Result<String, SdkError>)
        ensures
            match r {
                Ok(id) => self.config@.param("project_id"@) == Some(id@),
                Err(e) => self.config@.param("project_id"@) is None && e@ == ErrorView::Other(
                    "Google Cloud project ID not configured"@,
                ),
            },
    {
        match self.config.get_param("project_id") {
            Some(id) => Ok(id.to_owned()),
            None => Err(other_error("Google Cloud project ID not configured")),
        }
    }

    pub fn location(&self) -> (r: String)
        ensures
            r@ == self.config@.param_or("location"@, "us-central1"@),
    {
        self.config.param_or("location", "us-central1")
    }

    /// A request as Gemini wants it.
    pub fn convert_to_gemini_request(&self, request: ChatCompletionRequest) -> (r: GeminiRequest)
        ensures
            are_turns(r.contents@, flattened(gemini_turns(request.messages@))),
            match r.generation_config {
                Some(config) => {
                    &&& is_configured(request)
                    &&& config.temperature == request.temperature
                    &&& config.max_output_tokens == output_limit(request)
                    &&& config.top_p == request.top_p
                },
                None => !is_configured(request),
            },
    {
        let mut contents: Vec<GeminiContent> = Vec::new();
        let ghost all = gemini_turns(request.messages@);
        let mut i: usize = 0;
        proof {
            whole_prefix(all);
        }
        while i < request.messages.len()
            invariant
                i <= request.messages@.len(),
                all == gemini_turns(request.messages@),
                are_turns(contents@, flattened(all.subrange(0, i as int))),
            decreases request.messages@.len() - i,
        {
            let message = &request.messages[i];
            let ghost before = contents@;
            proof {
                flattened_next(all, i as int);
            }
            let role = if str_eq(message.role.as_str(), "assistant") {
                "model"
            } else {
                "user"
            };
            if let Some(content) = &message.content {
                let mut parts: Vec<GeminiPart> = Vec::new();
                parts.push(GeminiPart { text: content.to_plain() });
                contents.push(GeminiContent { role: role.to_owned(), parts });
                proof {
                    let turns = flattened(all.subrange(0, i + 1));
                    assert forall|k: int| 0 <= k < contents@.len() implies is_turn(
                        #[trigger] contents@[k],
                        turns[k],
                    ) by {
                        if k < before.len() {
                            assert(contents@[k] == before[k]);
                        }
                    }
                }
            }
            i = i + 1;
        }
        proof {
            whole_prefix(all);
        }
        let configured = request.temperature.is_some() || request.max_tokens.is_some()
            || request.max_completion_tokens.is_some() || request.top_p.is_some();
        let max_output_tokens = match request.max_completion_tokens {
            Some(n) => Some(n),
            None => request.max_tokens,
        };
        let generation_config = if configured {
            Some(
                GeminiGenerationConfig {
                    temperature: request.temperature,
                    max_output_tokens,
                    top_p: request.top_p,
                },
            )
        } else {
            None
        };
        GeminiRequest { contents, generation_config }
    }

    fn to_json(&self, own: &GeminiRequest, Ghost(request): Ghost<ChatCompletionRequest>) -> (r: Json)
        requires
            are_turns(own.contents@, flattened(gemini_turns(request.messages@))),
            match own.generation_config {
                Some(config) => {
                    &&& is_configured(request)
                    &&& config.temperature == request.temperature
                    &&& config.max_output_tokens == output_limit(request)
                    &&& config.top_p == request.top_p
                },
                None => !is_configured(request),
            },
        ensures
            r@ == gemini_document(request),
    {
        let ghost turns = flattened(gemini_turns(request.messages@));
        let ghost all = turn_documents(turns);
        let mut contents = no_items();
        let mut i: usize = 0;
        proof {
            whole_prefix(all);
        }
        while i < own.contents.len()
            invariant
                i <= own.contents@.len(),
                are_turns(own.contents@, turns),
                all == turn_documents(turns),
                json_views(contents@) == all.subrange(0, i as int),
            decreases own.contents@.len() - i,
        {
            assert(is_turn(own.contents@[i as int], turns[i as int]));
            put_item(&mut contents, turn_json(&own.contents[i]));
            proof {
                prefix_next(all, i as int);
            }
            i = i + 1;
        }
        proof {
            whole_prefix(all);
        }
        let config = match &own.generation_config {
            Some(config) => {
                let mut fields = no_fields();
                put_opt(&mut fields, "temperature", number_json(&config.temperature));
                put_opt(&mut fields, "maxOutputTokens", opt_count_json(config.max_output_tokens));
                put_opt(&mut fields, "topP", number_json(&config.top_p));
                Some(Json::object(fields))
            },
            None => None,
        };
        let mut fields = no_fields();
        put(&mut fields, "contents", Json::array(contents));
        assert(field_views(fields@) =~= seq![("contents"@, JsonView::Array(all))]);
        put_opt(&mut fields, "generation_config", config);
        Json::object(fields)
    }

    /// The call that goes on with a conversation. A reply piece by piece is not
    /// supported.
    pub fn chat_call(&self, request: ChatCompletionRequest) -> (r: Result<HttpCall, SdkError>)
        ensures
            match r {
                Ok(call) => !request.streams() && call@ == (CallView {
                    url: "https://generativelanguage.googleapis.com/v1beta/models/"@
                        + request.model@ + ":generateContent?key="@ + self.config.api_key@,
                    headers: Seq::empty().push(json_body()),
                    body: Some(gemini_document(request)),
                }),
                Err(e) => request.streams() && e@ == ErrorView::Other(
                    "Streaming not yet implemented for VertexAI - use stream: false"@,
                ),
            },
    {
        if request.wants_stream() {
            return Err(
                other_error("Streaming not yet implemented for VertexAI - use stream: false"),
            );
        }
        let ghost asked = request;
        let url = concat4(
            "https://generativelanguage.googleapis.com/v1beta/models/",
            request.model.as_str(),
            ":generateContent?key=",
            self.config.api_key.as_str(),
        );
        let own = self.convert_to_gemini_request(request);
        let body = self.to_json(&own, Ghost(asked));
        let mut headers = no_headers();
        push_json_body(&mut headers);
        Ok(HttpCall { url, headers, body: Some(body) })
    }

    /// Whether a reply is what Gemini said, under an id that was drawn for it.
    pub open spec fn becomes(
        response: GeminiResponse,
        model: Seq<char>,
        drawn: Seq<char>,
        created: u64,
        r: Result<ChatCompletion, SdkError>,
    ) -> bool {
        if response.candidates@.len() == 0 {
            r matches Err(e) && e@ == ErrorView::Other("No candidates in Gemini response"@)
        } else {
            &&& r matches Ok(completion)
            &&& completion.id@ == "gemini-"@ + drawn
            &&& completion.model@ == model
            &&& completion.usage == gemini_usage(response.usage_metadata)
            &&& single_choice(
                completion,
                "assistant"@,
                joined(part_texts(response.candidates@[0].content.parts@), ""@),
                opt_text(response.candidates@[0].finish_reason),
                created,
            )
        }
    }

    /// The reply of Gemini, made at a moment, under an id that was drawn for it.
    pub fn convert_with_id(
        &self,
        response: GeminiResponse,
        model: &str,
        drawn: &str,
        created: u64,
    ) -> (r: Result<ChatCompletion, SdkError>)
        ensures
            VertexAIProvider::becomes(response, model@, drawn@, created, r),
    {
        let GeminiResponse { candidates, usage_metadata } = response;
        let mut all = candidates;
        if all.len() == 0 {
            return Err(other_error("No candidates in Gemini response"));
        }
        let candidate = all.remove(0);
        let mut found: Vec<String> = Vec::new();
        let mut i: usize = 0;
        while i < candidate.content.parts.len()
            invariant
                i <= candidate.content.parts@.len(),
                found@.len() == i,
                forall|j: int|
                    0 <= j < i ==> (#[trigger] found@[j])@ == candidate.content.parts@[j].text@,
            decreases candidate.content.parts@.len() - i,
        {
            found.push(candidate.content.parts[i].text.clone());
            i = i + 1;
        }
        assert(texts(found@) =~= part_texts(candidate.content.parts@));
        let text = join(&found, "");
        let usage = match usage_metadata {
            Some(u) => Usage {
                prompt_tokens: u.prompt_token_count,
                completion_tokens: u.candidates_token_count,
                total_tokens: u.total_token_count,
                completion_tokens_details: None,
                prompt_tokens_details: None,
            },
            None => Usage::default(),
        };
        let id = concat2("gemini-", drawn);
        Ok(
            one_choice(
                id,
                model.to_owned(),
                "assistant",
                text,
                candidate.finish_reason,
                usage,
                created,
            ),
        )
    }

    /// Whether a reply is what Gemini said, under some id.
    pub open spec fn becomes_somehow(
        response: GeminiResponse,
        model: Seq<char>,
        created: u64,
        r: Result<ChatCompletion, SdkError>,
    ) -> bool {
        exists|drawn: Seq<char>|
            drawn.len() == 36 && #[trigger] VertexAIProvider::becomes(
                response,
                model,
                drawn,
                created,
                r,
            )
    }

    /// The reply of Gemini, made at a moment, under an id drawn at random. That ids
    /// differ rests on chance.
    pub fn convert_from_gemini_response(
        &self,
        response: GeminiResponse,
        model: &str,
        created: u64,
    ) -> (r: Result<ChatCompletion, SdkError>)
        ensures
            VertexAIProvider::becomes_somehow(response, model@, created, r),
    {
        let drawn = new_uuid();
        let r = self.convert_with_id(response, model, drawn.as_str(), created);
        assert(VertexAIProvider::becomes(response, model@, drawn@, created, r));
        r
    }

    /// The reply of Gemini, made at this moment.
    pub fn convert_now(&self, response: GeminiResponse, model: &str) -> (r: Result<
        ChatCompletion,
        SdkError,
    >)
        ensures
            exists|seconds: i64|
                VertexAIProvider::becomes_somehow(
                    response,
                    model@,
                    #[trigger] as_count(seconds),
                    r,
                ),
    {
        let seconds: i64 = unix_seconds();
        let r = self.convert_from_gemini_response(response, model, seconds_count(seconds));
        assert(VertexAIProvider::becomes_somehow(response, model@, as_count(seconds), r));
        r
    }

    /// Prompts are not completed.
    pub fn completion<T>(&self) -> (r: Result<T, SdkError>)
        ensures
            r matches Err(e) && e@ == ErrorView::Other(
                "Legacy completions not supported by Gemini API - use chat completions instead"@,
            ),
    {
        Err(
            other_error(
                "Legacy completions not supported by Gemini API - use chat completions instead",
            ),
        )
    }

    /// Texts are not embedded.
    pub fn embeddings<T>(&self) -> (r: Result<T, SdkError>)
        ensures
            r matches Err(e) && e@ == ErrorView::Other(
                "Embeddings not yet implemented for VertexAI - use a dedicated embedding provider"@,
            ),
    {
        Err(
            other_error(
                "Embeddings not yet implemented for VertexAI - use a dedicated embedding provider",
            ),
        )
    }

    /// The call that shows whether the provider is there.
    pub fn health_call(&self) -> (r: HttpCall)
        ensures
            r@ == (CallView {
                url: "https://generativelanguage.googleapis.com/v1beta/models?key="@
                    + self.config.api_key@,
                headers: Seq::empty(),
                body: None,
            }),
    {
        let url = concat2(
            "https://generativelanguage.googleapis.com/v1beta/models?key=",
            self.config.api_key.as_str(),
        );
        HttpCall { url, headers: no_headers(), body: None }
    }
}

/// What the model said is told as the model's and anything else as the user's, in the
/// order of the messages; those that say nothing are left out.
pub proof fn messages_keep_their_speaker(messages: Seq<ChatMessage>, message: ChatMessage)
    ensures
        ({
            let before = flattened(gemini_turns(messages));
            let all = flattened(gemini_turns(messages.push(message)));
            &&& message.content is Some && message.role@ == "assistant"@ ==> all == before.push(
                ("model"@, message.content->0.plain()),
            )
            &&& message.content is Some && message.role@ != "assistant"@ ==> all == before.push(
                ("user"@, message.content->0.plain()),
            )
            &&& message.content is None ==> all == before
        }),
{
    assert(gemini_turns(messages.push(message)).drop_last() =~= gemini_turns(messages));
}

/// The document carries the conversation and how the reply is generated, if anything is
/// said of that.
pub proof fn documents_carry_the_request(request: ChatCompletionRequest, i: int)
    ensures
        ({
            let told = gemini_document(request);
            let said = flattened(gemini_turns(request.messages@));
            let items = told.field("contents"@)->0.items()->0;
            let config = told.field("generation_config"@);
            &&& items.len() == said.len()
            &&& 0 <= i < said.len() ==> items[i].field_text("role"@) == Some(said[i].0)
                && items[i].field("parts"@)->0.items()->0.len() == 1 && items[i].field(
                "parts"@,
            )->0.items()->0[0].field_text("text"@) == Some(said[i].1)
            &&& request.temperature is None && request.top_p is None && request.max_tokens is None
                && request.max_completion_tokens is None ==> config is None
            &&& request.temperature is Some || request.top_p is Some || request.max_tokens is Some
                || request.max_completion_tokens is Some ==> {
                &&& config is Some
                &&& config->0.field("temperature"@) == number_view(request.temperature)
                &&& config->0.field("topP"@) == number_view(request.top_p)
                &&& request.max_completion_tokens is Some ==> config->0.field_whole(
                    "maxOutputTokens"@,
                ) == Some(request.max_completion_tokens->0 as u64)
                &&& request.max_completion_tokens is None && request.max_tokens is Some
                    ==> config->0.field_whole("maxOutputTokens"@) == Some(
                    request.max_tokens->0 as u64,
                )
            }
        }),
{
    broadcast use crate::json::group_fields;

    reveal_with_fuel(crate::json::last_field, 3);
    reveal_strlit("contents");
    reveal_strlit("generation_config");
    reveal_strlit("role");
    reveal_strlit("parts");
    reveal_strlit("text");
    reveal_strlit("temperature");
    reveal_strlit("topP");
    reveal_strlit("maxOutputTokens");
    assert("contents"@.len() == 8
        && "generation_config"@.len() == 17
        && "role"@.len() == 4
        && "parts"@.len() == 5
        && "text"@.len() == 4
        && "temperature"@.len() == 11
        && "topP"@.len() == 4
        && "maxOutputTokens"@.len() == 15
        && "role"@[0] == 'r'
        && "text"@[0] == 't'
        && "topP"@[0] == 't'
        && "text"@[1] == 'e'
        && "topP"@[1] == 'o');
    let told = gemini_document(request);
    let said = flattened(gemini_turns(request.messages@));
    assert(told.field("contents"@) is Some);
    if 0 <= i < said.len() {
        assert(turn_documents(said)[i] == turn_document(said[i]));
        assert(turn_document(said[i]).field("parts"@) is Some);
    }
    if is_configured(request) {
        assert(config_document(request)->0.field("maxOutputTokens"@) == opt_count_view(
            output_limit(request),
        ));
    }
}

/// A reply is the first candidate's parts one after the other, with the counts as they
/// came.
pub proof fn the_first_candidate_is_the_reply(
    response: GeminiResponse,
    model: Seq<char>,
    drawn: Seq<char>,
    created: u64,
    completion: ChatCompletion,
    usage: GeminiUsage,
)
    requires
        VertexAIProvider::becomes(
            response,
            model,
            drawn,
            created,
            Ok::<ChatCompletion, SdkError>(completion),
        ),
    ensures
        response.candidates@.len() > 0,
        completion.id@ == "gemini-"@ + drawn,
        completion.model@ == model,
        completion.choices@.len() == 1,
        crate::llm::models::chat::says(
            completion.choices@[0].message,
            "assistant"@,
            joined(part_texts(response.candidates@.first().content.parts@), ""@),
        ),
        opt_text(completion.choices@[0].finish_reason) == opt_text(
            response.candidates@.first().finish_reason,
        ),
        gemini_usage(Some(usage)).prompt_tokens == usage.prompt_token_count,
        gemini_usage(Some(usage)).completion_tokens == usage.candidates_token_count,
        gemini_usage(Some(usage)).total_tokens == usage.total_token_count,
        completion.usage == gemini_usage(response.usage_metadata),
{
}

} // verus!
