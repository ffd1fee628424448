//! What a caller asks of a model and what it gets back, whatever the provider.
use vstd::prelude::*;

use crate::duration::Duration;
use crate::error::{other_error, ErrorView, SdkError};
use crate::json::{opt_json, Json, JsonNumber, JsonView};
use crate::text::opt_text;

verus! {

/// A request to a model.
#[derive(Clone, Debug)]
pub struct GenerateRequest {
    pub model: String,
    pub system_prompt: Option<String>,
    pub messages: Vec<Message>,
    pub tools: Vec<ToolDefinition>,
    pub tool_choice: Option<ToolChoice>,
    pub user_id: Option<String>,
    /// The reply that this request continues, where the provider keeps replies.
    pub previous_response_id: Option<String>,
    pub config: GenerationConfig,
}

/// A request whose reply is wanted piece by piece.
pub type StreamRequest = GenerateRequest;

/// How a reply is generated.
#[derive(Clone, Debug)]
pub struct GenerationConfig {
    pub temperature: Option<JsonNumber>,
    pub top_p: Option<JsonNumber>,
    pub max_output_tokens: Option<u32>,
    pub response_format: ResponseFormat,
    pub reasoning_effort: Option<ReasoningEffort>,
    pub modalities: Option<Vec<Modality>>,
    pub built_in_tools: Vec<BuiltInTool>,
    pub prompt_cache: Option<PromptCacheConfig>,
    /// Overrides the client's timeout.
    pub timeout: Option<Duration>,
}

/// The form of the reply's text.
#[derive(Clone, Debug)]
pub enum ResponseFormat {
    Text,
    Json,
    JsonSchema(JsonSchemaFormat),
}

/// A schema that the reply's text is to match.
#[derive(Clone, Debug)]
pub struct JsonSchemaFormat {
    pub name: String,
    pub schema: Json,
    pub strict: bool,
}

/// How much a model is to reason before it replies.
#[derive(Clone, Copy, Debug, PartialEq, Eq, Structural)]
pub enum ReasoningEffort {
    Minimal,
    Medium,
    High,
}

/// A form in which a model may reply.
#[derive(Clone, Copy, Debug, PartialEq, Eq, Structural)]
pub enum Modality {
    Text,
    Audio,
    Image,
}

/// A tool that the provider runs itself.
#[derive(Clone, Copy, Debug, PartialEq, Eq, Structural)]
pub enum BuiltInTool {
    WebSearch,
    CodeInterpreter,
    FileSearch,
    WebFetch,
}

/// Whether, and where, the provider keeps the prompt for later requests.
#[derive(Clone, Debug)]
pub struct PromptCacheConfig {
    pub enabled: bool,
    pub resource: Option<String>,
}

/// One message of a conversation.
#[derive(Clone, Debug)]
pub struct Message {
    pub role: MessageRole,
    pub content: String,
    /// The call that this message answers.
    pub tool_call_id: Option<String>,
    /// The calls that this message makes.
    pub tool_calls: Option<Vec<ToolCall>>,
}

/// Who speaks.
#[derive(Clone, Copy, Debug, PartialEq, Eq, Structural)]
pub enum MessageRole {
    System,
    User,
    Assistant,
}

/// A tool that the model may call.
#[derive(Clone, Debug)]
pub struct ToolDefinition {
    pub name: String,
    pub description: Option<String>,
    pub parameters: Option<Json>,
    pub strict: Option<bool>,
}

/// Which tool the model is to call.
#[derive(Clone, Debug)]
pub enum ToolChoice {
    Auto,
    NoTools,
    Required,
    Tool { name: String },
}

/// A call that the model makes.
#[derive(Clone, Debug)]
pub struct ToolCall {
    pub id: String,
    pub name: String,
    /// The arguments as JSON text.
    pub arguments: String,
    /// What the provider wants back with the call's result.
    pub provider_data: Option<Json>,
}

/// What a `ToolCall` stands for.
pub struct ToolCallView {
    pub id: Seq<char>,
    pub name: Seq<char>,
    pub arguments: Seq<char>,
    pub provider_data: Option<JsonView>,
}

impl View for ToolCall {
    type V = ToolCallView;

    open spec fn view(&self) -> ToolCallView {
        ToolCallView {
            id: self.id@,
            name: self.name@,
            arguments: self.arguments@,
            provider_data: opt_json(self.provider_data),
        }
    }
}

/// What a list of calls stands for.
pub open spec fn call_views(calls: Seq<ToolCall>) -> Seq<ToolCallView> {
    Seq::new(calls.len(), |i: int| calls[i]@)
}

/// What an optional list of calls stands for.
pub open spec fn opt_calls(calls: Option<Vec<ToolCall>>) -> Option<Seq<ToolCallView>> {
    match calls {
        Some(list) => Some(call_views(list@)),
        None => None,
    }
}

/// A list of calls, or nothing where it is empty.
pub open spec fn some_calls(calls: Seq<ToolCallView>) -> Option<Seq<ToolCallView>> {
    if calls.len() == 0 {
        None
    } else {
        Some(calls)
    }
}

/// What a request cost, in tokens.
#[derive(Clone, Copy, Debug, PartialEq, Eq, Structural)]
pub struct TokenUsage {
    pub prompt_tokens: Option<u32>,
    pub completion_tokens: Option<u32>,
    pub total_tokens: Option<u32>,
    /// The part of the prompt that was read from a cache.
    pub cached_tokens: Option<u32>,
    /// The part of the prompt that was written to a cache.
    pub cache_creation_tokens: Option<u32>,
}

/// What the transport says of a reply.
#[derive(Clone, Debug)]
pub struct ResponseMetadata {
    pub status_code: Option<u16>,
    pub request_id: Option<String>,
    pub rate_limit_remaining: Option<u32>,
    /// How long it takes until the limit is lifted, in nanoseconds.
    pub rate_limit_reset: Option<u128>,
}

/// A complete reply.
#[derive(Clone, Debug)]
pub struct GenerateResponse {
    pub id: String,
    pub model: String,
    pub created: Option<u64>,
    pub text: String,
    pub usage: Option<TokenUsage>,
    pub finish_reason: Option<String>,
    pub tool_calls: Option<Vec<ToolCall>>,
    pub object: Option<Json>,
    pub raw: Option<Json>,
    pub metadata: Option<ResponseMetadata>,
}

/// What a `GenerateResponse` says.
pub struct ResponseView {
    pub id: Seq<char>,
    pub model: Seq<char>,
    pub created: Option<u64>,
    pub text: Seq<char>,
    pub usage: Option<TokenUsage>,
    pub finish_reason: Option<Seq<char>>,
    pub tool_calls: Option<Seq<ToolCallView>>,
    pub object: Option<JsonView>,
    pub raw: Option<JsonView>,
    pub metadata: Option<ResponseMetadata>,
}

impl View for GenerateResponse {
    type V = ResponseView;

    open spec fn view(&self) -> ResponseView {
        ResponseView {
            id: self.id@,
            model: self.model@,
            created: self.created,
            text: self.text@,
            usage: self.usage,
            finish_reason: opt_text(self.finish_reason),
            tool_calls: opt_calls(self.tool_calls),
            object: opt_json(self.object),
            raw: opt_json(self.raw),
            metadata: self.metadata,
        }
    }
}

/// The kind of a block of a reply.
#[derive(Clone, Copy, Debug, PartialEq, Eq, Structural)]
pub enum ContentBlockType {
    Text,
    Thinking,
}

/// A piece of a reply.
#[derive(Clone, Debug)]
pub enum StreamChunk {
    ContentBlockStart { index: u32, block_type: ContentBlockType },
    Delta { content: String, index: u32, block_type: ContentBlockType },
    ContentBlockStop { index: u32 },
    Completed(GenerateResponse),
}

/// What a `StreamChunk` says.
pub enum ChunkView {
    ContentBlockStart { index: u32, block_type: ContentBlockType },
    Delta { content: Seq<char>, index: u32, block_type: ContentBlockType },
    ContentBlockStop { index: u32 },
    Completed(ResponseView),
}

impl View for StreamChunk {
    type V = ChunkView;

    open spec fn view(&self) -> ChunkView {
        match self {
            StreamChunk::ContentBlockStart { index, block_type } => ChunkView::ContentBlockStart {
                index: *index,
                block_type: *block_type,
            },
            StreamChunk::Delta { content, index, block_type } => ChunkView::Delta {
                content: content@,
                index: *index,
                block_type: *block_type,
            },
            StreamChunk::ContentBlockStop { index } => ChunkView::ContentBlockStop {
                index: *index,
            },
            StreamChunk::Completed(response) => ChunkView::Completed(response@),
        }
    }
}

/// What a list of pieces says.
pub open spec fn chunk_views(chunks: Seq<StreamChunk>) -> Seq<ChunkView> {
    Seq::new(chunks.len(), |i: int| chunks[i]@)
}

/// What a stream has given so far: the pieces to hand on, and the failure that ended
/// it, if one did.
#[derive(Debug)]
pub struct StreamOutput {
    pub chunks: Vec<StreamChunk>,
    pub failure: Option<SdkError>,
}

/// What a `StreamOutput` says.
pub struct OutputView {
    pub chunks: Seq<ChunkView>,
    pub failure: Option<ErrorView>,
}

impl View for StreamOutput {
    type V = OutputView;

    open spec fn view(&self) -> OutputView {
        OutputView {
            chunks: chunk_views(self.chunks@),
            failure: match self.failure {
                Some(e) => Some(e@),
                None => None,
            },
        }
    }
}

impl OutputView {
    /// Whether nothing more comes.
    pub open spec fn over(self) -> bool {
        self.failure is Some || (self.chunks.len() > 0 && self.chunks.last() is Completed)
    }
}

impl StreamOutput {
    /// Whether nothing more comes: after a failure, and after the whole reply.
    pub fn is_over(&self) -> (r: bool)
        ensures
            r == self@.over(),
    {
        if self.failure.is_some() {
            return true;
        }
        let n: usize = self.chunks.len();
        n > 0 && matches!(self.chunks[n - 1], StreamChunk::Completed(_))
    }
}

/// Hands on one more piece.
pub fn push_chunk(chunks: &mut Vec<StreamChunk>, chunk: StreamChunk)
    ensures
        chunk_views(final(chunks)@) == chunk_views(old(chunks)@).push(chunk@),
{
    let ghost before = chunk_views(chunks@);
    chunks.push(chunk);
    assert(chunk_views(chunks@) =~= before.push(chunk@));
}

/// Where someone stands who waits for the whole reply of a stream.
#[derive(Debug)]
pub enum Awaited {
    /// The reply is still to come.
    More,
    /// The reply, or why there is none.
    Over(Result<GenerateResponse, SdkError>),
}

/// Takes in what a stream gives next, or its end. A piece of the text is passed over;
/// the whole reply or a failure ends the wait, and so does a stream that ends without
/// either.
pub fn await_reply(next: Option<Result<StreamChunk, SdkError>>) -> (r: Awaited)
    ensures
        match next {
            Some(Ok(StreamChunk::Completed(response))) => r == Awaited::Over(Ok(response)),
            Some(Ok(_)) => r is More,
            Some(Err(e)) => r == Awaited::Over(Err(e)),
            None => r matches Awaited::Over(Err(e)) && e@ == ErrorView::Other(
                "stream ended without a completion response"@,
            ),
        },
{
    match next {
        Some(Ok(StreamChunk::Completed(response))) => Awaited::Over(Ok(response)),
        Some(Ok(_)) => Awaited::More,
        Some(Err(e)) => Awaited::Over(Err(e)),
        None => Awaited::Over(Err(other_error("stream ended without a completion response"))),
    }
}

/// The text that the pieces carry.
pub open spec fn delta_text(chunks: Seq<ChunkView>) -> Seq<char>
    decreases chunks.len(),
{
    if chunks.len() == 0 {
        Seq::empty()
    } else {
        delta_text(chunks.drop_last()) + (match chunks.last() {
            ChunkView::Delta { content, .. } => content,
            _ => Seq::empty(),
        })
    }
}

/// The text of pieces that come in two lots is the text of the first, then of the
/// second.
pub proof fn delta_text_of_both(a: Seq<ChunkView>, b: Seq<ChunkView>)
    ensures
        delta_text(a + b) == delta_text(a) + delta_text(b),
    decreases b.len(),
{
    if b.len() == 0 {
        assert(a + b =~= a);
        assert(delta_text(a) + Seq::<char>::empty() =~= delta_text(a));
    } else {
        delta_text_of_both(a, b.drop_last());
        assert((a + b).drop_last() =~= a + b.drop_last());
        assert((a + b).last() == b.last());
        let piece = match b.last() {
            ChunkView::Delta { content, .. } => content,
            _ => Seq::empty(),
        };
        assert((delta_text(a) + delta_text(b.drop_last())) + piece =~= delta_text(a) + (delta_text(
            b.drop_last(),
        ) + piece));
    }
}

impl Default for ResponseFormat {
    fn default() -> (r: Self)
        ensures
            r is Text,
    {
        ResponseFormat::Text
    }
}

impl Default for GenerationConfig {
    fn default() -> (r: Self)
        ensures
            r == GenerationConfig::plain(r.built_in_tools),
            r.built_in_tools@.len() == 0,
    {
        GenerationConfig {
            temperature: None,
            top_p: None,
            max_output_tokens: None,
            response_format: ResponseFormat::Text,
            reasoning_effort: None,
            modalities: None,
            built_in_tools: Vec::new(),
            prompt_cache: None,
            timeout: None,
        }
    }
}

impl GenerationConfig {
    /// Plain text with the provider's own settings.
    pub open spec fn plain(built_in_tools: Vec<BuiltInTool>) -> GenerationConfig {
        GenerationConfig {
            temperature: None,
            top_p: None,
            max_output_tokens: None,
            response_format: ResponseFormat::Text,
            reasoning_effort: None,
            modalities: None,
            built_in_tools,
            prompt_cache: None,
            timeout: None,
        }
    }

    pub fn temperature(self, value: JsonNumber) -> (r: Self)
        ensures
            r == (GenerationConfig { temperature: Some(value), ..self }),
    {
        GenerationConfig { temperature: Some(value), ..self }
    }

    pub fn top_p(self, value: JsonNumber) -> (r: Self)
        ensures
            r == (GenerationConfig { top_p: Some(value), ..self }),
    {
        GenerationConfig { top_p: Some(value), ..self }
    }

    pub fn max_output_tokens(self, value: u32) -> (r: Self)
        ensures
            r == (GenerationConfig { max_output_tokens: Some(value), ..self }),
    {
        GenerationConfig { max_output_tokens: Some(value), ..self }
    }

    pub fn response_format(self, format: ResponseFormat) -> (r: Self)
        ensures
            r == (GenerationConfig { response_format: format, ..self }),
    {
        GenerationConfig { response_format: format, ..self }
    }
}

impl PromptCacheConfig {
    /// A cache that is used, at a place of the provider's choice.
    pub fn enabled() -> (r: Self)
        ensures
            r == (PromptCacheConfig { enabled: true, resource: None }),
    {
        PromptCacheConfig { enabled: true, resource: None }
    }

    /// The cache named `resource`.
    pub fn resource(self, resource: &str) -> (r: Self)
        ensures
            r.enabled == self.enabled,
            opt_text(r.resource) == Some(resource@),
    {
        PromptCacheConfig { resource: Some(resource.to_owned()), ..self }
    }
}

impl GenerateRequest {
    pub fn new(model: &str) -> (r: Self)
        ensures
            r.model@ == model@,
            r.system_prompt is None,
            r.messages@.len() == 0,
            r.tools@.len() == 0,
            r.tool_choice is None,
            r.user_id is None,
            r.previous_response_id is None,
            r.config == GenerationConfig::plain(r.config.built_in_tools),
            r.config.built_in_tools@.len() == 0,
    {
        GenerateRequest {
            model: model.to_owned(),
            system_prompt: None,
            messages: Vec::new(),
            tools: Vec::new(),
            tool_choice: None,
            user_id: None,
            previous_response_id: None,
            config: GenerationConfig::default(),
        }
    }

    pub fn system_prompt(self, prompt: &str) -> (r: Self)
        ensures
            r == (GenerateRequest { system_prompt: r.system_prompt, ..self }),
            opt_text(r.system_prompt) == Some(prompt@),
    {
        GenerateRequest { system_prompt: Some(prompt.to_owned()), ..self }
    }

    pub fn message(self, message: Message) -> (r: Self)
        ensures
            r == (GenerateRequest { messages: r.messages, ..self }),
            r.messages@ == self.messages@.push(message),
    {
        let mut r = self;
        r.messages.push(message);
        r
    }

    pub fn system_message(self, content: &str) -> (r: Self)
        ensures
            r == (GenerateRequest { messages: r.messages, ..self }),
            r.messages@ == self.messages@.push(r.messages@.last()),
            r.messages@.last().says(MessageRole::System, content@),
    {
        self.message(Message::system(content))
    }

    pub fn user_message(self, content: &str) -> (r: Self)
        ensures
            r == (GenerateRequest { messages: r.messages, ..self }),
            r.messages@ == self.messages@.push(r.messages@.last()),
            r.messages@.last().says(MessageRole::User, content@),
    {
        self.message(Message::user(content))
    }

    pub fn assistant_message(self, content: &str) -> (r: Self)
        ensures
            r == (GenerateRequest { messages: r.messages, ..self }),
            r.messages@ == self.messages@.push(r.messages@.last()),
            r.messages@.last().says(MessageRole::Assistant, content@),
    {
        self.message(Message::assistant(content))
    }

    pub fn add_tool(self, tool: ToolDefinition) -> (r: Self)
        ensures
            r == (GenerateRequest { tools: r.tools, ..self }),
            r.tools@ == self.tools@.push(tool),
    {
        let mut r = self;
        r.tools.push(tool);
        r
    }

    pub fn tools(self, tools: Vec<ToolDefinition>) -> (r: Self)
        ensures
            r == (GenerateRequest { tools, ..self }),
    {
        GenerateRequest { tools, ..self }
    }

    pub fn tool_choice(self, choice: Option<ToolChoice>) -> (r: Self)
        ensures
            r == (GenerateRequest { tool_choice: choice, ..self }),
    {
        GenerateRequest { tool_choice: choice, ..self }
    }

    pub fn user_id(self, value: &str) -> (r: Self)
        ensures
            r == (GenerateRequest { user_id: r.user_id, ..self }),
            opt_text(r.user_id) == Some(value@),
    {
        GenerateRequest { user_id: Some(value.to_owned()), ..self }
    }

    /// Replaces the configuration by what `configure` makes of it.
    pub fn configure<F>(self, configure: F) -> (r: Self) where
        F: FnOnce(GenerationConfig) -> GenerationConfig,

        requires
            configure.requires((self.config,)),
        ensures
            r == (GenerateRequest { config: r.config, ..self }),
            configure.ensures((self.config,), r.config),
    {
        let config = configure(self.config);
        GenerateRequest {
            model: self.model,
            system_prompt: self.system_prompt,
            messages: self.messages,
            tools: self.tools,
            tool_choice: self.tool_choice,
            user_id: self.user_id,
            previous_response_id: self.previous_response_id,
            config,
        }
    }

    pub fn with_config(self, config: GenerationConfig) -> (r: Self)
        ensures
            r == (GenerateRequest { config, ..self }),
    {
        GenerateRequest { config, ..self }
    }

    pub fn response_format(self, format: ResponseFormat) -> (r: Self)
        ensures
            r == (GenerateRequest { config: r.config, ..self }),
            r.config == (GenerationConfig { response_format: format, ..self.config }),
    {
        let mut r = self;
        r.config.response_format = format;
        r
    }
}

impl JsonSchemaFormat {
    pub fn new(name: &str, schema: Json) -> (r: Self)
        ensures
            r.name@ == name@,
            r.schema == schema,
            r.strict,
    {
        JsonSchemaFormat { name: name.to_owned(), schema, strict: true }
    }

    pub fn with_strict(self, strict: bool) -> (r: Self)
        ensures
            r == (JsonSchemaFormat { strict, ..self }),
    {
        JsonSchemaFormat { strict, ..self }
    }
}

impl Message {
    /// A message with a text and without calls.
    pub open spec fn says(self, role: MessageRole, content: Seq<char>) -> bool {
        self.role == role && self.content@ == content && self.tool_call_id is None
            && self.tool_calls is None
    }

    pub fn new(role: MessageRole, content: &str) -> (r: Self)
        ensures
            r.says(role, content@),
    {
        Message { role, content: content.to_owned(), tool_call_id: None, tool_calls: None }
    }

    pub fn system(content: &str) -> (r: Self)
        ensures
            r.says(MessageRole::System, content@),
    {
        Message::new(MessageRole::System, content)
    }

    pub fn user(content: &str) -> (r: Self)
        ensures
            r.says(MessageRole::User, content@),
    {
        Message::new(MessageRole::User, content)
    }

    pub fn assistant(content: &str) -> (r: Self)
        ensures
            r.says(MessageRole::Assistant, content@),
    {
        Message::new(MessageRole::Assistant, content)
    }

    /// What the model said together with the calls it made.
    pub fn assistant_with_tool_calls(content: &str, calls: Vec<ToolCall>) -> (r: Self)
        ensures
            r.role == MessageRole::Assistant,
            r.content@ == content@,
            r.tool_call_id is None,
            r.tool_calls == Some(calls),
    {
        Message {
            role: MessageRole::Assistant,
            content: content.to_owned(),
            tool_call_id: None,
            tool_calls: Some(calls),
        }
    }

    /// What the call `id` gave.
    pub fn tool_result(id: &str, content: &str) -> (r: Self)
        ensures
            r.role == MessageRole::User,
            r.content@ == content@,
            opt_text(r.tool_call_id) == Some(id@),
            r.tool_calls is None,
    {
        Message {
            role: MessageRole::User,
            content: content.to_owned(),
            tool_call_id: Some(id.to_owned()),
            tool_calls: None,
        }
    }
}

impl MessageRole {
    /// The name of the role on the wire.
    pub open spec fn name(self) -> Seq<char> {
        match self {
            MessageRole::System => "system"@,
            MessageRole::User => "user"@,
            MessageRole::Assistant => "assistant"@,
        }
    }

    pub fn as_str(&self) -> (r: &'static str)
        ensures
            r@ == self.name(),
    {
        match self {
            MessageRole::System => "system",
            MessageRole::User => "user",
            MessageRole::Assistant => "assistant",
        }
    }
}

impl ToolDefinition {
    pub fn new(name: &str) -> (r: Self)
        ensures
            r.name@ == name@,
            r.description is None,
            r.parameters is None,
            r.strict is None,
    {
        ToolDefinition { name: name.to_owned(), description: None, parameters: None, strict: None }
    }

    pub fn description(self, text: &str) -> (r: Self)
        ensures
            r == (ToolDefinition { description: r.description, ..self }),
            opt_text(r.description) == Some(text@),
    {
        ToolDefinition { description: Some(text.to_owned()), ..self }
    }

    pub fn parameters(self, parameters: Json) -> (r: Self)
        ensures
            r == (ToolDefinition { parameters: Some(parameters), ..self }),
    {
        ToolDefinition { parameters: Some(parameters), ..self }
    }

    pub fn strict(self, strict: bool) -> (r: Self)
        ensures
            r == (ToolDefinition { strict: Some(strict), ..self }),
    {
        ToolDefinition { strict: Some(strict), ..self }
    }
}

impl ToolCall {
    /// The same call again.
    pub fn duplicate(&self) -> (r: ToolCall)
        ensures
            r@ == self@,
    {
        ToolCall {
            id: self.id.clone(),
            name: self.name.clone(),
            arguments: self.arguments.clone(),
            provider_data: match &self.provider_data {
                Some(data) => Some(data.duplicate()),
                None => None,
            },
        }
    }
}

/// The text that the pieces of one kind carry, in their order.
pub open spec fn text_of_kind(chunks: Seq<ChunkView>, kind: ContentBlockType) -> Seq<char>
    decreases chunks.len(),
{
    if chunks.len() == 0 {
        Seq::empty()
    } else {
        text_of_kind(chunks.drop_last(), kind) + (match chunks.last() {
            ChunkView::Delta { content, block_type, .. } => if block_type == kind {
                content
            } else {
                Seq::empty()
            },
            _ => Seq::empty(),
        })
    }
}

/// The text of one kind in pieces that come in two lots is that of the first, then
/// that of the second.
pub proof fn text_of_kind_in_both(a: Seq<ChunkView>, b: Seq<ChunkView>, kind: ContentBlockType)
    ensures
        text_of_kind(a + b, kind) == text_of_kind(a, kind) + text_of_kind(b, kind),
    decreases b.len(),
{
    if b.len() == 0 {
        assert(a + b =~= a);
        assert(text_of_kind(a, kind) + Seq::<char>::empty() =~= text_of_kind(a, kind));
    } else {
        text_of_kind_in_both(a, b.drop_last(), kind);
        assert((a + b).drop_last() =~= a + b.drop_last());
        assert((a + b).last() == b.last());
        let last = match b.last() {
            ChunkView::Delta { content, block_type, .. } => if block_type == kind {
                content
            } else {
                Seq::empty()
            },
            _ => Seq::empty(),
        };
        assert(text_of_kind(a, kind) + text_of_kind(b.drop_last(), kind) + last =~= text_of_kind(
            a,
            kind,
        ) + (text_of_kind(b.drop_last(), kind) + last));
    }
}

/// One piece more of a kind makes the text of that kind longer by it, at the end, and
/// leaves the text of the other kind alone.
pub proof fn pieces_make_up_their_kind(
    chunks: Seq<ChunkView>,
    content: Seq<char>,
    index: u32,
    kind: ContentBlockType,
)
    ensures
        text_of_kind(chunks.push(ChunkView::Delta { content, index, block_type: kind }), kind)
            == text_of_kind(chunks, kind) + content,
        forall|other: ContentBlockType|
            other != kind ==> #[trigger] text_of_kind(
                chunks.push(ChunkView::Delta { content, index, block_type: kind }),
                other,
            ) == text_of_kind(chunks, other),
{
    let all = chunks.push(ChunkView::Delta { content, index, block_type: kind });
    assert(all.drop_last() =~= chunks);
    assert forall|other: ContentBlockType| other != kind implies #[trigger] text_of_kind(all, other)
        == text_of_kind(chunks, other) by {
        assert(text_of_kind(chunks, other) + Seq::<char>::empty() =~= text_of_kind(chunks, other));
    }
}

/// Who speaks is told by the word for it, and by different words.
pub proof fn roles_have_their_names(a: MessageRole, b: MessageRole)
    ensures
        MessageRole::System.name() == "system"@,
        MessageRole::User.name() == "user"@,
        MessageRole::Assistant.name() == "assistant"@,
        a.name() == b.name() <==> a == b,
{
    reveal_strlit("system");
    reveal_strlit("user");
    reveal_strlit("assistant");
    assert("system"@.len() == 6
        && "user"@.len() == 4
        && "assistant"@.len() == 9);
}

/// A stream is over after a failure and after the whole reply, and before that only
/// pieces of the reply come.
pub proof fn streams_end_with_a_reply_or_a_failure(out: OutputView)
    ensures
        out.failure is Some ==> out.over(),
        out.failure is None && out.chunks.len() == 0 ==> !out.over(),
        out.failure is None && out.chunks.len() > 0 ==> (out.over() <==> exists|r: ResponseView|
            out.chunks.last() == ChunkView::Completed(r)),
{
    if out.chunks.len() > 0 && out.chunks.last() is Completed {
        assert(out.chunks.last() == ChunkView::Completed(out.chunks.last()->Completed_0));
    }
}

/// The calls of a reply are all those that were made, in their order; no calls are told
/// by nothing.
pub proof fn calls_are_told_unless_there_are_none(calls: Seq<ToolCallView>)
    ensures
        calls.len() == 0 ==> some_calls(calls) is None,
        calls.len() > 0 ==> some_calls(calls) == Some(calls),
{
}

/// Replies and their pieces say what they hold.
pub proof fn replies_say_what_they_hold(
    response: GenerateResponse,
    call: ToolCall,
    calls: Seq<ToolCall>,
    chunk: StreamChunk,
    output: StreamOutput,
)
    ensures
        response@.id == response.id@,
        response@.model == response.model@,
        response@.text == response.text@,
        response@.created == response.created,
        response@.usage == response.usage,
        response@.finish_reason == opt_text(response.finish_reason),
        response.tool_calls is None ==> response@.tool_calls is None,
        response.tool_calls matches Some(own) ==> response@.tool_calls == Some(call_views(own@)),
        call@.id == call.id@,
        call@.name == call.name@,
        call@.arguments == call.arguments@,
        call_views(calls.push(call)) == call_views(calls).push(call@),
        chunk matches StreamChunk::Delta { content, index, block_type } ==> chunk@ == (
        ChunkView::Delta { content: content@, index, block_type }),
        chunk matches StreamChunk::ContentBlockStart { index, block_type } ==> chunk@ == (
        ChunkView::ContentBlockStart { index, block_type }),
        chunk matches StreamChunk::ContentBlockStop { index } ==> chunk@ == (
        ChunkView::ContentBlockStop { index }),
        chunk matches StreamChunk::Completed(reply) ==> chunk@ == ChunkView::Completed(reply@),
        output@.chunks == chunk_views(output.chunks@),
        output.failure is None <==> output@.failure is None,
        output.failure matches Some(e) ==> output@.failure == Some(e@),
{
    assert(call_views(calls.push(call)) =~= call_views(calls).push(call@));
}

} // verus!
