//! Conversations with a model.
use vstd::prelude::*;
use vstd::string::*;

use super::tools::{
    calls_document, calls_json, choice_document, choice_json, tools_document, tools_json,
    ResponseFormat, ToolCall, ToolChoice, ToolDefinition,
};
use super::usage::Usage;
use crate::error::{ErrorView, SdkError};
use crate::json::{
    bool_json, bool_view, field_if, field_views, json_views, no_fields, no_items, number_json,
    number_view, opt_count_json, opt_count_view, put, put_item, put_opt, put_text, text_json,
    text_view, texts_json, texts_view, Json, JsonNumber, JsonView,
};
use crate::seqs::{flattened, flattened_next, prefix_next, whole_prefix};
use crate::text::{concat2, is_blank, join, joined, opt_text, str_eq, texts, trimmed};

verus! {

/// How much a model is to reason before it replies.
#[derive(Clone, Debug)]
pub struct ReasoningConfig {
    /// `low`, `medium` or `high`.
    pub effort: Option<String>,
    /// In place of the effort, how many tokens it may take.
    pub max_tokens: Option<u32>,
    /// Whether the reasoning is left out of the reply.
    pub exclude: Option<bool>,
}

/// A count of 32 bits read as a signed number, which wraps around.
pub open spec fn wrapped_count(n: u32) -> i32 {
    if n <= i32::MAX {
        n as i32
    } else {
        (n - 0x1_0000_0000) as i32
    }
}

fn wrap_count(n: u32) -> (r: i32)
    ensures
        r == wrapped_count(n),
{
    if n <= 0x7fff_ffff {
        n as i32
    } else {
        (n as i64 - 0x1_0000_0000) as i32
    }
}

impl ReasoningConfig {
    /// What is wrong with the settings, if anything is. The effort does not matter
    /// where tokens are counted.
    pub open spec fn fault(self) -> Option<Seq<char>> {
        match (self.effort, self.max_tokens) {
            (Some(effort), None) => if trimmed(effort@).len() == 0 {
                Some("Effort cannot be empty string"@)
            } else if effort@ != "low"@ && effort@ != "medium"@ && effort@ != "high"@ {
                Some("Invalid effort value. Must be 'low', 'medium', or 'high'"@)
            } else {
                None
            },
            _ => None,
        }
    }

    /// Checks the settings.
    pub fn validate(&self) -> (r: Result<(), String>)
        ensures
            match r {
                Ok(_) => self.fault() is None,
                Err(e) => self.fault() == Some(e@),
            },
    {
        if let Some(effort) = &self.effort {
            if self.max_tokens.is_none() {
                if is_blank(effort.as_str()) {
                    return Err("Effort cannot be empty string".to_owned());
                }
                if !str_eq(effort.as_str(), "low") && !str_eq(effort.as_str(), "medium")
                    && !str_eq(effort.as_str(), "high") {
                    return Err(
                        "Invalid effort value. Must be 'low', 'medium', or 'high'".to_owned(),
                    );
                }
            }
        }
        Ok(())
    }

    /// The effort, where it counts: it is not blank, and tokens are not counted.
    pub open spec fn own_effort(self) -> Option<Seq<char>> {
        match (self.effort, self.max_tokens) {
            (Some(effort), None) => if trimmed(effort@).len() == 0 {
                None
            } else {
                Some(effort@)
            },
            _ => None,
        }
    }

    /// The effort for OpenAI and Azure.
    pub fn to_openai_effort(&self) -> (r: Option<String>)
        ensures
            opt_text(r) == self.own_effort(),
    {
        if self.max_tokens.is_some() {
            return None;
        }
        match &self.effort {
            Some(effort) => if is_blank(effort.as_str()) {
                None
            } else {
                Some(effort.clone())
            },
            None => None,
        }
    }

    /// How many tokens Gemini may reason with.
    pub fn to_gemini_thinking_budget(&self) -> (r: Option<i32>)
        ensures
            r == (match self.max_tokens {
                Some(n) => Some(wrapped_count(n)),
                None => None,
            }),
    {
        match self.max_tokens {
            Some(n) => Some(wrap_count(n)),
            None => None,
        }
    }

    /// What a model is told so that it reasons.
    pub open spec fn thinking_prompt(self) -> Option<Seq<char>> {
        if self.max_tokens is Some || self.own_effort() == Some("high"@) {
            Some("Think through this step-by-step with detailed reasoning."@)
        } else if self.own_effort() == Some("medium"@) {
            Some("Consider this problem thoughtfully."@)
        } else if self.own_effort() == Some("low"@) {
            Some("Think about this briefly."@)
        } else {
            None
        }
    }

    /// What Anthropic's models are told so that they reason.
    pub fn to_thinking_prompt(&self) -> (r: Option<String>)
        ensures
            opt_text(r) == self.thinking_prompt(),
    {
        if self.max_tokens.is_some() {
            return Some("Think through this step-by-step with detailed reasoning.".to_owned());
        }
        match self.to_openai_effort() {
            Some(effort) => {
                if str_eq(effort.as_str(), "high") {
                    Some("Think through this step-by-step with detailed reasoning.".to_owned())
                } else if str_eq(effort.as_str(), "medium") {
                    Some("Consider this problem thoughtfully.".to_owned())
                } else if str_eq(effort.as_str(), "low") {
                    Some("Think about this briefly.".to_owned())
                } else {
                    None
                }
            },
            None => None,
        }
    }

    /// The settings as a document.
    pub open spec fn document(self) -> JsonView {
        JsonView::Object(
            Seq::<(Seq<char>, JsonView)>::empty() + field_if("effort"@, text_view(self.effort))
                + field_if("max_tokens"@, opt_count_view(self.max_tokens)) + field_if(
                "exclude"@,
                bool_view(self.exclude),
            ),
        )
    }

    fn to_json(&self) -> (r: Json)
        ensures
            r@ == self.document(),
    {
        let mut fields = no_fields();
        put_opt(&mut fields, "effort", text_json(&self.effort));
        put_opt(&mut fields, "max_tokens", opt_count_json(self.max_tokens));
        put_opt(&mut fields, "exclude", bool_json(self.exclude));
        Json::object(fields)
    }
}

/// A model that reasons by an effort that was checked is told so, and the other way
/// round: checked settings with an effort or a count of tokens give a prompt.
pub proof fn checked_settings_give_a_prompt(config: ReasoningConfig)
    requires
        config.fault() is None,
    ensures
        config.thinking_prompt() is Some <==> config.effort is Some || config.max_tokens is Some,
{
}

/// What a message says: one text, or parts.
#[derive(Clone, Debug)]
pub enum ChatMessageContent {
    String(String),
    Array(Vec<ContentPart>),
}

/// A part of a message.
#[derive(Clone, Debug)]
pub struct ContentPart {
    /// The kind of part: `text`, `image_url` and the like.
    pub kind: String,
    pub text: Option<String>,
    pub image_url: Option<ImageUrl>,
}

/// Where an image is found.
#[derive(Clone, Debug)]
pub struct ImageUrl {
    pub url: String,
    /// `low`, `high` or `auto`.
    pub detail: Option<String>,
}

/// A message of a conversation.
#[derive(Clone, Debug)]
pub struct ChatMessage {
    /// `system`, `user`, `assistant` or `tool`.
    pub role: String,
    pub content: Option<ChatMessageContent>,
    pub name: Option<String>,
    pub tool_calls: Option<Vec<ToolCall>>,
    pub tool_call_id: Option<String>,
    pub refusal: Option<String>,
}

/// The texts of parts.
pub open spec fn part_texts(parts: Seq<ContentPart>) -> Seq<Option<Seq<char>>> {
    Seq::new(parts.len(), |i: int| opt_text(parts[i].text))
}

impl ChatMessageContent {
    /// All that is said as one text: the parts that have one, line by line.
    pub open spec fn plain(self) -> Seq<char> {
        match self {
            ChatMessageContent::String(text) => text@,
            ChatMessageContent::Array(parts) => joined(flattened(part_texts(parts@)), "\n"@),
        }
    }

    /// All that is said as one text.
    pub fn to_plain(&self) -> (r: String)
        ensures
            r@ == self.plain(),
    {
        match self {
            ChatMessageContent::String(text) => text.clone(),
            ChatMessageContent::Array(parts) => {
                let mut found: Vec<String> = Vec::new();
                let ghost all = part_texts(parts@);
                let mut i: usize = 0;
                proof {
                    whole_prefix(all);
                    assert(texts(found@) =~= Seq::empty());
                }
                while i < parts.len()
                    invariant
                        i <= parts@.len(),
                        all == part_texts(parts@),
                        texts(found@) == flattened(all.subrange(0, i as int)),
                    decreases parts@.len() - i,
                {
                    let ghost before = texts(found@);
                    if let Some(text) = &parts[i].text {
                        found.push(text.clone());
                        assert(texts(found@) =~= before.push(text@));
                    }
                    proof {
                        flattened_next(all, i as int);
                    }
                    i = i + 1;
                }
                proof {
                    whole_prefix(all);
                }
                join(&found, "\n")
            },
        }
    }

    /// What is said as a document.
    pub open spec fn document(self) -> JsonView {
        match self {
            ChatMessageContent::String(text) => JsonView::String(text@),
            ChatMessageContent::Array(parts) => JsonView::Array(part_documents(parts@)),
        }
    }

    /// What is said as a document.
    pub fn to_json(&self) -> (r: Json)
        ensures
            r@ == self.document(),
    {
        match self {
            ChatMessageContent::String(text) => Json::text(text.as_str()),
            ChatMessageContent::Array(parts) => parts_json(parts),
        }
    }
}

/// Parts as documents.
pub open spec fn part_documents(parts: Seq<ContentPart>) -> Seq<JsonView> {
    Seq::new(parts.len(), |i: int| parts[i].document())
}

/// Parts as a document.
pub fn parts_json(parts: &Vec<ContentPart>) -> (r: Json)
    ensures
        r@ == JsonView::Array(part_documents(parts@)),
{
    let mut items = no_items();
    let ghost all = part_documents(parts@);
    let mut i: usize = 0;
    proof {
        whole_prefix(all);
    }
    while i < parts.len()
        invariant
            i <= parts@.len(),
            all == part_documents(parts@),
            json_views(items@) == all.subrange(0, i as int),
        decreases parts@.len() - i,
    {
        put_item(&mut items, parts[i].to_json());
        proof {
            prefix_next(all, i as int);
        }
        i = i + 1;
    }
    proof {
        whole_prefix(all);
    }
    Json::array(items)
}

impl ImageUrl {
    /// The place as a document.
    pub open spec fn document(self) -> JsonView {
        JsonView::Object(
            seq![("url"@, JsonView::String(self.url@))] + field_if(
                "detail"@,
                text_view(self.detail),
            ),
        )
    }

    fn to_json(&self) -> (r: Json)
        ensures
            r@ == self.document(),
    {
        let mut fields = no_fields();
        put_text(&mut fields, "url", self.url.as_str());
        assert(field_views(fields@) =~= seq![("url"@, JsonView::String(self.url@))]);
        put_opt(&mut fields, "detail", text_json(&self.detail));
        Json::object(fields)
    }
}

/// An optional place as a document.
pub open spec fn image_document(image: Option<ImageUrl>) -> Option<JsonView> {
    match image {
        Some(image) => Some(image.document()),
        None => None,
    }
}

impl ContentPart {
    /// The part as a document.
    pub open spec fn document(self) -> JsonView {
        JsonView::Object(
            seq![("type"@, JsonView::String(self.kind@))] + field_if("text"@, text_view(self.text))
                + field_if("image_url"@, image_document(self.image_url)),
        )
    }

    fn to_json(&self) -> (r: Json)
        ensures
            r@ == self.document(),
    {
        let image = match &self.image_url {
            Some(image) => Some(image.to_json()),
            None => None,
        };
        let mut fields = no_fields();
        put_text(&mut fields, "type", self.kind.as_str());
        assert(field_views(fields@) =~= seq![("type"@, JsonView::String(self.kind@))]);
        put_opt(&mut fields, "text", text_json(&self.text));
        put_opt(&mut fields, "image_url", image);
        Json::object(fields)
    }
}

/// What is said, if anything is, as a document.
pub open spec fn content_document(content: Option<ChatMessageContent>) -> Option<JsonView> {
    match content {
        Some(content) => Some(content.document()),
        None => None,
    }
}

impl ChatMessage {
    /// The message as a document.
    pub open spec fn document(self) -> JsonView {
        JsonView::Object(
            seq![("role"@, JsonView::String(self.role@))] + field_if(
                "content"@,
                content_document(self.content),
            ) + field_if("name"@, text_view(self.name)) + field_if(
                "tool_calls"@,
                calls_document(self.tool_calls),
            ) + field_if("tool_call_id"@, text_view(self.tool_call_id)) + field_if(
                "refusal"@,
                text_view(self.refusal),
            ),
        )
    }

    fn to_json(&self) -> (r: Json)
        ensures
            r@ == self.document(),
    {
        let content = match &self.content {
            Some(content) => Some(content.to_json()),
            None => None,
        };
        let mut fields = no_fields();
        put_text(&mut fields, "role", self.role.as_str());
        assert(field_views(fields@) =~= seq![("role"@, JsonView::String(self.role@))]);
        put_opt(&mut fields, "content", content);
        put_opt(&mut fields, "name", text_json(&self.name));
        put_opt(&mut fields, "tool_calls", calls_json(&self.tool_calls));
        put_opt(&mut fields, "tool_call_id", text_json(&self.tool_call_id));
        put_opt(&mut fields, "refusal", text_json(&self.refusal));
        Json::object(fields)
    }
}

/// A message that says one text and nothing else.
pub open spec fn says(message: ChatMessage, role: Seq<char>, text: Seq<char>) -> bool {
    &&& message.role@ == role
    &&& message.content matches Some(ChatMessageContent::String(s)) && s@ == text
    &&& message.name is None
    &&& message.tool_calls is None
    &&& message.tool_call_id is None
    &&& message.refusal is None
}

/// A message that says one text and nothing else.
pub fn text_message(role: &str, text: String) -> (r: ChatMessage)
    ensures
        says(r, role@, text@),
{
    ChatMessage {
        role: role.to_owned(),
        content: Some(ChatMessageContent::String(text)),
        name: None,
        tool_calls: None,
        tool_call_id: None,
        refusal: None,
    }
}

/// Messages as documents.
pub open spec fn message_documents(messages: Seq<ChatMessage>) -> Seq<JsonView> {
    Seq::new(messages.len(), |i: int| messages[i].document())
}

/// Messages as a document.
pub fn messages_json(messages: &Vec<ChatMessage>) -> (r: Json)
    ensures
        r@ == JsonView::Array(message_documents(messages@)),
{
    let mut items = no_items();
    let ghost all = message_documents(messages@);
    let mut i: usize = 0;
    proof {
        whole_prefix(all);
    }
    while i < messages.len()
        invariant
            i <= messages@.len(),
            all == message_documents(messages@),
            json_views(items@) == all.subrange(0, i as int),
        decreases messages@.len() - i,
    {
        put_item(&mut items, messages[i].to_json());
        proof {
            prefix_next(all, i as int);
        }
        i = i + 1;
    }
    proof {
        whole_prefix(all);
    }
    Json::array(items)
}

/// A request to go on with a conversation.
#[derive(Clone, Debug)]
pub struct ChatCompletionRequest {
    pub model: String,
    pub messages: Vec<ChatMessage>,
    pub temperature: Option<JsonNumber>,
    pub top_p: Option<JsonNumber>,
    pub n: Option<u32>,
    pub stream: Option<bool>,
    pub stop: Option<Vec<String>>,
    pub max_tokens: Option<u32>,
    pub max_completion_tokens: Option<u32>,
    pub presence_penalty: Option<JsonNumber>,
    pub frequency_penalty: Option<JsonNumber>,
    pub tools: Option<Vec<ToolDefinition>>,
    pub tool_choice: Option<ToolChoice>,
    pub response_format: Option<ResponseFormat>,
    pub reasoning: Option<ReasoningConfig>,
    pub logprobs: Option<bool>,
    pub top_logprobs: Option<u32>,
    pub seed: Option<u32>,
    pub user: Option<String>,
}

/// An optional form as a document.
pub open spec fn format_document(format: Option<ResponseFormat>) -> Option<JsonView> {
    match format {
        Some(format) => Some(format.document()),
        None => None,
    }
}

/// Optional settings as a document.
pub open spec fn reasoning_document(reasoning: Option<ReasoningConfig>) -> Option<JsonView> {
    match reasoning {
        Some(reasoning) => Some(reasoning.document()),
        None => None,
    }
}

impl ChatCompletionRequest {
    /// Whether the reply is wanted piece by piece.
    pub open spec fn streams(self) -> bool {
        self.stream == Some(true)
    }

    /// Whether the reply is wanted piece by piece.
    pub fn wants_stream(&self) -> (r: bool)
        ensures
            r == self.streams(),
    {
        match self.stream {
            Some(stream) => stream,
            None => false,
        }
    }

    /// The request's fields as documents.
    pub open spec fn fields(self) -> Seq<(Seq<char>, JsonView)> {
        seq![
            ("model"@, JsonView::String(self.model@)),
            ("messages"@, JsonView::Array(message_documents(self.messages@))),
        ] + field_if("temperature"@, number_view(self.temperature)) + field_if(
            "top_p"@,
            number_view(self.top_p),
        ) + field_if("n"@, opt_count_view(self.n)) + field_if("stream"@, bool_view(self.stream))
            + field_if("stop"@, texts_view(self.stop)) + field_if(
            "max_tokens"@,
            opt_count_view(self.max_tokens),
        ) + field_if("max_completion_tokens"@, opt_count_view(self.max_completion_tokens))
            + field_if("presence_penalty"@, number_view(self.presence_penalty)) + field_if(
            "frequency_penalty"@,
            number_view(self.frequency_penalty),
        ) + field_if("tools"@, tools_document(self.tools)) + field_if(
            "tool_choice"@,
            choice_document(self.tool_choice),
        ) + field_if("response_format"@, format_document(self.response_format)) + field_if(
            "reasoning"@,
            reasoning_document(self.reasoning),
        ) + field_if("logprobs"@, bool_view(self.logprobs)) + field_if(
            "top_logprobs"@,
            opt_count_view(self.top_logprobs),
        ) + field_if("seed"@, opt_count_view(self.seed)) + field_if("user"@, text_view(self.user))
    }

    /// The request's fields as documents.
    pub fn to_fields(&self) -> (r: Vec<(String, Json)>)
        ensures
            field_views(r@) == self.fields(),
    {
        let format = match &self.response_format {
            Some(format) => Some(format.to_json()),
            None => None,
        };
        let reasoning = match &self.reasoning {
            Some(reasoning) => Some(reasoning.to_json()),
            None => None,
        };
        let mut fields = no_fields();
        put_text(&mut fields, "model", self.model.as_str());
        put(&mut fields, "messages", messages_json(&self.messages));
        assert(field_views(fields@) =~= seq![
            ("model"@, JsonView::String(self.model@)),
            ("messages"@, JsonView::Array(message_documents(self.messages@))),
        ]);
        put_opt(&mut fields, "temperature", number_json(&self.temperature));
        put_opt(&mut fields, "top_p", number_json(&self.top_p));
        put_opt(&mut fields, "n", opt_count_json(self.n));
        put_opt(&mut fields, "stream", bool_json(self.stream));
        put_opt(&mut fields, "stop", texts_json(&self.stop));
        put_opt(&mut fields, "max_tokens", opt_count_json(self.max_tokens));
        put_opt(&mut fields, "max_completion_tokens", opt_count_json(self.max_completion_tokens));
        put_opt(&mut fields, "presence_penalty", number_json(&self.presence_penalty));
        put_opt(&mut fields, "frequency_penalty", number_json(&self.frequency_penalty));
        put_opt(&mut fields, "tools", tools_json(&self.tools));
        put_opt(&mut fields, "tool_choice", choice_json(&self.tool_choice));
        put_opt(&mut fields, "response_format", format);
        put_opt(&mut fields, "reasoning", reasoning);
        put_opt(&mut fields, "logprobs", bool_json(self.logprobs));
        put_opt(&mut fields, "top_logprobs", opt_count_json(self.top_logprobs));
        put_opt(&mut fields, "seed", opt_count_json(self.seed));
        put_opt(&mut fields, "user", text_json(&self.user));
        fields
    }

    /// The request as a document.
    pub fn to_json(&self) -> (r: Json)
        ensures
            r@ == JsonView::Object(self.fields()),
    {
        Json::object(self.to_fields())
    }

    /// What is wrong with how the model is to reason, if anything is.
    pub open spec fn reasoning_fault(self) -> Option<ErrorView> {
        match self.reasoning {
            Some(reasoning) => match reasoning.fault() {
                Some(fault) => Some(ErrorView::Other("Invalid reasoning config: "@ + fault)),
                None => None,
            },
            None => None,
        }
    }

    /// Checks how the model is to reason.
    pub fn check_reasoning(&self) -> (r: Result<(), SdkError>)
        ensures
            match r {
                Ok(_) => self.reasoning_fault() is None,
                Err(e) => self.reasoning_fault() == Some(e@),
            },
    {
        match &self.reasoning {
            Some(reasoning) => match reasoning.validate() {
                Ok(_) => Ok(()),
                Err(fault) => Err(
                    SdkError::Other(concat2("Invalid reasoning config: ", fault.as_str())),
                ),
            },
            None => Ok(()),
        }
    }
}

/// One way to go on with a conversation.
#[derive(Clone, Debug)]
pub struct ChatChoice {
    pub index: u32,
    pub message: ChatMessage,
    pub finish_reason: Option<String>,
    pub logprobs: Option<Json>,
}

/// One way to go on with a conversation.
pub type Choice = ChatChoice;

/// A whole reply.
#[derive(Clone, Debug)]
pub struct ChatCompletion {
    pub id: String,
    pub object: Option<String>,
    pub created: Option<u64>,
    pub model: String,
    pub choices: Vec<ChatChoice>,
    pub usage: Usage,
    pub system_fingerprint: Option<String>,
}

/// A reply, whole or piece by piece; `S` is what gives the pieces.
#[derive(Debug)]
pub enum ChatCompletionResponse<S> {
    NonStream(ChatCompletion),
    Stream(S),
}

impl<S> ChatCompletionResponse<S> {
    /// Whether the reply comes piece by piece.
    pub fn is_stream(&self) -> (r: bool)
        ensures
            r == (self is Stream),
    {
        match self {
            ChatCompletionResponse::NonStream(_) => false,
            ChatCompletionResponse::Stream(_) => true,
        }
    }
}

/// Effort and prompts go together: the more effort, the more the model is told to think;
/// a count of tokens counts as the most.
pub proof fn efforts_have_their_prompts(config: ReasoningConfig)
    ensures
        config.max_tokens is Some ==> config.thinking_prompt() == Some(
            "Think through this step-by-step with detailed reasoning."@,
        ) && config.fault() is None && config.own_effort() is None,
        config.max_tokens is None && config.effort is Some && config.effort->0@ == "high"@
            ==> config.thinking_prompt() == Some(
            "Think through this step-by-step with detailed reasoning."@,
        ) && config.fault() is None,
        config.max_tokens is None && config.effort is Some && config.effort->0@ == "medium"@
            ==> config.thinking_prompt() == Some("Consider this problem thoughtfully."@)
            && config.fault() is None,
        config.max_tokens is None && config.effort is Some && config.effort->0@ == "low"@
            ==> config.thinking_prompt() == Some("Think about this briefly."@)
            && config.fault() is None,
        config.max_tokens is None && config.effort is None ==> config.thinking_prompt() is None
            && config.fault() is None,
        config.max_tokens is None && config.effort is Some && trimmed(config.effort->0@).len() == 0
            ==> config.fault() == Some("Effort cannot be empty string"@),
        config.max_tokens is None && config.effort is Some && trimmed(config.effort->0@).len() > 0
            && config.effort->0@ != "low"@ && config.effort->0@ != "medium"@ && config.effort->0@
            != "high"@ ==> config.fault() == Some(
            "Invalid effort value. Must be 'low', 'medium', or 'high'"@,
        ),
{
    reveal_strlit("low");
    reveal_strlit("medium");
    reveal_strlit("high");
    assert("low"@.len() == 3
        && "medium"@.len() == 6
        && "high"@.len() == 4);
    efforts_are_not_blank();
}

proof fn efforts_are_not_blank()
    ensures
        trimmed("low"@) == "low"@,
        trimmed("medium"@) == "medium"@,
        trimmed("high"@) == "high"@,
{
    reveal_strlit("low");
    reveal_strlit("medium");
    reveal_strlit("high");
    let low = crate::text::trimming_takes_white_space_alone("low"@);
    let medium = crate::text::trimming_takes_white_space_alone("medium"@);
    let high = crate::text::trimming_takes_white_space_alone("high"@);
    assert("low"@[0] == 'l' && "low"@[2] == 'w' && "low"@.len() == 3);
    assert("medium"@[0] == 'm' && "medium"@[5] == 'm' && "medium"@.len() == 6);
    assert("high"@[0] == 'h' && "high"@[3] == 'h' && "high"@.len() == 4);
    assert("low"@.subrange(0, 3) =~= "low"@);
    assert("medium"@.subrange(0, 6) =~= "medium"@);
    assert("high"@.subrange(0, 4) =~= "high"@);
}

/// What is said in parts is the parts' texts, line by line and in their order.
pub proof fn parts_are_said_in_order(parts: Seq<ContentPart>, part: ContentPart)
    ensures
        part.text matches Some(text) ==> flattened(part_texts(parts.push(part))) == flattened(
            part_texts(parts),
        ).push(text@),
        part.text is None ==> flattened(part_texts(parts.push(part))) == flattened(
            part_texts(parts),
        ),
{
    assert(part_texts(parts.push(part)).drop_last() =~= part_texts(parts));
}

/// What is said is one text, or its parts with a line break between them.
pub proof fn contents_are_plain(content: ChatMessageContent)
    ensures
        content matches ChatMessageContent::String(text) ==> content.plain() == text@
            && content.document() == JsonView::String(text@),
        content matches ChatMessageContent::Array(parts) ==> content.plain() == joined(
            flattened(part_texts(parts@)),
            "\n"@,
        ) && content.document().items() == Some(part_documents(parts@)),
{
}

/// A message is told with its role and its content; what is not there is left out.
pub proof fn messages_keep_their_role(message: ChatMessage, messages: Seq<ChatMessage>)
    ensures
        ({
            let told = message.document();
            &&& told.field_text("role"@) == Some(message.role@)
            &&& message.content is None ==> told.field("content"@) is None
            &&& message.content matches Some(content) ==> told.field("content"@) == Some(
                content.document(),
            )
            &&& told.field("name"@) == text_view(message.name)
            &&& told.field("tool_call_id"@) == text_view(message.tool_call_id)
            &&& told.field("refusal"@) == text_view(message.refusal)
            &&& message.tool_calls is None ==> told.field("tool_calls"@) is None
            &&& message.tool_calls matches Some(calls) ==> told.field("tool_calls"@)->0.items()
                == Some(super::tools::call_documents(calls@))
        }),
        message_documents(messages.push(message)) == message_documents(messages).push(
            message.document(),
        ),
{
    broadcast use crate::json::group_fields;

    reveal_strlit("role");
    reveal_strlit("content");
    reveal_strlit("name");
    reveal_strlit("tool_calls");
    reveal_strlit("tool_call_id");
    reveal_strlit("refusal");
    assert("role"@.len() == 4
        && "content"@.len() == 7
        && "name"@.len() == 4
        && "tool_calls"@.len() == 10
        && "tool_call_id"@.len() == 12
        && "refusal"@.len() == 7
        && "role"@[0] == 'r'
        && "name"@[0] == 'n'
        && "content"@[0] == 'c'
        && "refusal"@[0] == 'r');
    assert(message_documents(messages.push(message)) =~= message_documents(messages).push(
        message.document(),
    ));
}

/// A part is told with its kind, its text and its image.
pub proof fn parts_tell_their_kind(part: ContentPart, image: ImageUrl)
    ensures
        part.document().field_text("type"@) == Some(part.kind@),
        part.document().field("text"@) == text_view(part.text),
        part.image_url is None ==> part.document().field("image_url"@) is None,
        part.image_url matches Some(own) ==> part.document().field("image_url"@) == Some(
            own.document(),
        ),
        image.document().field_text("url"@) == Some(image.url@),
        image.document().field("detail"@) == text_view(image.detail),
{
    broadcast use crate::json::group_fields;

    reveal_strlit("type");
    reveal_strlit("text");
    reveal_strlit("image_url");
    reveal_strlit("url");
    reveal_strlit("detail");
    assert("type"@.len() == 4
        && "text"@.len() == 4
        && "image_url"@.len() == 9
        && "url"@.len() == 3
        && "detail"@.len() == 6
        && "type"@[1] == 'y'
        && "text"@[1] == 'e');
}

/// Each setting of a request is told under its name, and only if it is set.
#[verifier::rlimit(60)]
pub proof fn requests_tell_their_settings(request: ChatCompletionRequest)
    ensures
        ({
            let told = JsonView::Object(request.fields());
            &&& told.field_text("model"@) == Some(request.model@)
            &&& told.field("messages"@)->0.items() == Some(message_documents(request.messages@))
            &&& told.field("temperature"@) == number_view(request.temperature)
            &&& told.field("top_p"@) == number_view(request.top_p)
            &&& told.field("n"@) == opt_count_view(request.n)
            &&& told.field("stream"@) == bool_view(request.stream)
            &&& told.field("stop"@) == texts_view(request.stop)
            &&& told.field("max_tokens"@) == opt_count_view(request.max_tokens)
            &&& told.field("max_completion_tokens"@) == opt_count_view(
                request.max_completion_tokens,
            )
            &&& told.field("presence_penalty"@) == number_view(request.presence_penalty)
            &&& told.field("frequency_penalty"@) == number_view(request.frequency_penalty)
            &&& told.field("tools"@) == tools_document(request.tools)
            &&& told.field("tool_choice"@) == choice_document(request.tool_choice)
            &&& told.field("response_format"@) == format_document(request.response_format)
            &&& told.field("logprobs"@) == bool_view(request.logprobs)
            &&& told.field("top_logprobs"@) == opt_count_view(request.top_logprobs)
            &&& told.field("seed"@) == opt_count_view(request.seed)
            &&& told.field("user"@) == text_view(request.user)
        }),
        request.streams() <==> request.stream == Some(true),
{
    reveal_strlit("model");
    reveal_strlit("messages");
    reveal_strlit("temperature");
    reveal_strlit("top_p");
    reveal_strlit("n");
    reveal_strlit("stream");
    reveal_strlit("stop");
    reveal_strlit("max_tokens");
    reveal_strlit("max_completion_tokens");
    reveal_strlit("presence_penalty");
    reveal_strlit("frequency_penalty");
    reveal_strlit("tools");
    reveal_strlit("tool_choice");
    reveal_strlit("response_format");
    reveal_strlit("reasoning");
    reveal_strlit("logprobs");
    reveal_strlit("top_logprobs");
    reveal_strlit("seed");
    reveal_strlit("user");
    assert("model"@.len() == 5
        && "messages"@.len() == 8
        && "temperature"@.len() == 11
        && "top_p"@.len() == 5
        && "n"@.len() == 1
        && "stream"@.len() == 6
        && "stop"@.len() == 4
        && "max_tokens"@.len() == 10
        && "max_completion_tokens"@.len() == 21
        && "presence_penalty"@.len() == 16
        && "frequency_penalty"@.len() == 17
        && "tools"@.len() == 5
        && "tool_choice"@.len() == 11
        && "response_format"@.len() == 15
        && "reasoning"@.len() == 9
        && "logprobs"@.len() == 8
        && "top_logprobs"@.len() == 12
        && "seed"@.len() == 4
        && "user"@.len() == 4
        && "model"@[0] == 'm'
        && "top_p"@[0] == 't'
        && "tools"@[0] == 't'
        && "messages"@[0] == 'm'
        && "logprobs"@[0] == 'l'
        && "temperature"@[1] == 'e'
        && "tool_choice"@[1] == 'o'
        && "top_p"@[2] == 'p'
        && "tools"@[2] == 'o'
        && "stop"@[1] == 't'
        && "seed"@[1] == 'e'
        && "stop"@[0] == 's'
        && "user"@[0] == 'u'
        && "seed"@[0] == 's');
    crate::json::two_fields(
        seq![
            ("model"@, JsonView::String(request.model@)),
            ("messages"@, JsonView::Array(message_documents(request.messages@))),
        ],
    );
    let told = JsonView::Object(request.fields());
    assert(told.field("model"@) == Some(JsonView::String(request.model@))) by {
        broadcast use crate::json::group_fields;

    }
    assert(told.field("messages"@) == Some(JsonView::Array(message_documents(request.messages@)))) by {
        broadcast use crate::json::group_fields;

    }
    assert(told.field("temperature"@) == number_view(request.temperature)) by {
        broadcast use crate::json::group_fields;

    }
    assert(told.field("top_p"@) == number_view(request.top_p)) by {
        broadcast use crate::json::group_fields;

    }
    assert(told.field("n"@) == opt_count_view(request.n)) by {
        broadcast use crate::json::group_fields;

    }
    assert(told.field("stream"@) == bool_view(request.stream)) by {
        broadcast use crate::json::group_fields;

    }
    assert(told.field("stop"@) == texts_view(request.stop)) by {
        broadcast use crate::json::group_fields;

    }
    assert(told.field("max_tokens"@) == opt_count_view(request.max_tokens)) by {
        broadcast use crate::json::group_fields;

    }
    assert(told.field("max_completion_tokens"@) == opt_count_view(request.max_completion_tokens)) by {
        broadcast use crate::json::group_fields;

    }
    assert(told.field("presence_penalty"@) == number_view(request.presence_penalty)) by {
        broadcast use crate::json::group_fields;

    }
    assert(told.field("frequency_penalty"@) == number_view(request.frequency_penalty)) by {
        broadcast use crate::json::group_fields;

    }
    assert(told.field("tools"@) == tools_document(request.tools)) by {
        broadcast use crate::json::group_fields;

    }
    assert(told.field("tool_choice"@) == choice_document(request.tool_choice)) by {
        broadcast use crate::json::group_fields;

    }
    assert(told.field("response_format"@) == format_document(request.response_format)) by {
        broadcast use crate::json::group_fields;

    }
    assert(told.field("logprobs"@) == bool_view(request.logprobs)) by {
        broadcast use crate::json::group_fields;

    }
    assert(told.field("top_logprobs"@) == opt_count_view(request.top_logprobs)) by {
        broadcast use crate::json::group_fields;

    }
    assert(told.field("seed"@) == opt_count_view(request.seed)) by {
        broadcast use crate::json::group_fields;

    }
    assert(told.field("user"@) == text_view(request.user)) by {
        broadcast use crate::json::group_fields;

    }
}

/// A wrong setting of how the model is to reason is told as such.
pub proof fn wrong_reasoning_is_refused(request: ChatCompletionRequest)
    ensures
        request.reasoning is None ==> request.reasoning_fault() is None,
        request.reasoning matches Some(r) ==> (r.fault() is None ==> request.reasoning_fault()
            is None) && (r.fault() is Some ==> request.reasoning_fault() == Some(
            ErrorView::Other("Invalid reasoning config: "@ + r.fault()->0),
        )),
{
}

/// A request tells nothing under any other name.
pub proof fn requests_tell_nothing_else(request: ChatCompletionRequest, key: Seq<char>)
    requires
        key != "model"@,
        key != "messages"@,
        key != "temperature"@,
        key != "top_p"@,
        key != "n"@,
        key != "stream"@,
        key != "stop"@,
        key != "max_tokens"@,
        key != "max_completion_tokens"@,
        key != "presence_penalty"@,
        key != "frequency_penalty"@,
        key != "tools"@,
        key != "tool_choice"@,
        key != "response_format"@,
        key != "reasoning"@,
        key != "logprobs"@,
        key != "top_logprobs"@,
        key != "seed"@,
        key != "user"@,
    ensures
        JsonView::Object(request.fields()).field(key) is None,
{
    crate::json::field_not_found(
        seq![
            ("model"@, JsonView::String(request.model@)),
            ("messages"@, JsonView::Array(message_documents(request.messages@))),
        ],
        key,
    );
    broadcast use crate::json::group_fields;

}

/// How the model is to reason is told as it is set.
pub proof fn reasoning_is_told(config: ReasoningConfig, n: u32)
    ensures
        config.document().field("effort"@) == text_view(config.effort),
        config.document().field("max_tokens"@) == opt_count_view(config.max_tokens),
        config.document().field("exclude"@) == bool_view(config.exclude),
        n <= i32::MAX ==> wrapped_count(n) == n,
        n > i32::MAX ==> wrapped_count(n) == n - 0x1_0000_0000,
{
    broadcast use crate::json::group_fields;

    reveal_strlit("effort");
    reveal_strlit("max_tokens");
    reveal_strlit("exclude");
    assert("effort"@.len() == 6
        && "max_tokens"@.len() == 10
        && "exclude"@.len() == 7);
}

} // verus!
