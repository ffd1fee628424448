//! Completions of a prompt.
use vstd::prelude::*;

use super::usage::Usage;
use crate::json::{
    field_if, field_views, no_fields, number_json, number_view, opt_count_json, opt_count_view,
    put_opt, put_text, Json, JsonNumber, JsonView,
};

verus! {

/// A request to complete a prompt.
#[derive(Clone, Debug)]
pub struct CompletionRequest {
    pub model: String,
    pub prompt: String,
    pub max_tokens: Option<u32>,
    pub temperature: Option<JsonNumber>,
    pub top_p: Option<JsonNumber>,
    pub frequency_penalty: Option<JsonNumber>,
    pub presence_penalty: Option<JsonNumber>,
}

/// One completion of a prompt.
#[derive(Clone, Debug)]
pub struct CompletionChoice {
    pub index: u32,
    pub text: String,
    pub finish_reason: Option<String>,
}

/// The completions of a prompt.
#[derive(Clone, Debug)]
pub struct CompletionResponse {
    pub id: String,
    pub model: String,
    pub choices: Vec<CompletionChoice>,
    pub usage: Usage,
}

impl CompletionRequest {
    /// The request as a document.
    pub open spec fn document(self) -> JsonView {
        JsonView::Object(
            seq![
                ("model"@, JsonView::String(self.model@)),
                ("prompt"@, JsonView::String(self.prompt@)),
            ] + field_if("max_tokens"@, opt_count_view(self.max_tokens)) + field_if(
                "temperature"@,
                number_view(self.temperature),
            ) + field_if("top_p"@, number_view(self.top_p)) + field_if(
                "frequency_penalty"@,
                number_view(self.frequency_penalty),
            ) + field_if("presence_penalty"@, number_view(self.presence_penalty)),
        )
    }

    /// The request as a document.
    pub fn to_json(&self) -> (r: Json)
        ensures
            r@ == self.document(),
    {
        let mut fields = no_fields();
        put_text(&mut fields, "model", self.model.as_str());
        put_text(&mut fields, "prompt", self.prompt.as_str());
        assert(field_views(fields@) =~= seq![
            ("model"@, JsonView::String(self.model@)),
            ("prompt"@, JsonView::String(self.prompt@)),
        ]);
        put_opt(&mut fields, "max_tokens", opt_count_json(self.max_tokens));
        put_opt(&mut fields, "temperature", number_json(&self.temperature));
        put_opt(&mut fields, "top_p", number_json(&self.top_p));
        put_opt(&mut fields, "frequency_penalty", number_json(&self.frequency_penalty));
        put_opt(&mut fields, "presence_penalty", number_json(&self.presence_penalty));
        Json::object(fields)
    }
}

/// A request for a completion tells the model, the prompt and what else is set.
pub proof fn requests_tell_the_prompt(request: CompletionRequest)
    ensures
        ({
            let told = request.document();
            &&& told.field_text("model"@) == Some(request.model@)
            &&& told.field_text("prompt"@) == Some(request.prompt@)
            &&& told.field("max_tokens"@) == opt_count_view(request.max_tokens)
            &&& told.field("temperature"@) == number_view(request.temperature)
            &&& told.field("top_p"@) == number_view(request.top_p)
            &&& told.field("frequency_penalty"@) == number_view(request.frequency_penalty)
            &&& told.field("presence_penalty"@) == number_view(request.presence_penalty)
        }),
{
    broadcast use crate::json::group_fields;

    crate::json::two_fields(
        seq![
            ("model"@, JsonView::String(request.model@)),
            ("prompt"@, JsonView::String(request.prompt@)),
        ],
    );
    reveal_strlit("model");
    reveal_strlit("prompt");
    reveal_strlit("max_tokens");
    reveal_strlit("temperature");
    reveal_strlit("top_p");
    reveal_strlit("frequency_penalty");
    reveal_strlit("presence_penalty");
    assert("model"@.len() == 5
        && "prompt"@.len() == 6
        && "max_tokens"@.len() == 10
        && "temperature"@.len() == 11
        && "top_p"@.len() == 5
        && "frequency_penalty"@.len() == 17
        && "presence_penalty"@.len() == 16
        && "model"@[0] == 'm'
        && "top_p"@[0] == 't');
}

} // verus!
