//! Vectors that stand for texts.
//!
//! `F` is the type of the components of vectors; nothing here computes with them.
use vstd::prelude::*;

use super::usage::EmbeddingUsage;
use crate::json::{
    field_if, field_views, no_fields, opt_count_json, opt_count_view, put, put_opt, put_text,
    text_items, text_json, text_view, texts_array, Json, JsonView,
};

verus! {

/// The texts to be embedded: one, or several.
#[derive(Clone, Debug)]
pub enum EmbeddingsInput {
    String(String),
    Array(Vec<String>),
}

impl EmbeddingsInput {
    /// How many texts there are.
    pub open spec fn count(self) -> nat {
        match self {
            EmbeddingsInput::String(_) => 1,
            EmbeddingsInput::Array(list) => list@.len(),
        }
    }

    /// How many texts there are.
    pub fn len(&self) -> (r: usize)
        ensures
            r == self.count(),
    {
        match self {
            EmbeddingsInput::String(_) => 1,
            EmbeddingsInput::Array(list) => list.len(),
        }
    }

    /// Whether the one text is empty, or there is none among several.
    pub fn is_empty(&self) -> (r: bool)
        ensures
            r == (match *self {
                EmbeddingsInput::String(s) => s@.len() == 0,
                EmbeddingsInput::Array(list) => list@.len() == 0,
            }),
    {
        match self {
            EmbeddingsInput::String(s) => s.as_str().is_empty(),
            EmbeddingsInput::Array(list) => list.len() == 0,
        }
    }

    /// The texts as a document.
    pub open spec fn document(self) -> JsonView {
        match self {
            EmbeddingsInput::String(s) => JsonView::String(s@),
            EmbeddingsInput::Array(list) => JsonView::Array(text_items(list@)),
        }
    }

    fn to_json(&self) -> (r: Json)
        ensures
            r@ == self.document(),
    {
        match self {
            EmbeddingsInput::String(s) => Json::text(s.as_str()),
            EmbeddingsInput::Array(list) => texts_array(list),
        }
    }
}

/// A request to embed texts.
#[derive(Clone, Debug)]
pub struct EmbeddingsRequest {
    pub model: String,
    pub input: EmbeddingsInput,
    /// `float` or `base64`.
    pub encoding_format: Option<String>,
    /// For models that can shorten their vectors.
    pub dimensions: Option<u32>,
    pub user: Option<String>,
}

impl EmbeddingsRequest {
    /// The request as a document.
    pub open spec fn document(self) -> JsonView {
        JsonView::Object(
            seq![("model"@, JsonView::String(self.model@)), ("input"@, self.input.document())]
                + field_if("encoding_format"@, text_view(self.encoding_format)) + field_if(
                "dimensions"@,
                opt_count_view(self.dimensions),
            ) + field_if("user"@, text_view(self.user)),
        )
    }

    /// The request as a document.
    pub fn to_json(&self) -> (r: Json)
        ensures
            r@ == self.document(),
    {
        let mut fields = no_fields();
        put_text(&mut fields, "model", self.model.as_str());
        put(&mut fields, "input", self.input.to_json());
        assert(field_views(fields@) =~= seq![
            ("model"@, JsonView::String(self.model@)),
            ("input"@, self.input.document()),
        ]);
        put_opt(&mut fields, "encoding_format", text_json(&self.encoding_format));
        put_opt(&mut fields, "dimensions", opt_count_json(self.dimensions));
        put_opt(&mut fields, "user", text_json(&self.user));
        Json::object(fields)
    }
}

/// The vector of one text.
#[derive(Clone, Debug)]
pub struct EmbeddingData<F> {
    pub object: Option<String>,
    pub index: u32,
    pub embedding: Vec<F>,
}

/// The vectors of texts.
#[derive(Clone, Debug)]
pub struct EmbeddingsResponse<F> {
    pub object: Option<String>,
    pub data: Vec<EmbeddingData<F>>,
    pub model: String,
    pub usage: EmbeddingUsage,
}

impl<F> EmbeddingsResponse<F> {
    /// The first vector, if there is one.
    pub fn first_embedding(&self) -> (r: Option<&Vec<F>>)
        ensures
            match r {
                Some(v) => self.data@.len() > 0 && *v == self.data@[0].embedding,
                None => self.data@.len() == 0,
            },
    {
        if self.data.len() > 0 {
            Some(&self.data[0].embedding)
        } else {
            None
        }
    }

    /// All vectors.
    pub fn embeddings(&self) -> (r: Vec<&Vec<F>>)
        ensures
            r@.len() == self.data@.len(),
            forall|i: int| 0 <= i < r@.len() ==> *(#[trigger] r@[i]) == self.data@[i].embedding,
    {
        let mut out: Vec<&Vec<F>> = Vec::new();
        let mut i: usize = 0;
        while i < self.data.len()
            invariant
                i <= self.data@.len(),
                out@.len() == i,
                forall|j: int| 0 <= j < i ==> *(#[trigger] out@[j]) == self.data@[j].embedding,
            decreases self.data@.len() - i,
        {
            out.push(&self.data[i].embedding);
            i = i + 1;
        }
        out
    }

    /// How many components the first vector has, if there is one.
    pub fn dimension(&self) -> (r: Option<usize>)
        ensures
            match r {
                Some(n) => self.data@.len() > 0 && n == self.data@[0].embedding@.len(),
                None => self.data@.len() == 0,
            },
    {
        match self.first_embedding() {
            Some(v) => Some(v.len()),
            None => None,
        }
    }
}

/// A request for vectors tells the model, the texts in their order, and what else is set.
pub proof fn requests_tell_the_texts(request: EmbeddingsRequest, i: int)
    ensures
        ({
            let told = request.document();
            &&& told.field_text("model"@) == Some(request.model@)
            &&& told.field("encoding_format"@) == text_view(request.encoding_format)
            &&& told.field("dimensions"@) == opt_count_view(request.dimensions)
            &&& told.field("user"@) == text_view(request.user)
            &&& request.input matches EmbeddingsInput::String(s) ==> told.field_text("input"@)
                == Some(s@) && request.input.count() == 1
            &&& request.input matches EmbeddingsInput::Array(list) ==> request.input.count()
                == list@.len() && told.field("input"@)->0.items()->0.len() == list@.len() && (0 <= i
                < list@.len() ==> told.field("input"@)->0.items()->0[i] == JsonView::String(
                list@[i]@,
            ))
        }),
{
    broadcast use crate::json::group_fields;

    crate::json::two_fields(
        seq![
            ("model"@, JsonView::String(request.model@)),
            ("input"@, request.input.document()),
        ],
    );
    reveal_strlit("model");
    reveal_strlit("input");
    reveal_strlit("encoding_format");
    reveal_strlit("dimensions");
    reveal_strlit("user");
    assert("model"@.len() == 5
        && "input"@.len() == 5
        && "encoding_format"@.len() == 15
        && "dimensions"@.len() == 10
        && "user"@.len() == 4
        && "model"@[0] == 'm'
        && "input"@[0] == 'i');
    assert(request.document().field("input"@) == Some(request.input.document()));
}

} // verus!
