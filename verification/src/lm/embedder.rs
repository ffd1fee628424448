//! Texts as vectors: OpenAI's embeddings, and a registry of embedders.
use vstd::prelude::*;
use vstd::string::*;

use super::openrouter::pair_if;
use super::settings::{keep_not_blank, missing, not_blank, overridden, override_text, required};
use super::telemetry::{quoted, quoted_text};
use crate::duration::{seconds, Duration};
use crate::error::{bad_setting, other_error, setting_error, ErrorView, SdkError};
use crate::headers::{header_text_ok, header_value};
use crate::json::{
    field_views, json_views, no_fields, no_items, put, put_item, put_text, Json, JsonView,
};
use crate::registry::{names, Registry};
use crate::seqs::{prefix_next, whole_prefix};
use crate::text::{
    concat2, concat3, concat5, opt_text, pair_views, push_pair, str_eq, texts, trim_end_matches,
    without_trailing,
};

verus! {

/// OpenAI's models for embeddings.
#[derive(Clone, Copy, Debug, PartialEq, Eq, Structural)]
pub enum OpenAiEmbeddingModel {
    TextEmbedding3Small,
    TextEmbedding3Large,
    TextEmbeddingAda002,
}

impl OpenAiEmbeddingModel {
    /// The name of the model.
    pub open spec fn name(self) -> Seq<char> {
        match self {
            OpenAiEmbeddingModel::TextEmbedding3Small => "text-embedding-3-small"@,
            OpenAiEmbeddingModel::TextEmbedding3Large => "text-embedding-3-large"@,
            OpenAiEmbeddingModel::TextEmbeddingAda002 => "text-embedding-ada-002"@,
        }
    }

    pub fn as_str(&self) -> (r: &'static str)
        ensures
            r@ == self.name(),
    {
        match self {
            OpenAiEmbeddingModel::TextEmbedding3Small => "text-embedding-3-small",
            OpenAiEmbeddingModel::TextEmbedding3Large => "text-embedding-3-large",
            OpenAiEmbeddingModel::TextEmbeddingAda002 => "text-embedding-ada-002",
        }
    }

    /// How many components the model's vectors have.
    pub fn dimension(&self) -> (r: u32)
        ensures
            r == (match self {
                OpenAiEmbeddingModel::TextEmbedding3Small => 1536u32,
                OpenAiEmbeddingModel::TextEmbedding3Large => 3072u32,
                OpenAiEmbeddingModel::TextEmbeddingAda002 => 1536u32,
            }),
    {
        match self {
            OpenAiEmbeddingModel::TextEmbedding3Small => 1536,
            OpenAiEmbeddingModel::TextEmbedding3Large => 3072,
            OpenAiEmbeddingModel::TextEmbeddingAda002 => 1536,
        }
    }

    /// The model with a name.
    pub open spec fn named(s: Seq<char>) -> Option<OpenAiEmbeddingModel> {
        if s == "text-embedding-3-small"@ {
            Some(OpenAiEmbeddingModel::TextEmbedding3Small)
        } else if s == "text-embedding-3-large"@ {
            Some(OpenAiEmbeddingModel::TextEmbedding3Large)
        } else if s == "text-embedding-ada-002"@ {
            Some(OpenAiEmbeddingModel::TextEmbeddingAda002)
        } else {
            None
        }
    }

    /// The model with a name.
    pub fn from_str(s: &str) -> (r: Option<Self>)
        ensures
            r == OpenAiEmbeddingModel::named(s@),
    {
        if str_eq(s, "text-embedding-3-small") {
            Some(OpenAiEmbeddingModel::TextEmbedding3Small)
        } else if str_eq(s, "text-embedding-3-large") {
            Some(OpenAiEmbeddingModel::TextEmbedding3Large)
        } else if str_eq(s, "text-embedding-ada-002") {
            Some(OpenAiEmbeddingModel::TextEmbeddingAda002)
        } else {
            None
        }
    }
}

/// The name of a model leads back to it.
pub proof fn names_lead_back(model: OpenAiEmbeddingModel)
    ensures
        OpenAiEmbeddingModel::named(model.name()) == Some(model),
{
    reveal_strlit("text-embedding-3-small");
    reveal_strlit("text-embedding-3-large");
    reveal_strlit("text-embedding-ada-002");
    assert("text-embedding-3-large"@[17] != "text-embedding-3-small"@[17]);
    assert("text-embedding-ada-002"@[15] != "text-embedding-3-small"@[15]);
    assert("text-embedding-ada-002"@[15] != "text-embedding-3-large"@[15]);
}

impl Default for OpenAiEmbeddingModel {
    fn default() -> (r: Self)
        ensures
            r == OpenAiEmbeddingModel::TextEmbedding3Small,
    {
        OpenAiEmbeddingModel::TextEmbedding3Small
    }
}

/// Where OpenAI's embeddings are had, and with what key.
#[derive(Clone, Debug)]
pub struct OpenAiEmbedderConfig {
    pub api_key: String,
    pub base_url: String,
    pub model: OpenAiEmbeddingModel,
    pub timeout: Duration,
    pub organization: Option<String>,
    pub project: Option<String>,
}

impl OpenAiEmbedderConfig {
    pub fn new(api_key: &str) -> (r: Self)
        ensures
            r.api_key@ == api_key@,
            r.base_url@ == "https://api.openai.com/v1"@,
            r.model == OpenAiEmbeddingModel::TextEmbedding3Small,
            r.timeout@ == seconds(30),
            r.organization is None,
            r.project is None,
    {
        OpenAiEmbedderConfig {
            api_key: api_key.to_owned(),
            base_url: "https://api.openai.com/v1".to_owned(),
            model: OpenAiEmbeddingModel::TextEmbedding3Small,
            timeout: Duration::from_secs(30),
            organization: None,
            project: None,
        }
    }

    pub fn with_model(self, model: OpenAiEmbeddingModel) -> (r: Self)
        ensures
            r == (OpenAiEmbedderConfig { model, ..self }),
    {
        OpenAiEmbedderConfig { model, ..self }
    }

    pub fn with_base_url(self, base_url: &str) -> (r: Self)
        ensures
            r == (OpenAiEmbedderConfig { base_url: r.base_url, ..self }),
            r.base_url@ == base_url@,
    {
        OpenAiEmbedderConfig { base_url: base_url.to_owned(), ..self }
    }

    pub fn with_timeout(self, timeout: Duration) -> (r: Self)
        ensures
            r == (OpenAiEmbedderConfig { timeout, ..self }),
    {
        OpenAiEmbedderConfig { timeout, ..self }
    }

    pub fn with_organization(self, organization: &str) -> (r: Self)
        ensures
            r == (OpenAiEmbedderConfig { organization: r.organization, ..self }),
            opt_text(r.organization) == Some(organization@),
    {
        OpenAiEmbedderConfig { organization: Some(organization.to_owned()), ..self }
    }

    pub fn with_project(self, project: &str) -> (r: Self)
        ensures
            r == (OpenAiEmbedderConfig { project: r.project, ..self }),
            opt_text(r.project) == Some(project@),
    {
        OpenAiEmbedderConfig { project: Some(project.to_owned()), ..self }
    }

    /// The configuration that the environment sets, by the values of
    /// `OPENAI_API_KEY`, `OPENAI_BASE_URL`, `OPENAI_EMBEDDING_MODEL`,
    /// `OPENAI_ORGANIZATION` and `OPENAI_PROJECT`. A model that is not known leaves
    /// the default.
    pub fn from_env(
        api_key: Option<String>,
        base_url: Option<String>,
        model: Option<String>,
        organization: Option<String>,
        project: Option<String>,
    ) -> (r: Result<Self, SdkError>)
        ensures
            match r {
                Ok(config) => {
                    &&& api_key == Some(config.api_key)
                    &&& config.base_url@ == overridden(
                        "https://api.openai.com/v1"@,
                        opt_text(base_url),
                    )
                    &&& config.model == (match model {
                        Some(name) => match OpenAiEmbeddingModel::named(name@) {
                            Some(model) => model,
                            None => OpenAiEmbeddingModel::TextEmbedding3Small,
                        },
                        None => OpenAiEmbeddingModel::TextEmbedding3Small,
                    })
                    &&& config.timeout@ == seconds(30)
                    &&& opt_text(config.organization) == not_blank(opt_text(organization))
                    &&& opt_text(config.project) == not_blank(opt_text(project))
                },
                Err(e) => api_key is None && e@ == missing("OPENAI_API_KEY"@),
            },
    {
        let api_key = match required(api_key, "OPENAI_API_KEY") {
            Ok(key) => key,
            Err(e) => {
                return Err(e);
            },
        };
        let model = match model {
            Some(name) => match OpenAiEmbeddingModel::from_str(name.as_str()) {
                Some(model) => model,
                None => OpenAiEmbeddingModel::TextEmbedding3Small,
            },
            None => OpenAiEmbeddingModel::TextEmbedding3Small,
        };
        Ok(
            OpenAiEmbedderConfig {
                api_key,
                base_url: override_text("https://api.openai.com/v1", base_url),
                model,
                timeout: Duration::from_secs(30),
                organization: keep_not_blank(organization),
                project: keep_not_blank(project),
            },
        )
    }
}

/// OpenAI as an embedder.
#[derive(Clone, Debug)]
pub struct OpenAiEmbedder {
    pub config: OpenAiEmbedderConfig,
}

/// The vector of a text, with its place among the texts.
#[derive(Debug)]
pub struct EmbeddingData<V> {
    pub embedding: V,
    pub index: usize,
}

impl OpenAiEmbedder {
    pub fn new(config: OpenAiEmbedderConfig) -> (r: Self)
        ensures
            r.config == config,
    {
        OpenAiEmbedder { config }
    }

    /// Where texts are sent.
    pub fn endpoint(&self) -> (r: String)
        ensures
            r@ == without_trailing(self.config.base_url@, '/') + "/embeddings"@,
    {
        let base = trim_end_matches(self.config.base_url.as_str(), '/');
        concat2(base.as_str(), "/embeddings")
    }

    /// What is wrong with the headers of a request, if anything is.
    pub open spec fn header_fault(self) -> Option<ErrorView> {
        if !header_text_ok("Bearer "@ + self.config.api_key@) {
            Some(bad_setting("Invalid API key format"@, "api_key"@))
        } else if self.config.organization is Some && !header_text_ok(
            self.config.organization->0@,
        ) {
            Some(bad_setting("Invalid organization format"@, "organization"@))
        } else if self.config.project is Some && !header_text_ok(self.config.project->0@) {
            Some(bad_setting("Invalid project format"@, "project"@))
        } else {
            None
        }
    }

    /// The headers of a request.
    pub fn build_request_headers(&self) -> (r: Result<Vec<(String, String)>, SdkError>)
        ensures
            match r {
                Ok(headers) => self.header_fault() is None && pair_views(headers@) == seq![
                    ("content-type"@, "application/json"@),
                    ("authorization"@, "Bearer "@ + self.config.api_key@),
                ] + pair_if("OpenAI-Organization"@, opt_text(self.config.organization)) + pair_if(
                    "OpenAI-Project"@,
                    opt_text(self.config.project),
                ),
                Err(e) => self.header_fault() == Some(e@),
            },
    {
        let bearer = concat2("Bearer ", self.config.api_key.as_str());
        if header_value(bearer.as_str()).is_err() {
            return Err(setting_error("Invalid API key format".to_owned(), "api_key"));
        }
        let mut headers: Vec<(String, String)> = Vec::new();
        push_pair(&mut headers, "content-type", "application/json");
        push_pair(&mut headers, "authorization", bearer.as_str());
        if let Some(organization) = &self.config.organization {
            if header_value(organization.as_str()).is_err() {
                return Err(setting_error("Invalid organization format".to_owned(), "organization"));
            }
            push_pair(&mut headers, "OpenAI-Organization", organization.as_str());
        }
        if let Some(project) = &self.config.project {
            if header_value(project.as_str()).is_err() {
                return Err(setting_error("Invalid project format".to_owned(), "project"));
            }
            push_pair(&mut headers, "OpenAI-Project", project.as_str());
        }
        proof {
            let wanted = seq![
                ("content-type"@, "application/json"@),
                ("authorization"@, "Bearer "@ + self.config.api_key@),
            ] + pair_if("OpenAI-Organization"@, opt_text(self.config.organization)) + pair_if(
                "OpenAI-Project"@,
                opt_text(self.config.project),
            );
            assert(pair_views(headers@) =~= wanted);
        }
        Ok(headers)
    }

    /// What is sent for texts.
    pub open spec fn request_body(self, inputs: Seq<Seq<char>>) -> JsonView {
        JsonView::Object(
            seq![
                (
                    "input"@,
                    JsonView::Array(
                        Seq::new(inputs.len(), |i: int| JsonView::String(inputs[i])),
                    ),
                ),
                ("model"@, JsonView::String(self.config.model.name())),
                ("encoding_format"@, JsonView::String("float"@)),
            ],
        )
    }

    /// What is sent for texts.
    pub fn build_request_body(&self, inputs: &Vec<String>) -> (r: Json)
        ensures
            r@ == self.request_body(texts(inputs@)),
    {
        let mut items = no_items();
        let ghost all = Seq::new(
            texts(inputs@).len(),
            |i: int| JsonView::String(texts(inputs@)[i]),
        );
        let mut i: usize = 0;
        proof {
            whole_prefix(all);
        }
        while i < inputs.len()
            invariant
                i <= inputs@.len(),
                all == Seq::new(
                    texts(inputs@).len(),
                    |i: int| JsonView::String(texts(inputs@)[i]),
                ),
                json_views(items@) == all.subrange(0, i as int),
            decreases inputs@.len() - i,
        {
            put_item(&mut items, Json::text(inputs[i].as_str()));
            proof {
                prefix_next(all, i as int);
            }
            i = i + 1;
        }
        proof {
            whole_prefix(all);
        }
        let mut fields = no_fields();
        put(&mut fields, "input", Json::array(items));
        put_text(&mut fields, "model", self.config.model.as_str());
        put_text(&mut fields, "encoding_format", "float");
        assert(field_views(fields@) =~= self.request_body(texts(inputs@))->Object_0);
        Json::object(fields)
    }
}

/// The body of an answer with an error.
#[derive(Clone, Debug)]
pub struct OpenAiErrorResponse {
    pub error: OpenAiError,
}

/// An error, with its type and its code.
#[derive(Clone, Debug)]
pub struct OpenAiError {
    pub message: String,
    pub kind: Option<String>,
    pub code: Option<String>,
}

/// The `Debug` form of an optional text.
pub open spec fn quoted_option(s: Option<Seq<char>>) -> Seq<char> {
    match s {
        Some(s) => "Some("@ + quoted(s) + ")"@,
        None => "None"@,
    }
}

fn quoted_option_text(s: &Option<String>) -> (r: String)
    ensures
        r@ == quoted_option(opt_text(*s)),
{
    match s {
        Some(s) => concat3("Some(", quoted_text(s.as_str()).as_str(), ")"),
        None => "None".to_owned(),
    }
}

/// What is said of an answer with an error, by what its body reads as.
pub open spec fn embedding_failure(
    status_text: Seq<char>,
    body: Seq<char>,
    told: Option<OpenAiErrorResponse>,
) -> ErrorView {
    ErrorView::Other(
        match told {
            Some(told) => "OpenAI API error: "@ + told.error.message@ + (" (type: "@
                + quoted_option(opt_text(told.error.kind)) + ", code: "@ + quoted_option(
                opt_text(told.error.code),
            ) + ")"@),
            None => "OpenAI API error ("@ + status_text + "): "@ + body,
        },
    )
}

/// What is said of an answer with an error. `status_text` is the status with its name;
/// `told` is what the body reads as.
pub fn embedding_error(status_text: &str, body: &str, told: Option<OpenAiErrorResponse>) -> (r:
    SdkError)
    ensures
        r@ == embedding_failure(status_text@, body@, told),
{
    match told {
        Some(told) => {
            let details = concat5(
                " (type: ",
                quoted_option_text(&told.error.kind).as_str(),
                ", code: ",
                quoted_option_text(&told.error.code).as_str(),
                ")",
            );
            SdkError::Other(
                concat3("OpenAI API error: ", told.error.message.as_str(), details.as_str()),
            )
        },
        None => {
            let mut text = concat3("OpenAI API error (", status_text, "): ");
            text.append(body);
            SdkError::Other(text)
        },
    }
}

/// Vectors with their places, with one more put after all whose places are not
/// later.
pub open spec fn with_embedding<V>(s: Seq<(usize, V)>, x: (usize, V)) -> Seq<(usize, V)>
    decreases s.len(),
{
    if s.len() == 0 || s.last().0 <= x.0 {
        s.push(x)
    } else {
        with_embedding(s.drop_last(), x).push(s.last())
    }
}

/// Vectors in the order of their places; those with one place keep their order.
pub open spec fn by_place<V>(s: Seq<(usize, V)>) -> Seq<(usize, V)>
    decreases s.len(),
{
    if s.len() == 0 {
        s
    } else {
        with_embedding(by_place(s.drop_last()), s.last())
    }
}

/// Whether places do not descend.
pub open spec fn places_ascend<V>(s: Seq<(usize, V)>) -> bool {
    forall|i: int, j: int| 0 <= i < j < s.len() ==> (#[trigger] s[i]).0 <= (#[trigger] s[j]).0
}

proof fn with_embedding_by_position<V>(s: Seq<(usize, V)>, x: (usize, V), p: int)
    requires
        0 <= p <= s.len(),
        p > 0 ==> s[p - 1].0 <= x.0,
        forall|j: int| p <= j < s.len() ==> (#[trigger] s[j]).0 > x.0,
    ensures
        with_embedding(s, x) == s.insert(p, x),
    decreases s.len(),
{
    if s.len() == 0 || s.last().0 <= x.0 {
        if p < s.len() {
            assert(s[s.len() - 1].0 > x.0);
        }
        assert(s.insert(p, x) =~= s.push(x));
    } else {
        with_embedding_by_position(s.drop_last(), x, p);
        assert(s.drop_last().insert(p, x).push(s.last()) =~= s.insert(p, x));
    }
}

/// Putting vectors in the order of their places keeps every vector, and its place.
pub proof fn ordering_keeps_all<V>(s: Seq<(usize, V)>)
    ensures
        places_ascend(by_place(s)),
        by_place(s).to_multiset() =~= s.to_multiset(),
        by_place(s).len() == s.len(),
    decreases s.len(),
{
    broadcast use vstd::seq_lib::group_to_multiset_ensures;

    if s.len() > 0 {
        ordering_keeps_all(s.drop_last());
        insertion_keeps_all(by_place(s.drop_last()), s.last());
        assert(s =~= s.drop_last().push(s.last()));
    }
}

proof fn insertion_keeps_all<V>(s: Seq<(usize, V)>, x: (usize, V))
    requires
        places_ascend(s),
    ensures
        places_ascend(with_embedding(s, x)),
        with_embedding(s, x).to_multiset() =~= s.to_multiset().insert(x),
        with_embedding(s, x).len() == s.len() + 1,
        forall|j: int|
            0 <= j < with_embedding(s, x).len() ==> (#[trigger] with_embedding(s, x)[j]).0 <= x.0
                || (s.len() > 0 && with_embedding(s, x)[j].0 <= s.last().0),
    decreases s.len(),
{
    broadcast use vstd::seq_lib::group_to_multiset_ensures;

    let r = with_embedding(s, x);
    if s.len() == 0 || s.last().0 <= x.0 {
        assert forall|i: int, j: int| 0 <= i < j < r.len() implies (#[trigger] r[i]).0 <= (
        #[trigger] r[j]).0 by {
            if j == s.len() {
                if i < s.len() - 1 {
                    assert(s[i].0 <= s[s.len() - 1].0);
                }
            } else {
                assert(s[i].0 <= s[j].0);
            }
        }
        assert forall|j: int| 0 <= j < r.len() implies (#[trigger] r[j]).0 <= x.0 || (s.len() > 0
            && r[j].0 <= s.last().0) by {
            if j < s.len() - 1 {
                assert(s[j].0 <= s[s.len() - 1].0);
            }
        }
    } else {
        let rest = s.drop_last();
        assert(places_ascend(rest)) by {
            assert forall|i: int, j: int| 0 <= i < j < rest.len() implies (#[trigger] rest[i]).0 <= (
            #[trigger] rest[j]).0 by {
                assert(s[i].0 <= s[j].0);
            }
        }
        insertion_keeps_all(rest, x);
        let inner = with_embedding(rest, x);
        if rest.len() > 0 {
            assert(s[rest.len() - 1].0 <= s[s.len() - 1].0);
        }
        assert forall|i: int, j: int| 0 <= i < j < r.len() implies (#[trigger] r[i]).0 <= (
        #[trigger] r[j]).0 by {
            if j < inner.len() {
                assert(inner[i].0 <= inner[j].0);
            } else {
                assert(r[i] == inner[i]);
            }
        }
        assert forall|j: int| 0 <= j < r.len() implies (#[trigger] r[j]).0 <= x.0 || (s.len() > 0
            && r[j].0 <= s.last().0) by {
            if j < inner.len() {
                assert(r[j] == inner[j]);
            }
        }
        assert(s =~= rest.push(s.last()));
        assert(r.to_multiset() =~= s.to_multiset().insert(x));
    }
}

/// The pairs of places and vectors that data are.
pub open spec fn placed<V>(data: Seq<EmbeddingData<V>>) -> Seq<(usize, V)> {
    Seq::new(data.len(), |i: int| (data[i].index, data[i].embedding))
}

/// The vectors of texts, in the order of the texts.
pub fn order_embeddings<V>(data: Vec<EmbeddingData<V>>) -> (r: Vec<V>)
    ensures
        r@ == by_place(placed(data@)).map_values(|p: (usize, V)| p.1),
{
    let ghost all = placed(data@);
    let mut rest = data;
    let mut taken: Vec<(usize, V)> = Vec::new();
    proof {
        whole_prefix(all);
    }
    let n: usize = rest.len();
    let mut i: usize = 0;
    while i < n
        invariant
            i <= n,
            n == all.len(),
            rest@.len() == n - i,
            forall|j: int|
                0 <= j < n - i ==> (rest@[j].index, rest@[j].embedding) == #[trigger] all[i + j],
            taken@ == by_place(all.subrange(0, i as int)),
        decreases n - i,
    {
        assert((rest@[0].index, rest@[0].embedding) == all[i + 0]);
        let ghost before_rest = rest@;
        let item = rest.remove(0);
        let mut p: usize = taken.len();
        while p > 0 && taken[p - 1].0 > item.index
            invariant
                p <= taken@.len(),
                forall|j: int| p <= j < taken@.len() ==> (#[trigger] taken@[j]).0 > item.index,
            decreases p,
        {
            p = p - 1;
        }
        proof {
            prefix_next(all, i as int);
            with_embedding_by_position(taken@, (item.index, item.embedding), p as int);
        }
        taken.insert(p, (item.index, item.embedding));
        proof {
            assert forall|j: int| 0 <= j < n - (i + 1) implies (
                rest@[j].index,
                rest@[j].embedding,
            ) == #[trigger] all[i + 1 + j] by {
                assert(rest@[j] == before_rest[j + 1]);
                assert((before_rest[j + 1].index, before_rest[j + 1].embedding) == all[i + (j + 1)]);
            }
        }
        i = i + 1;
    }
    proof {
        whole_prefix(all);
    }
    let ghost sorted = taken@;
    let mut out: Vec<V> = Vec::new();
    let m: usize = taken.len();
    let mut k: usize = 0;
    while k < m
        invariant
            k <= m,
            m == sorted.len(),
            taken@ == sorted.subrange(k as int, m as int),
            out@ == sorted.subrange(0, k as int).map_values(|p: (usize, V)| p.1),
        decreases m - k,
    {
        let (_, vector) = taken.remove(0);
        out.push(vector);
        proof {
            prefix_next(sorted, k as int);
            assert(taken@ =~= sorted.subrange(k + 1, m as int));
            assert(out@ =~= sorted.subrange(0, k + 1).map_values(|p: (usize, V)| p.1));
        }
        k = k + 1;
    }
    proof {
        whole_prefix(sorted);
    }
    out
}

/// The vector of the one text that was sent.
pub fn single_embedding<V>(vectors: Vec<V>) -> (r: Result<V, SdkError>)
    ensures
        match r {
            Ok(v) => vectors@.len() > 0 && v == vectors@[0],
            Err(e) => vectors@.len() == 0 && e@ == ErrorView::Other("Empty embedding response"@),
        },
{
    let mut list = vectors;
    if list.len() == 0 {
        Err(other_error("Empty embedding response"))
    } else {
        Ok(list.swap_remove(0))
    }
}

/// Embedders under names, one of which may be the default.
#[derive(Debug)]
pub struct EmbedderRegistry<T> {
    pub inner: Registry<T>,
}

impl<T> EmbedderRegistry<T> {
    pub open spec fn well_formed(self) -> bool {
        self.inner.well_formed()
    }

    pub fn new() -> (r: Self)
        ensures
            r.well_formed(),
            r.inner.entries@.len() == 0,
            r.inner.default_name is None,
    {
        EmbedderRegistry { inner: Registry::new() }
    }

    /// Puts an embedder under a name, in place of what was there.
    pub fn register_provider(&mut self, name: &str, provider: T)
        requires
            old(self).well_formed(),
        ensures
            final(self).well_formed(),
            final(self).inner.default_name == old(self).inner.default_name,
            final(self).inner.value(name@) == Some(provider),
            forall|other: Seq<char>|
                other != name@ ==> #[trigger] final(self).inner.value(other) == old(
                    self,
                ).inner.value(other),
    {
        self.inner.register(name, provider);
    }

    /// The embedder under a name.
    pub fn get_provider(&self, name: &str) -> (r: Option<&T>)
        ensures
            match r {
                Some(v) => self.inner.value(name@) == Some(*v),
                None => self.inner.value(name@) is None,
            },
    {
        self.inner.get(name)
    }

    /// Makes the embedder under a name the default.
    pub fn set_default_provider(&mut self, name: &str) -> (r: Result<(), SdkError>)
        ensures
            final(self).inner.entries == old(self).inner.entries,
            match r {
                Ok(_) => old(self).inner.value(name@) is Some && opt_text(
                    final(self).inner.default_name,
                ) == Some(name@),
                Err(e) => {
                    &&& old(self).inner.value(name@) is None
                    &&& final(self).inner.default_name == old(self).inner.default_name
                    &&& e@ == ErrorView::Other("Embedder provider not found: "@ + name@)
                },
            },
    {
        self.inner.set_default(name, "Embedder provider not found: ")
    }

    /// The default embedder.
    pub fn get_default_provider(&self) -> (r: Option<&T>)
        ensures
            match r {
                Some(v) => self.inner.default_value() == Some(*v),
                None => self.inner.default_value() is None,
            },
    {
        self.inner.get_default()
    }

    /// All names, each once.
    pub fn list_providers(&self) -> (r: Vec<String>)
        ensures
            texts(r@) == names(self.inner.entries@),
    {
        self.inner.list()
    }

    /// Registers the embedder that the environment sets, if it sets one; it becomes
    /// the default where there is none.
    pub fn load_from_environment(&mut self, openai: Option<T>) -> (r: Result<(), SdkError>)
        requires
            old(self).well_formed(),
        ensures
            final(self).well_formed(),
            match openai {
                Some(provider) => {
                    &&& r is Ok
                    &&& final(self).inner.value("openai"@) == Some(provider)
                    &&& forall|other: Seq<char>|
                        other != "openai"@ ==> #[trigger] final(self).inner.value(other) == old(
                            self,
                        ).inner.value(other)
                    &&& match old(self).inner.default_name {
                        Some(_) => final(self).inner.default_name == old(self).inner.default_name,
                        None => opt_text(final(self).inner.default_name) == Some("openai"@),
                    }
                },
                None => r matches Err(e) && e@ == ErrorView::Other(
                    "No embedder providers available"@,
                ) && *final(self) == *old(self),
            },
    {
        match openai {
            Some(provider) => {
                self.register_provider("openai", provider);
                let ghost registered = self.inner;
                if self.inner.default_name.is_none() {
                    self.inner.default_name = Some("openai".to_owned());
                }
                assert forall|other: Seq<char>| #[trigger]
                    self.inner.value(other) == registered.value(other) by {}
                Ok(())
            },
            None => Err(other_error("No embedder providers available")),
        }
    }
}

/// Texts are sent in their order, with the name of the model, for vectors of floats.
pub proof fn texts_are_sent_in_order(embedder: OpenAiEmbedder, inputs: Seq<Seq<char>>, i: int)
    ensures
        ({
            let body = embedder.request_body(inputs);
            let sent = body.field("input"@)->0.items()->0;
            &&& body.field_text("model"@) == Some(embedder.config.model.name())
            &&& body.field_text("encoding_format"@) == Some("float"@)
            &&& sent.len() == inputs.len()
            &&& 0 <= i < inputs.len() ==> sent[i] == JsonView::String(inputs[i])
        }),
        OpenAiEmbeddingModel::TextEmbedding3Small.name() == "text-embedding-3-small"@,
        OpenAiEmbeddingModel::TextEmbedding3Large.name() == "text-embedding-3-large"@,
        OpenAiEmbeddingModel::TextEmbeddingAda002.name() == "text-embedding-ada-002"@,
{
    broadcast use crate::json::group_fields;

    reveal_with_fuel(crate::json::last_field, 4);
    reveal_strlit("input");
    reveal_strlit("model");
    reveal_strlit("encoding_format");
    assert("input"@.len() == 5
        && "model"@.len() == 5
        && "encoding_format"@.len() == 15
        && "input"@[0] == 'i'
        && "model"@[0] == 'm');
    assert(embedder.request_body(inputs).field("input"@) is Some);
}

/// Vectors come back in the order of their texts: one whose place is at the end stays at
/// the end, behind those that came before it with that place.
pub proof fn vectors_follow_their_texts<V>(s: Seq<(usize, V)>, x: (usize, V))
    requires
        forall|j: int| 0 <= j < s.len() ==> (#[trigger] s[j]).0 <= x.0,
    ensures
        by_place(s.push(x)) == by_place(s).push(x),
{
    assert(s.push(x).drop_last() =~= s);
    ordering_keeps_all(s);
    let sorted = by_place(s);
    if sorted.len() > 0 {
        let last = sorted.last();
        assert(sorted.to_multiset().count(last) > 0) by {
            sorted.to_multiset_ensures();
            assert(sorted.contains(last));
        }
        s.to_multiset_ensures();
        assert(s.contains(last));
    }
}

/// An error is told with its message, its type and its code where the body says them, and
/// with the status and the body otherwise.
pub proof fn embedding_errors_are_told(
    status: Seq<char>,
    body: Seq<char>,
    told: OpenAiErrorResponse,
    s: Seq<char>,
)
    ensures
        embedding_failure(status, body, None) == ErrorView::Other(
            "OpenAI API error ("@ + status + "): "@ + body,
        ),
        embedding_failure(status, body, Some(told)) == ErrorView::Other(
            "OpenAI API error: "@ + told.error.message@ + (" (type: "@ + quoted_option(
                opt_text(told.error.kind),
            ) + ", code: "@ + quoted_option(opt_text(told.error.code)) + ")"@),
        ),
        quoted_option(None) == "None"@,
        quoted_option(Some(s)) == "Some("@ + quoted(s) + ")"@,
{
}

/// A key, an organization and a project must each be fit for a header.
pub proof fn headers_must_be_fit(embedder: OpenAiEmbedder)
    ensures
        embedder.header_fault() is None <==> header_text_ok("Bearer "@ + embedder.config.api_key@)
            && (embedder.config.organization is None || header_text_ok(
            embedder.config.organization->0@,
        )) && (embedder.config.project is None || header_text_ok(embedder.config.project->0@)),
        !header_text_ok("Bearer "@ + embedder.config.api_key@) ==> embedder.header_fault() == Some(
            bad_setting("Invalid API key format"@, "api_key"@),
        ),
{
}

/// Each vector has the place that it came with.
pub proof fn vectors_have_their_places<V>(data: Seq<EmbeddingData<V>>, i: int)
    requires
        0 <= i < data.len(),
    ensures
        placed(data).len() == data.len(),
        placed(data)[i].0 == data[i].index,
        placed(data)[i].1 == data[i].embedding,
{
}

} // verus!
