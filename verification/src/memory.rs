//! Semantic memory: texts that are stored as vectors and found again by likeness.
//!
//! `F` is the type of the components of vectors; nothing here computes with them.
use vstd::prelude::*;
use vstd::string::*;

use crate::clock::now_rfc3339;
use crate::error::{bad_setting, other_error, setting_error, ErrorView, SdkError};
use crate::ids::new_uuid;
use crate::json::{field_views, last_field, put, Json, JsonView};
use crate::llm::vectordb::types::{
    Collection, DistanceMetric, MetadataView, SearchQuery, SearchResult, VectorEntry,
    VectorMetadata,
};
use crate::seqs::{flattened, flattened_next, prefix_next, whole_prefix};
use crate::text::{
    all_ascii, chars_of, concat2, concat4, is_ascii, lowered, opt_text, push_char, str_eq, texts,
    to_lowercase,
};

verus! {

/// Whom a memory belongs to.
#[derive(Clone, Copy, Debug, PartialEq, Eq, Structural)]
pub enum MemoryScope {
    User,
    Tenant,
    Agent,
    Session,
    Global,
}

/// Whether a character is a letter or a digit of ASCII.
pub open spec fn ascii_alphanumeric(c: char) -> bool {
    ('0' <= c && c <= '9') || ('a' <= c && c <= 'z') || ('A' <= c && c <= 'Z')
}

/// What `char::is_alphanumeric` says of a character.
pub uninterp spec fn alphanumeric(c: char) -> bool;

/// Whether a character is a letter or a digit.
pub open spec fn is_letter_or_digit(c: char) -> bool {
    if is_ascii(c) {
        ascii_alphanumeric(c)
    } else {
        alphanumeric(c)
    }
}

/// `char::is_alphanumeric`: whether a character is a letter or a digit by Unicode's
/// rules. It depends on the character alone. Of the ASCII characters these are the
/// letters and digits of ASCII.
#[verifier::external_body]
fn is_alphanumeric(c: char) -> (r: bool)
    ensures
        is_ascii(c) ==> r == ascii_alphanumeric(c),
        !is_ascii(c) ==> r == alphanumeric(c),
{
    c.is_alphanumeric()
}

/// A character of a collection's name: a letter, a digit or an underscore stays,
/// any other becomes an underscore.
pub open spec fn name_char(c: char, letter_or_digit: bool) -> char {
    if letter_or_digit || c == '_' {
        c
    } else {
        '_'
    }
}

/// A character of a collection's name.
pub fn to_name_char(c: char, letter_or_digit: bool) -> (r: char)
    ensures
        r == name_char(c, letter_or_digit),
{
    if letter_or_digit || c == '_' {
        c
    } else {
        '_'
    }
}

/// An id as part of a collection's name.
pub open spec fn sanitized(id: Seq<char>) -> Seq<char> {
    Seq::new(id.len(), |i: int| name_char(id[i], is_letter_or_digit(id[i])))
}

/// Whether a character stands in names of collections as it is: a letter or a digit
/// of ASCII, or an underscore.
pub open spec fn is_plain(c: char) -> bool {
    ascii_alphanumeric(c) || c == '_'
}

/// An id in ASCII becomes letters, digits and underscores; its own letters, digits and
/// underscores stay, and every other character becomes an underscore.
pub proof fn ascii_ids_become_plain(id: Seq<char>)
    requires
        all_ascii(id),
    ensures
        sanitized(id).len() == id.len(),
        forall|i: int|
            0 <= i < id.len() ==> #[trigger] sanitized(id)[i] == (if is_plain(id[i]) {
                id[i]
            } else {
                '_'
            }),
        forall|i: int| 0 <= i < id.len() ==> is_plain(#[trigger] sanitized(id)[i]),
        (forall|i: int| 0 <= i < id.len() ==> is_plain(#[trigger] id[i])) ==> sanitized(id) == id,
{
    assert forall|i: int| 0 <= i < id.len() implies #[trigger] sanitized(id)[i] == (if is_plain(
        id[i],
    ) {
        id[i]
    } else {
        '_'
    }) by {
        assert(is_ascii(id[i]));
    }
    if forall|i: int| 0 <= i < id.len() ==> is_plain(#[trigger] id[i]) {
        assert(sanitized(id) =~= id);
    }
}

fn sanitize(id: &str) -> (r: String)
    ensures
        r@ == sanitized(id@),
{
    let cs = chars_of(id);
    let mut out = String::new();
    let mut i: usize = 0;
    let ghost all = sanitized(id@);
    proof {
        whole_prefix(all);
    }
    while i < cs.len()
        invariant
            i <= cs@.len(),
            cs@ == id@,
            all == sanitized(id@),
            out@ == all.subrange(0, i as int),
        decreases cs@.len() - i,
    {
        push_char(&mut out, to_name_char(cs[i], is_alphanumeric(cs[i])));
        proof {
            prefix_next(all, i as int);
        }
        i = i + 1;
    }
    proof {
        whole_prefix(all);
    }
    out
}

impl MemoryScope {
    /// The name of the scope.
    pub open spec fn name(self) -> Seq<char> {
        match self {
            MemoryScope::User => "user"@,
            MemoryScope::Tenant => "tenant"@,
            MemoryScope::Agent => "agent"@,
            MemoryScope::Session => "session"@,
            MemoryScope::Global => "global"@,
        }
    }

    pub fn as_str(&self) -> (r: &'static str)
        ensures
            r@ == self.name(),
    {
        match self {
            MemoryScope::User => "user",
            MemoryScope::Tenant => "tenant",
            MemoryScope::Agent => "agent",
            MemoryScope::Session => "session",
            MemoryScope::Global => "global",
        }
    }

    /// The scope with a name in lower case.
    pub open spec fn named(s: Seq<char>) -> Option<MemoryScope> {
        if s == "user"@ {
            Some(MemoryScope::User)
        } else if s == "tenant"@ {
            Some(MemoryScope::Tenant)
        } else if s == "agent"@ {
            Some(MemoryScope::Agent)
        } else if s == "session"@ {
            Some(MemoryScope::Session)
        } else if s == "global"@ {
            Some(MemoryScope::Global)
        } else {
            None
        }
    }

    /// The scope with a name in lower case.
    pub fn from_lowercase(s: &str) -> (r: Option<Self>)
        ensures
            r == MemoryScope::named(s@),
    {
        if str_eq(s, "user") {
            Some(MemoryScope::User)
        } else if str_eq(s, "tenant") {
            Some(MemoryScope::Tenant)
        } else if str_eq(s, "agent") {
            Some(MemoryScope::Agent)
        } else if str_eq(s, "session") {
            Some(MemoryScope::Session)
        } else if str_eq(s, "global") {
            Some(MemoryScope::Global)
        } else {
            None
        }
    }

    /// The scope with a name, in upper or lower case.
    pub fn from_str(s: &str) -> (r: Option<Self>)
        ensures
            r == MemoryScope::named(lowered(s@)),
    {
        let lower = to_lowercase(s);
        MemoryScope::from_lowercase(lower.as_str())
    }

    /// The name of the collection of an id in this scope.
    pub open spec fn collection(self, scope_id: Seq<char>) -> Seq<char> {
        self.name() + "_"@ + sanitized(scope_id) + "_memories"@
    }

    /// The name of the collection of an id in this scope.
    pub fn collection_name(&self, scope_id: &str) -> (r: String)
        ensures
            r@ == self.collection(scope_id@),
    {
        concat4(self.as_str(), "_", sanitize(scope_id).as_str(), "_memories")
    }
}

/// The name of a scope leads back to it.
pub proof fn scope_names_lead_back(scope: MemoryScope)
    ensures
        MemoryScope::named(scope.name()) == Some(scope),
{
    reveal_strlit("user");
    reveal_strlit("tenant");
    reveal_strlit("agent");
    reveal_strlit("session");
    reveal_strlit("global");
    assert("tenant"@.len() != "user"@.len());
    assert("agent"@.len() != "user"@.len() && "agent"@.len() != "tenant"@.len());
    assert("session"@.len() != "user"@.len() && "session"@.len() != "tenant"@.len()
        && "session"@.len() != "agent"@.len());
    assert("global"@[0] != "tenant"@[0]);
    assert("global"@.len() != "user"@.len() && "global"@.len() != "agent"@.len()
        && "global"@.len() != "session"@.len());
}

/// A scope's name holds no underscore, and no two scopes have one name.
proof fn scope_names_differ(a: MemoryScope, b: MemoryScope)
    ensures
        forall|i: int| 0 <= i < a.name().len() ==> #[trigger] a.name()[i] != '_',
        a.name() == b.name() ==> a == b,
{
    scope_names_lead_back(a);
    scope_names_lead_back(b);
    reveal_strlit("user");
    reveal_strlit("tenant");
    reveal_strlit("agent");
    reveal_strlit("session");
    reveal_strlit("global");
}

/// Scopes are kept apart: no two of them share a collection, whatever the ids.
pub proof fn scopes_are_kept_apart(
    a: MemoryScope,
    id_a: Seq<char>,
    b: MemoryScope,
    id_b: Seq<char>,
)
    requires
        a.collection(id_a) == b.collection(id_b),
    ensures
        a == b,
        sanitized(id_a) == sanitized(id_b),
{
    scope_names_differ(a, b);
    scope_names_differ(b, a);
    reveal_strlit("_");
    let whole = a.collection(id_a);
    let other = b.collection(id_b);
    let m = a.name().len() as int;
    let n = b.name().len() as int;
    assert(whole[m] == '_');
    assert(other[n] == '_');
    if m < n {
        assert(other[m] == b.name()[m]);
    } else if n < m {
        assert(whole[n] == a.name()[n]);
    }
    assert(a.name() =~= whole.subrange(0, m));
    assert(b.name() =~= other.subrange(0, n));
    assert(m == n);
    let ending = "_memories"@.len();
    assert(whole.len() == m + 1 + id_a.len() + ending);
    assert(other.len() == n + 1 + id_b.len() + ending);
    assert(sanitized(id_a) =~= whole.subrange(m + 1, m + 1 + id_a.len()));
    assert(sanitized(id_b) =~= other.subrange(n + 1, n + 1 + id_b.len()));
}

/// Memories are kept apart: no two ids of letters, digits and underscores share a
/// collection, in one scope or in two.
pub proof fn collections_are_kept_apart(
    a: MemoryScope,
    id_a: Seq<char>,
    b: MemoryScope,
    id_b: Seq<char>,
)
    requires
        sanitized(id_a) == id_a,
        sanitized(id_b) == id_b,
        a.collection(id_a) == b.collection(id_b),
    ensures
        a == b,
        id_a == id_b,
{
    scopes_are_kept_apart(a, id_a, b, id_b);
}

/// A memory that was found.
#[derive(Debug)]
pub struct MemoryResult<F> {
    pub id: String,
    /// The text that was stored.
    pub content: String,
    pub score: F,
    pub metadata: MemoryMetadata,
}

/// What is known of a memory.
#[derive(Clone, Debug)]
pub struct MemoryMetadata {
    pub source: Option<String>,
    pub created_at: Option<String>,
    /// Anything else; of two values with one name the later counts.
    pub extra: Vec<(String, Json)>,
}

/// What a `MemoryMetadata` says.
pub struct MemoryView {
    pub source: Option<Seq<char>>,
    pub created_at: Option<Seq<char>>,
    pub extra: Seq<(Seq<char>, JsonView)>,
}

impl View for MemoryMetadata {
    type V = MemoryView;

    open spec fn view(&self) -> MemoryView {
        MemoryView {
            source: opt_text(self.source),
            created_at: opt_text(self.created_at),
            extra: field_views(self.extra@),
        }
    }
}

impl Default for MemoryMetadata {
    fn default() -> (r: Self)
        ensures
            r@ == (MemoryView { source: None, created_at: None, extra: Seq::empty() }),
    {
        MemoryMetadata::new()
    }
}

impl MemoryMetadata {
    pub fn new() -> (r: Self)
        ensures
            r@ == (MemoryView { source: None, created_at: None, extra: Seq::empty() }),
    {
        let r = MemoryMetadata { source: None, created_at: None, extra: Vec::new() };
        assert(field_views(r.extra@) =~= Seq::empty());
        r
    }

    pub fn with_source(self, source: &str) -> (r: Self)
        ensures
            r@ == (MemoryView { source: Some(source@), ..self@ }),
    {
        MemoryMetadata { source: Some(source.to_owned()), ..self }
    }

    pub fn with_created_at(self, timestamp: &str) -> (r: Self)
        ensures
            r@ == (MemoryView { created_at: Some(timestamp@), ..self@ }),
    {
        MemoryMetadata { created_at: Some(timestamp.to_owned()), ..self }
    }

    pub fn with_extra(self, key: &str, value: Json) -> (r: Self)
        ensures
            r@ == (MemoryView { extra: self@.extra.push((key@, value@)), ..self@ }),
    {
        let mut r = self;
        put(&mut r.extra, key, value);
        r
    }
}

/// Whose memory it is, and how it is kept.
#[derive(Clone, Debug)]
pub struct SemanticMemoryConfig {
    pub scope: MemoryScope,
    pub scope_id: String,
    pub distance_metric: DistanceMetric,
    /// Whether a collection that is not there is made.
    pub auto_create_collection: bool,
}

impl SemanticMemoryConfig {
    pub fn new(scope: MemoryScope, scope_id: &str) -> (r: Self)
        ensures
            r.scope == scope,
            r.scope_id@ == scope_id@,
            r.distance_metric == DistanceMetric::Cosine,
            r.auto_create_collection,
    {
        SemanticMemoryConfig {
            scope,
            scope_id: scope_id.to_owned(),
            distance_metric: DistanceMetric::Cosine,
            auto_create_collection: true,
        }
    }

    pub fn with_distance_metric(self, metric: DistanceMetric) -> (r: Self)
        ensures
            r == (SemanticMemoryConfig { distance_metric: metric, ..self }),
    {
        SemanticMemoryConfig { distance_metric: metric, ..self }
    }

    pub fn with_auto_create(self, auto_create: bool) -> (r: Self)
        ensures
            r == (SemanticMemoryConfig { auto_create_collection: auto_create, ..self }),
    {
        SemanticMemoryConfig { auto_create_collection: auto_create, ..self }
    }
}

/// What is stored for a memory: its text, its source, everything else, and when it
/// was made, which is now unless it is said.
pub open spec fn stored_metadata(content: Seq<char>, meta: MemoryView, now: Seq<char>) -> MetadataView {
    MetadataView {
        text: Some(content),
        source: meta.source,
        chunk_index: None,
        extra: meta.extra.push(
            (
                "created_at"@,
                JsonView::String(
                    match meta.created_at {
                        Some(t) => t,
                        None => now,
                    },
                ),
            ),
        ),
    }
}

fn copy_fields(fields: &Vec<(String, Json)>) -> (r: Vec<(String, Json)>)
    ensures
        field_views(r@) == field_views(fields@),
{
    let mut out: Vec<(String, Json)> = Vec::new();
    let mut i: usize = 0;
    while i < fields.len()
        invariant
            i <= fields@.len(),
            out@.len() == i,
            forall|j: int|
                0 <= j < i ==> (#[trigger] out@[j]).0@ == fields@[j].0@ && out@[j].1@
                    == fields@[j].1@,
        decreases fields@.len() - i,
    {
        out.push((fields[i].0.clone(), fields[i].1.duplicate()));
        i = i + 1;
    }
    assert(field_views(out@) =~= field_views(fields@));
    out
}

/// What is stored for a memory.
pub fn build_metadata(content: &str, metadata: &MemoryMetadata, now: &str) -> (r: VectorMetadata)
    ensures
        r@ == stored_metadata(content@, metadata@, now@),
{
    let created_at = match &metadata.created_at {
        Some(t) => t.clone(),
        None => now.to_owned(),
    };
    let mut extra = copy_fields(&metadata.extra);
    put(&mut extra, "created_at", Json::String(created_at));
    VectorMetadata {
        text: Some(content.to_owned()),
        source: match &metadata.source {
            Some(source) => Some(source.clone()),
            None => None,
        },
        chunk_index: None,
        extra,
    }
}

/// What was known of a memory when it was stored, read back.
pub open spec fn recalled_metadata(stored: MetadataView) -> MemoryView {
    MemoryView {
        source: stored.source,
        created_at: match last_field(stored.extra, "created_at"@) {
            Some(v) => v.text(),
            None => None,
        },
        extra: stored.extra,
    }
}

/// What is stored is found again: the source and the other values as they were, and
/// when the memory was made.
pub proof fn stored_metadata_is_recalled(content: Seq<char>, meta: MemoryView, now: Seq<char>)
    ensures
        recalled_metadata(stored_metadata(content, meta, now)).source == meta.source,
        recalled_metadata(stored_metadata(content, meta, now)).created_at == Some(
            match meta.created_at {
                Some(t) => t,
                None => now,
            },
        ),
        forall|key: Seq<char>|
            key != "created_at"@ ==> #[trigger] last_field(
                recalled_metadata(stored_metadata(content, meta, now)).extra,
                key,
            ) == last_field(meta.extra, key),
{
    let stored = stored_metadata(content, meta, now);
    assert(stored.extra.drop_last() =~= meta.extra);
}

/// A memory that a search found, where its text is known.
pub open spec fn recalled<F>(result: SearchResult<F>) -> Option<(Seq<char>, Seq<char>, F, MemoryView)> {
    match result.metadata {
        Some(metadata) => match metadata.text {
            Some(text) => Some(
                (result.id@, text@, result.score, recalled_metadata(metadata@)),
            ),
            None => None,
        },
        None => None,
    }
}

/// The memories that a search found.
pub open spec fn recalled_all<F>(results: Seq<SearchResult<F>>) -> Seq<
    Option<(Seq<char>, Seq<char>, F, MemoryView)>,
> {
    Seq::new(results.len(), |i: int| recalled(results[i]))
}

/// What memories say.
pub open spec fn memory_views<F>(results: Seq<MemoryResult<F>>) -> Seq<
    (Seq<char>, Seq<char>, F, MemoryView),
> {
    Seq::new(
        results.len(),
        |i: int|
            (results[i].id@, results[i].content@, results[i].score, results[i].metadata@),
    )
}

fn recall_metadata(metadata: VectorMetadata) -> (r: MemoryMetadata)
    ensures
        r@ == recalled_metadata(metadata@),
{
    let ghost stored = metadata@;
    let held = Json::object(metadata.extra);
    let created_at = match held.get_str("created_at") {
        Some(t) => Some(t.to_owned()),
        None => None,
    };
    let extra = match held {
        Json::Object(fields) => {
            proof {
                crate::json::object_view(fields);
            }
            fields
        },
        _ => Vec::new(),
    };
    MemoryMetadata { source: metadata.source, created_at, extra }
}

/// The memories that a search found; what has no text is left out.
pub fn memory_results<F>(results: Vec<SearchResult<F>>) -> (r: Vec<MemoryResult<F>>)
    ensures
        memory_views(r@) == flattened(recalled_all(results@)),
{
    let ghost all = recalled_all(results@);
    let n: usize = results.len();
    let mut rest = results;
    let mut out: Vec<MemoryResult<F>> = Vec::new();
    let mut i: usize = 0;
    proof {
        whole_prefix(all);
        assert(memory_views(out@) =~= Seq::empty());
        assert(rest@ =~= results@.subrange(0, n as int));
    }
    while i < n
        invariant
            i <= n,
            n == results@.len(),
            all == recalled_all(results@),
            rest@ == results@.subrange(i as int, n as int),
            memory_views(out@) == flattened(all.subrange(0, i as int)),
        decreases n - i,
    {
        let ghost before = memory_views(out@);
        let result = rest.remove(0);
        proof {
            assert(result == results@[i as int]);
            assert(rest@ =~= results@.subrange(i + 1, n as int));
            flattened_next(all, i as int);
        }
        if let Some(metadata) = result.metadata {
            let text = match &metadata.text {
                Some(text) => Some(text.clone()),
                None => None,
            };
            if let Some(content) = text {
                let found = MemoryResult {
                    id: result.id,
                    content,
                    score: result.score,
                    metadata: recall_metadata(metadata),
                };
                out.push(found);
                assert(memory_views(out@) =~= before.push(
                    (found.id@, found.content@, found.score, found.metadata@),
                ));
            }
        }
        i = i + 1;
    }
    proof {
        whole_prefix(all);
    }
    out
}

/// The memory that an entry is, where its text is known. `score` is that of an exact
/// match.
pub fn memory_of_entry<F>(entry: Option<VectorEntry<F>>, score: F) -> (r: Option<MemoryResult<F>>)
    ensures
        match entry {
            Some(e) => match e.metadata.text {
                Some(text) => r matches Some(m) && m.id == e.id && m.content@ == text@ && m.score
                    == score && m.metadata@ == recalled_metadata(e.metadata@),
                None => r is None,
            },
            None => r is None,
        },
{
    match entry {
        Some(e) => {
            let text = match &e.metadata.text {
                Some(text) => Some(text.clone()),
                None => None,
            };
            match text {
                Some(content) => Some(
                    MemoryResult {
                        id: e.id,
                        content,
                        score,
                        metadata: recall_metadata(e.metadata),
                    },
                ),
                None => None,
            }
        },
        None => None,
    }
}

/// A memory's vectors are kept in a collection of its own.
#[derive(Debug)]
pub struct SemanticMemory {
    pub config: SemanticMemoryConfig,
    pub collection_name: String,
    /// How many components the embedder's vectors have.
    pub dimension: u32,
    /// Whether the collection has been seen to.
    pub collection_initialized: bool,
}

/// What to do with a batch of memories.
#[derive(Debug)]
pub enum BatchStep {
    /// There is nothing to store.
    Nothing,
    /// The texts are to be embedded.
    Embed,
}

/// Entries for the vector database, and their ids.
#[derive(Debug)]
pub struct NewEntries<F> {
    pub entries: Vec<VectorEntry<F>>,
    pub ids: Vec<String>,
}

/// How many entries there are: as many as there are vectors for texts.
pub open spec fn entry_count(contents: nat, vectors: nat) -> nat {
    if contents <= vectors {
        contents
    } else {
        vectors
    }
}

/// Whether entries are those for texts with their vectors, under ids, made at a
/// moment.
pub open spec fn entries_under<F>(
    r: NewEntries<F>,
    contents: Seq<String>,
    metadata: Seq<MemoryMetadata>,
    vectors: Seq<Vec<F>>,
    ids: Seq<Seq<char>>,
    now: Seq<char>,
) -> bool {
    &&& r.entries@.len() == entry_count(contents.len(), vectors.len())
    &&& texts(r.ids@) == ids
    &&& forall|i: int|
        0 <= i < r.entries@.len() ==> {
            &&& (#[trigger] r.entries@[i]).id@ == ids[i]
            &&& r.entries@[i].vector == vectors[i]
            &&& r.entries@[i].metadata@ == stored_metadata(contents[i]@, metadata[i]@, now)
        }
}

/// Whether these can be ids: texts of the length of an id, one for each entry.
pub open spec fn are_ids(ids: Seq<Seq<char>>, count: nat) -> bool {
    ids.len() == count && forall|i: int| 0 <= i < ids.len() ==> (#[trigger] ids[i]).len() == 36
}

/// Whether entries are those for texts with their vectors, under ids drawn at random,
/// made at a moment.
pub open spec fn entries_for<F>(
    r: NewEntries<F>,
    contents: Seq<String>,
    metadata: Seq<MemoryMetadata>,
    vectors: Seq<Vec<F>>,
    now: Seq<char>,
) -> bool {
    &&& are_ids(texts(r.ids@), entry_count(contents.len(), vectors.len()))
    &&& entries_under(r, contents, metadata, vectors, texts(r.ids@), now)
}

impl SemanticMemory {
    /// The collection is that of the scope.
    pub open spec fn well_formed(self) -> bool {
        self.collection_name@ == self.config.scope.collection(self.config.scope_id@)
    }

    pub fn new(config: SemanticMemoryConfig, dimension: u32) -> (r: Self)
        ensures
            r.well_formed(),
            r.config == config,
            r.dimension == dimension,
            !r.collection_initialized,
    {
        let collection_name = config.scope.collection_name(config.scope_id.as_str());
        SemanticMemory { config, collection_name, dimension, collection_initialized: false }
    }

    /// Sees to the collection once: the collection to be made, if one is.
    pub fn ensure_collection(&mut self) -> (r: Option<Collection>)
        ensures
            *final(self) == (SemanticMemory { collection_initialized: true, ..*old(self) }),
            match r {
                Some(collection) => {
                    &&& !old(self).collection_initialized
                        && old(self).config.auto_create_collection
                    &&& collection.name@ == old(self).collection_name@
                    &&& collection.dimension == old(self).dimension
                    &&& collection.distance_metric == old(self).config.distance_metric
                    &&& opt_text(collection.description) == Some(
                        "Semantic memory for "@ + old(self).config.scope.name() + " "@ + old(
                            self,
                        ).config.scope_id@,
                    )
                    &&& collection.config@.len() == 0
                },
                None => old(self).collection_initialized || !old(
                    self,
                ).config.auto_create_collection,
            },
    {
        if self.collection_initialized {
            return None;
        }
        self.collection_initialized = true;
        if self.config.auto_create_collection {
            let description = concat4(
                "Semantic memory for ",
                self.config.scope.as_str(),
                " ",
                self.config.scope_id.as_str(),
            );
            Some(
                Collection {
                    name: self.collection_name.clone(),
                    dimension: self.dimension,
                    distance_metric: self.config.distance_metric,
                    description: Some(description),
                    config: Vec::new(),
                },
            )
        } else {
            None
        }
    }

    /// Checks a batch: each text has metadata of its own.
    pub fn check_batch(&self, contents: usize, metadata: usize) -> (r: Result<BatchStep, SdkError>)
        ensures
            match r {
                Ok(BatchStep::Nothing) => contents == metadata && contents == 0,
                Ok(BatchStep::Embed) => contents == metadata && contents > 0,
                Err(e) => contents != metadata && e@ == ErrorView::Other(
                    "Contents and metadata arrays must have the same length"@,
                ),
            },
    {
        if contents != metadata {
            Err(other_error("Contents and metadata arrays must have the same length"))
        } else if contents == 0 {
            Ok(BatchStep::Nothing)
        } else {
            Ok(BatchStep::Embed)
        }
    }

    /// The entries for texts with their vectors, under ids of their own. There are as
    /// many as there are vectors for texts.
    pub fn build_entries_with_ids<F>(
        &self,
        contents: &Vec<String>,
        metadata: &Vec<MemoryMetadata>,
        vectors: Vec<Vec<F>>,
        ids: Vec<String>,
        now: &str,
    ) -> (r: NewEntries<F>)
        requires
            contents@.len() == metadata@.len(),
            ids@.len() == entry_count(contents@.len(), vectors@.len()),
        ensures
            entries_under(r, contents@, metadata@, vectors@, texts(ids@), now@),
    {
        let n: usize = ids.len();
        let ghost total = vectors@.len() as int;
        let mut rest = vectors;
        let mut entries: Vec<VectorEntry<F>> = Vec::new();
        let mut i: usize = 0;
        assert(rest@ =~= vectors@.subrange(0, total));
        while i < n
            invariant
                i <= n,
                n == ids@.len(),
                n <= contents@.len(),
                n <= total,
                contents@.len() == metadata@.len(),
                total == vectors@.len(),
                rest@ == vectors@.subrange(i as int, total),
                entries@.len() == i,
                forall|j: int|
                    0 <= j < i ==> {
                        &&& (#[trigger] entries@[j]).id@ == ids@[j]@
                        &&& entries@[j].vector == vectors@[j]
                        &&& entries@[j].metadata@ == stored_metadata(
                            contents@[j]@,
                            metadata@[j]@,
                            now@,
                        )
                    },
            decreases n - i,
        {
            let vector = rest.remove(0);
            assert(vector == vectors@[i as int]);
            assert(rest@ =~= vectors@.subrange(i + 1, total));
            entries.push(
                VectorEntry {
                    id: ids[i].clone(),
                    vector,
                    metadata: build_metadata(contents[i].as_str(), &metadata[i], now),
                },
            );
            i = i + 1;
        }
        NewEntries { entries, ids }
    }

    /// The entries for texts with their vectors, under ids drawn at random. That no
    /// two of these are alike rests on chance.
    pub fn build_entries<F>(
        &self,
        contents: &Vec<String>,
        metadata: &Vec<MemoryMetadata>,
        vectors: Vec<Vec<F>>,
        now: &str,
    ) -> (r: NewEntries<F>)
        requires
            contents@.len() == metadata@.len(),
        ensures
            entries_for(r, contents@, metadata@, vectors@, now@),
    {
        let n: usize = if contents.len() <= vectors.len() {
            contents.len()
        } else {
            vectors.len()
        };
        let mut ids: Vec<String> = Vec::new();
        while ids.len() < n
            invariant
                ids@.len() <= n,
                forall|j: int| 0 <= j < ids@.len() ==> (#[trigger] ids@[j])@.len() == 36,
            decreases n - ids@.len(),
        {
            ids.push(new_uuid());
        }
        assert(are_ids(texts(ids@), n as nat));
        self.build_entries_with_ids(contents, metadata, vectors, ids, now)
    }

    /// The entries for texts with their vectors, made at this moment.
    pub fn build_entries_now<F>(
        &self,
        contents: &Vec<String>,
        metadata: &Vec<MemoryMetadata>,
        vectors: Vec<Vec<F>>,
    ) -> (r: NewEntries<F>)
        requires
            contents@.len() == metadata@.len(),
        ensures
            exists|now: Seq<char>|
                #[trigger] entries_for(r, contents@, metadata@, vectors@, now),
    {
        let now = now_rfc3339();
        self.build_entries(contents, metadata, vectors, now.as_str())
    }

    /// The search for texts like another, by its vector.
    pub fn search_query<F>(&self, vector: Vec<F>, limit: u32, min_score: Option<F>) -> (r:
        SearchQuery<F>)
        ensures
            r == (SearchQuery {
                vector,
                limit,
                min_score,
                filter: None,
                distance_metric: Some(self.config.distance_metric),
                include_vectors: false,
                include_metadata: true,
            }),
    {
        SearchQuery {
            vector,
            limit,
            min_score,
            filter: None,
            distance_metric: Some(self.config.distance_metric),
            include_vectors: false,
            include_metadata: true,
        }
    }

    /// The name of the collection.
    pub fn collection_name(&self) -> (r: &str)
        ensures
            r@ == self.collection_name@,
    {
        self.collection_name.as_str()
    }

    /// Whose memory it is.
    pub fn scope(&self) -> (r: MemoryScope)
        ensures
            r == self.config.scope,
    {
        self.config.scope
    }

    /// The id within the scope.
    pub fn scope_id(&self) -> (r: &str)
        ensures
            r@ == self.config.scope_id@,
    {
        self.config.scope_id.as_str()
    }

    /// How many components the embedder's vectors have.
    pub fn dimension(&self) -> (r: u32)
        ensures
            r == self.dimension,
    {
        self.dimension
    }
}

/// The outside steps of a memory that can fail.
#[derive(Clone, Copy, Debug, PartialEq, Eq, Structural)]
pub enum MemoryFailure {
    Embed,
    EmbedBatch,
    EmbedQuery,
    Store,
    StoreBatch,
    Search,
    Forget,
    Get,
}

/// What is said when a step fails.
pub open spec fn failure_text(step: MemoryFailure) -> Seq<char> {
    match step {
        MemoryFailure::Embed => "Failed to generate embedding: "@,
        MemoryFailure::EmbedBatch => "Failed to generate batch embeddings: "@,
        MemoryFailure::EmbedQuery => "Failed to generate query embedding: "@,
        MemoryFailure::Store => "Failed to store memory: "@,
        MemoryFailure::StoreBatch => "Failed to store memories: "@,
        MemoryFailure::Search => "Failed to search memories: "@,
        MemoryFailure::Forget => "Failed to forget memory: "@,
        MemoryFailure::Get => "Failed to get memory: "@,
    }
}

/// The error when a step fails.
pub fn memory_error(step: MemoryFailure, reason: &str) -> (r: SdkError)
    ensures
        r@ == ErrorView::Other(failure_text(step) + reason@),
{
    let what = match step {
        MemoryFailure::Embed => "Failed to generate embedding: ",
        MemoryFailure::EmbedBatch => "Failed to generate batch embeddings: ",
        MemoryFailure::EmbedQuery => "Failed to generate query embedding: ",
        MemoryFailure::Store => "Failed to store memory: ",
        MemoryFailure::StoreBatch => "Failed to store memories: ",
        MemoryFailure::Search => "Failed to search memories: ",
        MemoryFailure::Forget => "Failed to forget memory: ",
        MemoryFailure::Get => "Failed to get memory: ",
    };
    SdkError::Other(concat2(what, reason))
}

/// What the environment gives a memory.
#[derive(Clone, Copy, Debug)]
pub struct Backends {
    pub embedders_loaded: bool,
    pub default_embedder: bool,
    pub databases_loaded: bool,
    pub default_database: bool,
}

/// What the environment lacks for a memory, if anything.
pub open spec fn backend_fault(b: Backends) -> Option<ErrorView> {
    if !b.embedders_loaded {
        Some(
            bad_setting(
                "No embedder configured. Set OPENAI_API_KEY for embeddings."@,
                "OPENAI_API_KEY"@,
            ),
        )
    } else if !b.default_embedder {
        Some(
            ErrorView::Configuration {
                message: "No default embedder provider available"@,
                field: None,
            },
        )
    } else if !b.databases_loaded {
        Some(
            ErrorView::Configuration {
                message:
                    "No vector database configured. Set QDRANT_URL, PINECONE_API_KEY+PINECONE_HOST, or POSTGRES_URL."@,
                field: None,
            },
        )
    } else if !b.default_database {
        Some(
            ErrorView::Configuration {
                message: "No default vector database provider available"@,
                field: None,
            },
        )
    } else {
        None
    }
}

/// Checks that the environment gives what a memory needs.
pub fn check_backends(b: Backends) -> (r: Result<(), SdkError>)
    ensures
        match r {
            Ok(_) => backend_fault(b) is None,
            Err(e) => backend_fault(b) == Some(e@),
        },
{
    if !b.embedders_loaded {
        return Err(
            setting_error(
                "No embedder configured. Set OPENAI_API_KEY for embeddings.".to_owned(),
                "OPENAI_API_KEY",
            ),
        );
    }
    let message = if !b.default_embedder {
        "No default embedder provider available"
    } else if !b.databases_loaded {
        "No vector database configured. Set QDRANT_URL, PINECONE_API_KEY+PINECONE_HOST, or POSTGRES_URL."
    } else if !b.default_database {
        "No default vector database provider available"
    } else {
        return Ok(());
    };
    Err(SdkError::Configuration { message: message.to_owned(), field: None })
}

/// A scope goes by its name, and a collection by its scope's name and its id.
pub proof fn collections_go_by_scope_and_id(scope: MemoryScope, id: Seq<char>, i: int)
    ensures
        MemoryScope::User.name() == "user"@,
        MemoryScope::Tenant.name() == "tenant"@,
        MemoryScope::Agent.name() == "agent"@,
        MemoryScope::Session.name() == "session"@,
        MemoryScope::Global.name() == "global"@,
        scope.collection(id) == scope.name() + "_"@ + sanitized(id) + "_memories"@,
        sanitized(id).len() == id.len(),
        0 <= i < id.len() ==> (sanitized(id)[i] == id[i] || sanitized(id)[i] == '_'),
        0 <= i < id.len() && !is_ascii(id[i]) && alphanumeric(id[i]) ==> sanitized(id)[i] == id[i],
        0 <= i < id.len() && !is_ascii(id[i]) && !alphanumeric(id[i]) ==> sanitized(id)[i] == '_',
{
}

/// What is stored of a memory is its text, its source and everything else that is known of
/// it, and nothing of a chunk.
pub proof fn memories_are_stored_whole(
    content: Seq<char>,
    meta: MemoryView,
    now: Seq<char>,
    key: Seq<char>,
)
    ensures
        ({
            let stored = stored_metadata(content, meta, now);
            &&& stored.text == Some(content)
            &&& stored.source == meta.source
            &&& stored.chunk_index is None
            &&& meta.created_at is None ==> last_field(stored.extra, "created_at"@) == Some(
                JsonView::String(now),
            )
            &&& meta.created_at matches Some(t) ==> last_field(stored.extra, "created_at"@) == Some(
                JsonView::String(t),
            )
            &&& key != "created_at"@ ==> last_field(stored.extra, key) == last_field(
                meta.extra,
                key,
            )
        }),
{
    broadcast use crate::json::group_fields;

    let stored = stored_metadata(content, meta, now);
    assert(stored.extra.drop_last() =~= meta.extra);
}

/// What a search found comes back in its order, with its id, its score and the text that
/// was stored; what has no text is left out.
pub proof fn memories_are_recalled_in_order<F>(
    results: Seq<SearchResult<F>>,
    result: SearchResult<F>,
)
    ensures
        result.metadata is Some && result.metadata->0.text is Some ==> flattened(
            recalled_all(results.push(result)),
        ) == flattened(recalled_all(results)).push(
            (
                result.id@,
                result.metadata->0.text->0@,
                result.score,
                recalled_metadata(result.metadata->0@),
            ),
        ),
        result.metadata is None || result.metadata->0.text is None ==> flattened(
            recalled_all(results.push(result)),
        ) == flattened(recalled_all(results)),
{
    assert(recalled_all(results.push(result)).drop_last() =~= recalled_all(results));
}

/// There is an entry for each text that has a vector.
pub proof fn each_text_with_a_vector_is_entered(contents: nat, vectors: nat)
    ensures
        entry_count(contents, vectors) <= contents,
        entry_count(contents, vectors) <= vectors,
        entry_count(contents, vectors) == contents || entry_count(contents, vectors) == vectors,
        entry_count(contents, contents) == contents,
{
}

/// A memory needs an embedder and a database, each with a default; what is missing first
/// is told.
pub proof fn memories_need_both_backends(b: Backends)
    ensures
        backend_fault(b) is None <==> b.embedders_loaded && b.default_embedder && b.databases_loaded
            && b.default_database,
        !b.embedders_loaded ==> backend_fault(b) == Some(
            bad_setting(
                "No embedder configured. Set OPENAI_API_KEY for embeddings."@,
                "OPENAI_API_KEY"@,
            ),
        ),
        failure_text(MemoryFailure::Embed) == "Failed to generate embedding: "@,
        failure_text(MemoryFailure::EmbedBatch) == "Failed to generate batch embeddings: "@,
        failure_text(MemoryFailure::EmbedQuery) == "Failed to generate query embedding: "@,
        failure_text(MemoryFailure::Store) == "Failed to store memory: "@,
        failure_text(MemoryFailure::StoreBatch) == "Failed to store memories: "@,
        failure_text(MemoryFailure::Search) == "Failed to search memories: "@,
        failure_text(MemoryFailure::Forget) == "Failed to forget memory: "@,
        failure_text(MemoryFailure::Get) == "Failed to get memory: "@,
{
}

/// Each entry holds its own text, its own vector and its own id.
pub proof fn entries_hold_their_own<F>(
    r: NewEntries<F>,
    contents: Seq<String>,
    metadata: Seq<MemoryMetadata>,
    vectors: Seq<Vec<F>>,
    ids: Seq<Seq<char>>,
    now: Seq<char>,
    i: int,
)
    requires
        entries_under(r, contents, metadata, vectors, ids, now),
        0 <= i < r.entries@.len(),
    ensures
        r.entries@[i].id@ == ids[i],
        texts(r.ids@) == ids,
        r.entries@[i].vector == vectors[i],
        r.entries@[i].metadata@.text == Some(contents[i]@),
        r.entries@[i].metadata@.source == opt_text(metadata[i].source),
        contents.len() <= vectors.len() ==> r.entries@.len() == contents.len(),
{
}

} // verus!
