//! What is stored in a vector database and asked of it.
//!
//! `F` is the type of the components of vectors; nothing here computes with them.
use vstd::prelude::*;

use crate::json::{field_views, json_views, put, Json, JsonView};
use crate::text::opt_text;

verus! {

/// A vector with what is known of it.
#[derive(Debug)]
pub struct VectorEntry<F> {
    pub id: String,
    pub vector: Vec<F>,
    pub metadata: VectorMetadata,
}

/// What is known of a vector.
#[derive(Clone, Debug)]
pub struct VectorMetadata {
    /// The text that the vector stands for.
    pub text: Option<String>,
    pub source: Option<String>,
    /// The place of the text among the chunks of its source.
    pub chunk_index: Option<u32>,
    /// Anything else; of two values with one name the later counts.
    pub extra: Vec<(String, Json)>,
}

/// What a `VectorMetadata` says.
pub struct MetadataView {
    pub text: Option<Seq<char>>,
    pub source: Option<Seq<char>>,
    pub chunk_index: Option<u32>,
    pub extra: Seq<(Seq<char>, JsonView)>,
}

impl View for VectorMetadata {
    type V = MetadataView;

    open spec fn view(&self) -> MetadataView {
        MetadataView {
            text: opt_text(self.text),
            source: opt_text(self.source),
            chunk_index: self.chunk_index,
            extra: field_views(self.extra@),
        }
    }
}

/// Nothing is known.
pub open spec fn no_metadata() -> MetadataView {
    MetadataView { text: None, source: None, chunk_index: None, extra: Seq::empty() }
}

impl Default for VectorMetadata {
    fn default() -> (r: Self)
        ensures
            r@ == no_metadata(),
    {
        VectorMetadata::new()
    }
}

impl VectorMetadata {
    pub fn new() -> (r: Self)
        ensures
            r@ == no_metadata(),
    {
        let r = VectorMetadata { text: None, source: None, chunk_index: None, extra: Vec::new() };
        assert(field_views(r.extra@) =~= Seq::empty());
        r
    }

    pub fn with_text(self, text: &str) -> (r: Self)
        ensures
            r@ == (MetadataView { text: Some(text@), ..self@ }),
    {
        VectorMetadata { text: Some(text.to_owned()), ..self }
    }

    pub fn with_source(self, source: &str) -> (r: Self)
        ensures
            r@ == (MetadataView { source: Some(source@), ..self@ }),
    {
        VectorMetadata { source: Some(source.to_owned()), ..self }
    }

    pub fn with_chunk_index(self, index: u32) -> (r: Self)
        ensures
            r@ == (MetadataView { chunk_index: Some(index), ..self@ }),
    {
        VectorMetadata { chunk_index: Some(index), ..self }
    }

    pub fn with_extra(self, key: &str, value: Json) -> (r: Self)
        ensures
            r@ == (MetadataView { extra: self@.extra.push((key@, value@)), ..self@ }),
    {
        let mut r = self;
        put(&mut r.extra, key, value);
        r
    }
}

/// A search for vectors like another.
#[derive(Debug)]
pub struct SearchQuery<F> {
    pub vector: Vec<F>,
    /// How many results there are at most.
    pub limit: u32,
    /// How like the other a result is at least.
    pub min_score: Option<F>,
    pub filter: Option<VectorFilter>,
    pub distance_metric: Option<DistanceMetric>,
    pub include_vectors: bool,
    pub include_metadata: bool,
}

impl<F> SearchQuery<F> {
    pub fn new(vector: Vec<F>) -> (r: Self)
        ensures
            r == (SearchQuery {
                vector,
                limit: 10,
                min_score: None,
                filter: None,
                distance_metric: None,
                include_vectors: false,
                include_metadata: true,
            }),
    {
        SearchQuery {
            vector,
            limit: 10,
            min_score: None,
            filter: None,
            distance_metric: None,
            include_vectors: false,
            include_metadata: true,
        }
    }

    pub fn with_limit(self, limit: u32) -> (r: Self)
        ensures
            r == (SearchQuery { limit, ..self }),
    {
        SearchQuery { limit, ..self }
    }

    pub fn with_min_score(self, score: F) -> (r: Self)
        ensures
            r == (SearchQuery { min_score: Some(score), ..self }),
    {
        SearchQuery {
            vector: self.vector,
            limit: self.limit,
            min_score: Some(score),
            filter: self.filter,
            distance_metric: self.distance_metric,
            include_vectors: self.include_vectors,
            include_metadata: self.include_metadata,
        }
    }

    pub fn with_filter(self, filter: VectorFilter) -> (r: Self)
        ensures
            r == (SearchQuery { filter: Some(filter), ..self }),
    {
        SearchQuery { filter: Some(filter), ..self }
    }

    pub fn include_vectors(self) -> (r: Self)
        ensures
            r == (SearchQuery { include_vectors: true, ..self }),
    {
        SearchQuery { include_vectors: true, ..self }
    }

    pub fn include_metadata(self) -> (r: Self)
        ensures
            r == (SearchQuery { include_metadata: true, ..self }),
    {
        SearchQuery { include_metadata: true, ..self }
    }
}

/// A vector that a search found.
#[derive(Debug)]
pub struct SearchResult<F> {
    pub id: String,
    pub score: F,
    pub distance: F,
    pub vector: Option<Vec<F>>,
    pub metadata: Option<VectorMetadata>,
}

/// Conditions on what is known of vectors.
#[derive(Clone, Debug)]
pub struct VectorFilter {
    pub must: Vec<FilterCondition>,
    pub should: Vec<FilterCondition>,
    pub must_not: Vec<FilterCondition>,
}

impl Default for VectorFilter {
    fn default() -> (r: Self)
        ensures
            r.must@.len() == 0,
            r.should@.len() == 0,
            r.must_not@.len() == 0,
    {
        VectorFilter::new()
    }
}

impl VectorFilter {
    pub fn new() -> (r: Self)
        ensures
            r.must@.len() == 0,
            r.should@.len() == 0,
            r.must_not@.len() == 0,
    {
        VectorFilter { must: Vec::new(), should: Vec::new(), must_not: Vec::new() }
    }

    pub fn must(self, condition: FilterCondition) -> (r: Self)
        ensures
            r == (VectorFilter { must: r.must, ..self }),
            r.must@ == self.must@.push(condition),
    {
        let mut r = self;
        r.must.push(condition);
        r
    }

    pub fn should(self, condition: FilterCondition) -> (r: Self)
        ensures
            r == (VectorFilter { should: r.should, ..self }),
            r.should@ == self.should@.push(condition),
    {
        let mut r = self;
        r.should.push(condition);
        r
    }

    pub fn must_not(self, condition: FilterCondition) -> (r: Self)
        ensures
            r == (VectorFilter { must_not: r.must_not, ..self }),
            r.must_not@ == self.must_not@.push(condition),
    {
        let mut r = self;
        r.must_not.push(condition);
        r
    }
}

/// A condition on a field.
#[derive(Clone, Debug)]
pub struct FilterCondition {
    pub field: String,
    pub operation: FilterOperation,
    pub value: Json,
}

/// How a field is held against a value.
#[derive(Clone, Copy, Debug, PartialEq, Eq, Structural)]
pub enum FilterOperation {
    Equals,
    NotEquals,
    Contains,
    In,
    NotIn,
    GreaterThan,
    LessThan,
    GreaterThanOrEqual,
    LessThanOrEqual,
}

impl FilterCondition {
    pub fn equals(field: &str, value: Json) -> (r: Self)
        ensures
            r.field@ == field@,
            r.operation == FilterOperation::Equals,
            r.value == value,
    {
        FilterCondition { field: field.to_owned(), operation: FilterOperation::Equals, value }
    }

    pub fn not_equals(field: &str, value: Json) -> (r: Self)
        ensures
            r.field@ == field@,
            r.operation == FilterOperation::NotEquals,
            r.value == value,
    {
        FilterCondition { field: field.to_owned(), operation: FilterOperation::NotEquals, value }
    }

    pub fn contains(field: &str, value: Json) -> (r: Self)
        ensures
            r.field@ == field@,
            r.operation == FilterOperation::Contains,
            r.value == value,
    {
        FilterCondition { field: field.to_owned(), operation: FilterOperation::Contains, value }
    }

    pub fn in_list(field: &str, values: Vec<Json>) -> (r: Self)
        ensures
            r.field@ == field@,
            r.operation == FilterOperation::In,
            r.value@ == JsonView::Array(json_views(values@)),
    {
        FilterCondition {
            field: field.to_owned(),
            operation: FilterOperation::In,
            value: Json::array(values),
        }
    }
}

/// How far apart vectors are.
#[derive(Clone, Copy, Debug, PartialEq, Eq, Structural)]
pub enum DistanceMetric {
    Cosine,
    Euclidean,
    DotProduct,
    Manhattan,
}

impl Default for DistanceMetric {
    fn default() -> (r: Self)
        ensures
            r == DistanceMetric::Cosine,
    {
        DistanceMetric::Cosine
    }
}

impl DistanceMetric {
    /// The name of the metric.
    pub fn as_str(&self) -> (r: &'static str)
        ensures
            r@ == (match self {
                DistanceMetric::Cosine => "cosine"@,
                DistanceMetric::Euclidean => "euclidean"@,
                DistanceMetric::DotProduct => "dot_product"@,
                DistanceMetric::Manhattan => "manhattan"@,
            }),
    {
        match self {
            DistanceMetric::Cosine => "cosine",
            DistanceMetric::Euclidean => "euclidean",
            DistanceMetric::DotProduct => "dot_product",
            DistanceMetric::Manhattan => "manhattan",
        }
    }
}

/// A collection of vectors.
#[derive(Clone, Debug)]
pub struct Collection {
    pub name: String,
    pub dimension: u32,
    pub distance_metric: DistanceMetric,
    pub description: Option<String>,
    pub config: Vec<(String, Json)>,
}

impl Collection {
    pub fn new(name: &str, dimension: u32) -> (r: Self)
        ensures
            r.name@ == name@,
            r.dimension == dimension,
            r.distance_metric == DistanceMetric::Cosine,
            r.description is None,
            r.config@.len() == 0,
    {
        Collection {
            name: name.to_owned(),
            dimension,
            distance_metric: DistanceMetric::Cosine,
            description: None,
            config: Vec::new(),
        }
    }

    pub fn with_distance_metric(self, metric: DistanceMetric) -> (r: Self)
        ensures
            r == (Collection { distance_metric: metric, ..self }),
    {
        Collection { distance_metric: metric, ..self }
    }

    pub fn with_description(self, description: &str) -> (r: Self)
        ensures
            r == (Collection { description: r.description, ..self }),
            opt_text(r.description) == Some(description@),
    {
        Collection { description: Some(description.to_owned()), ..self }
    }

    pub fn with_config(self, key: &str, value: Json) -> (r: Self)
        ensures
            r == (Collection { config: r.config, ..self }),
            field_views(r.config@) == field_views(self.config@).push((key@, value@)),
    {
        let mut r = self;
        put(&mut r.config, key, value);
        r
    }
}

/// What is known of a collection.
#[derive(Clone, Debug)]
pub struct CollectionInfo {
    pub name: String,
    pub vector_count: u64,
    pub indexed_vector_count: u64,
    pub points_count: u64,
    pub segments_count: u64,
    pub status: String,
    pub dimension: u32,
    pub distance_metric: DistanceMetric,
}

/// Changes to a collection.
#[derive(Debug)]
pub struct BatchOperation<F> {
    pub collection_name: String,
    pub operations: Vec<VectorOperation<F>>,
}

/// A change to a collection.
#[derive(Debug)]
pub enum VectorOperation<F> {
    Upsert(VectorEntry<F>),
    Delete(String),
}

impl<F> BatchOperation<F> {
    pub fn new(collection_name: &str) -> (r: Self)
        ensures
            r.collection_name@ == collection_name@,
            r.operations@.len() == 0,
    {
        BatchOperation { collection_name: collection_name.to_owned(), operations: Vec::new() }
    }

    pub fn upsert(self, entry: VectorEntry<F>) -> (r: Self)
        ensures
            r.collection_name == self.collection_name,
            r.operations@ == self.operations@.push(VectorOperation::Upsert(entry)),
    {
        let mut r = self;
        r.operations.push(VectorOperation::Upsert(entry));
        r
    }

    pub fn delete(self, id: String) -> (r: Self)
        ensures
            r.collection_name == self.collection_name,
            r.operations@ == self.operations@.push(VectorOperation::Delete(id)),
    {
        let mut r = self;
        r.operations.push(VectorOperation::Delete(id));
        r
    }
}

/// What is known of a vector is what it was given, and nothing at first.
pub proof fn metadata_say_what_they_hold(metadata: VectorMetadata)
    ensures
        metadata@.text == opt_text(metadata.text),
        metadata@.source == opt_text(metadata.source),
        metadata@.chunk_index == metadata.chunk_index,
        metadata@.extra == field_views(metadata.extra@),
        no_metadata().text is None && no_metadata().source is None
            && no_metadata().chunk_index is None && no_metadata().extra.len() == 0,
{
}

} // verus!
