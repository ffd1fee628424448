//! What Qdrant is told and what it tells.
//!
//! `F` is the type of the components of vectors; nothing here computes with them.
use vstd::prelude::*;
use vstd::string::*;

use crate::error::{other_error, ErrorView, SdkError};
use crate::json::{Json, JsonNumber, JsonView, NumberView};
use crate::llm::models::streaming::copy_text;
use crate::llm::vectordb::types::{
    CollectionInfo, DistanceMetric, FilterCondition, FilterOperation, MetadataView, SearchResult,
    VectorEntry, VectorFilter, VectorMetadata,
};
use crate::text::{concat2, decimal, decimal_text, opt_text, str_eq};

verus! {

/// Qdrant at a place.
#[derive(Debug)]
pub struct QdrantProvider {
    pub url: String,
}

/// How far apart vectors are, in Qdrant's terms.
#[derive(Clone, Copy, Debug, PartialEq, Eq, Structural)]
pub enum QdrantDistance {
    Cosine,
    Euclid,
    Dot,
    Manhattan,
}

/// A value of a payload. `Other` is any value that is neither a text nor a whole
/// number.
#[derive(Debug)]
pub enum PayloadValue {
    Text(String),
    Int(i64),
    Other,
}

/// What a `PayloadValue` stands for.
pub enum PayloadView {
    Text(Seq<char>),
    Int(i64),
    Other,
}

impl View for PayloadValue {
    type V = PayloadView;

    open spec fn view(&self) -> PayloadView {
        match self {
            PayloadValue::Text(s) => PayloadView::Text(s@),
            PayloadValue::Int(n) => PayloadView::Int(*n),
            PayloadValue::Other => PayloadView::Other,
        }
    }
}

/// What a payload says.
pub open spec fn payload_views(payload: Seq<(String, PayloadValue)>) -> Seq<
    (Seq<char>, PayloadView),
> {
    Seq::new(payload.len(), |i: int| (payload[i].0@, payload[i].1@))
}

/// The value under a name.
pub open spec fn payload_value(payload: Seq<(Seq<char>, PayloadView)>, name: Seq<char>) -> Option<
    PayloadView,
>
    decreases payload.len(),
{
    if payload.len() == 0 {
        None
    } else if payload.last().0 == name {
        Some(payload.last().1)
    } else {
        payload_value(payload.drop_last(), name)
    }
}

/// The text under a name.
pub open spec fn payload_text(payload: Seq<(Seq<char>, PayloadView)>, name: Seq<char>) -> Option<
    Seq<char>,
> {
    match payload_value(payload, name) {
        Some(PayloadView::Text(s)) => Some(s),
        _ => None,
    }
}

/// The whole number under a name.
pub open spec fn payload_int(payload: Seq<(Seq<char>, PayloadView)>, name: Seq<char>) -> Option<
    i64,
> {
    match payload_value(payload, name) {
        Some(PayloadView::Int(n)) => Some(n),
        _ => None,
    }
}

/// One entry if there is a text for it, nothing otherwise.
pub open spec fn text_entry(name: Seq<char>, value: Option<Seq<char>>) -> Seq<
    (Seq<char>, PayloadView),
> {
    match value {
        Some(s) => seq![(name, PayloadView::Text(s))],
        None => Seq::empty(),
    }
}

/// One entry if there is a count for it, nothing otherwise.
pub open spec fn count_entry(name: Seq<char>, value: Option<u32>) -> Seq<(Seq<char>, PayloadView)> {
    match value {
        Some(n) => seq![(name, PayloadView::Int(n as i64))],
        None => Seq::empty(),
    }
}

/// What Qdrant is told of a vector: its text, its source and its place, and nothing
/// else.
pub open spec fn payload_for(metadata: MetadataView) -> Seq<(Seq<char>, PayloadView)> {
    text_entry("text"@, metadata.text) + text_entry("source"@, metadata.source) + count_entry(
        "chunk_index"@,
        metadata.chunk_index,
    )
}

/// What is known of a vector from what Qdrant tells.
pub open spec fn metadata_from(payload: Seq<(Seq<char>, PayloadView)>) -> MetadataView {
    MetadataView {
        text: payload_text(payload, "text"@),
        source: payload_text(payload, "source"@),
        chunk_index: match payload_int(payload, "chunk_index"@) {
            Some(n) => Some(n as u32),
            None => None,
        },
        extra: Seq::empty(),
    }
}

/// What Qdrant was told of a vector, it tells again: its text, its source and its
/// place.
pub proof fn payloads_read_back(metadata: MetadataView)
    ensures
        metadata_from(payload_for(metadata)) == (MetadataView { extra: Seq::empty(), ..metadata }),
{
    reveal_strlit("text");
    reveal_strlit("source");
    reveal_strlit("chunk_index");
    reveal_with_fuel(payload_value, 4);
    let payload = payload_for(metadata);
    let first = text_entry("text"@, metadata.text);
    let second = text_entry("source"@, metadata.source);
    let third = count_entry("chunk_index"@, metadata.chunk_index);
    assert((first + second) + third == payload);
    assert("text"@.len() == 4 && "source"@.len() == 6 && "chunk_index"@.len() == 11);
    if third.len() > 0 {
        assert(payload.drop_last() =~= first + second);
        assert(payload.last() == third[0]);
    } else {
        assert(payload =~= first + second);
    }
    let two = first + second;
    if second.len() > 0 {
        assert(two.drop_last() =~= first);
        assert(two.last() == second[0]);
    } else {
        assert(two =~= first);
    }
    if first.len() > 0 {
        assert(first.drop_last() =~= Seq::empty());
        assert(first.last() == first[0]);
    }
    if let Some(n) = metadata.chunk_index {
        assert(((n as i64) as u32) == n);
    }
}

/// A condition that a field holds a keyword.
#[derive(Debug)]
pub struct KeywordCondition {
    pub field: String,
    pub keyword: String,
}

/// Conditions in Qdrant's terms.
#[derive(Debug)]
pub struct QdrantFilter {
    pub must: Vec<KeywordCondition>,
    pub should: Vec<KeywordCondition>,
    pub must_not: Vec<KeywordCondition>,
}

/// What conditions say.
pub open spec fn condition_views(list: Seq<KeywordCondition>) -> Seq<(Seq<char>, Seq<char>)> {
    Seq::new(list.len(), |i: int| (list[i].field@, list[i].keyword@))
}

/// The decimal notation of a number.
pub open spec fn number_text(n: NumberView) -> Seq<char> {
    match n {
        NumberView::Unsigned(n) => decimal(n as nat),
        NumberView::Negative(n) => if n < 0 {
            "-"@ + decimal((-n) as nat)
        } else {
            decimal(n as nat)
        },
        NumberView::Decimal(s) => s,
    }
}

fn text_of_number(n: &JsonNumber) -> (r: String)
    ensures
        r@ == number_text(n@),
{
    match n {
        JsonNumber::Unsigned(n) => decimal_text(*n),
        JsonNumber::Negative(n) => if *n < 0 {
            let size: u64 = (-(*n as i128)) as u64;
            let digits = decimal_text(size);
            concat2("-", digits.as_str())
        } else {
            decimal_text(*n as u64)
        },
        JsonNumber::Decimal(s) => s.clone(),
    }
}

/// A value as a keyword.
pub open spec fn keyword(value: JsonView) -> Option<Seq<char>> {
    match value {
        JsonView::String(s) => Some(s),
        JsonView::Number(n) => Some(number_text(n)),
        JsonView::Bool(b) => Some(
            if b {
                "true"@
            } else {
                "false"@
            },
        ),
        _ => None,
    }
}

/// A condition in Qdrant's terms, or why it has none: only whether a field equals a
/// text, a number or a truth value can be asked.
pub open spec fn converted(condition: FilterCondition) -> Result<(Seq<char>, Seq<char>), ErrorView> {
    if condition.operation == FilterOperation::Equals {
        match keyword(condition.value@) {
            Some(k) => Ok((condition.field@, k)),
            None => Err(ErrorView::Other("Unsupported filter value type"@)),
        }
    } else {
        Err(ErrorView::Other("Only equals filter operations are currently supported"@))
    }
}

/// Conditions in Qdrant's terms, or what is wrong with the first that has none.
pub open spec fn converted_all(conditions: Seq<FilterCondition>) -> Result<
    Seq<(Seq<char>, Seq<char>)>,
    ErrorView,
>
    decreases conditions.len(),
{
    if conditions.len() == 0 {
        Ok(Seq::empty())
    } else {
        match converted_all(conditions.drop_last()) {
            Ok(before) => match converted(conditions.last()) {
                Ok(c) => Ok(before.push(c)),
                Err(e) => Err(e),
            },
            Err(e) => Err(e),
        }
    }
}

/// What is wrong among the first conditions is what is wrong.
proof fn first_fault_counts(conditions: Seq<FilterCondition>, k: int)
    requires
        0 <= k <= conditions.len(),
        converted_all(conditions.subrange(0, k)) is Err,
    ensures
        converted_all(conditions) == converted_all(conditions.subrange(0, k)),
    decreases conditions.len(),
{
    if k == conditions.len() {
        assert(conditions.subrange(0, k) =~= conditions);
    } else {
        let less = conditions.drop_last();
        assert(less.subrange(0, k) =~= conditions.subrange(0, k));
        first_fault_counts(less, k);
    }
}

fn keyword_of(value: &Json) -> (r: Option<String>)
    ensures
        opt_text(r) == keyword(value@),
{
    match value {
        Json::String(s) => Some(s.clone()),
        Json::Number(n) => Some(text_of_number(n)),
        Json::Bool(b) => if *b {
            Some("true".to_owned())
        } else {
            Some("false".to_owned())
        },
        _ => None,
    }
}

/// What Qdrant says of the id of a point.
#[derive(Debug)]
pub enum PointId {
    Uuid(String),
    Number(u64),
}

impl QdrantProvider {
    pub fn provider_name(&self) -> (r: &'static str)
        ensures
            r@ == "qdrant"@,
    {
        "qdrant"
    }

    /// A metric in Qdrant's terms.
    pub fn distance_metric_to_qdrant(metric: DistanceMetric) -> (r: QdrantDistance)
        ensures
            r == (match metric {
                DistanceMetric::Cosine => QdrantDistance::Cosine,
                DistanceMetric::Euclidean => QdrantDistance::Euclid,
                DistanceMetric::DotProduct => QdrantDistance::Dot,
                DistanceMetric::Manhattan => QdrantDistance::Manhattan,
            }),
    {
        match metric {
            DistanceMetric::Cosine => QdrantDistance::Cosine,
            DistanceMetric::Euclidean => QdrantDistance::Euclid,
            DistanceMetric::DotProduct => QdrantDistance::Dot,
            DistanceMetric::Manhattan => QdrantDistance::Manhattan,
        }
    }

    /// What Qdrant is told of a vector.
    pub fn metadata_to_payload(metadata: &VectorMetadata) -> (r: Vec<(String, PayloadValue)>)
        ensures
            payload_views(r@) == payload_for(metadata@),
    {
        let mut payload: Vec<(String, PayloadValue)> = Vec::new();
        if let Some(text) = &metadata.text {
            payload.push(("text".to_owned(), PayloadValue::Text(text.clone())));
        }
        assert(payload_views(payload@) =~= text_entry("text"@, metadata@.text));
        if let Some(source) = &metadata.source {
            payload.push(("source".to_owned(), PayloadValue::Text(source.clone())));
        }
        assert(payload_views(payload@) =~= text_entry("text"@, metadata@.text) + text_entry(
            "source"@,
            metadata@.source,
        ));
        if let Some(index) = metadata.chunk_index {
            payload.push(("chunk_index".to_owned(), PayloadValue::Int(index as i64)));
        }
        assert(payload_views(payload@) =~= payload_for(metadata@));
        payload
    }

    fn find<'a>(payload: &'a Vec<(String, PayloadValue)>, name: &str) -> (r: Option<
        &'a PayloadValue,
    >)
        ensures
            match r {
                Some(v) => payload_value(payload_views(payload@), name@) == Some(v@),
                None => payload_value(payload_views(payload@), name@) is None,
            },
    {
        let ghost all = payload_views(payload@);
        let mut i: usize = payload.len();
        assert(all.subrange(0, all.len() as int) =~= all);
        while i > 0
            invariant
                i <= payload@.len(),
                all == payload_views(payload@),
                payload_value(all, name@) == payload_value(all.subrange(0, i as int), name@),
            decreases i,
        {
            let ghost part = all.subrange(0, i as int);
            proof {
                assert(part.last() == all[i - 1]);
                assert(part.drop_last() =~= all.subrange(0, i - 1));
            }
            i = i - 1;
            if str_eq(payload[i].0.as_str(), name) {
                return Some(&payload[i].1);
            }
        }
        None
    }

    fn find_text(payload: &Vec<(String, PayloadValue)>, name: &str) -> (r: Option<String>)
        ensures
            opt_text(r) == payload_text(payload_views(payload@), name@),
    {
        match QdrantProvider::find(payload, name) {
            Some(PayloadValue::Text(s)) => Some(s.clone()),
            _ => None,
        }
    }

    /// What is known of a vector from what Qdrant tells.
    pub fn payload_to_metadata(payload: &Vec<(String, PayloadValue)>) -> (r: VectorMetadata)
        ensures
            r@ == metadata_from(payload_views(payload@)),
    {
        let mut metadata = VectorMetadata::new();
        metadata.text = QdrantProvider::find_text(payload, "text");
        metadata.source = QdrantProvider::find_text(payload, "source");
        metadata.chunk_index = match QdrantProvider::find(payload, "chunk_index") {
            Some(PayloadValue::Int(n)) => Some(
                #[verifier::truncate]
                (*n as u32),
            ),
            _ => None,
        };
        metadata
    }

    /// Conditions in Qdrant's terms.
    pub fn convert_conditions(conditions: &Vec<FilterCondition>) -> (r: Result<
        Vec<KeywordCondition>,
        SdkError,
    >)
        ensures
            match r {
                Ok(list) => converted_all(conditions@) == Ok::<
                    Seq<(Seq<char>, Seq<char>)>,
                    ErrorView,
                >(condition_views(list@)),
                Err(e) => converted_all(conditions@) == Err::<
                    Seq<(Seq<char>, Seq<char>)>,
                    ErrorView,
                >(e@),
            },
    {
        let mut out: Vec<KeywordCondition> = Vec::new();
        let mut i: usize = 0;
        proof {
            assert(conditions@.subrange(0, 0) =~= Seq::empty());
            assert(condition_views(out@) =~= Seq::empty());
        }
        while i < conditions.len()
            invariant
                i <= conditions@.len(),
                converted_all(conditions@.subrange(0, i as int)) == Ok::<
                    Seq<(Seq<char>, Seq<char>)>,
                    ErrorView,
                >(condition_views(out@)),
            decreases conditions@.len() - i,
        {
            let condition = &conditions[i];
            let ghost before = condition_views(out@);
            let ghost part = conditions@.subrange(0, i + 1);
            proof {
                assert(part.drop_last() =~= conditions@.subrange(0, i as int));
                assert(part.last() == *condition);
            }
            if condition.operation != FilterOperation::Equals {
                proof {
                    first_fault_counts(conditions@, i + 1);
                }
                return Err(other_error("Only equals filter operations are currently supported"));
            }
            match keyword_of(&condition.value) {
                Some(keyword) => {
                    let c = KeywordCondition { field: condition.field.clone(), keyword };
                    out.push(c);
                    assert(condition_views(out@) =~= before.push((c.field@, c.keyword@)));
                },
                None => {
                    proof {
                        first_fault_counts(conditions@, i + 1);
                    }
                    return Err(other_error("Unsupported filter value type"));
                },
            }
            i = i + 1;
        }
        assert(conditions@.subrange(0, conditions@.len() as int) =~= conditions@);
        Ok(out)
    }

    /// A filter in Qdrant's terms; what must hold is looked at first, then what
    /// should, then what must not.
    pub fn convert_filter(filter: &VectorFilter) -> (r: Result<QdrantFilter, SdkError>)
        ensures
            match (
                converted_all(filter.must@),
                converted_all(filter.should@),
                converted_all(filter.must_not@),
            ) {
                (Ok(must), Ok(should), Ok(must_not)) => {
                    &&& r matches Ok(f)
                    &&& condition_views(f.must@) == must
                    &&& condition_views(f.should@) == should
                    &&& condition_views(f.must_not@) == must_not
                },
                (Err(e), _, _) => r matches Err(x) && x@ == e,
                (Ok(_), Err(e), _) => r matches Err(x) && x@ == e,
                (Ok(_), Ok(_), Err(e)) => r matches Err(x) && x@ == e,
            },
    {
        let must = match QdrantProvider::convert_conditions(&filter.must) {
            Ok(list) => list,
            Err(e) => return Err(e),
        };
        let should = match QdrantProvider::convert_conditions(&filter.should) {
            Ok(list) => list,
            Err(e) => return Err(e),
        };
        let must_not = match QdrantProvider::convert_conditions(&filter.must_not) {
            Ok(list) => list,
            Err(e) => return Err(e),
        };
        Ok(QdrantFilter { must, should, must_not })
    }

    /// The entry that a point is: its id and its vector must be there.
    pub fn point_to_vector_entry<F>(
        id: Option<PointId>,
        vector: Option<Vec<F>>,
        payload: &Vec<(String, PayloadValue)>,
    ) -> (r: Result<VectorEntry<F>, SdkError>)
        ensures
            match (id, vector) {
                (Some(id), Some(vector)) => {
                    &&& r matches Ok(entry)
                    &&& entry.id@ == (match id {
                        PointId::Uuid(uuid) => uuid@,
                        PointId::Number(n) => decimal(n as nat),
                    })
                    &&& entry.vector == vector
                    &&& entry.metadata@ == metadata_from(payload_views(payload@))
                },
                (None, _) => r matches Err(e) && e@ == ErrorView::Other("Point missing ID"@),
                (Some(_), None) => r matches Err(e) && e@ == ErrorView::Other(
                    "Point missing vector data"@,
                ),
            },
    {
        let id = match id {
            Some(PointId::Uuid(uuid)) => uuid,
            Some(PointId::Number(n)) => decimal_text(n),
            None => return Err(other_error("Point missing ID")),
        };
        match vector {
            Some(vector) => Ok(
                VectorEntry { id, vector, metadata: QdrantProvider::payload_to_metadata(payload) },
            ),
            None => Err(other_error("Point missing vector data")),
        }
    }

    /// The result that a point is that a search found. `distance` is what is missing
    /// from the score to one.
    pub fn search_result<F>(
        id: &Option<String>,
        score: F,
        distance: F,
        payload: &Vec<(String, PayloadValue)>,
        include_metadata: bool,
    ) -> (r: SearchResult<F>)
        ensures
            r.id@ == (match *id {
                Some(id) => id@,
                None => "unknown"@,
            }),
            r.score == score,
            r.distance == distance,
            r.vector is None,
            match r.metadata {
                Some(metadata) => include_metadata && metadata@ == metadata_from(
                    payload_views(payload@),
                ),
                None => !include_metadata,
            },
    {
        let own_id = match copy_text(id) {
            Some(id) => id,
            None => "unknown".to_owned(),
        };
        let metadata = if include_metadata {
            Some(QdrantProvider::payload_to_metadata(payload))
        } else {
            None
        };
        SearchResult { id: own_id, score, distance, vector: None, metadata }
    }

    /// What is told of a collection; only its name is looked at.
    pub fn collection_info(collection_name: &str) -> (r: CollectionInfo)
        ensures
            r.name@ == collection_name@,
            r.vector_count == 0,
            r.indexed_vector_count == 0,
            r.points_count == 0,
            r.segments_count == 0,
            r.status@ == "ok"@,
            r.dimension == 1536,
            r.distance_metric == DistanceMetric::Cosine,
    {
        CollectionInfo {
            name: collection_name.to_owned(),
            vector_count: 0,
            indexed_vector_count: 0,
            points_count: 0,
            segments_count: 0,
            status: "ok".to_owned(),
            dimension: 1536,
            distance_metric: DistanceMetric::Cosine,
        }
    }
}

/// The requests that Qdrant may fail.
#[derive(Clone, Copy, Debug, PartialEq, Eq, Structural)]
pub enum QdrantRequest {
    Connect,
    Health,
    Create,
    Remove,
    List,
    Upsert,
    Search,
    DeleteVectors,
    DeleteByFilter,
    Get,
}

/// What is said when a request fails.
pub open spec fn request_fault(request: QdrantRequest) -> Seq<char> {
    match request {
        QdrantRequest::Connect => "Failed to create Qdrant client: "@,
        QdrantRequest::Health => "Qdrant health check failed: "@,
        QdrantRequest::Create => "Failed to create collection: "@,
        QdrantRequest::Remove => "Failed to delete collection: "@,
        QdrantRequest::List => "Failed to list collections: "@,
        QdrantRequest::Upsert => "Failed to upsert vectors: "@,
        QdrantRequest::Search => "Failed to search vectors: "@,
        QdrantRequest::DeleteVectors => "Failed to delete vectors: "@,
        QdrantRequest::DeleteByFilter => "Failed to delete vectors by filter: "@,
        QdrantRequest::Get => "Failed to get vector: "@,
    }
}

/// The error when a request fails.
pub fn qdrant_error(request: QdrantRequest, reason: &str) -> (r: SdkError)
    ensures
        r@ == ErrorView::Other(request_fault(request) + reason@),
{
    let what = match request {
        QdrantRequest::Connect => "Failed to create Qdrant client: ",
        QdrantRequest::Health => "Qdrant health check failed: ",
        QdrantRequest::Create => "Failed to create collection: ",
        QdrantRequest::Remove => "Failed to delete collection: ",
        QdrantRequest::List => "Failed to list collections: ",
        QdrantRequest::Upsert => "Failed to upsert vectors: ",
        QdrantRequest::Search => "Failed to search vectors: ",
        QdrantRequest::DeleteVectors => "Failed to delete vectors: ",
        QdrantRequest::DeleteByFilter => "Failed to delete vectors by filter: ",
        QdrantRequest::Get => "Failed to get vector: ",
    };
    SdkError::Other(concat2(what, reason))
}

/// Qdrant is told the text, the source and the place of a vector under their names.
pub proof fn payloads_tell_text_source_and_place(metadata: MetadataView)
    ensures
        ({
            let payload = payload_for(metadata);
            &&& metadata.text is Some ==> payload_value(payload, "text"@) == Some(
                PayloadView::Text(metadata.text->0),
            )
            &&& metadata.text is None ==> payload_value(payload, "text"@) is None
            &&& metadata.source is Some ==> payload_value(payload, "source"@) == Some(
                PayloadView::Text(metadata.source->0),
            )
            &&& metadata.source is None ==> payload_value(payload, "source"@) is None
            &&& metadata.chunk_index is Some ==> payload_value(payload, "chunk_index"@) == Some(
                PayloadView::Int(metadata.chunk_index->0 as i64),
            )
            &&& metadata.chunk_index is None ==> payload_value(payload, "chunk_index"@) is None
        }),
{
    reveal_strlit("text");
    reveal_strlit("source");
    reveal_strlit("chunk_index");
    assert("text"@.len() == 4
        && "source"@.len() == 6
        && "chunk_index"@.len() == 11);
    reveal_with_fuel(payload_value, 4);
    let a = text_entry("text"@, metadata.text);
    let b = text_entry("source"@, metadata.source);
    let c = count_entry("chunk_index"@, metadata.chunk_index);
    let payload = payload_for(metadata);
    if metadata.chunk_index is Some {
        assert(payload.drop_last() =~= a + b);
    } else {
        assert(payload =~= a + b);
    }
    if metadata.source is Some {
        assert((a + b).drop_last() =~= a);
    } else {
        assert(a + b =~= a);
    }
    if metadata.text is Some {
        assert(a.drop_last() =~= Seq::empty());
    }
}

/// Only whether a field equals a text, a number or a truth value can be asked: the field
/// and the value are told as they are.
pub proof fn only_equality_is_asked(condition: FilterCondition, b: bool, n: u64, s: Seq<char>)
    ensures
        condition.operation != FilterOperation::Equals ==> converted(condition) == Err::<
            (Seq<char>, Seq<char>),
            ErrorView,
        >(ErrorView::Other("Only equals filter operations are currently supported"@)),
        condition.operation == FilterOperation::Equals && keyword(condition.value@) is Some
            ==> converted(condition) == Ok::<(Seq<char>, Seq<char>), ErrorView>(
            (condition.field@, keyword(condition.value@)->0),
        ),
        condition.operation == FilterOperation::Equals && keyword(condition.value@) is None
            ==> converted(condition) == Err::<(Seq<char>, Seq<char>), ErrorView>(
            ErrorView::Other("Unsupported filter value type"@),
        ),
        keyword(JsonView::String(s)) == Some(s),
        keyword(JsonView::Bool(true)) == Some("true"@),
        keyword(JsonView::Bool(false)) == Some("false"@),
        keyword(JsonView::Number(NumberView::Unsigned(n))) == Some(decimal(n as nat)),
        keyword(JsonView::Number(NumberView::Decimal(s))) == Some(s),
        keyword(JsonView::Null) is None,
{
}

/// Conditions are told in their order, and the first that cannot be told is the fault.
pub proof fn conditions_are_told_in_order(
    conditions: Seq<FilterCondition>,
    condition: FilterCondition,
)
    ensures
        converted_all(conditions) is Err ==> converted_all(conditions.push(condition))
            == converted_all(conditions),
        converted_all(conditions) is Ok && converted(condition) is Ok ==> converted_all(
            conditions.push(condition),
        ) == Ok::<Seq<(Seq<char>, Seq<char>)>, ErrorView>(
            converted_all(conditions)->Ok_0.push(converted(condition)->Ok_0),
        ),
        converted_all(conditions) is Ok && converted(condition) is Err ==> converted_all(
            conditions.push(condition),
        ) == Err::<Seq<(Seq<char>, Seq<char>)>, ErrorView>(converted(condition)->Err_0),
{
    assert(conditions.push(condition).drop_last() =~= conditions);
}

/// What fails is told by what was asked.
pub proof fn failed_requests_are_told()
    ensures
        request_fault(QdrantRequest::Connect) == "Failed to create Qdrant client: "@,
        request_fault(QdrantRequest::Health) == "Qdrant health check failed: "@,
        request_fault(QdrantRequest::Create) == "Failed to create collection: "@,
        request_fault(QdrantRequest::Remove) == "Failed to delete collection: "@,
        request_fault(QdrantRequest::List) == "Failed to list collections: "@,
        request_fault(QdrantRequest::Upsert) == "Failed to upsert vectors: "@,
        request_fault(QdrantRequest::Search) == "Failed to search vectors: "@,
        request_fault(QdrantRequest::DeleteVectors) == "Failed to delete vectors: "@,
        request_fault(QdrantRequest::DeleteByFilter) == "Failed to delete vectors by filter: "@,
        request_fault(QdrantRequest::Get) == "Failed to get vector: "@,
{
}

} // verus!
