use agnt5_sdk_core::json::Json;
use agnt5_sdk_core::llm::models::chat::{
    ChatChoice, ChatCompletion, ChatCompletionResponse, ChatMessage, ChatMessageContent,
};
use agnt5_sdk_core::llm::models::embeddings::{EmbeddingData, EmbeddingsResponse};
use agnt5_sdk_core::llm::models::usage::{EmbeddingUsage, Usage};
use agnt5_sdk_core::llm::vectordb::chunking::{window_graphemes, ChunkPacker, DocumentProcessor};
use agnt5_sdk_core::llm::vectordb::providers::pgvector::PgVectorProvider;
use agnt5_sdk_core::llm::vectordb::providers::qdrant::{
    qdrant_error, PayloadValue, PointId, QdrantDistance, QdrantProvider, QdrantRequest,
};
use agnt5_sdk_core::llm::vectordb::rag::{answer_of, RagConfig, RagPipeline};
use agnt5_sdk_core::llm::vectordb::types::{
    DistanceMetric, FilterCondition, SearchResult, VectorFilter, VectorMetadata,
};

fn texts(processor: &DocumentProcessor, text: &str) -> Vec<String> {
    processor.chunk_text(text, None).into_iter().map(|c| c.text).collect()
}

#[test]
fn small_documents_stay_whole() {
    let processor = DocumentProcessor::new();
    let chunks = processor.chunk_text("short", Some("file".to_string()));
    assert_eq!(chunks.len(), 1);
    assert_eq!(chunks[0].text, "short");
    assert_eq!(chunks[0].metadata.chunk_index, Some(0));
    assert_eq!(chunks[0].metadata.source.as_deref(), Some("file"));
    assert_eq!(processor.chunk_text("x", None)[0].metadata.source.as_deref(), Some("unknown"));
}

#[test]
fn documents_are_cut_at_the_best_separator() {
    let processor = DocumentProcessor::new().with_chunk_size(7).with_overlap(0);
    assert_eq!(texts(&processor, "aaa\n\nbb\n\nccc"), vec!["aaa\n\nbb", "ccc"]);
    assert_eq!(texts(&processor, "one two three"), vec!["one two", "three"]);
}

#[test]
fn cut_documents_are_whole_again_when_joined() {
    let processor = DocumentProcessor::new().with_chunk_size(12);
    let text = "alpha beta gamma delta epsilon";
    assert_eq!(texts(&processor, text).join(" "), text);
}

#[test]
fn leading_separators_are_lost() {
    let processor = DocumentProcessor::new().with_chunk_size(4);
    assert_eq!(texts(&processor, " abc de"), vec!["abc", "de"]);
}

#[test]
fn long_words_are_cut_between_characters() {
    let processor = DocumentProcessor::new().with_chunk_size(4).with_overlap(1);
    assert_eq!(texts(&processor, "abcdefg"), vec!["abcd", "defg", "g"]);
    let none = DocumentProcessor::new().with_chunk_size(4).with_overlap(0);
    assert_eq!(texts(&none, "abcdefg"), vec!["abcd", "efg"]);
    assert_eq!(texts(&none, "x abcdefg"), vec!["x", "abcd", "efg"]);
}

#[test]
fn characters_are_those_a_reader_sees() {
    let processor = DocumentProcessor::new().with_chunk_size(1).with_overlap(0);
    assert_eq!(texts(&processor, "e\u{301}🇷🇺a"), vec!["e\u{301}", "🇷🇺", "a"]);
    assert_eq!(processor.split_by_characters("e\u{301}x").concat(), "e\u{301}x");
}

#[test]
fn an_empty_separator_stands_between_characters() {
    let mut processor = DocumentProcessor::new().with_chunk_size(2);
    processor.separators = vec!["".to_string()];
    assert_eq!(texts(&processor, "abc"), vec!["ab", "c"]);
}

#[test]
fn separators_alone_are_cut_between_characters() {
    let processor = DocumentProcessor::new().with_chunk_size(1).with_overlap(0);
    assert_eq!(texts(&processor, "\n\n"), vec!["\n", "\n"]);
}

#[test]
fn windows_share_what_they_are_told_to() {
    let items: Vec<String> = ["a", "b", "c", "d", "e"].iter().map(|s| s.to_string()).collect();
    assert_eq!(window_graphemes(&items, 3, 1), vec!["abc", "cde", "e"]);
    assert_eq!(window_graphemes(&items, 2, 5), vec!["ab", "cd", "e"]);
    assert!(window_graphemes(&Vec::new(), 0, 0).is_empty());
}

#[test]
fn a_packer_leaves_large_parts_to_be_cut() {
    let mut packer = ChunkPacker::new();
    assert!(packer.add_part("ab", " ", 5));
    assert!(packer.add_part("cd", " ", 5));
    assert!(!packer.add_part("efghij", " ", 5));
    packer.add_chunks(vec!["efghi".to_string(), "j".to_string()]);
    assert!(packer.add_part("k", " ", 5));
    assert_eq!(packer.finish(), vec!["ab cd", "efghi", "j", "k"]);
}

fn pipeline() -> RagPipeline {
    RagPipeline::new("emb".to_string(), "openai".to_string(), "docs".to_string())
}

fn embedded(data: Vec<Vec<u8>>) -> EmbeddingsResponse<u8> {
    EmbeddingsResponse {
        object: None,
        data: data
            .into_iter()
            .map(|embedding| EmbeddingData { object: None, index: 0, embedding })
            .collect(),
        model: "emb".to_string(),
        usage: EmbeddingUsage { prompt_tokens: 1, total_tokens: 1 },
    }
}

fn found(text: Option<&str>) -> SearchResult<u8> {
    SearchResult {
        id: "1".to_string(),
        score: 1,
        distance: 0,
        vector: None,
        metadata: text.map(|t| VectorMetadata::new().with_text(t)),
    }
}

#[test]
fn questions_are_asked_with_what_was_found() {
    let pipeline = pipeline();
    let results = vec![found(Some("A")), found(None), found(Some("B"))];
    let asked = pipeline.ask("Why?", &results, "gpt-4o");
    assert_eq!(asked.context, "A\n\n---\n\nB");
    assert_eq!(asked.request.max_tokens, Some(2000));
    assert_eq!(asked.request.to_json().get("temperature").unwrap().to_text(), "0.7");
    match &asked.request.messages[0].content {
        Some(ChatMessageContent::String(prompt)) => assert_eq!(
            prompt,
            "Use the following context to answer the question. If you cannot answer based on the context, say so.\n\nContext:\nA\n\n---\n\nB\n\nQuestion: Why?\n\nAnswer:"
        ),
        other => panic!("expected a text, got {other:?}"),
    }
}

#[test]
fn documents_become_entries() {
    let pipeline = pipeline();
    let request = pipeline.embedding_request("hi");
    assert_eq!(request.to_json().to_text(), r#"{"input":"hi","model":"emb"}"#);
    let chunk = pipeline.document_processor.chunk_text("hi", None).remove(0);
    let entry = pipeline.chunk_entry(chunk, embedded(vec![vec![4]])).unwrap();
    assert_eq!(entry.vector, vec![4]);
    assert_eq!(entry.metadata.text.as_deref(), Some("hi"));
    let chunk = pipeline.document_processor.chunk_text("hi", None).remove(0);
    assert!(pipeline.chunk_entry(chunk, embedded(Vec::new())).is_none());
    let chunk = pipeline.document_processor.chunk_text("hi", None).remove(0);
    let named = pipeline.chunk_entry_with_id(chunk, embedded(vec![vec![4]]), "n".to_string());
    assert_eq!(named.unwrap().id, "n");
    let query = pipeline.question_query(embedded(vec![vec![4]]), 7).unwrap();
    assert_eq!(query.limit, 7);
    assert_eq!(
        pipeline.question_query(embedded(Vec::new()), 7).unwrap_err().message(),
        "Failed to generate question embedding"
    );
}

fn completion(content: Option<ChatMessageContent>) -> ChatCompletionResponse<()> {
    ChatCompletionResponse::NonStream(ChatCompletion {
        id: "i".to_string(),
        object: None,
        created: None,
        model: "m".to_string(),
        choices: vec![ChatChoice {
            index: 0,
            message: ChatMessage {
                role: "assistant".to_string(),
                content,
                name: None,
                tool_calls: None,
                tool_call_id: None,
                refusal: None,
            },
            finish_reason: None,
            logprobs: None,
        }],
        usage: Usage::default(),
        system_fingerprint: None,
    })
}

#[test]
fn answers_are_taken_from_replies() {
    let said = completion(Some(ChatMessageContent::String("Because.".to_string())));
    assert_eq!(answer_of(&said).unwrap(), "Because.");
    assert_eq!(answer_of(&completion(None)).unwrap(), "No response generated");
    assert_eq!(
        answer_of(&ChatCompletionResponse::Stream(())).unwrap_err().message(),
        "Streaming not supported in RAG pipeline yet"
    );
    let whole = pipeline().answer(&said, vec![found(None)], "ctx".to_string()).unwrap();
    assert_eq!(whole.answer, "Because.");
    assert_eq!(whole.context, "ctx");
    assert_eq!(whole.sources.len(), 1);
}

#[test]
fn questions_have_settings() {
    let config = RagConfig::new("e".into(), "p".into(), "m".into(), "c".into());
    assert_eq!(config.num_results, 5);
    assert_eq!(config.with_num_results(2).num_results, 2);
}

#[test]
fn what_qdrant_is_told_it_tells_again() {
    let metadata = VectorMetadata::new()
        .with_text("t")
        .with_source("s")
        .with_chunk_index(u32::MAX)
        .with_extra("lost", Json::Null);
    let payload = QdrantProvider::metadata_to_payload(&metadata);
    let back = QdrantProvider::payload_to_metadata(&payload);
    assert_eq!(back.text.as_deref(), Some("t"));
    assert_eq!(back.source.as_deref(), Some("s"));
    assert_eq!(back.chunk_index, Some(u32::MAX));
    assert!(back.extra.is_empty());
    let odd = vec![
        ("text".to_string(), PayloadValue::Int(1)),
        ("chunk_index".to_string(), PayloadValue::Int(-1)),
        ("source".to_string(), PayloadValue::Other),
    ];
    let back = QdrantProvider::payload_to_metadata(&odd);
    assert_eq!(back.text, None);
    assert_eq!(back.source, None);
    assert_eq!(back.chunk_index, Some(u32::MAX));
}

#[test]
fn only_equality_can_be_asked_of_qdrant() {
    let filter = VectorFilter::new()
        .must(FilterCondition::equals("a", Json::text("x")))
        .should(FilterCondition::equals("b", Json::parse("-3").unwrap()))
        .must_not(FilterCondition::equals("c", Json::Bool(true)));
    let converted = QdrantProvider::convert_filter(&filter).unwrap();
    assert_eq!(converted.must[0].keyword, "x");
    assert_eq!(converted.should[0].keyword, "-3");
    assert_eq!(converted.must_not[0].keyword, "true");
    let numbers = vec![
        FilterCondition::equals("d", Json::parse("1.5").unwrap()),
        FilterCondition::equals("e", Json::whole(7)),
    ];
    let converted = QdrantProvider::convert_conditions(&numbers).unwrap();
    assert_eq!(converted[0].keyword, "1.5");
    assert_eq!(converted[1].keyword, "7");
    let other = VectorFilter::new().must(FilterCondition::not_equals("a", Json::Null));
    assert_eq!(
        QdrantProvider::convert_filter(&other).unwrap_err().message(),
        "Only equals filter operations are currently supported"
    );
    let odd = VectorFilter::new().must(FilterCondition::equals("a", Json::Null));
    assert_eq!(
        QdrantProvider::convert_filter(&odd).unwrap_err().message(),
        "Unsupported filter value type"
    );
}

#[test]
fn points_become_entries() {
    let payload = vec![("text".to_string(), PayloadValue::Text("t".to_string()))];
    let entry = QdrantProvider::point_to_vector_entry(
        Some(PointId::Number(12)),
        Some(vec![1u8]),
        &payload,
    )
    .unwrap();
    assert_eq!(entry.id, "12");
    let named = PointId::Uuid("u".to_string());
    assert_eq!(
        QdrantProvider::point_to_vector_entry(Some(named), None::<Vec<u8>>, &payload)
            .unwrap_err()
            .message(),
        "Point missing vector data"
    );
    assert_eq!(
        QdrantProvider::point_to_vector_entry(None, Some(vec![1u8]), &payload)
            .unwrap_err()
            .message(),
        "Point missing ID"
    );
    let result = QdrantProvider::search_result(&None, 1u8, 0u8, &payload, true);
    assert_eq!(result.id, "unknown");
    assert_eq!(result.metadata.unwrap().text.as_deref(), Some("t"));
    assert!(QdrantProvider::search_result(&None, 1u8, 0u8, &payload, false).metadata.is_none());
    assert_eq!(
        QdrantProvider::distance_metric_to_qdrant(DistanceMetric::DotProduct),
        QdrantDistance::Dot
    );
    assert_eq!(QdrantProvider::collection_info("c").dimension, 1536);
    assert_eq!(
        qdrant_error(QdrantRequest::DeleteByFilter, "x").message(),
        "Failed to delete vectors by filter: x"
    );
}

#[test]
fn there_is_no_postgres_yet() {
    let message = PgVectorProvider::new("postgres://x").unwrap_err().message();
    assert!(message.contains("'tokio-postgres = \"0.7\"'"));
    let provider = PgVectorProvider { database_url: String::new() };
    assert_eq!(provider.provider_name(), "pgvector");
    assert!(provider.reply::<u8>().is_err());
}
