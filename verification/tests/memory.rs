use agnt5_sdk_core::error::SdkError;
use agnt5_sdk_core::json::Json;
use agnt5_sdk_core::llm::vectordb::types::{
    DistanceMetric, SearchResult, VectorEntry, VectorMetadata,
};
use agnt5_sdk_core::memory::{
    build_metadata, check_backends, memory_error, memory_of_entry, memory_results, Backends,
    BatchStep, MemoryFailure, MemoryMetadata, MemoryScope, SemanticMemory, SemanticMemoryConfig,
};

#[test]
fn test_memory_scope_parsing() {
    assert_eq!(MemoryScope::from_str("user"), Some(MemoryScope::User));
    assert_eq!(MemoryScope::from_str("TENANT"), Some(MemoryScope::Tenant));
    assert_eq!(MemoryScope::from_str("Agent"), Some(MemoryScope::Agent));
    assert_eq!(MemoryScope::from_str("session"), Some(MemoryScope::Session));
    assert_eq!(MemoryScope::from_str("global"), Some(MemoryScope::Global));
    assert_eq!(MemoryScope::from_str("invalid"), None);
}

#[test]
fn test_collection_name_generation() {
    assert_eq!(MemoryScope::User.collection_name("user-123"), "user_user_123_memories");
    assert_eq!(MemoryScope::Tenant.collection_name("acme-corp"), "tenant_acme_corp_memories");
    assert_eq!(
        MemoryScope::Agent.collection_name("research_agent"),
        "agent_research_agent_memories"
    );
}

#[test]
fn letters_of_any_script_stay_in_names() {
    assert_eq!(MemoryScope::Global.collection_name("é€1"), "global_é_1_memories");
}

#[test]
fn test_memory_metadata_builder() {
    let metadata = MemoryMetadata::new()
        .with_source("conversation")
        .with_created_at("2024-01-01T00:00:00Z")
        .with_extra("priority", Json::text("high"));

    assert_eq!(metadata.source, Some("conversation".to_string()));
    assert_eq!(metadata.created_at, Some("2024-01-01T00:00:00Z".to_string()));
    assert!(metadata.extra.iter().any(|(key, _)| key == "priority"));
}

#[test]
fn memory_test_config_builder() {
    let config = SemanticMemoryConfig::new(MemoryScope::User, "user-123")
        .with_distance_metric(DistanceMetric::Euclidean)
        .with_auto_create(false);

    assert_eq!(config.scope, MemoryScope::User);
    assert_eq!(config.scope_id, "user-123");
    assert_eq!(config.distance_metric, DistanceMetric::Euclidean);
    assert!(!config.auto_create_collection);
}

#[test]
fn names_of_scopes_lead_back() {
    for scope in [
        MemoryScope::User,
        MemoryScope::Tenant,
        MemoryScope::Agent,
        MemoryScope::Session,
        MemoryScope::Global,
    ] {
        assert_eq!(MemoryScope::from_str(scope.as_str()), Some(scope));
    }
}

fn memory() -> SemanticMemory {
    SemanticMemory::new(SemanticMemoryConfig::new(MemoryScope::User, "u1"), 3)
}

#[test]
fn the_collection_is_seen_to_once() {
    let mut memory = memory();
    let collection = memory.ensure_collection().unwrap();
    assert_eq!(collection.name, "user_u1_memories");
    assert_eq!(collection.dimension, 3);
    assert_eq!(collection.description.as_deref(), Some("Semantic memory for user u1"));
    assert!(memory.ensure_collection().is_none());
    let quiet = SemanticMemoryConfig::new(MemoryScope::User, "u1").with_auto_create(false);
    assert!(SemanticMemory::new(quiet, 3).ensure_collection().is_none());
}

#[test]
fn batches_have_metadata_for_each_text() {
    let memory = memory();
    assert!(matches!(memory.check_batch(0, 0), Ok(BatchStep::Nothing)));
    assert!(matches!(memory.check_batch(2, 2), Ok(BatchStep::Embed)));
    assert_eq!(
        memory.check_batch(2, 1).unwrap_err().message(),
        "Contents and metadata arrays must have the same length"
    );
}

#[test]
fn what_is_stored_is_recalled() {
    let memory = memory();
    let contents = vec!["dark mode".to_string(), "tea".to_string()];
    let metadata = vec![
        MemoryMetadata::new().with_source("chat").with_created_at("then"),
        MemoryMetadata::new().with_extra("k", Json::whole(1)),
    ];
    let made = memory.build_entries(&contents, &metadata, vec![vec![1u8], vec![2u8]], "now");
    assert_eq!(made.entries.len(), 2);
    assert_ne!(made.ids[0], made.ids[1]);
    assert_eq!(made.entries[0].id, made.ids[0]);
    assert_eq!(made.entries[0].id.len(), 36);

    let mut results: Vec<SearchResult<u8>> = Vec::new();
    for entry in made.entries {
        results.push(SearchResult {
            id: entry.id,
            score: entry.vector[0],
            distance: 0,
            vector: None,
            metadata: Some(entry.metadata),
        });
    }
    results.push(SearchResult { id: "x".into(), score: 9, distance: 0, vector: None, metadata: None });
    let found = memory_results(results);
    assert_eq!(found.len(), 2);
    assert_eq!(found[0].content, "dark mode");
    assert_eq!(found[0].metadata.source.as_deref(), Some("chat"));
    assert_eq!(found[0].metadata.created_at.as_deref(), Some("then"));
    assert_eq!(found[1].metadata.created_at.as_deref(), Some("now"));
    assert_eq!(found[1].score, 2);
}

#[test]
fn the_clock_dates_what_is_stored() {
    let memory = memory();
    let made = memory.build_entries_now(
        &vec!["a".to_string()],
        &vec![MemoryMetadata::new()],
        vec![vec![0u8]],
    );
    let (key, value) = made.entries[0].metadata.extra.last().unwrap();
    assert_eq!(key, "created_at");
    assert!(value.as_str().unwrap().starts_with("20"));
}

#[test]
fn entries_stand_under_their_ids() {
    let made = memory().build_entries_with_ids(
        &vec!["a".to_string(), "b".to_string()],
        &vec![MemoryMetadata::new(), MemoryMetadata::new()],
        vec![vec![0u8], vec![1u8]],
        vec!["one".to_string(), "two".to_string()],
        "now",
    );
    assert_eq!(made.entries[0].id, "one");
    assert_eq!(made.entries[1].id, "two");
    assert_eq!(made.ids, vec!["one", "two"]);
}

#[test]
fn fewer_vectors_than_texts_store_fewer() {
    let made = memory().build_entries(
        &vec!["a".to_string(), "b".to_string()],
        &vec![MemoryMetadata::new(), MemoryMetadata::new()],
        vec![vec![0u8]],
        "now",
    );
    assert_eq!(made.entries.len(), 1);
}

#[test]
fn an_entry_without_a_text_is_no_memory() {
    let with_text = VectorEntry {
        id: "1".to_string(),
        vector: vec![0u8],
        metadata: build_metadata("hi", &MemoryMetadata::new(), "now"),
    };
    assert_eq!(memory_of_entry(Some(with_text), 1u8).unwrap().content, "hi");
    let without =
        VectorEntry { id: "1".to_string(), vector: vec![0u8], metadata: VectorMetadata::new() };
    assert!(memory_of_entry(Some(without), 1u8).is_none());
    assert!(memory_of_entry(None::<VectorEntry<u8>>, 1u8).is_none());
}

#[test]
fn searches_ask_for_metadata() {
    let query = memory().search_query(vec![1u8], 5, None);
    assert_eq!(query.limit, 5);
    assert!(query.include_metadata);
    assert!(!query.include_vectors);
    assert_eq!(query.distance_metric, Some(DistanceMetric::Cosine));
}

#[test]
fn failures_of_a_memory_name_the_step() {
    let cases = [
        (MemoryFailure::Embed, "Failed to generate embedding: x"),
        (MemoryFailure::EmbedBatch, "Failed to generate batch embeddings: x"),
        (MemoryFailure::EmbedQuery, "Failed to generate query embedding: x"),
        (MemoryFailure::Store, "Failed to store memory: x"),
        (MemoryFailure::StoreBatch, "Failed to store memories: x"),
        (MemoryFailure::Search, "Failed to search memories: x"),
        (MemoryFailure::Forget, "Failed to forget memory: x"),
        (MemoryFailure::Get, "Failed to get memory: x"),
    ];
    for (step, text) in cases {
        assert_eq!(memory_error(step, "x").message(), text);
    }
}

#[test]
fn a_memory_needs_an_embedder_and_a_database() {
    let all = Backends {
        embedders_loaded: true,
        default_embedder: true,
        databases_loaded: true,
        default_database: true,
    };
    assert!(check_backends(all).is_ok());
    match check_backends(Backends { embedders_loaded: false, ..all }) {
        Err(SdkError::Configuration { field, .. }) => {
            assert_eq!(field.as_deref(), Some("OPENAI_API_KEY"));
        }
        other => panic!("expected a configuration error, got {other:?}"),
    }
    assert!(check_backends(Backends { default_embedder: false, ..all }).is_err());
    assert!(check_backends(Backends { databases_loaded: false, ..all }).is_err());
    assert!(check_backends(Backends { default_database: false, ..all }).is_err());
}

#[test]
fn collections_of_scopes_are_kept_apart() {
    let user = MemoryScope::User.collection_name("a_b");
    assert_eq!(user, "user_a_b_memories");
    assert_ne!(user, MemoryScope::User.collection_name("a_c"));
    assert_ne!(user, MemoryScope::Tenant.collection_name("a_b"));
    assert_eq!(user, MemoryScope::User.collection_name("a b"));
    assert_ne!(MemoryScope::User.collection_name("a b"), MemoryScope::Agent.collection_name("a_b"));
}
