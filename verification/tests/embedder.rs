use agnt5_sdk_core::lm::embedder::{
    embedding_error, order_embeddings, single_embedding, EmbedderRegistry, EmbeddingData,
    OpenAiEmbedder, OpenAiEmbedderConfig, OpenAiEmbeddingModel, OpenAiError, OpenAiErrorResponse,
};

#[test]
fn test_embedding_model_dimensions() {
    assert_eq!(OpenAiEmbeddingModel::TextEmbedding3Small.dimension(), 1536);
    assert_eq!(OpenAiEmbeddingModel::TextEmbedding3Large.dimension(), 3072);
    assert_eq!(OpenAiEmbeddingModel::TextEmbeddingAda002.dimension(), 1536);
}

#[test]
fn test_embedding_model_from_str() {
    assert_eq!(
        OpenAiEmbeddingModel::from_str("text-embedding-3-small"),
        Some(OpenAiEmbeddingModel::TextEmbedding3Small)
    );
    assert_eq!(
        OpenAiEmbeddingModel::from_str("text-embedding-3-large"),
        Some(OpenAiEmbeddingModel::TextEmbedding3Large)
    );
    assert_eq!(OpenAiEmbeddingModel::from_str("unknown-model"), None);
}

#[test]
fn names_of_models_lead_back() {
    for model in [
        OpenAiEmbeddingModel::TextEmbedding3Small,
        OpenAiEmbeddingModel::TextEmbedding3Large,
        OpenAiEmbeddingModel::TextEmbeddingAda002,
    ] {
        assert_eq!(OpenAiEmbeddingModel::from_str(model.as_str()), Some(model));
    }
}

#[test]
fn embedder_test_config_builder() {
    let config = OpenAiEmbedderConfig::new("test-key")
        .with_model(OpenAiEmbeddingModel::TextEmbedding3Large)
        .with_organization("test-org");

    assert_eq!(config.api_key, "test-key");
    assert_eq!(config.model, OpenAiEmbeddingModel::TextEmbedding3Large);
    assert_eq!(config.organization, Some("test-org".to_string()));
}

#[test]
fn test_registry() {
    let registry = EmbedderRegistry::<u32>::new();
    assert!(registry.list_providers().is_empty());
    assert!(registry.get_default_provider().is_none());
}

#[test]
fn the_first_embedder_is_the_default() {
    let mut registry = EmbedderRegistry::<u32>::new();
    assert!(registry.load_from_environment(None).is_err());
    registry.load_from_environment(Some(7)).unwrap();
    assert_eq!(registry.get_default_provider(), Some(&7));
    registry.register_provider("other", 8);
    registry.set_default_provider("other").unwrap();
    assert_eq!(registry.get_default_provider(), Some(&8));
    assert!(registry.set_default_provider("none").is_err());
}

#[test]
fn vectors_come_in_the_order_of_their_texts() {
    let data = vec![
        EmbeddingData { embedding: 'c', index: 2 },
        EmbeddingData { embedding: 'a', index: 0 },
        EmbeddingData { embedding: 'b', index: 1 },
    ];
    assert_eq!(order_embeddings(data), vec!['a', 'b', 'c']);
    let ties = vec![
        EmbeddingData { embedding: 'x', index: 0 },
        EmbeddingData { embedding: 'y', index: 0 },
    ];
    assert_eq!(order_embeddings(ties), vec!['x', 'y']);
}

#[test]
fn one_text_has_one_vector() {
    assert_eq!(single_embedding(vec![4u8, 5]).unwrap(), 4);
    assert!(single_embedding(Vec::<u8>::new()).is_err());
}

#[test]
fn a_key_that_no_header_can_carry_is_refused() {
    let good = OpenAiEmbedder::new(OpenAiEmbedderConfig::new("test-key"));
    let headers = good.build_request_headers().unwrap();
    assert!(headers.iter().any(|(_, value)| value == "Bearer test-key"));
    let bad = OpenAiEmbedder::new(OpenAiEmbedderConfig::new("two\nlines"));
    assert!(bad.build_request_headers().is_err());
}

#[test]
fn requests_name_the_model_and_the_texts() {
    let embedder = OpenAiEmbedder::new(OpenAiEmbedderConfig::new("k"));
    let body = embedder.build_request_body(&vec!["a".to_string()]);
    assert_eq!(body.get_str("model"), Some("text-embedding-3-small"));
    assert!(embedder.endpoint().ends_with("/embeddings"));
}

#[test]
fn refusals_tell_status_and_body() {
    let message = embedding_error("401 Unauthorized", "nope", None).message();
    assert_eq!(message, "OpenAI API error (401 Unauthorized): nope");
    let told = OpenAiErrorResponse {
        error: OpenAiError {
            message: "no".to_string(),
            kind: Some("a\"b".to_string()),
            code: None,
        },
    };
    let message = embedding_error("401 Unauthorized", "{}", Some(told)).message();
    assert_eq!(message, "OpenAI API error: no (type: Some(\"a\\\"b\"), code: None)");
}
