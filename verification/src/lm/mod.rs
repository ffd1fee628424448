//! Requests to language models and their replies.
pub mod anthropic;
pub mod anthropic_blocks;
pub mod anthropic_stream;
pub mod attributes;
pub mod azure;
pub mod bedrock;
pub mod bedrock_response;
pub mod bedrock_signing;
pub mod bedrock_stream;
pub mod deepseek;
pub mod embedder;
pub mod event_stream;
pub mod formats;
pub mod google;
pub mod google_response;
pub mod groq;
pub mod http;
pub mod huggingface;
pub mod interface;
pub mod lepton;
pub mod mistral;
pub mod models;
pub mod moonshot;
pub mod ollama;
pub mod openai;
pub mod openai_chat;
pub mod openai_common;
pub mod openai_responses;
pub mod openai_responses_stream;
pub mod openai_stream;
pub mod openrouter;
pub mod pricing;
pub mod sampling;
pub mod settings;
pub mod sse;
pub mod telemetry;
pub mod text_block;
pub mod xai;
