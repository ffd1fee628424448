//! Providers of models, one by one.
pub mod anthropic;
pub mod azure;
pub mod bedrock;
pub mod call;
pub mod openai;
pub mod openrouter;
pub mod vertexai;
