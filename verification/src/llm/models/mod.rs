//! Requests and replies, whatever the provider.
pub mod chat;
pub mod completion;
pub mod embeddings;
pub mod streaming;
pub mod tools;
pub mod usage;
