//! Vector databases, one by one.
pub mod pgvector;
pub mod qdrant;
