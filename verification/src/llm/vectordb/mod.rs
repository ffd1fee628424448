//! Vector databases, and generation from what is found in them.
pub mod chunking;
pub mod providers;
pub mod rag;
pub mod types;
