//! The Model Context Protocol: servers that offer tools, and how they are called.
pub mod client;
pub mod error;
pub mod framing;
pub mod transport;
pub mod types;
