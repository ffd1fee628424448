//! Core of a client library for language models.
//!
//! Every module holds plain data and pure decisions: what a request looks like on
//! the wire, what a reply means, what to do next. Sockets, clocks and processes
//! belong to the program around it.
pub mod clock;
pub mod duration;
pub mod error;
pub mod headers;
pub mod ids;
pub mod json;
pub mod llm;
pub mod lm;
pub mod logging;
pub mod mcp;
pub mod memory;
pub mod registry;
pub mod seqs;
pub mod slots;
pub mod text;
