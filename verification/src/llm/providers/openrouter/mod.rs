//! OpenRouter as a provider.
pub mod provider;
pub mod types;
