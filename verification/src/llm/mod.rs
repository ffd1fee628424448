//! Models by the name of their provider, and the databases of their vectors.
pub mod models;
pub mod provider;
pub mod providers;
pub mod registry;
pub mod telemetry;
pub mod vectordb;
