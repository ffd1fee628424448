//! PostgreSQL with the pgvector extension, which is not supported yet.
use vstd::prelude::*;

use crate::error::{other_error, ErrorView, SdkError};

verus! {

/// PostgreSQL with the pgvector extension.
#[derive(Debug)]
pub struct PgVectorProvider {
    pub database_url: String,
}

/// What is said of every request.
pub open spec fn not_available() -> ErrorView {
    ErrorView::Other(
        "PgVector provider requires PostgreSQL implementation. See constructor error for setup instructions."@,
    )
}

impl PgVectorProvider {
    /// There is no such provider yet, whatever the database.
    pub fn new(database_url: &str) -> (r: Result<Self, SdkError>)
        ensures
            r matches Err(e) && e@ == ErrorView::Other(
                "PgVector provider requires PostgreSQL dependencies (tokio-postgres, sqlx). Add 'tokio-postgres = \"0.7\"' and 'pgvector' crate to Cargo.toml, then implement connection pool and pgvector extension support."@,
            ),
    {
        Err(
            other_error(
                "PgVector provider requires PostgreSQL dependencies (tokio-postgres, sqlx). Add 'tokio-postgres = \"0.7\"' and 'pgvector' crate to Cargo.toml, then implement connection pool and pgvector extension support.",
            ),
        )
    }

    pub fn provider_name(&self) -> (r: &'static str)
        ensures
            r@ == "pgvector"@,
    {
        "pgvector"
    }

    /// The reply to every request.
    pub fn reply<T>(&self) -> (r: Result<T, SdkError>)
        ensures
            r matches Err(e) && e@ == not_available(),
    {
        Err(
            other_error(
                "PgVector provider requires PostgreSQL implementation. See constructor error for setup instructions.",
            ),
        )
    }
}

} // verus!
