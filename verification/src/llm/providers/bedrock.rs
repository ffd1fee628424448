//! AWS Bedrock as a provider, which is not supported here.
use vstd::prelude::*;

use crate::error::{other_error, ErrorView, SdkError};
use crate::llm::provider::{ProviderConfig, ProviderType};

verus! {

/// AWS Bedrock as a provider.
#[derive(Debug)]
pub struct BedrockProvider {
    pub config: ProviderConfig,
}

/// What is said of every request.
pub open spec fn not_available() -> ErrorView {
    ErrorView::Other(
        "Bedrock provider requires AWS SDK dependencies (commented out in Cargo.toml). Uncomment aws-sdk-bedrockruntime and related dependencies, then upgrade to Rust 1.86+ to enable Bedrock support."@,
    )
}

impl BedrockProvider {
    pub fn new(config: &ProviderConfig) -> (r: Self)
        ensures
            r.config@ == config@,
    {
        BedrockProvider { config: config.duplicate() }
    }

    pub fn key(&self) -> (r: String)
        ensures
            r@ == self.config.key@,
    {
        self.config.key.clone()
    }

    pub fn provider_type(&self) -> (r: ProviderType)
        ensures
            r == ProviderType::Bedrock,
    {
        ProviderType::Bedrock
    }

    pub fn region(&self) -> (r: String)
        ensures
            r@ == self.config@.param_or("region"@, "us-east-1"@),
    {
        self.config.param_or("region", "us-east-1")
    }

    /// The reply to every request.
    pub fn reply<T>(&self) -> (r: Result<T, SdkError>)
        ensures
            r matches Err(e) && e@ == not_available(),
    {
        Err(
            other_error(
                "Bedrock provider requires AWS SDK dependencies (commented out in Cargo.toml). Uncomment aws-sdk-bedrockruntime and related dependencies, then upgrade to Rust 1.86+ to enable Bedrock support.",
            ),
        )
    }
}

} // verus!
