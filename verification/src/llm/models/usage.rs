//! How many tokens a call took.
use vstd::prelude::*;

verus! {

/// How many tokens a call took.
#[derive(Clone, Copy, Debug, PartialEq, Eq, Structural)]
pub struct Usage {
    pub prompt_tokens: u32,
    pub completion_tokens: u32,
    pub total_tokens: u32,
    pub completion_tokens_details: Option<CompletionTokensDetails>,
    pub prompt_tokens_details: Option<PromptTokensDetails>,
}

/// What the tokens of a reply went into.
#[derive(Clone, Copy, Debug, PartialEq, Eq, Structural)]
pub struct CompletionTokensDetails {
    pub reasoning_tokens: Option<u32>,
}

/// Where the tokens of a prompt came from.
#[derive(Clone, Copy, Debug, PartialEq, Eq, Structural)]
pub struct PromptTokensDetails {
    pub cached_tokens: Option<u32>,
}

/// How many tokens the embedding of texts took.
#[derive(Clone, Copy, Debug, PartialEq, Eq, Structural)]
pub struct EmbeddingUsage {
    pub prompt_tokens: u32,
    pub total_tokens: u32,
}

/// No tokens at all.
pub open spec fn no_usage() -> Usage {
    Usage {
        prompt_tokens: 0,
        completion_tokens: 0,
        total_tokens: 0,
        completion_tokens_details: None,
        prompt_tokens_details: None,
    }
}

impl Default for Usage {
    fn default() -> (r: Self)
        ensures
            r == no_usage(),
    {
        Usage {
            prompt_tokens: 0,
            completion_tokens: 0,
            total_tokens: 0,
            completion_tokens_details: None,
            prompt_tokens_details: None,
        }
    }
}

impl Usage {
    /// The usage of a prompt and a reply, which together is their sum.
    pub fn new(prompt_tokens: u32, completion_tokens: u32) -> (r: Self)
        requires
            prompt_tokens + completion_tokens <= u32::MAX,
        ensures
            r == (Usage {
                prompt_tokens,
                completion_tokens,
                total_tokens: (prompt_tokens + completion_tokens) as u32,
                completion_tokens_details: None,
                prompt_tokens_details: None,
            }),
    {
        Usage {
            prompt_tokens,
            completion_tokens,
            total_tokens: prompt_tokens + completion_tokens,
            completion_tokens_details: None,
            prompt_tokens_details: None,
        }
    }
}

/// What a call took, or nothing where it is not known.
pub fn usage_or_none(usage: &Option<Usage>) -> (r: Usage)
    ensures
        r == (match *usage {
            Some(u) => u,
            None => no_usage(),
        }),
{
    match usage {
        Some(u) => *u,
        None => Usage::default(),
    }
}

/// Where nothing is known, nothing was used.
pub proof fn nothing_is_used_unless_known()
    ensures
        no_usage().prompt_tokens == 0,
        no_usage().completion_tokens == 0,
        no_usage().total_tokens == 0,
        no_usage().completion_tokens_details is None,
        no_usage().prompt_tokens_details is None,
{
}

} // verus!
