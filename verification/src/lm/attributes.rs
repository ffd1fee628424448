//! Names of the attributes of spans about calls of models.
use vstd::prelude::*;

verus! {

pub const OPERATION_NAME: &'static str = "gen_ai.operation.name";

pub const PROVIDER_NAME: &'static str = "gen_ai.provider.name";

pub const REQUEST_MODEL: &'static str = "gen_ai.request.model";

pub const RESPONSE_MODEL: &'static str = "gen_ai.response.model";

pub const REQUEST_TEMPERATURE: &'static str = "gen_ai.request.temperature";

pub const REQUEST_TOP_P: &'static str = "gen_ai.request.top_p";

pub const REQUEST_MAX_TOKENS: &'static str = "gen_ai.request.max_tokens";

pub const USAGE_INPUT_TOKENS: &'static str = "gen_ai.usage.input_tokens";

pub const USAGE_OUTPUT_TOKENS: &'static str = "gen_ai.usage.output_tokens";

pub const USAGE_CACHE_READ_TOKENS: &'static str = "gen_ai.usage.cache_read_input_tokens";

pub const USAGE_CACHE_CREATION_TOKENS: &'static str = "gen_ai.usage.cache_creation_input_tokens";

pub const USAGE_COST: &'static str = "gen_ai.usage.cost";

pub const USAGE_COST_CURRENCY: &'static str = "gen_ai.usage.cost.currency";

pub const RESPONSE_FINISH_REASONS: &'static str = "gen_ai.response.finish_reasons";

pub const INPUT_MESSAGES: &'static str = "gen_ai.input.messages";

pub const OUTPUT_MESSAGES: &'static str = "gen_ai.output.messages";

pub const SYSTEM_INSTRUCTIONS: &'static str = "gen_ai.system_instructions";

pub const REQUEST_DURATION_MS: &'static str = "gen_ai.request.duration_ms";

} // verus!
