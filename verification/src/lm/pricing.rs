//! What calls of models cost.
use vstd::prelude::*;
use vstd::string::*;

use super::interface::{GenerateResponse, TokenUsage};
use crate::text::{
    begins_with, concat2, contains, contains_text, lowered, starts_with, str_eq, to_lowercase,
};

verus! {

/// The price of a model, in thousandths of a US dollar for a million tokens.
#[derive(Clone, Copy, Debug, PartialEq, Eq, Structural)]
pub struct ModelPricing {
    pub input_per_1m: u32,
    pub output_per_1m: u32,
}

/// A price.
pub open spec fn price(input_per_1m: u32, output_per_1m: u32) -> Option<ModelPricing> {
    Some(ModelPricing { input_per_1m, output_per_1m })
}

fn priced(input_per_1m: u32, output_per_1m: u32) -> (r: Option<ModelPricing>)
    ensures
        r == price(input_per_1m, output_per_1m),
{
    Some(ModelPricing { input_per_1m, output_per_1m })
}

/// The prices of OpenAI's models, by their names in lower case.
pub open spec fn openai_price(m: Seq<char>) -> Option<ModelPricing> {
    if contains_text(m, "gpt-4o"@) && !contains_text(m, "mini"@) {
        price(2500, 10000)
    } else if contains_text(m, "gpt-4o-mini"@) {
        price(150, 600)
    } else if contains_text(m, "gpt-4-turbo"@) || m == "gpt-4-1106-preview"@ || m == "gpt-4-0125-preview"@ {
        price(10000, 30000)
    } else if begins_with(m, "gpt-4"@) && !contains_text(m, "turbo"@) && !contains_text(m, "o"@) {
        price(30000, 60000)
    } else if contains_text(m, "gpt-3.5-turbo"@) {
        price(500, 1500)
    } else if contains_text(m, "o1-preview"@) {
        price(15000, 60000)
    } else if contains_text(m, "o1-mini"@) {
        price(3000, 12000)
    } else if m == "o1"@ {
        price(15000, 60000)
    } else if contains_text(m, "o3-mini"@) {
        price(1100, 4400)
    } else if m == "o3"@ {
        price(10000, 40000)
    } else {
        None
    }
}

fn openai_pricing(m: &str) -> (r: Option<ModelPricing>)
    ensures
        r == openai_price(m@),
{
    if contains(m, "gpt-4o") && !contains(m, "mini") {
        priced(2500, 10000)
    } else if contains(m, "gpt-4o-mini") {
        priced(150, 600)
    } else if contains(m, "gpt-4-turbo") || str_eq(m, "gpt-4-1106-preview") || str_eq(m, "gpt-4-0125-preview") {
        priced(10000, 30000)
    } else if starts_with(m, "gpt-4") && !contains(m, "turbo") && !contains(m, "o") {
        priced(30000, 60000)
    } else if contains(m, "gpt-3.5-turbo") {
        priced(500, 1500)
    } else if contains(m, "o1-preview") {
        priced(15000, 60000)
    } else if contains(m, "o1-mini") {
        priced(3000, 12000)
    } else if str_eq(m, "o1") {
        priced(15000, 60000)
    } else if contains(m, "o3-mini") {
        priced(1100, 4400)
    } else if str_eq(m, "o3") {
        priced(10000, 40000)
    } else {
        None
    }
}

/// The prices of Anthropic's models, by their names in lower case. `family` is the
/// word that their names begin with.
pub open spec fn anthropic_price(m: Seq<char>, family: Seq<char>) -> Option<ModelPricing> {
    if contains_text(m, family + "-opus-4"@) || contains_text(m, family + "-4-opus"@) {
        price(15000, 75000)
    } else if contains_text(m, family + "-sonnet-4"@) || contains_text(m, family + "-4-sonnet"@) {
        price(3000, 15000)
    } else if contains_text(m, family + "-3-5-sonnet"@) {
        price(3000, 15000)
    } else if contains_text(m, family + "-3-5-haiku"@) {
        price(800, 4000)
    } else if contains_text(m, family + "-3-opus"@) {
        price(15000, 75000)
    } else if contains_text(m, family + "-3-sonnet"@) && !contains_text(m, "3-5"@) {
        price(3000, 15000)
    } else if contains_text(m, family + "-3-haiku"@) && !contains_text(m, "3-5"@) {
        price(250, 1250)
    } else {
        None
    }
}

fn is_named(m: &str, family: &str, rest: &str) -> (r: bool)
    ensures
        r == contains_text(m@, family@ + rest@),
{
    contains(m, concat2(family, rest).as_str())
}

fn anthropic_pricing(m: &str, family: &str) -> (r: Option<ModelPricing>)
    ensures
        r == anthropic_price(m@, family@),
{
    if is_named(m, family, "-opus-4") || is_named(m, family, "-4-opus") {
        priced(15000, 75000)
    } else if is_named(m, family, "-sonnet-4") || is_named(m, family, "-4-sonnet") {
        priced(3000, 15000)
    } else if is_named(m, family, "-3-5-sonnet") {
        priced(3000, 15000)
    } else if is_named(m, family, "-3-5-haiku") {
        priced(800, 4000)
    } else if is_named(m, family, "-3-opus") {
        priced(15000, 75000)
    } else if is_named(m, family, "-3-sonnet") && !contains(m, "3-5") {
        priced(3000, 15000)
    } else if is_named(m, family, "-3-haiku") && !contains(m, "3-5") {
        priced(250, 1250)
    } else {
        None
    }
}

/// The prices of Google's models, by their names in lower case.
pub open spec fn google_price(m: Seq<char>) -> Option<ModelPricing> {
    if contains_text(m, "gemini-2.0-flash"@) {
        price(100, 400)
    } else if contains_text(m, "gemini-1.5-pro"@) {
        price(1250, 5000)
    } else if contains_text(m, "gemini-1.5-flash"@) {
        price(75, 300)
    } else if contains_text(m, "gemini-1.0-pro"@) || contains_text(m, "gemini-pro"@) {
        price(500, 1500)
    } else {
        None
    }
}

fn google_pricing(m: &str) -> (r: Option<ModelPricing>)
    ensures
        r == google_price(m@),
{
    if contains(m, "gemini-2.0-flash") {
        priced(100, 400)
    } else if contains(m, "gemini-1.5-pro") {
        priced(1250, 5000)
    } else if contains(m, "gemini-1.5-flash") {
        priced(75, 300)
    } else if contains(m, "gemini-1.0-pro") || contains(m, "gemini-pro") {
        priced(500, 1500)
    } else {
        None
    }
}

/// The prices of DeepSeek's models, by their names in lower case.
pub open spec fn deepseek_price(m: Seq<char>) -> Option<ModelPricing> {
    if contains_text(m, "deepseek-chat"@) || contains_text(m, "deepseek-v3"@) {
        price(270, 1100)
    } else if contains_text(m, "deepseek-reasoner"@) || contains_text(m, "deepseek-r1"@) {
        price(550, 2190)
    } else if contains_text(m, "deepseek-coder"@) {
        price(140, 280)
    } else {
        None
    }
}

fn deepseek_pricing(m: &str) -> (r: Option<ModelPricing>)
    ensures
        r == deepseek_price(m@),
{
    if contains(m, "deepseek-chat") || contains(m, "deepseek-v3") {
        priced(270, 1100)
    } else if contains(m, "deepseek-reasoner") || contains(m, "deepseek-r1") {
        priced(550, 2190)
    } else if contains(m, "deepseek-coder") {
        priced(140, 280)
    } else {
        None
    }
}

/// The prices of xAI's models, by their names in lower case.
pub open spec fn xai_price(m: Seq<char>) -> Option<ModelPricing> {
    if contains_text(m, "grok-2"@) && !contains_text(m, "mini"@) {
        price(2000, 10000)
    } else if contains_text(m, "grok-2-mini"@) {
        price(200, 1000)
    } else if contains_text(m, "grok-beta"@) {
        price(5000, 15000)
    } else {
        None
    }
}

fn xai_pricing(m: &str) -> (r: Option<ModelPricing>)
    ensures
        r == xai_price(m@),
{
    if contains(m, "grok-2") && !contains(m, "mini") {
        priced(2000, 10000)
    } else if contains(m, "grok-2-mini") {
        priced(200, 1000)
    } else if contains(m, "grok-beta") {
        priced(5000, 15000)
    } else {
        None
    }
}

/// The prices of Mistral's models, by their names in lower case.
pub open spec fn mistral_price(m: Seq<char>) -> Option<ModelPricing> {
    if contains_text(m, "mistral-large"@) {
        price(2000, 6000)
    } else if contains_text(m, "mistral-medium"@) {
        price(2700, 8100)
    } else if contains_text(m, "mistral-small"@) {
        price(200, 600)
    } else if contains_text(m, "codestral"@) {
        price(200, 600)
    } else if contains_text(m, "ministral-8b"@) {
        price(100, 100)
    } else if contains_text(m, "ministral-3b"@) {
        price(40, 40)
    } else if contains_text(m, "pixtral-large"@) {
        price(2000, 6000)
    } else if contains_text(m, "pixtral-12b"@) {
        price(150, 150)
    } else if contains_text(m, "mixtral-8x22b"@) || contains_text(m, "open-mixtral-8x22b"@) {
        price(2000, 6000)
    } else if contains_text(m, "mixtral-8x7b"@) || contains_text(m, "open-mixtral-8x7b"@) {
        price(700, 700)
    } else if contains_text(m, "open-mistral-7b"@) || contains_text(m, "mistral-7b"@) {
        price(250, 250)
    } else {
        None
    }
}

fn mistral_pricing(m: &str) -> (r: Option<ModelPricing>)
    ensures
        r == mistral_price(m@),
{
    if contains(m, "mistral-large") {
        priced(2000, 6000)
    } else if contains(m, "mistral-medium") {
        priced(2700, 8100)
    } else if contains(m, "mistral-small") {
        priced(200, 600)
    } else if contains(m, "codestral") {
        priced(200, 600)
    } else if contains(m, "ministral-8b") {
        priced(100, 100)
    } else if contains(m, "ministral-3b") {
        priced(40, 40)
    } else if contains(m, "pixtral-large") {
        priced(2000, 6000)
    } else if contains(m, "pixtral-12b") {
        priced(150, 150)
    } else if contains(m, "mixtral-8x22b") || contains(m, "open-mixtral-8x22b") {
        priced(2000, 6000)
    } else if contains(m, "mixtral-8x7b") || contains(m, "open-mixtral-8x7b") {
        priced(700, 700)
    } else if contains(m, "open-mistral-7b") || contains(m, "mistral-7b") {
        priced(250, 250)
    } else {
        None
    }
}

/// The prices of Groq's models, by their names in lower case.
pub open spec fn groq_price(m: Seq<char>) -> Option<ModelPricing> {
    if contains_text(m, "llama-3.3-70b"@) {
        price(590, 790)
    } else if contains_text(m, "llama-3.2-90b"@) {
        price(900, 900)
    } else if contains_text(m, "llama-3.2-11b"@) {
        price(180, 180)
    } else if contains_text(m, "llama-3.1-70b"@) {
        price(590, 790)
    } else if contains_text(m, "llama-3.1-8b"@) {
        price(50, 80)
    } else if contains_text(m, "llama3-70b"@) || contains_text(m, "llama-3-70b"@) {
        price(590, 790)
    } else if contains_text(m, "llama3-8b"@) || contains_text(m, "llama-3-8b"@) {
        price(50, 80)
    } else if contains_text(m, "llama"@) {
        price(100, 100)
    } else if contains_text(m, "mixtral"@) {
        price(240, 240)
    } else if contains_text(m, "gemma2-9b"@) {
        price(200, 200)
    } else if contains_text(m, "gemma-7b"@) {
        price(70, 70)
    } else {
        None
    }
}

fn groq_pricing(m: &str) -> (r: Option<ModelPricing>)
    ensures
        r == groq_price(m@),
{
    if contains(m, "llama-3.3-70b") {
        priced(590, 790)
    } else if contains(m, "llama-3.2-90b") {
        priced(900, 900)
    } else if contains(m, "llama-3.2-11b") {
        priced(180, 180)
    } else if contains(m, "llama-3.1-70b") {
        priced(590, 790)
    } else if contains(m, "llama-3.1-8b") {
        priced(50, 80)
    } else if contains(m, "llama3-70b") || contains(m, "llama-3-70b") {
        priced(590, 790)
    } else if contains(m, "llama3-8b") || contains(m, "llama-3-8b") {
        priced(50, 80)
    } else if contains(m, "llama") {
        priced(100, 100)
    } else if contains(m, "mixtral") {
        priced(240, 240)
    } else if contains(m, "gemma2-9b") {
        priced(200, 200)
    } else if contains(m, "gemma-7b") {
        priced(70, 70)
    } else {
        None
    }
}

/// The price of a model, by the names of the provider and of the model in lower case.
/// Models that run locally cost nothing. `anthropic_family` is the word that the names
/// of Anthropic's models begin with.
pub open spec fn price_of(
    provider: Seq<char>,
    m: Seq<char>,
    anthropic_family: Seq<char>,
) -> Option<ModelPricing> {
    if provider == "openai"@ {
        openai_price(m)
    } else if provider == "anthropic"@ {
        anthropic_price(m, anthropic_family)
    } else if provider == "google"@ {
        google_price(m)
    } else if provider == "deepseek"@ {
        deepseek_price(m)
    } else if provider == "xai"@ {
        xai_price(m)
    } else if provider == "mistral"@ {
        mistral_price(m)
    } else if provider == "groq"@ {
        groq_price(m)
    } else if provider == "ollama"@ {
        price(0, 0)
    } else {
        None
    }
}

/// The price of a model, by the names of the provider and of the model in lower case.
pub fn pricing_for(provider: &str, m: &str, anthropic_family: &str) -> (r: Option<ModelPricing>)
    ensures
        r == price_of(provider@, m@, anthropic_family@),
{
    if str_eq(provider, "openai") {
        openai_pricing(m)
    } else if str_eq(provider, "anthropic") {
        anthropic_pricing(m, anthropic_family)
    } else if str_eq(provider, "google") {
        google_pricing(m)
    } else if str_eq(provider, "deepseek") {
        deepseek_pricing(m)
    } else if str_eq(provider, "xai") {
        xai_pricing(m)
    } else if str_eq(provider, "mistral") {
        mistral_pricing(m)
    } else if str_eq(provider, "groq") {
        groq_pricing(m)
    } else if str_eq(provider, "ollama") {
        priced(0, 0)
    } else {
        None
    }
}

/// The price of a model, or nothing where it is not known. `anthropic_family` is the
/// word, in lower case, that the names of Anthropic's models begin with.
pub fn get_model_pricing(provider: &str, model: &str, anthropic_family: &str) -> (r: Option<
    ModelPricing,
>)
    ensures
        r == price_of(lowered(provider@), lowered(model@), anthropic_family@),
{
    let provider = to_lowercase(provider);
    let model = to_lowercase(model);
    pricing_for(provider.as_str(), model.as_str(), anthropic_family)
}

/// The part of the input that a cache served; it cannot be more than the input.
pub open spec fn cached_part(input_tokens: u32, cached_tokens: Option<u32>) -> u32 {
    match cached_tokens {
        Some(n) => if n <= input_tokens {
            n
        } else {
            input_tokens
        },
        None => 0,
    }
}

/// The cost of a call, in units of 10^-10 US dollars. What a cache served costs a
/// tenth of the input's price.
pub open spec fn cost(
    pricing: ModelPricing,
    input_tokens: u32,
    output_tokens: u32,
    cached_tokens: Option<u32>,
) -> int {
    let cached = cached_part(input_tokens, cached_tokens);
    (input_tokens - cached) * pricing.input_per_1m * 10 + cached * pricing.input_per_1m
        + output_tokens * pricing.output_per_1m * 10
}

/// The cost of a call at a price, in units of 10^-10 US dollars.
pub fn cost_at(
    pricing: ModelPricing,
    input_tokens: u32,
    output_tokens: u32,
    cached_tokens: Option<u32>,
) -> (r: u128)
    ensures
        r == cost(pricing, input_tokens, output_tokens, cached_tokens),
{
    let cached: u32 = match cached_tokens {
        Some(n) => if n <= input_tokens {
            n
        } else {
            input_tokens
        },
        None => 0,
    };
    let rest: u32 = input_tokens - cached;
    let input_price: u128 = pricing.input_per_1m as u128;
    let output_price: u128 = pricing.output_per_1m as u128;
    proof {
        assert(rest * input_price <= 0xffff_ffff * 0xffff_ffff) by (nonlinear_arith)
            requires
                rest <= 0xffff_ffff,
                input_price <= 0xffff_ffff,
        ;
        assert(cached * input_price <= 0xffff_ffff * 0xffff_ffff) by (nonlinear_arith)
            requires
                cached <= 0xffff_ffff,
                input_price <= 0xffff_ffff,
        ;
        assert(output_tokens * output_price <= 0xffff_ffff * 0xffff_ffff) by (nonlinear_arith)
            requires
                output_tokens <= 0xffff_ffff,
                output_price <= 0xffff_ffff,
        ;
    }
    (rest as u128) * input_price * 10 + (cached as u128) * input_price + (output_tokens as u128)
        * output_price * 10
}

/// The cost of a call, in units of 10^-10 US dollars, where its price is known.
pub fn calculate_cost(
    provider: &str,
    model: &str,
    input_tokens: u32,
    output_tokens: u32,
    cached_tokens: Option<u32>,
    anthropic_family: &str,
) -> (r: Option<u128>)
    ensures
        match price_of(lowered(provider@), lowered(model@), anthropic_family@) {
            Some(pricing) => r is Some && r->0 == cost(
                pricing,
                input_tokens,
                output_tokens,
                cached_tokens,
            ),
            None => r is None,
        },
{
    match get_model_pricing(provider, model, anthropic_family) {
        Some(pricing) => Some(cost_at(pricing, input_tokens, output_tokens, cached_tokens)),
        None => None,
    }
}

/// Whether what a cache served counts as such in the cost of a provider's replies.
pub open spec fn counts_cached(provider: Seq<char>) -> bool {
    provider == "google"@
}

/// The cost of a reply of a provider's model: told where both counts of tokens are
/// told and the price is known.
pub open spec fn reply_cost(
    provider: Seq<char>,
    model: Seq<char>,
    usage: Option<TokenUsage>,
    anthropic_family: Seq<char>,
) -> Option<int> {
    match (usage, price_of(lowered(provider), lowered(model), anthropic_family)) {
        (Some(usage), Some(pricing)) => match (usage.prompt_tokens, usage.completion_tokens) {
            (Some(input), Some(output)) => Some(
                cost(
                    pricing,
                    input,
                    output,
                    if counts_cached(provider) {
                        usage.cached_tokens
                    } else {
                        None
                    },
                ),
            ),
            _ => None,
        },
        _ => None,
    }
}

/// The cost of a reply, in units of 10^-10 US dollars, where it can be told.
pub fn response_cost(
    provider: &str,
    response: &GenerateResponse,
    anthropic_family: &str,
) -> (r: Option<u128>)
    ensures
        match reply_cost(provider@, response.model@, response.usage, anthropic_family@) {
            Some(cost) => r is Some && r->0 == cost,
            None => r is None,
        },
{
    let usage = match &response.usage {
        Some(usage) => usage,
        None => return None,
    };
    let cached = if str_eq(provider, "google") {
        usage.cached_tokens
    } else {
        None
    };
    match (usage.prompt_tokens, usage.completion_tokens) {
        (Some(input), Some(output)) => calculate_cost(
            provider,
            response.model.as_str(),
            input,
            output,
            cached,
            anthropic_family,
        ),
        _ => None,
    }
}

/// A cache never makes a call dearer, and a count of cached tokens beyond the input
/// counts as the whole input.
pub proof fn caching_never_raises_the_cost(
    pricing: ModelPricing,
    input_tokens: u32,
    output_tokens: u32,
    cached_tokens: u32,
)
    ensures
        0 <= cost(pricing, input_tokens, output_tokens, Some(cached_tokens)),
        cost(pricing, input_tokens, output_tokens, Some(cached_tokens)) <= cost(
            pricing,
            input_tokens,
            output_tokens,
            None,
        ),
        cached_tokens >= input_tokens ==> cost(
            pricing,
            input_tokens,
            output_tokens,
            Some(cached_tokens),
        ) == input_tokens * pricing.input_per_1m + output_tokens * pricing.output_per_1m * 10,
{
    let cached = cached_part(input_tokens, Some(cached_tokens));
    let p = pricing.input_per_1m;
    assert((input_tokens - cached) * p * 10 + cached * p <= input_tokens * p * 10) by (nonlinear_arith)
        requires
            cached <= input_tokens,
            0 <= cached,
            0 <= p,
    ;
    assert((input_tokens - cached) * p >= 0 && cached * p >= 0) by (nonlinear_arith)
        requires
            cached <= input_tokens,
            0 <= cached,
            0 <= p,
    ;
    if cached_tokens >= input_tokens {
        assert((input_tokens - cached) * p * 10 == 0) by (nonlinear_arith)
            requires
                cached == input_tokens,
        ;
    }
    assert(output_tokens * pricing.output_per_1m >= 0) by (nonlinear_arith)
        requires
            0 <= output_tokens,
            0 <= pricing.output_per_1m,
    ;
}

/// A price is told for both ways, and no reply is cheaper than its prompt.
pub proof fn replies_are_not_cheaper_than_prompts(
    provider: Seq<char>,
    m: Seq<char>,
    family: Seq<char>,
)
    ensures
        price_of(provider, m, family) matches Some(p) ==> p.input_per_1m <= p.output_per_1m,
        price(1, 2) == Some(ModelPricing { input_per_1m: 1, output_per_1m: 2 }),
{
}

/// Each provider has prices of its own; what runs locally costs nothing, and of others
/// nothing is known.
pub proof fn providers_have_their_prices(provider: Seq<char>, m: Seq<char>, family: Seq<char>)
    ensures
        price_of("openai"@, m, family) == openai_price(m),
        price_of("anthropic"@, m, family) == anthropic_price(m, family),
        price_of("google"@, m, family) == google_price(m),
        price_of("deepseek"@, m, family) == deepseek_price(m),
        price_of("xai"@, m, family) == xai_price(m),
        price_of("mistral"@, m, family) == mistral_price(m),
        price_of("groq"@, m, family) == groq_price(m),
        price_of("ollama"@, m, family) is Some && price_of(
            "ollama"@,
            m,
            family,
        )->0.input_per_1m == 0 && price_of("ollama"@, m, family)->0.output_per_1m == 0,
        provider != "openai"@ && provider != "anthropic"@ && provider != "google"@ && provider
            != "deepseek"@ && provider != "xai"@ && provider != "mistral"@ && provider != "groq"@
            && provider != "ollama"@ ==> price_of(provider, m, family) is None,
{
    reveal_strlit("openai");
    reveal_strlit("anthropic");
    reveal_strlit("google");
    reveal_strlit("deepseek");
    reveal_strlit("xai");
    reveal_strlit("mistral");
    reveal_strlit("groq");
    reveal_strlit("ollama");
    assert("openai"@.len() == 6
        && "anthropic"@.len() == 9
        && "google"@.len() == 6
        && "deepseek"@.len() == 8
        && "xai"@.len() == 3
        && "mistral"@.len() == 7
        && "groq"@.len() == 4
        && "ollama"@.len() == 6
        && "openai"@[0] == 'o'
        && "google"@[0] == 'g'
        && "openai"@[1] == 'p'
        && "ollama"@[1] == 'l'
        && "ollama"@[0] == 'o');
}

/// What OpenAI's models cost, in thousandths of a dollar for a million tokens: the small
/// ones less than the large ones.
pub proof fn openai_models_have_their_prices(m: Seq<char>)
    ensures
        contains_text(m, "gpt-4o"@) && !contains_text(m, "mini"@) ==> openai_price(m) == Some(
            ModelPricing { input_per_1m: 2500, output_per_1m: 10000 },
        ),
        contains_text(m, "gpt-4o-mini"@) && contains_text(m, "mini"@) ==> openai_price(m) == Some(
            ModelPricing { input_per_1m: 150, output_per_1m: 600 },
        ),
        contains_text(m, "gpt-4-turbo"@) && !contains_text(m, "gpt-4o"@) && !contains_text(
            m,
            "gpt-4o-mini"@,
        ) ==> openai_price(m) == Some(ModelPricing { input_per_1m: 10000, output_per_1m: 30000 }),
        begins_with(m, "gpt-4"@) && !contains_text(m, "o"@) && !contains_text(m, "gpt-4o"@)
            && !contains_text(m, "gpt-4o-mini"@) && !contains_text(m, "gpt-4-turbo"@)
            && !contains_text(m, "turbo"@) && m != "gpt-4-1106-preview"@ && m
            != "gpt-4-0125-preview"@ ==> openai_price(m) == Some(
            ModelPricing { input_per_1m: 30000, output_per_1m: 60000 },
        ),
        contains_text(m, "gpt-3.5-turbo"@) && !contains_text(m, "gpt-4"@) && !contains_text(
            m,
            "gpt-4o"@,
        ) && !contains_text(m, "gpt-4o-mini"@) && !contains_text(m, "gpt-4-turbo"@) && !begins_with(
            m,
            "gpt-4"@,
        ) && m != "gpt-4-1106-preview"@ && m != "gpt-4-0125-preview"@ ==> openai_price(m) == Some(
            ModelPricing { input_per_1m: 500, output_per_1m: 1500 },
        ),
        contains_text(m, "o1-preview"@) && !contains_text(m, "gpt"@) && !contains_text(m, "gpt-4o"@)
            && !contains_text(m, "gpt-4o-mini"@) && !contains_text(m, "gpt-4-turbo"@)
            && !begins_with(m, "gpt-4"@) && !contains_text(m, "gpt-3.5-turbo"@) && m
            != "gpt-4-1106-preview"@ && m != "gpt-4-0125-preview"@ ==> openai_price(m) == Some(
            ModelPricing { input_per_1m: 15000, output_per_1m: 60000 },
        ),
        contains_text(m, "o1-mini"@) && !contains_text(m, "gpt-4o"@) && !contains_text(
            m,
            "gpt-4o-mini"@,
        ) && !contains_text(m, "gpt-4-turbo"@) && !begins_with(m, "gpt-4"@) && !contains_text(
            m,
            "gpt-3.5-turbo"@,
        ) && !contains_text(m, "o1-preview"@) && m != "gpt-4-1106-preview"@ && m
            != "gpt-4-0125-preview"@ ==> openai_price(m) == Some(
            ModelPricing { input_per_1m: 3000, output_per_1m: 12000 },
        ),
        contains_text(m, "o3-mini"@) && !contains_text(m, "gpt-4o"@) && !contains_text(
            m,
            "gpt-4o-mini"@,
        ) && !contains_text(m, "gpt-4-turbo"@) && !begins_with(m, "gpt-4"@) && !contains_text(
            m,
            "gpt-3.5-turbo"@,
        ) && !contains_text(m, "o1-preview"@) && !contains_text(m, "o1-mini"@) && m != "o1"@ && m
            != "gpt-4-1106-preview"@ && m != "gpt-4-0125-preview"@ ==> openai_price(m) == Some(
            ModelPricing { input_per_1m: 1100, output_per_1m: 4400 },
        ),
{
}

/// What Anthropic's models cost: the large ones five times as much as the middle ones, and
/// the small ones the least.
pub proof fn anthropic_models_have_their_prices(m: Seq<char>, family: Seq<char>)
    ensures
        contains_text(m, family + "-opus-4"@) || contains_text(m, family + "-4-opus"@)
            ==> anthropic_price(m, family) == Some(
            ModelPricing { input_per_1m: 15000, output_per_1m: 75000 },
        ),
        !contains_text(m, family + "-opus-4"@) && !contains_text(m, family + "-4-opus"@) && (
        contains_text(m, family + "-sonnet-4"@) || contains_text(m, family + "-4-sonnet"@)
            || contains_text(m, family + "-3-5-sonnet"@)) ==> anthropic_price(m, family) == Some(
            ModelPricing { input_per_1m: 3000, output_per_1m: 15000 },
        ),
        contains_text(m, family + "-3-5-haiku"@) && !contains_text(m, family + "-opus-4"@)
            && !contains_text(m, family + "-4-opus"@) && !contains_text(m, family + "-sonnet-4"@)
            && !contains_text(m, family + "-4-sonnet"@) && !contains_text(
            m,
            family + "-3-5-sonnet"@,
        ) ==> anthropic_price(m, family) == Some(
            ModelPricing { input_per_1m: 800, output_per_1m: 4000 },
        ),
        contains_text(m, family + "-3-haiku"@) && !contains_text(m, "3-5"@) && !contains_text(
            m,
            family + "-opus-4"@,
        ) && !contains_text(m, family + "-4-opus"@) && !contains_text(m, family + "-sonnet-4"@)
            && !contains_text(m, family + "-4-sonnet"@) && !contains_text(
            m,
            family + "-3-5-sonnet"@,
        ) && !contains_text(m, family + "-3-5-haiku"@) && !contains_text(m, family + "-3-opus"@)
            && !contains_text(m, family + "-3-sonnet"@) ==> anthropic_price(m, family) == Some(
            ModelPricing { input_per_1m: 250, output_per_1m: 1250 },
        ),
        contains_text(m, family + "-3-opus"@) && !contains_text(m, family + "-opus-4"@)
            && !contains_text(m, family + "-4-opus"@) && !contains_text(m, family + "-sonnet-4"@)
            && !contains_text(m, family + "-4-sonnet"@) && !contains_text(
            m,
            family + "-3-5-sonnet"@,
        ) && !contains_text(m, family + "-3-5-haiku"@) ==> anthropic_price(m, family) == Some(
            ModelPricing { input_per_1m: 15000, output_per_1m: 75000 },
        ),
        anthropic_price(m, family) matches Some(p) ==> p.output_per_1m == 5 * p.input_per_1m,
{
}

/// What the models of the others cost, by what their names hold.
pub proof fn other_models_have_their_prices(m: Seq<char>)
    ensures
        contains_text(m, "gemini-2.0-flash"@) ==> google_price(m) == Some(
            ModelPricing { input_per_1m: 100, output_per_1m: 400 },
        ),
        contains_text(m, "gemini-1.5-pro"@) && !contains_text(m, "gemini-2.0-flash"@)
            ==> google_price(m) == Some(ModelPricing { input_per_1m: 1250, output_per_1m: 5000 }),
        contains_text(m, "gemini-1.5-flash"@) && !contains_text(m, "gemini-2.0-flash"@)
            && !contains_text(m, "gemini-1.5-pro"@) ==> google_price(m) == Some(
            ModelPricing { input_per_1m: 75, output_per_1m: 300 },
        ),
        (contains_text(m, "gemini-1.0-pro"@) || contains_text(m, "gemini-pro"@)) && !contains_text(
            m,
            "gemini-2.0-flash"@,
        ) && !contains_text(m, "gemini-1.5-pro"@) && !contains_text(m, "gemini-1.5-flash"@)
            ==> google_price(m) == Some(ModelPricing { input_per_1m: 500, output_per_1m: 1500 }),
        contains_text(m, "deepseek-chat"@) || contains_text(m, "deepseek-v3"@) ==> deepseek_price(m)
            == Some(ModelPricing { input_per_1m: 270, output_per_1m: 1100 }),
        (contains_text(m, "deepseek-reasoner"@) || contains_text(m, "deepseek-r1"@))
            && !contains_text(m, "deepseek-chat"@) && !contains_text(m, "deepseek-v3"@)
            ==> deepseek_price(m) == Some(ModelPricing { input_per_1m: 550, output_per_1m: 2190 }),
        contains_text(m, "deepseek-coder"@) && !contains_text(m, "deepseek-chat"@)
            && !contains_text(m, "deepseek-v3"@) && !contains_text(m, "deepseek-reasoner"@)
            && !contains_text(m, "deepseek-r1"@) ==> deepseek_price(m) == Some(
            ModelPricing { input_per_1m: 140, output_per_1m: 280 },
        ),
        contains_text(m, "grok-2"@) && !contains_text(m, "mini"@) ==> xai_price(m) == Some(
            ModelPricing { input_per_1m: 2000, output_per_1m: 10000 },
        ),
        contains_text(m, "grok-2-mini"@) && contains_text(m, "mini"@) ==> xai_price(m) == Some(
            ModelPricing { input_per_1m: 200, output_per_1m: 1000 },
        ),
        contains_text(m, "grok-beta"@) && !contains_text(m, "grok-2"@) && !contains_text(
            m,
            "grok-2-mini"@,
        ) ==> xai_price(m) == Some(ModelPricing { input_per_1m: 5000, output_per_1m: 15000 }),
        contains_text(m, "mistral-large"@) ==> mistral_price(m) == Some(
            ModelPricing { input_per_1m: 2000, output_per_1m: 6000 },
        ),
        contains_text(m, "mistral-medium"@) && !contains_text(m, "mistral-large"@) ==> mistral_price(
            m,
        ) == Some(ModelPricing { input_per_1m: 2700, output_per_1m: 8100 }),
        (contains_text(m, "mistral-small"@) || contains_text(m, "codestral"@)) && !contains_text(
            m,
            "mistral-large"@,
        ) && !contains_text(m, "mistral-medium"@) ==> mistral_price(m) == Some(
            ModelPricing { input_per_1m: 200, output_per_1m: 600 },
        ),
        contains_text(m, "llama-3.3-70b"@) ==> groq_price(m) == Some(
            ModelPricing { input_per_1m: 590, output_per_1m: 790 },
        ),
        contains_text(m, "llama-3.2-90b"@) && !contains_text(m, "llama-3.3-70b"@) ==> groq_price(m)
            == Some(ModelPricing { input_per_1m: 900, output_per_1m: 900 }),
        groq_price(m) is None ==> !contains_text(m, "llama"@) && !contains_text(m, "mixtral"@),
{
}

/// Costs add up: tokens that come together cost what they cost apart, ten units each for a
/// thousandth of a dollar in the price; what a cache served costs a tenth.
pub proof fn costs_add_up(pricing: ModelPricing, input: u32, output: u32, cached: u32)
    ensures
        cost(pricing, input, output, None) == 10 * (input * pricing.input_per_1m) + 10 * (output
            * pricing.output_per_1m),
        cached <= input ==> cost(pricing, input, output, None) - cost(
            pricing,
            input,
            output,
            Some(cached),
        ) == 9 * (cached * pricing.input_per_1m),
        cost(pricing, 0, 0, None) == 0,
{
    let p = pricing.input_per_1m as int;
    let q = pricing.output_per_1m as int;
    let i = input as int;
    let c = cached as int;
    let o = output as int;
    assert(i * p * 10 == 10 * (i * p)) by (nonlinear_arith);
    assert(o * q * 10 == 10 * (o * q)) by (nonlinear_arith);
    assert((i - 0) * p * 10 + 0 * p + o * q * 10 == 10 * (i * p) + 10 * (o * q))
        by (nonlinear_arith);
    assert((i * p * 10 + o * q * 10) - ((i - c) * p * 10 + c * p + o * q * 10) == 9 * (c * p))
        by (nonlinear_arith);
    assert(0 * p * 10 + 0 * p + 0 * q * 10 == 0) by (nonlinear_arith);
}

/// The cost of a reply is told where both counts and the price are known; what a cache
/// served counts for Google alone.
pub proof fn replies_cost_what_they_took(
    provider: Seq<char>,
    model: Seq<char>,
    usage: TokenUsage,
    family: Seq<char>,
)
    ensures
        ({
            let known = price_of(lowered(provider), lowered(model), family);
            let told = reply_cost(provider, model, Some(usage), family);
            &&& told is Some <==> known is Some && usage.prompt_tokens is Some
                && usage.completion_tokens is Some
            &&& told is Some && provider == "google"@ ==> told == Some(
                cost(
                    known->0,
                    usage.prompt_tokens->0,
                    usage.completion_tokens->0,
                    usage.cached_tokens,
                ),
            )
            &&& told is Some && provider != "google"@ ==> told == Some(
                cost(known->0, usage.prompt_tokens->0, usage.completion_tokens->0, None),
            )
        }),
        reply_cost(provider, model, None, family) is None,
{
}

/// What the rest of Mistral's models cost, by their size.
pub proof fn further_mistral_models_have_their_prices(m: Seq<char>)
    ensures
        contains_text(m, "ministral-8b"@) && !contains_text(m, "mistral-large"@) && !contains_text(m, "mistral-medium"@) && !contains_text(m, "mistral-small"@) && !contains_text(m, "codestral"@) ==> mistral_price(m) == Some(
            ModelPricing { input_per_1m: 100, output_per_1m: 100 },
        ),
        contains_text(m, "ministral-3b"@) && !contains_text(m, "mistral-large"@) && !contains_text(m, "mistral-medium"@) && !contains_text(m, "mistral-small"@) && !contains_text(m, "codestral"@) && !contains_text(m, "ministral-8b"@) ==> mistral_price(m) == Some(
            ModelPricing { input_per_1m: 40, output_per_1m: 40 },
        ),
        contains_text(m, "pixtral-large"@) && !contains_text(m, "mistral-large"@) && !contains_text(m, "mistral-medium"@) && !contains_text(m, "mistral-small"@) && !contains_text(m, "codestral"@) && !contains_text(m, "ministral-8b"@) && !contains_text(m, "ministral-3b"@) ==> mistral_price(m) == Some(
            ModelPricing { input_per_1m: 2000, output_per_1m: 6000 },
        ),
        contains_text(m, "pixtral-12b"@) && !contains_text(m, "mistral-large"@) && !contains_text(m, "mistral-medium"@) && !contains_text(m, "mistral-small"@) && !contains_text(m, "codestral"@) && !contains_text(m, "ministral-8b"@) && !contains_text(m, "ministral-3b"@) && !contains_text(m, "pixtral-large"@) ==> mistral_price(m) == Some(
            ModelPricing { input_per_1m: 150, output_per_1m: 150 },
        ),
        (contains_text(m, "mixtral-8x22b"@) || contains_text(m, "open-mixtral-8x22b"@)) && !contains_text(m, "mistral-large"@) && !contains_text(m, "mistral-medium"@) && !contains_text(m, "mistral-small"@) && !contains_text(m, "codestral"@) && !contains_text(m, "ministral-8b"@) && !contains_text(m, "ministral-3b"@) && !contains_text(m, "pixtral-large"@) && !contains_text(m, "pixtral-12b"@) ==> mistral_price(m) == Some(
            ModelPricing { input_per_1m: 2000, output_per_1m: 6000 },
        ),
        (contains_text(m, "mixtral-8x7b"@) || contains_text(m, "open-mixtral-8x7b"@)) && !contains_text(m, "mistral-large"@) && !contains_text(m, "mistral-medium"@) && !contains_text(m, "mistral-small"@) && !contains_text(m, "codestral"@) && !contains_text(m, "ministral-8b"@) && !contains_text(m, "ministral-3b"@) && !contains_text(m, "pixtral-large"@) && !contains_text(m, "pixtral-12b"@) && !contains_text(m, "mixtral-8x22b"@) && !contains_text(m, "open-mixtral-8x22b"@) ==> mistral_price(m) == Some(
            ModelPricing { input_per_1m: 700, output_per_1m: 700 },
        ),
        (contains_text(m, "open-mistral-7b"@) || contains_text(m, "mistral-7b"@)) && !contains_text(m, "mistral-large"@) && !contains_text(m, "mistral-medium"@) && !contains_text(m, "mistral-small"@) && !contains_text(m, "codestral"@) && !contains_text(m, "ministral-8b"@) && !contains_text(m, "ministral-3b"@) && !contains_text(m, "pixtral-large"@) && !contains_text(m, "pixtral-12b"@) && !contains_text(m, "mixtral-8x22b"@) && !contains_text(m, "open-mixtral-8x22b"@) && !contains_text(m, "mixtral-8x7b"@) && !contains_text(m, "open-mixtral-8x7b"@) ==> mistral_price(m) == Some(
            ModelPricing { input_per_1m: 250, output_per_1m: 250 },
        ),
{
}

/// What the models that Groq runs cost, by their size.
pub proof fn groq_models_have_their_prices(m: Seq<char>)
    ensures
        contains_text(m, "llama-3.2-11b"@) && !contains_text(m, "llama-3.3-70b"@) && !contains_text(m, "llama-3.2-90b"@) ==> groq_price(m) == Some(
            ModelPricing { input_per_1m: 180, output_per_1m: 180 },
        ),
        contains_text(m, "llama-3.1-70b"@) && !contains_text(m, "llama-3.3-70b"@) && !contains_text(m, "llama-3.2-90b"@) && !contains_text(m, "llama-3.2-11b"@) ==> groq_price(m) == Some(
            ModelPricing { input_per_1m: 590, output_per_1m: 790 },
        ),
        contains_text(m, "llama-3.1-8b"@) && !contains_text(m, "llama-3.3-70b"@) && !contains_text(m, "llama-3.2-90b"@) && !contains_text(m, "llama-3.2-11b"@) && !contains_text(m, "llama-3.1-70b"@) ==> groq_price(m) == Some(
            ModelPricing { input_per_1m: 50, output_per_1m: 80 },
        ),
        (contains_text(m, "llama3-70b"@) || contains_text(m, "llama-3-70b"@)) && !contains_text(m, "llama-3.3-70b"@) && !contains_text(m, "llama-3.2-90b"@) && !contains_text(m, "llama-3.2-11b"@) && !contains_text(m, "llama-3.1-70b"@) && !contains_text(m, "llama-3.1-8b"@) ==> groq_price(m) == Some(
            ModelPricing { input_per_1m: 590, output_per_1m: 790 },
        ),
        (contains_text(m, "llama3-8b"@) || contains_text(m, "llama-3-8b"@)) && !contains_text(m, "llama-3.3-70b"@) && !contains_text(m, "llama-3.2-90b"@) && !contains_text(m, "llama-3.2-11b"@) && !contains_text(m, "llama-3.1-70b"@) && !contains_text(m, "llama-3.1-8b"@) && !contains_text(m, "llama3-70b"@) && !contains_text(m, "llama-3-70b"@) ==> groq_price(m) == Some(
            ModelPricing { input_per_1m: 50, output_per_1m: 80 },
        ),
        contains_text(m, "llama"@) && !contains_text(m, "llama-3.3-70b"@) && !contains_text(m, "llama-3.2-90b"@) && !contains_text(m, "llama-3.2-11b"@) && !contains_text(m, "llama-3.1-70b"@) && !contains_text(m, "llama-3.1-8b"@) && !contains_text(m, "llama3-70b"@) && !contains_text(m, "llama-3-70b"@) && !contains_text(m, "llama3-8b"@) && !contains_text(m, "llama-3-8b"@) ==> groq_price(m) == Some(
            ModelPricing { input_per_1m: 100, output_per_1m: 100 },
        ),
        contains_text(m, "mixtral"@) && !contains_text(m, "llama-3.3-70b"@) && !contains_text(m, "llama-3.2-90b"@) && !contains_text(m, "llama-3.2-11b"@) && !contains_text(m, "llama-3.1-70b"@) && !contains_text(m, "llama-3.1-8b"@) && !contains_text(m, "llama3-70b"@) && !contains_text(m, "llama-3-70b"@) && !contains_text(m, "llama3-8b"@) && !contains_text(m, "llama-3-8b"@) && !contains_text(m, "llama"@) ==> groq_price(m) == Some(
            ModelPricing { input_per_1m: 240, output_per_1m: 240 },
        ),
        contains_text(m, "gemma2-9b"@) && !contains_text(m, "llama-3.3-70b"@) && !contains_text(m, "llama-3.2-90b"@) && !contains_text(m, "llama-3.2-11b"@) && !contains_text(m, "llama-3.1-70b"@) && !contains_text(m, "llama-3.1-8b"@) && !contains_text(m, "llama3-70b"@) && !contains_text(m, "llama-3-70b"@) && !contains_text(m, "llama3-8b"@) && !contains_text(m, "llama-3-8b"@) && !contains_text(m, "llama"@) && !contains_text(m, "mixtral"@) ==> groq_price(m) == Some(
            ModelPricing { input_per_1m: 200, output_per_1m: 200 },
        ),
        contains_text(m, "gemma-7b"@) && !contains_text(m, "llama-3.3-70b"@) && !contains_text(m, "llama-3.2-90b"@) && !contains_text(m, "llama-3.2-11b"@) && !contains_text(m, "llama-3.1-70b"@) && !contains_text(m, "llama-3.1-8b"@) && !contains_text(m, "llama3-70b"@) && !contains_text(m, "llama-3-70b"@) && !contains_text(m, "llama3-8b"@) && !contains_text(m, "llama-3-8b"@) && !contains_text(m, "llama"@) && !contains_text(m, "mixtral"@) && !contains_text(m, "gemma2-9b"@) ==> groq_price(m) == Some(
            ModelPricing { input_per_1m: 70, output_per_1m: 70 },
        ),
{
}

/// Models that go by a short name cost what is told for it, whatever other names begin
/// with it.
pub proof fn short_names_have_their_prices(m: Seq<char>)
    ensures
        m == "o1"@ ==> openai_price(m) == Some(
            ModelPricing { input_per_1m: 15000, output_per_1m: 60000 },
        ),
        m == "o3"@ ==> openai_price(m) == Some(
            ModelPricing { input_per_1m: 10000, output_per_1m: 40000 },
        ),
{
    if m == "o1"@ || m == "o3"@ {
        short_names_hold_no_longer(m);
    }
    reveal_strlit("o1");
    reveal_strlit("o3");
    assert("o1"@[1] == '1' && "o3"@[1] == '3');
}

proof fn short_names_hold_no_longer(m: Seq<char>)
    requires
        m == "o1"@ || m == "o3"@,
    ensures
        !contains_text(m, "gpt-4o"@),
        !contains_text(m, "gpt-4o-mini"@),
        !contains_text(m, "gpt-4-turbo"@),
        !contains_text(m, "gpt-3.5-turbo"@),
        !contains_text(m, "o1-preview"@),
        !contains_text(m, "o1-mini"@),
        !contains_text(m, "o3-mini"@),
        !begins_with(m, "gpt-4"@),
        m != "gpt-4-1106-preview"@,
        m != "gpt-4-0125-preview"@,
        m.len() == 2,
{
    reveal_strlit("o1");
    reveal_strlit("gpt-4o");
    reveal_strlit("gpt-4o-mini");
    reveal_strlit("gpt-4-turbo");
    reveal_strlit("gpt-3.5-turbo");
    reveal_strlit("o1-preview");
    reveal_strlit("o1-mini");
    reveal_strlit("o3-mini");
    reveal_strlit("gpt-4");
    reveal_strlit("gpt-4-1106-preview");
    reveal_strlit("gpt-4-0125-preview");
    reveal_strlit("o3");
    assert("o1"@.len() == 2
        && "gpt-4o"@.len() == 6
        && "gpt-4o-mini"@.len() == 11
        && "gpt-4-turbo"@.len() == 11
        && "gpt-3.5-turbo"@.len() == 13
        && "o1-preview"@.len() == 10
        && "o1-mini"@.len() == 7
        && "o3-mini"@.len() == 7
        && "gpt-4"@.len() == 5
        && "gpt-4-1106-preview"@.len() == 18
        && "gpt-4-0125-preview"@.len() == 18
        && "o3"@.len() == 2
        && "o1"@[1] == '1'
        && "o3"@[1] == '3'
        && "gpt-4o-mini"@[5] == 'o'
        && "gpt-4-turbo"@[5] == '-'
        && "o1-mini"@[1] == '1'
        && "o3-mini"@[1] == '3'
        && "gpt-4-1106-preview"@[6] == '1'
        && "gpt-4-0125-preview"@[6] == '0');
}

} // verus!
