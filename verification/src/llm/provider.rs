//! Providers of models, and their settings.
use vstd::prelude::*;
use vstd::string::*;

use crate::error::{ErrorView, SdkError};
use crate::text::{
    concat2, find_last_pair, last_pair, lowered, pair_views, push_pair, str_eq, to_lowercase,
};

verus! {

/// The kinds of providers.
#[derive(Clone, Copy, Debug, PartialEq, Eq, Structural)]
pub enum ProviderType {
    OpenAI,
    Anthropic,
    Azure,
    Bedrock,
    VertexAI,
    OpenRouter,
}

impl ProviderType {
    /// The name of the kind.
    pub open spec fn name(self) -> Seq<char> {
        match self {
            ProviderType::OpenAI => "openai"@,
            ProviderType::Anthropic => "anthropic"@,
            ProviderType::Azure => "azure"@,
            ProviderType::Bedrock => "bedrock"@,
            ProviderType::VertexAI => "vertexai"@,
            ProviderType::OpenRouter => "openrouter"@,
        }
    }

    /// The name of the kind.
    pub fn as_str(&self) -> (r: &'static str)
        ensures
            r@ == self.name(),
    {
        match self {
            ProviderType::OpenAI => "openai",
            ProviderType::Anthropic => "anthropic",
            ProviderType::Azure => "azure",
            ProviderType::Bedrock => "bedrock",
            ProviderType::VertexAI => "vertexai",
            ProviderType::OpenRouter => "openrouter",
        }
    }

    /// The kind with a name in lower case.
    pub open spec fn named(s: Seq<char>) -> Option<ProviderType> {
        if s == "openai"@ {
            Some(ProviderType::OpenAI)
        } else if s == "anthropic"@ {
            Some(ProviderType::Anthropic)
        } else if s == "azure"@ {
            Some(ProviderType::Azure)
        } else if s == "bedrock"@ {
            Some(ProviderType::Bedrock)
        } else if s == "vertexai"@ || s == "vertex_ai"@ {
            Some(ProviderType::VertexAI)
        } else if s == "openrouter"@ || s == "open_router"@ {
            Some(ProviderType::OpenRouter)
        } else {
            None
        }
    }

    /// The kind with a name in lower case.
    pub fn from_lowercase(s: &str) -> (r: Option<ProviderType>)
        ensures
            r == ProviderType::named(s@),
    {
        if str_eq(s, "openai") {
            Some(ProviderType::OpenAI)
        } else if str_eq(s, "anthropic") {
            Some(ProviderType::Anthropic)
        } else if str_eq(s, "azure") {
            Some(ProviderType::Azure)
        } else if str_eq(s, "bedrock") {
            Some(ProviderType::Bedrock)
        } else if str_eq(s, "vertexai") || str_eq(s, "vertex_ai") {
            Some(ProviderType::VertexAI)
        } else if str_eq(s, "openrouter") || str_eq(s, "open_router") {
            Some(ProviderType::OpenRouter)
        } else {
            None
        }
    }

    /// The kind with a name, in upper or lower case.
    pub fn from_str(s: &str) -> (r: Result<ProviderType, SdkError>)
        ensures
            match r {
                Ok(t) => ProviderType::named(lowered(s@)) == Some(t),
                Err(e) => ProviderType::named(lowered(s@)) is None && e@ == ErrorView::Other(
                    "Unknown provider type: "@ + s@,
                ),
            },
    {
        let lower = to_lowercase(s);
        match ProviderType::from_lowercase(lower.as_str()) {
            Some(t) => Ok(t),
            None => Err(SdkError::Other(concat2("Unknown provider type: ", s))),
        }
    }
}

/// Names differ, as their lengths do.
pub proof fn provider_names_differ()
    ensures
        "openai"@.len() == 6,
        "anthropic"@.len() == 9,
        "azure"@.len() == 5,
        "bedrock"@.len() == 7,
        "vertexai"@.len() == 8,
        "openrouter"@.len() == 10,
{
    reveal_strlit("openai");
    reveal_strlit("anthropic");
    reveal_strlit("azure");
    reveal_strlit("bedrock");
    reveal_strlit("vertexai");
    reveal_strlit("openrouter");
}

/// The name of a kind leads back to it.
pub proof fn provider_names_lead_back(t: ProviderType)
    ensures
        ProviderType::named(t.name()) == Some(t),
{
    provider_names_differ();
    reveal_strlit("vertex_ai");
    reveal_strlit("open_router");
    assert("vertex_ai"@[0] != "anthropic"@[0]) by {
        reveal_strlit("anthropic");
    }
}

/// The vendor's name in what is recorded of calls.
pub open spec fn vendor_name(t: ProviderType) -> Seq<char> {
    match t {
        ProviderType::OpenAI => "openai"@,
        ProviderType::Azure => "Azure"@,
        ProviderType::Anthropic => "Anthropic"@,
        ProviderType::Bedrock => "AWS"@,
        ProviderType::VertexAI => "Google"@,
        ProviderType::OpenRouter => "OpenRouter"@,
    }
}

/// The vendor's name in what is recorded of calls.
pub fn get_vendor_name(provider_type: &ProviderType) -> (r: &'static str)
    ensures
        r@ == vendor_name(*provider_type),
{
    match provider_type {
        ProviderType::OpenAI => "openai",
        ProviderType::Azure => "Azure",
        ProviderType::Anthropic => "Anthropic",
        ProviderType::Bedrock => "AWS",
        ProviderType::VertexAI => "Google",
        ProviderType::OpenRouter => "OpenRouter",
    }
}

/// The settings of a provider.
#[derive(Clone, Debug)]
pub struct ProviderConfig {
    pub key: String,
    pub api_key: String,
    pub provider_type: ProviderType,
    /// Further settings; of two with one name the later counts.
    pub params: Vec<(String, String)>,
}

/// What a `ProviderConfig` says.
pub struct ConfigView {
    pub key: Seq<char>,
    pub api_key: Seq<char>,
    pub provider_type: ProviderType,
    pub params: Seq<(Seq<char>, Seq<char>)>,
}

impl View for ProviderConfig {
    type V = ConfigView;

    open spec fn view(&self) -> ConfigView {
        ConfigView {
            key: self.key@,
            api_key: self.api_key@,
            provider_type: self.provider_type,
            params: pair_views(self.params@),
        }
    }
}

impl ConfigView {
    /// A further setting.
    pub open spec fn param(self, name: Seq<char>) -> Option<Seq<char>> {
        last_pair(self.params, name)
    }

    /// A further setting, or what holds without it.
    pub open spec fn param_or(self, name: Seq<char>, otherwise: Seq<char>) -> Seq<char> {
        match self.param(name) {
            Some(v) => v,
            None => otherwise,
        }
    }
}

/// A setting that was made is found; all others are as before.
pub proof fn params_are_found(config: ConfigView, name: Seq<char>, value: Seq<char>)
    ensures
        (ConfigView { params: config.params.push((name, value)), ..config }).param(name) == Some(
            value,
        ),
        forall|other: Seq<char>|
            other != name ==> (#[trigger] (ConfigView {
                params: config.params.push((name, value)),
                ..config
            }).param(other)) == config.param(other),
{
    assert(config.params.push((name, value)).drop_last() =~= config.params);
}

impl ProviderConfig {
    pub fn new(key: String, api_key: String, provider_type: ProviderType) -> (r: Self)
        ensures
            r@ == (ConfigView {
                key: key@,
                api_key: api_key@,
                provider_type,
                params: Seq::empty(),
            }),
    {
        let r = ProviderConfig { key, api_key, provider_type, params: Vec::new() };
        assert(pair_views(r.params@) =~= Seq::empty());
        r
    }

    pub fn with_param(self, key: String, value: String) -> (r: Self)
        ensures
            r@ == (ConfigView { params: self@.params.push((key@, value@)), ..self@ }),
    {
        let mut r = self;
        push_pair(&mut r.params, key.as_str(), value.as_str());
        r
    }

    /// A further setting.
    pub fn get_param(&self, key: &str) -> (r: Option<&str>)
        ensures
            match r {
                Some(v) => self@.param(key@) == Some(v@),
                None => self@.param(key@) is None,
            },
    {
        find_last_pair(&self.params, key)
    }

    /// A further setting, or what holds without it.
    pub fn param_or(&self, key: &str, otherwise: &str) -> (r: String)
        ensures
            r@ == self@.param_or(key@, otherwise@),
    {
        match self.get_param(key) {
            Some(v) => v.to_owned(),
            None => otherwise.to_owned(),
        }
    }

    /// A copy of the settings.
    pub fn duplicate(&self) -> (r: Self)
        ensures
            r@ == self@,
    {
        let mut params: Vec<(String, String)> = Vec::new();
        let mut i: usize = 0;
        while i < self.params.len()
            invariant
                i <= self.params@.len(),
                params@.len() == i,
                forall|j: int|
                    0 <= j < i ==> (#[trigger] params@[j]).0@ == self.params@[j].0@ && params@[j].1@
                        == self.params@[j].1@,
            decreases self.params@.len() - i,
        {
            params.push((self.params[i].0.clone(), self.params[i].1.clone()));
            i = i + 1;
        }
        assert(pair_views(params@) =~= pair_views(self.params@));
        ProviderConfig {
            key: self.key.clone(),
            api_key: self.api_key.clone(),
            provider_type: self.provider_type,
            params,
        }
    }
}

/// The kinds of providers have their names, and what is recorded has names of its own.
pub proof fn providers_have_their_names()
    ensures
        ProviderType::OpenAI.name() == "openai"@,
        ProviderType::Anthropic.name() == "anthropic"@,
        ProviderType::Azure.name() == "azure"@,
        ProviderType::Bedrock.name() == "bedrock"@,
        ProviderType::VertexAI.name() == "vertexai"@,
        ProviderType::OpenRouter.name() == "openrouter"@,
        ProviderType::named("vertex_ai"@) == Some(ProviderType::VertexAI),
        ProviderType::named("open_router"@) == Some(ProviderType::OpenRouter),
        vendor_name(ProviderType::OpenAI) == "openai"@,
        vendor_name(ProviderType::Azure) == "Azure"@,
        vendor_name(ProviderType::Anthropic) == "Anthropic"@,
        vendor_name(ProviderType::Bedrock) == "AWS"@,
        vendor_name(ProviderType::VertexAI) == "Google"@,
        vendor_name(ProviderType::OpenRouter) == "OpenRouter"@,
{
    reveal_strlit("vertex_ai");
    reveal_strlit("open_router");
    reveal_strlit("anthropic");
    assert("vertex_ai"@[0] == 'v' && "anthropic"@[0] == 'a');
    provider_names_differ();
}

/// A setting that is there counts before what holds without it.
pub proof fn settings_count_first(config: ConfigView, name: Seq<char>, otherwise: Seq<char>)
    ensures
        config.param(name) is None ==> config.param_or(name, otherwise) == otherwise,
        config.param(name) matches Some(value) ==> config.param_or(name, otherwise) == value,
{
}

} // verus!
