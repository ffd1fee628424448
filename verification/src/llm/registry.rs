//! Providers under their names. `T` stands for a provider.
use vstd::prelude::*;
use vstd::string::*;

use super::provider::{provider_names_differ, ConfigView, ProviderConfig, ProviderType};
use crate::error::{other_error, ErrorView, SdkError};
use crate::registry::{names, Registry};
use crate::text::{concat2, opt_text, pair_views, push_pair, texts};

verus! {

/// What the environment says of providers.
#[derive(Debug)]
pub struct LlmEnvironment {
    /// `OPENAI_API_KEY`
    pub openai_api_key: Option<String>,
    /// `OPENAI_BASE_URL`
    pub openai_base_url: Option<String>,
    /// `ANTHROPIC_API_KEY`
    pub anthropic_api_key: Option<String>,
    /// `AZURE_OPENAI_API_KEY`
    pub azure_api_key: Option<String>,
    /// `AZURE_OPENAI_ENDPOINT`
    pub azure_endpoint: Option<String>,
    /// `AZURE_OPENAI_API_VERSION`
    pub azure_api_version: Option<String>,
    /// `AWS_ACCESS_KEY_ID`
    pub aws_access_key_id: Option<String>,
    /// `AWS_PROFILE`
    pub aws_profile: Option<String>,
    /// `AWS_REGION`
    pub aws_region: Option<String>,
    /// `GEMINI_API_KEY`
    pub gemini_api_key: Option<String>,
    /// `GOOGLE_CLOUD_PROJECT`
    pub google_project: Option<String>,
    /// `GOOGLE_CLOUD_LOCATION`
    pub google_location: Option<String>,
    /// `OPENROUTER_API_KEY`
    pub openrouter_api_key: Option<String>,
    /// `OPENROUTER_BASE_URL`
    pub openrouter_base_url: Option<String>,
    /// `OPENROUTER_DEFAULT_MODELS`
    pub openrouter_default_models: Option<String>,
    /// `OPENROUTER_APP_NAME`
    pub openrouter_app_name: Option<String>,
    /// `OPENROUTER_REFERER`
    pub openrouter_referer: Option<String>,
    /// `OPENROUTER_ROUTE`
    pub openrouter_route: Option<String>,
}

/// A setting, if there is a value for it.
pub open spec fn param_if(name: Seq<char>, value: Option<String>) -> Seq<(Seq<char>, Seq<char>)> {
    match value {
        Some(v) => seq![(name, v@)],
        None => Seq::empty(),
    }
}

/// A value, or another.
pub open spec fn value_or(value: Option<String>, otherwise: Seq<char>) -> Seq<char> {
    match value {
        Some(v) => v@,
        None => otherwise,
    }
}

/// No settings.
pub open spec fn no_params() -> Seq<(Seq<char>, Seq<char>)> {
    Seq::empty()
}

/// The settings of a provider that the environment gives, if it gives them.
pub open spec fn config_for(env: LlmEnvironment, t: ProviderType) -> Option<ConfigView> {
    match t {
        ProviderType::OpenAI => match env.openai_api_key {
            Some(api_key) => Some(
                ConfigView {
                    key: "openai"@,
                    api_key: api_key@,
                    provider_type: t,
                    params: no_params() + param_if("base_url"@, env.openai_base_url),
                },
            ),
            None => None,
        },
        ProviderType::Anthropic => match env.anthropic_api_key {
            Some(api_key) => Some(
                ConfigView {
                    key: "anthropic"@,
                    api_key: api_key@,
                    provider_type: t,
                    params: no_params(),
                },
            ),
            None => None,
        },
        ProviderType::Azure => match (env.azure_api_key, env.azure_endpoint) {
            (Some(api_key), Some(endpoint)) => Some(
                ConfigView {
                    key: "azure"@,
                    api_key: api_key@,
                    provider_type: t,
                    params: no_params().push(("endpoint"@, endpoint@)) + param_if(
                        "api_version"@,
                        env.azure_api_version,
                    ),
                },
            ),
            _ => None,
        },
        ProviderType::Bedrock => if env.aws_access_key_id is Some || env.aws_profile is Some
            || env.aws_region is Some {
            Some(
                ConfigView {
                    key: "bedrock"@,
                    api_key: "aws_credentials"@,
                    provider_type: t,
                    params: no_params().push(("region"@, value_or(env.aws_region, "us-east-1"@))),
                },
            )
        } else {
            None
        },
        ProviderType::VertexAI => match env.gemini_api_key {
            Some(api_key) => Some(
                ConfigView {
                    key: "vertexai"@,
                    api_key: api_key@,
                    provider_type: t,
                    params: (no_params() + param_if("project_id"@, env.google_project)).push(
                        ("location"@, value_or(env.google_location, "us-central1"@)),
                    ),
                },
            ),
            None => None,
        },
        ProviderType::OpenRouter => match env.openrouter_api_key {
            Some(api_key) => Some(
                ConfigView {
                    key: "openrouter"@,
                    api_key: api_key@,
                    provider_type: t,
                    params: no_params() + param_if("base_url"@, env.openrouter_base_url) + param_if(
                        "default_models"@,
                        env.openrouter_default_models,
                    ) + param_if("app_name"@, env.openrouter_app_name) + param_if(
                        "referer"@,
                        env.openrouter_referer,
                    ) + param_if("route"@, env.openrouter_route),
                },
            ),
            None => None,
        },
    }
}

fn add_param(params: &mut Vec<(String, String)>, name: &str, value: &Option<String>)
    ensures
        pair_views(final(params)@) == pair_views(old(params)@) + param_if(name@, *value),
{
    let ghost before = pair_views(params@);
    match value {
        Some(v) => {
            push_pair(params, name, v.as_str());
            assert(pair_views(params@) =~= before + seq![(name@, v@)]);
        },
        None => {
            assert(before + no_params() =~= before);
        },
    }
}

fn or_else(value: &Option<String>, otherwise: &str) -> (r: String)
    ensures
        r@ == value_or(*value, otherwise@),
{
    match value {
        Some(v) => v.clone(),
        None => otherwise.to_owned(),
    }
}

/// The settings of a provider that the environment gives, if it gives them.
pub fn provider_config(env: &LlmEnvironment, t: ProviderType) -> (r: Option<ProviderConfig>)
    ensures
        match r {
            Some(config) => config_for(*env, t) == Some(config@),
            None => config_for(*env, t) is None,
        },
{
    let mut params: Vec<(String, String)> = Vec::new();
    assert(pair_views(params@) =~= no_params());
    let api_key = match t {
        ProviderType::OpenAI => match &env.openai_api_key {
            Some(api_key) => {
                add_param(&mut params, "base_url", &env.openai_base_url);
                api_key.clone()
            },
            None => return None,
        },
        ProviderType::Anthropic => match &env.anthropic_api_key {
            Some(api_key) => api_key.clone(),
            None => return None,
        },
        ProviderType::Azure => match (&env.azure_api_key, &env.azure_endpoint) {
            (Some(api_key), Some(endpoint)) => {
                push_pair(&mut params, "endpoint", endpoint.as_str());
                add_param(&mut params, "api_version", &env.azure_api_version);
                api_key.clone()
            },
            _ => return None,
        },
        ProviderType::Bedrock => {
            if env.aws_access_key_id.is_none() && env.aws_profile.is_none()
                && env.aws_region.is_none() {
                return None;
            }
            let region = or_else(&env.aws_region, "us-east-1");
            push_pair(&mut params, "region", region.as_str());
            "aws_credentials".to_owned()
        },
        ProviderType::VertexAI => match &env.gemini_api_key {
            Some(api_key) => {
                add_param(&mut params, "project_id", &env.google_project);
                let location = or_else(&env.google_location, "us-central1");
                push_pair(&mut params, "location", location.as_str());
                api_key.clone()
            },
            None => return None,
        },
        ProviderType::OpenRouter => match &env.openrouter_api_key {
            Some(api_key) => {
                add_param(&mut params, "base_url", &env.openrouter_base_url);
                add_param(&mut params, "default_models", &env.openrouter_default_models);
                add_param(&mut params, "app_name", &env.openrouter_app_name);
                add_param(&mut params, "referer", &env.openrouter_referer);
                add_param(&mut params, "route", &env.openrouter_route);
                api_key.clone()
            },
            None => return None,
        },
    };
    Some(ProviderConfig { key: t.as_str().to_owned(), api_key, provider_type: t, params })
}

/// The first kind of provider that the environment gives.
pub open spec fn first_given(env: LlmEnvironment) -> Option<Seq<char>> {
    if config_for(env, ProviderType::OpenAI) is Some {
        Some("openai"@)
    } else if config_for(env, ProviderType::Anthropic) is Some {
        Some("anthropic"@)
    } else if config_for(env, ProviderType::Azure) is Some {
        Some("azure"@)
    } else if config_for(env, ProviderType::Bedrock) is Some {
        Some("bedrock"@)
    } else if config_for(env, ProviderType::VertexAI) is Some {
        Some("vertexai"@)
    } else if config_for(env, ProviderType::OpenRouter) is Some {
        Some("openrouter"@)
    } else {
        None
    }
}

/// Whether a provider was made from settings.
pub open spec fn made_from<T, M: Fn(ProviderConfig) -> T>(
    make: M,
    config: ConfigView,
    provider: T,
) -> bool {
    exists|c: ProviderConfig| c@ == config && call_ensures(make, (c,), provider)
}

/// What stands under the name of a kind of provider once the environment was read:
/// a provider made from the settings it gives, or what was there.
pub open spec fn loaded<T, M: Fn(ProviderConfig) -> T>(
    before: Registry<T>,
    after: Registry<T>,
    env: LlmEnvironment,
    make: M,
    t: ProviderType,
) -> bool {
    match config_for(env, t) {
        Some(config) => after.value(t.name()) matches Some(p) && made_from(make, config, p),
        None => after.value(t.name()) == before.value(t.name()),
    }
}

/// Providers under their names, one of which may be the default.
#[derive(Debug)]
pub struct LlmRegistry<T> {
    pub inner: Registry<T>,
}

impl<T> LlmRegistry<T> {
    /// No name stands there twice.
    pub open spec fn well_formed(self) -> bool {
        self.inner.well_formed()
    }

    pub fn new() -> (r: Self)
        ensures
            r.well_formed(),
            r.inner.entries@.len() == 0,
            r.inner.default_name is None,
            forall|name: Seq<char>| r.inner.value(name) is None,
    {
        LlmRegistry { inner: Registry::new() }
    }

    /// Puts a provider under a name, in place of what was there.
    pub fn register_provider(&mut self, name: &str, provider: T)
        requires
            old(self).well_formed(),
        ensures
            final(self).well_formed(),
            final(self).inner.default_name == old(self).inner.default_name,
            final(self).inner.value(name@) == Some(provider),
            forall|other: Seq<char>|
                other != name@ ==> #[trigger] final(self).inner.value(other) == old(
                    self,
                ).inner.value(other),
    {
        self.inner.register(name, provider);
    }

    /// The provider under a name.
    pub fn get_provider(&self, name: &str) -> (r: Option<&T>)
        ensures
            match r {
                Some(v) => self.inner.value(name@) == Some(*v),
                None => self.inner.value(name@) is None,
            },
    {
        self.inner.get(name)
    }

    /// The provider under a name, or an error that says that there is none.
    pub fn require_provider(&self, name: &str) -> (r: Result<&T, SdkError>)
        ensures
            match r {
                Ok(v) => self.inner.value(name@) == Some(*v),
                Err(e) => self.inner.value(name@) is None && e@ == ErrorView::Other(
                    "Provider not found: "@ + name@,
                ),
            },
    {
        match self.inner.get(name) {
            Some(v) => Ok(v),
            None => Err(SdkError::Other(concat2("Provider not found: ", name))),
        }
    }

    /// Makes the provider under a name the default.
    pub fn set_default_provider(&mut self, name: &str) -> (r: Result<(), SdkError>)
        ensures
            final(self).inner.entries == old(self).inner.entries,
            match r {
                Ok(_) => old(self).inner.value(name@) is Some && opt_text(
                    final(self).inner.default_name,
                ) == Some(name@),
                Err(e) => {
                    &&& old(self).inner.value(name@) is None
                    &&& final(self).inner.default_name == old(self).inner.default_name
                    &&& e@ == ErrorView::Other("Provider not found: "@ + name@)
                },
            },
    {
        self.inner.set_default(name, "Provider not found: ")
    }

    /// The default provider.
    pub fn get_default_provider(&self) -> (r: Option<&T>)
        ensures
            match r {
                Some(v) => self.inner.default_value() == Some(*v),
                None => self.inner.default_value() is None,
            },
    {
        self.inner.get_default()
    }

    /// All names, each once.
    pub fn list_providers(&self) -> (r: Vec<String>)
        ensures
            texts(r@) == names(self.inner.entries@),
    {
        self.inner.list()
    }

    /// Takes the provider under a name away. If it was the default, there is none
    /// after.
    pub fn remove_provider(&mut self, name: &str) -> (r: Option<T>)
        requires
            old(self).well_formed(),
        ensures
            final(self).well_formed(),
            r == old(self).inner.value(name@),
            final(self).inner.value(name@) is None,
            forall|other: Seq<char>|
                other != name@ ==> #[trigger] final(self).inner.value(other) == old(
                    self,
                ).inner.value(other),
            final(self).inner.default_name == (if opt_text(old(self).inner.default_name) == Some(
                name@,
            ) {
                None
            } else {
                old(self).inner.default_name
            }),
    {
        self.inner.remove(name)
    }

    /// Takes everything away.
    pub fn clear(&mut self)
        ensures
            final(self).well_formed(),
            final(self).inner.entries@.len() == 0,
            final(self).inner.default_name is None,
            forall|name: Seq<char>| final(self).inner.value(name) is None,
    {
        self.inner.clear();
    }

    /// Whether there is a provider under a name.
    pub fn has_provider(&self, name: &str) -> (r: bool)
        ensures
            r == self.inner.value(name@) is Some,
    {
        self.inner.contains(name)
    }

    /// How many providers there are.
    pub fn provider_count(&self) -> (r: usize)
        ensures
            r == self.inner.entries@.len(),
    {
        self.inner.entries.len()
    }

    /// Takes in the provider that the environment gives of one kind: whether it does.
    fn load_one<M: Fn(ProviderConfig) -> T>(
        &mut self,
        env: &LlmEnvironment,
        make: &M,
        t: ProviderType,
    ) -> (r: bool)
        requires
            old(self).well_formed(),
            forall|c: ProviderConfig| #[trigger] call_requires(*make, (c,)),
        ensures
            final(self).well_formed(),
            r == config_for(*env, t) is Some,
            loaded(old(self).inner, final(self).inner, *env, *make, t),
            forall|other: Seq<char>|
                other != t.name() ==> #[trigger] final(self).inner.value(other) == old(
                    self,
                ).inner.value(other),
            opt_text(final(self).inner.default_name) == (if r && old(
                self,
            ).inner.default_name is None {
                Some(t.name())
            } else {
                opt_text(old(self).inner.default_name)
            }),
    {
        match provider_config(env, t) {
            Some(config) => {
                let ghost view = config@;
                let provider = make(config);
                assert(made_from(*make, view, provider));
                self.inner.register(t.as_str(), provider);
                if self.inner.default_name.is_none() {
                    let ghost registered = self.inner;
                    self.inner.default_name = Some(t.as_str().to_owned());
                    assert forall|other: Seq<char>| #[trigger]
                        self.inner.value(other) == registered.value(other) by {}
                }
                true
            },
            None => false,
        }
    }

    /// Takes in the providers that the environment gives, each made from its
    /// settings by `make`. The first of them is the default where there was none.
    pub fn load_from_environment<M: Fn(ProviderConfig) -> T>(
        &mut self,
        env: &LlmEnvironment,
        make: M,
    ) -> (r: Result<(), SdkError>)
        requires
            old(self).well_formed(),
            forall|c: ProviderConfig| #[trigger] call_requires(make, (c,)),
        ensures
            final(self).well_formed(),
            forall|t: ProviderType|
                #[trigger] loaded(old(self).inner, final(self).inner, *env, make, t),
            forall|name: Seq<char>|
                (forall|t: ProviderType| name != #[trigger] t.name()) ==> #[trigger]
                    final(self).inner.value(name) == old(self).inner.value(name),
            opt_text(final(self).inner.default_name) == (match old(self).inner.default_name {
                Some(name) => Some(name@),
                None => first_given(*env),
            }),
            match r {
                Ok(_) => first_given(*env) is Some,
                Err(e) => first_given(*env) is None && e@ == ErrorView::Other(
                    "No LLM providers available"@,
                ),
            },
    {
        proof {
            provider_names_differ();
        }
        let openai = self.load_one(env, &make, ProviderType::OpenAI);
        let anthropic = self.load_one(env, &make, ProviderType::Anthropic);
        let azure = self.load_one(env, &make, ProviderType::Azure);
        let bedrock = self.load_one(env, &make, ProviderType::Bedrock);
        let vertexai = self.load_one(env, &make, ProviderType::VertexAI);
        let openrouter = self.load_one(env, &make, ProviderType::OpenRouter);
        proof {
            assert forall|t: ProviderType|
                #[trigger] loaded(old(self).inner, self.inner, *env, make, t) by {
                match t {
                    ProviderType::OpenAI => {},
                    ProviderType::Anthropic => {},
                    ProviderType::Azure => {},
                    ProviderType::Bedrock => {},
                    ProviderType::VertexAI => {},
                    ProviderType::OpenRouter => {},
                }
            }
            assert forall|name: Seq<char>|
                (forall|t: ProviderType| name != #[trigger] t.name()) implies #[trigger]
                self.inner.value(name) == old(self).inner.value(name) by {
                assert(name != ProviderType::OpenAI.name());
                assert(name != ProviderType::Anthropic.name());
                assert(name != ProviderType::Azure.name());
                assert(name != ProviderType::Bedrock.name());
                assert(name != ProviderType::VertexAI.name());
                assert(name != ProviderType::OpenRouter.name());
            }
        }
        if openai || anthropic || azure || bedrock || vertexai || openrouter {
            Ok(())
        } else {
            Err(other_error("No LLM providers available"))
        }
    }
}

/// The environment gives a provider by its key, and with a key what else it sets; Azure
/// needs a place too, and Amazon only some setting of its own.
pub proof fn providers_are_given_by_their_keys(env: LlmEnvironment)
    ensures
        config_for(env, ProviderType::OpenAI) is Some <==> env.openai_api_key is Some,
        config_for(env, ProviderType::Anthropic) is Some <==> env.anthropic_api_key is Some,
        config_for(env, ProviderType::Azure) is Some <==> env.azure_api_key is Some
            && env.azure_endpoint is Some,
        config_for(env, ProviderType::Bedrock) is Some <==> env.aws_access_key_id is Some
            || env.aws_profile is Some || env.aws_region is Some,
        config_for(env, ProviderType::VertexAI) is Some <==> env.gemini_api_key is Some,
        config_for(env, ProviderType::OpenRouter) is Some <==> env.openrouter_api_key is Some,
        forall|t: ProviderType|
            (#[trigger] config_for(env, t)) matches Some(config) ==> config.key == t.name()
                && config.provider_type == t,
        config_for(env, ProviderType::OpenAI) matches Some(c) ==> c.api_key
            == env.openai_api_key->0@,
        config_for(env, ProviderType::Anthropic) matches Some(c) ==> c.api_key
            == env.anthropic_api_key->0@,
        config_for(env, ProviderType::Azure) matches Some(c) ==> c.api_key == env.azure_api_key->0@,
        config_for(env, ProviderType::VertexAI) matches Some(c) ==> c.api_key
            == env.gemini_api_key->0@,
        config_for(env, ProviderType::OpenRouter) matches Some(c) ==> c.api_key
            == env.openrouter_api_key->0@,
{
}

proof fn found_pushed(
    pairs: Seq<(Seq<char>, Seq<char>)>,
    name: Seq<char>,
    value: Seq<char>,
    other: Seq<char>,
)
    ensures
        crate::text::last_pair(pairs.push((name, value)), name) == Some(value),
        other != name ==> crate::text::last_pair(pairs.push((name, value)), other)
            == crate::text::last_pair(pairs, other),
{
    assert(pairs.push((name, value)).drop_last() =~= pairs);
}

proof fn found_last(
    pairs: Seq<(Seq<char>, Seq<char>)>,
    name: Seq<char>,
    value: Option<String>,
    other: Seq<char>,
)
    ensures
        value matches Some(v) ==> crate::text::last_pair(pairs + param_if(name, value), name)
            == Some(v@),
        value is None || other != name ==> crate::text::last_pair(
            pairs + param_if(name, value),
            other,
        ) == crate::text::last_pair(pairs, other),
{
    match value {
        Some(v) => {
            assert(pairs + param_if(name, value) =~= pairs.push((name, v@)));
            found_pushed(pairs, name, v@, other);
        },
        None => {
            assert(pairs + param_if(name, value) =~= pairs);
        },
    }
}

/// What else the environment sets of a provider is found under its name.
pub proof fn settings_are_found_by_name(env: LlmEnvironment)
    ensures
        config_for(env, ProviderType::OpenAI) is Some && env.openai_base_url is Some ==> config_for(
            env,
            ProviderType::OpenAI,
        )->0.param("base_url"@) == Some(env.openai_base_url->0@),
        config_for(env, ProviderType::Azure) is Some && env.azure_api_version is Some
            ==> config_for(env, ProviderType::Azure)->0.param("api_version"@) == Some(
            env.azure_api_version->0@,
        ),
        config_for(env, ProviderType::Azure) is Some ==> config_for(
            env,
            ProviderType::Azure,
        )->0.param("endpoint"@) == Some(env.azure_endpoint->0@),
        config_for(env, ProviderType::Bedrock) is Some && env.aws_region is Some ==> config_for(
            env,
            ProviderType::Bedrock,
        )->0.param("region"@) == Some(env.aws_region->0@),
        config_for(env, ProviderType::Bedrock) is Some && env.aws_region is None ==> config_for(
            env,
            ProviderType::Bedrock,
        )->0.param("region"@) == Some("us-east-1"@),
        config_for(env, ProviderType::VertexAI) is Some && env.google_location is Some
            ==> config_for(env, ProviderType::VertexAI)->0.param("location"@) == Some(
            env.google_location->0@,
        ),
        config_for(env, ProviderType::VertexAI) is Some && env.google_location is None
            ==> config_for(env, ProviderType::VertexAI)->0.param("location"@) == Some(
            "us-central1"@,
        ),
        config_for(env, ProviderType::VertexAI) is Some && env.google_project is Some
            ==> config_for(env, ProviderType::VertexAI)->0.param("project_id"@) == Some(
            env.google_project->0@,
        ),
        config_for(env, ProviderType::OpenRouter) is Some && env.openrouter_route is Some
            ==> config_for(env, ProviderType::OpenRouter)->0.param("route"@) == Some(
            env.openrouter_route->0@,
        ),
        config_for(env, ProviderType::OpenRouter) is Some && env.openrouter_base_url is Some
            ==> config_for(env, ProviderType::OpenRouter)->0.param("base_url"@) == Some(
            env.openrouter_base_url->0@,
        ),
        config_for(env, ProviderType::OpenRouter) is Some && env.openrouter_default_models is Some
            ==> config_for(env, ProviderType::OpenRouter)->0.param("default_models"@) == Some(
            env.openrouter_default_models->0@,
        ),
        config_for(env, ProviderType::OpenRouter) is Some && env.openrouter_app_name is Some
            ==> config_for(env, ProviderType::OpenRouter)->0.param("app_name"@) == Some(
            env.openrouter_app_name->0@,
        ),
        config_for(env, ProviderType::OpenRouter) is Some && env.openrouter_referer is Some
            ==> config_for(env, ProviderType::OpenRouter)->0.param("referer"@) == Some(
            env.openrouter_referer->0@,
        ),
{
    reveal_strlit("base_url");
    reveal_strlit("api_version");
    reveal_strlit("endpoint");
    reveal_strlit("region");
    reveal_strlit("location");
    reveal_strlit("project_id");
    reveal_strlit("default_models");
    reveal_strlit("app_name");
    reveal_strlit("referer");
    reveal_strlit("route");
    assert("base_url"@.len() == 8
        && "api_version"@.len() == 11
        && "endpoint"@.len() == 8
        && "region"@.len() == 6
        && "location"@.len() == 8
        && "project_id"@.len() == 10
        && "default_models"@.len() == 14
        && "app_name"@.len() == 8
        && "referer"@.len() == 7
        && "route"@.len() == 5
        && "base_url"@[0] == 'b'
        && "endpoint"@[0] == 'e'
        && "location"@[0] == 'l'
        && "app_name"@[0] == 'a');
    found_last(no_params(), "base_url"@, env.openai_base_url, "base_url"@);
    if env.azure_endpoint is Some {
        let one = no_params().push(("endpoint"@, env.azure_endpoint->0@));
        found_pushed(no_params(), "endpoint"@, env.azure_endpoint->0@, "endpoint"@);
        found_last(one, "api_version"@, env.azure_api_version, "endpoint"@);
    }
    found_pushed(
        no_params(),
        "region"@,
        value_or(env.aws_region, "us-east-1"@),
        "region"@,
    );
    let project = no_params() + param_if("project_id"@, env.google_project);
    found_last(no_params(), "project_id"@, env.google_project, "project_id"@);
    found_pushed(
        project,
        "location"@,
        value_or(env.google_location, "us-central1"@),
        "project_id"@,
    );
    let a = no_params() + param_if("base_url"@, env.openrouter_base_url);
    let b = a + param_if("default_models"@, env.openrouter_default_models);
    let c = b + param_if("app_name"@, env.openrouter_app_name);
    let d = c + param_if("referer"@, env.openrouter_referer);
    found_last(no_params(), "base_url"@, env.openrouter_base_url, "base_url"@);
    found_last(a, "default_models"@, env.openrouter_default_models, "base_url"@);
    found_last(b, "app_name"@, env.openrouter_app_name, "base_url"@);
    found_last(b, "app_name"@, env.openrouter_app_name, "default_models"@);
    found_last(c, "referer"@, env.openrouter_referer, "base_url"@);
    found_last(c, "referer"@, env.openrouter_referer, "default_models"@);
    found_last(c, "referer"@, env.openrouter_referer, "app_name"@);
    found_last(d, "route"@, env.openrouter_route, "base_url"@);
    found_last(d, "route"@, env.openrouter_route, "default_models"@);
    found_last(d, "route"@, env.openrouter_route, "app_name"@);
    found_last(d, "route"@, env.openrouter_route, "referer"@);
}

/// The default is the first that is given, in this order: OpenAI, Anthropic, Azure, Amazon,
/// Google, OpenRouter.
pub proof fn defaults_have_their_order(env: LlmEnvironment)
    ensures
        env.openai_api_key is Some ==> first_given(env) == Some("openai"@),
        env.openai_api_key is None && env.anthropic_api_key is Some ==> first_given(env) == Some(
            "anthropic"@,
        ),
        env.openai_api_key is None && env.anthropic_api_key is None && env.azure_api_key is Some
            && env.azure_endpoint is Some ==> first_given(env) == Some("azure"@),
        env.openai_api_key is None && env.anthropic_api_key is None && (env.azure_api_key is None
            || env.azure_endpoint is None) && (env.aws_access_key_id is Some
            || env.aws_profile is Some || env.aws_region is Some) ==> first_given(env) == Some(
            "bedrock"@,
        ),
        first_given(env) == Some("vertexai"@) ==> env.gemini_api_key is Some,
        first_given(env) == Some("openrouter"@) ==> env.gemini_api_key is None
            && env.openrouter_api_key is Some,
        first_given(env) is None <==> forall|t: ProviderType|
            (#[trigger] config_for(env, t)) is None,
{
    super::provider::provider_names_differ();
    if first_given(env) is None {
        assert forall|t: ProviderType| (#[trigger] config_for(env, t)) is None by {}
    }
}

/// What the environment gives stands under its name, made from its settings; what it does
/// not give stays as it was.
pub proof fn what_is_given_is_loaded<T, M: Fn(ProviderConfig) -> T>(
    before: Registry<T>,
    after: Registry<T>,
    env: LlmEnvironment,
    make: M,
    t: ProviderType,
)
    requires
        loaded(before, after, env, make, t),
    ensures
        config_for(env, t) is None ==> after.value(t.name()) == before.value(t.name()),
        config_for(env, t) is Some ==> after.value(t.name()) is Some && made_from(
            make,
            config_for(env, t)->0,
            after.value(t.name())->0,
        ),
{
}

} // verus!
