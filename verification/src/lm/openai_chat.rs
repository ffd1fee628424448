//! Providers that speak OpenAI's chat completions.
use vstd::prelude::*;

use crate::text::{concat2, opt_text, pair_views, push_pair, trim_end_matches, without_trailing};

verus! {

/// Where chat completions are had, and with what key.
#[derive(Clone, Debug)]
pub struct OpenAiChatConfig {
    pub api_key: String,
    pub base_url: String,
    /// The prefix that model ids must have, if any.
    pub model_prefix: Option<String>,
    pub extra_headers: Vec<(String, String)>,
}

impl OpenAiChatConfig {
    /// Whether this is the provider at a place, with a key, for models with a prefix,
    /// without further headers.
    pub open spec fn plain(self, api_key: Seq<char>, base_url: Seq<char>, prefix: Option<Seq<char>>) -> bool {
        &&& self.api_key@ == api_key
        &&& self.base_url@ == base_url
        &&& opt_text(self.model_prefix) == prefix
        &&& pair_views(self.extra_headers@) == Seq::<(Seq<char>, Seq<char>)>::empty()
    }

    pub fn new(api_key: &str) -> (r: Self)
        ensures
            r.plain(api_key@, "https://api.openai.com/v1"@, Some("openai"@)),
    {
        let r = OpenAiChatConfig {
            api_key: api_key.to_owned(),
            base_url: "https://api.openai.com/v1".to_owned(),
            model_prefix: Some("openai".to_owned()),
            extra_headers: Vec::new(),
        };
        assert(pair_views(r.extra_headers@) =~= Seq::empty());
        r
    }

    pub fn with_base_url(self, base_url: &str) -> (r: Self)
        ensures
            r == (OpenAiChatConfig { base_url: r.base_url, ..self }),
            r.base_url@ == base_url@,
    {
        OpenAiChatConfig { base_url: base_url.to_owned(), ..self }
    }

    pub fn with_model_prefix(self, prefix: Option<&str>) -> (r: Self)
        ensures
            r == (OpenAiChatConfig { model_prefix: r.model_prefix, ..self }),
            opt_text(r.model_prefix) == (match prefix {
                Some(p) => Some(p@),
                None => None,
            }),
    {
        let model_prefix = match prefix {
            Some(p) => Some(p.to_owned()),
            None => None,
        };
        OpenAiChatConfig { model_prefix, ..self }
    }

    pub fn with_header(self, key: &str, value: &str) -> (r: Self)
        ensures
            r == (OpenAiChatConfig { extra_headers: r.extra_headers, ..self }),
            pair_views(r.extra_headers@) == pair_views(self.extra_headers@).push((key@, value@)),
    {
        let mut r = self;
        push_pair(&mut r.extra_headers, key, value);
        r
    }

    /// Where chat completions are had.
    pub fn endpoint(&self) -> (r: String)
        ensures
            r@ == without_trailing(self.base_url@, '/') + "/chat/completions"@,
    {
        let base = trim_end_matches(self.base_url.as_str(), '/');
        concat2(base.as_str(), "/chat/completions")
    }
}

/// A plain provider has its key, its place and its prefix, and no further headers.
pub proof fn plain_providers(
    config: OpenAiChatConfig,
    api_key: Seq<char>,
    base_url: Seq<char>,
    prefix: Option<Seq<char>>,
)
    ensures
        config.plain(api_key, base_url, prefix) <==> config.api_key@ == api_key && config.base_url@
            == base_url && opt_text(config.model_prefix) == prefix
            && config.extra_headers@.len() == 0,
{
    if config.extra_headers@.len() == 0 {
        assert(pair_views(config.extra_headers@) =~= Seq::empty());
    }
    if config.plain(api_key, base_url, prefix) {
        assert(pair_views(config.extra_headers@).len() == 0);
    }
}

} // verus!
