//! The model and provider configuration that the presets fill in.
use vstd::prelude::*;
use indexmap::IndexMap;
use crate::effort::{EffortOptionView, ReasoningEffort, ReasoningEffortOption};
use crate::index_map::{header_entries, new_header_map};

verus! {

/// The wire protocol a provider speaks.
#[derive(Clone, Copy, Debug, PartialEq, Eq, Structural)]
pub enum ApiBackend {
    ChatCompletions,
    Responses,
}

/// A sampling temperature, in thousandths (1000 stands for 1.0).
#[derive(Clone, Copy, Debug, PartialEq, Eq, Structural)]
pub struct Temperature {
    pub millis: u32,
}

/// The environment variables that may hold a provider's API key, first one first.
#[derive(Clone, Debug)]
pub struct EnvKeys {
    pub keys: Vec<String>,
}

/// The names of the variables, in order.
pub open spec fn env_keys_view(e: EnvKeys) -> Seq<Seq<char>> {
    e.keys@.map_values(|k: String| k@)
}

impl EnvKeys {
    /// Names a single variable.
    pub fn single(key: &str) -> (r: EnvKeys)
        ensures
            env_keys_view(r) == seq![key@],
    {
        let keys = vec![key.to_owned()];
        let r = EnvKeys { keys };
        assert(env_keys_view(r) =~= seq![key@]);
        r
    }

    /// The first variable named, if any.
    pub fn primary(&self) -> (r: Option<&str>)
        ensures
            match r {
                Some(k) => env_keys_view(*self).len() > 0 && k@ == env_keys_view(*self)[0],
                None => env_keys_view(*self).len() == 0,
            },
    {
        if self.keys.len() == 0 {
            None
        } else {
            Some(self.keys[0].as_str())
        }
    }
}

/// The connection settings of one provider.
#[derive(Debug)]
pub struct ModelProviderConfig {
    pub base_url: Option<String>,
    pub env_key: Option<EnvKeys>,
    pub api_backend: Option<ApiBackend>,
    pub context_window: Option<u64>,
    pub extra_headers: IndexMap<String, String>,
    pub api_key: Option<String>,
}

/// A provider's settings with strings taken as character sequences and headers in order.
pub struct ProviderConfigView {
    pub base_url: Option<Seq<char>>,
    pub env_key: Option<Seq<Seq<char>>>,
    pub api_backend: Option<ApiBackend>,
    pub context_window: Option<u64>,
    pub extra_headers: Seq<(Seq<char>, Seq<char>)>,
    pub api_key: Option<Seq<char>>,
}

/// The view of an optional string.
pub open spec fn opt_view(o: Option<String>) -> Option<Seq<char>> {
    match o {
        Some(s) => Some(s@),
        None => None,
    }
}

impl View for ModelProviderConfig {
    type V = ProviderConfigView;

    open spec fn view(&self) -> ProviderConfigView {
        ProviderConfigView {
            base_url: opt_view(self.base_url),
            env_key: match self.env_key {
                Some(e) => Some(env_keys_view(e)),
                None => None,
            },
            api_backend: self.api_backend,
            context_window: self.context_window,
            extra_headers: header_entries(self.extra_headers),
            api_key: opt_view(self.api_key),
        }
    }
}

/// The settings of a provider that nobody configured.
pub open spec fn default_provider() -> ProviderConfigView {
    ProviderConfigView {
        base_url: None,
        env_key: None,
        api_backend: None,
        context_window: None,
        extra_headers: Seq::empty(),
        api_key: None,
    }
}

impl Default for ModelProviderConfig {
    fn default() -> (r: ModelProviderConfig)
        ensures
            r@ == default_provider(),
    {
        ModelProviderConfig {
            base_url: None,
            env_key: None,
            api_backend: None,
            context_window: None,
            extra_headers: new_header_map(),
            api_key: None,
        }
    }
}

/// The user's settings for one model entry; unset fields are filled from presets.
#[derive(Clone, Debug)]
pub struct ConfigModelOverride {
    pub model_provider: Option<String>,
    pub model: Option<String>,
    pub name: Option<String>,
    pub description: Option<String>,
    pub context_window: Option<u64>,
    pub temperature: Option<Temperature>,
    pub supported_in_api: Option<bool>,
    pub supports_reasoning_effort: Option<bool>,
    pub reasoning_effort: Option<ReasoningEffort>,
    pub reasoning_efforts: Vec<ReasoningEffortOption>,
}

/// A model entry with strings taken as character sequences.
pub struct ModelOverrideView {
    pub model_provider: Option<Seq<char>>,
    pub model: Option<Seq<char>>,
    pub name: Option<Seq<char>>,
    pub description: Option<Seq<char>>,
    pub context_window: Option<u64>,
    pub temperature: Option<Temperature>,
    pub supported_in_api: Option<bool>,
    pub supports_reasoning_effort: Option<bool>,
    pub reasoning_effort: Option<ReasoningEffort>,
    pub reasoning_efforts: Seq<EffortOptionView>,
}

impl View for ConfigModelOverride {
    type V = ModelOverrideView;

    open spec fn view(&self) -> ModelOverrideView {
        ModelOverrideView {
            model_provider: opt_view(self.model_provider),
            model: opt_view(self.model),
            name: opt_view(self.name),
            description: opt_view(self.description),
            context_window: self.context_window,
            temperature: self.temperature,
            supported_in_api: self.supported_in_api,
            supports_reasoning_effort: self.supports_reasoning_effort,
            reasoning_effort: self.reasoning_effort,
            reasoning_efforts: self.reasoning_efforts@.map_values(|o: ReasoningEffortOption| o@),
        }
    }
}

/// A model entry that nobody configured.
pub open spec fn default_model() -> ModelOverrideView {
    ModelOverrideView {
        model_provider: None,
        model: None,
        name: None,
        description: None,
        context_window: None,
        temperature: None,
        supported_in_api: None,
        supports_reasoning_effort: None,
        reasoning_effort: None,
        reasoning_efforts: Seq::empty(),
    }
}

impl Default for ConfigModelOverride {
    fn default() -> (r: ConfigModelOverride)
        ensures
            r@ == default_model(),
    {
        let r = ConfigModelOverride {
            model_provider: None,
            model: None,
            name: None,
            description: None,
            context_window: None,
            temperature: None,
            supported_in_api: None,
            supports_reasoning_effort: None,
            reasoning_effort: None,
            reasoning_efforts: Vec::new(),
        };
        assert(r@.reasoning_efforts =~= Seq::<EffortOptionView>::empty());
        r
    }
}

} // verus!
