//! The provider presets and their names.
use vstd::prelude::*;
use crate::catalog::preset_values;
use crate::text::{chars_equal_str, lower, lowercase_chars, trim, trimmed_chars};

verus! {

/// The environment variable that selects provider presets.
pub const GROK_PROVIDER_ENV: &'static str = "GROK_PROVIDER";

/// A third-party model provider with built-in defaults and a model catalog.
#[derive(Clone, Copy, Debug, PartialEq, Eq, Structural)]
pub enum ProviderPreset {
    Glm,
    Kimi,
    Minimax,
    Openai,
    Openrouter,
    Longcat,
}

/// The preset a provider name selects: case and surrounding whitespace do not matter,
/// and `zai` and `zhipu` also name GLM.
pub open spec fn preset_named(name: Seq<char>) -> Option<ProviderPreset> {
    let n = lower(trim(name));
    if n == "glm"@ || n == "zai"@ || n == "zhipu"@ {
        Some(ProviderPreset::Glm)
    } else if n == "kimi"@ {
        Some(ProviderPreset::Kimi)
    } else if n == "minimax"@ {
        Some(ProviderPreset::Minimax)
    } else if n == "openai"@ {
        Some(ProviderPreset::Openai)
    } else if n == "openrouter"@ {
        Some(ProviderPreset::Openrouter)
    } else if n == "longcat"@ {
        Some(ProviderPreset::Longcat)
    } else {
        None
    }
}

/// The name under which a preset's provider settings are kept.
pub open spec fn preset_name(p: ProviderPreset) -> Seq<char> {
    match p {
        ProviderPreset::Glm => "glm"@,
        ProviderPreset::Kimi => "kimi"@,
        ProviderPreset::Minimax => "minimax"@,
        ProviderPreset::Openai => "openai"@,
        ProviderPreset::Openrouter => "openrouter"@,
        ProviderPreset::Longcat => "longcat"@,
    }
}

/// The URL of a preset's OpenAI-compatible model-list API.
pub open spec fn preset_discovery_url(p: ProviderPreset) -> Seq<char> {
    match p {
        ProviderPreset::Glm => "https://api.z.ai/api/coding/paas/v4/models"@,
        ProviderPreset::Kimi => "https://api.kimi.com/coding/v1/models"@,
        ProviderPreset::Minimax => "https://api.minimax.io/v1/models"@,
        ProviderPreset::Openai => "https://api.openai.com/v1/models"@,
        ProviderPreset::Openrouter => "https://openrouter.ai/api/v1/models?output_modalities=text&supported_parameters=tools"@,
        ProviderPreset::Longcat => "https://api.longcat.chat/openai/v1/models"@,
    }
}

impl ProviderPreset {
    /// Every preset, in the order discovery visits them.
    pub const ALL: [ProviderPreset; 6] = [
        ProviderPreset::Glm,
        ProviderPreset::Kimi,
        ProviderPreset::Minimax,
        ProviderPreset::Openai,
        ProviderPreset::Openrouter,
        ProviderPreset::Longcat,
    ];

    /// The preset a provider name selects, if any.
    pub fn from_name(name: &str) -> (r: Option<ProviderPreset>)
        ensures
            r == preset_named(name@),
    {
        let n = lowercase_chars(&trimmed_chars(name));
        if chars_equal_str(&n, "glm") || chars_equal_str(&n, "zai") || chars_equal_str(&n, "zhipu") {
            Some(ProviderPreset::Glm)
        } else if chars_equal_str(&n, "kimi") {
            Some(ProviderPreset::Kimi)
        } else if chars_equal_str(&n, "minimax") {
            Some(ProviderPreset::Minimax)
        } else if chars_equal_str(&n, "openai") {
            Some(ProviderPreset::Openai)
        } else if chars_equal_str(&n, "openrouter") {
            Some(ProviderPreset::Openrouter)
        } else if chars_equal_str(&n, "longcat") {
            Some(ProviderPreset::Longcat)
        } else {
            None
        }
    }

    /// The name under which the preset's provider settings are kept.
    pub fn canonical_name(self) -> (r: &'static str)
        ensures
            r@ == preset_name(self),
    {
        match self {
            ProviderPreset::Glm => "glm",
            ProviderPreset::Kimi => "kimi",
            ProviderPreset::Minimax => "minimax",
            ProviderPreset::Openai => "openai",
            ProviderPreset::Openrouter => "openrouter",
            ProviderPreset::Longcat => "longcat",
        }
    }

    /// The environment variable that holds the preset's API key.
    pub fn env_key(self) -> (r: &'static str)
        ensures
            r == preset_values(self).env_key,
    {
        self.values().env_key
    }

    /// Whether the model-list API needs an API key; OpenRouter's does not.
    pub fn discovery_requires_auth(self) -> (r: bool)
        ensures
            r == (self != ProviderPreset::Openrouter),
    {
        self != ProviderPreset::Openrouter
    }

    /// The URL of the preset's model-list API.
    pub fn discovery_url(self) -> (r: &'static str)
        ensures
            r@ == preset_discovery_url(self),
    {
        match self {
            ProviderPreset::Glm => "https://api.z.ai/api/coding/paas/v4/models",
            ProviderPreset::Kimi => "https://api.kimi.com/coding/v1/models",
            ProviderPreset::Minimax => "https://api.minimax.io/v1/models",
            ProviderPreset::Openai => "https://api.openai.com/v1/models",
            ProviderPreset::Openrouter => "https://openrouter.ai/api/v1/models?output_modalities=text&supported_parameters=tools",
            ProviderPreset::Longcat => "https://api.longcat.chat/openai/v1/models",
        }
    }
}

} // verus!
