//! Refreshing the preset catalogs from the providers' model-list APIs: which presets
//! to ask, with which key, how to clean what they answer, and how to merge it in.
use vstd::prelude::*;
use indexmap::IndexMap;
use crate::config::{
    default_model, env_keys_view, opt_view, ConfigModelOverride, EnvKeys, ModelOverrideView,
    ModelProviderConfig, ProviderConfigView,
};
use crate::defaults::{or_insert, with_model_defaults};
use crate::index_map::{
    has_key, model_entries, model_index_of, model_insert, model_replace_at, provider_at,
    provider_entries, provider_index_of, upsert,
};
use crate::preset::{preset_name, preset_named, ProviderPreset};
use crate::sanitize::{is_safe_model_id, safe_model_id, sanitize_catalog_text, sanitized_text};
use crate::text::{
    contains_str, chars_equal_str, is_blank, is_nonblank, lower, lowercase_chars, has_infix,
    has_prefix, starts_with_str, str_chars, string_from_chars, trim, trimmed_chars,
};

verus! {

/// Largest model-list response accepted, in bytes (16 MiB).
pub const MAX_PROVIDER_CATALOG_BYTES: u64 = 16 * 1024 * 1024;

/// Most models kept from one model-list response.
pub const MAX_PROVIDER_MODELS: usize = 5_000;

/// Longest model name kept from a catalog, in characters.
pub const MAX_MODEL_NAME_CHARS: usize = 256;

/// Longest model description kept from a catalog, in characters.
pub const MAX_MODEL_DESCRIPTION_CHARS: usize = 2_048;

/// Largest context window believed from a catalog, in tokens.
pub const MAX_DISCOVERED_CONTEXT: u64 = 100_000_000;

/// One model as a model-list API describes it.
#[derive(Debug)]
pub struct DiscoveredModel {
    pub id: String,
    pub name: Option<String>,
    pub description: Option<String>,
    pub context_length: Option<u64>,
}

/// The body of a model-list response.
#[derive(Debug)]
pub struct ProviderModelsResponse {
    pub data: Vec<DiscoveredModel>,
}

/// A discovered model with strings taken as character sequences.
pub struct DiscoveredModelView {
    pub id: Seq<char>,
    pub name: Option<Seq<char>>,
    pub description: Option<Seq<char>>,
    pub context_length: Option<u64>,
}

impl View for DiscoveredModel {
    type V = DiscoveredModelView;

    open spec fn view(&self) -> DiscoveredModelView {
        DiscoveredModelView {
            id: self.id@,
            name: opt_view(self.name),
            description: opt_view(self.description),
            context_length: self.context_length,
        }
    }
}

/// The views of a list of discovered models.
pub open spec fn discovered_views(v: Seq<DiscoveredModel>) -> Seq<DiscoveredModelView> {
    v.map_values(|d: DiscoveredModel| d@)
}

/// Whether a model fits the agent: every model of presets other than OpenAI does; of
/// OpenAI's, the text families (`gpt-`, `o1`, `o3`, `o4`, fine-tunes, `chat-latest`)
/// do, unless they are audio, realtime, transcription, speech, image, search-preview,
/// deep-research or computer-use models. Case does not matter.
pub open spec fn agent_compatible(p: ProviderPreset, id: Seq<char>) -> bool {
    let l = lower(id);
    let text_family = has_prefix(l, "gpt-"@) || has_prefix(l, "o1"@) || has_prefix(l, "o3"@)
        || has_prefix(l, "o4"@) || has_prefix(l, "ft:"@) || l == "chat-latest"@;
    let incompatible = has_infix(l, "audio"@) || has_infix(l, "realtime"@) || has_infix(
        l,
        "transcribe"@,
    ) || has_infix(l, "tts"@) || has_infix(l, "image"@) || has_infix(l, "search-preview"@)
        || has_infix(l, "deep-research"@) || has_infix(l, "computer-use"@);
    p != ProviderPreset::Openai || (text_family && !incompatible)
}

/// A discovered model after cleaning: id trimmed, name and description sanitised, and a
/// context length kept only within 1..=100,000,000.
pub open spec fn cleaned_model(d: DiscoveredModelView) -> DiscoveredModelView {
    DiscoveredModelView {
        id: trim(d.id),
        name: match d.name {
            Some(n) => sanitized_text(n, MAX_MODEL_NAME_CHARS as nat),
            None => None,
        },
        description: match d.description {
            Some(n) => sanitized_text(n, MAX_MODEL_DESCRIPTION_CHARS as nat),
            None => None,
        },
        context_length: match d.context_length {
            Some(w) => if 1 <= w && w <= MAX_DISCOVERED_CONTEXT {
                Some(w)
            } else {
                None
            },
            None => None,
        },
    }
}

/// A cleaned model is kept when its id is safe and the model fits the agent.
pub open spec fn kept_model(p: ProviderPreset, d: DiscoveredModelView) -> bool {
    safe_model_id(d.id) && agent_compatible(p, d.id)
}

/// The cleaned models that are kept, in order (`Vec::retain`).
pub open spec fn kept_models(p: ProviderPreset, s: Seq<DiscoveredModelView>) -> Seq<DiscoveredModelView>
    decreases s.len(),
{
    if s.len() == 0 {
        s
    } else {
        let r = kept_models(p, s.drop_last());
        if kept_model(p, s.last()) {
            r.push(s.last())
        } else {
            r
        }
    }
}

/// What a model-list response yields: its first 5,000 models, cleaned, of which those
/// with a safe id that fit the agent.
pub open spec fn normalized_catalog(p: ProviderPreset, s: Seq<DiscoveredModelView>) -> Seq<DiscoveredModelView> {
    let t = if s.len() <= MAX_PROVIDER_MODELS {
        s
    } else {
        s.take(MAX_PROVIDER_MODELS as int)
    };
    kept_models(p, t.map_values(|d: DiscoveredModelView| cleaned_model(d)))
}

/// An optional text, dropped when blank (`filter(|s| !s.trim().is_empty())`).
pub open spec fn nonblank(o: Option<Seq<char>>) -> Option<Seq<char>> {
    match o {
        Some(s) => if is_blank(s) {
            None
        } else {
            Some(s)
        },
        None => None,
    }
}

/// A model entry after what discovery reported fills the fields the user left unset.
pub open spec fn merged_discovery(m: ModelOverrideView, d: DiscoveredModelView) -> ModelOverrideView {
    ModelOverrideView {
        model: or_insert(m.model, trim(d.id)),
        name: if m.name is None {
            nonblank(d.name)
        } else {
            m.name
        },
        description: if m.description is None {
            nonblank(d.description)
        } else {
            m.description
        },
        context_window: if m.context_window is None {
            match d.context_length {
                Some(w) => if w > 0 {
                    Some(w)
                } else {
                    None
                },
                None => None,
            }
        } else {
            m.context_window
        },
        ..m
    }
}

/// A model entry after preset `p` discovered model `d` under its key: the discovered
/// metadata fills what the user left unset; an entry that is routed to no provider, or
/// to `p` by any name that selects it, is then filled from `p`; an entry the user
/// routed to another provider keeps its route and gets no preset defaults.
pub open spec fn discovery_merge(p: ProviderPreset, m: ModelOverrideView, d: DiscoveredModelView) -> ModelOverrideView {
    if routes_to(m, p) {
        with_model_defaults(p, merged_discovery(m, d))
    } else {
        merged_discovery(m, d)
    }
}

/// The entry is routed to no provider, or to `p` by a name that selects it (its
/// canonical name or an alias, in any case, with surrounding whitespace).
pub open spec fn routes_to(m: ModelOverrideView, p: ProviderPreset) -> bool {
    match m.model_provider {
        Some(x) => preset_named(x) == Some(p),
        None => true,
    }
}

/// The model map after the discovered models, in order, are each merged into the entry
/// under their trimmed id (created if missing) as [`discovery_merge`] says.
pub open spec fn with_discovered(
    p: ProviderPreset,
    s: Seq<(Seq<char>, ModelOverrideView)>,
    ds: Seq<DiscoveredModelView>,
) -> Seq<(Seq<char>, ModelOverrideView)>
    decreases ds.len(),
{
    if ds.len() == 0 {
        s
    } else {
        let d = ds.last();
        upsert(
            with_discovered(p, s, ds.drop_last()),
            trim(d.id),
            default_model(),
            |m: ModelOverrideView| discovery_merge(p, m, d),
        )
    }
}

/// The settings stored under key `k`, if any.
pub open spec fn entry_for(s: Seq<(Seq<char>, ProviderConfigView)>, k: Seq<char>) -> Option<ProviderConfigView> {
    if has_key(s, k) {
        Some(s[choose|i: int| 0 <= i < s.len() && #[trigger] s[i].0 == k].1)
    } else {
        None
    }
}

/// The key discovery authenticates with: the provider's configured API key unless
/// blank; else, when the provider names key variables, what they resolve to; else the
/// preset's own key variable unless blank.
pub open spec fn discovery_key(
    c: Option<ProviderConfigView>,
    env_keys_value: Option<Seq<char>>,
    preset_env_value: Option<Seq<char>>,
) -> Option<Seq<char>> {
    let configured = match c {
        Some(c) => nonblank(c.api_key),
        None => None,
    };
    let from_env_keys = match c {
        Some(c) => if c.env_key is Some {
            env_keys_value
        } else {
            None
        },
        None => None,
    };
    if configured is Some {
        configured
    } else if from_env_keys is Some {
        from_env_keys
    } else {
        nonblank(preset_env_value)
    }
}

/// The first value that is set and not blank.
pub open spec fn first_nonblank(values: Seq<Option<Seq<char>>>) -> Option<Seq<char>>
    decreases values.len(),
{
    if values.len() == 0 {
        None
    } else if nonblank(values[0]) is Some {
        values[0]
    } else {
        first_nonblank(values.drop_first())
    }
}

/// What a provider's key variables resolve to, given their values in order: the first
/// that is set and not blank.
pub fn resolve_env_values(values: &Vec<Option<String>>) -> (r: Option<String>)
    ensures
        opt_view(r) == first_nonblank(values@.map_values(|v: Option<String>| opt_view(v))),
{
    let ghost all = values@.map_values(|v: Option<String>| opt_view(v));
    assert(all.subrange(0, all.len() as int) =~= all);
    let mut i: usize = 0;
    while i < values.len()
        invariant
            i <= values@.len(),
            all == values@.map_values(|v: Option<String>| opt_view(v)),
            first_nonblank(all) == first_nonblank(all.subrange(i as int, all.len() as int)),
        decreases values@.len() - i,
    {
        let ghost rest = all.subrange(i as int, all.len() as int);
        assert(rest[0] == opt_view(values@[i as int]));
        assert(rest.drop_first() =~= all.subrange(i + 1, all.len() as int));
        let v = nonblank_copy(&values[i]);
        if v.is_some() {
            return v;
        }
        i = i + 1;
    }
    None
}

/// Whether a response of `length` bytes is within the size limit.
pub open spec fn catalog_size_ok(length: Option<u64>) -> bool {
    match length {
        Some(n) => n <= MAX_PROVIDER_CATALOG_BYTES,
        None => true,
    }
}

/// Checks a model-list response's length (when known) against the 16 MiB limit.
pub fn check_catalog_length(length: Option<u64>) -> (r: Result<(), String>)
    ensures
        r is Ok <==> catalog_size_ok(length),
        r matches Err(e) ==> e@ == "provider catalog exceeds the 16 MiB response limit"@,
{
    match length {
        Some(n) => if n > MAX_PROVIDER_CATALOG_BYTES {
            Err("provider catalog exceeds the 16 MiB response limit".to_owned())
        } else {
            Ok(())
        },
        None => Ok(()),
    }
}

/// Copies an optional string when it is not blank.
fn nonblank_copy(o: &Option<String>) -> (r: Option<String>)
    ensures
        opt_view(r) == nonblank(opt_view(*o)),
{
    match o {
        Some(s) => if is_nonblank(s.as_str()) {
            Some(s.clone())
        } else {
            None
        },
        None => None,
    }
}

impl ProviderPreset {
    /// Whether the model `id` fits the agent (see [`agent_compatible`]).
    pub fn is_agent_compatible_model(self, id: &str) -> (r: bool)
        ensures
            r == agent_compatible(self, id@),
    {
        if self != ProviderPreset::Openai {
            return true;
        }
        let id = lowercase_chars(&str_chars(id));
        let text_family = starts_with_str(&id, "gpt-") || starts_with_str(&id, "o1")
            || starts_with_str(&id, "o3") || starts_with_str(&id, "o4") || starts_with_str(
            &id,
            "ft:",
        ) || chars_equal_str(&id, "chat-latest");
        let incompatible = contains_str(&id, "audio") || contains_str(&id, "realtime")
            || contains_str(&id, "transcribe") || contains_str(&id, "tts") || contains_str(
            &id,
            "image",
        ) || contains_str(&id, "search-preview") || contains_str(&id, "deep-research")
            || contains_str(&id, "computer-use");
        text_family && !incompatible
    }

    /// Cleans a model-list response: keeps the first 5,000 models, trims ids, sanitises
    /// names and descriptions, drops implausible context lengths, and keeps only models
    /// with a safe id that fit the agent.
    pub fn normalize_catalog(self, models: Vec<DiscoveredModel>) -> (r: Vec<DiscoveredModel>)
        ensures
            discovered_views(r@) == normalized_catalog(self, discovered_views(models@)),
    {
        let ghost s = discovered_views(models@);
        let mut models = models;
        models.truncate(MAX_PROVIDER_MODELS);
        let ghost t = discovered_views(models@);
        assert(t =~= (if s.len() <= MAX_PROVIDER_MODELS {
            s
        } else {
            s.take(MAX_PROVIDER_MODELS as int)
        }));
        let ghost cleaned = t.map_values(|d: DiscoveredModelView| cleaned_model(d));
        let mut out: Vec<DiscoveredModel> = Vec::new();
        let mut i: usize = 0;
        while i < models.len()
            invariant
                i <= models@.len(),
                t == discovered_views(models@),
                cleaned == t.map_values(|d: DiscoveredModelView| cleaned_model(d)),
                discovered_views(out@) == kept_models(self, cleaned.take(i as int)),
            decreases models@.len() - i,
        {
            let d = &models[i];
            let id = string_from_chars(&trimmed_chars(d.id.as_str()));
            let name = match &d.name {
                Some(n) => sanitize_catalog_text(n.clone(), MAX_MODEL_NAME_CHARS),
                None => None,
            };
            let description = match &d.description {
                Some(n) => sanitize_catalog_text(n.clone(), MAX_MODEL_DESCRIPTION_CHARS),
                None => None,
            };
            let context_length = match d.context_length {
                Some(w) => if 1 <= w && w <= MAX_DISCOVERED_CONTEXT {
                    Some(w)
                } else {
                    None
                },
                None => None,
            };
            let c = DiscoveredModel { id, name, description, context_length };
            assert(c@ == cleaned[i as int]);
            assert(cleaned.take(i + 1).drop_last() =~= cleaned.take(i as int));
            if is_safe_model_id(c.id.as_str()) && self.is_agent_compatible_model(c.id.as_str()) {
                out.push(c);
                assert(discovered_views(out@) =~= kept_models(self, cleaned.take(i + 1)));
            }
            i = i + 1;
        }
        assert(cleaned.take(models@.len() as int) =~= cleaned);
        out
    }

    /// Merges discovered models into the model map: each goes under its trimmed id
    /// (created if missing) and fills the model id, name, description and context window
    /// the user left unset (ignoring blank or zero values); unless the user routed the
    /// entry to another provider, it is then filled from the preset (and an entry routed
    /// to this preset by an alias is routed to it by its canonical name).
    pub fn install_discovered_models(
        self,
        discovered: Vec<DiscoveredModel>,
        models: &mut IndexMap<String, ConfigModelOverride>,
    )
        ensures
            model_entries(*final(models)) == with_discovered(
                self,
                model_entries(*old(models)),
                discovered_views(discovered@),
            ),
    {
        let ghost ds = discovered_views(discovered@);
        let ghost m0 = model_entries(*models);
        let mut i: usize = 0;
        while i < discovered.len()
            invariant
                i <= discovered@.len(),
                ds == discovered_views(discovered@),
                model_entries(*models) == with_discovered(self, m0, ds.take(i as int)),
            decreases discovered@.len() - i,
        {
            let d = &discovered[i];
            let ghost dv = ds[i as int];
            assert(d@ == dv);
            assert(ds.take(i + 1).drop_last() =~= ds.take(i as int));
            assert(ds.take(i + 1).last() == dv);
            let id = string_from_chars(&trimmed_chars(d.id.as_str()));
            let ghost s = model_entries(*models);
            let ghost k = id@;
            let ghost f = |m: ModelOverrideView| discovery_merge(self, m, dv);
            let pos = model_index_of(models, id.as_str());
            let mut model = match pos {
                Some(j) => model_replace_at(models, j, ConfigModelOverride::default()),
                None => ConfigModelOverride::default(),
            };
            let ghost before = model@;
            if model.model.is_none() {
                model.model = Some(id.clone());
            }
            if model.name.is_none() {
                model.name = nonblank_copy(&d.name);
            }
            if model.description.is_none() {
                model.description = nonblank_copy(&d.description);
            }
            if model.context_window.is_none() {
                model.context_window = match d.context_length {
                    Some(w) => if w > 0 {
                        Some(w)
                    } else {
                        None
                    },
                    None => None,
                };
            }
            assert(model@ == merged_discovery(before, dv));
            let routed_here = match &model.model_provider {
                Some(provider) => match ProviderPreset::from_name(provider.as_str()) {
                    Some(q) => q == self,
                    None => false,
                },
                None => true,
            };
            if routed_here {
                self.fill_model_defaults(&mut model);
            }
            match pos {
                Some(j) => {
                    model_replace_at(models, j, model);
                    proof {
                        assert(has_key(s, k));
                        assert(model_entries(*models) =~= s.map_values(
                            |e: (Seq<char>, ModelOverrideView)| if e.0 == k { (e.0, f(e.1)) } else { e },
                        ));
                    }
                },
                None => {
                    model_insert(models, id, model);
                },
            }
            i = i + 1;
        }
        assert(ds.take(discovered@.len() as int) =~= ds);
    }

    /// The provider's key variables, when its settings name any.
    pub fn configured_env_keys<'a>(self, providers: &'a IndexMap<String, ModelProviderConfig>) -> (r: Option<&'a EnvKeys>)
        ensures
            match r {
                Some(e) => entry_for(provider_entries(*providers), preset_name(self)) matches Some(c)
                    && c.env_key == Some(env_keys_view(*e)),
                None => match entry_for(provider_entries(*providers), preset_name(self)) {
                    Some(c) => c.env_key is None,
                    None => true,
                },
            },
    {
        match provider_index_of(providers, self.canonical_name()) {
            Some(i) => {
                let c = provider_at(providers, i);
                proof {
                    let s = provider_entries(*providers);
                    assert(s[i as int].0 == preset_name(self));
                    assert(has_key(s, preset_name(self)));
                }
                c.env_key.as_ref()
            },
            None => None,
        }
    }

    /// The key to query the model-list API with (see [`discovery_key`]):
    /// `env_keys_value` is what the provider's key variables resolve to, and
    /// `preset_env_value` the value of the preset's own key variable.
    pub fn discovery_api_key(
        self,
        providers: &IndexMap<String, ModelProviderConfig>,
        env_keys_value: Option<String>,
        preset_env_value: Option<String>,
    ) -> (r: Option<String>)
        ensures
            opt_view(r) == discovery_key(
                entry_for(provider_entries(*providers), preset_name(self)),
                opt_view(env_keys_value),
                opt_view(preset_env_value),
            ),
    {
        let ghost s = provider_entries(*providers);
        let provider = match provider_index_of(providers, self.canonical_name()) {
            Some(i) => {
                proof {
                    assert(s[i as int].0 == preset_name(self));
                    assert(has_key(s, preset_name(self)));
                }
                Some(provider_at(providers, i))
            },
            None => None,
        };
        let configured = match provider {
            Some(c) => nonblank_copy(&c.api_key),
            None => None,
        };
        if configured.is_some() {
            return configured;
        }
        let names_env_keys = match provider {
            Some(c) => c.env_key.is_some(),
            None => false,
        };
        if names_env_keys && env_keys_value.is_some() {
            return env_keys_value;
        }
        nonblank_copy(&preset_env_value)
    }

    /// Whether the preset's catalog should be refreshed: its provider is configured,
    /// and it either needs no key or has one.
    pub fn should_discover(
        self,
        providers: &IndexMap<String, ModelProviderConfig>,
        has_api_key: bool,
    ) -> (r: bool)
        ensures
            r == (has_key(provider_entries(*providers), preset_name(self)) && (self
                == ProviderPreset::Openrouter || has_api_key)),
    {
        let found = provider_index_of(providers, self.canonical_name()).is_some();
        found && (!self.discovery_requires_auth() || has_api_key)
    }
}

} // verus!
