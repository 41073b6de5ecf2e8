//! Filling model and provider settings from a preset's defaults.
use vstd::prelude::*;
use crate::catalog::{preset_catalog, preset_values, ModelPreset};
use crate::config::{
    default_model, default_provider, ConfigModelOverride, EnvKeys,
    ModelOverrideView, ModelProviderConfig, ProviderConfigView,
};
use crate::effort::{
    effort_description, effort_description_text, effort_id, effort_label, effort_label_text,
    profile_default, profile_levels, EffortOptionView, EffortProfile, ReasoningEffort,
    ReasoningEffortOption,
};
use crate::index_map::{
    model_entries, model_index_of, model_insert, model_len, model_replace_at,
    header_index_of, header_insert, provider_index_of, provider_insert, provider_replace_at,
    provider_entries, upsert,
};
use crate::lookup::model_lookup;
use crate::preset::{preset_name, preset_named, ProviderPreset};
use vstd::string::StringExecFns;
use crate::index_map::{has_key, header_entries};
use indexmap::IndexMap;

verus! {

/// `Option::get_or_insert`: the value that is there, else `d`.
pub open spec fn or_insert<T>(o: Option<T>, d: T) -> Option<T> {
    match o {
        Some(x) => Some(x),
        None => Some(d),
    }
}

/// The selectable options of a list of effort levels, `d` marked as the default.
pub open spec fn effort_options(levels: Seq<ReasoningEffort>, d: ReasoningEffort) -> Seq<EffortOptionView> {
    levels.map_values(
        |e: ReasoningEffort|
            EffortOptionView {
                id: effort_id(e),
                value: e,
                label: effort_label_text(e) + " Effort"@,
                description: Some(effort_description_text(e)),
                default: e == d,
            },
    )
}

/// A model after its reasoning defaults are filled from `p`: untouched when reasoning
/// is switched off; otherwise marked as supporting reasoning, and, when it lists no
/// effort options yet, given the profile's options with its own (or the profile's)
/// default level.
pub open spec fn with_reasoning_defaults(m: ModelOverrideView, p: EffortProfile) -> ModelOverrideView {
    if m.supports_reasoning_effort == Some(false) {
        m
    } else if m.reasoning_efforts.len() > 0 {
        ModelOverrideView { supports_reasoning_effort: Some(true), ..m }
    } else {
        let d = match m.reasoning_effort {
            Some(e) => e,
            None => profile_default(p),
        };
        ModelOverrideView {
            supports_reasoning_effort: Some(true),
            reasoning_effort: Some(d),
            reasoning_efforts: effort_options(profile_levels(p), d),
            ..m
        }
    }
}

/// A model after its unset fields are filled from preset `p` and the catalog entry that
/// describes it; the provider is always set to `p`.
pub open spec fn with_model_defaults(p: ProviderPreset, m: ModelOverrideView) -> ModelOverrideView {
    let v = preset_values(p);
    let id = match m.model {
        Some(x) => x,
        None => v.model@,
    };
    let c = model_lookup(p, id);
    let cw = match c {
        Some(c) => c.context_window,
        None => v.context_window,
    };
    let name = match c {
        Some(c) => c.name@,
        None => v.name@,
    };
    let description = match c {
        Some(c) => c.description@,
        None => v.description@,
    };
    let filled = ModelOverrideView {
        model_provider: Some(preset_name(p)),
        model: Some(id),
        name: or_insert(m.name, name),
        description: or_insert(m.description, description),
        context_window: or_insert(m.context_window, cw),
        temperature: match v.temperature {
            Some(t) => or_insert(m.temperature, t),
            None => m.temperature,
        },
        supported_in_api: or_insert(m.supported_in_api, true),
        ..m
    };
    match c {
        Some(c) => match c.effort {
            Some(e) => with_reasoning_defaults(filled, e),
            None => filled,
        },
        None => filled,
    }
}

/// A provider's settings after their unset fields are filled from preset `p`;
/// OpenRouter also gets an `X-Title` header unless one is set.
pub open spec fn with_provider_defaults(p: ProviderPreset, c: ProviderConfigView) -> ProviderConfigView {
    let v = preset_values(p);
    ProviderConfigView {
        base_url: or_insert(c.base_url, v.base_url@),
        env_key: or_insert(c.env_key, seq![v.env_key@]),
        api_backend: or_insert(c.api_backend, v.api_backend),
        context_window: or_insert(c.context_window, v.context_window),
        extra_headers: if p == ProviderPreset::Openrouter {
            upsert(c.extra_headers, "X-Title"@, "Grok Build"@, |h: Seq<char>| h)
        } else {
            c.extra_headers
        },
        ..c
    }
}

/// The provider map after preset `p`'s entry is created if missing and filled.
pub open spec fn with_provider_entry(
    p: ProviderPreset,
    s: Seq<(Seq<char>, ProviderConfigView)>,
) -> Seq<(Seq<char>, ProviderConfigView)> {
    upsert(s, preset_name(p), default_provider(), |c: ProviderConfigView| with_provider_defaults(p, c))
}

/// A model whose model id is set to `id` unless it names one already.
pub open spec fn with_model_id(m: ModelOverrideView, id: Seq<char>) -> ModelOverrideView {
    ModelOverrideView { model: or_insert(m.model, id), ..m }
}

/// The model map after the entries of catalog `cat` are created if missing, each named
/// after its id, and filled from preset `p`, in catalog order.
pub open spec fn with_catalog_entries(
    p: ProviderPreset,
    s: Seq<(Seq<char>, ModelOverrideView)>,
    cat: Seq<ModelPreset>,
) -> Seq<(Seq<char>, ModelOverrideView)>
    decreases cat.len(),
{
    if cat.len() == 0 {
        s
    } else {
        let id = cat.last().id@;
        upsert(
            with_catalog_entries(p, s, cat.drop_last()),
            id,
            default_model(),
            |m: ModelOverrideView| with_model_defaults(p, with_model_id(m, id)),
        )
    }
}

/// The preset a model entry names as its provider, if it names a known one.
pub open spec fn routed_preset(m: ModelOverrideView) -> Option<ProviderPreset> {
    match m.model_provider {
        Some(n) => preset_named(n),
        None => None,
    }
}

/// A model entry after the defaults of the preset it names are filled in.
pub open spec fn with_routed_defaults(m: ModelOverrideView) -> ModelOverrideView {
    match routed_preset(m) {
        Some(p) => with_model_defaults(p, m),
        None => m,
    }
}

/// The provider map after, for each model entry in order that names a known preset,
/// that preset's provider entry is created if missing and filled.
pub open spec fn with_routed_providers(
    models: Seq<(Seq<char>, ModelOverrideView)>,
    s: Seq<(Seq<char>, ProviderConfigView)>,
) -> Seq<(Seq<char>, ProviderConfigView)>
    decreases models.len(),
{
    if models.len() == 0 {
        s
    } else {
        let before = with_routed_providers(models.drop_last(), s);
        match routed_preset(models.last().1) {
            Some(p) => with_provider_entry(p, before),
            None => before,
        }
    }
}

/// The effort option for one level, `d` being the default level.
fn effort_option(e: ReasoningEffort, d: ReasoningEffort) -> (r: ReasoningEffortOption)
    ensures
        r@ == (EffortOptionView {
            id: effort_id(e),
            value: e,
            label: effort_label_text(e) + " Effort"@,
            description: Some(effort_description_text(e)),
            default: e == d,
        }),
{
    let mut label = effort_label(e).to_owned();
    label.append(" Effort");
    ReasoningEffortOption {
        id: e.as_str().to_owned(),
        value: e,
        label,
        description: Some(effort_description(e).to_owned()),
        default: e == d,
    }
}

impl ProviderPreset {
    /// Fills a model's reasoning settings from an effort profile.
    pub fn fill_reasoning_defaults(model: &mut ConfigModelOverride, profile: EffortProfile)
        ensures
            final(model)@ == with_reasoning_defaults(old(model)@, profile),
    {
        if let Some(false) = model.supports_reasoning_effort {
            return;
        }
        if model.supports_reasoning_effort.is_none() {
            model.supports_reasoning_effort = Some(true);
        }
        if model.reasoning_efforts.len() > 0 {
            return;
        }
        let default = match model.reasoning_effort {
            Some(e) => e,
            None => profile.default_effort(),
        };
        model.reasoning_effort = Some(default);
        let levels = profile.levels();
        let mut options: Vec<ReasoningEffortOption> = Vec::new();
        let mut i: usize = 0;
        while i < levels.len()
            invariant
                i <= levels@.len(),
                options@.len() == i,
                levels@ == profile_levels(profile),
                options@.map_values(|o: ReasoningEffortOption| o@) == effort_options(
                    levels@.subrange(0, i as int),
                    default,
                ),
            decreases levels@.len() - i,
        {
            let o = effort_option(levels[i], default);
            let ghost prev = options@;
            options.push(o);
            i = i + 1;
            assert forall|j: int| 0 <= j < i - 1 implies options@.map_values(
                |o: ReasoningEffortOption| o@,
            )[j] == effort_options(levels@.subrange(0, i as int), default)[j] by {
                assert(prev.map_values(|o: ReasoningEffortOption| o@)[j] == effort_options(
                    levels@.subrange(0, i - 1),
                    default,
                )[j]);
            }
            assert(options@.map_values(|o: ReasoningEffortOption| o@) =~= effort_options(
                levels@.subrange(0, i as int),
                default,
            ));
        }
        assert(levels@.subrange(0, levels@.len() as int) =~= levels@);
        model.reasoning_efforts = options;
    }

    /// Fills a model's unset settings from the preset and the catalog entry that
    /// describes it, and routes the model to the preset's provider.
    pub fn fill_model_defaults(self, model: &mut ConfigModelOverride)
        ensures
            final(model)@ == with_model_defaults(self, old(model)@),
    {
        let values = self.values();
        let catalog_model = match &model.model {
            Some(m) => self.catalog_model(m.as_str()),
            None => self.catalog_model(values.model),
        };
        let (context_window, name, description) = match catalog_model {
            Some(c) => (c.context_window, c.name, c.description),
            None => (values.context_window, values.name, values.description),
        };
        model.model_provider = Some(self.canonical_name().to_owned());
        if model.model.is_none() {
            model.model = Some(values.model.to_owned());
        }
        if model.name.is_none() {
            model.name = Some(name.to_owned());
        }
        if model.description.is_none() {
            model.description = Some(description.to_owned());
        }
        if model.context_window.is_none() {
            model.context_window = Some(context_window);
        }
        if let Some(t) = values.temperature {
            if model.temperature.is_none() {
                model.temperature = Some(t);
            }
        }
        if model.supported_in_api.is_none() {
            model.supported_in_api = Some(true);
        }
        if let Some(c) = catalog_model {
            if let Some(profile) = c.effort {
                Self::fill_reasoning_defaults(model, profile);
            }
        }
    }

    /// Fills a provider's unset settings from the preset.
    pub fn fill_provider_defaults(self, provider: &mut ModelProviderConfig)
        ensures
            final(provider)@ == with_provider_defaults(self, old(provider)@),
    {
        let values = self.values();
        if provider.base_url.is_none() {
            provider.base_url = Some(values.base_url.to_owned());
        }
        if provider.env_key.is_none() {
            provider.env_key = Some(EnvKeys::single(values.env_key));
        }
        if provider.api_backend.is_none() {
            provider.api_backend = Some(values.api_backend);
        }
        if provider.context_window.is_none() {
            provider.context_window = Some(values.context_window);
        }
        if self == ProviderPreset::Openrouter {
            let ghost h = provider.extra_headers;
            match header_index_of(&provider.extra_headers, "X-Title") {
                None => {
                    header_insert(&mut provider.extra_headers, "X-Title".to_owned(), "Grok Build".to_owned());
                    assert(header_entries(provider.extra_headers) == upsert(header_entries(h), "X-Title"@, "Grok Build"@, |x: Seq<char>| x));
                },
                Some(i) => {
                    assert(header_entries(h)[i as int].0 == "X-Title"@);
                    assert(header_entries(h).map_values(
                        |e: (Seq<char>, Seq<char>)| if e.0 == "X-Title"@ { (e.0, e.1) } else { e },
                    ) =~= header_entries(h));
                    assert(header_entries(provider.extra_headers) == upsert(header_entries(h), "X-Title"@, "Grok Build"@, |x: Seq<char>| x));
                },
            }
        }
    }

    /// Creates the preset's provider entry if missing, and fills its unset settings.
    pub fn ensure_provider_defaults(self, providers: &mut IndexMap<String, ModelProviderConfig>)
        ensures
            provider_entries(*final(providers)) == with_provider_entry(self, provider_entries(*old(providers))),
    {
        let name = self.canonical_name();
        let ghost s = provider_entries(*providers);
        match provider_index_of(providers, name) {
            Some(i) => {
                let mut cur = provider_replace_at(providers, i, ModelProviderConfig::default());
                self.fill_provider_defaults(&mut cur);
                provider_replace_at(providers, i, cur);
                proof {
                    let f = |c: ProviderConfigView| with_provider_defaults(self, c);
                    let k = preset_name(self);
                    assert(has_key(s, k));
                    assert(provider_entries(*providers) =~= s.map_values(
                        |e: (Seq<char>, ProviderConfigView)| if e.0 == k { (e.0, f(e.1)) } else { e },
                    ));
                }
            },
            None => {
                let mut cur = ModelProviderConfig::default();
                self.fill_provider_defaults(&mut cur);
                provider_insert(providers, name.to_owned(), cur);
            },
        }
    }
}

impl ProviderPreset {
    /// Fills every model entry that names a known preset as its provider from that
    /// preset, and makes sure the preset's provider entry exists and is filled.
    pub fn install_model_defaults(
        models: &mut IndexMap<String, ConfigModelOverride>,
        providers: &mut IndexMap<String, ModelProviderConfig>,
    )
        ensures
            model_entries(*final(models)) == model_entries(*old(models)).map_values(
                |e: (Seq<char>, ModelOverrideView)| (e.0, with_routed_defaults(e.1)),
            ),
            provider_entries(*final(providers)) == with_routed_providers(
                model_entries(*old(models)),
                provider_entries(*old(providers)),
            ),
    {
        let ghost m0 = model_entries(*models);
        let ghost p0 = provider_entries(*providers);
        let n = model_len(models);
        let mut i: usize = 0;
        while i < n
            invariant
                i <= n,
                n == m0.len(),
                model_entries(*models).len() == n,
                forall|j: int|
                    0 <= j < i ==> #[trigger] model_entries(*models)[j] == (
                        m0[j].0,
                        with_routed_defaults(m0[j].1),
                    ),
                forall|j: int| i <= j < n ==> #[trigger] model_entries(*models)[j] == m0[j],
                provider_entries(*providers) == with_routed_providers(m0.take(i as int), p0),
            decreases n - i,
        {
            let mut model = model_replace_at(models, i, ConfigModelOverride::default());
            let ghost before = model@;
            assert(before == m0[i as int].1);
            assert(m0.take(i + 1).drop_last() =~= m0.take(i as int));
            let preset = match &model.model_provider {
                Some(name) => ProviderPreset::from_name(name.as_str()),
                None => None,
            };
            match preset {
                Some(p) => {
                    p.ensure_provider_defaults(providers);
                    p.fill_model_defaults(&mut model);
                },
                None => {},
            }
            model_replace_at(models, i, model);
            i = i + 1;
        }
        assert(m0.take(n as int) =~= m0);
        assert(model_entries(*models) =~= m0.map_values(
            |e: (Seq<char>, ModelOverrideView)| (e.0, with_routed_defaults(e.1)),
        ));
    }

    /// Installs the preset's whole catalog: its provider entry, and one model entry per
    /// catalog model, keyed and named by the model id; returns the id of the first
    /// (default) model.
    pub fn install_selected_models(
        self,
        models: &mut IndexMap<String, ConfigModelOverride>,
        providers: &mut IndexMap<String, ModelProviderConfig>,
    ) -> (r: String)
        ensures
            provider_entries(*final(providers)) == with_provider_entry(self, provider_entries(*old(providers))),
            model_entries(*final(models)) == with_catalog_entries(
                self,
                model_entries(*old(models)),
                preset_catalog(self),
            ),
            r@ == preset_catalog(self)[0].id@,
    {
        self.ensure_provider_defaults(providers);
        let ghost m0 = model_entries(*models);
        let catalog = self.model_catalog();
        let mut i: usize = 0;
        while i < catalog.len()
            invariant
                i <= catalog@.len(),
                catalog@ == preset_catalog(self),
                model_entries(*models) == with_catalog_entries(self, m0, catalog@.take(i as int)),
            decreases catalog@.len() - i,
        {
            let preset = catalog[i];
            assert(catalog@.take(i + 1).drop_last() =~= catalog@.take(i as int));
            assert(catalog@.take(i + 1).last() == preset);
            let ghost s = model_entries(*models);
            let ghost k = preset.id@;
            let ghost f = |m: ModelOverrideView| with_model_defaults(self, with_model_id(m, k));
            match model_index_of(models, preset.id) {
                Some(j) => {
                    let mut model = model_replace_at(models, j, ConfigModelOverride::default());
                    if model.model.is_none() {
                        model.model = Some(preset.id.to_owned());
                    }
                    self.fill_model_defaults(&mut model);
                    model_replace_at(models, j, model);
                    proof {
                        assert(s[j as int].0 == k);
                        assert(has_key(s, k));
                        assert(model_entries(*models) =~= s.map_values(
                            |e: (Seq<char>, ModelOverrideView)| if e.0 == k { (e.0, f(e.1)) } else { e },
                        ));
                    }
                },
                None => {
                    let mut model = ConfigModelOverride::default();
                    model.model = Some(preset.id.to_owned());
                    self.fill_model_defaults(&mut model);
                    model_insert(models, preset.id.to_owned(), model);
                },
            }
            i = i + 1;
        }
        assert(catalog@.take(catalog@.len() as int) =~= catalog@);
        catalog[0].id.to_owned()
    }
}

} // verus!
