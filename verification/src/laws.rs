//! Properties that hold across the preset functions.
use vstd::prelude::*;
use crate::catalog::{preset_catalog, preset_values};
use crate::effort::{profile_default, profile_levels, EffortProfile};
use crate::preset::{preset_name, preset_named, ProviderPreset};
use crate::text::{
    all_ws, is_ctrl, is_ws, lemma_lower_idempotent, lemma_trim_between, lemma_trim_lower_commute,
    lemma_trim_surrounding_ws, lower, lower_char, trim,
};
use crate::lookup::{first_exact, longest_snapshot, model_lookup};
use crate::text::has_infix;
use crate::effort::{effort_id, ReasoningEffort};
use crate::sanitize::{lemma_plain_text_survives, plain_text, sanitized_text};
use crate::config::{ModelOverrideView, ProviderConfigView};
use crate::defaults::{
    effort_options, with_model_defaults, with_provider_defaults,
};
use crate::index_map::{has_key, upsert};
use crate::catalog::ModelPreset;
use crate::defaults::{
    routed_preset, with_catalog_entries, with_model_id, with_routed_providers,
};
use crate::discovery::{
    agent_compatible, cleaned_model, discovery_merge, kept_model, routes_to, kept_models, merged_discovery, normalized_catalog,
    with_discovered, DiscoveredModelView, MAX_DISCOVERED_CONTEXT, MAX_MODEL_DESCRIPTION_CHARS,
    MAX_MODEL_NAME_CHARS, MAX_PROVIDER_MODELS,
};
use crate::sanitize::{lemma_sanitized_text_is_display_safe, safe_model_id};

verus! {

/// Text that is already trimmed and lowercase is its own lookup form.
proof fn lemma_normal_form(s: Seq<char>)
    requires
        s.len() > 0,
        !is_ws(s[0]),
        !is_ws(s.last()),
        forall|i: int| 0 <= i < s.len() ==> lower_char(#[trigger] s[i]) == s[i],
    ensures
        lower(trim(s)) == s,
{
    lemma_trim_between(s, 0, s.len() as int);
    assert(s.subrange(0, s.len() as int) =~= s);
    assert(lower(s) =~= s);
}

/// Every preset is selected by its own canonical name.
pub proof fn lemma_name_roundtrip(p: ProviderPreset)
    ensures
        preset_named(preset_name(p)) == Some(p),
{
    reveal_strlit("glm");
    reveal_strlit("zai");
    reveal_strlit("zhipu");
    reveal_strlit("kimi");
    reveal_strlit("minimax");
    reveal_strlit("openai");
    reveal_strlit("openrouter");
    reveal_strlit("longcat");
    let s = preset_name(p);
    assert forall|i: int| 0 <= i < s.len() implies lower_char(#[trigger] s[i]) == s[i] by {
        let c = s[i];
        assert('a' <= c && c <= 'z');
    }
    lemma_normal_form(s);
    assert("longcat"@[0] != "minimax"@[0]);
    assert("glm"@[0] != "zai"@[0]);
    assert("openai"@.len() != "openrouter"@.len());
}

/// A preset's default model heads its catalog.
pub proof fn lemma_default_model_heads_catalog(p: ProviderPreset)
    ensures
        preset_catalog(p).len() > 0,
        preset_values(p).model == preset_catalog(p)[0].id,
{
}

/// Every effort profile offers the level it uses by default.
pub proof fn lemma_profile_offers_default(p: EffortProfile)
    ensures
        profile_levels(p).contains(profile_default(p)),
        profile_levels(p).len() > 0,
{
    let l = profile_levels(p);
    let d = profile_default(p);
    let i: int = match p {
        EffortProfile::Glm => 0,
        EffortProfile::Kimi => 1,
        EffortProfile::Openai56 => 2,
        EffortProfile::Openai55 => 2,
        EffortProfile::Openai55Pro => 1,
        EffortProfile::Openai54 => 0,
        EffortProfile::Openai54Pro => 0,
        EffortProfile::OpenaiCodex => 1,
        EffortProfile::Openai51 => 0,
        EffortProfile::Openai5 => 2,
        EffortProfile::OpenaiO3 => 1,
        EffortProfile::OpenaiHighOnly => 0,
    };
    assert(l[i] == d);
}

/// Filling a model from a preset keeps every setting the user made: the model id,
/// name, description, context window, temperature, API flag, chosen effort, effort
/// options, and a switched-off reasoning flag; it always routes the model to the preset.
pub proof fn lemma_model_defaults_keep_explicit_settings(p: ProviderPreset, m: ModelOverrideView)
    ensures
        ({
            let r = with_model_defaults(p, m);
            &&& r.model_provider == Some(preset_name(p))
            &&& m.model is Some ==> r.model == m.model
            &&& m.name is Some ==> r.name == m.name
            &&& m.description is Some ==> r.description == m.description
            &&& m.context_window is Some ==> r.context_window == m.context_window
            &&& m.temperature is Some ==> r.temperature == m.temperature
            &&& m.supported_in_api is Some ==> r.supported_in_api == m.supported_in_api
            &&& m.reasoning_effort is Some ==> r.reasoning_effort == m.reasoning_effort
            &&& m.reasoning_efforts.len() > 0 ==> r.reasoning_efforts == m.reasoning_efforts
            &&& m.supports_reasoning_effort == Some(false) ==> r.supports_reasoning_effort == Some(
                false,
            )
        }),
{
}

/// Filling a model from a preset a second time changes nothing.
pub proof fn lemma_model_defaults_idempotent(p: ProviderPreset, m: ModelOverrideView)
    ensures
        with_model_defaults(p, with_model_defaults(p, m)) == with_model_defaults(p, m),
{
    let r = with_model_defaults(p, m);
    let r2 = with_model_defaults(p, r);
    let v = preset_values(p);
    let id = match m.model {
        Some(x) => x,
        None => v.model@,
    };
    let c = crate::lookup::model_lookup(p, id);
    if let Some(c) = c {
        if let Some(e) = c.effort {
            lemma_profile_offers_default(e);
            let d = match m.reasoning_effort {
                Some(x) => x,
                None => profile_default(e),
            };
            assert(effort_options(profile_levels(e), d).len() == profile_levels(e).len());
        }
    }
    assert(r2 == r);
}

/// Filling a provider from a preset keeps every setting the user made, keeps the API
/// key untouched, and keeps existing headers in place.
pub proof fn lemma_provider_defaults_keep_explicit_settings(p: ProviderPreset, c: ProviderConfigView)
    ensures
        ({
            let r = with_provider_defaults(p, c);
            &&& c.base_url is Some ==> r.base_url == c.base_url
            &&& c.env_key is Some ==> r.env_key == c.env_key
            &&& c.api_backend is Some ==> r.api_backend == c.api_backend
            &&& c.context_window is Some ==> r.context_window == c.context_window
            &&& r.api_key == c.api_key
            &&& r.base_url is Some && r.env_key is Some && r.api_backend is Some
                && r.context_window is Some
            &&& r.extra_headers.len() >= c.extra_headers.len()
            &&& forall|i: int|
                0 <= i < c.extra_headers.len() ==> #[trigger] r.extra_headers[i] == c.extra_headers[i]
        }),
{
    let r = with_provider_defaults(p, c);
    if p == ProviderPreset::Openrouter && has_key(c.extra_headers, "X-Title"@) {
        assert forall|i: int| 0 <= i < c.extra_headers.len() implies #[trigger] r.extra_headers[i]
            == c.extra_headers[i] by {
            let e = c.extra_headers[i];
            if e.0 == "X-Title"@ {
                assert(r.extra_headers[i] == (e.0, e.1));
            }
        }
    }
}

/// Filling a provider from a preset a second time changes nothing.
pub proof fn lemma_provider_defaults_idempotent(p: ProviderPreset, c: ProviderConfigView)
    ensures
        with_provider_defaults(p, with_provider_defaults(p, c)) == with_provider_defaults(p, c),
{
    let r = with_provider_defaults(p, c);
    let r2 = with_provider_defaults(p, r);
    if p == ProviderPreset::Openrouter {
        let h = c.extra_headers;
        let k = "X-Title"@;
        let f = |x: Seq<char>| x;
        let h1 = r.extra_headers;
        if has_key(h, k) {
            let i = choose|i: int| 0 <= i < h.len() && #[trigger] h[i].0 == k;
            assert(h1[i].0 == k);
            assert(has_key(h1, k));
            assert(h1 =~= h);
            assert(r2.extra_headers =~= h1);
        } else {
            assert(h1[h.len() as int].0 == k);
            assert(has_key(h1, k));
            assert(r2.extra_headers =~= h1);
        }
    }
    assert(r2 == r);
}

/// Inserting or updating under one key keeps every existing key in its place, touches
/// only the entry under that key, and leaves the key present.
pub proof fn lemma_upsert_keeps_keys<V>(s: Seq<(Seq<char>, V)>, k: Seq<char>, dflt: V, f: spec_fn(V) -> V)
    ensures
        ({
            let r = upsert(s, k, dflt, f);
            &&& r.len() >= s.len()
            &&& forall|i: int|
                0 <= i < s.len() ==> (#[trigger] r[i]).0 == s[i].0 && (r[i].1 == s[i].1 || (s[i].0
                    == k && r[i].1 == f(s[i].1)))
            &&& has_key(r, k)
        }),
{
    let r = upsert(s, k, dflt, f);
    if has_key(s, k) {
        let i = choose|i: int| 0 <= i < s.len() && #[trigger] s[i].0 == k;
        assert(r[i].0 == k);
    } else {
        assert(r[s.len() as int].0 == k);
    }
}

/// A model entry keeps the metadata the user set: model id, name, description,
/// context window, temperature, API flag, chosen effort, effort options, and a
/// switched-off reasoning flag.
pub open spec fn keeps_user_metadata(old: ModelOverrideView, new: ModelOverrideView) -> bool {
    &&& old.model is Some ==> new.model == old.model
    &&& old.name is Some ==> new.name == old.name
    &&& old.description is Some ==> new.description == old.description
    &&& old.context_window is Some ==> new.context_window == old.context_window
    &&& old.temperature is Some ==> new.temperature == old.temperature
    &&& old.supported_in_api is Some ==> new.supported_in_api == old.supported_in_api
    &&& old.reasoning_effort is Some ==> new.reasoning_effort == old.reasoning_effort
    &&& old.reasoning_efforts.len() > 0 ==> new.reasoning_efforts == old.reasoning_efforts
    &&& old.supports_reasoning_effort == Some(false) ==> new.supports_reasoning_effort == Some(false)
}

/// A model entry keeps the route the user set: the same provider name, or, where that
/// name selects a preset, the preset's canonical name.
pub open spec fn keeps_route(old: ModelOverrideView, new: ModelOverrideView) -> bool {
    old.model_provider matches Some(x) ==> new.model_provider == Some(x) || (preset_named(x) matches Some(
        q,
    ) && new.model_provider == Some(preset_name(q)))
}

/// A model entry keeps every setting the user made: its metadata and its route.
pub open spec fn keeps_user_settings(old: ModelOverrideView, new: ModelOverrideView) -> bool {
    &&& keeps_user_metadata(old, new)
    &&& keeps_route(old, new)
}

/// The model map `r` grew from `s`: every key of `s` stays in its place, and every
/// entry relates to its old self by `keep`.
pub open spec fn grows_by(
    s: Seq<(Seq<char>, ModelOverrideView)>,
    r: Seq<(Seq<char>, ModelOverrideView)>,
    keep: spec_fn(ModelOverrideView, ModelOverrideView) -> bool,
) -> bool {
    &&& r.len() >= s.len()
    &&& forall|i: int| 0 <= i < s.len() ==> (#[trigger] r[i]).0 == s[i].0 && keep(s[i].1, r[i].1)
}

/// The model map `r` grew from `s`, every entry keeping every setting the user made.
pub open spec fn only_adds(s: Seq<(Seq<char>, ModelOverrideView)>, r: Seq<(Seq<char>, ModelOverrideView)>) -> bool {
    grows_by(s, r, |a: ModelOverrideView, b: ModelOverrideView| keeps_user_settings(a, b))
}

/// The model map `r` grew from `s`, every entry keeping the metadata the user set.
pub open spec fn grows_keeping_metadata(
    s: Seq<(Seq<char>, ModelOverrideView)>,
    r: Seq<(Seq<char>, ModelOverrideView)>,
) -> bool {
    grows_by(s, r, |a: ModelOverrideView, b: ModelOverrideView| keeps_user_metadata(a, b))
}

proof fn lemma_grows_step(
    s: Seq<(Seq<char>, ModelOverrideView)>,
    mid: Seq<(Seq<char>, ModelOverrideView)>,
    k: Seq<char>,
    dflt: ModelOverrideView,
    f: spec_fn(ModelOverrideView) -> ModelOverrideView,
    keep: spec_fn(ModelOverrideView, ModelOverrideView) -> bool,
)
    requires
        grows_by(s, mid, keep),
        forall|m: ModelOverrideView| #[trigger] keep(m, m),
        forall|a: ModelOverrideView, b: ModelOverrideView| keep(a, b) ==> #[trigger] keep(a, f(b)),
    ensures
        grows_by(s, upsert(mid, k, dflt, f), keep),
        has_key(upsert(mid, k, dflt, f), k),
{
    lemma_upsert_keeps_keys(mid, k, dflt, f);
    let r = upsert(mid, k, dflt, f);
    assert forall|i: int| 0 <= i < s.len() implies (#[trigger] r[i]).0 == s[i].0 && keep(
        s[i].1,
        r[i].1,
    ) by {
        assert(mid[i].0 == s[i].0);
        assert(keep(s[i].1, mid[i].1));
        if r[i].1 != mid[i].1 {
            assert(keep(s[i].1, f(mid[i].1)));
        }
    }
}

/// Refreshing a catalog only adds models and fills metadata the user did not set:
/// every existing entry stays in place with all its settings, its route included (a
/// route to a preset by an alias may be respelled as the preset's canonical name), and
/// every discovered model gets an entry under its trimmed id.
pub proof fn lemma_discovery_only_adds(
    p: ProviderPreset,
    s: Seq<(Seq<char>, ModelOverrideView)>,
    ds: Seq<DiscoveredModelView>,
)
    ensures
        only_adds(s, with_discovered(p, s, ds)),
        forall|j: int| 0 <= j < ds.len() ==> has_key(with_discovered(p, s, ds), trim(#[trigger] ds[j].id)),
    decreases ds.len(),
{
    if ds.len() == 0 {
        assert(only_adds(s, s));
    } else {
        let d = ds.last();
        let mid = with_discovered(p, s, ds.drop_last());
        lemma_discovery_only_adds(p, s, ds.drop_last());
        let f = |m: ModelOverrideView| discovery_merge(p, m, d);
        let keep = |a: ModelOverrideView, b: ModelOverrideView| keeps_user_settings(a, b);
        assert forall|a: ModelOverrideView, b: ModelOverrideView| keep(a, b) implies #[trigger] keep(
            a,
            f(b),
        ) by {
            let mb = merged_discovery(b, d);
            lemma_model_defaults_keep_explicit_settings(p, mb);
            assert(mb.model_provider == b.model_provider);
            assert(keeps_user_metadata(a, mb));
            if let Some(x) = a.model_provider {
                if let Some(q) = preset_named(x) {
                    lemma_name_roundtrip(q);
                }
            }
            if routes_to(b, p) {
                assert(f(b) == with_model_defaults(p, mb));
                assert(keeps_route(a, f(b)));
            } else {
                assert(f(b) == mb);
            }
            assert(keeps_user_metadata(a, f(b)));
        }
        lemma_grows_step(s, mid, trim(d.id), crate::config::default_model(), f, keep);
        let r = with_discovered(p, s, ds);
        assert forall|j: int| 0 <= j < ds.len() implies has_key(r, trim(#[trigger] ds[j].id)) by {
            if j < ds.len() - 1 {
                assert(ds.drop_last()[j] == ds[j]);
                assert(has_key(mid, trim(ds[j].id)));
                let i = choose|i: int| 0 <= i < mid.len() && #[trigger] mid[i].0 == trim(ds[j].id);
                lemma_upsert_keeps_keys(mid, trim(d.id), crate::config::default_model(), f);
                assert(r[i].0 == mid[i].0);
            }
        }
    }
}

/// Installing a preset's catalog keeps every existing entry in place with the metadata
/// the user set, and gives every catalog model an entry under its id. (Entries under a
/// catalog id are routed to the preset, as selecting it asks.)
pub proof fn lemma_catalog_install_covers_catalog(
    p: ProviderPreset,
    s: Seq<(Seq<char>, ModelOverrideView)>,
    cat: Seq<ModelPreset>,
)
    ensures
        grows_keeping_metadata(s, with_catalog_entries(p, s, cat)),
        forall|j: int| 0 <= j < cat.len() ==> has_key(with_catalog_entries(p, s, cat), (#[trigger] cat[j]).id@),
    decreases cat.len(),
{
    if cat.len() == 0 {
        assert(grows_keeping_metadata(s, s));
    } else {
        let id = cat.last().id@;
        let mid = with_catalog_entries(p, s, cat.drop_last());
        lemma_catalog_install_covers_catalog(p, s, cat.drop_last());
        let f = |m: ModelOverrideView| with_model_defaults(p, with_model_id(m, id));
        let keep = |a: ModelOverrideView, b: ModelOverrideView| keeps_user_metadata(a, b);
        assert forall|a: ModelOverrideView, b: ModelOverrideView| keep(a, b) implies #[trigger] keep(
            a,
            f(b),
        ) by {
            lemma_model_defaults_keep_explicit_settings(p, with_model_id(b, id));
        }
        lemma_grows_step(s, mid, id, crate::config::default_model(), f, keep);
        let r = with_catalog_entries(p, s, cat);
        assert forall|j: int| 0 <= j < cat.len() implies has_key(r, (#[trigger] cat[j]).id@) by {
            if j < cat.len() - 1 {
                assert(cat.drop_last()[j] == cat[j]);
                assert(has_key(mid, cat[j].id@));
                let i = choose|i: int| 0 <= i < mid.len() && #[trigger] mid[i].0 == cat[j].id@;
                lemma_upsert_keeps_keys(mid, id, crate::config::default_model(), f);
                assert(r[i].0 == mid[i].0);
            }
        }
    }
}

/// After model defaults are installed, the provider of every model that names a known
/// preset exists, and no provider entry moves.
pub proof fn lemma_routed_providers_exist(
    models: Seq<(Seq<char>, ModelOverrideView)>,
    s: Seq<(Seq<char>, ProviderConfigView)>,
)
    ensures
        ({
            let r = with_routed_providers(models, s);
            &&& r.len() >= s.len()
            &&& forall|i: int| 0 <= i < s.len() ==> (#[trigger] r[i]).0 == s[i].0
            &&& forall|j: int|
                0 <= j < models.len() && (#[trigger] routed_preset(models[j].1)) is Some ==> has_key(
                    r,
                    preset_name(routed_preset(models[j].1)->0),
                )
        }),
    decreases models.len(),
{
    if models.len() > 0 {
        let before = with_routed_providers(models.drop_last(), s);
        lemma_routed_providers_exist(models.drop_last(), s);
        let r = with_routed_providers(models, s);
        match routed_preset(models.last().1) {
            Some(q) => {
                let f = |c: ProviderConfigView| with_provider_defaults(q, c);
                lemma_upsert_keeps_keys(before, preset_name(q), crate::config::default_provider(), f);
                assert forall|j: int|
                    0 <= j < models.len() && (#[trigger] routed_preset(models[j].1)) is Some implies has_key(
                    r,
                    preset_name(routed_preset(models[j].1)->0),
                ) by {
                    if j < models.len() - 1 {
                        assert(models.drop_last()[j] == models[j]);
                        let k = preset_name(routed_preset(models[j].1)->0);
                        let i = choose|i: int| 0 <= i < before.len() && #[trigger] before[i].0 == k;
                        assert(r[i].0 == before[i].0);
                    }
                }
            },
            None => {
                assert forall|j: int|
                    0 <= j < models.len() && (#[trigger] routed_preset(models[j].1)) is Some implies has_key(
                    r,
                    preset_name(routed_preset(models[j].1)->0),
                ) by {
                    if j < models.len() - 1 {
                        assert(models.drop_last()[j] == models[j]);
                    }
                }
            },
        }
    }
}

proof fn lemma_kept_models(p: ProviderPreset, s: Seq<DiscoveredModelView>)
    ensures
        kept_models(p, s).len() <= s.len(),
        forall|i: int|
            0 <= i < kept_models(p, s).len() ==> kept_model(p, #[trigger] kept_models(p, s)[i])
                && s.contains(kept_models(p, s)[i]),
    decreases s.len(),
{
    if s.len() > 0 {
        let t = s.drop_last();
        lemma_kept_models(p, t);
        let r = kept_models(p, s);
        assert forall|i: int| 0 <= i < r.len() implies kept_model(p, #[trigger] r[i]) && s.contains(
            r[i],
        ) by {
            if i < kept_models(p, t).len() {
                assert(r[i] == kept_models(p, t)[i]);
                let k = choose|k: int| 0 <= k < t.len() && t[k] == r[i];
                assert(s[k] == t[k]);
            } else {
                assert(s[s.len() - 1] == r[i]);
            }
        }
    }
}

/// Everything a model-list response yields is safe to store and show: at most 5,000
/// models, each with a safe id, fit for the agent, a display-safe name of at most 256
/// characters, a display-safe description of at most 2,048, and a context length, if
/// any, within 1..=100,000,000.
pub proof fn lemma_normalized_catalog_is_safe(p: ProviderPreset, s: Seq<DiscoveredModelView>)
    ensures
        ({
            let r = normalized_catalog(p, s);
            &&& r.len() <= MAX_PROVIDER_MODELS
            &&& forall|i: int|
                0 <= i < r.len() ==> {
                    let d = #[trigger] r[i];
                    &&& safe_model_id(d.id)
                    &&& agent_compatible(p, d.id)
                    &&& d.name matches Some(n) ==> 0 < n.len() <= MAX_MODEL_NAME_CHARS && forall|k: int|
                        0 <= k < n.len() ==> !is_ctrl(#[trigger] n[k])
                    &&& d.description matches Some(n) ==> 0 < n.len() <= MAX_MODEL_DESCRIPTION_CHARS
                        && forall|k: int| 0 <= k < n.len() ==> !is_ctrl(#[trigger] n[k])
                    &&& d.context_length matches Some(w) ==> 1 <= w <= MAX_DISCOVERED_CONTEXT
                }
        }),
{
    let t = if s.len() <= MAX_PROVIDER_MODELS {
        s
    } else {
        s.take(MAX_PROVIDER_MODELS as int)
    };
    let c = t.map_values(|d: DiscoveredModelView| cleaned_model(d));
    lemma_kept_models(p, c);
    let r = normalized_catalog(p, s);
    assert forall|i: int| 0 <= i < r.len() implies {
        let d = #[trigger] r[i];
        &&& safe_model_id(d.id)
        &&& agent_compatible(p, d.id)
        &&& d.name matches Some(n) ==> 0 < n.len() <= MAX_MODEL_NAME_CHARS && forall|k: int|
            0 <= k < n.len() ==> !is_ctrl(#[trigger] n[k])
        &&& d.description matches Some(n) ==> 0 < n.len() <= MAX_MODEL_DESCRIPTION_CHARS && forall|
            k: int,
        | 0 <= k < n.len() ==> !is_ctrl(#[trigger] n[k])
        &&& d.context_length matches Some(w) ==> 1 <= w <= MAX_DISCOVERED_CONTEXT
    } by {
        let d = r[i];
        let k = choose|k: int| 0 <= k < c.len() && c[k] == d;
        let o = t[k];
        assert(d == cleaned_model(o));
        if let Some(n) = o.name {
            lemma_sanitized_text_is_display_safe(n, MAX_MODEL_NAME_CHARS as nat);
        }
        if let Some(n) = o.description {
            lemma_sanitized_text_is_display_safe(n, MAX_MODEL_DESCRIPTION_CHARS as nat);
        }
    }
}

/// A preset's default model is described by the first entry of its catalog.
pub proof fn lemma_default_model_found(p: ProviderPreset)
    ensures
        crate::lookup::model_lookup(p, preset_values(p).model@) == Some(preset_catalog(p)[0]),
{
    reveal_strlit("glm-5.3");
    reveal_strlit("k3");
    reveal_strlit("MiniMax-M3");
    reveal_strlit("gpt-5.6-sol");
    reveal_strlit("openrouter/owl-alpha");
    reveal_strlit("LongCat-2.0");
    reveal_strlit("[1m]");
    let id = preset_values(p).model@;
    lemma_trim_between(id, 0, id.len() as int);
    assert(id.subrange(0, id.len() as int) =~= id);
    lemma_lower_idempotent(id);
    let l = lower(trim(id));
    if p == ProviderPreset::Glm {
        assert(l[l.len() - 1] != "[1m]"@[3]);
        assert(l.subrange(l.len() - 4, l.len() as int)[3] == l[l.len() - 1]);
    }
}

/// A preset is selected by its canonical name written in any ASCII case.
pub proof fn lemma_name_any_case(p: ProviderPreset, s: Seq<char>)
    requires
        lower(s) == preset_name(p),
    ensures
        preset_named(s) == Some(p),
{
    lemma_name_roundtrip(p);
    reveal_strlit("glm");
    reveal_strlit("kimi");
    reveal_strlit("minimax");
    reveal_strlit("openai");
    reveal_strlit("openrouter");
    reveal_strlit("longcat");
    let name = preset_name(p);
    assert(lower(s)[0] == lower_char(s[0]));
    assert(lower(s)[s.len() - 1] == lower_char(s[s.len() - 1]));
    assert(s.len() > 0 && 'a' <= name[0] <= 'z' && 'a' <= name[name.len() - 1] <= 'z');
    lemma_trim_between(s, 0, s.len() as int);
    assert(s.subrange(0, s.len() as int) =~= s);
    assert forall|i: int| 0 <= i < name.len() implies lower_char(#[trigger] name[i]) == name[i] by {
        assert('a' <= name[i] <= 'z');
    }
    lemma_normal_form(name);
}

/// Looking a model up ignores ASCII case: names that agree once lowercased describe
/// the same catalog entry.
pub proof fn lemma_lookup_ignores_case(p: ProviderPreset, s: Seq<char>, t: Seq<char>)
    requires
        lower(s) == lower(t),
    ensures
        model_lookup(p, s) == model_lookup(p, t),
{
    lemma_trim_lower_commute(s);
    lemma_trim_lower_commute(t);
}

/// Looking a model up ignores whitespace around the name.
pub proof fn lemma_lookup_ignores_surrounding_whitespace(
    p: ProviderPreset,
    w1: Seq<char>,
    s: Seq<char>,
    w2: Seq<char>,
)
    requires
        all_ws(w1),
        all_ws(w2),
    ensures
        model_lookup(p, w1 + s + w2) == model_lookup(p, s),
{
    lemma_trim_surrounding_ws(w1, s, w2);
}

proof fn lemma_first_exact_in(cat: Seq<ModelPreset>, id: Seq<char>)
    ensures
        first_exact(cat, id) matches Some(c) ==> cat.contains(c),
    decreases cat.len(),
{
    if cat.len() > 0 {
        lemma_first_exact_in(cat.drop_first(), id);
        if let Some(c) = first_exact(cat.drop_first(), id) {
            let k = choose|k: int| 0 <= k < cat.drop_first().len() && cat.drop_first()[k] == c;
            assert(cat[k + 1] == c);
        }
        assert(cat[0] == cat[0]);
    }
}

proof fn lemma_longest_snapshot_in(cat: Seq<ModelPreset>, id: Seq<char>)
    ensures
        longest_snapshot(cat, id) matches Some(c) ==> cat.contains(c),
    decreases cat.len(),
{
    if cat.len() > 0 {
        lemma_longest_snapshot_in(cat.drop_last(), id);
        if let Some(c) = longest_snapshot(cat.drop_last(), id) {
            let k = choose|k: int| 0 <= k < cat.drop_last().len() && cat.drop_last()[k] == c;
            assert(cat[k] == c);
        }
        assert(cat[cat.len() - 1] == cat.last());
    }
}

/// Whatever a lookup finds is an entry of the preset's own catalog.
pub proof fn lemma_lookup_in_catalog(p: ProviderPreset, s: Seq<char>)
    ensures
        model_lookup(p, s) matches Some(c) ==> preset_catalog(p).contains(c),
{
    let id = crate::lookup::lookup_id(p, s);
    lemma_first_exact_in(preset_catalog(p), id);
    lemma_longest_snapshot_in(preset_catalog(p), id);
}

/// The OpenAI filter drops every audio, realtime, transcription, speech, image,
/// search-preview, deep-research and computer-use model, in any case; the other
/// presets keep every model.
pub proof fn lemma_openai_filter_drops_special_models(id: Seq<char>)
    ensures
        has_infix(lower(id), "audio"@) ==> !agent_compatible(ProviderPreset::Openai, id),
        has_infix(lower(id), "realtime"@) ==> !agent_compatible(ProviderPreset::Openai, id),
        has_infix(lower(id), "transcribe"@) ==> !agent_compatible(ProviderPreset::Openai, id),
        has_infix(lower(id), "tts"@) ==> !agent_compatible(ProviderPreset::Openai, id),
        has_infix(lower(id), "image"@) ==> !agent_compatible(ProviderPreset::Openai, id),
        has_infix(lower(id), "search-preview"@) ==> !agent_compatible(ProviderPreset::Openai, id),
        has_infix(lower(id), "deep-research"@) ==> !agent_compatible(ProviderPreset::Openai, id),
        has_infix(lower(id), "computer-use"@) ==> !agent_compatible(ProviderPreset::Openai, id),
        forall|p: ProviderPreset| p != ProviderPreset::Openai ==> #[trigger] agent_compatible(p, id),
{
}

/// Every model a model-list response yields comes from one of its first 5,000 inputs:
/// its id is that input's trimmed id, its name and description are that input's,
/// sanitised as `sanitize_catalog_text` does (256 and 2,048 characters), its context
/// length is that input's when within 1..=100,000,000; a description already fit for
/// display comes through unchanged.
pub proof fn lemma_normalized_models_come_from_inputs(p: ProviderPreset, s: Seq<DiscoveredModelView>)
    ensures
        ({
            let r = normalized_catalog(p, s);
            forall|i: int|
                #![trigger r[i]]
                0 <= i < r.len() ==> exists|k: int|
                    0 <= k < s.len() && k < MAX_PROVIDER_MODELS && {
                        let o = #[trigger] s[k];
                        let d = r[i];
                        &&& d.id == trim(o.id)
                        &&& d.name == (match o.name {
                            Some(n) => sanitized_text(n, 256),
                            None => None,
                        })
                        &&& d.description == (match o.description {
                            Some(n) => sanitized_text(n, 2048),
                            None => None,
                        })
                        &&& d.context_length == (match o.context_length {
                            Some(w) => if 1 <= w <= 100_000_000 {
                                Some(w)
                            } else {
                                None
                            },
                            None => None,
                        })
                        &&& match o.description {
                            Some(n) => plain_text(n) && n.len() <= 2048 ==> d.description == Some(n),
                            None => true,
                        }
                    }
        }),
{
    let t = if s.len() <= MAX_PROVIDER_MODELS {
        s
    } else {
        s.take(MAX_PROVIDER_MODELS as int)
    };
    let c = t.map_values(|d: DiscoveredModelView| cleaned_model(d));
    lemma_kept_models(p, c);
    let r = normalized_catalog(p, s);
    assert forall|i: int| #![trigger r[i]] 0 <= i < r.len() implies exists|k: int|
        0 <= k < s.len() && k < MAX_PROVIDER_MODELS && {
            let o = #[trigger] s[k];
            let d = r[i];
            &&& d.id == trim(o.id)
            &&& d.name == (match o.name {
                Some(n) => sanitized_text(n, 256),
                None => None,
            })
            &&& d.description == (match o.description {
                Some(n) => sanitized_text(n, 2048),
                None => None,
            })
            &&& d.context_length == (match o.context_length {
                Some(w) => if 1 <= w <= 100_000_000 {
                    Some(w)
                } else {
                    None
                },
                None => None,
            })
            &&& match o.description {
                Some(n) => plain_text(n) && n.len() <= 2048 ==> d.description == Some(n),
                None => true,
            }
        } by {
        let d = r[i];
        let k = choose|k: int| 0 <= k < c.len() && c[k] == d;
        assert(t[k] == s[k]);
        let o = s[k];
        assert(d == cleaned_model(o));
        if let Some(n) = o.description {
            if plain_text(n) && n.len() <= 2048 {
                lemma_plain_text_survives(n, 2048);
            }
        }
    }
}

/// A preset's temperature fills every model that sets none, whether or not the
/// catalog describes the model; a temperature the user set stays.
pub proof fn lemma_preset_temperature_fills_models(p: ProviderPreset, m: ModelOverrideView)
    ensures
        preset_values(p).temperature is Some && m.temperature is None
            ==> with_model_defaults(p, m).temperature == preset_values(p).temperature,
        preset_values(p).temperature is None ==> with_model_defaults(p, m).temperature
            == m.temperature,
        m.temperature is Some ==> with_model_defaults(p, m).temperature == m.temperature,
{
}

/// Distinct effort levels have distinct wire names.
pub proof fn lemma_effort_id_injective(a: ReasoningEffort, b: ReasoningEffort)
    ensures
        effort_id(a) == effort_id(b) ==> a == b,
{
    reveal_strlit("none");
    reveal_strlit("minimal");
    reveal_strlit("low");
    reveal_strlit("medium");
    reveal_strlit("high");
    reveal_strlit("xhigh");
    reveal_strlit("max");
    if effort_id(a) == effort_id(b) {
        assert(effort_id(a).len() == effort_id(b).len());
        assert(effort_id(a)[0] == effort_id(b)[0]);
        if effort_id(a).len() > 1 {
            assert(effort_id(a)[1] == effort_id(b)[1]);
        }
    }
}

/// Each effort option offers its own level, in order, under that level's wire name,
/// marked default exactly when it is the default level; so options of distinct levels
/// carry distinct ids.
pub proof fn lemma_effort_options_name_their_levels(levels: Seq<ReasoningEffort>, d: ReasoningEffort)
    ensures
        ({
            let o = effort_options(levels, d);
            &&& o.len() == levels.len()
            &&& forall|i: int|
                0 <= i < o.len() ==> (#[trigger] o[i]).value == levels[i] && o[i].id == effort_id(
                    levels[i],
                ) && o[i].default == (levels[i] == d)
            &&& (forall|i: int, j: int|
                0 <= i < j < levels.len() ==> #[trigger] levels[i] != #[trigger] levels[j])
                ==> forall|i: int, j: int| 0 <= i < j < o.len() ==> #[trigger] o[i].id != #[trigger] o[j].id
        }),
{
    let o = effort_options(levels, d);
    if forall|i: int, j: int| 0 <= i < j < levels.len() ==> #[trigger] levels[i] != #[trigger] levels[j] {
        assert forall|i: int, j: int| 0 <= i < j < o.len() implies #[trigger] o[i].id != #[trigger] o[j].id by {
            lemma_effort_id_injective(levels[i], levels[j]);
        }
    }
}

/// A model that lists no effort options gets, when filled from a preset, options whose
/// ids are each the wire name of their own level, pairwise distinct.
pub proof fn lemma_filled_effort_options_are_distinct(p: ProviderPreset, m: ModelOverrideView)
    requires
        m.reasoning_efforts.len() == 0,
    ensures
        ({
            let o = with_model_defaults(p, m).reasoning_efforts;
            &&& forall|i: int| 0 <= i < o.len() ==> (#[trigger] o[i]).id == effort_id(o[i].value)
            &&& forall|i: int, j: int| 0 <= i < j < o.len() ==> #[trigger] o[i].id != #[trigger] o[j].id
        }),
{
    crate::catalog_laws::lemma_catalogs_well_formed();
    let v = preset_values(p);
    let id = match m.model {
        Some(x) => x,
        None => v.model@,
    };
    if let Some(c) = model_lookup(p, id) {
        if let Some(e) = c.effort {
            let d = match m.reasoning_effort {
                Some(x) => x,
                None => profile_default(e),
            };
            let l = profile_levels(e);
            assert(forall|i: int, j: int| 0 <= i < j < l.len() ==> #[trigger] l[i] != #[trigger] l[j]);
            lemma_effort_options_name_their_levels(l, d);
        }
    }
}

/// A discovered model names its entry's model id when the entry names none, and keeps
/// the id the entry names.
pub proof fn lemma_discovery_names_model(p: ProviderPreset, m: ModelOverrideView, d: DiscoveredModelView)
    ensures
        discovery_merge(p, m, d).model == Some(
            match m.model {
                Some(x) => x,
                None => trim(d.id),
            },
        ),
{
}

/// After discovery, every new entry names exactly its key (the discovered trimmed id)
/// as its model id, and every existing entry keeps its model id or, having none, gets
/// its key.
pub proof fn lemma_discovered_entries_name_their_id(
    p: ProviderPreset,
    s: Seq<(Seq<char>, ModelOverrideView)>,
    ds: Seq<DiscoveredModelView>,
)
    ensures
        ({
            let r = with_discovered(p, s, ds);
            &&& r.len() >= s.len()
            &&& forall|i: int| s.len() <= i < r.len() ==> (#[trigger] r[i]).1.model == Some(r[i].0)
            &&& forall|i: int|
                0 <= i < s.len() ==> (#[trigger] r[i]).0 == s[i].0 && (r[i].1.model == s[i].1.model
                    || (s[i].1.model is None && r[i].1.model == Some(s[i].0)))
        }),
    decreases ds.len(),
{
    if ds.len() > 0 {
        let d = ds.last();
        let k = trim(d.id);
        let mid = with_discovered(p, s, ds.drop_last());
        lemma_discovered_entries_name_their_id(p, s, ds.drop_last());
        let f = |m: ModelOverrideView| discovery_merge(p, m, d);
        let r = with_discovered(p, s, ds);
        assert(r == upsert(mid, k, crate::config::default_model(), f));
        lemma_upsert_keeps_keys(mid, k, crate::config::default_model(), f);
        assert forall|i: int| 0 <= i < r.len() implies (i < mid.len() ==> #[trigger] r[i].0 == mid[i].0
            && (r[i].1 == mid[i].1 || (mid[i].0 == k && r[i].1 == f(mid[i].1)))) && (i >= mid.len()
            ==> r[i].0 == k && r[i].1 == f(crate::config::default_model())) by {
            if has_key(mid, k) {
            } else {
            }
        }
        assert forall|i: int| s.len() <= i < r.len() implies (#[trigger] r[i]).1.model == Some(r[i].0) by {
            if i < mid.len() {
                if r[i].1 != mid[i].1 {
                    lemma_discovery_names_model(p, mid[i].1, d);
                }
            } else {
                lemma_discovery_names_model(p, crate::config::default_model(), d);
            }
        }
        assert forall|i: int| 0 <= i < s.len() implies (#[trigger] r[i]).0 == s[i].0 && (r[i].1.model
            == s[i].1.model || (s[i].1.model is None && r[i].1.model == Some(s[i].0))) by {
            assert(mid[i].0 == s[i].0);
            if r[i].1 != mid[i].1 {
                lemma_discovery_names_model(p, mid[i].1, d);
            }
        }
    }
}

} // verus!
