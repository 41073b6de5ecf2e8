use indexmap::IndexMap;
use provider_presets::discovery::resolve_env_values;
use provider_presets::{
    check_catalog_length, effort_description, effort_label, is_safe_model_id,
    sanitize_catalog_text, ApiBackend, ConfigModelOverride, DiscoveredModel, EffortProfile,
    EnvKeys, ModelProviderConfig, ProviderModelsResponse, ProviderPreset, ReasoningEffort,
    Temperature, MAX_PROVIDER_CATALOG_BYTES,
};

fn model_for(provider: &str, model: Option<&str>) -> ConfigModelOverride {
    let mut m = ConfigModelOverride::default();
    m.model_provider = Some(provider.to_owned());
    m.model = model.map(str::to_owned);
    m
}

fn efforts(m: &ConfigModelOverride) -> Vec<ReasoningEffort> {
    m.reasoning_efforts.iter().map(|o| o.value).collect()
}

fn discovered(id: &str, name: Option<&str>, description: Option<&str>, context: Option<u64>) -> DiscoveredModel {
    DiscoveredModel {
        id: id.to_owned(),
        name: name.map(str::to_owned),
        description: description.map(str::to_owned),
        context_length: context,
    }
}

#[test]
fn discovered_entries_preserve_provider_routing_and_remote_metadata() {
    let response = ProviderModelsResponse {
        data: vec![discovered(
            "vendor/new-agent",
            Some("New Agent"),
            Some("A newly released tool-capable model"),
            Some(765432),
        )],
    };
    let mut models = IndexMap::new();
    let mut providers = IndexMap::new();
    ProviderPreset::Openrouter.install_selected_models(&mut models, &mut providers);
    ProviderPreset::Openrouter.install_discovered_models(response.data, &mut models);

    let discovered = &models["vendor/new-agent"];
    assert_eq!(discovered.model.as_deref(), Some("vendor/new-agent"));
    assert_eq!(discovered.model_provider.as_deref(), Some("openrouter"));
    assert_eq!(discovered.name.as_deref(), Some("New Agent"));
    assert_eq!(discovered.context_window, Some(765_432));
}

#[test]
fn openai_discovery_filters_non_agent_api_models() {
    let preset = ProviderPreset::Openai;
    assert!(preset.is_agent_compatible_model("gpt-5.6-sol"));
    assert!(preset.is_agent_compatible_model("ft:gpt-5.4:org:agent"));
    assert!(!preset.is_agent_compatible_model("gpt-image-2"));
    assert!(!preset.is_agent_compatible_model("gpt-realtime-2.1"));
    assert!(!preset.is_agent_compatible_model("text-embedding-3-large"));
}

#[test]
fn remote_catalog_fields_are_safe_for_terminal_display() {
    assert!(is_safe_model_id("vendor/agent:model-v1"));
    assert!(!is_safe_model_id("vendor/bad model"));
    assert!(!is_safe_model_id("vendor/bad\nmodel"));
    assert!(!is_safe_model_id(&"x".repeat(513)));

    assert_eq!(
        sanitize_catalog_text("  New\tAgent\nModel\u{1b}\u{7}  ".to_owned(), 64),
        Some("New Agent Model".to_owned())
    );
    assert_eq!(
        sanitize_catalog_text("long catalog name".to_owned(), 4),
        Some("long".to_owned())
    );
    assert_eq!(sanitize_catalog_text("\u{1b}\u{7}".to_owned(), 64), None);
}

#[test]
fn provider_names_are_trimmed_case_insensitive_and_aliased() {
    assert_eq!(ProviderPreset::from_name(" GLM "), Some(ProviderPreset::Glm));
    assert_eq!(ProviderPreset::from_name("zai"), Some(ProviderPreset::Glm));
    assert_eq!(ProviderPreset::from_name("Zhipu"), Some(ProviderPreset::Glm));
    assert_eq!(ProviderPreset::from_name("KIMI"), Some(ProviderPreset::Kimi));
    assert_eq!(ProviderPreset::from_name("\tminimax\n"), Some(ProviderPreset::Minimax));
    assert_eq!(ProviderPreset::from_name("OpenAI"), Some(ProviderPreset::Openai));
    assert_eq!(ProviderPreset::from_name("openrouter"), Some(ProviderPreset::Openrouter));
    assert_eq!(ProviderPreset::from_name("LongCat"), Some(ProviderPreset::Longcat));
    assert_eq!(ProviderPreset::from_name("unknown"), None);
    assert_eq!(ProviderPreset::from_name(""), None);
    assert_eq!(ProviderPreset::from_name("open ai"), None);
}

#[test]
fn every_preset_is_selected_by_its_canonical_name() {
    for preset in ProviderPreset::ALL {
        assert_eq!(ProviderPreset::from_name(preset.canonical_name()), Some(preset));
    }
    let names: Vec<&str> = ProviderPreset::ALL.iter().map(|p| p.canonical_name()).collect();
    assert_eq!(names, ["glm", "kimi", "minimax", "openai", "openrouter", "longcat"]);
}

#[test]
fn preset_env_keys_and_discovery_urls() {
    assert_eq!(ProviderPreset::Glm.env_key(), "ZAI_API_KEY");
    assert_eq!(ProviderPreset::Kimi.env_key(), "KIMI_API_KEY");
    assert_eq!(ProviderPreset::Minimax.env_key(), "MINIMAX_API_KEY");
    assert_eq!(ProviderPreset::Openai.env_key(), "OPENAI_API_KEY");
    assert_eq!(ProviderPreset::Openrouter.env_key(), "OPENROUTER_API_KEY");
    assert_eq!(ProviderPreset::Longcat.env_key(), "LONGCAT_API_KEY");
    assert_eq!(
        ProviderPreset::Glm.discovery_url(),
        "https://api.z.ai/api/coding/paas/v4/models"
    );
    assert_eq!(
        ProviderPreset::Openrouter.discovery_url(),
        "https://openrouter.ai/api/v1/models?output_modalities=text&supported_parameters=tools"
    );
    for preset in ProviderPreset::ALL {
        assert_eq!(preset.discovery_requires_auth(), preset != ProviderPreset::Openrouter);
    }
}

#[test]
fn default_model_heads_each_catalog() {
    for preset in ProviderPreset::ALL {
        let catalog = preset.model_catalog();
        assert_eq!(catalog[0].id, preset.values().model);
        let found = preset.catalog_model(preset.values().model).unwrap();
        assert_eq!(found.id, catalog[0].id);
    }
    assert_eq!(ProviderPreset::Glm.model_catalog().len(), 9);
    assert_eq!(ProviderPreset::Kimi.model_catalog().len(), 4);
    assert_eq!(ProviderPreset::Minimax.model_catalog().len(), 8);
    assert_eq!(ProviderPreset::Openai.model_catalog().len(), 25);
    assert_eq!(ProviderPreset::Openrouter.model_catalog().len(), 1);
    assert_eq!(ProviderPreset::Longcat.model_catalog().len(), 1);
}

#[test]
fn glm_model_gets_latest_model_and_coding_endpoint() {
    let mut models = IndexMap::new();
    models.insert("glm".to_owned(), model_for("glm", None));
    let mut providers = IndexMap::new();
    ProviderPreset::install_model_defaults(&mut models, &mut providers);

    let entry = &models["glm"];
    assert_eq!(entry.model.as_deref(), Some("glm-5.3"));
    assert_eq!(entry.context_window, Some(1_000_000));
    assert_eq!(entry.temperature, Some(Temperature { millis: 1000 }));
    assert_eq!(entry.supported_in_api, Some(true));
    assert_eq!(entry.name.as_deref(), Some("GLM 5.3"));
    let provider = &providers["glm"];
    assert_eq!(provider.base_url.as_deref(), Some("https://api.z.ai/api/coding/paas/v4"));
    assert_eq!(provider.api_backend, Some(ApiBackend::ChatCompletions));
    assert_eq!(provider.context_window, Some(1_000_000));
    assert_eq!(provider.env_key.as_ref().and_then(EnvKeys::primary), Some("ZAI_API_KEY"));
}

#[test]
fn glm_5x_models_get_their_documented_context_windows() {
    let mut models = IndexMap::new();
    models.insert("glm-5".to_owned(), model_for("glm", Some("glm-5")));
    models.insert("glm-5-1".to_owned(), model_for("glm", Some("glm-5.1")));
    models.insert("glm-5-turbo".to_owned(), model_for("glm", Some("glm-5-turbo")));
    models.insert("glm-5-2".to_owned(), model_for("glm", Some("glm-5.2")));
    models.insert("glm-5-3".to_owned(), model_for("zai", Some("glm-5.3")));
    let mut providers = IndexMap::new();
    ProviderPreset::install_model_defaults(&mut models, &mut providers);
    for key in ["glm-5", "glm-5-1", "glm-5-turbo"] {
        assert_eq!(models[key].context_window, Some(200_000), "{key}");
    }
    for key in ["glm-5-2", "glm-5-3"] {
        assert_eq!(models[key].context_window, Some(1_000_000), "{key}");
    }
    assert_eq!(models["glm-5-3"].model_provider.as_deref(), Some("glm"));
    assert_eq!(providers.len(), 1);
}

#[test]
fn explicit_model_fields_are_kept() {
    let mut model = model_for("glm", Some("glm-private"));
    model.context_window = Some(123_456);
    model.name = Some("Private".to_owned());
    model.temperature = Some(Temperature { millis: 300 });
    ProviderPreset::Glm.fill_model_defaults(&mut model);
    assert_eq!(model.model.as_deref(), Some("glm-private"));
    assert_eq!(model.context_window, Some(123_456));
    assert_eq!(model.name.as_deref(), Some("Private"));
    assert_eq!(model.temperature, Some(Temperature { millis: 300 }));
    assert_eq!(
        model.description.as_deref(),
        Some("Latest GLM 5.x coding model through the Z.AI Coding Plan endpoint")
    );
    assert_eq!(model.supports_reasoning_effort, None);
    assert!(model.reasoning_efforts.is_empty());
}

#[test]
fn unknown_provider_models_are_left_alone() {
    let mut models = IndexMap::new();
    models.insert("other".to_owned(), model_for("somewhere", Some("x")));
    models.insert("none".to_owned(), ConfigModelOverride::default());
    let mut providers: IndexMap<String, ModelProviderConfig> = IndexMap::new();
    ProviderPreset::install_model_defaults(&mut models, &mut providers);
    assert!(providers.is_empty());
    assert_eq!(models["other"].name, None);
    assert_eq!(models["none"].model_provider, None);
}

#[test]
fn glm_catalog_installs_versioned_models_with_native_effort_levels() {
    let mut models = IndexMap::new();
    let mut providers = IndexMap::new();
    let default = ProviderPreset::Glm.install_selected_models(&mut models, &mut providers);
    assert_eq!(default, "glm-5.3");
    assert_eq!(models.len(), 9);
    for model_id in ["glm-5.3", "glm-5.2", "glm-5.1", "glm-5-turbo", "glm-5"] {
        assert_eq!(models[model_id].model.as_deref(), Some(model_id));
    }
    for model_id in ["glm-5.3", "glm-5.2"] {
        let info = &models[model_id];
        assert_eq!(info.supports_reasoning_effort, Some(true), "{model_id}");
        assert_eq!(info.reasoning_effort, Some(ReasoningEffort::Max));
        assert_eq!(
            efforts(info),
            [ReasoningEffort::Max, ReasoningEffort::High, ReasoningEffort::Low]
        );
    }
    for model_id in ["glm-5.1", "glm-5-turbo", "glm-5"] {
        assert_eq!(models[model_id].supports_reasoning_effort, None, "{model_id}");
    }
    let options = &models["glm-5.3"].reasoning_efforts;
    assert_eq!(options[0].id, "max");
    assert_eq!(options[0].label, "Max Effort");
    assert_eq!(options[0].description.as_deref(), Some("Deepest available reasoning"));
    assert!(options[0].default);
    assert!(!options[1].default);
    assert_eq!(providers.len(), 1);
}

#[test]
fn explicit_glm_variant_gets_variant_name_and_efforts() {
    let mut model = model_for("glm", Some("glm-5.2"));
    ProviderPreset::Glm.fill_model_defaults(&mut model);
    assert_eq!(model.name.as_deref(), Some("GLM 5.2"));
    assert_eq!(model.reasoning_effort, Some(ReasoningEffort::Max));
    assert_eq!(model.supports_reasoning_effort, Some(true));
}

#[test]
fn all_catalogs_install_complete_agent_models() {
    let mut models = IndexMap::new();
    let mut providers = IndexMap::new();
    for preset in ProviderPreset::ALL {
        preset.install_selected_models(&mut models, &mut providers);
    }
    for model_id in [
        "glm-5.3",
        "glm-4.7",
        "k3",
        "k3-256k",
        "kimi-for-coding",
        "kimi-for-coding-highspeed",
        "MiniMax-M3",
        "MiniMax-M2.7",
        "MiniMax-M2.7-highspeed",
        "gpt-5.6-sol",
        "gpt-5.6-terra",
        "gpt-5.6-luna",
        "gpt-5.5",
        "gpt-5.4-mini",
        "gpt-5.3-codex",
        "openrouter/owl-alpha",
        "LongCat-2.0",
    ] {
        assert!(models.contains_key(model_id), "missing {model_id}");
    }
    assert_eq!(models.len(), 9 + 4 + 8 + 25 + 1 + 1);
    assert_eq!(providers.len(), 6);

    let kimi = &models["k3"];
    assert_eq!(kimi.context_window, Some(1_048_576));
    assert_eq!(kimi.reasoning_effort, Some(ReasoningEffort::High));
    assert_eq!(efforts(kimi), [ReasoningEffort::Max, ReasoningEffort::High, ReasoningEffort::Low]);

    let openai = &models["gpt-5.6-sol"];
    assert_eq!(openai.context_window, Some(1_050_000));
    assert_eq!(openai.reasoning_effort, Some(ReasoningEffort::Medium));
    assert_eq!(
        efforts(openai),
        [
            ReasoningEffort::NoReasoning,
            ReasoningEffort::Low,
            ReasoningEffort::Medium,
            ReasoningEffort::High,
            ReasoningEffort::Xhigh,
            ReasoningEffort::Max,
        ]
    );
    assert_eq!(providers["minimax"].api_backend, Some(ApiBackend::Responses));
    assert_eq!(providers["longcat"].base_url.as_deref(), Some("https://api.longcat.chat/openai/v1"));
    assert_eq!(models["LongCat-2.0"].temperature, Some(Temperature { millis: 1000 }));
    assert_eq!(models["k3"].temperature, None);
}

#[test]
fn openai_snapshots_inherit_family_context_and_effort_levels() {
    let mut model = model_for("openai", Some("gpt-5.6-sol-2026-08-01"));
    ProviderPreset::Openai.fill_model_defaults(&mut model);
    assert_eq!(model.context_window, Some(1_050_000));
    assert_eq!(model.reasoning_effort, Some(ReasoningEffort::Medium));
    assert!(model.reasoning_efforts.iter().any(|o| o.value == ReasoningEffort::Max));
    assert_eq!(model.name.as_deref(), Some("GPT-5.6 Sol"));

    let longest = ProviderPreset::Openai.catalog_model("gpt-5.4-mini-2026-01-01").unwrap();
    assert_eq!(longest.id, "gpt-5.4-mini");
    assert!(ProviderPreset::Openai.catalog_model("gpt-5.4x").is_none());
    assert!(ProviderPreset::Glm.catalog_model("glm-5.3-2026").is_none());
}

#[test]
fn catalog_lookup_ignores_case_whitespace_and_glm_context_marker() {
    let glm = ProviderPreset::Glm.catalog_model("  GLM-5.3[1m] ").unwrap();
    assert_eq!(glm.id, "glm-5.3");
    assert_eq!(glm.context_window, 1_000_000);
    assert!(ProviderPreset::Kimi.catalog_model("k3[1m]").is_none());
    let minimax = ProviderPreset::Minimax.catalog_model("minimax-m2.7").unwrap();
    assert_eq!(minimax.id, "MiniMax-M2.7");
    assert_eq!(minimax.effort, None);
    let o3 = ProviderPreset::Openai.catalog_model("O3").unwrap();
    assert_eq!(o3.effort, Some(EffortProfile::OpenaiO3));
}

#[test]
fn filling_model_defaults_twice_changes_nothing() {
    let mut once = model_for("kimi", None);
    ProviderPreset::Kimi.fill_model_defaults(&mut once);
    let mut twice = once.clone();
    ProviderPreset::Kimi.fill_model_defaults(&mut twice);
    assert_eq!(format!("{once:?}"), format!("{twice:?}"));
    assert_eq!(once.model.as_deref(), Some("k3"));
}

#[test]
fn reasoning_defaults_respect_user_choices() {
    let mut off = model_for("glm", Some("glm-5.3"));
    off.supports_reasoning_effort = Some(false);
    ProviderPreset::Glm.fill_model_defaults(&mut off);
    assert_eq!(off.supports_reasoning_effort, Some(false));
    assert!(off.reasoning_efforts.is_empty());
    assert_eq!(off.reasoning_effort, None);

    let mut chosen = model_for("glm", Some("glm-5.3"));
    chosen.reasoning_effort = Some(ReasoningEffort::Low);
    ProviderPreset::Glm.fill_model_defaults(&mut chosen);
    assert_eq!(chosen.reasoning_effort, Some(ReasoningEffort::Low));
    let defaults: Vec<bool> = chosen.reasoning_efforts.iter().map(|o| o.default).collect();
    assert_eq!(defaults, [false, false, true]);
}

#[test]
fn openrouter_provider_gets_title_header_once() {
    let mut providers = IndexMap::new();
    ProviderPreset::Openrouter.ensure_provider_defaults(&mut providers);
    ProviderPreset::Openrouter.ensure_provider_defaults(&mut providers);
    assert_eq!(providers.len(), 1);
    let provider = &providers["openrouter"];
    assert_eq!(provider.extra_headers.len(), 1);
    assert_eq!(provider.extra_headers["X-Title"], "Grok Build");

    let mut custom = ModelProviderConfig::default();
    custom.extra_headers.insert("X-Title".to_owned(), "Mine".to_owned());
    custom.base_url = Some("https://gateway.example/v1".to_owned());
    ProviderPreset::Openrouter.fill_provider_defaults(&mut custom);
    assert_eq!(custom.extra_headers["X-Title"], "Mine");
    assert_eq!(custom.base_url.as_deref(), Some("https://gateway.example/v1"));
    assert_eq!(custom.env_key.as_ref().and_then(EnvKeys::primary), Some("OPENROUTER_API_KEY"));

    let mut glm = ModelProviderConfig::default();
    ProviderPreset::Glm.fill_provider_defaults(&mut glm);
    assert!(glm.extra_headers.is_empty());
}

#[test]
fn discovery_merges_only_unset_metadata() {
    let mut models = IndexMap::new();
    let mut mine = model_for("openrouter", Some("vendor/model"));
    mine.name = Some("My Name".to_owned());
    models.insert("vendor/model".to_owned(), mine);
    ProviderPreset::Openrouter.install_discovered_models(
        vec![
            discovered("  vendor/model ", Some("Remote"), Some("desc"), Some(42)),
            discovered("vendor/blank", Some("   "), None, Some(0)),
        ],
        &mut models,
    );
    assert_eq!(models.len(), 2);
    assert_eq!(models.get_index(0).unwrap().0, "vendor/model");
    let m = &models["vendor/model"];
    assert_eq!(m.name.as_deref(), Some("My Name"));
    assert_eq!(m.description.as_deref(), Some("desc"));
    assert_eq!(m.context_window, Some(42));
    let blank = &models["vendor/blank"];
    assert_eq!(blank.name.as_deref(), Some("OpenRouter"));
    assert_eq!(blank.context_window, Some(1_050_000));
}

#[test]
fn normalized_catalog_keeps_safe_agent_models() {
    let models = vec![
        discovered(" gpt-5.6-sol ", Some(" GPT\t5.6 "), Some("\u{7}"), Some(0)),
        discovered("gpt-image-2", None, None, None),
        discovered("bad id", None, None, Some(5)),
        discovered("o3", None, None, Some(200_000_000)),
        discovered("o4-mini", None, None, Some(100_000_000)),
    ];
    let out = ProviderPreset::Openai.normalize_catalog(models);
    let ids: Vec<&str> = out.iter().map(|m| m.id.as_str()).collect();
    assert_eq!(ids, ["gpt-5.6-sol", "o3", "o4-mini"]);
    assert_eq!(out[0].name.as_deref(), Some("GPT 5.6"));
    assert_eq!(out[0].description, None);
    assert_eq!(out[0].context_length, None);
    assert_eq!(out[1].context_length, None);
    assert_eq!(out[2].context_length, Some(100_000_000));

    let many: Vec<DiscoveredModel> = (0..5_010).map(|i| discovered(&format!("m{i}"), None, None, None)).collect();
    let kept = ProviderPreset::Openrouter.normalize_catalog(many);
    assert_eq!(kept.len(), 5_000);
    assert_eq!(kept[4_999].id, "m4999");
}

#[test]
fn discovery_key_prefers_configured_then_env_keys_then_preset_variable() {
    let mut providers = IndexMap::new();
    assert_eq!(
        ProviderPreset::Glm.discovery_api_key(&providers, Some("from-keys".to_owned()), Some("from-env".to_owned())),
        Some("from-env".to_owned())
    );
    assert_eq!(ProviderPreset::Glm.discovery_api_key(&providers, None, Some("  ".to_owned())), None);
    assert!(!ProviderPreset::Glm.should_discover(&providers, true));

    ProviderPreset::Glm.ensure_provider_defaults(&mut providers);
    assert!(ProviderPreset::Glm.configured_env_keys(&providers).is_some());
    assert_eq!(
        ProviderPreset::Glm.discovery_api_key(&providers, Some("from-keys".to_owned()), Some("from-env".to_owned())),
        Some("from-keys".to_owned())
    );
    providers.get_mut("glm").unwrap().api_key = Some("configured".to_owned());
    assert_eq!(
        ProviderPreset::Glm.discovery_api_key(&providers, Some("from-keys".to_owned()), None),
        Some("configured".to_owned())
    );
    providers.get_mut("glm").unwrap().api_key = Some(" ".to_owned());
    providers.get_mut("glm").unwrap().env_key = None;
    assert!(ProviderPreset::Glm.configured_env_keys(&providers).is_none());
    assert_eq!(
        ProviderPreset::Glm.discovery_api_key(&providers, Some("from-keys".to_owned()), Some("from-env".to_owned())),
        Some("from-env".to_owned())
    );
    assert!(ProviderPreset::Glm.should_discover(&providers, true));
    assert!(!ProviderPreset::Glm.should_discover(&providers, false));
    assert!(!ProviderPreset::Openrouter.should_discover(&providers, false));
    ProviderPreset::Openrouter.ensure_provider_defaults(&mut providers);
    assert!(ProviderPreset::Openrouter.should_discover(&providers, false));
}

#[test]
fn catalog_size_limit_is_sixteen_mebibytes() {
    assert_eq!(MAX_PROVIDER_CATALOG_BYTES, 16 * 1024 * 1024);
    assert_eq!(check_catalog_length(None), Ok(()));
    assert_eq!(check_catalog_length(Some(MAX_PROVIDER_CATALOG_BYTES)), Ok(()));
    assert_eq!(
        check_catalog_length(Some(MAX_PROVIDER_CATALOG_BYTES + 1)),
        Err("provider catalog exceeds the 16 MiB response limit".to_owned())
    );
}

#[test]
fn effort_labels_and_descriptions() {
    assert_eq!(effort_label(ReasoningEffort::NoReasoning), "No");
    assert_eq!(effort_label(ReasoningEffort::Xhigh), "Extra High");
    assert_eq!(
        effort_description(ReasoningEffort::Minimal),
        "Minimal reasoning for straightforward tasks"
    );
    assert_eq!(ReasoningEffort::Xhigh.as_str(), "xhigh");
    assert_eq!(ReasoningEffort::NoReasoning.as_str(), "none");
}

#[test]
fn model_id_limit_counts_utf8_bytes() {
    assert!(is_safe_model_id(&"é".repeat(256)));
    assert!(!is_safe_model_id(&"é".repeat(257)));
    assert!(is_safe_model_id(&"x".repeat(512)));
    assert!(!is_safe_model_id(""));
    assert!(!is_safe_model_id("a\u{85}b"));
    assert!(!is_safe_model_id("a\u{9f}b"));
}

#[test]
fn sanitized_text_edges() {
    assert_eq!(sanitize_catalog_text("abc".to_owned(), 0), None);
    assert_eq!(sanitize_catalog_text("a\u{a0}\u{3000}b".to_owned(), 10), Some("a b".to_owned()));
    assert_eq!(sanitize_catalog_text("long catalog name".to_owned(), 5), Some("long ".to_owned()));
    assert_eq!(sanitize_catalog_text("   ".to_owned(), 5), None);
    assert_eq!(sanitize_catalog_text("ü\u{0}x".to_owned(), 5), Some("üx".to_owned()));
}

#[test]
fn discovery_keeps_a_model_routed_to_another_provider() {
    let mut models = IndexMap::new();
    models.insert("vendor/shared".to_owned(), model_for("openai", Some("vendor/shared")));
    ProviderPreset::Openrouter.install_discovered_models(
        vec![discovered("vendor/shared", Some("Remote"), None, Some(42))],
        &mut models,
    );
    assert_eq!(models.len(), 1);
    let m = &models["vendor/shared"];
    assert_eq!(m.model_provider.as_deref(), Some("openai"));
    assert_eq!(m.name.as_deref(), Some("Remote"));
    assert_eq!(m.context_window, Some(42));
    assert_eq!(m.supported_in_api, None);
}

#[test]
fn discovery_fills_a_model_routed_by_alias() {
    for alias in ["zai", "Zhipu", " GLM "] {
        let mut models = IndexMap::new();
        models.insert("glm-5.3".to_owned(), model_for(alias, Some("glm-5.3")));
        ProviderPreset::Glm.install_discovered_models(
            vec![discovered("glm-5.3", Some("   "), None, None)],
            &mut models,
        );
        let m = &models["glm-5.3"];
        assert_eq!(m.model_provider.as_deref(), Some("glm"));
        assert_eq!(m.name.as_deref(), Some("GLM 5.3"));
        assert_eq!(m.context_window, Some(1_000_000));
        assert_eq!(m.supported_in_api, Some(true));
    }
}

#[test]
fn discovery_fills_a_model_routed_here() {
    let mut models = IndexMap::new();
    models.insert("vendor/mine".to_owned(), model_for("openrouter", Some("vendor/mine")));
    ProviderPreset::Openrouter.install_discovered_models(
        vec![discovered("vendor/mine", None, None, None)],
        &mut models,
    );
    let m = &models["vendor/mine"];
    assert_eq!(m.model_provider.as_deref(), Some("openrouter"));
    assert_eq!(m.supported_in_api, Some(true));
}

#[test]
fn env_values_resolve_to_first_set_nonblank_value() {
    let values = vec![None, Some("   ".to_owned()), Some("key-two".to_owned()), Some("key-three".to_owned())];
    assert_eq!(resolve_env_values(&values), Some("key-two".to_owned()));
    assert_eq!(resolve_env_values(&vec![None, Some("\t".to_owned())]), None);
    assert_eq!(resolve_env_values(&Vec::new()), None);
}

#[test]
fn canonical_names_select_presets_in_any_case() {
    for preset in ProviderPreset::ALL {
        let upper = preset.canonical_name().to_ascii_uppercase();
        assert_eq!(ProviderPreset::from_name(&upper), Some(preset));
    }
    assert_eq!(ProviderPreset::from_name("OpenRouter"), Some(ProviderPreset::Openrouter));
}

#[test]
fn every_catalog_entry_is_found_in_any_case_and_padding() {
    let mut seen: Vec<String> = Vec::new();
    for preset in ProviderPreset::ALL {
        for entry in preset.model_catalog() {
            let padded = format!(" {}\t", entry.id.to_ascii_uppercase());
            let found = preset.catalog_model(&padded).unwrap();
            assert_eq!(found.id, entry.id);
            assert!(is_safe_model_id(entry.id));
            assert!(entry.context_window > 0);
            let lowered = entry.id.to_ascii_lowercase();
            assert!(!seen.contains(&lowered));
            seen.push(lowered);
        }
    }
    for entry in ProviderPreset::Openai.model_catalog() {
        assert!(ProviderPreset::Openai.is_agent_compatible_model(entry.id));
    }
}
