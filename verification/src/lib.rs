//! Provider presets: built-in catalogs of third-party model providers, and the rules
//! that fill a user's model and provider settings from them and from the providers'
//! model-list APIs.
pub mod text;
pub mod sanitize;
pub mod effort;
pub mod config;
pub mod index_map;
pub mod preset;
pub mod catalog;
pub mod lookup;
pub mod defaults;
pub mod discovery;
pub mod laws;
pub mod catalog_laws;

pub use catalog::{ModelPreset, PresetValues};
pub use config::{ApiBackend, ConfigModelOverride, EnvKeys, ModelProviderConfig, Temperature};
pub use discovery::{
    check_catalog_length, DiscoveredModel, ProviderModelsResponse, MAX_PROVIDER_CATALOG_BYTES,
    MAX_PROVIDER_MODELS,
};
pub use effort::{effort_description, effort_label, EffortProfile, ReasoningEffort, ReasoningEffortOption};
pub use preset::{ProviderPreset, GROK_PROVIDER_ENV};
pub use sanitize::{is_safe_model_id, sanitize_catalog_text};
pub use text::is_nonblank;
