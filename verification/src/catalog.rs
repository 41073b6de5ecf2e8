//! The built-in data of each provider preset: its defaults and its model catalog.
use vstd::prelude::*;
use crate::config::{ApiBackend, Temperature};
use crate::effort::EffortProfile;
use crate::preset::ProviderPreset;

verus! {

/// The defaults a preset gives a provider and its models.
#[derive(Clone, Copy, Debug)]
pub struct PresetValues {
    pub model: &'static str,
    pub base_url: &'static str,
    pub env_key: &'static str,
    pub name: &'static str,
    pub description: &'static str,
    pub api_backend: ApiBackend,
    pub context_window: u64,
    pub temperature: Option<Temperature>,
}

/// One model of a preset's built-in catalog.
#[derive(Clone, Copy, Debug)]
pub struct ModelPreset {
    pub id: &'static str,
    pub name: &'static str,
    pub description: &'static str,
    pub context_window: u64,
    pub effort: Option<EffortProfile>,
}

/// The defaults of each preset.
pub open spec fn preset_values(p: ProviderPreset) -> PresetValues {
    match p {
        ProviderPreset::Glm => PresetValues {
            model: "glm-5.3",
            base_url: "https://api.z.ai/api/coding/paas/v4",
            env_key: "ZAI_API_KEY",
            name: "GLM 5.3 (Z.AI Coding Plan)",
            description: "Latest GLM 5.x coding model through the Z.AI Coding Plan endpoint",
            api_backend: ApiBackend::ChatCompletions,
            context_window: 1_000_000,
            temperature: Some(Temperature { millis: 1000 }),
        },
        ProviderPreset::Kimi => PresetValues {
            model: "k3",
            base_url: "https://api.kimi.com/coding/v1",
            env_key: "KIMI_API_KEY",
            name: "Kimi K3",
            description: "Kimi K3 through Moonshot's coding endpoint",
            api_backend: ApiBackend::ChatCompletions,
            context_window: 1_048_576,
            temperature: None,
        },
        ProviderPreset::Minimax => PresetValues {
            model: "MiniMax-M3",
            base_url: "https://api.minimax.io/v1",
            env_key: "MINIMAX_API_KEY",
            name: "MiniMax M3",
            description: "MiniMax M3 through the Token Plan endpoint",
            api_backend: ApiBackend::Responses,
            context_window: 1_000_000,
            temperature: None,
        },
        ProviderPreset::Openai => PresetValues {
            model: "gpt-5.6-sol",
            base_url: "https://api.openai.com/v1",
            env_key: "OPENAI_API_KEY",
            name: "OpenAI",
            description: "OpenAI platform model through the Responses API",
            api_backend: ApiBackend::Responses,
            context_window: 1_050_000,
            temperature: None,
        },
        ProviderPreset::Openrouter => PresetValues {
            model: "openrouter/owl-alpha",
            base_url: "https://openrouter.ai/api/v1",
            env_key: "OPENROUTER_API_KEY",
            name: "OpenRouter",
            description: "OpenRouter's OpenAI-compatible multi-model endpoint",
            api_backend: ApiBackend::ChatCompletions,
            context_window: 1_050_000,
            temperature: None,
        },
        ProviderPreset::Longcat => PresetValues {
            model: "LongCat-2.0",
            base_url: "https://api.longcat.chat/openai/v1",
            env_key: "LONGCAT_API_KEY",
            name: "LongCat 2.0",
            description: "LongCat through Meituan's OpenAI-compatible endpoint",
            api_backend: ApiBackend::ChatCompletions,
            context_window: 1_000_000,
            temperature: Some(Temperature { millis: 1000 }),
        },
    }
}

/// The built-in model catalog of each preset, newest model first.
pub open spec fn preset_catalog(p: ProviderPreset) -> Seq<ModelPreset> {
    match p {
        ProviderPreset::Glm => seq![
            ModelPreset {
                id: "glm-5.3",
                name: "GLM 5.3",
                description: "Latest GLM flagship model for coding and long-horizon agent tasks",
                context_window: 1_000_000,
                effort: Some(EffortProfile::Glm),
            },
            ModelPreset {
                id: "glm-5.2",
                name: "GLM 5.2",
                description: "GLM flagship model with a 1M-token context window",
                context_window: 1_000_000,
                effort: Some(EffortProfile::Glm),
            },
            ModelPreset {
                id: "glm-5.1",
                name: "GLM 5.1",
                description: "GLM 5.1 agentic coding model",
                context_window: 200_000,
                effort: None,
            },
            ModelPreset {
                id: "glm-5-turbo",
                name: "GLM 5 Turbo",
                description: "Low-latency GLM 5 model for agentic coding",
                context_window: 200_000,
                effort: None,
            },
            ModelPreset {
                id: "glm-5",
                name: "GLM 5",
                description: "GLM 5 foundation model for agentic engineering",
                context_window: 200_000,
                effort: None,
            },
            ModelPreset {
                id: "glm-4.7",
                name: "GLM 4.7",
                description: "GLM coding and agent model",
                context_window: 200_000,
                effort: None,
            },
            ModelPreset {
                id: "glm-4.6",
                name: "GLM 4.6",
                description: "GLM coding model",
                context_window: 200_000,
                effort: None,
            },
            ModelPreset {
                id: "glm-4.5",
                name: "GLM 4.5",
                description: "GLM general-purpose model",
                context_window: 128_000,
                effort: None,
            },
            ModelPreset {
                id: "glm-4.5-air",
                name: "GLM 4.5 Air",
                description: "Fast GLM 4.5 model",
                context_window: 128_000,
                effort: None,
            },
        ],
        ProviderPreset::Kimi => seq![
            ModelPreset {
                id: "k3",
                name: "Kimi K3",
                description: "Kimi's flagship coding model with a 1M-token context window",
                context_window: 1_048_576,
                effort: Some(EffortProfile::Kimi),
            },
            ModelPreset {
                id: "k3-256k",
                name: "Kimi K3 256K",
                description: "Kimi K3 with a quota-efficient 256K context window",
                context_window: 262_144,
                effort: Some(EffortProfile::Kimi),
            },
            ModelPreset {
                id: "kimi-for-coding",
                name: "Kimi K2.7 Code",
                description: "Kimi coding model for routine development tasks",
                context_window: 262_144,
                effort: None,
            },
            ModelPreset {
                id: "kimi-for-coding-highspeed",
                name: "Kimi K2.7 Code HighSpeed",
                description: "High-throughput Kimi coding model",
                context_window: 262_144,
                effort: None,
            },
        ],
        ProviderPreset::Minimax => seq![
            ModelPreset {
                id: "MiniMax-M3",
                name: "MiniMax M3",
                description: "Latest MiniMax flagship model for coding and agent tasks",
                context_window: 1_000_000,
                effort: None,
            },
            ModelPreset {
                id: "MiniMax-M2.7",
                name: "MiniMax M2.7",
                description: "MiniMax model for software engineering and agent workflows",
                context_window: 204_800,
                effort: None,
            },
            ModelPreset {
                id: "MiniMax-M2.7-highspeed",
                name: "MiniMax M2.7 HighSpeed",
                description: "High-throughput MiniMax M2.7",
                context_window: 204_800,
                effort: None,
            },
            ModelPreset {
                id: "MiniMax-M2.5",
                name: "MiniMax M2.5",
                description: "MiniMax coding and reasoning model",
                context_window: 204_800,
                effort: None,
            },
            ModelPreset {
                id: "MiniMax-M2.5-highspeed",
                name: "MiniMax M2.5 HighSpeed",
                description: "High-throughput MiniMax M2.5",
                context_window: 204_800,
                effort: None,
            },
            ModelPreset {
                id: "MiniMax-M2.1",
                name: "MiniMax M2.1",
                description: "Legacy MiniMax coding model",
                context_window: 204_800,
                effort: None,
            },
            ModelPreset {
                id: "MiniMax-M2.1-highspeed",
                name: "MiniMax M2.1 HighSpeed",
                description: "High-throughput MiniMax M2.1",
                context_window: 204_800,
                effort: None,
            },
            ModelPreset {
                id: "MiniMax-M2",
                name: "MiniMax M2",
                description: "Legacy MiniMax agentic reasoning model",
                context_window: 204_800,
                effort: None,
            },
        ],
        ProviderPreset::Openai => seq![
            ModelPreset {
                id: "gpt-5.6-sol",
                name: "GPT-5.6 Sol",
                description: "OpenAI frontier model for complex professional work",
                context_window: 1_050_000,
                effort: Some(EffortProfile::Openai56),
            },
            ModelPreset {
                id: "gpt-5.6",
                name: "GPT-5.6",
                description: "Alias for OpenAI's GPT-5.6 Sol model",
                context_window: 1_050_000,
                effort: Some(EffortProfile::Openai56),
            },
            ModelPreset {
                id: "gpt-5.6-terra",
                name: "GPT-5.6 Terra",
                description: "OpenAI model balancing intelligence and cost",
                context_window: 1_050_000,
                effort: Some(EffortProfile::Openai56),
            },
            ModelPreset {
                id: "gpt-5.6-luna",
                name: "GPT-5.6 Luna",
                description: "OpenAI model optimized for cost-sensitive workloads",
                context_window: 1_050_000,
                effort: Some(EffortProfile::Openai56),
            },
            ModelPreset {
                id: "gpt-5.5",
                name: "GPT-5.5",
                description: "OpenAI frontier model for coding and professional work",
                context_window: 1_050_000,
                effort: Some(EffortProfile::Openai55),
            },
            ModelPreset {
                id: "gpt-5.5-pro",
                name: "GPT-5.5 Pro",
                description: "Higher-compute GPT-5.5 model",
                context_window: 1_050_000,
                effort: Some(EffortProfile::Openai55Pro),
            },
            ModelPreset {
                id: "gpt-5.4",
                name: "GPT-5.4",
                description: "OpenAI model for coding and professional work",
                context_window: 1_050_000,
                effort: Some(EffortProfile::Openai54),
            },
            ModelPreset {
                id: "gpt-5.4-pro",
                name: "GPT-5.4 Pro",
                description: "Higher-compute GPT-5.4 model",
                context_window: 1_050_000,
                effort: Some(EffortProfile::Openai54Pro),
            },
            ModelPreset {
                id: "gpt-5.4-mini",
                name: "GPT-5.4 mini",
                description: "Efficient OpenAI model for coding and subagents",
                context_window: 400_000,
                effort: Some(EffortProfile::Openai54),
            },
            ModelPreset {
                id: "gpt-5.4-nano",
                name: "GPT-5.4 nano",
                description: "Low-cost OpenAI model for high-volume tasks",
                context_window: 400_000,
                effort: Some(EffortProfile::Openai54),
            },
            ModelPreset {
                id: "gpt-5.3-codex",
                name: "GPT-5.3-Codex",
                description: "OpenAI model optimized for agentic coding",
                context_window: 400_000,
                effort: Some(EffortProfile::OpenaiCodex),
            },
            ModelPreset {
                id: "gpt-5.2",
                name: "GPT-5.2",
                description: "OpenAI reasoning model for professional work",
                context_window: 400_000,
                effort: Some(EffortProfile::Openai54),
            },
            ModelPreset {
                id: "gpt-5.2-pro",
                name: "GPT-5.2 Pro",
                description: "Higher-compute GPT-5.2 model",
                context_window: 400_000,
                effort: Some(EffortProfile::Openai55Pro),
            },
            ModelPreset {
                id: "gpt-5.1",
                name: "GPT-5.1",
                description: "OpenAI coding and agentic reasoning model",
                context_window: 400_000,
                effort: Some(EffortProfile::Openai51),
            },
            ModelPreset {
                id: "gpt-5",
                name: "GPT-5",
                description: "OpenAI general-purpose reasoning model",
                context_window: 400_000,
                effort: Some(EffortProfile::Openai5),
            },
            ModelPreset {
                id: "gpt-5-mini",
                name: "GPT-5 mini",
                description: "Cost-efficient GPT-5 model",
                context_window: 400_000,
                effort: Some(EffortProfile::Openai5),
            },
            ModelPreset {
                id: "gpt-5-nano",
                name: "GPT-5 nano",
                description: "Low-cost GPT-5 model",
                context_window: 400_000,
                effort: Some(EffortProfile::Openai5),
            },
            ModelPreset {
                id: "gpt-5-pro",
                name: "GPT-5 Pro",
                description: "Higher-compute GPT-5 model",
                context_window: 400_000,
                effort: Some(EffortProfile::OpenaiHighOnly),
            },
            ModelPreset {
                id: "o3-pro",
                name: "o3-pro",
                description: "Higher-compute OpenAI o3 reasoning model",
                context_window: 200_000,
                effort: Some(EffortProfile::OpenaiHighOnly),
            },
            ModelPreset {
                id: "o3",
                name: "o3",
                description: "OpenAI reasoning model for complex tasks",
                context_window: 200_000,
                effort: Some(EffortProfile::OpenaiO3),
            },
            ModelPreset {
                id: "gpt-4.1",
                name: "GPT-4.1",
                description: "OpenAI non-reasoning model",
                context_window: 1_047_576,
                effort: None,
            },
            ModelPreset {
                id: "gpt-4.1-mini",
                name: "GPT-4.1 mini",
                description: "Fast OpenAI non-reasoning model",
                context_window: 1_047_576,
                effort: None,
            },
            ModelPreset {
                id: "gpt-4o",
                name: "GPT-4o",
                description: "OpenAI multimodal general-purpose model",
                context_window: 128_000,
                effort: None,
            },
            ModelPreset {
                id: "gpt-4o-mini",
                name: "GPT-4o mini",
                description: "Fast, affordable OpenAI model",
                context_window: 128_000,
                effort: None,
            },
            ModelPreset {
                id: "chat-latest",
                name: "Chat Latest",
                description: "Latest OpenAI Chat model alias",
                context_window: 400_000,
                effort: None,
            },
        ],
        ProviderPreset::Openrouter => seq![
            ModelPreset {
                id: "openrouter/owl-alpha",
                name: "OpenRouter Auto",
                description: "OpenRouter's automatic model router",
                context_window: 1_050_000,
                effort: None,
            },
        ],
        ProviderPreset::Longcat => seq![
            ModelPreset {
                id: "LongCat-2.0",
                name: "LongCat 2.0",
                description: "LongCat model for coding and agentic tasks",
                context_window: 1_000_000,
                effort: None,
            },
        ],
    }
}

impl ProviderPreset {
    /// The defaults of the preset.
    pub fn values(self) -> (r: PresetValues)
        ensures
            r == preset_values(self),
    {
        match self {
            ProviderPreset::Glm => PresetValues {
                model: "glm-5.3",
                base_url: "https://api.z.ai/api/coding/paas/v4",
                env_key: "ZAI_API_KEY",
                name: "GLM 5.3 (Z.AI Coding Plan)",
                description: "Latest GLM 5.x coding model through the Z.AI Coding Plan endpoint",
                api_backend: ApiBackend::ChatCompletions,
                context_window: 1_000_000,
                temperature: Some(Temperature { millis: 1000 }),
            },
            ProviderPreset::Kimi => PresetValues {
                model: "k3",
                base_url: "https://api.kimi.com/coding/v1",
                env_key: "KIMI_API_KEY",
                name: "Kimi K3",
                description: "Kimi K3 through Moonshot's coding endpoint",
                api_backend: ApiBackend::ChatCompletions,
                context_window: 1_048_576,
                temperature: None,
            },
            ProviderPreset::Minimax => PresetValues {
                model: "MiniMax-M3",
                base_url: "https://api.minimax.io/v1",
                env_key: "MINIMAX_API_KEY",
                name: "MiniMax M3",
                description: "MiniMax M3 through the Token Plan endpoint",
                api_backend: ApiBackend::Responses,
                context_window: 1_000_000,
                temperature: None,
            },
            ProviderPreset::Openai => PresetValues {
                model: "gpt-5.6-sol",
                base_url: "https://api.openai.com/v1",
                env_key: "OPENAI_API_KEY",
                name: "OpenAI",
                description: "OpenAI platform model through the Responses API",
                api_backend: ApiBackend::Responses,
                context_window: 1_050_000,
                temperature: None,
            },
            ProviderPreset::Openrouter => PresetValues {
                model: "openrouter/owl-alpha",
                base_url: "https://openrouter.ai/api/v1",
                env_key: "OPENROUTER_API_KEY",
                name: "OpenRouter",
                description: "OpenRouter's OpenAI-compatible multi-model endpoint",
                api_backend: ApiBackend::ChatCompletions,
                context_window: 1_050_000,
                temperature: None,
            },
            ProviderPreset::Longcat => PresetValues {
                model: "LongCat-2.0",
                base_url: "https://api.longcat.chat/openai/v1",
                env_key: "LONGCAT_API_KEY",
                name: "LongCat 2.0",
                description: "LongCat through Meituan's OpenAI-compatible endpoint",
                api_backend: ApiBackend::ChatCompletions,
                context_window: 1_000_000,
                temperature: Some(Temperature { millis: 1000 }),
            },
        }
    }

    /// The built-in model catalog of the preset, newest model first.
    pub fn model_catalog(self) -> (r: Vec<ModelPreset>)
        ensures
            r@ == preset_catalog(self),
    {
        match self {
            ProviderPreset::Glm => vec![
                ModelPreset {
                    id: "glm-5.3",
                    name: "GLM 5.3",
                    description: "Latest GLM flagship model for coding and long-horizon agent tasks",
                    context_window: 1_000_000,
                    effort: Some(EffortProfile::Glm),
                },
                ModelPreset {
                    id: "glm-5.2",
                    name: "GLM 5.2",
                    description: "GLM flagship model with a 1M-token context window",
                    context_window: 1_000_000,
                    effort: Some(EffortProfile::Glm),
                },
                ModelPreset {
                    id: "glm-5.1",
                    name: "GLM 5.1",
                    description: "GLM 5.1 agentic coding model",
                    context_window: 200_000,
                    effort: None,
                },
                ModelPreset {
                    id: "glm-5-turbo",
                    name: "GLM 5 Turbo",
                    description: "Low-latency GLM 5 model for agentic coding",
                    context_window: 200_000,
                    effort: None,
                },
                ModelPreset {
                    id: "glm-5",
                    name: "GLM 5",
                    description: "GLM 5 foundation model for agentic engineering",
                    context_window: 200_000,
                    effort: None,
                },
                ModelPreset {
                    id: "glm-4.7",
                    name: "GLM 4.7",
                    description: "GLM coding and agent model",
                    context_window: 200_000,
                    effort: None,
                },
                ModelPreset {
                    id: "glm-4.6",
                    name: "GLM 4.6",
                    description: "GLM coding model",
                    context_window: 200_000,
                    effort: None,
                },
                ModelPreset {
                    id: "glm-4.5",
                    name: "GLM 4.5",
                    description: "GLM general-purpose model",
                    context_window: 128_000,
                    effort: None,
                },
                ModelPreset {
                    id: "glm-4.5-air",
                    name: "GLM 4.5 Air",
                    description: "Fast GLM 4.5 model",
                    context_window: 128_000,
                    effort: None,
                },
            ],
            ProviderPreset::Kimi => vec![
                ModelPreset {
                    id: "k3",
                    name: "Kimi K3",
                    description: "Kimi's flagship coding model with a 1M-token context window",
                    context_window: 1_048_576,
                    effort: Some(EffortProfile::Kimi),
                },
                ModelPreset {
                    id: "k3-256k",
                    name: "Kimi K3 256K",
                    description: "Kimi K3 with a quota-efficient 256K context window",
                    context_window: 262_144,
                    effort: Some(EffortProfile::Kimi),
                },
                ModelPreset {
                    id: "kimi-for-coding",
                    name: "Kimi K2.7 Code",
                    description: "Kimi coding model for routine development tasks",
                    context_window: 262_144,
                    effort: None,
                },
                ModelPreset {
                    id: "kimi-for-coding-highspeed",
                    name: "Kimi K2.7 Code HighSpeed",
                    description: "High-throughput Kimi coding model",
                    context_window: 262_144,
                    effort: None,
                },
            ],
            ProviderPreset::Minimax => vec![
                ModelPreset {
                    id: "MiniMax-M3",
                    name: "MiniMax M3",
                    description: "Latest MiniMax flagship model for coding and agent tasks",
                    context_window: 1_000_000,
                    effort: None,
                },
                ModelPreset {
                    id: "MiniMax-M2.7",
                    name: "MiniMax M2.7",
                    description: "MiniMax model for software engineering and agent workflows",
                    context_window: 204_800,
                    effort: None,
                },
                ModelPreset {
                    id: "MiniMax-M2.7-highspeed",
                    name: "MiniMax M2.7 HighSpeed",
                    description: "High-throughput MiniMax M2.7",
                    context_window: 204_800,
                    effort: None,
                },
                ModelPreset {
                    id: "MiniMax-M2.5",
                    name: "MiniMax M2.5",
                    description: "MiniMax coding and reasoning model",
                    context_window: 204_800,
                    effort: None,
                },
                ModelPreset {
                    id: "MiniMax-M2.5-highspeed",
                    name: "MiniMax M2.5 HighSpeed",
                    description: "High-throughput MiniMax M2.5",
                    context_window: 204_800,
                    effort: None,
                },
                ModelPreset {
                    id: "MiniMax-M2.1",
                    name: "MiniMax M2.1",
                    description: "Legacy MiniMax coding model",
                    context_window: 204_800,
                    effort: None,
                },
                ModelPreset {
                    id: "MiniMax-M2.1-highspeed",
                    name: "MiniMax M2.1 HighSpeed",
                    description: "High-throughput MiniMax M2.1",
                    context_window: 204_800,
                    effort: None,
                },
                ModelPreset {
                    id: "MiniMax-M2",
                    name: "MiniMax M2",
                    description: "Legacy MiniMax agentic reasoning model",
                    context_window: 204_800,
                    effort: None,
                },
            ],
            ProviderPreset::Openai => vec![
                ModelPreset {
                    id: "gpt-5.6-sol",
                    name: "GPT-5.6 Sol",
                    description: "OpenAI frontier model for complex professional work",
                    context_window: 1_050_000,
                    effort: Some(EffortProfile::Openai56),
                },
                ModelPreset {
                    id: "gpt-5.6",
                    name: "GPT-5.6",
                    description: "Alias for OpenAI's GPT-5.6 Sol model",
                    context_window: 1_050_000,
                    effort: Some(EffortProfile::Openai56),
                },
                ModelPreset {
                    id: "gpt-5.6-terra",
                    name: "GPT-5.6 Terra",
                    description: "OpenAI model balancing intelligence and cost",
                    context_window: 1_050_000,
                    effort: Some(EffortProfile::Openai56),
                },
                ModelPreset {
                    id: "gpt-5.6-luna",
                    name: "GPT-5.6 Luna",
                    description: "OpenAI model optimized for cost-sensitive workloads",
                    context_window: 1_050_000,
                    effort: Some(EffortProfile::Openai56),
                },
                ModelPreset {
                    id: "gpt-5.5",
                    name: "GPT-5.5",
                    description: "OpenAI frontier model for coding and professional work",
                    context_window: 1_050_000,
                    effort: Some(EffortProfile::Openai55),
                },
                ModelPreset {
                    id: "gpt-5.5-pro",
                    name: "GPT-5.5 Pro",
                    description: "Higher-compute GPT-5.5 model",
                    context_window: 1_050_000,
                    effort: Some(EffortProfile::Openai55Pro),
                },
                ModelPreset {
                    id: "gpt-5.4",
                    name: "GPT-5.4",
                    description: "OpenAI model for coding and professional work",
                    context_window: 1_050_000,
                    effort: Some(EffortProfile::Openai54),
                },
                ModelPreset {
                    id: "gpt-5.4-pro",
                    name: "GPT-5.4 Pro",
                    description: "Higher-compute GPT-5.4 model",
                    context_window: 1_050_000,
                    effort: Some(EffortProfile::Openai54Pro),
                },
                ModelPreset {
                    id: "gpt-5.4-mini",
                    name: "GPT-5.4 mini",
                    description: "Efficient OpenAI model for coding and subagents",
                    context_window: 400_000,
                    effort: Some(EffortProfile::Openai54),
                },
                ModelPreset {
                    id: "gpt-5.4-nano",
                    name: "GPT-5.4 nano",
                    description: "Low-cost OpenAI model for high-volume tasks",
                    context_window: 400_000,
                    effort: Some(EffortProfile::Openai54),
                },
                ModelPreset {
                    id: "gpt-5.3-codex",
                    name: "GPT-5.3-Codex",
                    description: "OpenAI model optimized for agentic coding",
                    context_window: 400_000,
                    effort: Some(EffortProfile::OpenaiCodex),
                },
                ModelPreset {
                    id: "gpt-5.2",
                    name: "GPT-5.2",
                    description: "OpenAI reasoning model for professional work",
                    context_window: 400_000,
                    effort: Some(EffortProfile::Openai54),
                },
                ModelPreset {
                    id: "gpt-5.2-pro",
                    name: "GPT-5.2 Pro",
                    description: "Higher-compute GPT-5.2 model",
                    context_window: 400_000,
                    effort: Some(EffortProfile::Openai55Pro),
                },
                ModelPreset {
                    id: "gpt-5.1",
                    name: "GPT-5.1",
                    description: "OpenAI coding and agentic reasoning model",
                    context_window: 400_000,
                    effort: Some(EffortProfile::Openai51),
                },
                ModelPreset {
                    id: "gpt-5",
                    name: "GPT-5",
                    description: "OpenAI general-purpose reasoning model",
                    context_window: 400_000,
                    effort: Some(EffortProfile::Openai5),
                },
                ModelPreset {
                    id: "gpt-5-mini",
                    name: "GPT-5 mini",
                    description: "Cost-efficient GPT-5 model",
                    context_window: 400_000,
                    effort: Some(EffortProfile::Openai5),
                },
                ModelPreset {
                    id: "gpt-5-nano",
                    name: "GPT-5 nano",
                    description: "Low-cost GPT-5 model",
                    context_window: 400_000,
                    effort: Some(EffortProfile::Openai5),
                },
                ModelPreset {
                    id: "gpt-5-pro",
                    name: "GPT-5 Pro",
                    description: "Higher-compute GPT-5 model",
                    context_window: 400_000,
                    effort: Some(EffortProfile::OpenaiHighOnly),
                },
                ModelPreset {
                    id: "o3-pro",
                    name: "o3-pro",
                    description: "Higher-compute OpenAI o3 reasoning model",
                    context_window: 200_000,
                    effort: Some(EffortProfile::OpenaiHighOnly),
                },
                ModelPreset {
                    id: "o3",
                    name: "o3",
                    description: "OpenAI reasoning model for complex tasks",
                    context_window: 200_000,
                    effort: Some(EffortProfile::OpenaiO3),
                },
                ModelPreset {
                    id: "gpt-4.1",
                    name: "GPT-4.1",
                    description: "OpenAI non-reasoning model",
                    context_window: 1_047_576,
                    effort: None,
                },
                ModelPreset {
                    id: "gpt-4.1-mini",
                    name: "GPT-4.1 mini",
                    description: "Fast OpenAI non-reasoning model",
                    context_window: 1_047_576,
                    effort: None,
                },
                ModelPreset {
                    id: "gpt-4o",
                    name: "GPT-4o",
                    description: "OpenAI multimodal general-purpose model",
                    context_window: 128_000,
                    effort: None,
                },
                ModelPreset {
                    id: "gpt-4o-mini",
                    name: "GPT-4o mini",
                    description: "Fast, affordable OpenAI model",
                    context_window: 128_000,
                    effort: None,
                },
                ModelPreset {
                    id: "chat-latest",
                    name: "Chat Latest",
                    description: "Latest OpenAI Chat model alias",
                    context_window: 400_000,
                    effort: None,
                },
            ],
            ProviderPreset::Openrouter => vec![
                ModelPreset {
                    id: "openrouter/owl-alpha",
                    name: "OpenRouter Auto",
                    description: "OpenRouter's automatic model router",
                    context_window: 1_050_000,
                    effort: None,
                },
            ],
            ProviderPreset::Longcat => vec![
                ModelPreset {
                    id: "LongCat-2.0",
                    name: "LongCat 2.0",
                    description: "LongCat model for coding and agentic tasks",
                    context_window: 1_000_000,
                    effort: None,
                },
            ],
        }
    }
}

} // verus!
