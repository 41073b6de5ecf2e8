//! Reasoning-effort levels and the effort profiles of the preset models.
use vstd::prelude::*;

verus! {

/// How hard a model reasons before it answers.
#[derive(Clone, Copy, Debug, PartialEq, Eq, Structural)]
pub enum ReasoningEffort {
    NoReasoning,
    Minimal,
    Low,
    Medium,
    High,
    Xhigh,
    Max,
}

/// The wire name of an effort level.
pub open spec fn effort_id(e: ReasoningEffort) -> Seq<char> {
    match e {
        ReasoningEffort::NoReasoning => "none"@,
        ReasoningEffort::Minimal => "minimal"@,
        ReasoningEffort::Low => "low"@,
        ReasoningEffort::Medium => "medium"@,
        ReasoningEffort::High => "high"@,
        ReasoningEffort::Xhigh => "xhigh"@,
        ReasoningEffort::Max => "max"@,
    }
}

/// The words that name an effort level in a label.
pub open spec fn effort_label_text(e: ReasoningEffort) -> Seq<char> {
    match e {
        ReasoningEffort::NoReasoning => "No"@,
        ReasoningEffort::Minimal => "Minimal"@,
        ReasoningEffort::Low => "Low"@,
        ReasoningEffort::Medium => "Medium"@,
        ReasoningEffort::High => "High"@,
        ReasoningEffort::Xhigh => "Extra High"@,
        ReasoningEffort::Max => "Max"@,
    }
}

/// The sentence that describes an effort level.
pub open spec fn effort_description_text(e: ReasoningEffort) -> Seq<char> {
    match e {
        ReasoningEffort::NoReasoning => "Fastest response without additional reasoning"@,
        ReasoningEffort::Minimal => "Minimal reasoning for straightforward tasks"@,
        ReasoningEffort::Low => "Lightweight reasoning for faster turns"@,
        ReasoningEffort::Medium => "Balanced reasoning depth and latency"@,
        ReasoningEffort::High => "Strong reasoning for difficult tasks"@,
        ReasoningEffort::Xhigh => "Extra-deep reasoning for complex tasks"@,
        ReasoningEffort::Max => "Deepest available reasoning"@,
    }
}

impl ReasoningEffort {
    /// The wire name of the level.
    pub fn as_str(self) -> (r: &'static str)
        ensures
            r@ == effort_id(self),
    {
        match self {
            ReasoningEffort::NoReasoning => "none",
            ReasoningEffort::Minimal => "minimal",
            ReasoningEffort::Low => "low",
            ReasoningEffort::Medium => "medium",
            ReasoningEffort::High => "high",
            ReasoningEffort::Xhigh => "xhigh",
            ReasoningEffort::Max => "max",
        }
    }
}

/// The words that name an effort level in a label.
pub fn effort_label(effort: ReasoningEffort) -> (r: &'static str)
    ensures
        r@ == effort_label_text(effort),
{
    match effort {
        ReasoningEffort::NoReasoning => "No",
        ReasoningEffort::Minimal => "Minimal",
        ReasoningEffort::Low => "Low",
        ReasoningEffort::Medium => "Medium",
        ReasoningEffort::High => "High",
        ReasoningEffort::Xhigh => "Extra High",
        ReasoningEffort::Max => "Max",
    }
}

/// The sentence that describes an effort level.
pub fn effort_description(effort: ReasoningEffort) -> (r: &'static str)
    ensures
        r@ == effort_description_text(effort),
{
    match effort {
        ReasoningEffort::NoReasoning => "Fastest response without additional reasoning",
        ReasoningEffort::Minimal => "Minimal reasoning for straightforward tasks",
        ReasoningEffort::Low => "Lightweight reasoning for faster turns",
        ReasoningEffort::Medium => "Balanced reasoning depth and latency",
        ReasoningEffort::High => "Strong reasoning for difficult tasks",
        ReasoningEffort::Xhigh => "Extra-deep reasoning for complex tasks",
        ReasoningEffort::Max => "Deepest available reasoning",
    }
}

/// One effort level that a model offers, as a selectable option.
#[derive(Clone, Debug)]
pub struct ReasoningEffortOption {
    pub id: String,
    pub value: ReasoningEffort,
    pub label: String,
    pub description: Option<String>,
    pub default: bool,
}

/// An effort option with its strings taken as character sequences.
pub struct EffortOptionView {
    pub id: Seq<char>,
    pub value: ReasoningEffort,
    pub label: Seq<char>,
    pub description: Option<Seq<char>>,
    pub default: bool,
}

impl View for ReasoningEffortOption {
    type V = EffortOptionView;

    open spec fn view(&self) -> EffortOptionView {
        EffortOptionView {
            id: self.id@,
            value: self.value,
            label: self.label@,
            description: match self.description {
                Some(d) => Some(d@),
                None => None,
            },
            default: self.default,
        }
    }
}

/// The effort levels a family of models offers, and the one it uses by default.
#[derive(Clone, Copy, Debug, PartialEq, Eq, Structural)]
pub enum EffortProfile {
    Glm,
    Kimi,
    Openai56,
    Openai55,
    Openai55Pro,
    Openai54,
    Openai54Pro,
    OpenaiCodex,
    Openai51,
    Openai5,
    OpenaiO3,
    OpenaiHighOnly,
}

/// The level a profile uses by default.
pub open spec fn profile_default(p: EffortProfile) -> ReasoningEffort {
    match p {
        EffortProfile::Glm => ReasoningEffort::Max,
        EffortProfile::Kimi => ReasoningEffort::High,
        EffortProfile::Openai56 => ReasoningEffort::Medium,
        EffortProfile::Openai55 => ReasoningEffort::Medium,
        EffortProfile::Openai55Pro => ReasoningEffort::High,
        EffortProfile::Openai54 => ReasoningEffort::NoReasoning,
        EffortProfile::Openai54Pro => ReasoningEffort::Medium,
        EffortProfile::OpenaiCodex => ReasoningEffort::Medium,
        EffortProfile::Openai51 => ReasoningEffort::NoReasoning,
        EffortProfile::Openai5 => ReasoningEffort::Medium,
        EffortProfile::OpenaiO3 => ReasoningEffort::Medium,
        EffortProfile::OpenaiHighOnly => ReasoningEffort::High,
    }
}

/// The levels a profile offers, in display order.
pub open spec fn profile_levels(p: EffortProfile) -> Seq<ReasoningEffort> {
    match p {
        EffortProfile::Glm => seq![ReasoningEffort::Max, ReasoningEffort::High, ReasoningEffort::Low],
        EffortProfile::Kimi => seq![ReasoningEffort::Max, ReasoningEffort::High, ReasoningEffort::Low],
        EffortProfile::Openai56 => seq![
            ReasoningEffort::NoReasoning,
            ReasoningEffort::Low,
            ReasoningEffort::Medium,
            ReasoningEffort::High,
            ReasoningEffort::Xhigh,
            ReasoningEffort::Max,
        ],
        EffortProfile::Openai55 => seq![
            ReasoningEffort::NoReasoning,
            ReasoningEffort::Low,
            ReasoningEffort::Medium,
            ReasoningEffort::High,
            ReasoningEffort::Xhigh,
        ],
        EffortProfile::Openai55Pro => seq![
            ReasoningEffort::Medium,
            ReasoningEffort::High,
            ReasoningEffort::Xhigh,
        ],
        EffortProfile::Openai54 => seq![
            ReasoningEffort::NoReasoning,
            ReasoningEffort::Low,
            ReasoningEffort::Medium,
            ReasoningEffort::High,
            ReasoningEffort::Xhigh,
        ],
        EffortProfile::Openai54Pro => seq![
            ReasoningEffort::Medium,
            ReasoningEffort::High,
            ReasoningEffort::Xhigh,
        ],
        EffortProfile::OpenaiCodex => seq![
            ReasoningEffort::Low,
            ReasoningEffort::Medium,
            ReasoningEffort::High,
            ReasoningEffort::Xhigh,
        ],
        EffortProfile::Openai51 => seq![
            ReasoningEffort::NoReasoning,
            ReasoningEffort::Low,
            ReasoningEffort::Medium,
            ReasoningEffort::High,
        ],
        EffortProfile::Openai5 => seq![
            ReasoningEffort::Minimal,
            ReasoningEffort::Low,
            ReasoningEffort::Medium,
            ReasoningEffort::High,
        ],
        EffortProfile::OpenaiO3 => seq![
            ReasoningEffort::Low,
            ReasoningEffort::Medium,
            ReasoningEffort::High,
        ],
        EffortProfile::OpenaiHighOnly => seq![ReasoningEffort::High],
    }
}

impl EffortProfile {
    /// The level the profile uses by default.
    pub fn default_effort(self) -> (r: ReasoningEffort)
        ensures
            r == profile_default(self),
    {
        match self {
            EffortProfile::Glm => ReasoningEffort::Max,
            EffortProfile::Kimi => ReasoningEffort::High,
            EffortProfile::Openai56 => ReasoningEffort::Medium,
            EffortProfile::Openai55 => ReasoningEffort::Medium,
            EffortProfile::Openai55Pro => ReasoningEffort::High,
            EffortProfile::Openai54 => ReasoningEffort::NoReasoning,
            EffortProfile::Openai54Pro => ReasoningEffort::Medium,
            EffortProfile::OpenaiCodex => ReasoningEffort::Medium,
            EffortProfile::Openai51 => ReasoningEffort::NoReasoning,
            EffortProfile::Openai5 => ReasoningEffort::Medium,
            EffortProfile::OpenaiO3 => ReasoningEffort::Medium,
            EffortProfile::OpenaiHighOnly => ReasoningEffort::High,
        }
    }

    /// The levels the profile offers, in display order.
    pub fn levels(self) -> (r: Vec<ReasoningEffort>)
        ensures
            r@ == profile_levels(self),
    {
        match self {
            EffortProfile::Glm => vec![ReasoningEffort::Max, ReasoningEffort::High, ReasoningEffort::Low],
            EffortProfile::Kimi => vec![ReasoningEffort::Max, ReasoningEffort::High, ReasoningEffort::Low],
            EffortProfile::Openai56 => vec![
                ReasoningEffort::NoReasoning,
                ReasoningEffort::Low,
                ReasoningEffort::Medium,
                ReasoningEffort::High,
                ReasoningEffort::Xhigh,
                ReasoningEffort::Max,
            ],
            EffortProfile::Openai55 => vec![
                ReasoningEffort::NoReasoning,
                ReasoningEffort::Low,
                ReasoningEffort::Medium,
                ReasoningEffort::High,
                ReasoningEffort::Xhigh,
            ],
            EffortProfile::Openai55Pro => vec![
                ReasoningEffort::Medium,
                ReasoningEffort::High,
                ReasoningEffort::Xhigh,
            ],
            EffortProfile::Openai54 => vec![
                ReasoningEffort::NoReasoning,
                ReasoningEffort::Low,
                ReasoningEffort::Medium,
                ReasoningEffort::High,
                ReasoningEffort::Xhigh,
            ],
            EffortProfile::Openai54Pro => vec![
                ReasoningEffort::Medium,
                ReasoningEffort::High,
                ReasoningEffort::Xhigh,
            ],
            EffortProfile::OpenaiCodex => vec![
                ReasoningEffort::Low,
                ReasoningEffort::Medium,
                ReasoningEffort::High,
                ReasoningEffort::Xhigh,
            ],
            EffortProfile::Openai51 => vec![
                ReasoningEffort::NoReasoning,
                ReasoningEffort::Low,
                ReasoningEffort::Medium,
                ReasoningEffort::High,
            ],
            EffortProfile::Openai5 => vec![
                ReasoningEffort::Minimal,
                ReasoningEffort::Low,
                ReasoningEffort::Medium,
                ReasoningEffort::High,
            ],
            EffortProfile::OpenaiO3 => vec![
                ReasoningEffort::Low,
                ReasoningEffort::Medium,
                ReasoningEffort::High,
            ],
            EffortProfile::OpenaiHighOnly => vec![ReasoningEffort::High],
        }
    }
}

} // verus!
