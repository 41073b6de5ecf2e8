//! Properties of the built-in catalog data.
use vstd::prelude::*;
use crate::catalog::preset_catalog;
use crate::discovery::agent_compatible;
use crate::effort::{profile_levels, EffortProfile};
use crate::preset::ProviderPreset;
use crate::sanitize::{safe_model_id, utf8_len, MAX_MODEL_ID_BYTES};
use crate::text::{has_infix, has_prefix, is_ctrl, is_ws, lower, lower_char};

verus! {

/// `m` does not occur in `l` when no position of `l` starts with the first three
/// characters of `m`.
proof fn lemma_no_infix(l: Seq<char>, m: Seq<char>)
    requires
        m.len() >= 3,
        forall|j: int|
            0 <= j && j + m.len() <= l.len() ==> #[trigger] l[j] != m[0] || l[j + 1] != m[1] || l[j
                + 2] != m[2],
    ensures
        !has_infix(l, m),
{
    if has_infix(l, m) {
        let j = choose|j: int|
            0 <= j && j + m.len() <= l.len() && #[trigger] l.subrange(j, j + m.len()) == m;
        assert(l.subrange(j, j + m.len())[0] == l[j]);
        assert(l.subrange(j, j + m.len())[1] == l[j + 1]);
        assert(l.subrange(j, j + m.len())[2] == l[j + 2]);
    }
}

/// An OpenAI id that is lowercase, in a text family, and free of every excluded
/// marker passes the discovery filter.
proof fn lemma_openai_id_ok(id: Seq<char>)
    requires
        forall|i: int| 0 <= i < id.len() ==> lower_char(#[trigger] id[i]) == id[i],
        (id.len() >= 4 && id[0] == 'g' && id[1] == 'p' && id[2] == 't' && id[3] == '-') || (id.len()
            >= 2 && id[0] == 'o' && id[1] == '3') || id == "chat-latest"@,
        forall|j: int|
            0 <= j && j + 3 <= id.len() ==> #[trigger] id[j] != 'a' || id[j + 1] != 'u' || id[j + 2] != 'd',
        forall|j: int|
            0 <= j && j + 3 <= id.len() ==> #[trigger] id[j] != 'r' || id[j + 1] != 'e' || id[j + 2] != 'a',
        forall|j: int|
            0 <= j && j + 3 <= id.len() ==> #[trigger] id[j] != 't' || id[j + 1] != 'r' || id[j + 2] != 'a',
        forall|j: int|
            0 <= j && j + 3 <= id.len() ==> #[trigger] id[j] != 't' || id[j + 1] != 't' || id[j + 2] != 's',
        forall|j: int|
            0 <= j && j + 3 <= id.len() ==> #[trigger] id[j] != 'i' || id[j + 1] != 'm' || id[j + 2] != 'a',
        forall|j: int|
            0 <= j && j + 3 <= id.len() ==> #[trigger] id[j] != 's' || id[j + 1] != 'e' || id[j + 2] != 'a',
        forall|j: int|
            0 <= j && j + 3 <= id.len() ==> #[trigger] id[j] != 'd' || id[j + 1] != 'e' || id[j + 2] != 'e',
        forall|j: int|
            0 <= j && j + 3 <= id.len() ==> #[trigger] id[j] != 'c' || id[j + 1] != 'o' || id[j + 2] != 'm',
    ensures
        agent_compatible(ProviderPreset::Openai, id),
{
    reveal_strlit("audio");
    reveal_strlit("realtime");
    reveal_strlit("transcribe");
    reveal_strlit("tts");
    reveal_strlit("image");
    reveal_strlit("search-preview");
    reveal_strlit("deep-research");
    reveal_strlit("computer-use");
    reveal_strlit("gpt-");
    reveal_strlit("o1");
    reveal_strlit("o3");
    reveal_strlit("o4");
    reveal_strlit("ft:");
    reveal_strlit("chat-latest");
    assert(lower(id) =~= id);
    if id.len() >= 4 && id[0] == 'g' && id[1] == 'p' && id[2] == 't' && id[3] == '-' {
        assert(id.subrange(0, 4) =~= "gpt-"@);
    } else if id.len() >= 2 && id[0] == 'o' && id[1] == '3' {
        assert(id.subrange(0, 2) =~= "o3"@);
    }
    lemma_no_infix(id, "audio"@);
    lemma_no_infix(id, "realtime"@);
    lemma_no_infix(id, "transcribe"@);
    lemma_no_infix(id, "tts"@);
    lemma_no_infix(id, "image"@);
    lemma_no_infix(id, "search-preview"@);
    lemma_no_infix(id, "deep-research"@);
    lemma_no_infix(id, "computer-use"@);
}

/// Every model of the built-in OpenAI catalog passes the discovery filter, so
/// discovery never drops a model the static catalog offers.
pub proof fn lemma_openai_catalog_passes_filter()
    ensures
        forall|i: int|
            0 <= i < preset_catalog(ProviderPreset::Openai).len() ==> agent_compatible(
                ProviderPreset::Openai,
                (#[trigger] preset_catalog(ProviderPreset::Openai)[i]).id@,
            ),
{
    reveal_strlit("audio");
    reveal_strlit("realtime");
    reveal_strlit("transcribe");
    reveal_strlit("tts");
    reveal_strlit("image");
    reveal_strlit("search-preview");
    reveal_strlit("deep-research");
    reveal_strlit("computer-use");
    reveal_strlit("gpt-");
    reveal_strlit("o1");
    reveal_strlit("o3");
    reveal_strlit("o4");
    reveal_strlit("ft:");
    reveal_strlit("chat-latest");
    reveal_strlit("gpt-5.6-sol");
    reveal_strlit("gpt-5.6");
    reveal_strlit("gpt-5.6-terra");
    reveal_strlit("gpt-5.6-luna");
    reveal_strlit("gpt-5.5");
    reveal_strlit("gpt-5.5-pro");
    reveal_strlit("gpt-5.4");
    reveal_strlit("gpt-5.4-pro");
    reveal_strlit("gpt-5.4-mini");
    reveal_strlit("gpt-5.4-nano");
    reveal_strlit("gpt-5.3-codex");
    reveal_strlit("gpt-5.2");
    reveal_strlit("gpt-5.2-pro");
    reveal_strlit("gpt-5.1");
    reveal_strlit("gpt-5");
    reveal_strlit("gpt-5-mini");
    reveal_strlit("gpt-5-nano");
    reveal_strlit("gpt-5-pro");
    reveal_strlit("o3-pro");
    reveal_strlit("o3");
    reveal_strlit("gpt-4.1");
    reveal_strlit("gpt-4.1-mini");
    reveal_strlit("gpt-4o");
    reveal_strlit("gpt-4o-mini");
    reveal_strlit("chat-latest");
    lemma_openai_id_ok("gpt-5.6-sol"@);
    lemma_openai_id_ok("gpt-5.6"@);
    lemma_openai_id_ok("gpt-5.6-terra"@);
    lemma_openai_id_ok("gpt-5.6-luna"@);
    lemma_openai_id_ok("gpt-5.5"@);
    lemma_openai_id_ok("gpt-5.5-pro"@);
    lemma_openai_id_ok("gpt-5.4"@);
    lemma_openai_id_ok("gpt-5.4-pro"@);
    lemma_openai_id_ok("gpt-5.4-mini"@);
    lemma_openai_id_ok("gpt-5.4-nano"@);
    lemma_openai_id_ok("gpt-5.3-codex"@);
    lemma_openai_id_ok("gpt-5.2"@);
    lemma_openai_id_ok("gpt-5.2-pro"@);
    lemma_openai_id_ok("gpt-5.1"@);
    lemma_openai_id_ok("gpt-5"@);
    lemma_openai_id_ok("gpt-5-mini"@);
    lemma_openai_id_ok("gpt-5-nano"@);
    lemma_openai_id_ok("gpt-5-pro"@);
    lemma_openai_id_ok("o3-pro"@);
    lemma_openai_id_ok("o3"@);
    lemma_openai_id_ok("gpt-4.1"@);
    lemma_openai_id_ok("gpt-4.1-mini"@);
    lemma_openai_id_ok("gpt-4o"@);
    lemma_openai_id_ok("gpt-4o-mini"@);
    lemma_openai_id_ok("chat-latest"@);
}

/// UTF-8 takes at most four bytes per character.
proof fn lemma_utf8_len_bound(s: Seq<char>)
    ensures
        utf8_len(s) <= 4 * s.len(),
    decreases s.len(),
{
    if s.len() > 0 {
        lemma_utf8_len_bound(s.drop_last());
    }
}

/// A short id without control or whitespace characters is safe.
proof fn lemma_short_id_safe(id: Seq<char>)
    requires
        0 < id.len() <= 128,
        forall|i: int| 0 <= i < id.len() ==> !is_ctrl(#[trigger] id[i]) && !is_ws(id[i]),
    ensures
        safe_model_id(id),
{
    lemma_utf8_len_bound(id);
}

/// The built-in catalogs are sound data: every id is a safe model id, every context
/// window is positive, and no effort profile repeats a level.
pub proof fn lemma_catalogs_well_formed()
    ensures
        forall|p: ProviderPreset, i: int|
            0 <= i < preset_catalog(p).len() ==> safe_model_id((#[trigger] preset_catalog(p)[i]).id@)
                && preset_catalog(p)[i].context_window > 0,
        forall|e: EffortProfile, i: int, j: int|
            0 <= i < j < profile_levels(e).len() ==> #[trigger] profile_levels(e)[i]
                != #[trigger] profile_levels(e)[j],
{
    reveal_strlit("glm-5.3");
    reveal_strlit("glm-5.2");
    reveal_strlit("glm-5.1");
    reveal_strlit("glm-5-turbo");
    reveal_strlit("glm-5");
    reveal_strlit("glm-4.7");
    reveal_strlit("glm-4.6");
    reveal_strlit("glm-4.5");
    reveal_strlit("glm-4.5-air");
    reveal_strlit("k3");
    reveal_strlit("k3-256k");
    reveal_strlit("kimi-for-coding");
    reveal_strlit("kimi-for-coding-highspeed");
    reveal_strlit("MiniMax-M3");
    reveal_strlit("MiniMax-M2.7");
    reveal_strlit("MiniMax-M2.7-highspeed");
    reveal_strlit("MiniMax-M2.5");
    reveal_strlit("MiniMax-M2.5-highspeed");
    reveal_strlit("MiniMax-M2.1");
    reveal_strlit("MiniMax-M2.1-highspeed");
    reveal_strlit("MiniMax-M2");
    reveal_strlit("gpt-5.6-sol");
    reveal_strlit("gpt-5.6");
    reveal_strlit("gpt-5.6-terra");
    reveal_strlit("gpt-5.6-luna");
    reveal_strlit("gpt-5.5");
    reveal_strlit("gpt-5.5-pro");
    reveal_strlit("gpt-5.4");
    reveal_strlit("gpt-5.4-pro");
    reveal_strlit("gpt-5.4-mini");
    reveal_strlit("gpt-5.4-nano");
    reveal_strlit("gpt-5.3-codex");
    reveal_strlit("gpt-5.2");
    reveal_strlit("gpt-5.2-pro");
    reveal_strlit("gpt-5.1");
    reveal_strlit("gpt-5");
    reveal_strlit("gpt-5-mini");
    reveal_strlit("gpt-5-nano");
    reveal_strlit("gpt-5-pro");
    reveal_strlit("o3-pro");
    reveal_strlit("o3");
    reveal_strlit("gpt-4.1");
    reveal_strlit("gpt-4.1-mini");
    reveal_strlit("gpt-4o");
    reveal_strlit("gpt-4o-mini");
    reveal_strlit("chat-latest");
    reveal_strlit("openrouter/owl-alpha");
    reveal_strlit("LongCat-2.0");
    lemma_short_id_safe("glm-5.3"@);
    lemma_short_id_safe("glm-5.2"@);
    lemma_short_id_safe("glm-5.1"@);
    lemma_short_id_safe("glm-5-turbo"@);
    lemma_short_id_safe("glm-5"@);
    lemma_short_id_safe("glm-4.7"@);
    lemma_short_id_safe("glm-4.6"@);
    lemma_short_id_safe("glm-4.5"@);
    lemma_short_id_safe("glm-4.5-air"@);
    lemma_short_id_safe("k3"@);
    lemma_short_id_safe("k3-256k"@);
    lemma_short_id_safe("kimi-for-coding"@);
    lemma_short_id_safe("kimi-for-coding-highspeed"@);
    lemma_short_id_safe("MiniMax-M3"@);
    lemma_short_id_safe("MiniMax-M2.7"@);
    lemma_short_id_safe("MiniMax-M2.7-highspeed"@);
    lemma_short_id_safe("MiniMax-M2.5"@);
    lemma_short_id_safe("MiniMax-M2.5-highspeed"@);
    lemma_short_id_safe("MiniMax-M2.1"@);
    lemma_short_id_safe("MiniMax-M2.1-highspeed"@);
    lemma_short_id_safe("MiniMax-M2"@);
    lemma_short_id_safe("gpt-5.6-sol"@);
    lemma_short_id_safe("gpt-5.6"@);
    lemma_short_id_safe("gpt-5.6-terra"@);
    lemma_short_id_safe("gpt-5.6-luna"@);
    lemma_short_id_safe("gpt-5.5"@);
    lemma_short_id_safe("gpt-5.5-pro"@);
    lemma_short_id_safe("gpt-5.4"@);
    lemma_short_id_safe("gpt-5.4-pro"@);
    lemma_short_id_safe("gpt-5.4-mini"@);
    lemma_short_id_safe("gpt-5.4-nano"@);
    lemma_short_id_safe("gpt-5.3-codex"@);
    lemma_short_id_safe("gpt-5.2"@);
    lemma_short_id_safe("gpt-5.2-pro"@);
    lemma_short_id_safe("gpt-5.1"@);
    lemma_short_id_safe("gpt-5"@);
    lemma_short_id_safe("gpt-5-mini"@);
    lemma_short_id_safe("gpt-5-nano"@);
    lemma_short_id_safe("gpt-5-pro"@);
    lemma_short_id_safe("o3-pro"@);
    lemma_short_id_safe("o3"@);
    lemma_short_id_safe("gpt-4.1"@);
    lemma_short_id_safe("gpt-4.1-mini"@);
    lemma_short_id_safe("gpt-4o"@);
    lemma_short_id_safe("gpt-4o-mini"@);
    lemma_short_id_safe("chat-latest"@);
    lemma_short_id_safe("openrouter/owl-alpha"@);
    lemma_short_id_safe("LongCat-2.0"@);
}

/// Texts that differ, ignoring ASCII case, at some position differ ignoring case.
proof fn lemma_lower_differs(a: Seq<char>, b: Seq<char>, k: int)
    requires
        0 <= k < a.len(),
        k < b.len(),
        lower_char(a[k]) != lower_char(b[k]),
    ensures
        lower(a) != lower(b),
{
    assert(lower(a)[k] != lower(b)[k]);
}

/// Texts of different lengths differ ignoring case.
proof fn lemma_lower_len_differs(a: Seq<char>, b: Seq<char>)
    requires
        a.len() != b.len(),
    ensures
        lower(a) != lower(b),
{
    assert(lower(a).len() == a.len());
    assert(lower(b).len() == b.len());
}

/// The position of a preset in [`ProviderPreset::ALL`].
spec fn rank(p: ProviderPreset) -> int {
    match p {
        ProviderPreset::Glm => 0,
        ProviderPreset::Kimi => 1,
        ProviderPreset::Minimax => 2,
        ProviderPreset::Openai => 3,
        ProviderPreset::Openrouter => 4,
        ProviderPreset::Longcat => 5,
    }
}

proof fn lemma_ids_distinct_from_glm(q: ProviderPreset, i: int, j: int)
    requires
        0 <= i < preset_catalog(ProviderPreset::Glm).len(),
        0 <= j < preset_catalog(q).len(),
        rank(ProviderPreset::Glm) < rank(q) || (q == ProviderPreset::Glm && i < j),
    ensures
        lower(preset_catalog(ProviderPreset::Glm)[i].id@) != lower(preset_catalog(q)[j].id@),
{
    reveal_strlit("glm-5.3");
    reveal_strlit("glm-5.2");
    reveal_strlit("glm-5.1");
    reveal_strlit("glm-5-turbo");
    reveal_strlit("glm-5");
    reveal_strlit("glm-4.7");
    reveal_strlit("glm-4.6");
    reveal_strlit("glm-4.5");
    reveal_strlit("glm-4.5-air");
    reveal_strlit("k3");
    reveal_strlit("k3-256k");
    reveal_strlit("kimi-for-coding");
    reveal_strlit("kimi-for-coding-highspeed");
    reveal_strlit("MiniMax-M3");
    reveal_strlit("MiniMax-M2.7");
    reveal_strlit("MiniMax-M2.7-highspeed");
    reveal_strlit("MiniMax-M2.5");
    reveal_strlit("MiniMax-M2.5-highspeed");
    reveal_strlit("MiniMax-M2.1");
    reveal_strlit("MiniMax-M2.1-highspeed");
    reveal_strlit("MiniMax-M2");
    reveal_strlit("gpt-5.6-sol");
    reveal_strlit("gpt-5.6");
    reveal_strlit("gpt-5.6-terra");
    reveal_strlit("gpt-5.6-luna");
    reveal_strlit("gpt-5.5");
    reveal_strlit("gpt-5.5-pro");
    reveal_strlit("gpt-5.4");
    reveal_strlit("gpt-5.4-pro");
    reveal_strlit("gpt-5.4-mini");
    reveal_strlit("gpt-5.4-nano");
    reveal_strlit("gpt-5.3-codex");
    reveal_strlit("gpt-5.2");
    reveal_strlit("gpt-5.2-pro");
    reveal_strlit("gpt-5.1");
    reveal_strlit("gpt-5");
    reveal_strlit("gpt-5-mini");
    reveal_strlit("gpt-5-nano");
    reveal_strlit("gpt-5-pro");
    reveal_strlit("o3-pro");
    reveal_strlit("o3");
    reveal_strlit("gpt-4.1");
    reveal_strlit("gpt-4.1-mini");
    reveal_strlit("gpt-4o");
    reveal_strlit("gpt-4o-mini");
    reveal_strlit("chat-latest");
    reveal_strlit("openrouter/owl-alpha");
    reveal_strlit("LongCat-2.0");
    let a = preset_catalog(ProviderPreset::Glm);
    match q {
        ProviderPreset::Glm => {
            let b = preset_catalog(ProviderPreset::Glm);
            if i == 0 {
                if j == 1 {
                    lemma_lower_differs(a[0].id@, b[1].id@, 6);
                } else if j == 2 {
                    lemma_lower_differs(a[0].id@, b[2].id@, 6);
                } else if j == 3 {
                    lemma_lower_len_differs(a[0].id@, b[3].id@);
                } else if j == 4 {
                    lemma_lower_len_differs(a[0].id@, b[4].id@);
                } else if j == 5 {
                    lemma_lower_differs(a[0].id@, b[5].id@, 4);
                } else if j == 6 {
                    lemma_lower_differs(a[0].id@, b[6].id@, 4);
                } else if j == 7 {
                    lemma_lower_differs(a[0].id@, b[7].id@, 4);
                } else if j == 8 {
                    lemma_lower_len_differs(a[0].id@, b[8].id@);
                }
            } else if i == 1 {
                if j == 2 {
                    lemma_lower_differs(a[1].id@, b[2].id@, 6);
                } else if j == 3 {
                    lemma_lower_len_differs(a[1].id@, b[3].id@);
                } else if j == 4 {
                    lemma_lower_len_differs(a[1].id@, b[4].id@);
                } else if j == 5 {
                    lemma_lower_differs(a[1].id@, b[5].id@, 4);
                } else if j == 6 {
                    lemma_lower_differs(a[1].id@, b[6].id@, 4);
                } else if j == 7 {
                    lemma_lower_differs(a[1].id@, b[7].id@, 4);
                } else if j == 8 {
                    lemma_lower_len_differs(a[1].id@, b[8].id@);
                }
            } else if i == 2 {
                if j == 3 {
                    lemma_lower_len_differs(a[2].id@, b[3].id@);
                } else if j == 4 {
                    lemma_lower_len_differs(a[2].id@, b[4].id@);
                } else if j == 5 {
                    lemma_lower_differs(a[2].id@, b[5].id@, 4);
                } else if j == 6 {
                    lemma_lower_differs(a[2].id@, b[6].id@, 4);
                } else if j == 7 {
                    lemma_lower_differs(a[2].id@, b[7].id@, 4);
                } else if j == 8 {
                    lemma_lower_len_differs(a[2].id@, b[8].id@);
                }
            } else if i == 3 {
                if j == 4 {
                    lemma_lower_len_differs(a[3].id@, b[4].id@);
                } else if j == 5 {
                    lemma_lower_len_differs(a[3].id@, b[5].id@);
                } else if j == 6 {
                    lemma_lower_len_differs(a[3].id@, b[6].id@);
                } else if j == 7 {
                    lemma_lower_len_differs(a[3].id@, b[7].id@);
                } else if j == 8 {
                    lemma_lower_differs(a[3].id@, b[8].id@, 4);
                }
            } else if i == 4 {
                if j == 5 {
                    lemma_lower_len_differs(a[4].id@, b[5].id@);
                } else if j == 6 {
                    lemma_lower_len_differs(a[4].id@, b[6].id@);
                } else if j == 7 {
                    lemma_lower_len_differs(a[4].id@, b[7].id@);
                } else if j == 8 {
                    lemma_lower_len_differs(a[4].id@, b[8].id@);
                }
            } else if i == 5 {
                if j == 6 {
                    lemma_lower_differs(a[5].id@, b[6].id@, 6);
                } else if j == 7 {
                    lemma_lower_differs(a[5].id@, b[7].id@, 6);
                } else if j == 8 {
                    lemma_lower_len_differs(a[5].id@, b[8].id@);
                }
            } else if i == 6 {
                if j == 7 {
                    lemma_lower_differs(a[6].id@, b[7].id@, 6);
                } else if j == 8 {
                    lemma_lower_len_differs(a[6].id@, b[8].id@);
                }
            } else if i == 7 {
                if j == 8 {
                    lemma_lower_len_differs(a[7].id@, b[8].id@);
                }
            }
        },
        ProviderPreset::Kimi => {
            let b = preset_catalog(ProviderPreset::Kimi);
            if i == 0 {
                if j == 0 {
                    lemma_lower_len_differs(a[0].id@, b[0].id@);
                } else if j == 1 {
                    lemma_lower_differs(a[0].id@, b[1].id@, 0);
                } else if j == 2 {
                    lemma_lower_len_differs(a[0].id@, b[2].id@);
                } else if j == 3 {
                    lemma_lower_len_differs(a[0].id@, b[3].id@);
                }
            } else if i == 1 {
                if j == 0 {
                    lemma_lower_len_differs(a[1].id@, b[0].id@);
                } else if j == 1 {
                    lemma_lower_differs(a[1].id@, b[1].id@, 0);
                } else if j == 2 {
                    lemma_lower_len_differs(a[1].id@, b[2].id@);
                } else if j == 3 {
                    lemma_lower_len_differs(a[1].id@, b[3].id@);
                }
            } else if i == 2 {
                if j == 0 {
                    lemma_lower_len_differs(a[2].id@, b[0].id@);
                } else if j == 1 {
                    lemma_lower_differs(a[2].id@, b[1].id@, 0);
                } else if j == 2 {
                    lemma_lower_len_differs(a[2].id@, b[2].id@);
                } else if j == 3 {
                    lemma_lower_len_differs(a[2].id@, b[3].id@);
                }
            } else if i == 3 {
                if j == 0 {
                    lemma_lower_len_differs(a[3].id@, b[0].id@);
                } else if j == 1 {
                    lemma_lower_len_differs(a[3].id@, b[1].id@);
                } else if j == 2 {
                    lemma_lower_len_differs(a[3].id@, b[2].id@);
                } else if j == 3 {
                    lemma_lower_len_differs(a[3].id@, b[3].id@);
                }
            } else if i == 4 {
                if j == 0 {
                    lemma_lower_len_differs(a[4].id@, b[0].id@);
                } else if j == 1 {
                    lemma_lower_len_differs(a[4].id@, b[1].id@);
                } else if j == 2 {
                    lemma_lower_len_differs(a[4].id@, b[2].id@);
                } else if j == 3 {
                    lemma_lower_len_differs(a[4].id@, b[3].id@);
                }
            } else if i == 5 {
                if j == 0 {
                    lemma_lower_len_differs(a[5].id@, b[0].id@);
                } else if j == 1 {
                    lemma_lower_differs(a[5].id@, b[1].id@, 0);
                } else if j == 2 {
                    lemma_lower_len_differs(a[5].id@, b[2].id@);
                } else if j == 3 {
                    lemma_lower_len_differs(a[5].id@, b[3].id@);
                }
            } else if i == 6 {
                if j == 0 {
                    lemma_lower_len_differs(a[6].id@, b[0].id@);
                } else if j == 1 {
                    lemma_lower_differs(a[6].id@, b[1].id@, 0);
                } else if j == 2 {
                    lemma_lower_len_differs(a[6].id@, b[2].id@);
                } else if j == 3 {
                    lemma_lower_len_differs(a[6].id@, b[3].id@);
                }
            } else if i == 7 {
                if j == 0 {
                    lemma_lower_len_differs(a[7].id@, b[0].id@);
                } else if j == 1 {
                    lemma_lower_differs(a[7].id@, b[1].id@, 0);
                } else if j == 2 {
                    lemma_lower_len_differs(a[7].id@, b[2].id@);
                } else if j == 3 {
                    lemma_lower_len_differs(a[7].id@, b[3].id@);
                }
            } else if i == 8 {
                if j == 0 {
                    lemma_lower_len_differs(a[8].id@, b[0].id@);
                } else if j == 1 {
                    lemma_lower_len_differs(a[8].id@, b[1].id@);
                } else if j == 2 {
                    lemma_lower_len_differs(a[8].id@, b[2].id@);
                } else if j == 3 {
                    lemma_lower_len_differs(a[8].id@, b[3].id@);
                }
            }
        },
        ProviderPreset::Minimax => {
            let b = preset_catalog(ProviderPreset::Minimax);
            if i == 0 {
                if j == 0 {
                    lemma_lower_len_differs(a[0].id@, b[0].id@);
                } else if j == 1 {
                    lemma_lower_len_differs(a[0].id@, b[1].id@);
                } else if j == 2 {
                    lemma_lower_len_differs(a[0].id@, b[2].id@);
                } else if j == 3 {
                    lemma_lower_len_differs(a[0].id@, b[3].id@);
                } else if j == 4 {
                    lemma_lower_len_differs(a[0].id@, b[4].id@);
                } else if j == 5 {
                    lemma_lower_len_differs(a[0].id@, b[5].id@);
                } else if j == 6 {
                    lemma_lower_len_differs(a[0].id@, b[6].id@);
                } else if j == 7 {
                    lemma_lower_len_differs(a[0].id@, b[7].id@);
                }
            } else if i == 1 {
                if j == 0 {
                    lemma_lower_len_differs(a[1].id@, b[0].id@);
                } else if j == 1 {
                    lemma_lower_len_differs(a[1].id@, b[1].id@);
                } else if j == 2 {
                    lemma_lower_len_differs(a[1].id@, b[2].id@);
                } else if j == 3 {
                    lemma_lower_len_differs(a[1].id@, b[3].id@);
                } else if j == 4 {
                    lemma_lower_len_differs(a[1].id@, b[4].id@);
                } else if j == 5 {
                    lemma_lower_len_differs(a[1].id@, b[5].id@);
                } else if j == 6 {
                    lemma_lower_len_differs(a[1].id@, b[6].id@);
                } else if j == 7 {
                    lemma_lower_len_differs(a[1].id@, b[7].id@);
                }
            } else if i == 2 {
                if j == 0 {
                    lemma_lower_len_differs(a[2].id@, b[0].id@);
                } else if j == 1 {
                    lemma_lower_len_differs(a[2].id@, b[1].id@);
                } else if j == 2 {
                    lemma_lower_len_differs(a[2].id@, b[2].id@);
                } else if j == 3 {
                    lemma_lower_len_differs(a[2].id@, b[3].id@);
                } else if j == 4 {
                    lemma_lower_len_differs(a[2].id@, b[4].id@);
                } else if j == 5 {
                    lemma_lower_len_differs(a[2].id@, b[5].id@);
                } else if j == 6 {
                    lemma_lower_len_differs(a[2].id@, b[6].id@);
                } else if j == 7 {
                    lemma_lower_len_differs(a[2].id@, b[7].id@);
                }
            } else if i == 3 {
                if j == 0 {
                    lemma_lower_len_differs(a[3].id@, b[0].id@);
                } else if j == 1 {
                    lemma_lower_len_differs(a[3].id@, b[1].id@);
                } else if j == 2 {
                    lemma_lower_len_differs(a[3].id@, b[2].id@);
                } else if j == 3 {
                    lemma_lower_len_differs(a[3].id@, b[3].id@);
                } else if j == 4 {
                    lemma_lower_len_differs(a[3].id@, b[4].id@);
                } else if j == 5 {
                    lemma_lower_len_differs(a[3].id@, b[5].id@);
                } else if j == 6 {
                    lemma_lower_len_differs(a[3].id@, b[6].id@);
                } else if j == 7 {
                    lemma_lower_len_differs(a[3].id@, b[7].id@);
                }
            } else if i == 4 {
                if j == 0 {
                    lemma_lower_len_differs(a[4].id@, b[0].id@);
                } else if j == 1 {
                    lemma_lower_len_differs(a[4].id@, b[1].id@);
                } else if j == 2 {
                    lemma_lower_len_differs(a[4].id@, b[2].id@);
                } else if j == 3 {
                    lemma_lower_len_differs(a[4].id@, b[3].id@);
                } else if j == 4 {
                    lemma_lower_len_differs(a[4].id@, b[4].id@);
                } else if j == 5 {
                    lemma_lower_len_differs(a[4].id@, b[5].id@);
                } else if j == 6 {
                    lemma_lower_len_differs(a[4].id@, b[6].id@);
                } else if j == 7 {
                    lemma_lower_len_differs(a[4].id@, b[7].id@);
                }
            } else if i == 5 {
                if j == 0 {
                    lemma_lower_len_differs(a[5].id@, b[0].id@);
                } else if j == 1 {
                    lemma_lower_len_differs(a[5].id@, b[1].id@);
                } else if j == 2 {
                    lemma_lower_len_differs(a[5].id@, b[2].id@);
                } else if j == 3 {
                    lemma_lower_len_differs(a[5].id@, b[3].id@);
                } else if j == 4 {
                    lemma_lower_len_differs(a[5].id@, b[4].id@);
                } else if j == 5 {
                    lemma_lower_len_differs(a[5].id@, b[5].id@);
                } else if j == 6 {
                    lemma_lower_len_differs(a[5].id@, b[6].id@);
                } else if j == 7 {
                    lemma_lower_len_differs(a[5].id@, b[7].id@);
                }
            } else if i == 6 {
                if j == 0 {
                    lemma_lower_len_differs(a[6].id@, b[0].id@);
                } else if j == 1 {
                    lemma_lower_len_differs(a[6].id@, b[1].id@);
                } else if j == 2 {
                    lemma_lower_len_differs(a[6].id@, b[2].id@);
                } else if j == 3 {
                    lemma_lower_len_differs(a[6].id@, b[3].id@);
                } else if j == 4 {
                    lemma_lower_len_differs(a[6].id@, b[4].id@);
                } else if j == 5 {
                    lemma_lower_len_differs(a[6].id@, b[5].id@);
                } else if j == 6 {
                    lemma_lower_len_differs(a[6].id@, b[6].id@);
                } else if j == 7 {
                    lemma_lower_len_differs(a[6].id@, b[7].id@);
                }
            } else if i == 7 {
                if j == 0 {
                    lemma_lower_len_differs(a[7].id@, b[0].id@);
                } else if j == 1 {
                    lemma_lower_len_differs(a[7].id@, b[1].id@);
                } else if j == 2 {
                    lemma_lower_len_differs(a[7].id@, b[2].id@);
                } else if j == 3 {
                    lemma_lower_len_differs(a[7].id@, b[3].id@);
                } else if j == 4 {
                    lemma_lower_len_differs(a[7].id@, b[4].id@);
                } else if j == 5 {
                    lemma_lower_len_differs(a[7].id@, b[5].id@);
                } else if j == 6 {
                    lemma_lower_len_differs(a[7].id@, b[6].id@);
                } else if j == 7 {
                    lemma_lower_len_differs(a[7].id@, b[7].id@);
                }
            } else if i == 8 {
                if j == 0 {
                    lemma_lower_len_differs(a[8].id@, b[0].id@);
                } else if j == 1 {
                    lemma_lower_len_differs(a[8].id@, b[1].id@);
                } else if j == 2 {
                    lemma_lower_len_differs(a[8].id@, b[2].id@);
                } else if j == 3 {
                    lemma_lower_len_differs(a[8].id@, b[3].id@);
                } else if j == 4 {
                    lemma_lower_len_differs(a[8].id@, b[4].id@);
                } else if j == 5 {
                    lemma_lower_len_differs(a[8].id@, b[5].id@);
                } else if j == 6 {
                    lemma_lower_len_differs(a[8].id@, b[6].id@);
                } else if j == 7 {
                    lemma_lower_len_differs(a[8].id@, b[7].id@);
                }
            }
        },
        ProviderPreset::Openai => {
            let b = preset_catalog(ProviderPreset::Openai);
            if i == 0 {
                if j == 0 {
                    lemma_lower_len_differs(a[0].id@, b[0].id@);
                } else if j == 1 {
                    lemma_lower_differs(a[0].id@, b[1].id@, 1);
                } else if j == 2 {
                    lemma_lower_len_differs(a[0].id@, b[2].id@);
                } else if j == 3 {
                    lemma_lower_len_differs(a[0].id@, b[3].id@);
                } else if j == 4 {
                    lemma_lower_differs(a[0].id@, b[4].id@, 1);
                } else if j == 5 {
                    lemma_lower_len_differs(a[0].id@, b[5].id@);
                } else if j == 6 {
                    lemma_lower_differs(a[0].id@, b[6].id@, 1);
                } else if j == 7 {
                    lemma_lower_len_differs(a[0].id@, b[7].id@);
                } else if j == 8 {
                    lemma_lower_len_differs(a[0].id@, b[8].id@);
                } else if j == 9 {
                    lemma_lower_len_differs(a[0].id@, b[9].id@);
                } else if j == 10 {
                    lemma_lower_len_differs(a[0].id@, b[10].id@);
                } else if j == 11 {
                    lemma_lower_differs(a[0].id@, b[11].id@, 1);
                } else if j == 12 {
                    lemma_lower_len_differs(a[0].id@, b[12].id@);
                } else if j == 13 {
                    lemma_lower_differs(a[0].id@, b[13].id@, 1);
                } else if j == 14 {
                    lemma_lower_len_differs(a[0].id@, b[14].id@);
                } else if j == 15 {
                    lemma_lower_len_differs(a[0].id@, b[15].id@);
                } else if j == 16 {
                    lemma_lower_len_differs(a[0].id@, b[16].id@);
                } else if j == 17 {
                    lemma_lower_len_differs(a[0].id@, b[17].id@);
                } else if j == 18 {
                    lemma_lower_len_differs(a[0].id@, b[18].id@);
                } else if j == 19 {
                    lemma_lower_len_differs(a[0].id@, b[19].id@);
                } else if j == 20 {
                    lemma_lower_differs(a[0].id@, b[20].id@, 1);
                } else if j == 21 {
                    lemma_lower_len_differs(a[0].id@, b[21].id@);
                } else if j == 22 {
                    lemma_lower_len_differs(a[0].id@, b[22].id@);
                } else if j == 23 {
                    lemma_lower_len_differs(a[0].id@, b[23].id@);
                } else if j == 24 {
                    lemma_lower_len_differs(a[0].id@, b[24].id@);
                }
            } else if i == 1 {
                if j == 0 {
                    lemma_lower_len_differs(a[1].id@, b[0].id@);
                } else if j == 1 {
                    lemma_lower_differs(a[1].id@, b[1].id@, 1);
                } else if j == 2 {
                    lemma_lower_len_differs(a[1].id@, b[2].id@);
                } else if j == 3 {
                    lemma_lower_len_differs(a[1].id@, b[3].id@);
                } else if j == 4 {
                    lemma_lower_differs(a[1].id@, b[4].id@, 1);
                } else if j == 5 {
                    lemma_lower_len_differs(a[1].id@, b[5].id@);
                } else if j == 6 {
                    lemma_lower_differs(a[1].id@, b[6].id@, 1);
                } else if j == 7 {
                    lemma_lower_len_differs(a[1].id@, b[7].id@);
                } else if j == 8 {
                    lemma_lower_len_differs(a[1].id@, b[8].id@);
                } else if j == 9 {
                    lemma_lower_len_differs(a[1].id@, b[9].id@);
                } else if j == 10 {
                    lemma_lower_len_differs(a[1].id@, b[10].id@);
                } else if j == 11 {
                    lemma_lower_differs(a[1].id@, b[11].id@, 1);
                } else if j == 12 {
                    lemma_lower_len_differs(a[1].id@, b[12].id@);
                } else if j == 13 {
                    lemma_lower_differs(a[1].id@, b[13].id@, 1);
                } else if j == 14 {
                    lemma_lower_len_differs(a[1].id@, b[14].id@);
                } else if j == 15 {
                    lemma_lower_len_differs(a[1].id@, b[15].id@);
                } else if j == 16 {
                    lemma_lower_len_differs(a[1].id@, b[16].id@);
                } else if j == 17 {
                    lemma_lower_len_differs(a[1].id@, b[17].id@);
                } else if j == 18 {
                    lemma_lower_len_differs(a[1].id@, b[18].id@);
                } else if j == 19 {
                    lemma_lower_len_differs(a[1].id@, b[19].id@);
                } else if j == 20 {
                    lemma_lower_differs(a[1].id@, b[20].id@, 1);
                } else if j == 21 {
                    lemma_lower_len_differs(a[1].id@, b[21].id@);
                } else if j == 22 {
                    lemma_lower_len_differs(a[1].id@, b[22].id@);
                } else if j == 23 {
                    lemma_lower_len_differs(a[1].id@, b[23].id@);
                } else if j == 24 {
                    lemma_lower_len_differs(a[1].id@, b[24].id@);
                }
            } else if i == 2 {
                if j == 0 {
                    lemma_lower_len_differs(a[2].id@, b[0].id@);
                } else if j == 1 {
                    lemma_lower_differs(a[2].id@, b[1].id@, 1);
                } else if j == 2 {
                    lemma_lower_len_differs(a[2].id@, b[2].id@);
                } else if j == 3 {
                    lemma_lower_len_differs(a[2].id@, b[3].id@);
                } else if j == 4 {
                    lemma_lower_differs(a[2].id@, b[4].id@, 1);
                } else if j == 5 {
                    lemma_lower_len_differs(a[2].id@, b[5].id@);
                } else if j == 6 {
                    lemma_lower_differs(a[2].id@, b[6].id@, 1);
                } else if j == 7 {
                    lemma_lower_len_differs(a[2].id@, b[7].id@);
                } else if j == 8 {
                    lemma_lower_len_differs(a[2].id@, b[8].id@);
                } else if j == 9 {
                    lemma_lower_len_differs(a[2].id@, b[9].id@);
                } else if j == 10 {
                    lemma_lower_len_differs(a[2].id@, b[10].id@);
                } else if j == 11 {
                    lemma_lower_differs(a[2].id@, b[11].id@, 1);
                } else if j == 12 {
                    lemma_lower_len_differs(a[2].id@, b[12].id@);
                } else if j == 13 {
                    lemma_lower_differs(a[2].id@, b[13].id@, 1);
                } else if j == 14 {
                    lemma_lower_len_differs(a[2].id@, b[14].id@);
                } else if j == 15 {
                    lemma_lower_len_differs(a[2].id@, b[15].id@);
                } else if j == 16 {
                    lemma_lower_len_differs(a[2].id@, b[16].id@);
                } else if j == 17 {
                    lemma_lower_len_differs(a[2].id@, b[17].id@);
                } else if j == 18 {
                    lemma_lower_len_differs(a[2].id@, b[18].id@);
                } else if j == 19 {
                    lemma_lower_len_differs(a[2].id@, b[19].id@);
                } else if j == 20 {
                    lemma_lower_differs(a[2].id@, b[20].id@, 1);
                } else if j == 21 {
                    lemma_lower_len_differs(a[2].id@, b[21].id@);
                } else if j == 22 {
                    lemma_lower_len_differs(a[2].id@, b[22].id@);
                } else if j == 23 {
                    lemma_lower_len_differs(a[2].id@, b[23].id@);
                } else if j == 24 {
                    lemma_lower_len_differs(a[2].id@, b[24].id@);
                }
            } else if i == 3 {
                if j == 0 {
                    lemma_lower_differs(a[3].id@, b[0].id@, 1);
                } else if j == 1 {
                    lemma_lower_len_differs(a[3].id@, b[1].id@);
                } else if j == 2 {
                    lemma_lower_len_differs(a[3].id@, b[2].id@);
                } else if j == 3 {
                    lemma_lower_len_differs(a[3].id@, b[3].id@);
                } else if j == 4 {
                    lemma_lower_len_differs(a[3].id@, b[4].id@);
                } else if j == 5 {
                    lemma_lower_differs(a[3].id@, b[5].id@, 1);
                } else if j == 6 {
                    lemma_lower_len_differs(a[3].id@, b[6].id@);
                } else if j == 7 {
                    lemma_lower_differs(a[3].id@, b[7].id@, 1);
                } else if j == 8 {
                    lemma_lower_len_differs(a[3].id@, b[8].id@);
                } else if j == 9 {
                    lemma_lower_len_differs(a[3].id@, b[9].id@);
                } else if j == 10 {
                    lemma_lower_len_differs(a[3].id@, b[10].id@);
                } else if j == 11 {
                    lemma_lower_len_differs(a[3].id@, b[11].id@);
                } else if j == 12 {
                    lemma_lower_differs(a[3].id@, b[12].id@, 1);
                } else if j == 13 {
                    lemma_lower_len_differs(a[3].id@, b[13].id@);
                } else if j == 14 {
                    lemma_lower_len_differs(a[3].id@, b[14].id@);
                } else if j == 15 {
                    lemma_lower_len_differs(a[3].id@, b[15].id@);
                } else if j == 16 {
                    lemma_lower_len_differs(a[3].id@, b[16].id@);
                } else if j == 17 {
                    lemma_lower_len_differs(a[3].id@, b[17].id@);
                } else if j == 18 {
                    lemma_lower_len_differs(a[3].id@, b[18].id@);
                } else if j == 19 {
                    lemma_lower_len_differs(a[3].id@, b[19].id@);
                } else if j == 20 {
                    lemma_lower_len_differs(a[3].id@, b[20].id@);
                } else if j == 21 {
                    lemma_lower_len_differs(a[3].id@, b[21].id@);
                } else if j == 22 {
                    lemma_lower_len_differs(a[3].id@, b[22].id@);
                } else if j == 23 {
                    lemma_lower_differs(a[3].id@, b[23].id@, 1);
                } else if j == 24 {
                    lemma_lower_differs(a[3].id@, b[24].id@, 0);
                }
            } else if i == 4 {
                if j == 0 {
                    lemma_lower_len_differs(a[4].id@, b[0].id@);
                } else if j == 1 {
                    lemma_lower_len_differs(a[4].id@, b[1].id@);
                } else if j == 2 {
                    lemma_lower_len_differs(a[4].id@, b[2].id@);
                } else if j == 3 {
                    lemma_lower_len_differs(a[4].id@, b[3].id@);
                } else if j == 4 {
                    lemma_lower_len_differs(a[4].id@, b[4].id@);
                } else if j == 5 {
                    lemma_lower_len_differs(a[4].id@, b[5].id@);
                } else if j == 6 {
                    lemma_lower_len_differs(a[4].id@, b[6].id@);
                } else if j == 7 {
                    lemma_lower_len_differs(a[4].id@, b[7].id@);
                } else if j == 8 {
                    lemma_lower_len_differs(a[4].id@, b[8].id@);
                } else if j == 9 {
                    lemma_lower_len_differs(a[4].id@, b[9].id@);
                } else if j == 10 {
                    lemma_lower_len_differs(a[4].id@, b[10].id@);
                } else if j == 11 {
                    lemma_lower_len_differs(a[4].id@, b[11].id@);
                } else if j == 12 {
                    lemma_lower_len_differs(a[4].id@, b[12].id@);
                } else if j == 13 {
                    lemma_lower_len_differs(a[4].id@, b[13].id@);
                } else if j == 14 {
                    lemma_lower_differs(a[4].id@, b[14].id@, 1);
                } else if j == 15 {
                    lemma_lower_len_differs(a[4].id@, b[15].id@);
                } else if j == 16 {
                    lemma_lower_len_differs(a[4].id@, b[16].id@);
                } else if j == 17 {
                    lemma_lower_len_differs(a[4].id@, b[17].id@);
                } else if j == 18 {
                    lemma_lower_len_differs(a[4].id@, b[18].id@);
                } else if j == 19 {
                    lemma_lower_len_differs(a[4].id@, b[19].id@);
                } else if j == 20 {
                    lemma_lower_len_differs(a[4].id@, b[20].id@);
                } else if j == 21 {
                    lemma_lower_len_differs(a[4].id@, b[21].id@);
                } else if j == 22 {
                    lemma_lower_len_differs(a[4].id@, b[22].id@);
                } else if j == 23 {
                    lemma_lower_len_differs(a[4].id@, b[23].id@);
                } else if j == 24 {
                    lemma_lower_len_differs(a[4].id@, b[24].id@);
                }
            } else if i == 5 {
                if j == 0 {
                    lemma_lower_len_differs(a[5].id@, b[0].id@);
                } else if j == 1 {
                    lemma_lower_differs(a[5].id@, b[1].id@, 1);
                } else if j == 2 {
                    lemma_lower_len_differs(a[5].id@, b[2].id@);
                } else if j == 3 {
                    lemma_lower_len_differs(a[5].id@, b[3].id@);
                } else if j == 4 {
                    lemma_lower_differs(a[5].id@, b[4].id@, 1);
                } else if j == 5 {
                    lemma_lower_len_differs(a[5].id@, b[5].id@);
                } else if j == 6 {
                    lemma_lower_differs(a[5].id@, b[6].id@, 1);
                } else if j == 7 {
                    lemma_lower_len_differs(a[5].id@, b[7].id@);
                } else if j == 8 {
                    lemma_lower_len_differs(a[5].id@, b[8].id@);
                } else if j == 9 {
                    lemma_lower_len_differs(a[5].id@, b[9].id@);
                } else if j == 10 {
                    lemma_lower_len_differs(a[5].id@, b[10].id@);
                } else if j == 11 {
                    lemma_lower_differs(a[5].id@, b[11].id@, 1);
                } else if j == 12 {
                    lemma_lower_len_differs(a[5].id@, b[12].id@);
                } else if j == 13 {
                    lemma_lower_differs(a[5].id@, b[13].id@, 1);
                } else if j == 14 {
                    lemma_lower_len_differs(a[5].id@, b[14].id@);
                } else if j == 15 {
                    lemma_lower_len_differs(a[5].id@, b[15].id@);
                } else if j == 16 {
                    lemma_lower_len_differs(a[5].id@, b[16].id@);
                } else if j == 17 {
                    lemma_lower_len_differs(a[5].id@, b[17].id@);
                } else if j == 18 {
                    lemma_lower_len_differs(a[5].id@, b[18].id@);
                } else if j == 19 {
                    lemma_lower_len_differs(a[5].id@, b[19].id@);
                } else if j == 20 {
                    lemma_lower_differs(a[5].id@, b[20].id@, 1);
                } else if j == 21 {
                    lemma_lower_len_differs(a[5].id@, b[21].id@);
                } else if j == 22 {
                    lemma_lower_len_differs(a[5].id@, b[22].id@);
                } else if j == 23 {
                    lemma_lower_len_differs(a[5].id@, b[23].id@);
                } else if j == 24 {
                    lemma_lower_len_differs(a[5].id@, b[24].id@);
                }
            } else if i == 6 {
                if j == 0 {
                    lemma_lower_len_differs(a[6].id@, b[0].id@);
                } else if j == 1 {
                    lemma_lower_differs(a[6].id@, b[1].id@, 1);
                } else if j == 2 {
                    lemma_lower_len_differs(a[6].id@, b[2].id@);
                } else if j == 3 {
                    lemma_lower_len_differs(a[6].id@, b[3].id@);
                } else if j == 4 {
                    lemma_lower_differs(a[6].id@, b[4].id@, 1);
                } else if j == 5 {
                    lemma_lower_len_differs(a[6].id@, b[5].id@);
                } else if j == 6 {
                    lemma_lower_differs(a[6].id@, b[6].id@, 1);
                } else if j == 7 {
                    lemma_lower_len_differs(a[6].id@, b[7].id@);
                } else if j == 8 {
                    lemma_lower_len_differs(a[6].id@, b[8].id@);
                } else if j == 9 {
                    lemma_lower_len_differs(a[6].id@, b[9].id@);
                } else if j == 10 {
                    lemma_lower_len_differs(a[6].id@, b[10].id@);
                } else if j == 11 {
                    lemma_lower_differs(a[6].id@, b[11].id@, 1);
                } else if j == 12 {
                    lemma_lower_len_differs(a[6].id@, b[12].id@);
                } else if j == 13 {
                    lemma_lower_differs(a[6].id@, b[13].id@, 1);
                } else if j == 14 {
                    lemma_lower_len_differs(a[6].id@, b[14].id@);
                } else if j == 15 {
                    lemma_lower_len_differs(a[6].id@, b[15].id@);
                } else if j == 16 {
                    lemma_lower_len_differs(a[6].id@, b[16].id@);
                } else if j == 17 {
                    lemma_lower_len_differs(a[6].id@, b[17].id@);
                } else if j == 18 {
                    lemma_lower_len_differs(a[6].id@, b[18].id@);
                } else if j == 19 {
                    lemma_lower_len_differs(a[6].id@, b[19].id@);
                } else if j == 20 {
                    lemma_lower_differs(a[6].id@, b[20].id@, 1);
                } else if j == 21 {
                    lemma_lower_len_differs(a[6].id@, b[21].id@);
                } else if j == 22 {
                    lemma_lower_len_differs(a[6].id@, b[22].id@);
                } else if j == 23 {
                    lemma_lower_len_differs(a[6].id@, b[23].id@);
                } else if j == 24 {
                    lemma_lower_len_differs(a[6].id@, b[24].id@);
                }
            } else if i == 7 {
                if j == 0 {
                    lemma_lower_len_differs(a[7].id@, b[0].id@);
                } else if j == 1 {
                    lemma_lower_differs(a[7].id@, b[1].id@, 1);
                } else if j == 2 {
                    lemma_lower_len_differs(a[7].id@, b[2].id@);
                } else if j == 3 {
                    lemma_lower_len_differs(a[7].id@, b[3].id@);
                } else if j == 4 {
                    lemma_lower_differs(a[7].id@, b[4].id@, 1);
                } else if j == 5 {
                    lemma_lower_len_differs(a[7].id@, b[5].id@);
                } else if j == 6 {
                    lemma_lower_differs(a[7].id@, b[6].id@, 1);
                } else if j == 7 {
                    lemma_lower_len_differs(a[7].id@, b[7].id@);
                } else if j == 8 {
                    lemma_lower_len_differs(a[7].id@, b[8].id@);
                } else if j == 9 {
                    lemma_lower_len_differs(a[7].id@, b[9].id@);
                } else if j == 10 {
                    lemma_lower_len_differs(a[7].id@, b[10].id@);
                } else if j == 11 {
                    lemma_lower_differs(a[7].id@, b[11].id@, 1);
                } else if j == 12 {
                    lemma_lower_len_differs(a[7].id@, b[12].id@);
                } else if j == 13 {
                    lemma_lower_differs(a[7].id@, b[13].id@, 1);
                } else if j == 14 {
                    lemma_lower_len_differs(a[7].id@, b[14].id@);
                } else if j == 15 {
                    lemma_lower_len_differs(a[7].id@, b[15].id@);
                } else if j == 16 {
                    lemma_lower_len_differs(a[7].id@, b[16].id@);
                } else if j == 17 {
                    lemma_lower_len_differs(a[7].id@, b[17].id@);
                } else if j == 18 {
                    lemma_lower_len_differs(a[7].id@, b[18].id@);
                } else if j == 19 {
                    lemma_lower_len_differs(a[7].id@, b[19].id@);
                } else if j == 20 {
                    lemma_lower_differs(a[7].id@, b[20].id@, 1);
                } else if j == 21 {
                    lemma_lower_len_differs(a[7].id@, b[21].id@);
                } else if j == 22 {
                    lemma_lower_len_differs(a[7].id@, b[22].id@);
                } else if j == 23 {
                    lemma_lower_len_differs(a[7].id@, b[23].id@);
                } else if j == 24 {
                    lemma_lower_len_differs(a[7].id@, b[24].id@);
                }
            } else if i == 8 {
                if j == 0 {
                    lemma_lower_differs(a[8].id@, b[0].id@, 1);
                } else if j == 1 {
                    lemma_lower_len_differs(a[8].id@, b[1].id@);
                } else if j == 2 {
                    lemma_lower_len_differs(a[8].id@, b[2].id@);
                } else if j == 3 {
                    lemma_lower_len_differs(a[8].id@, b[3].id@);
                } else if j == 4 {
                    lemma_lower_len_differs(a[8].id@, b[4].id@);
                } else if j == 5 {
                    lemma_lower_differs(a[8].id@, b[5].id@, 1);
                } else if j == 6 {
                    lemma_lower_len_differs(a[8].id@, b[6].id@);
                } else if j == 7 {
                    lemma_lower_differs(a[8].id@, b[7].id@, 1);
                } else if j == 8 {
                    lemma_lower_len_differs(a[8].id@, b[8].id@);
                } else if j == 9 {
                    lemma_lower_len_differs(a[8].id@, b[9].id@);
                } else if j == 10 {
                    lemma_lower_len_differs(a[8].id@, b[10].id@);
                } else if j == 11 {
                    lemma_lower_len_differs(a[8].id@, b[11].id@);
                } else if j == 12 {
                    lemma_lower_differs(a[8].id@, b[12].id@, 1);
                } else if j == 13 {
                    lemma_lower_len_differs(a[8].id@, b[13].id@);
                } else if j == 14 {
                    lemma_lower_len_differs(a[8].id@, b[14].id@);
                } else if j == 15 {
                    lemma_lower_len_differs(a[8].id@, b[15].id@);
                } else if j == 16 {
                    lemma_lower_len_differs(a[8].id@, b[16].id@);
                } else if j == 17 {
                    lemma_lower_len_differs(a[8].id@, b[17].id@);
                } else if j == 18 {
                    lemma_lower_len_differs(a[8].id@, b[18].id@);
                } else if j == 19 {
                    lemma_lower_len_differs(a[8].id@, b[19].id@);
                } else if j == 20 {
                    lemma_lower_len_differs(a[8].id@, b[20].id@);
                } else if j == 21 {
                    lemma_lower_len_differs(a[8].id@, b[21].id@);
                } else if j == 22 {
                    lemma_lower_len_differs(a[8].id@, b[22].id@);
                } else if j == 23 {
                    lemma_lower_differs(a[8].id@, b[23].id@, 1);
                } else if j == 24 {
                    lemma_lower_differs(a[8].id@, b[24].id@, 0);
                }
            }
        },
        ProviderPreset::Openrouter => {
            let b = preset_catalog(ProviderPreset::Openrouter);
            if i == 0 {
                if j == 0 {
                    lemma_lower_len_differs(a[0].id@, b[0].id@);
                }
            } else if i == 1 {
                if j == 0 {
                    lemma_lower_len_differs(a[1].id@, b[0].id@);
                }
            } else if i == 2 {
                if j == 0 {
                    lemma_lower_len_differs(a[2].id@, b[0].id@);
                }
            } else if i == 3 {
                if j == 0 {
                    lemma_lower_len_differs(a[3].id@, b[0].id@);
                }
            } else if i == 4 {
                if j == 0 {
                    lemma_lower_len_differs(a[4].id@, b[0].id@);
                }
            } else if i == 5 {
                if j == 0 {
                    lemma_lower_len_differs(a[5].id@, b[0].id@);
                }
            } else if i == 6 {
                if j == 0 {
                    lemma_lower_len_differs(a[6].id@, b[0].id@);
                }
            } else if i == 7 {
                if j == 0 {
                    lemma_lower_len_differs(a[7].id@, b[0].id@);
                }
            } else if i == 8 {
                if j == 0 {
                    lemma_lower_len_differs(a[8].id@, b[0].id@);
                }
            }
        },
        ProviderPreset::Longcat => {
            let b = preset_catalog(ProviderPreset::Longcat);
            if i == 0 {
                if j == 0 {
                    lemma_lower_len_differs(a[0].id@, b[0].id@);
                }
            } else if i == 1 {
                if j == 0 {
                    lemma_lower_len_differs(a[1].id@, b[0].id@);
                }
            } else if i == 2 {
                if j == 0 {
                    lemma_lower_len_differs(a[2].id@, b[0].id@);
                }
            } else if i == 3 {
                if j == 0 {
                    lemma_lower_differs(a[3].id@, b[0].id@, 0);
                }
            } else if i == 4 {
                if j == 0 {
                    lemma_lower_len_differs(a[4].id@, b[0].id@);
                }
            } else if i == 5 {
                if j == 0 {
                    lemma_lower_len_differs(a[5].id@, b[0].id@);
                }
            } else if i == 6 {
                if j == 0 {
                    lemma_lower_len_differs(a[6].id@, b[0].id@);
                }
            } else if i == 7 {
                if j == 0 {
                    lemma_lower_len_differs(a[7].id@, b[0].id@);
                }
            } else if i == 8 {
                if j == 0 {
                    lemma_lower_differs(a[8].id@, b[0].id@, 0);
                }
            }
        },
    }
}

proof fn lemma_ids_distinct_from_kimi(q: ProviderPreset, i: int, j: int)
    requires
        0 <= i < preset_catalog(ProviderPreset::Kimi).len(),
        0 <= j < preset_catalog(q).len(),
        rank(ProviderPreset::Kimi) < rank(q) || (q == ProviderPreset::Kimi && i < j),
    ensures
        lower(preset_catalog(ProviderPreset::Kimi)[i].id@) != lower(preset_catalog(q)[j].id@),
{
    reveal_strlit("k3");
    reveal_strlit("k3-256k");
    reveal_strlit("kimi-for-coding");
    reveal_strlit("kimi-for-coding-highspeed");
    reveal_strlit("MiniMax-M3");
    reveal_strlit("MiniMax-M2.7");
    reveal_strlit("MiniMax-M2.7-highspeed");
    reveal_strlit("MiniMax-M2.5");
    reveal_strlit("MiniMax-M2.5-highspeed");
    reveal_strlit("MiniMax-M2.1");
    reveal_strlit("MiniMax-M2.1-highspeed");
    reveal_strlit("MiniMax-M2");
    reveal_strlit("gpt-5.6-sol");
    reveal_strlit("gpt-5.6");
    reveal_strlit("gpt-5.6-terra");
    reveal_strlit("gpt-5.6-luna");
    reveal_strlit("gpt-5.5");
    reveal_strlit("gpt-5.5-pro");
    reveal_strlit("gpt-5.4");
    reveal_strlit("gpt-5.4-pro");
    reveal_strlit("gpt-5.4-mini");
    reveal_strlit("gpt-5.4-nano");
    reveal_strlit("gpt-5.3-codex");
    reveal_strlit("gpt-5.2");
    reveal_strlit("gpt-5.2-pro");
    reveal_strlit("gpt-5.1");
    reveal_strlit("gpt-5");
    reveal_strlit("gpt-5-mini");
    reveal_strlit("gpt-5-nano");
    reveal_strlit("gpt-5-pro");
    reveal_strlit("o3-pro");
    reveal_strlit("o3");
    reveal_strlit("gpt-4.1");
    reveal_strlit("gpt-4.1-mini");
    reveal_strlit("gpt-4o");
    reveal_strlit("gpt-4o-mini");
    reveal_strlit("chat-latest");
    reveal_strlit("openrouter/owl-alpha");
    reveal_strlit("LongCat-2.0");
    let a = preset_catalog(ProviderPreset::Kimi);
    match q {
        ProviderPreset::Glm => {},
        ProviderPreset::Kimi => {
            let b = preset_catalog(ProviderPreset::Kimi);
            if i == 0 {
                if j == 1 {
                    lemma_lower_len_differs(a[0].id@, b[1].id@);
                } else if j == 2 {
                    lemma_lower_len_differs(a[0].id@, b[2].id@);
                } else if j == 3 {
                    lemma_lower_len_differs(a[0].id@, b[3].id@);
                }
            } else if i == 1 {
                if j == 2 {
                    lemma_lower_len_differs(a[1].id@, b[2].id@);
                } else if j == 3 {
                    lemma_lower_len_differs(a[1].id@, b[3].id@);
                }
            } else if i == 2 {
                if j == 3 {
                    lemma_lower_len_differs(a[2].id@, b[3].id@);
                }
            }
        },
        ProviderPreset::Minimax => {
            let b = preset_catalog(ProviderPreset::Minimax);
            if i == 0 {
                if j == 0 {
                    lemma_lower_len_differs(a[0].id@, b[0].id@);
                } else if j == 1 {
                    lemma_lower_len_differs(a[0].id@, b[1].id@);
                } else if j == 2 {
                    lemma_lower_len_differs(a[0].id@, b[2].id@);
                } else if j == 3 {
                    lemma_lower_len_differs(a[0].id@, b[3].id@);
                } else if j == 4 {
                    lemma_lower_len_differs(a[0].id@, b[4].id@);
                } else if j == 5 {
                    lemma_lower_len_differs(a[0].id@, b[5].id@);
                } else if j == 6 {
                    lemma_lower_len_differs(a[0].id@, b[6].id@);
                } else if j == 7 {
                    lemma_lower_len_differs(a[0].id@, b[7].id@);
                }
            } else if i == 1 {
                if j == 0 {
                    lemma_lower_len_differs(a[1].id@, b[0].id@);
                } else if j == 1 {
                    lemma_lower_len_differs(a[1].id@, b[1].id@);
                } else if j == 2 {
                    lemma_lower_len_differs(a[1].id@, b[2].id@);
                } else if j == 3 {
                    lemma_lower_len_differs(a[1].id@, b[3].id@);
                } else if j == 4 {
                    lemma_lower_len_differs(a[1].id@, b[4].id@);
                } else if j == 5 {
                    lemma_lower_len_differs(a[1].id@, b[5].id@);
                } else if j == 6 {
                    lemma_lower_len_differs(a[1].id@, b[6].id@);
                } else if j == 7 {
                    lemma_lower_len_differs(a[1].id@, b[7].id@);
                }
            } else if i == 2 {
                if j == 0 {
                    lemma_lower_len_differs(a[2].id@, b[0].id@);
                } else if j == 1 {
                    lemma_lower_len_differs(a[2].id@, b[1].id@);
                } else if j == 2 {
                    lemma_lower_len_differs(a[2].id@, b[2].id@);
                } else if j == 3 {
                    lemma_lower_len_differs(a[2].id@, b[3].id@);
                } else if j == 4 {
                    lemma_lower_len_differs(a[2].id@, b[4].id@);
                } else if j == 5 {
                    lemma_lower_len_differs(a[2].id@, b[5].id@);
                } else if j == 6 {
                    lemma_lower_len_differs(a[2].id@, b[6].id@);
                } else if j == 7 {
                    lemma_lower_len_differs(a[2].id@, b[7].id@);
                }
            } else if i == 3 {
                if j == 0 {
                    lemma_lower_len_differs(a[3].id@, b[0].id@);
                } else if j == 1 {
                    lemma_lower_len_differs(a[3].id@, b[1].id@);
                } else if j == 2 {
                    lemma_lower_len_differs(a[3].id@, b[2].id@);
                } else if j == 3 {
                    lemma_lower_len_differs(a[3].id@, b[3].id@);
                } else if j == 4 {
                    lemma_lower_len_differs(a[3].id@, b[4].id@);
                } else if j == 5 {
                    lemma_lower_len_differs(a[3].id@, b[5].id@);
                } else if j == 6 {
                    lemma_lower_len_differs(a[3].id@, b[6].id@);
                } else if j == 7 {
                    lemma_lower_len_differs(a[3].id@, b[7].id@);
                }
            }
        },
        ProviderPreset::Openai => {
            let b = preset_catalog(ProviderPreset::Openai);
            if i == 0 {
                if j == 0 {
                    lemma_lower_len_differs(a[0].id@, b[0].id@);
                } else if j == 1 {
                    lemma_lower_len_differs(a[0].id@, b[1].id@);
                } else if j == 2 {
                    lemma_lower_len_differs(a[0].id@, b[2].id@);
                } else if j == 3 {
                    lemma_lower_len_differs(a[0].id@, b[3].id@);
                } else if j == 4 {
                    lemma_lower_len_differs(a[0].id@, b[4].id@);
                } else if j == 5 {
                    lemma_lower_len_differs(a[0].id@, b[5].id@);
                } else if j == 6 {
                    lemma_lower_len_differs(a[0].id@, b[6].id@);
                } else if j == 7 {
                    lemma_lower_len_differs(a[0].id@, b[7].id@);
                } else if j == 8 {
                    lemma_lower_len_differs(a[0].id@, b[8].id@);
                } else if j == 9 {
                    lemma_lower_len_differs(a[0].id@, b[9].id@);
                } else if j == 10 {
                    lemma_lower_len_differs(a[0].id@, b[10].id@);
                } else if j == 11 {
                    lemma_lower_len_differs(a[0].id@, b[11].id@);
                } else if j == 12 {
                    lemma_lower_len_differs(a[0].id@, b[12].id@);
                } else if j == 13 {
                    lemma_lower_len_differs(a[0].id@, b[13].id@);
                } else if j == 14 {
                    lemma_lower_len_differs(a[0].id@, b[14].id@);
                } else if j == 15 {
                    lemma_lower_len_differs(a[0].id@, b[15].id@);
                } else if j == 16 {
                    lemma_lower_len_differs(a[0].id@, b[16].id@);
                } else if j == 17 {
                    lemma_lower_len_differs(a[0].id@, b[17].id@);
                } else if j == 18 {
                    lemma_lower_len_differs(a[0].id@, b[18].id@);
                } else if j == 19 {
                    lemma_lower_differs(a[0].id@, b[19].id@, 0);
                } else if j == 20 {
                    lemma_lower_len_differs(a[0].id@, b[20].id@);
                } else if j == 21 {
                    lemma_lower_len_differs(a[0].id@, b[21].id@);
                } else if j == 22 {
                    lemma_lower_len_differs(a[0].id@, b[22].id@);
                } else if j == 23 {
                    lemma_lower_len_differs(a[0].id@, b[23].id@);
                } else if j == 24 {
                    lemma_lower_len_differs(a[0].id@, b[24].id@);
                }
            } else if i == 1 {
                if j == 0 {
                    lemma_lower_len_differs(a[1].id@, b[0].id@);
                } else if j == 1 {
                    lemma_lower_differs(a[1].id@, b[1].id@, 0);
                } else if j == 2 {
                    lemma_lower_len_differs(a[1].id@, b[2].id@);
                } else if j == 3 {
                    lemma_lower_len_differs(a[1].id@, b[3].id@);
                } else if j == 4 {
                    lemma_lower_differs(a[1].id@, b[4].id@, 0);
                } else if j == 5 {
                    lemma_lower_len_differs(a[1].id@, b[5].id@);
                } else if j == 6 {
                    lemma_lower_differs(a[1].id@, b[6].id@, 0);
                } else if j == 7 {
                    lemma_lower_len_differs(a[1].id@, b[7].id@);
                } else if j == 8 {
                    lemma_lower_len_differs(a[1].id@, b[8].id@);
                } else if j == 9 {
                    lemma_lower_len_differs(a[1].id@, b[9].id@);
                } else if j == 10 {
                    lemma_lower_len_differs(a[1].id@, b[10].id@);
                } else if j == 11 {
                    lemma_lower_differs(a[1].id@, b[11].id@, 0);
                } else if j == 12 {
                    lemma_lower_len_differs(a[1].id@, b[12].id@);
                } else if j == 13 {
                    lemma_lower_differs(a[1].id@, b[13].id@, 0);
                } else if j == 14 {
                    lemma_lower_len_differs(a[1].id@, b[14].id@);
                } else if j == 15 {
                    lemma_lower_len_differs(a[1].id@, b[15].id@);
                } else if j == 16 {
                    lemma_lower_len_differs(a[1].id@, b[16].id@);
                } else if j == 17 {
                    lemma_lower_len_differs(a[1].id@, b[17].id@);
                } else if j == 18 {
                    lemma_lower_len_differs(a[1].id@, b[18].id@);
                } else if j == 19 {
                    lemma_lower_len_differs(a[1].id@, b[19].id@);
                } else if j == 20 {
                    lemma_lower_differs(a[1].id@, b[20].id@, 0);
                } else if j == 21 {
                    lemma_lower_len_differs(a[1].id@, b[21].id@);
                } else if j == 22 {
                    lemma_lower_len_differs(a[1].id@, b[22].id@);
                } else if j == 23 {
                    lemma_lower_len_differs(a[1].id@, b[23].id@);
                } else if j == 24 {
                    lemma_lower_len_differs(a[1].id@, b[24].id@);
                }
            } else if i == 2 {
                if j == 0 {
                    lemma_lower_len_differs(a[2].id@, b[0].id@);
                } else if j == 1 {
                    lemma_lower_len_differs(a[2].id@, b[1].id@);
                } else if j == 2 {
                    lemma_lower_len_differs(a[2].id@, b[2].id@);
                } else if j == 3 {
                    lemma_lower_len_differs(a[2].id@, b[3].id@);
                } else if j == 4 {
                    lemma_lower_len_differs(a[2].id@, b[4].id@);
                } else if j == 5 {
                    lemma_lower_len_differs(a[2].id@, b[5].id@);
                } else if j == 6 {
                    lemma_lower_len_differs(a[2].id@, b[6].id@);
                } else if j == 7 {
                    lemma_lower_len_differs(a[2].id@, b[7].id@);
                } else if j == 8 {
                    lemma_lower_len_differs(a[2].id@, b[8].id@);
                } else if j == 9 {
                    lemma_lower_len_differs(a[2].id@, b[9].id@);
                } else if j == 10 {
                    lemma_lower_len_differs(a[2].id@, b[10].id@);
                } else if j == 11 {
                    lemma_lower_len_differs(a[2].id@, b[11].id@);
                } else if j == 12 {
                    lemma_lower_len_differs(a[2].id@, b[12].id@);
                } else if j == 13 {
                    lemma_lower_len_differs(a[2].id@, b[13].id@);
                } else if j == 14 {
                    lemma_lower_len_differs(a[2].id@, b[14].id@);
                } else if j == 15 {
                    lemma_lower_len_differs(a[2].id@, b[15].id@);
                } else if j == 16 {
                    lemma_lower_len_differs(a[2].id@, b[16].id@);
                } else if j == 17 {
                    lemma_lower_len_differs(a[2].id@, b[17].id@);
                } else if j == 18 {
                    lemma_lower_len_differs(a[2].id@, b[18].id@);
                } else if j == 19 {
                    lemma_lower_len_differs(a[2].id@, b[19].id@);
                } else if j == 20 {
                    lemma_lower_len_differs(a[2].id@, b[20].id@);
                } else if j == 21 {
                    lemma_lower_len_differs(a[2].id@, b[21].id@);
                } else if j == 22 {
                    lemma_lower_len_differs(a[2].id@, b[22].id@);
                } else if j == 23 {
                    lemma_lower_len_differs(a[2].id@, b[23].id@);
                } else if j == 24 {
                    lemma_lower_len_differs(a[2].id@, b[24].id@);
                }
            } else if i == 3 {
                if j == 0 {
                    lemma_lower_len_differs(a[3].id@, b[0].id@);
                } else if j == 1 {
                    lemma_lower_len_differs(a[3].id@, b[1].id@);
                } else if j == 2 {
                    lemma_lower_len_differs(a[3].id@, b[2].id@);
                } else if j == 3 {
                    lemma_lower_len_differs(a[3].id@, b[3].id@);
                } else if j == 4 {
                    lemma_lower_len_differs(a[3].id@, b[4].id@);
                } else if j == 5 {
                    lemma_lower_len_differs(a[3].id@, b[5].id@);
                } else if j == 6 {
                    lemma_lower_len_differs(a[3].id@, b[6].id@);
                } else if j == 7 {
                    lemma_lower_len_differs(a[3].id@, b[7].id@);
                } else if j == 8 {
                    lemma_lower_len_differs(a[3].id@, b[8].id@);
                } else if j == 9 {
                    lemma_lower_len_differs(a[3].id@, b[9].id@);
                } else if j == 10 {
                    lemma_lower_len_differs(a[3].id@, b[10].id@);
                } else if j == 11 {
                    lemma_lower_len_differs(a[3].id@, b[11].id@);
                } else if j == 12 {
                    lemma_lower_len_differs(a[3].id@, b[12].id@);
                } else if j == 13 {
                    lemma_lower_len_differs(a[3].id@, b[13].id@);
                } else if j == 14 {
                    lemma_lower_len_differs(a[3].id@, b[14].id@);
                } else if j == 15 {
                    lemma_lower_len_differs(a[3].id@, b[15].id@);
                } else if j == 16 {
                    lemma_lower_len_differs(a[3].id@, b[16].id@);
                } else if j == 17 {
                    lemma_lower_len_differs(a[3].id@, b[17].id@);
                } else if j == 18 {
                    lemma_lower_len_differs(a[3].id@, b[18].id@);
                } else if j == 19 {
                    lemma_lower_len_differs(a[3].id@, b[19].id@);
                } else if j == 20 {
                    lemma_lower_len_differs(a[3].id@, b[20].id@);
                } else if j == 21 {
                    lemma_lower_len_differs(a[3].id@, b[21].id@);
                } else if j == 22 {
                    lemma_lower_len_differs(a[3].id@, b[22].id@);
                } else if j == 23 {
                    lemma_lower_len_differs(a[3].id@, b[23].id@);
                } else if j == 24 {
                    lemma_lower_len_differs(a[3].id@, b[24].id@);
                }
            }
        },
        ProviderPreset::Openrouter => {
            let b = preset_catalog(ProviderPreset::Openrouter);
            if i == 0 {
                if j == 0 {
                    lemma_lower_len_differs(a[0].id@, b[0].id@);
                }
            } else if i == 1 {
                if j == 0 {
                    lemma_lower_len_differs(a[1].id@, b[0].id@);
                }
            } else if i == 2 {
                if j == 0 {
                    lemma_lower_len_differs(a[2].id@, b[0].id@);
                }
            } else if i == 3 {
                if j == 0 {
                    lemma_lower_len_differs(a[3].id@, b[0].id@);
                }
            }
        },
        ProviderPreset::Longcat => {
            let b = preset_catalog(ProviderPreset::Longcat);
            if i == 0 {
                if j == 0 {
                    lemma_lower_len_differs(a[0].id@, b[0].id@);
                }
            } else if i == 1 {
                if j == 0 {
                    lemma_lower_len_differs(a[1].id@, b[0].id@);
                }
            } else if i == 2 {
                if j == 0 {
                    lemma_lower_len_differs(a[2].id@, b[0].id@);
                }
            } else if i == 3 {
                if j == 0 {
                    lemma_lower_len_differs(a[3].id@, b[0].id@);
                }
            }
        },
    }
}

proof fn lemma_ids_distinct_from_minimax(q: ProviderPreset, i: int, j: int)
    requires
        0 <= i < preset_catalog(ProviderPreset::Minimax).len(),
        0 <= j < preset_catalog(q).len(),
        rank(ProviderPreset::Minimax) < rank(q) || (q == ProviderPreset::Minimax && i < j),
    ensures
        lower(preset_catalog(ProviderPreset::Minimax)[i].id@) != lower(preset_catalog(q)[j].id@),
{
    reveal_strlit("MiniMax-M3");
    reveal_strlit("MiniMax-M2.7");
    reveal_strlit("MiniMax-M2.7-highspeed");
    reveal_strlit("MiniMax-M2.5");
    reveal_strlit("MiniMax-M2.5-highspeed");
    reveal_strlit("MiniMax-M2.1");
    reveal_strlit("MiniMax-M2.1-highspeed");
    reveal_strlit("MiniMax-M2");
    reveal_strlit("gpt-5.6-sol");
    reveal_strlit("gpt-5.6");
    reveal_strlit("gpt-5.6-terra");
    reveal_strlit("gpt-5.6-luna");
    reveal_strlit("gpt-5.5");
    reveal_strlit("gpt-5.5-pro");
    reveal_strlit("gpt-5.4");
    reveal_strlit("gpt-5.4-pro");
    reveal_strlit("gpt-5.4-mini");
    reveal_strlit("gpt-5.4-nano");
    reveal_strlit("gpt-5.3-codex");
    reveal_strlit("gpt-5.2");
    reveal_strlit("gpt-5.2-pro");
    reveal_strlit("gpt-5.1");
    reveal_strlit("gpt-5");
    reveal_strlit("gpt-5-mini");
    reveal_strlit("gpt-5-nano");
    reveal_strlit("gpt-5-pro");
    reveal_strlit("o3-pro");
    reveal_strlit("o3");
    reveal_strlit("gpt-4.1");
    reveal_strlit("gpt-4.1-mini");
    reveal_strlit("gpt-4o");
    reveal_strlit("gpt-4o-mini");
    reveal_strlit("chat-latest");
    reveal_strlit("openrouter/owl-alpha");
    reveal_strlit("LongCat-2.0");
    let a = preset_catalog(ProviderPreset::Minimax);
    match q {
        ProviderPreset::Glm => {},
        ProviderPreset::Kimi => {},
        ProviderPreset::Minimax => {
            let b = preset_catalog(ProviderPreset::Minimax);
            if i == 0 {
                if j == 1 {
                    lemma_lower_len_differs(a[0].id@, b[1].id@);
                } else if j == 2 {
                    lemma_lower_len_differs(a[0].id@, b[2].id@);
                } else if j == 3 {
                    lemma_lower_len_differs(a[0].id@, b[3].id@);
                } else if j == 4 {
                    lemma_lower_len_differs(a[0].id@, b[4].id@);
                } else if j == 5 {
                    lemma_lower_len_differs(a[0].id@, b[5].id@);
                } else if j == 6 {
                    lemma_lower_len_differs(a[0].id@, b[6].id@);
                } else if j == 7 {
                    lemma_lower_differs(a[0].id@, b[7].id@, 9);
                }
            } else if i == 1 {
                if j == 2 {
                    lemma_lower_len_differs(a[1].id@, b[2].id@);
                } else if j == 3 {
                    lemma_lower_differs(a[1].id@, b[3].id@, 11);
                } else if j == 4 {
                    lemma_lower_len_differs(a[1].id@, b[4].id@);
                } else if j == 5 {
                    lemma_lower_differs(a[1].id@, b[5].id@, 11);
                } else if j == 6 {
                    lemma_lower_len_differs(a[1].id@, b[6].id@);
                } else if j == 7 {
                    lemma_lower_len_differs(a[1].id@, b[7].id@);
                }
            } else if i == 2 {
                if j == 3 {
                    lemma_lower_len_differs(a[2].id@, b[3].id@);
                } else if j == 4 {
                    lemma_lower_differs(a[2].id@, b[4].id@, 11);
                } else if j == 5 {
                    lemma_lower_len_differs(a[2].id@, b[5].id@);
                } else if j == 6 {
                    lemma_lower_differs(a[2].id@, b[6].id@, 11);
                } else if j == 7 {
                    lemma_lower_len_differs(a[2].id@, b[7].id@);
                }
            } else if i == 3 {
                if j == 4 {
                    lemma_lower_len_differs(a[3].id@, b[4].id@);
                } else if j == 5 {
                    lemma_lower_differs(a[3].id@, b[5].id@, 11);
                } else if j == 6 {
                    lemma_lower_len_differs(a[3].id@, b[6].id@);
                } else if j == 7 {
                    lemma_lower_len_differs(a[3].id@, b[7].id@);
                }
            } else if i == 4 {
                if j == 5 {
                    lemma_lower_len_differs(a[4].id@, b[5].id@);
                } else if j == 6 {
                    lemma_lower_differs(a[4].id@, b[6].id@, 11);
                } else if j == 7 {
                    lemma_lower_len_differs(a[4].id@, b[7].id@);
                }
            } else if i == 5 {
                if j == 6 {
                    lemma_lower_len_differs(a[5].id@, b[6].id@);
                } else if j == 7 {
                    lemma_lower_len_differs(a[5].id@, b[7].id@);
                }
            } else if i == 6 {
                if j == 7 {
                    lemma_lower_len_differs(a[6].id@, b[7].id@);
                }
            }
        },
        ProviderPreset::Openai => {
            let b = preset_catalog(ProviderPreset::Openai);
            if i == 0 {
                if j == 0 {
                    lemma_lower_len_differs(a[0].id@, b[0].id@);
                } else if j == 1 {
                    lemma_lower_len_differs(a[0].id@, b[1].id@);
                } else if j == 2 {
                    lemma_lower_len_differs(a[0].id@, b[2].id@);
                } else if j == 3 {
                    lemma_lower_len_differs(a[0].id@, b[3].id@);
                } else if j == 4 {
                    lemma_lower_len_differs(a[0].id@, b[4].id@);
                } else if j == 5 {
                    lemma_lower_len_differs(a[0].id@, b[5].id@);
                } else if j == 6 {
                    lemma_lower_len_differs(a[0].id@, b[6].id@);
                } else if j == 7 {
                    lemma_lower_len_differs(a[0].id@, b[7].id@);
                } else if j == 8 {
                    lemma_lower_len_differs(a[0].id@, b[8].id@);
                } else if j == 9 {
                    lemma_lower_len_differs(a[0].id@, b[9].id@);
                } else if j == 10 {
                    lemma_lower_len_differs(a[0].id@, b[10].id@);
                } else if j == 11 {
                    lemma_lower_len_differs(a[0].id@, b[11].id@);
                } else if j == 12 {
                    lemma_lower_len_differs(a[0].id@, b[12].id@);
                } else if j == 13 {
                    lemma_lower_len_differs(a[0].id@, b[13].id@);
                } else if j == 14 {
                    lemma_lower_len_differs(a[0].id@, b[14].id@);
                } else if j == 15 {
                    lemma_lower_differs(a[0].id@, b[15].id@, 0);
                } else if j == 16 {
                    lemma_lower_differs(a[0].id@, b[16].id@, 0);
                } else if j == 17 {
                    lemma_lower_len_differs(a[0].id@, b[17].id@);
                } else if j == 18 {
                    lemma_lower_len_differs(a[0].id@, b[18].id@);
                } else if j == 19 {
                    lemma_lower_len_differs(a[0].id@, b[19].id@);
                } else if j == 20 {
                    lemma_lower_len_differs(a[0].id@, b[20].id@);
                } else if j == 21 {
                    lemma_lower_len_differs(a[0].id@, b[21].id@);
                } else if j == 22 {
                    lemma_lower_len_differs(a[0].id@, b[22].id@);
                } else if j == 23 {
                    lemma_lower_len_differs(a[0].id@, b[23].id@);
                } else if j == 24 {
                    lemma_lower_len_differs(a[0].id@, b[24].id@);
                }
            } else if i == 1 {
                if j == 0 {
                    lemma_lower_len_differs(a[1].id@, b[0].id@);
                } else if j == 1 {
                    lemma_lower_len_differs(a[1].id@, b[1].id@);
                } else if j == 2 {
                    lemma_lower_len_differs(a[1].id@, b[2].id@);
                } else if j == 3 {
                    lemma_lower_differs(a[1].id@, b[3].id@, 0);
                } else if j == 4 {
                    lemma_lower_len_differs(a[1].id@, b[4].id@);
                } else if j == 5 {
                    lemma_lower_len_differs(a[1].id@, b[5].id@);
                } else if j == 6 {
                    lemma_lower_len_differs(a[1].id@, b[6].id@);
                } else if j == 7 {
                    lemma_lower_len_differs(a[1].id@, b[7].id@);
                } else if j == 8 {
                    lemma_lower_differs(a[1].id@, b[8].id@, 0);
                } else if j == 9 {
                    lemma_lower_differs(a[1].id@, b[9].id@, 0);
                } else if j == 10 {
                    lemma_lower_len_differs(a[1].id@, b[10].id@);
                } else if j == 11 {
                    lemma_lower_len_differs(a[1].id@, b[11].id@);
                } else if j == 12 {
                    lemma_lower_len_differs(a[1].id@, b[12].id@);
                } else if j == 13 {
                    lemma_lower_len_differs(a[1].id@, b[13].id@);
                } else if j == 14 {
                    lemma_lower_len_differs(a[1].id@, b[14].id@);
                } else if j == 15 {
                    lemma_lower_len_differs(a[1].id@, b[15].id@);
                } else if j == 16 {
                    lemma_lower_len_differs(a[1].id@, b[16].id@);
                } else if j == 17 {
                    lemma_lower_len_differs(a[1].id@, b[17].id@);
                } else if j == 18 {
                    lemma_lower_len_differs(a[1].id@, b[18].id@);
                } else if j == 19 {
                    lemma_lower_len_differs(a[1].id@, b[19].id@);
                } else if j == 20 {
                    lemma_lower_len_differs(a[1].id@, b[20].id@);
                } else if j == 21 {
                    lemma_lower_differs(a[1].id@, b[21].id@, 0);
                } else if j == 22 {
                    lemma_lower_len_differs(a[1].id@, b[22].id@);
                } else if j == 23 {
                    lemma_lower_len_differs(a[1].id@, b[23].id@);
                } else if j == 24 {
                    lemma_lower_len_differs(a[1].id@, b[24].id@);
                }
            } else if i == 2 {
                if j == 0 {
                    lemma_lower_len_differs(a[2].id@, b[0].id@);
                } else if j == 1 {
                    lemma_lower_len_differs(a[2].id@, b[1].id@);
                } else if j == 2 {
                    lemma_lower_len_differs(a[2].id@, b[2].id@);
                } else if j == 3 {
                    lemma_lower_len_differs(a[2].id@, b[3].id@);
                } else if j == 4 {
                    lemma_lower_len_differs(a[2].id@, b[4].id@);
                } else if j == 5 {
                    lemma_lower_len_differs(a[2].id@, b[5].id@);
                } else if j == 6 {
                    lemma_lower_len_differs(a[2].id@, b[6].id@);
                } else if j == 7 {
                    lemma_lower_len_differs(a[2].id@, b[7].id@);
                } else if j == 8 {
                    lemma_lower_len_differs(a[2].id@, b[8].id@);
                } else if j == 9 {
                    lemma_lower_len_differs(a[2].id@, b[9].id@);
                } else if j == 10 {
                    lemma_lower_len_differs(a[2].id@, b[10].id@);
                } else if j == 11 {
                    lemma_lower_len_differs(a[2].id@, b[11].id@);
                } else if j == 12 {
                    lemma_lower_len_differs(a[2].id@, b[12].id@);
                } else if j == 13 {
                    lemma_lower_len_differs(a[2].id@, b[13].id@);
                } else if j == 14 {
                    lemma_lower_len_differs(a[2].id@, b[14].id@);
                } else if j == 15 {
                    lemma_lower_len_differs(a[2].id@, b[15].id@);
                } else if j == 16 {
                    lemma_lower_len_differs(a[2].id@, b[16].id@);
                } else if j == 17 {
                    lemma_lower_len_differs(a[2].id@, b[17].id@);
                } else if j == 18 {
                    lemma_lower_len_differs(a[2].id@, b[18].id@);
                } else if j == 19 {
                    lemma_lower_len_differs(a[2].id@, b[19].id@);
                } else if j == 20 {
                    lemma_lower_len_differs(a[2].id@, b[20].id@);
                } else if j == 21 {
                    lemma_lower_len_differs(a[2].id@, b[21].id@);
                } else if j == 22 {
                    lemma_lower_len_differs(a[2].id@, b[22].id@);
                } else if j == 23 {
                    lemma_lower_len_differs(a[2].id@, b[23].id@);
                } else if j == 24 {
                    lemma_lower_len_differs(a[2].id@, b[24].id@);
                }
            } else if i == 3 {
                if j == 0 {
                    lemma_lower_len_differs(a[3].id@, b[0].id@);
                } else if j == 1 {
                    lemma_lower_len_differs(a[3].id@, b[1].id@);
                } else if j == 2 {
                    lemma_lower_len_differs(a[3].id@, b[2].id@);
                } else if j == 3 {
                    lemma_lower_differs(a[3].id@, b[3].id@, 0);
                } else if j == 4 {
                    lemma_lower_len_differs(a[3].id@, b[4].id@);
                } else if j == 5 {
                    lemma_lower_len_differs(a[3].id@, b[5].id@);
                } else if j == 6 {
                    lemma_lower_len_differs(a[3].id@, b[6].id@);
                } else if j == 7 {
                    lemma_lower_len_differs(a[3].id@, b[7].id@);
                } else if j == 8 {
                    lemma_lower_differs(a[3].id@, b[8].id@, 0);
                } else if j == 9 {
                    lemma_lower_differs(a[3].id@, b[9].id@, 0);
                } else if j == 10 {
                    lemma_lower_len_differs(a[3].id@, b[10].id@);
                } else if j == 11 {
                    lemma_lower_len_differs(a[3].id@, b[11].id@);
                } else if j == 12 {
                    lemma_lower_len_differs(a[3].id@, b[12].id@);
                } else if j == 13 {
                    lemma_lower_len_differs(a[3].id@, b[13].id@);
                } else if j == 14 {
                    lemma_lower_len_differs(a[3].id@, b[14].id@);
                } else if j == 15 {
                    lemma_lower_len_differs(a[3].id@, b[15].id@);
                } else if j == 16 {
                    lemma_lower_len_differs(a[3].id@, b[16].id@);
                } else if j == 17 {
                    lemma_lower_len_differs(a[3].id@, b[17].id@);
                } else if j == 18 {
                    lemma_lower_len_differs(a[3].id@, b[18].id@);
                } else if j == 19 {
                    lemma_lower_len_differs(a[3].id@, b[19].id@);
                } else if j == 20 {
                    lemma_lower_len_differs(a[3].id@, b[20].id@);
                } else if j == 21 {
                    lemma_lower_differs(a[3].id@, b[21].id@, 0);
                } else if j == 22 {
                    lemma_lower_len_differs(a[3].id@, b[22].id@);
                } else if j == 23 {
                    lemma_lower_len_differs(a[3].id@, b[23].id@);
                } else if j == 24 {
                    lemma_lower_len_differs(a[3].id@, b[24].id@);
                }
            } else if i == 4 {
                if j == 0 {
                    lemma_lower_len_differs(a[4].id@, b[0].id@);
                } else if j == 1 {
                    lemma_lower_len_differs(a[4].id@, b[1].id@);
                } else if j == 2 {
                    lemma_lower_len_differs(a[4].id@, b[2].id@);
                } else if j == 3 {
                    lemma_lower_len_differs(a[4].id@, b[3].id@);
                } else if j == 4 {
                    lemma_lower_len_differs(a[4].id@, b[4].id@);
                } else if j == 5 {
                    lemma_lower_len_differs(a[4].id@, b[5].id@);
                } else if j == 6 {
                    lemma_lower_len_differs(a[4].id@, b[6].id@);
                } else if j == 7 {
                    lemma_lower_len_differs(a[4].id@, b[7].id@);
                } else if j == 8 {
                    lemma_lower_len_differs(a[4].id@, b[8].id@);
                } else if j == 9 {
                    lemma_lower_len_differs(a[4].id@, b[9].id@);
                } else if j == 10 {
                    lemma_lower_len_differs(a[4].id@, b[10].id@);
                } else if j == 11 {
                    lemma_lower_len_differs(a[4].id@, b[11].id@);
                } else if j == 12 {
                    lemma_lower_len_differs(a[4].id@, b[12].id@);
                } else if j == 13 {
                    lemma_lower_len_differs(a[4].id@, b[13].id@);
                } else if j == 14 {
                    lemma_lower_len_differs(a[4].id@, b[14].id@);
                } else if j == 15 {
                    lemma_lower_len_differs(a[4].id@, b[15].id@);
                } else if j == 16 {
                    lemma_lower_len_differs(a[4].id@, b[16].id@);
                } else if j == 17 {
                    lemma_lower_len_differs(a[4].id@, b[17].id@);
                } else if j == 18 {
                    lemma_lower_len_differs(a[4].id@, b[18].id@);
                } else if j == 19 {
                    lemma_lower_len_differs(a[4].id@, b[19].id@);
                } else if j == 20 {
                    lemma_lower_len_differs(a[4].id@, b[20].id@);
                } else if j == 21 {
                    lemma_lower_len_differs(a[4].id@, b[21].id@);
                } else if j == 22 {
                    lemma_lower_len_differs(a[4].id@, b[22].id@);
                } else if j == 23 {
                    lemma_lower_len_differs(a[4].id@, b[23].id@);
                } else if j == 24 {
                    lemma_lower_len_differs(a[4].id@, b[24].id@);
                }
            } else if i == 5 {
                if j == 0 {
                    lemma_lower_len_differs(a[5].id@, b[0].id@);
                } else if j == 1 {
                    lemma_lower_len_differs(a[5].id@, b[1].id@);
                } else if j == 2 {
                    lemma_lower_len_differs(a[5].id@, b[2].id@);
                } else if j == 3 {
                    lemma_lower_differs(a[5].id@, b[3].id@, 0);
                } else if j == 4 {
                    lemma_lower_len_differs(a[5].id@, b[4].id@);
                } else if j == 5 {
                    lemma_lower_len_differs(a[5].id@, b[5].id@);
                } else if j == 6 {
                    lemma_lower_len_differs(a[5].id@, b[6].id@);
                } else if j == 7 {
                    lemma_lower_len_differs(a[5].id@, b[7].id@);
                } else if j == 8 {
                    lemma_lower_differs(a[5].id@, b[8].id@, 0);
                } else if j == 9 {
                    lemma_lower_differs(a[5].id@, b[9].id@, 0);
                } else if j == 10 {
                    lemma_lower_len_differs(a[5].id@, b[10].id@);
                } else if j == 11 {
                    lemma_lower_len_differs(a[5].id@, b[11].id@);
                } else if j == 12 {
                    lemma_lower_len_differs(a[5].id@, b[12].id@);
                } else if j == 13 {
                    lemma_lower_len_differs(a[5].id@, b[13].id@);
                } else if j == 14 {
                    lemma_lower_len_differs(a[5].id@, b[14].id@);
                } else if j == 15 {
                    lemma_lower_len_differs(a[5].id@, b[15].id@);
                } else if j == 16 {
                    lemma_lower_len_differs(a[5].id@, b[16].id@);
                } else if j == 17 {
                    lemma_lower_len_differs(a[5].id@, b[17].id@);
                } else if j == 18 {
                    lemma_lower_len_differs(a[5].id@, b[18].id@);
                } else if j == 19 {
                    lemma_lower_len_differs(a[5].id@, b[19].id@);
                } else if j == 20 {
                    lemma_lower_len_differs(a[5].id@, b[20].id@);
                } else if j == 21 {
                    lemma_lower_differs(a[5].id@, b[21].id@, 0);
                } else if j == 22 {
                    lemma_lower_len_differs(a[5].id@, b[22].id@);
                } else if j == 23 {
                    lemma_lower_len_differs(a[5].id@, b[23].id@);
                } else if j == 24 {
                    lemma_lower_len_differs(a[5].id@, b[24].id@);
                }
            } else if i == 6 {
                if j == 0 {
                    lemma_lower_len_differs(a[6].id@, b[0].id@);
                } else if j == 1 {
                    lemma_lower_len_differs(a[6].id@, b[1].id@);
                } else if j == 2 {
                    lemma_lower_len_differs(a[6].id@, b[2].id@);
                } else if j == 3 {
                    lemma_lower_len_differs(a[6].id@, b[3].id@);
                } else if j == 4 {
                    lemma_lower_len_differs(a[6].id@, b[4].id@);
                } else if j == 5 {
                    lemma_lower_len_differs(a[6].id@, b[5].id@);
                } else if j == 6 {
                    lemma_lower_len_differs(a[6].id@, b[6].id@);
                } else if j == 7 {
                    lemma_lower_len_differs(a[6].id@, b[7].id@);
                } else if j == 8 {
                    lemma_lower_len_differs(a[6].id@, b[8].id@);
                } else if j == 9 {
                    lemma_lower_len_differs(a[6].id@, b[9].id@);
                } else if j == 10 {
                    lemma_lower_len_differs(a[6].id@, b[10].id@);
                } else if j == 11 {
                    lemma_lower_len_differs(a[6].id@, b[11].id@);
                } else if j == 12 {
                    lemma_lower_len_differs(a[6].id@, b[12].id@);
                } else if j == 13 {
                    lemma_lower_len_differs(a[6].id@, b[13].id@);
                } else if j == 14 {
                    lemma_lower_len_differs(a[6].id@, b[14].id@);
                } else if j == 15 {
                    lemma_lower_len_differs(a[6].id@, b[15].id@);
                } else if j == 16 {
                    lemma_lower_len_differs(a[6].id@, b[16].id@);
                } else if j == 17 {
                    lemma_lower_len_differs(a[6].id@, b[17].id@);
                } else if j == 18 {
                    lemma_lower_len_differs(a[6].id@, b[18].id@);
                } else if j == 19 {
                    lemma_lower_len_differs(a[6].id@, b[19].id@);
                } else if j == 20 {
                    lemma_lower_len_differs(a[6].id@, b[20].id@);
                } else if j == 21 {
                    lemma_lower_len_differs(a[6].id@, b[21].id@);
                } else if j == 22 {
                    lemma_lower_len_differs(a[6].id@, b[22].id@);
                } else if j == 23 {
                    lemma_lower_len_differs(a[6].id@, b[23].id@);
                } else if j == 24 {
                    lemma_lower_len_differs(a[6].id@, b[24].id@);
                }
            } else if i == 7 {
                if j == 0 {
                    lemma_lower_len_differs(a[7].id@, b[0].id@);
                } else if j == 1 {
                    lemma_lower_len_differs(a[7].id@, b[1].id@);
                } else if j == 2 {
                    lemma_lower_len_differs(a[7].id@, b[2].id@);
                } else if j == 3 {
                    lemma_lower_len_differs(a[7].id@, b[3].id@);
                } else if j == 4 {
                    lemma_lower_len_differs(a[7].id@, b[4].id@);
                } else if j == 5 {
                    lemma_lower_len_differs(a[7].id@, b[5].id@);
                } else if j == 6 {
                    lemma_lower_len_differs(a[7].id@, b[6].id@);
                } else if j == 7 {
                    lemma_lower_len_differs(a[7].id@, b[7].id@);
                } else if j == 8 {
                    lemma_lower_len_differs(a[7].id@, b[8].id@);
                } else if j == 9 {
                    lemma_lower_len_differs(a[7].id@, b[9].id@);
                } else if j == 10 {
                    lemma_lower_len_differs(a[7].id@, b[10].id@);
                } else if j == 11 {
                    lemma_lower_len_differs(a[7].id@, b[11].id@);
                } else if j == 12 {
                    lemma_lower_len_differs(a[7].id@, b[12].id@);
                } else if j == 13 {
                    lemma_lower_len_differs(a[7].id@, b[13].id@);
                } else if j == 14 {
                    lemma_lower_len_differs(a[7].id@, b[14].id@);
                } else if j == 15 {
                    lemma_lower_differs(a[7].id@, b[15].id@, 0);
                } else if j == 16 {
                    lemma_lower_differs(a[7].id@, b[16].id@, 0);
                } else if j == 17 {
                    lemma_lower_len_differs(a[7].id@, b[17].id@);
                } else if j == 18 {
                    lemma_lower_len_differs(a[7].id@, b[18].id@);
                } else if j == 19 {
                    lemma_lower_len_differs(a[7].id@, b[19].id@);
                } else if j == 20 {
                    lemma_lower_len_differs(a[7].id@, b[20].id@);
                } else if j == 21 {
                    lemma_lower_len_differs(a[7].id@, b[21].id@);
                } else if j == 22 {
                    lemma_lower_len_differs(a[7].id@, b[22].id@);
                } else if j == 23 {
                    lemma_lower_len_differs(a[7].id@, b[23].id@);
                } else if j == 24 {
                    lemma_lower_len_differs(a[7].id@, b[24].id@);
                }
            }
        },
        ProviderPreset::Openrouter => {
            let b = preset_catalog(ProviderPreset::Openrouter);
            if i == 0 {
                if j == 0 {
                    lemma_lower_len_differs(a[0].id@, b[0].id@);
                }
            } else if i == 1 {
                if j == 0 {
                    lemma_lower_len_differs(a[1].id@, b[0].id@);
                }
            } else if i == 2 {
                if j == 0 {
                    lemma_lower_len_differs(a[2].id@, b[0].id@);
                }
            } else if i == 3 {
                if j == 0 {
                    lemma_lower_len_differs(a[3].id@, b[0].id@);
                }
            } else if i == 4 {
                if j == 0 {
                    lemma_lower_len_differs(a[4].id@, b[0].id@);
                }
            } else if i == 5 {
                if j == 0 {
                    lemma_lower_len_differs(a[5].id@, b[0].id@);
                }
            } else if i == 6 {
                if j == 0 {
                    lemma_lower_len_differs(a[6].id@, b[0].id@);
                }
            } else if i == 7 {
                if j == 0 {
                    lemma_lower_len_differs(a[7].id@, b[0].id@);
                }
            }
        },
        ProviderPreset::Longcat => {
            let b = preset_catalog(ProviderPreset::Longcat);
            if i == 0 {
                if j == 0 {
                    lemma_lower_len_differs(a[0].id@, b[0].id@);
                }
            } else if i == 1 {
                if j == 0 {
                    lemma_lower_len_differs(a[1].id@, b[0].id@);
                }
            } else if i == 2 {
                if j == 0 {
                    lemma_lower_len_differs(a[2].id@, b[0].id@);
                }
            } else if i == 3 {
                if j == 0 {
                    lemma_lower_len_differs(a[3].id@, b[0].id@);
                }
            } else if i == 4 {
                if j == 0 {
                    lemma_lower_len_differs(a[4].id@, b[0].id@);
                }
            } else if i == 5 {
                if j == 0 {
                    lemma_lower_len_differs(a[5].id@, b[0].id@);
                }
            } else if i == 6 {
                if j == 0 {
                    lemma_lower_len_differs(a[6].id@, b[0].id@);
                }
            } else if i == 7 {
                if j == 0 {
                    lemma_lower_len_differs(a[7].id@, b[0].id@);
                }
            }
        },
    }
}

proof fn lemma_ids_distinct_from_openai(q: ProviderPreset, i: int, j: int)
    requires
        0 <= i < preset_catalog(ProviderPreset::Openai).len(),
        0 <= j < preset_catalog(q).len(),
        rank(ProviderPreset::Openai) < rank(q) || (q == ProviderPreset::Openai && i < j),
    ensures
        lower(preset_catalog(ProviderPreset::Openai)[i].id@) != lower(preset_catalog(q)[j].id@),
{
    reveal_strlit("gpt-5.6-sol");
    reveal_strlit("gpt-5.6");
    reveal_strlit("gpt-5.6-terra");
    reveal_strlit("gpt-5.6-luna");
    reveal_strlit("gpt-5.5");
    reveal_strlit("gpt-5.5-pro");
    reveal_strlit("gpt-5.4");
    reveal_strlit("gpt-5.4-pro");
    reveal_strlit("gpt-5.4-mini");
    reveal_strlit("gpt-5.4-nano");
    reveal_strlit("gpt-5.3-codex");
    reveal_strlit("gpt-5.2");
    reveal_strlit("gpt-5.2-pro");
    reveal_strlit("gpt-5.1");
    reveal_strlit("gpt-5");
    reveal_strlit("gpt-5-mini");
    reveal_strlit("gpt-5-nano");
    reveal_strlit("gpt-5-pro");
    reveal_strlit("o3-pro");
    reveal_strlit("o3");
    reveal_strlit("gpt-4.1");
    reveal_strlit("gpt-4.1-mini");
    reveal_strlit("gpt-4o");
    reveal_strlit("gpt-4o-mini");
    reveal_strlit("chat-latest");
    reveal_strlit("openrouter/owl-alpha");
    reveal_strlit("LongCat-2.0");
    let a = preset_catalog(ProviderPreset::Openai);
    match q {
        ProviderPreset::Glm => {},
        ProviderPreset::Kimi => {},
        ProviderPreset::Minimax => {},
        ProviderPreset::Openai => {
            let b = preset_catalog(ProviderPreset::Openai);
            if i == 0 {
                if j == 1 {
                    lemma_lower_len_differs(a[0].id@, b[1].id@);
                } else if j == 2 {
                    lemma_lower_len_differs(a[0].id@, b[2].id@);
                } else if j == 3 {
                    lemma_lower_len_differs(a[0].id@, b[3].id@);
                } else if j == 4 {
                    lemma_lower_len_differs(a[0].id@, b[4].id@);
                } else if j == 5 {
                    lemma_lower_differs(a[0].id@, b[5].id@, 6);
                } else if j == 6 {
                    lemma_lower_len_differs(a[0].id@, b[6].id@);
                } else if j == 7 {
                    lemma_lower_differs(a[0].id@, b[7].id@, 6);
                } else if j == 8 {
                    lemma_lower_len_differs(a[0].id@, b[8].id@);
                } else if j == 9 {
                    lemma_lower_len_differs(a[0].id@, b[9].id@);
                } else if j == 10 {
                    lemma_lower_len_differs(a[0].id@, b[10].id@);
                } else if j == 11 {
                    lemma_lower_len_differs(a[0].id@, b[11].id@);
                } else if j == 12 {
                    lemma_lower_differs(a[0].id@, b[12].id@, 6);
                } else if j == 13 {
                    lemma_lower_len_differs(a[0].id@, b[13].id@);
                } else if j == 14 {
                    lemma_lower_len_differs(a[0].id@, b[14].id@);
                } else if j == 15 {
                    lemma_lower_len_differs(a[0].id@, b[15].id@);
                } else if j == 16 {
                    lemma_lower_len_differs(a[0].id@, b[16].id@);
                } else if j == 17 {
                    lemma_lower_len_differs(a[0].id@, b[17].id@);
                } else if j == 18 {
                    lemma_lower_len_differs(a[0].id@, b[18].id@);
                } else if j == 19 {
                    lemma_lower_len_differs(a[0].id@, b[19].id@);
                } else if j == 20 {
                    lemma_lower_len_differs(a[0].id@, b[20].id@);
                } else if j == 21 {
                    lemma_lower_len_differs(a[0].id@, b[21].id@);
                } else if j == 22 {
                    lemma_lower_len_differs(a[0].id@, b[22].id@);
                } else if j == 23 {
                    lemma_lower_differs(a[0].id@, b[23].id@, 4);
                } else if j == 24 {
                    lemma_lower_differs(a[0].id@, b[24].id@, 0);
                }
            } else if i == 1 {
                if j == 2 {
                    lemma_lower_len_differs(a[1].id@, b[2].id@);
                } else if j == 3 {
                    lemma_lower_len_differs(a[1].id@, b[3].id@);
                } else if j == 4 {
                    lemma_lower_differs(a[1].id@, b[4].id@, 6);
                } else if j == 5 {
                    lemma_lower_len_differs(a[1].id@, b[5].id@);
                } else if j == 6 {
                    lemma_lower_differs(a[1].id@, b[6].id@, 6);
                } else if j == 7 {
                    lemma_lower_len_differs(a[1].id@, b[7].id@);
                } else if j == 8 {
                    lemma_lower_len_differs(a[1].id@, b[8].id@);
                } else if j == 9 {
                    lemma_lower_len_differs(a[1].id@, b[9].id@);
                } else if j == 10 {
                    lemma_lower_len_differs(a[1].id@, b[10].id@);
                } else if j == 11 {
                    lemma_lower_differs(a[1].id@, b[11].id@, 6);
                } else if j == 12 {
                    lemma_lower_len_differs(a[1].id@, b[12].id@);
                } else if j == 13 {
                    lemma_lower_differs(a[1].id@, b[13].id@, 6);
                } else if j == 14 {
                    lemma_lower_len_differs(a[1].id@, b[14].id@);
                } else if j == 15 {
                    lemma_lower_len_differs(a[1].id@, b[15].id@);
                } else if j == 16 {
                    lemma_lower_len_differs(a[1].id@, b[16].id@);
                } else if j == 17 {
                    lemma_lower_len_differs(a[1].id@, b[17].id@);
                } else if j == 18 {
                    lemma_lower_len_differs(a[1].id@, b[18].id@);
                } else if j == 19 {
                    lemma_lower_len_differs(a[1].id@, b[19].id@);
                } else if j == 20 {
                    lemma_lower_differs(a[1].id@, b[20].id@, 4);
                } else if j == 21 {
                    lemma_lower_len_differs(a[1].id@, b[21].id@);
                } else if j == 22 {
                    lemma_lower_len_differs(a[1].id@, b[22].id@);
                } else if j == 23 {
                    lemma_lower_len_differs(a[1].id@, b[23].id@);
                } else if j == 24 {
                    lemma_lower_len_differs(a[1].id@, b[24].id@);
                }
            } else if i == 2 {
                if j == 3 {
                    lemma_lower_len_differs(a[2].id@, b[3].id@);
                } else if j == 4 {
                    lemma_lower_len_differs(a[2].id@, b[4].id@);
                } else if j == 5 {
                    lemma_lower_len_differs(a[2].id@, b[5].id@);
                } else if j == 6 {
                    lemma_lower_len_differs(a[2].id@, b[6].id@);
                } else if j == 7 {
                    lemma_lower_len_differs(a[2].id@, b[7].id@);
                } else if j == 8 {
                    lemma_lower_len_differs(a[2].id@, b[8].id@);
                } else if j == 9 {
                    lemma_lower_len_differs(a[2].id@, b[9].id@);
                } else if j == 10 {
                    lemma_lower_differs(a[2].id@, b[10].id@, 6);
                } else if j == 11 {
                    lemma_lower_len_differs(a[2].id@, b[11].id@);
                } else if j == 12 {
                    lemma_lower_len_differs(a[2].id@, b[12].id@);
                } else if j == 13 {
                    lemma_lower_len_differs(a[2].id@, b[13].id@);
                } else if j == 14 {
                    lemma_lower_len_differs(a[2].id@, b[14].id@);
                } else if j == 15 {
                    lemma_lower_len_differs(a[2].id@, b[15].id@);
                } else if j == 16 {
                    lemma_lower_len_differs(a[2].id@, b[16].id@);
                } else if j == 17 {
                    lemma_lower_len_differs(a[2].id@, b[17].id@);
                } else if j == 18 {
                    lemma_lower_len_differs(a[2].id@, b[18].id@);
                } else if j == 19 {
                    lemma_lower_len_differs(a[2].id@, b[19].id@);
                } else if j == 20 {
                    lemma_lower_len_differs(a[2].id@, b[20].id@);
                } else if j == 21 {
                    lemma_lower_len_differs(a[2].id@, b[21].id@);
                } else if j == 22 {
                    lemma_lower_len_differs(a[2].id@, b[22].id@);
                } else if j == 23 {
                    lemma_lower_len_differs(a[2].id@, b[23].id@);
                } else if j == 24 {
                    lemma_lower_len_differs(a[2].id@, b[24].id@);
                }
            } else if i == 3 {
                if j == 4 {
                    lemma_lower_len_differs(a[3].id@, b[4].id@);
                } else if j == 5 {
                    lemma_lower_len_differs(a[3].id@, b[5].id@);
                } else if j == 6 {
                    lemma_lower_len_differs(a[3].id@, b[6].id@);
                } else if j == 7 {
                    lemma_lower_len_differs(a[3].id@, b[7].id@);
                } else if j == 8 {
                    lemma_lower_differs(a[3].id@, b[8].id@, 6);
                } else if j == 9 {
                    lemma_lower_differs(a[3].id@, b[9].id@, 6);
                } else if j == 10 {
                    lemma_lower_len_differs(a[3].id@, b[10].id@);
                } else if j == 11 {
                    lemma_lower_len_differs(a[3].id@, b[11].id@);
                } else if j == 12 {
                    lemma_lower_len_differs(a[3].id@, b[12].id@);
                } else if j == 13 {
                    lemma_lower_len_differs(a[3].id@, b[13].id@);
                } else if j == 14 {
                    lemma_lower_len_differs(a[3].id@, b[14].id@);
                } else if j == 15 {
                    lemma_lower_len_differs(a[3].id@, b[15].id@);
                } else if j == 16 {
                    lemma_lower_len_differs(a[3].id@, b[16].id@);
                } else if j == 17 {
                    lemma_lower_len_differs(a[3].id@, b[17].id@);
                } else if j == 18 {
                    lemma_lower_len_differs(a[3].id@, b[18].id@);
                } else if j == 19 {
                    lemma_lower_len_differs(a[3].id@, b[19].id@);
                } else if j == 20 {
                    lemma_lower_len_differs(a[3].id@, b[20].id@);
                } else if j == 21 {
                    lemma_lower_differs(a[3].id@, b[21].id@, 4);
                } else if j == 22 {
                    lemma_lower_len_differs(a[3].id@, b[22].id@);
                } else if j == 23 {
                    lemma_lower_len_differs(a[3].id@, b[23].id@);
                } else if j == 24 {
                    lemma_lower_len_differs(a[3].id@, b[24].id@);
                }
            } else if i == 4 {
                if j == 5 {
                    lemma_lower_len_differs(a[4].id@, b[5].id@);
                } else if j == 6 {
                    lemma_lower_differs(a[4].id@, b[6].id@, 6);
                } else if j == 7 {
                    lemma_lower_len_differs(a[4].id@, b[7].id@);
                } else if j == 8 {
                    lemma_lower_len_differs(a[4].id@, b[8].id@);
                } else if j == 9 {
                    lemma_lower_len_differs(a[4].id@, b[9].id@);
                } else if j == 10 {
                    lemma_lower_len_differs(a[4].id@, b[10].id@);
                } else if j == 11 {
                    lemma_lower_differs(a[4].id@, b[11].id@, 6);
                } else if j == 12 {
                    lemma_lower_len_differs(a[4].id@, b[12].id@);
                } else if j == 13 {
                    lemma_lower_differs(a[4].id@, b[13].id@, 6);
                } else if j == 14 {
                    lemma_lower_len_differs(a[4].id@, b[14].id@);
                } else if j == 15 {
                    lemma_lower_len_differs(a[4].id@, b[15].id@);
                } else if j == 16 {
                    lemma_lower_len_differs(a[4].id@, b[16].id@);
                } else if j == 17 {
                    lemma_lower_len_differs(a[4].id@, b[17].id@);
                } else if j == 18 {
                    lemma_lower_len_differs(a[4].id@, b[18].id@);
                } else if j == 19 {
                    lemma_lower_len_differs(a[4].id@, b[19].id@);
                } else if j == 20 {
                    lemma_lower_differs(a[4].id@, b[20].id@, 4);
                } else if j == 21 {
                    lemma_lower_len_differs(a[4].id@, b[21].id@);
                } else if j == 22 {
                    lemma_lower_len_differs(a[4].id@, b[22].id@);
                } else if j == 23 {
                    lemma_lower_len_differs(a[4].id@, b[23].id@);
                } else if j == 24 {
                    lemma_lower_len_differs(a[4].id@, b[24].id@);
                }
            } else if i == 5 {
                if j == 6 {
                    lemma_lower_len_differs(a[5].id@, b[6].id@);
                } else if j == 7 {
                    lemma_lower_differs(a[5].id@, b[7].id@, 6);
                } else if j == 8 {
                    lemma_lower_len_differs(a[5].id@, b[8].id@);
                } else if j == 9 {
                    lemma_lower_len_differs(a[5].id@, b[9].id@);
                } else if j == 10 {
                    lemma_lower_len_differs(a[5].id@, b[10].id@);
                } else if j == 11 {
                    lemma_lower_len_differs(a[5].id@, b[11].id@);
                } else if j == 12 {
                    lemma_lower_differs(a[5].id@, b[12].id@, 6);
                } else if j == 13 {
                    lemma_lower_len_differs(a[5].id@, b[13].id@);
                } else if j == 14 {
                    lemma_lower_len_differs(a[5].id@, b[14].id@);
                } else if j == 15 {
                    lemma_lower_len_differs(a[5].id@, b[15].id@);
                } else if j == 16 {
                    lemma_lower_len_differs(a[5].id@, b[16].id@);
                } else if j == 17 {
                    lemma_lower_len_differs(a[5].id@, b[17].id@);
                } else if j == 18 {
                    lemma_lower_len_differs(a[5].id@, b[18].id@);
                } else if j == 19 {
                    lemma_lower_len_differs(a[5].id@, b[19].id@);
                } else if j == 20 {
                    lemma_lower_len_differs(a[5].id@, b[20].id@);
                } else if j == 21 {
                    lemma_lower_len_differs(a[5].id@, b[21].id@);
                } else if j == 22 {
                    lemma_lower_len_differs(a[5].id@, b[22].id@);
                } else if j == 23 {
                    lemma_lower_differs(a[5].id@, b[23].id@, 4);
                } else if j == 24 {
                    lemma_lower_differs(a[5].id@, b[24].id@, 0);
                }
            } else if i == 6 {
                if j == 7 {
                    lemma_lower_len_differs(a[6].id@, b[7].id@);
                } else if j == 8 {
                    lemma_lower_len_differs(a[6].id@, b[8].id@);
                } else if j == 9 {
                    lemma_lower_len_differs(a[6].id@, b[9].id@);
                } else if j == 10 {
                    lemma_lower_len_differs(a[6].id@, b[10].id@);
                } else if j == 11 {
                    lemma_lower_differs(a[6].id@, b[11].id@, 6);
                } else if j == 12 {
                    lemma_lower_len_differs(a[6].id@, b[12].id@);
                } else if j == 13 {
                    lemma_lower_differs(a[6].id@, b[13].id@, 6);
                } else if j == 14 {
                    lemma_lower_len_differs(a[6].id@, b[14].id@);
                } else if j == 15 {
                    lemma_lower_len_differs(a[6].id@, b[15].id@);
                } else if j == 16 {
                    lemma_lower_len_differs(a[6].id@, b[16].id@);
                } else if j == 17 {
                    lemma_lower_len_differs(a[6].id@, b[17].id@);
                } else if j == 18 {
                    lemma_lower_len_differs(a[6].id@, b[18].id@);
                } else if j == 19 {
                    lemma_lower_len_differs(a[6].id@, b[19].id@);
                } else if j == 20 {
                    lemma_lower_differs(a[6].id@, b[20].id@, 4);
                } else if j == 21 {
                    lemma_lower_len_differs(a[6].id@, b[21].id@);
                } else if j == 22 {
                    lemma_lower_len_differs(a[6].id@, b[22].id@);
                } else if j == 23 {
                    lemma_lower_len_differs(a[6].id@, b[23].id@);
                } else if j == 24 {
                    lemma_lower_len_differs(a[6].id@, b[24].id@);
                }
            } else if i == 7 {
                if j == 8 {
                    lemma_lower_len_differs(a[7].id@, b[8].id@);
                } else if j == 9 {
                    lemma_lower_len_differs(a[7].id@, b[9].id@);
                } else if j == 10 {
                    lemma_lower_len_differs(a[7].id@, b[10].id@);
                } else if j == 11 {
                    lemma_lower_len_differs(a[7].id@, b[11].id@);
                } else if j == 12 {
                    lemma_lower_differs(a[7].id@, b[12].id@, 6);
                } else if j == 13 {
                    lemma_lower_len_differs(a[7].id@, b[13].id@);
                } else if j == 14 {
                    lemma_lower_len_differs(a[7].id@, b[14].id@);
                } else if j == 15 {
                    lemma_lower_len_differs(a[7].id@, b[15].id@);
                } else if j == 16 {
                    lemma_lower_len_differs(a[7].id@, b[16].id@);
                } else if j == 17 {
                    lemma_lower_len_differs(a[7].id@, b[17].id@);
                } else if j == 18 {
                    lemma_lower_len_differs(a[7].id@, b[18].id@);
                } else if j == 19 {
                    lemma_lower_len_differs(a[7].id@, b[19].id@);
                } else if j == 20 {
                    lemma_lower_len_differs(a[7].id@, b[20].id@);
                } else if j == 21 {
                    lemma_lower_len_differs(a[7].id@, b[21].id@);
                } else if j == 22 {
                    lemma_lower_len_differs(a[7].id@, b[22].id@);
                } else if j == 23 {
                    lemma_lower_differs(a[7].id@, b[23].id@, 4);
                } else if j == 24 {
                    lemma_lower_differs(a[7].id@, b[24].id@, 0);
                }
            } else if i == 8 {
                if j == 9 {
                    lemma_lower_differs(a[8].id@, b[9].id@, 8);
                } else if j == 10 {
                    lemma_lower_len_differs(a[8].id@, b[10].id@);
                } else if j == 11 {
                    lemma_lower_len_differs(a[8].id@, b[11].id@);
                } else if j == 12 {
                    lemma_lower_len_differs(a[8].id@, b[12].id@);
                } else if j == 13 {
                    lemma_lower_len_differs(a[8].id@, b[13].id@);
                } else if j == 14 {
                    lemma_lower_len_differs(a[8].id@, b[14].id@);
                } else if j == 15 {
                    lemma_lower_len_differs(a[8].id@, b[15].id@);
                } else if j == 16 {
                    lemma_lower_len_differs(a[8].id@, b[16].id@);
                } else if j == 17 {
                    lemma_lower_len_differs(a[8].id@, b[17].id@);
                } else if j == 18 {
                    lemma_lower_len_differs(a[8].id@, b[18].id@);
                } else if j == 19 {
                    lemma_lower_len_differs(a[8].id@, b[19].id@);
                } else if j == 20 {
                    lemma_lower_len_differs(a[8].id@, b[20].id@);
                } else if j == 21 {
                    lemma_lower_differs(a[8].id@, b[21].id@, 4);
                } else if j == 22 {
                    lemma_lower_len_differs(a[8].id@, b[22].id@);
                } else if j == 23 {
                    lemma_lower_len_differs(a[8].id@, b[23].id@);
                } else if j == 24 {
                    lemma_lower_len_differs(a[8].id@, b[24].id@);
                }
            } else if i == 9 {
                if j == 10 {
                    lemma_lower_len_differs(a[9].id@, b[10].id@);
                } else if j == 11 {
                    lemma_lower_len_differs(a[9].id@, b[11].id@);
                } else if j == 12 {
                    lemma_lower_len_differs(a[9].id@, b[12].id@);
                } else if j == 13 {
                    lemma_lower_len_differs(a[9].id@, b[13].id@);
                } else if j == 14 {
                    lemma_lower_len_differs(a[9].id@, b[14].id@);
                } else if j == 15 {
                    lemma_lower_len_differs(a[9].id@, b[15].id@);
                } else if j == 16 {
                    lemma_lower_len_differs(a[9].id@, b[16].id@);
                } else if j == 17 {
                    lemma_lower_len_differs(a[9].id@, b[17].id@);
                } else if j == 18 {
                    lemma_lower_len_differs(a[9].id@, b[18].id@);
                } else if j == 19 {
                    lemma_lower_len_differs(a[9].id@, b[19].id@);
                } else if j == 20 {
                    lemma_lower_len_differs(a[9].id@, b[20].id@);
                } else if j == 21 {
                    lemma_lower_differs(a[9].id@, b[21].id@, 4);
                } else if j == 22 {
                    lemma_lower_len_differs(a[9].id@, b[22].id@);
                } else if j == 23 {
                    lemma_lower_len_differs(a[9].id@, b[23].id@);
                } else if j == 24 {
                    lemma_lower_len_differs(a[9].id@, b[24].id@);
                }
            } else if i == 10 {
                if j == 11 {
                    lemma_lower_len_differs(a[10].id@, b[11].id@);
                } else if j == 12 {
                    lemma_lower_len_differs(a[10].id@, b[12].id@);
                } else if j == 13 {
                    lemma_lower_len_differs(a[10].id@, b[13].id@);
                } else if j == 14 {
                    lemma_lower_len_differs(a[10].id@, b[14].id@);
                } else if j == 15 {
                    lemma_lower_len_differs(a[10].id@, b[15].id@);
                } else if j == 16 {
                    lemma_lower_len_differs(a[10].id@, b[16].id@);
                } else if j == 17 {
                    lemma_lower_len_differs(a[10].id@, b[17].id@);
                } else if j == 18 {
                    lemma_lower_len_differs(a[10].id@, b[18].id@);
                } else if j == 19 {
                    lemma_lower_len_differs(a[10].id@, b[19].id@);
                } else if j == 20 {
                    lemma_lower_len_differs(a[10].id@, b[20].id@);
                } else if j == 21 {
                    lemma_lower_len_differs(a[10].id@, b[21].id@);
                } else if j == 22 {
                    lemma_lower_len_differs(a[10].id@, b[22].id@);
                } else if j == 23 {
                    lemma_lower_len_differs(a[10].id@, b[23].id@);
                } else if j == 24 {
                    lemma_lower_len_differs(a[10].id@, b[24].id@);
                }
            } else if i == 11 {
                if j == 12 {
                    lemma_lower_len_differs(a[11].id@, b[12].id@);
                } else if j == 13 {
                    lemma_lower_differs(a[11].id@, b[13].id@, 6);
                } else if j == 14 {
                    lemma_lower_len_differs(a[11].id@, b[14].id@);
                } else if j == 15 {
                    lemma_lower_len_differs(a[11].id@, b[15].id@);
                } else if j == 16 {
                    lemma_lower_len_differs(a[11].id@, b[16].id@);
                } else if j == 17 {
                    lemma_lower_len_differs(a[11].id@, b[17].id@);
                } else if j == 18 {
                    lemma_lower_len_differs(a[11].id@, b[18].id@);
                } else if j == 19 {
                    lemma_lower_len_differs(a[11].id@, b[19].id@);
                } else if j == 20 {
                    lemma_lower_differs(a[11].id@, b[20].id@, 4);
                } else if j == 21 {
                    lemma_lower_len_differs(a[11].id@, b[21].id@);
                } else if j == 22 {
                    lemma_lower_len_differs(a[11].id@, b[22].id@);
                } else if j == 23 {
                    lemma_lower_len_differs(a[11].id@, b[23].id@);
                } else if j == 24 {
                    lemma_lower_len_differs(a[11].id@, b[24].id@);
                }
            } else if i == 12 {
                if j == 13 {
                    lemma_lower_len_differs(a[12].id@, b[13].id@);
                } else if j == 14 {
                    lemma_lower_len_differs(a[12].id@, b[14].id@);
                } else if j == 15 {
                    lemma_lower_len_differs(a[12].id@, b[15].id@);
                } else if j == 16 {
                    lemma_lower_len_differs(a[12].id@, b[16].id@);
                } else if j == 17 {
                    lemma_lower_len_differs(a[12].id@, b[17].id@);
                } else if j == 18 {
                    lemma_lower_len_differs(a[12].id@, b[18].id@);
                } else if j == 19 {
                    lemma_lower_len_differs(a[12].id@, b[19].id@);
                } else if j == 20 {
                    lemma_lower_len_differs(a[12].id@, b[20].id@);
                } else if j == 21 {
                    lemma_lower_len_differs(a[12].id@, b[21].id@);
                } else if j == 22 {
                    lemma_lower_len_differs(a[12].id@, b[22].id@);
                } else if j == 23 {
                    lemma_lower_differs(a[12].id@, b[23].id@, 4);
                } else if j == 24 {
                    lemma_lower_differs(a[12].id@, b[24].id@, 0);
                }
            } else if i == 13 {
                if j == 14 {
                    lemma_lower_len_differs(a[13].id@, b[14].id@);
                } else if j == 15 {
                    lemma_lower_len_differs(a[13].id@, b[15].id@);
                } else if j == 16 {
                    lemma_lower_len_differs(a[13].id@, b[16].id@);
                } else if j == 17 {
                    lemma_lower_len_differs(a[13].id@, b[17].id@);
                } else if j == 18 {
                    lemma_lower_len_differs(a[13].id@, b[18].id@);
                } else if j == 19 {
                    lemma_lower_len_differs(a[13].id@, b[19].id@);
                } else if j == 20 {
                    lemma_lower_differs(a[13].id@, b[20].id@, 4);
                } else if j == 21 {
                    lemma_lower_len_differs(a[13].id@, b[21].id@);
                } else if j == 22 {
                    lemma_lower_len_differs(a[13].id@, b[22].id@);
                } else if j == 23 {
                    lemma_lower_len_differs(a[13].id@, b[23].id@);
                } else if j == 24 {
                    lemma_lower_len_differs(a[13].id@, b[24].id@);
                }
            } else if i == 14 {
                if j == 15 {
                    lemma_lower_len_differs(a[14].id@, b[15].id@);
                } else if j == 16 {
                    lemma_lower_len_differs(a[14].id@, b[16].id@);
                } else if j == 17 {
                    lemma_lower_len_differs(a[14].id@, b[17].id@);
                } else if j == 18 {
                    lemma_lower_len_differs(a[14].id@, b[18].id@);
                } else if j == 19 {
                    lemma_lower_len_differs(a[14].id@, b[19].id@);
                } else if j == 20 {
                    lemma_lower_len_differs(a[14].id@, b[20].id@);
                } else if j == 21 {
                    lemma_lower_len_differs(a[14].id@, b[21].id@);
                } else if j == 22 {
                    lemma_lower_len_differs(a[14].id@, b[22].id@);
                } else if j == 23 {
                    lemma_lower_len_differs(a[14].id@, b[23].id@);
                } else if j == 24 {
                    lemma_lower_len_differs(a[14].id@, b[24].id@);
                }
            } else if i == 15 {
                if j == 16 {
                    lemma_lower_differs(a[15].id@, b[16].id@, 6);
                } else if j == 17 {
                    lemma_lower_len_differs(a[15].id@, b[17].id@);
                } else if j == 18 {
                    lemma_lower_len_differs(a[15].id@, b[18].id@);
                } else if j == 19 {
                    lemma_lower_len_differs(a[15].id@, b[19].id@);
                } else if j == 20 {
                    lemma_lower_len_differs(a[15].id@, b[20].id@);
                } else if j == 21 {
                    lemma_lower_len_differs(a[15].id@, b[21].id@);
                } else if j == 22 {
                    lemma_lower_len_differs(a[15].id@, b[22].id@);
                } else if j == 23 {
                    lemma_lower_len_differs(a[15].id@, b[23].id@);
                } else if j == 24 {
                    lemma_lower_len_differs(a[15].id@, b[24].id@);
                }
            } else if i == 16 {
                if j == 17 {
                    lemma_lower_len_differs(a[16].id@, b[17].id@);
                } else if j == 18 {
                    lemma_lower_len_differs(a[16].id@, b[18].id@);
                } else if j == 19 {
                    lemma_lower_len_differs(a[16].id@, b[19].id@);
                } else if j == 20 {
                    lemma_lower_len_differs(a[16].id@, b[20].id@);
                } else if j == 21 {
                    lemma_lower_len_differs(a[16].id@, b[21].id@);
                } else if j == 22 {
                    lemma_lower_len_differs(a[16].id@, b[22].id@);
                } else if j == 23 {
                    lemma_lower_len_differs(a[16].id@, b[23].id@);
                } else if j == 24 {
                    lemma_lower_len_differs(a[16].id@, b[24].id@);
                }
            } else if i == 17 {
                if j == 18 {
                    lemma_lower_len_differs(a[17].id@, b[18].id@);
                } else if j == 19 {
                    lemma_lower_len_differs(a[17].id@, b[19].id@);
                } else if j == 20 {
                    lemma_lower_len_differs(a[17].id@, b[20].id@);
                } else if j == 21 {
                    lemma_lower_len_differs(a[17].id@, b[21].id@);
                } else if j == 22 {
                    lemma_lower_len_differs(a[17].id@, b[22].id@);
                } else if j == 23 {
                    lemma_lower_len_differs(a[17].id@, b[23].id@);
                } else if j == 24 {
                    lemma_lower_len_differs(a[17].id@, b[24].id@);
                }
            } else if i == 18 {
                if j == 19 {
                    lemma_lower_len_differs(a[18].id@, b[19].id@);
                } else if j == 20 {
                    lemma_lower_len_differs(a[18].id@, b[20].id@);
                } else if j == 21 {
                    lemma_lower_len_differs(a[18].id@, b[21].id@);
                } else if j == 22 {
                    lemma_lower_differs(a[18].id@, b[22].id@, 0);
                } else if j == 23 {
                    lemma_lower_len_differs(a[18].id@, b[23].id@);
                } else if j == 24 {
                    lemma_lower_len_differs(a[18].id@, b[24].id@);
                }
            } else if i == 19 {
                if j == 20 {
                    lemma_lower_len_differs(a[19].id@, b[20].id@);
                } else if j == 21 {
                    lemma_lower_len_differs(a[19].id@, b[21].id@);
                } else if j == 22 {
                    lemma_lower_len_differs(a[19].id@, b[22].id@);
                } else if j == 23 {
                    lemma_lower_len_differs(a[19].id@, b[23].id@);
                } else if j == 24 {
                    lemma_lower_len_differs(a[19].id@, b[24].id@);
                }
            } else if i == 20 {
                if j == 21 {
                    lemma_lower_len_differs(a[20].id@, b[21].id@);
                } else if j == 22 {
                    lemma_lower_len_differs(a[20].id@, b[22].id@);
                } else if j == 23 {
                    lemma_lower_len_differs(a[20].id@, b[23].id@);
                } else if j == 24 {
                    lemma_lower_len_differs(a[20].id@, b[24].id@);
                }
            } else if i == 21 {
                if j == 22 {
                    lemma_lower_len_differs(a[21].id@, b[22].id@);
                } else if j == 23 {
                    lemma_lower_len_differs(a[21].id@, b[23].id@);
                } else if j == 24 {
                    lemma_lower_len_differs(a[21].id@, b[24].id@);
                }
            } else if i == 22 {
                if j == 23 {
                    lemma_lower_len_differs(a[22].id@, b[23].id@);
                } else if j == 24 {
                    lemma_lower_len_differs(a[22].id@, b[24].id@);
                }
            } else if i == 23 {
                if j == 24 {
                    lemma_lower_differs(a[23].id@, b[24].id@, 0);
                }
            }
        },
        ProviderPreset::Openrouter => {
            let b = preset_catalog(ProviderPreset::Openrouter);
            if i == 0 {
                if j == 0 {
                    lemma_lower_len_differs(a[0].id@, b[0].id@);
                }
            } else if i == 1 {
                if j == 0 {
                    lemma_lower_len_differs(a[1].id@, b[0].id@);
                }
            } else if i == 2 {
                if j == 0 {
                    lemma_lower_len_differs(a[2].id@, b[0].id@);
                }
            } else if i == 3 {
                if j == 0 {
                    lemma_lower_len_differs(a[3].id@, b[0].id@);
                }
            } else if i == 4 {
                if j == 0 {
                    lemma_lower_len_differs(a[4].id@, b[0].id@);
                }
            } else if i == 5 {
                if j == 0 {
                    lemma_lower_len_differs(a[5].id@, b[0].id@);
                }
            } else if i == 6 {
                if j == 0 {
                    lemma_lower_len_differs(a[6].id@, b[0].id@);
                }
            } else if i == 7 {
                if j == 0 {
                    lemma_lower_len_differs(a[7].id@, b[0].id@);
                }
            } else if i == 8 {
                if j == 0 {
                    lemma_lower_len_differs(a[8].id@, b[0].id@);
                }
            } else if i == 9 {
                if j == 0 {
                    lemma_lower_len_differs(a[9].id@, b[0].id@);
                }
            } else if i == 10 {
                if j == 0 {
                    lemma_lower_len_differs(a[10].id@, b[0].id@);
                }
            } else if i == 11 {
                if j == 0 {
                    lemma_lower_len_differs(a[11].id@, b[0].id@);
                }
            } else if i == 12 {
                if j == 0 {
                    lemma_lower_len_differs(a[12].id@, b[0].id@);
                }
            } else if i == 13 {
                if j == 0 {
                    lemma_lower_len_differs(a[13].id@, b[0].id@);
                }
            } else if i == 14 {
                if j == 0 {
                    lemma_lower_len_differs(a[14].id@, b[0].id@);
                }
            } else if i == 15 {
                if j == 0 {
                    lemma_lower_len_differs(a[15].id@, b[0].id@);
                }
            } else if i == 16 {
                if j == 0 {
                    lemma_lower_len_differs(a[16].id@, b[0].id@);
                }
            } else if i == 17 {
                if j == 0 {
                    lemma_lower_len_differs(a[17].id@, b[0].id@);
                }
            } else if i == 18 {
                if j == 0 {
                    lemma_lower_len_differs(a[18].id@, b[0].id@);
                }
            } else if i == 19 {
                if j == 0 {
                    lemma_lower_len_differs(a[19].id@, b[0].id@);
                }
            } else if i == 20 {
                if j == 0 {
                    lemma_lower_len_differs(a[20].id@, b[0].id@);
                }
            } else if i == 21 {
                if j == 0 {
                    lemma_lower_len_differs(a[21].id@, b[0].id@);
                }
            } else if i == 22 {
                if j == 0 {
                    lemma_lower_len_differs(a[22].id@, b[0].id@);
                }
            } else if i == 23 {
                if j == 0 {
                    lemma_lower_len_differs(a[23].id@, b[0].id@);
                }
            } else if i == 24 {
                if j == 0 {
                    lemma_lower_len_differs(a[24].id@, b[0].id@);
                }
            }
        },
        ProviderPreset::Longcat => {
            let b = preset_catalog(ProviderPreset::Longcat);
            if i == 0 {
                if j == 0 {
                    lemma_lower_differs(a[0].id@, b[0].id@, 0);
                }
            } else if i == 1 {
                if j == 0 {
                    lemma_lower_len_differs(a[1].id@, b[0].id@);
                }
            } else if i == 2 {
                if j == 0 {
                    lemma_lower_len_differs(a[2].id@, b[0].id@);
                }
            } else if i == 3 {
                if j == 0 {
                    lemma_lower_len_differs(a[3].id@, b[0].id@);
                }
            } else if i == 4 {
                if j == 0 {
                    lemma_lower_len_differs(a[4].id@, b[0].id@);
                }
            } else if i == 5 {
                if j == 0 {
                    lemma_lower_differs(a[5].id@, b[0].id@, 0);
                }
            } else if i == 6 {
                if j == 0 {
                    lemma_lower_len_differs(a[6].id@, b[0].id@);
                }
            } else if i == 7 {
                if j == 0 {
                    lemma_lower_differs(a[7].id@, b[0].id@, 0);
                }
            } else if i == 8 {
                if j == 0 {
                    lemma_lower_len_differs(a[8].id@, b[0].id@);
                }
            } else if i == 9 {
                if j == 0 {
                    lemma_lower_len_differs(a[9].id@, b[0].id@);
                }
            } else if i == 10 {
                if j == 0 {
                    lemma_lower_len_differs(a[10].id@, b[0].id@);
                }
            } else if i == 11 {
                if j == 0 {
                    lemma_lower_len_differs(a[11].id@, b[0].id@);
                }
            } else if i == 12 {
                if j == 0 {
                    lemma_lower_differs(a[12].id@, b[0].id@, 0);
                }
            } else if i == 13 {
                if j == 0 {
                    lemma_lower_len_differs(a[13].id@, b[0].id@);
                }
            } else if i == 14 {
                if j == 0 {
                    lemma_lower_len_differs(a[14].id@, b[0].id@);
                }
            } else if i == 15 {
                if j == 0 {
                    lemma_lower_len_differs(a[15].id@, b[0].id@);
                }
            } else if i == 16 {
                if j == 0 {
                    lemma_lower_len_differs(a[16].id@, b[0].id@);
                }
            } else if i == 17 {
                if j == 0 {
                    lemma_lower_len_differs(a[17].id@, b[0].id@);
                }
            } else if i == 18 {
                if j == 0 {
                    lemma_lower_len_differs(a[18].id@, b[0].id@);
                }
            } else if i == 19 {
                if j == 0 {
                    lemma_lower_len_differs(a[19].id@, b[0].id@);
                }
            } else if i == 20 {
                if j == 0 {
                    lemma_lower_len_differs(a[20].id@, b[0].id@);
                }
            } else if i == 21 {
                if j == 0 {
                    lemma_lower_len_differs(a[21].id@, b[0].id@);
                }
            } else if i == 22 {
                if j == 0 {
                    lemma_lower_len_differs(a[22].id@, b[0].id@);
                }
            } else if i == 23 {
                if j == 0 {
                    lemma_lower_differs(a[23].id@, b[0].id@, 0);
                }
            } else if i == 24 {
                if j == 0 {
                    lemma_lower_differs(a[24].id@, b[0].id@, 0);
                }
            }
        },
    }
}

proof fn lemma_ids_distinct_from_openrouter(q: ProviderPreset, i: int, j: int)
    requires
        0 <= i < preset_catalog(ProviderPreset::Openrouter).len(),
        0 <= j < preset_catalog(q).len(),
        rank(ProviderPreset::Openrouter) < rank(q) || (q == ProviderPreset::Openrouter && i < j),
    ensures
        lower(preset_catalog(ProviderPreset::Openrouter)[i].id@) != lower(preset_catalog(q)[j].id@),
{
    reveal_strlit("openrouter/owl-alpha");
    reveal_strlit("LongCat-2.0");
    let a = preset_catalog(ProviderPreset::Openrouter);
    match q {
        ProviderPreset::Glm => {},
        ProviderPreset::Kimi => {},
        ProviderPreset::Minimax => {},
        ProviderPreset::Openai => {},
        ProviderPreset::Openrouter => {
            let b = preset_catalog(ProviderPreset::Openrouter);
        },
        ProviderPreset::Longcat => {
            let b = preset_catalog(ProviderPreset::Longcat);
            if i == 0 {
                if j == 0 {
                    lemma_lower_len_differs(a[0].id@, b[0].id@);
                }
            }
        },
    }
}

proof fn lemma_ids_distinct_from_longcat(q: ProviderPreset, i: int, j: int)
    requires
        0 <= i < preset_catalog(ProviderPreset::Longcat).len(),
        0 <= j < preset_catalog(q).len(),
        rank(ProviderPreset::Longcat) < rank(q) || (q == ProviderPreset::Longcat && i < j),
    ensures
        lower(preset_catalog(ProviderPreset::Longcat)[i].id@) != lower(preset_catalog(q)[j].id@),
{
    reveal_strlit("LongCat-2.0");
    match q {
        ProviderPreset::Glm => {},
        ProviderPreset::Kimi => {},
        ProviderPreset::Minimax => {},
        ProviderPreset::Openai => {},
        ProviderPreset::Openrouter => {},
        ProviderPreset::Longcat => {},
    }
}

proof fn lemma_ids_distinct_ordered(p: ProviderPreset, q: ProviderPreset, i: int, j: int)
    requires
        0 <= i < preset_catalog(p).len(),
        0 <= j < preset_catalog(q).len(),
        rank(p) < rank(q) || (p == q && i < j),
    ensures
        lower(preset_catalog(p)[i].id@) != lower(preset_catalog(q)[j].id@),
{
    match p {
        ProviderPreset::Glm => lemma_ids_distinct_from_glm(q, i, j),
        ProviderPreset::Kimi => lemma_ids_distinct_from_kimi(q, i, j),
        ProviderPreset::Minimax => lemma_ids_distinct_from_minimax(q, i, j),
        ProviderPreset::Openai => lemma_ids_distinct_from_openai(q, i, j),
        ProviderPreset::Openrouter => lemma_ids_distinct_from_openrouter(q, i, j),
        ProviderPreset::Longcat => lemma_ids_distinct_from_longcat(q, i, j),
    }
}

/// Catalog ids are distinct ignoring ASCII case, within each catalog and across
/// presets, so a lookup by id names one catalog model.
pub proof fn lemma_catalog_ids_distinct(p: ProviderPreset, q: ProviderPreset, i: int, j: int)
    requires
        0 <= i < preset_catalog(p).len(),
        0 <= j < preset_catalog(q).len(),
        p != q || i != j,
    ensures
        lower(preset_catalog(p)[i].id@) != lower(preset_catalog(q)[j].id@),
{
    if rank(p) < rank(q) || (p == q && i < j) {
        lemma_ids_distinct_ordered(p, q, i, j);
    } else {
        lemma_ids_distinct_ordered(q, p, j, i);
    }
}

} // verus!
