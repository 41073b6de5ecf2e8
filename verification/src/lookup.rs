//! Finding the catalog entry that describes a configured model.
use vstd::prelude::*;
use crate::catalog::{preset_catalog, ModelPreset};
use crate::preset::ProviderPreset;
use crate::text::{
    lemma_lower_idempotent,
    chars_equal, has_suffix, lower, lowercase_chars, matches_at, str_chars, trim, trimmed_chars,
};

verus! {

/// The id a model name is looked up by: trimmed and lowercased; for GLM, a trailing
/// `[1m]` (the 1M-context marker) is dropped.
pub open spec fn lookup_id(p: ProviderPreset, model: Seq<char>) -> Seq<char> {
    let n = lower(trim(model));
    if p == ProviderPreset::Glm && has_suffix(n, "[1m]"@) {
        n.subrange(0, n.len() - 4)
    } else {
        n
    }
}

/// A catalog entry is the model `id`, ignoring ASCII case (`eq_ignore_ascii_case`).
pub open spec fn is_exact_match(c: ModelPreset, id: Seq<char>) -> bool {
    lower(c.id@) == lower(id)
}

/// `id` is a dated snapshot of the catalog entry: the entry's id followed by `-`.
pub open spec fn is_snapshot_of(c: ModelPreset, id: Seq<char>) -> bool {
    c.id@.len() < id.len() && id.subrange(0, c.id@.len() as int) == c.id@ && id[c.id@.len() as int]
        == '-'
}

/// The first catalog entry that is the model `id` (`Iterator::find`).
pub open spec fn first_exact(cat: Seq<ModelPreset>, id: Seq<char>) -> Option<ModelPreset>
    decreases cat.len(),
{
    if cat.len() == 0 {
        None
    } else if is_exact_match(cat[0], id) {
        Some(cat[0])
    } else {
        first_exact(cat.drop_first(), id)
    }
}

/// Of the catalog entries that `id` is a snapshot of, the one with the longest id; among
/// equally long ones the last (`Iterator::max_by_key`).
pub open spec fn longest_snapshot(cat: Seq<ModelPreset>, id: Seq<char>) -> Option<ModelPreset>
    decreases cat.len(),
{
    if cat.len() == 0 {
        None
    } else {
        let rest = longest_snapshot(cat.drop_last(), id);
        let c = cat.last();
        if is_snapshot_of(c, id) {
            match rest {
                Some(b) => if c.id.len() >= b.id.len() {
                    Some(c)
                } else {
                    rest
                },
                None => Some(c),
            }
        } else {
            rest
        }
    }
}

/// The catalog entry that describes `model`: the entry it names, or for OpenAI, when
/// none, the entry it is a dated snapshot of.
pub open spec fn model_lookup(p: ProviderPreset, model: Seq<char>) -> Option<ModelPreset> {
    let id = lookup_id(p, model);
    let exact = first_exact(preset_catalog(p), id);
    if exact is Some || p != ProviderPreset::Openai {
        exact
    } else {
        longest_snapshot(preset_catalog(p), id)
    }
}

proof fn lemma_prefix_of_lower(t: Seq<char>, k: int)
    requires
        0 <= k <= t.len(),
    ensures
        lower(lower(t).subrange(0, k)) == lower(t).subrange(0, k),
{
    assert(lower(t).subrange(0, k) =~= lower(t.subrange(0, k)));
    lemma_lower_idempotent(t.subrange(0, k));
}

impl ProviderPreset {
    /// The catalog entry that describes `model`, if any.
    pub fn catalog_model(self, model: &str) -> (r: Option<ModelPreset>)
        ensures
            r == model_lookup(self, model@),
    {
        let normalized = lowercase_chars(&trimmed_chars(model));
        let suffix = str_chars("[1m]");
        let mut model_id: Vec<char> = Vec::new();
        let strip = self == ProviderPreset::Glm && normalized.len() >= 4 && matches_at(
            &normalized,
            normalized.len() - 4,
            &suffix,
        );
        let keep = if strip {
            normalized.len() - 4
        } else {
            normalized.len()
        };
        let mut i: usize = 0;
        while i < keep
            invariant
                keep <= normalized@.len(),
                i <= keep,
                model_id@ == normalized@.subrange(0, i as int),
            decreases keep - i,
        {
            model_id.push(normalized[i]);
            i = i + 1;
            assert(model_id@ =~= normalized@.subrange(0, i as int));
        }
        proof {
            if !strip {
                assert(normalized@.subrange(0, keep as int) =~= normalized@);
            }
            reveal_strlit("[1m]");
            assert(model_id@ == lookup_id(self, model@));
            lemma_prefix_of_lower(trim(model@), keep as int);
        }
        let catalog = self.model_catalog();
        let ghost cat = catalog@;
        assert(cat.subrange(0, cat.len() as int) =~= cat);
        let mut k: usize = 0;
        while k < catalog.len()
            invariant
                cat == catalog@,
                k <= cat.len(),
                first_exact(cat, model_id@) == first_exact(cat.subrange(k as int, cat.len() as int), model_id@),
                lower(model_id@) == model_id@,
                model_id@ == lookup_id(self, model@),
                cat == preset_catalog(self),
            decreases cat.len() - k,
        {
            let c = catalog[k];
            let cid = lowercase_chars(&str_chars(c.id));
            let ghost tail = cat.subrange(k as int, cat.len() as int);
            assert(tail[0] == c);
            assert(tail.drop_first() =~= cat.subrange(k + 1, cat.len() as int));
            if chars_equal(&cid, &model_id) {
                return Some(c);
            }
            k = k + 1;
        }
        if self != ProviderPreset::Openai {
            return None;
        }
        let mut best: Option<ModelPreset> = None;
        let mut j: usize = 0;
        while j < catalog.len()
            invariant
                cat == catalog@,
                j <= cat.len(),
                best == longest_snapshot(cat.subrange(0, j as int), model_id@),
                model_id@ == lookup_id(self, model@),
                cat == preset_catalog(self),
                first_exact(cat, model_id@) is None,
                self == ProviderPreset::Openai,
            decreases cat.len() - j,
        {
            let c = catalog[j];
            let cid = str_chars(c.id);
            let ghost pre = cat.subrange(0, j + 1);
            assert(pre.drop_last() =~= cat.subrange(0, j as int));
            assert(pre.last() == c);
            let snap = cid.len() < model_id.len() && matches_at(&model_id, 0, &cid)
                && model_id[cid.len()] == '-';
            if snap {
                match best {
                    Some(b) => {
                        if c.id.len() >= b.id.len() {
                            best = Some(c);
                        }
                    },
                    None => {
                        best = Some(c);
                    },
                }
            }
            j = j + 1;
        }
        assert(cat.subrange(0, cat.len() as int) =~= cat);
        best
    }
}

} // verus!
