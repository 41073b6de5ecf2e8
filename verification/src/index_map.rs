//! The ordered maps of models and providers, held in `indexmap::IndexMap`.
//!
//! Verus sees an `IndexMap` only through the sequence of its entries, in order, with
//! keys and values taken by their views. The items below that make the calls are
//! trusted; everything built on them is verified.
use vstd::prelude::*;
use indexmap::IndexMap;
use crate::config::{ConfigModelOverride, ModelOverrideView, ModelProviderConfig, ProviderConfigView};

verus! {

#[verifier::external_type_specification]
#[verifier::external_body]
#[verifier::reject_recursive_types(K)]
#[verifier::reject_recursive_types(V)]
#[verifier::reject_recursive_types(S)]
pub struct ExIndexMap<K, V, S>(IndexMap<K, V, S>);

/// Whether some entry of `s` has key `k`.
pub open spec fn has_key<V>(s: Seq<(Seq<char>, V)>, k: Seq<char>) -> bool {
    exists|i: int| 0 <= i < s.len() && #[trigger] s[i].0 == k
}

/// The entries after the value under `k` becomes `f` of itself; when `k` is absent, a
/// new last entry holds `f` of `dflt`.
pub open spec fn upsert<V>(
    s: Seq<(Seq<char>, V)>,
    k: Seq<char>,
    dflt: V,
    f: spec_fn(V) -> V,
) -> Seq<(Seq<char>, V)> {
    if has_key(s, k) {
        s.map_values(|e: (Seq<char>, V)| if e.0 == k { (e.0, f(e.1)) } else { e })
    } else {
        s.push((k, f(dflt)))
    }
}

/// The entries of a map of header names to values, in order.
pub uninterp spec fn header_entries(m: IndexMap<String, String>) -> Seq<(Seq<char>, Seq<char>)>;

/// The entries of a map of provider names to provider settings, in order.
pub uninterp spec fn provider_entries(m: IndexMap<String, ModelProviderConfig>) -> Seq<(Seq<char>, ProviderConfigView)>;

/// The entries of a map of model keys to model settings, in order.
pub uninterp spec fn model_entries(m: IndexMap<String, ConfigModelOverride>) -> Seq<(Seq<char>, ModelOverrideView)>;

/// `IndexMap::new`: an empty map of headers.
#[verifier::external_body]
pub(crate) fn new_header_map() -> (m: IndexMap<String, String>)
    ensures
        header_entries(m) == Seq::<(Seq<char>, Seq<char>)>::empty(),
{
    IndexMap::new()
}

/// `IndexMap::get_index_of` on the header map: the position of `key`. Keys of an
/// `IndexMap` are unique, so a found position is the only one holding `key`.
#[verifier::external_body]
pub(crate) fn header_index_of(m: &IndexMap<String, String>, key: &str) -> (r: Option<usize>)
    ensures
        match r {
            Some(i) => i < header_entries(*m).len() && header_entries(*m)[i as int].0 == key@
                && forall|j: int|
                0 <= j < header_entries(*m).len() && j != i ==> #[trigger] header_entries(*m)[j].0
                    != key@,
            None => !has_key(header_entries(*m), key@),
        },
{
    m.get_index_of(key)
}

/// `IndexMap::insert` on the header map: an existing key keeps its place and takes the
/// new value; a new key goes last.
#[verifier::external_body]
pub(crate) fn header_insert(m: &mut IndexMap<String, String>, key: String, value: String)
    ensures
        header_entries(*final(m)) == upsert(header_entries(*old(m)), key@, value@, |x: Seq<char>| value@),
{
    m.insert(key, value);
}

/// `IndexMap::get_index_of` on the provider map: the position of `key`. Keys of an
/// `IndexMap` are unique, so a found position is the only one holding `key`.
#[verifier::external_body]
pub(crate) fn provider_index_of(m: &IndexMap<String, ModelProviderConfig>, key: &str) -> (r: Option<usize>)
    ensures
        match r {
            Some(i) => i < provider_entries(*m).len() && provider_entries(*m)[i as int].0 == key@
                && forall|j: int|
                0 <= j < provider_entries(*m).len() && j != i ==> #[trigger] provider_entries(*m)[j].0
                    != key@,
            None => !has_key(provider_entries(*m), key@),
        },
{
    m.get_index_of(key)
}

/// `IndexMap::get_index` on the provider map: the settings at position `i`.
#[verifier::external_body]
pub(crate) fn provider_at(m: &IndexMap<String, ModelProviderConfig>, i: usize) -> (r: &ModelProviderConfig)
    requires
        i < provider_entries(*m).len(),
    ensures
        r@ == provider_entries(*m)[i as int].1,
{
    m.get_index(i).unwrap().1
}

/// `IndexMap::get_index_mut` on the provider map, with `std::mem::replace`: puts `value`
/// at position `i` and hands back what was there.
#[verifier::external_body]
pub(crate) fn provider_replace_at(
    m: &mut IndexMap<String, ModelProviderConfig>,
    i: usize,
    value: ModelProviderConfig,
) -> (r: ModelProviderConfig)
    requires
        i < provider_entries(*old(m)).len(),
    ensures
        r@ == provider_entries(*old(m))[i as int].1,
        provider_entries(*final(m)) == provider_entries(*old(m)).update(
            i as int,
            (provider_entries(*old(m))[i as int].0, value@),
        ),
{
    std::mem::replace(m.get_index_mut(i).unwrap().1, value)
}

/// `IndexMap::insert` on the provider map: an existing key keeps its place and takes the
/// new value; a new key goes last.
#[verifier::external_body]
pub(crate) fn provider_insert(m: &mut IndexMap<String, ModelProviderConfig>, key: String, value: ModelProviderConfig)
    ensures
        provider_entries(*final(m)) == upsert(
            provider_entries(*old(m)),
            key@,
            value@,
            |x: ProviderConfigView| value@,
        ),
{
    m.insert(key, value);
}

/// `IndexMap::len` on the model map.
#[verifier::external_body]
pub(crate) fn model_len(m: &IndexMap<String, ConfigModelOverride>) -> (n: usize)
    ensures
        n == model_entries(*m).len(),
{
    m.len()
}

/// `IndexMap::get_index_of` on the model map: the position of `key`. Keys of an
/// `IndexMap` are unique, so a found position is the only one holding `key`.
#[verifier::external_body]
pub(crate) fn model_index_of(m: &IndexMap<String, ConfigModelOverride>, key: &str) -> (r: Option<usize>)
    ensures
        match r {
            Some(i) => i < model_entries(*m).len() && model_entries(*m)[i as int].0 == key@
                && forall|j: int|
                0 <= j < model_entries(*m).len() && j != i ==> #[trigger] model_entries(*m)[j].0
                    != key@,
            None => !has_key(model_entries(*m), key@),
        },
{
    m.get_index_of(key)
}

/// `IndexMap::get_index_mut` on the model map, with `std::mem::replace`: puts `value`
/// at position `i` and hands back what was there.
#[verifier::external_body]
pub(crate) fn model_replace_at(
    m: &mut IndexMap<String, ConfigModelOverride>,
    i: usize,
    value: ConfigModelOverride,
) -> (r: ConfigModelOverride)
    requires
        i < model_entries(*old(m)).len(),
    ensures
        r@ == model_entries(*old(m))[i as int].1,
        model_entries(*final(m)) == model_entries(*old(m)).update(
            i as int,
            (model_entries(*old(m))[i as int].0, value@),
        ),
{
    std::mem::replace(m.get_index_mut(i).unwrap().1, value)
}

/// `IndexMap::insert` on the model map: an existing key keeps its place and takes the
/// new value; a new key goes last.
#[verifier::external_body]
pub(crate) fn model_insert(m: &mut IndexMap<String, ConfigModelOverride>, key: String, value: ConfigModelOverride)
    ensures
        model_entries(*final(m)) == upsert(
            model_entries(*old(m)),
            key@,
            value@,
            |x: ModelOverrideView| value@,
        ),
{
    m.insert(key, value);
}

} // verus!
