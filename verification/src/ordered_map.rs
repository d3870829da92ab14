//! The insertion-ordered map that holds an environment overlay.
//!
//! The map itself is `indexmap::IndexMap`. What it holds is modelled as the
//! sequence of its entries in iteration order, and the few methods that this
//! crate calls are given contracts over that sequence.

use indexmap::IndexMap;
use vstd::prelude::*;

verus! {

/// `indexmap::IndexMap`, of which only what the names for its contents tell
/// is known.
#[verifier::external_type_specification]
#[verifier::external_body]
#[verifier::reject_recursive_types(K)]
#[verifier::reject_recursive_types(V)]
#[verifier::reject_recursive_types(S)]
pub struct ExIndexMap<K, V, S>(IndexMap<K, V, S>);

/// The entries of `map`, each as the text of its key and of its value, in the
/// order in which the map iterates over them.
pub uninterp spec fn entries_of(map: IndexMap<String, String>) -> Seq<(Seq<char>, Seq<char>)>;

/// Whether some entry has the key `key`.
pub open spec fn binds(entries: Seq<(Seq<char>, Seq<char>)>, key: Seq<char>) -> bool {
    exists|index: int| 0 <= index < entries.len() && (#[trigger] entries[index]).0 == key
}

/// The place of an entry with the key `key`, where there is one.
pub open spec fn position_of(entries: Seq<(Seq<char>, Seq<char>)>, key: Seq<char>) -> int {
    choose|index: int| 0 <= index < entries.len() && (#[trigger] entries[index]).0 == key
}

/// No two entries have the same key.
pub open spec fn keys_distinct(entries: Seq<(Seq<char>, Seq<char>)>) -> bool {
    forall|first: int, second: int|
        0 <= first < second < entries.len() ==> (#[trigger] entries[first]).0 != (
        #[trigger] entries[second]).0
}

/// The entries after `key` has been bound to `value`: an entry that has
/// the key keeps its place and takes the new value, and a new key goes last.
pub open spec fn with_binding(
    entries: Seq<(Seq<char>, Seq<char>)>,
    key: Seq<char>,
    value: Seq<char>,
) -> Seq<(Seq<char>, Seq<char>)> {
    if binds(entries, key) {
        entries.update(position_of(entries, key), (key, value))
    } else {
        entries.push((key, value))
    }
}

/// The entries that result from binding each pair of `pairs` in turn,
/// starting from nothing.
pub open spec fn bound_in_order(pairs: Seq<(Seq<char>, Seq<char>)>) -> Seq<(Seq<char>, Seq<char>)>
    decreases pairs.len(),
{
    if pairs.len() == 0 {
        Seq::empty()
    } else {
        with_binding(bound_in_order(pairs.drop_last()), pairs.last().0, pairs.last().1)
    }
}

/// The entries as a map from key to value; of two entries with one key the
/// later one counts.
pub open spec fn as_map(entries: Seq<(Seq<char>, Seq<char>)>) -> Map<Seq<char>, Seq<char>>
    decreases entries.len(),
{
    if entries.len() == 0 {
        Map::empty()
    } else {
        as_map(entries.drop_last()).insert(entries.last().0, entries.last().1)
    }
}

/// Binding a key keeps the keys distinct.
pub proof fn lemma_with_binding_keeps_keys_distinct(
    entries: Seq<(Seq<char>, Seq<char>)>,
    key: Seq<char>,
    value: Seq<char>,
)
    requires
        keys_distinct(entries),
    ensures
        keys_distinct(with_binding(entries, key, value)),
{
    let bound = with_binding(entries, key, value);
    assert forall|first: int, second: int| 0 <= first < second < bound.len() implies (
    #[trigger] bound[first]).0 != (#[trigger] bound[second]).0 by {}
}

/// What was bound last is what a key is bound to: after `key` has been
/// bound to `value`, one entry has the key, and it holds the value.
pub proof fn lemma_with_binding_binds(
    entries: Seq<(Seq<char>, Seq<char>)>,
    key: Seq<char>,
    value: Seq<char>,
)
    ensures
        binds(with_binding(entries, key, value), key),
        keys_distinct(entries) ==> with_binding(entries, key, value)[position_of(
            with_binding(entries, key, value),
            key,
        )] == (key, value),
{
    let bound = with_binding(entries, key, value);
    let place = if binds(entries, key) {
        position_of(entries, key)
    } else {
        entries.len() as int
    };
    assert(bound[place] == (key, value));
    if keys_distinct(entries) {
        lemma_with_binding_keeps_keys_distinct(entries, key, value);
    }
}

/// Every sequence of bindings leaves distinct keys.
pub proof fn lemma_bound_in_order_keys_distinct(pairs: Seq<(Seq<char>, Seq<char>)>)
    ensures
        keys_distinct(bound_in_order(pairs)),
    decreases pairs.len(),
{
    if pairs.len() > 0 {
        lemma_bound_in_order_keys_distinct(pairs.drop_last());
        lemma_with_binding_keeps_keys_distinct(
            bound_in_order(pairs.drop_last()),
            pairs.last().0,
            pairs.last().1,
        );
    }
}

/// `IndexMap::new`. Trusted: the new map holds no entry.
#[verifier::external_body]
pub(crate) fn map_new() -> (map: IndexMap<String, String>)
    ensures
        entries_of(map) == Seq::<(Seq<char>, Seq<char>)>::empty(),
{
    IndexMap::new()
}

/// `IndexMap::clone`. Trusted: the copy holds the same entries in the same
/// order.
#[verifier::external_body]
pub(crate) fn map_clone(map: &IndexMap<String, String>) -> (copy: IndexMap<String, String>)
    ensures
        entries_of(copy) == entries_of(*map),
{
    map.clone()
}

/// `IndexMap::len`. Trusted: it is the number of entries.
#[verifier::external_body]
pub(crate) fn map_len(map: &IndexMap<String, String>) -> (len: usize)
    ensures
        len == entries_of(*map).len(),
{
    map.len()
}

/// `IndexMap::get_index`. Trusted: it hands out the entry at `index` of the
/// iteration order, and nothing past the last entry.
#[verifier::external_body]
pub(crate) fn map_get_index(
    map: &IndexMap<String, String>,
    index: usize,
) -> (entry: Option<(&String, &String)>)
    ensures
        index >= entries_of(*map).len() ==> entry is None,
        index < entries_of(*map).len() ==> entry is Some,
        entry matches Some((key, value)) ==> key@ == entries_of(*map)[index as int].0 && value@
            == entries_of(*map)[index as int].1,
{
    map.get_index(index)
}

/// `IndexMap::insert`. Trusted: a key that the map holds keeps its place and
/// its entry takes `value`, the old value being returned; a new key is
/// entered last, and `None` is returned.
#[verifier::external_body]
pub(crate) fn map_insert(
    map: &mut IndexMap<String, String>,
    key: String,
    value: String,
) -> (old_value: Option<String>)
    ensures
        entries_of(*final(map)) == with_binding(entries_of(*old(map)), key@, value@),
        old_value is Some <==> binds(entries_of(*old(map)), key@),
        old_value is Some ==> old_value->0@ == entries_of(*old(map))[position_of(
            entries_of(*old(map)),
            key@,
        )].1,
{
    map.insert(key, value)
}

} // verus!
