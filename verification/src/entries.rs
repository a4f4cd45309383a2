//! Sequences of entries under batch digests, and what becomes of them when
//! entries are taken out or added.

use crate::types::HashValue;
use vstd::prelude::*;

verus! {

/// Whether no digest occurs twice among the keys of `entries`.
pub open spec fn keys_distinct<V>(entries: Seq<(HashValue, V)>) -> bool {
    forall|i: int, j: int|
        0 <= i < entries.len() && 0 <= j < entries.len() && i != j ==> (#[trigger] entries[i]).0
            != (#[trigger] entries[j]).0
}

/// Whether some entry of `entries` is stored under `key`.
pub open spec fn has_key<V>(entries: Seq<(HashValue, V)>, key: HashValue) -> bool {
    exists|i: int| 0 <= i < entries.len() && (#[trigger] entries[i]).0 == key
}

/// The position of an entry stored under `key`.
pub open spec fn position_of<V>(entries: Seq<(HashValue, V)>, key: HashValue) -> int {
    choose|i: int| 0 <= i < entries.len() && (#[trigger] entries[i]).0 == key
}

/// The mapping that a sequence of entries stands for.
pub open spec fn entries_to_map<V>(entries: Seq<(HashValue, V)>) -> Map<HashValue, V> {
    Map::new(
        |key: HashValue| has_key(entries, key),
        |key: HashValue| entries[position_of(entries, key)].1,
    )
}

/// The test for an entry to be stored under another key than `key`.
pub open spec fn key_differs<V>(key: HashValue) -> spec_fn((HashValue, V)) -> bool {
    |e: (HashValue, V)| e.0 != key
}

/// The test for an entry to be stored under none of `keys`.
pub open spec fn key_not_among<V>(keys: Seq<HashValue>) -> spec_fn((HashValue, V)) -> bool {
    |e: (HashValue, V)| !keys.contains(e.0)
}

/// The entries that are left when everything stored under `key` is taken out.
pub open spec fn without_key<V>(entries: Seq<(HashValue, V)>, key: HashValue) -> Seq<
    (HashValue, V),
> {
    entries.filter(key_differs(key))
}

/// With distinct keys, taking out `key` removes exactly the entry stored under it.
pub proof fn lemma_without_key_present<V>(entries: Seq<(HashValue, V)>, key: HashValue, i: int)
    requires
        keys_distinct(entries),
        0 <= i < entries.len(),
        entries[i].0 == key,
    ensures
        without_key(entries, key) == entries.remove(i),
    decreases entries.len(),
{
    reveal(Seq::filter);
    if i == entries.len() - 1 {
        lemma_without_key_absent(entries.drop_last(), key);
    } else {
        lemma_without_key_present(entries.drop_last(), key, i);
    }
}

/// Taking out a key that is not stored changes nothing.
pub proof fn lemma_without_key_absent<V>(entries: Seq<(HashValue, V)>, key: HashValue)
    requires
        !has_key(entries, key),
    ensures
        without_key(entries, key) == entries,
    decreases entries.len(),
{
    reveal(Seq::filter);
    if entries.len() > 0 {
        lemma_without_key_absent(entries.drop_last(), key);
    }
}

/// After taking out `key`, the keys are still distinct, `key` is gone, and
/// every other key is stored with the value it had.
pub proof fn lemma_without_key_map<V>(entries: Seq<(HashValue, V)>, key: HashValue)
    requires
        keys_distinct(entries),
    ensures
        keys_distinct(without_key(entries, key)),
        !has_key(without_key(entries, key), key),
        entries_to_map(without_key(entries, key)) == entries_to_map(entries).remove(key),
{
    let rest = without_key(entries, key);
    if has_key(entries, key) {
        let i = position_of(entries, key);
        lemma_without_key_present(entries, key, i);
        assert forall|k: HashValue| has_key(rest, k) == (has_key(entries, k) && k != key) by {
            if has_key(rest, k) {
                assert(rest[position_of(rest, k)].0 == k);
            }
            if has_key(entries, k) && k != key {
                let b = position_of(entries, k);
                assert(rest[if b < i { b } else { b - 1 }].0 == k);
            }
        }
        assert forall|k: HashValue| has_key(rest, k) implies rest[position_of(rest, k)].1
            == entries[position_of(entries, k)].1 by {
            assert(rest[position_of(rest, k)].0 == k);
        }
    } else {
        lemma_without_key_absent(entries, key);
    }
}

/// Appending an entry under a key that is not stored yet extends the mapping.
pub proof fn lemma_push_map<V>(entries: Seq<(HashValue, V)>, key: HashValue, value: V)
    requires
        keys_distinct(entries),
        !has_key(entries, key),
    ensures
        keys_distinct(entries.push((key, value))),
        entries_to_map(entries.push((key, value))) == entries_to_map(entries).insert(key, value),
{
    let more = entries.push((key, value));
    assert(more[entries.len() as int].0 == key);
    assert forall|k: HashValue| has_key(more, k) == (has_key(entries, k) || k == key) by {
        if has_key(entries, k) {
            assert(more[position_of(entries, k)].0 == k);
        }
    }
}

/// The entries with each value replaced by what it stands for.
pub open spec fn entry_views<V: View>(entries: Seq<(HashValue, V)>) -> Seq<(HashValue, V::V)> {
    Seq::new(entries.len(), |i: int| (entries[i].0, entries[i].1@))
}

/// Taking out a key and passing to the views can be done in either order.
pub proof fn lemma_entry_views_without_key<V: View>(entries: Seq<(HashValue, V)>, key: HashValue)
    ensures
        entry_views(without_key(entries, key)) == without_key(entry_views(entries), key),
    decreases entries.len(),
{
    reveal(Seq::filter);
    if entries.len() > 0 {
        let front = entries.drop_last();
        lemma_entry_views_without_key(front, key);
        assert(entry_views(entries).drop_last() =~= entry_views(front));
    }
}

/// Taking out some keys and passing to the views can be done in either order.
pub proof fn lemma_entry_views_without_keys<V: View>(
    entries: Seq<(HashValue, V)>,
    keys: Seq<HashValue>,
)
    ensures
        entry_views(without_keys(entries, keys)) == without_keys(entry_views(entries), keys),
    decreases entries.len(),
{
    reveal(Seq::filter);
    if entries.len() > 0 {
        let front = entries.drop_last();
        lemma_entry_views_without_keys(front, keys);
        assert(entry_views(entries).drop_last() =~= entry_views(front));
    }
}

/// Every entry that is left after taking out a key was there before.
pub proof fn lemma_without_key_subset<V>(entries: Seq<(HashValue, V)>, key: HashValue)
    ensures
        forall|i: int|
            0 <= i < without_key(entries, key).len() ==> entries.contains(
                #[trigger] without_key(entries, key)[i],
            ),
{
    let rest = without_key(entries, key);
    assert forall|i: int| 0 <= i < rest.len() implies entries.contains(#[trigger] rest[i]) by {
        entries.lemma_filter_contains_rev(key_differs::<V>(key), rest[i]);
    }
}

/// The views of entries with distinct keys have distinct keys, and store the
/// same keys at the same positions.
pub proof fn lemma_entry_views_keys<V: View>(entries: Seq<(HashValue, V)>)
    ensures
        keys_distinct(entries) ==> keys_distinct(entry_views(entries)),
        forall|key: HashValue| has_key(entry_views(entries), key) == has_key(entries, key),
        keys_distinct(entries) ==> forall|key: HashValue|
            has_key(entries, key) ==> position_of(entry_views(entries), key) == position_of(
                entries,
                key,
            ),
{
    let views = entry_views(entries);
    assert forall|key: HashValue| has_key(views, key) == has_key(entries, key) by {
        if has_key(entries, key) {
            assert(views[position_of(entries, key)].0 == key);
        }
    }
}

/// The entries that are left when everything stored under one of `keys` is
/// taken out.
pub open spec fn without_keys<V>(entries: Seq<(HashValue, V)>, keys: Seq<HashValue>) -> Seq<
    (HashValue, V),
> {
    entries.filter(key_not_among(keys))
}

/// Taking out no key changes nothing.
pub proof fn lemma_without_keys_none<V>(entries: Seq<(HashValue, V)>)
    ensures
        without_keys(entries, Seq::empty()) == entries,
    decreases entries.len(),
{
    reveal(Seq::filter);
    if entries.len() > 0 {
        lemma_without_keys_none(entries.drop_last());
    }
}

/// Taking out some keys and then one more is taking them out together.
pub proof fn lemma_without_keys_step<V>(
    entries: Seq<(HashValue, V)>,
    keys: Seq<HashValue>,
    key: HashValue,
)
    ensures
        without_key(without_keys(entries, keys), key) == without_keys(entries, keys.push(key)),
    decreases entries.len(),
{
    reveal(Seq::filter);
    if entries.len() > 0 {
        let front = entries.drop_last();
        let last = entries.last();
        lemma_without_keys_step(front, keys, key);
        assert(keys.push(key).contains(last.0) == (keys.contains(last.0) || last.0 == key)) by {
            if keys.contains(last.0) {
                let i = choose|i: int| 0 <= i < keys.len() && keys[i] == last.0;
                assert(keys.push(key)[i] == last.0);
            }
            if last.0 == key {
                assert(keys.push(key)[keys.len() as int] == key);
            }
        }
        if !keys.contains(last.0) {
            let kept = without_keys(front, keys);
            assert(kept.push(last).drop_last() =~= kept);
        }
    }
}

/// No key that was taken out is stored afterwards, every other entry is
/// still there in its place among the others, and nothing is added.
pub proof fn lemma_without_keys_contents<V>(entries: Seq<(HashValue, V)>, keys: Seq<HashValue>)
    ensures
        forall|key: HashValue| keys.contains(key) ==> !has_key(without_keys(entries, keys), key),
        forall|i: int|
            0 <= i < entries.len() && !keys.contains((#[trigger] entries[i]).0) ==> without_keys(
                entries,
                keys,
            ).contains(entries[i]),
        forall|i: int|
            0 <= i < without_keys(entries, keys).len() ==> entries.contains(
                #[trigger] without_keys(entries, keys)[i],
            ),
{
    let rest = without_keys(entries, keys);
    assert forall|i: int| 0 <= i < rest.len() implies entries.contains(#[trigger] rest[i]) by {
        entries.lemma_filter_contains_rev(key_not_among::<V>(keys), rest[i]);
    }
}

/// Taking out keys leaves the keys distinct.
pub proof fn lemma_without_keys_distinct<V>(entries: Seq<(HashValue, V)>, keys: Seq<HashValue>)
    requires
        keys_distinct(entries),
    ensures
        keys_distinct(without_keys(entries, keys)),
    decreases keys.len(),
{
    if keys.len() == 0 {
        assert(keys =~= Seq::<HashValue>::empty());
        lemma_without_keys_none(entries);
    } else {
        let front = keys.drop_last();
        lemma_without_keys_distinct(entries, front);
        lemma_without_keys_step(entries, front, keys.last());
        assert(front.push(keys.last()) =~= keys);
        lemma_without_key_map(without_keys(entries, front), keys.last());
    }
}

/// Taking out the same keys a second time changes nothing.
pub proof fn lemma_without_keys_twice<V>(entries: Seq<(HashValue, V)>, keys: Seq<HashValue>)
    ensures
        without_keys(without_keys(entries, keys), keys) == without_keys(entries, keys),
    decreases entries.len(),
{
    reveal(Seq::filter);
    if entries.len() > 0 {
        let front = entries.drop_last();
        let last = entries.last();
        lemma_without_keys_twice(front, keys);
        if !keys.contains(last.0) {
            let kept = without_keys(front, keys);
            assert(kept.push(last).drop_last() =~= kept);
        }
    }
}

} // verus!
