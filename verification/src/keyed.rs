//! Keyed entries: sequences of `(key, value)` pairs read as mappings.
//!
//! A mapping is kept as the sequence of its entries, in the order in which its
//! keys first arrived. Writing a key that is already there replaces its value
//! in place, so the last write wins and no key stands twice.

use vstd::prelude::*;

verus! {

/// A key is a text.
pub type Key = Seq<char>;

/// Whether `key` stands somewhere in `entries`.
pub open spec fn has_key<V>(entries: Seq<(Key, V)>, key: Key) -> bool {
    exists|i: int| 0 <= i < entries.len() && (#[trigger] entries[i]).0 == key
}

/// Whether no key stands twice in `entries`.
pub open spec fn distinct_keys<V>(entries: Seq<(Key, V)>) -> bool {
    forall|i: int, j: int|
        0 <= i < j < entries.len() ==> (#[trigger] entries[i]).0 != (#[trigger] entries[j]).0
}

/// Whether `i` is the first place of `key` in `entries`, or their length where
/// `key` stands nowhere.
pub open spec fn is_key_index<V>(entries: Seq<(Key, V)>, key: Key, i: int) -> bool {
    &&& 0 <= i <= entries.len()
    &&& i < entries.len() ==> entries[i].0 == key
    &&& forall|j: int| 0 <= j < i ==> (#[trigger] entries[j]).0 != key
}

/// The first place of `key` in `entries`, or their length where `key` stands
/// nowhere.
pub open spec fn key_index<V>(entries: Seq<(Key, V)>, key: Key) -> int {
    choose|i: int| is_key_index(entries, key, i)
}

/// The value under `key`, if there is one.
pub open spec fn lookup<V>(entries: Seq<(Key, V)>, key: Key) -> Option<V> {
    let i = key_index(entries, key);
    if i < entries.len() {
        Some(entries[i].1)
    } else {
        None
    }
}

/// `entries` after `value` is written under `key`: an entry that holds `key`
/// keeps its place and takes the new value, otherwise a new entry goes last.
pub open spec fn put<V>(entries: Seq<(Key, V)>, key: Key, value: V) -> Seq<(Key, V)> {
    let i = key_index(entries, key);
    if i < entries.len() {
        entries.update(i, (key, value))
    } else {
        entries.push((key, value))
    }
}

/// The mapping that results from writing `entries` one after another, first to
/// last, into an empty mapping.
pub open spec fn assemble<V>(entries: Seq<(Key, V)>) -> Seq<(Key, V)>
    decreases entries.len(),
{
    if entries.len() == 0 {
        Seq::empty()
    } else {
        put(assemble(entries.drop_last()), entries.last().0, entries.last().1)
    }
}

/// Some place is the key index of `key`.
proof fn lemma_key_index_exists<V>(entries: Seq<(Key, V)>, key: Key, bound: int)
    requires
        0 <= bound <= entries.len(),
        forall|j: int| 0 <= j < bound ==> (#[trigger] entries[j]).0 != key,
    ensures
        exists|i: int| is_key_index(entries, key, i),
    decreases entries.len() - bound,
{
    if bound == entries.len() || entries[bound].0 == key {
        assert(is_key_index(entries, key, bound));
    } else {
        lemma_key_index_exists(entries, key, bound + 1);
    }
}

/// `key_index` names the one place that `is_key_index` accepts.
pub proof fn lemma_key_index<V>(entries: Seq<(Key, V)>, key: Key)
    ensures
        is_key_index(entries, key, key_index(entries, key)),
        forall|i: int| is_key_index(entries, key, i) ==> i == key_index(entries, key),
        key_index(entries, key) < entries.len() <==> has_key(entries, key),
{
    lemma_key_index_exists(entries, key, 0);
    let k = key_index(entries, key);
    assert forall|i: int| is_key_index(entries, key, i) implies i == k by {
        if i < k {
            assert(entries[i].0 != key);
        } else if k < i {
            assert(entries[k].0 != key);
        }
    }
    if k < entries.len() {
        assert(entries[k].0 == key);
    }
    if has_key(entries, key) {
        let i = choose|i: int| 0 <= i < entries.len() && (#[trigger] entries[i]).0 == key;
        if k == entries.len() {
            assert(entries[i].0 != key);
        }
    }
}

/// Writing keeps the keys distinct and holds the written value under its key.
pub proof fn lemma_put_same<V>(entries: Seq<(Key, V)>, key: Key, value: V)
    ensures
        distinct_keys(entries) ==> distinct_keys(put(entries, key, value)),
        has_key(put(entries, key, value), key),
        lookup(put(entries, key, value), key) == Some(value),
{
    lemma_key_index(entries, key);
    let i = key_index(entries, key);
    let after = put(entries, key, value);
    assert(after[i] == (key, value));
    assert(is_key_index(after, key, i)) by {
        assert forall|j: int| 0 <= j < i implies (#[trigger] after[j]).0 != key by {
            assert(entries[j].0 != key);
        }
    }
    lemma_key_index(after, key);
    if distinct_keys(entries) {
        assert forall|a: int, b: int| 0 <= a < b < after.len() implies (#[trigger] after[a]).0 != (
        #[trigger] after[b]).0 by {
            if i < entries.len() {
                assert(entries[a].0 != entries[b].0);
                if a == i {
                    assert(entries[a].0 == key);
                } else if b == i {
                    assert(entries[b].0 == key);
                }
            } else if b == i {
                assert(entries[a].0 != key);
            } else {
                assert(entries[a].0 != entries[b].0);
            }
        }
    }
}

/// Writing under one key leaves every other key as it was.
pub proof fn lemma_put_other<V>(entries: Seq<(Key, V)>, key: Key, value: V, other: Key)
    requires
        other != key,
    ensures
        has_key(put(entries, key, value), other) == has_key(entries, other),
        lookup(put(entries, key, value), other) == lookup(entries, other),
{
    lemma_key_index(entries, key);
    lemma_key_index(entries, other);
    let i = key_index(entries, key);
    let o = key_index(entries, other);
    let after = put(entries, key, value);
    assert(o != i || o == entries.len());
    assert forall|j: int| 0 <= j < o implies (#[trigger] after[j]).0 != other by {
        if j != i {
            assert(entries[j].0 != other);
        }
    }
    if o < entries.len() {
        assert(after[o] == entries[o]);
        assert(is_key_index(after, other, o));
    } else if i < entries.len() {
        assert(is_key_index(after, other, o));
    } else {
        assert(after[o].0 == key);
        assert(is_key_index(after, other, o + 1));
    }
    lemma_key_index(after, other);
}

/// A key stands in `entries` where it is the last key or stands before it.
pub proof fn lemma_has_key_last<V>(entries: Seq<(Key, V)>, key: Key)
    requires
        entries.len() > 0,
    ensures
        has_key(entries, key) == (entries.last().0 == key || has_key(entries.drop_last(), key)),
{
    let front = entries.drop_last();
    if has_key(front, key) {
        let i = choose|i: int| 0 <= i < front.len() && (#[trigger] front[i]).0 == key;
        assert(entries[i].0 == key);
    }
    if entries.last().0 == key {
        assert(entries[entries.len() - 1].0 == key);
    }
    if has_key(entries, key) {
        let i = choose|i: int| 0 <= i < entries.len() && (#[trigger] entries[i]).0 == key;
        if i < front.len() {
            assert(front[i].0 == key);
        }
    }
}

/// Whether no entry after place `i` holds the key of entry `i`.
pub open spec fn is_last_write<V>(entries: Seq<(Key, V)>, i: int) -> bool {
    forall|j: int| i < j < entries.len() ==> (#[trigger] entries[j]).0 != entries[i].0
}

/// Assembling leaves no key twice.
pub proof fn lemma_assemble_distinct_keys<V>(entries: Seq<(Key, V)>)
    ensures
        distinct_keys(assemble(entries)),
    decreases entries.len(),
{
    if entries.len() > 0 {
        lemma_assemble_distinct_keys(entries.drop_last());
        lemma_put_same(assemble(entries.drop_last()), entries.last().0, entries.last().1);
    }
}

/// Assembling keeps exactly the keys that were written.
pub proof fn lemma_assemble_has_key<V>(entries: Seq<(Key, V)>, key: Key)
    ensures
        has_key(assemble(entries), key) == has_key(entries, key),
    decreases entries.len(),
{
    if entries.len() > 0 {
        let front = entries.drop_last();
        let last = entries.last();
        lemma_assemble_has_key(front, key);
        lemma_has_key_last(entries, key);
        if key == last.0 {
            lemma_put_same(assemble(front), last.0, last.1);
        } else {
            lemma_put_other(assemble(front), last.0, last.1, key);
        }
    }
}

/// Assembling holds under each key the value that was written last.
pub proof fn lemma_assemble_lookup<V>(entries: Seq<(Key, V)>, i: int)
    requires
        0 <= i < entries.len(),
        is_last_write(entries, i),
    ensures
        lookup(assemble(entries), entries[i].0) == Some(entries[i].1),
    decreases entries.len(),
{
    let front = entries.drop_last();
    let last = entries.last();
    if i == entries.len() - 1 {
        lemma_put_same(assemble(front), last.0, last.1);
    } else {
        assert(entries[entries.len() - 1].0 != entries[i].0);
        assert forall|j: int| i < j < front.len() implies (#[trigger] front[j]).0
            != front[i].0 by {
            assert(entries[j].0 != entries[i].0);
        }
        lemma_assemble_lookup(front, i);
        lemma_put_other(assemble(front), last.0, last.1, entries[i].0);
    }
}

/// Entries whose keys are distinct assemble to themselves.
pub proof fn lemma_assemble_distinct<V>(entries: Seq<(Key, V)>)
    requires
        distinct_keys(entries),
    ensures
        assemble(entries) == entries,
    decreases entries.len(),
{
    if entries.len() > 0 {
        let front = entries.drop_last();
        let last = entries.last();
        assert forall|i: int, j: int| 0 <= i < j < front.len() implies (#[trigger] front[i]).0 != (
        #[trigger] front[j]).0 by {
            assert(entries[i].0 != entries[j].0);
        }
        lemma_assemble_distinct(front);
        assert forall|j: int| 0 <= j < front.len() implies (#[trigger] front[j]).0 != last.0 by {
            assert(entries[j].0 != entries[entries.len() - 1].0);
        }
        assert(is_key_index(front, last.0, front.len() as int));
        lemma_key_index(front, last.0);
        assert(front.push(last) =~= entries);
    } else {
        assert(assemble(entries) =~= entries);
    }
}

} // verus!
