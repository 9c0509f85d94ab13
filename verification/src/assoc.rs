//! Association lists: sequences of key/value entries read through the first
//! entry of each key, and how updates, appends and removals change a lookup.

use vstd::prelude::*;

verus! {

/// The value the first entry of `key` in `entries` holds, if any.
pub open spec fn lookup<K, V>(entries: Seq<(K, V)>, key: K) -> Option<V>
    decreases entries.len(),
{
    if entries.len() == 0 {
        None
    } else if entries[0].0 == key {
        Some(entries[0].1)
    } else {
        lookup(entries.drop_first(), key)
    }
}

/// The table an association list stands for: each key with the value of its
/// first entry.
pub open spec fn assoc_map<K, V>(entries: Seq<(K, V)>) -> Map<K, V> {
    Map::new(|k: K| lookup(entries, k) is Some, |k: K| lookup(entries, k).unwrap())
}

/// `i` is the first position of an entry with key `key`.
pub open spec fn first_at<K, V>(entries: Seq<(K, V)>, key: K, i: int) -> bool {
    &&& 0 <= i < entries.len()
    &&& entries[i].0 == key
    &&& forall|j: int| 0 <= j < i ==> #[trigger] entries[j].0 != key
}

/// The lookup finds the first entry of the key.
pub proof fn lemma_lookup_first<K, V>(entries: Seq<(K, V)>, key: K, i: int)
    requires
        first_at(entries, key, i),
    ensures
        lookup(entries, key) == Some(entries[i].1),
    decreases i,
{
    if i > 0 {
        assert(entries[0].0 != key);
        let rest = entries.drop_first();
        assert forall|j: int| 0 <= j < i - 1 implies #[trigger] rest[j].0 != key by {
            assert(rest[j] == entries[j + 1]);
        }
        lemma_lookup_first(rest, key, i - 1);
    }
}

/// The lookup finds nothing where no entry has the key.
pub proof fn lemma_lookup_none<K, V>(entries: Seq<(K, V)>, key: K)
    requires
        forall|j: int| 0 <= j < entries.len() ==> #[trigger] entries[j].0 != key,
    ensures
        lookup(entries, key) is None,
    decreases entries.len(),
{
    if entries.len() > 0 {
        let rest = entries.drop_first();
        assert forall|j: int| 0 <= j < rest.len() implies #[trigger] rest[j].0 != key by {
            assert(rest[j] == entries[j + 1]);
        }
        lemma_lookup_none(rest, key);
    }
}

/// Replacing the first entry of a key changes the lookup of that key only.
pub proof fn lemma_lookup_update<K, V>(entries: Seq<(K, V)>, key: K, i: int, v: V, k: K)
    requires
        first_at(entries, key, i),
    ensures
        lookup(entries.update(i, (key, v)), k) == if k == key {
            Some(v)
        } else {
            lookup(entries, k)
        },
    decreases i,
{
    let upd = entries.update(i, (key, v));
    if i == 0 {
        if k != key {
            assert(upd.drop_first() =~= entries.drop_first());
        }
    } else {
        let rest = entries.drop_first();
        assert forall|j: int| 0 <= j < i - 1 implies #[trigger] rest[j].0 != key by {
            assert(rest[j] == entries[j + 1]);
        }
        assert(upd.drop_first() =~= rest.update(i - 1, (key, v)));
        lemma_lookup_update(rest, key, i - 1, v, k);
    }
}

/// Appending an entry of a key not yet present adds that key only.
pub proof fn lemma_lookup_push<K, V>(entries: Seq<(K, V)>, e: (K, V), k: K)
    requires
        lookup(entries, e.0) is None,
    ensures
        lookup(entries.push(e), k) == if k == e.0 {
            Some(e.1)
        } else {
            lookup(entries, k)
        },
    decreases entries.len(),
{
    let p = entries.push(e);
    if entries.len() == 0 {
        assert(p.drop_first() =~= Seq::<(K, V)>::empty());
        assert(p[0] == e);
        assert(lookup(p.drop_first(), k) is None);
    } else {
        assert(p.drop_first() =~= entries.drop_first().push(e));
        assert(p[0] == entries[0]);
        assert(entries[0].0 != e.0);
        lemma_lookup_push(entries.drop_first(), e, k);
    }
}

/// Removing the first entry of a key leaves the lookup of every other key
/// as it was.
pub proof fn lemma_lookup_remove_first<K, V>(entries: Seq<(K, V)>, key: K, i: int, k: K)
    requires
        first_at(entries, key, i),
        k != key,
    ensures
        lookup(entries.remove(i), k) == lookup(entries, k),
    decreases i,
{
    let rem = entries.remove(i);
    if i == 0 {
        assert(rem =~= entries.drop_first());
    } else {
        let rest = entries.drop_first();
        assert forall|j: int| 0 <= j < i - 1 implies #[trigger] rest[j].0 != key by {
            assert(rest[j] == entries[j + 1]);
        }
        assert(rem[0] == entries[0]);
        assert(rem.drop_first() =~= rest.remove(i - 1));
        lemma_lookup_remove_first(rest, key, i - 1, k);
    }
}

} // verus!
