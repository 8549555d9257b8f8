//! Sorting a list into groups by a key.

use std::collections::HashMap;
use std::hash::Hash;
use vstd::prelude::*;
use vstd::std_specs::hash::obeys_key_model;

verus! {

/// The items of `items` whose key, at the same position in `keys`, is `key`,
/// in their order.
pub open spec fn group_of<T, K>(items: Seq<T>, keys: Seq<K>, key: K) -> Seq<T>
    decreases items.len(),
{
    if items.len() == 0 || keys.len() != items.len() {
        Seq::empty()
    } else {
        let earlier = group_of(items.drop_last(), keys.drop_last(), key);
        if keys.last() == key {
            earlier.push(items.last())
        } else {
            earlier
        }
    }
}

/// The items a group of references points to.
pub open spec fn pointees<T>(group: Seq<&T>) -> Seq<T> {
    group.map_values(|r: &T| *r)
}

/// `groups` sorts `items` by `keys`: there is a group for every key that
/// occurs and for no other, and the group of a key holds the items with that
/// key, in their order.
pub open spec fn is_grouping<T, K>(items: Seq<T>, keys: Seq<K>, groups: Map<K, Vec<&T>>) -> bool {
    &&& keys.len() == items.len()
    &&& forall|key: K| #[trigger] groups.contains_key(key) <==> keys.contains(key)
    &&& forall|key: K| #[trigger]
        groups.contains_key(key) ==> pointees(groups[key]@) == group_of(items, keys, key)
}

/// A key that does not occur has an empty group.
pub proof fn lemma_group_of_absent_key<T, K>(items: Seq<T>, keys: Seq<K>, key: K)
    requires
        !keys.contains(key),
    ensures
        group_of(items, keys, key) == Seq::<T>::empty(),
    decreases items.len(),
{
    if items.len() != 0 && keys.len() == items.len() {
        assert(keys.last() == keys[keys.len() - 1]);
        assert forall|i: int| 0 <= i < keys.drop_last().len() implies keys.drop_last()[i]
            != key by {
            assert(keys.drop_last()[i] == keys[i]);
        }
        lemma_group_of_absent_key(items.drop_last(), keys.drop_last(), key);
    }
}

/// Sorts `items` into groups by the key that `key_fn` gives each item. Each
/// group holds references to its items in the order of `items`; a key has a
/// group exactly when at least one item has that key.
///
/// `key_fn` is called once for each item, in order.
pub fn group_by<'a, T, K, F>(items: &'a [T], key_fn: F) -> (groups: HashMap<K, Vec<&'a T>>) where
    K: Hash + Eq,
    F: Fn(&T) -> K,

    requires
        obeys_key_model::<K>(),
        forall|i: int| 0 <= i < items@.len() ==> call_requires(key_fn, (&#[trigger] items@[i],)),
    ensures
        exists|keys: Seq<K>|
            {
                &&& #[trigger] is_grouping(items@, keys, groups@)
                &&& forall|i: int|
                    0 <= i < items@.len() ==> call_ensures(
                        key_fn,
                        (&items@[i],),
                        #[trigger] keys[i],
                    )
            },
{
    broadcast use vstd::std_specs::hash::group_hash_axioms;

    let mut groups: HashMap<K, Vec<&'a T>> = HashMap::new();
    let ghost mut keys: Seq<K> = Seq::empty();
    let mut k: usize = 0;
    proof {
        assert(items@.take(0) =~= Seq::<T>::empty());
    }
    while k < items.len()
        invariant
            obeys_key_model::<K>(),
            k <= items@.len(),
            forall|i: int|
                0 <= i < items@.len() ==> call_requires(key_fn, (&#[trigger] items@[i],)),
            is_grouping(items@.take(k as int), keys, groups@),
            forall|i: int| 0 <= i < k ==> call_ensures(key_fn, (&items@[i],), #[trigger] keys[i]),
        decreases items@.len() - k,
    {
        let item: &'a T = &items[k];
        let key = key_fn(item);
        let ghost before = groups@;
        let ghost old_keys = keys;
        let ghost shorter = items@.take(k as int);
        let ghost longer = items@.take(k + 1);
        let mut group: Vec<&'a T> = match groups.remove(&key) {
            Some(existing) => existing,
            None => Vec::new(),
        };
        let ghost old_group = group@;
        group.push(item);
        proof {
            keys = old_keys.push(key);
            assert(longer.drop_last() =~= shorter);
            assert(keys.drop_last() =~= old_keys);
            assert(longer.last() == *item);
            if !before.contains_key(key) {
                lemma_group_of_absent_key(shorter, old_keys, key);
            }
            assert(pointees(old_group) =~= group_of(shorter, old_keys, key));
            assert(pointees(group@) =~= pointees(old_group).push(*item));
        }
        groups.insert(key, group);
        proof {
            assert forall|x: K| #[trigger] groups@.contains_key(x) <==> keys.contains(x) by {
                if x == key {
                    assert(keys[k as int] == x);
                } else {
                    if before.contains_key(x) {
                        let i = choose|i: int| 0 <= i < old_keys.len() && old_keys[i] == x;
                        assert(keys[i] == x);
                    }
                    if keys.contains(x) {
                        let i = choose|i: int| 0 <= i < keys.len() && keys[i] == x;
                        assert(old_keys[i] == x);
                        assert(old_keys.contains(x));
                    }
                }
            }
            assert forall|x: K| #[trigger] groups@.contains_key(x) implies pointees(groups@[x]@)
                == group_of(longer, keys, x) by {
                if x != key {
                    assert(before.contains_key(x));
                    assert(groups@[x] == before[x]);
                }
            }
        }
        k = k + 1;
    }
    proof {
        assert(items@.take(items@.len() as int) =~= items@);
    }
    groups
}

} // verus!
