//! Identities of loaded assets and the caches of derived assets that the view
//! modes keep per source asset.
use vstd::prelude::*;

verus! {

/// The identity of a loaded asset: a runtime slot (its index bits) or a
/// stable UUID.
#[derive(Clone, Copy, Debug, PartialEq, Eq, Structural)]
pub enum AssetKey {
    Index(u64),
    Uuid(u128),
}

/// A map from the identity of a source asset to the handle of the asset
/// derived from it, so that each variant is built once.
pub struct HandleCache<V> {
    entries: Vec<(AssetKey, V)>,
}

/// The index of the entry stored under `key`.
pub open spec fn entry_index<V>(entries: Seq<(AssetKey, V)>, key: AssetKey) -> int {
    choose|i: int| 0 <= i < entries.len() && entries[i].0 == key
}

/// The keys and values of a sequence of entries.
pub open spec fn entries_map<V>(entries: Seq<(AssetKey, V)>) -> Map<AssetKey, V> {
    Map::new(
        |k: AssetKey| exists|i: int| 0 <= i < entries.len() && entries[i].0 == k,
        |k: AssetKey| entries[entry_index(entries, k)].1,
    )
}

/// No key is stored twice.
pub open spec fn keys_distinct<V>(entries: Seq<(AssetKey, V)>) -> bool {
    forall|i: int, j: int|
        0 <= i < entries.len() && 0 <= j < entries.len() && i != j ==> entries[i].0 != entries[j].0
}

impl<V> View for HandleCache<V> {
    type V = Map<AssetKey, V>;

    closed spec fn view(&self) -> Map<AssetKey, V> {
        entries_map(self.entries@)
    }
}

proof fn lemma_lookup_at<V>(entries: Seq<(AssetKey, V)>, i: int)
    requires
        keys_distinct(entries),
        0 <= i < entries.len(),
    ensures
        entries_map(entries).contains_key(entries[i].0),
        entries_map(entries)[entries[i].0] == entries[i].1,
{
    let k = entries[i].0;
    assert(exists|j: int| 0 <= j < entries.len() && entries[j].0 == k);
    let j = entry_index(entries, k);
    assert(j == i);
}

impl<V> HandleCache<V> {
    #[verifier::type_invariant]
    closed spec fn well_formed(self) -> bool {
        keys_distinct(self.entries@)
    }

    /// An empty cache.
    pub fn new() -> (cache: Self)
        ensures
            cache@ == Map::<AssetKey, V>::empty(),
    {
        let cache = HandleCache { entries: Vec::new() };
        assert(cache@ =~= Map::<AssetKey, V>::empty());
        cache
    }

    fn find(&self, key: &AssetKey) -> (found: Option<usize>)
        ensures
            match found {
                Some(i) => i < self.entries@.len() && self.entries@[i as int].0 == *key,
                None => forall|j: int|
                    0 <= j < self.entries@.len() ==> self.entries@[j].0 != *key,
            },
    {
        let mut i: usize = 0;
        while i < self.entries.len()
            invariant
                i <= self.entries@.len(),
                forall|j: int| 0 <= j < i ==> self.entries@[j].0 != *key,
            decreases self.entries@.len() - i,
        {
            if self.entries[i].0 == *key {
                return Some(i);
            }
            i = i + 1;
        }
        None
    }

    /// The handle cached for `key`, if any.
    pub fn get(&self, key: &AssetKey) -> (found: Option<&V>)
        ensures
            match found {
                Some(v) => self@.contains_key(*key) && *v == self@[*key],
                None => !self@.contains_key(*key),
            },
    {
        proof {
            use_type_invariant(self);
        }
        match self.find(key) {
            Some(i) => {
                proof {
                    lemma_lookup_at(self.entries@, i as int);
                }
                Some(&self.entries[i].1)
            },
            None => None,
        }
    }

    /// Caches `value` for `key`, replacing what was cached for it.
    pub fn insert(&mut self, key: AssetKey, value: V)
        ensures
            final(self)@ == old(self)@.insert(key, value),
    {
        proof {
            use_type_invariant(&*self);
        }
        let ghost before = self.entries@;
        match self.find(&key) {
            Some(i) => {
                let mut entries = Vec::new();
                std::mem::swap(&mut entries, &mut self.entries);
                entries.set(i, (key, value));
                let ghost after = entries@;
                assert(after == before.update(i as int, (key, value)));
                assert(keys_distinct(after));
                proof {
                    assert forall|k: AssetKey| entries_map(after).contains_key(k)
                        <==> entries_map(before).insert(key, value).contains_key(k) by {
                        if k != key {
                            if exists|j: int| 0 <= j < before.len() && before[j].0 == k {
                                let j = choose|j: int| 0 <= j < before.len() && before[j].0 == k;
                                assert(after[j].0 == k);
                            }
                            if exists|j: int| 0 <= j < after.len() && after[j].0 == k {
                                let j = choose|j: int| 0 <= j < after.len() && after[j].0 == k;
                                assert(before[j].0 == k);
                            }
                        } else {
                            assert(after[i as int].0 == k);
                        }
                    }
                    assert forall|k: AssetKey| #[trigger]
                        entries_map(after).contains_key(k) implies entries_map(after)[k]
                        == entries_map(before).insert(key, value)[k] by {
                        let j = choose|j: int| 0 <= j < after.len() && after[j].0 == k;
                        lemma_lookup_at(after, j);
                        if k != key {
                            assert(before[j].0 == k);
                            lemma_lookup_at(before, j);
                        } else {
                            assert(j == i);
                        }
                    }
                    assert(entries_map(after) =~= entries_map(before).insert(key, value));
                }
                self.entries = entries;
            },
            None => {
                let mut entries = Vec::new();
                std::mem::swap(&mut entries, &mut self.entries);
                entries.push((key, value));
                let ghost after = entries@;
                assert(after == before.push((key, value)));
                assert(keys_distinct(after));
                proof {
                    let n = before.len() as int;
                    assert forall|k: AssetKey| entries_map(after).contains_key(k)
                        <==> entries_map(before).insert(key, value).contains_key(k) by {
                        if exists|j: int| 0 <= j < before.len() && before[j].0 == k {
                            let j = choose|j: int| 0 <= j < before.len() && before[j].0 == k;
                            assert(after[j].0 == k);
                        }
                        if exists|j: int| 0 <= j < after.len() && after[j].0 == k {
                            let j = choose|j: int| 0 <= j < after.len() && after[j].0 == k;
                            if j < n {
                                assert(before[j].0 == k);
                            }
                        }
                        if k == key {
                            assert(after[n].0 == k);
                        }
                    }
                    assert forall|k: AssetKey| #[trigger]
                        entries_map(after).contains_key(k) implies entries_map(after)[k]
                        == entries_map(before).insert(key, value)[k] by {
                        let j = choose|j: int| 0 <= j < after.len() && after[j].0 == k;
                        lemma_lookup_at(after, j);
                        if j < n {
                            assert(before[j].0 == k);
                            lemma_lookup_at(before, j);
                        }
                    }
                    assert(entries_map(after) =~= entries_map(before).insert(key, value));
                }
                self.entries = entries;
            },
        }
    }
}

/// What was cached is read back: after caching `value` for `key`, a lookup of
/// `key` finds `value`, and every other key finds what it found before.
pub proof fn law_cache_read_after_write<V>(cache: Map<AssetKey, V>, key: AssetKey, value: V, other: AssetKey)
    ensures
        cache.insert(key, value).contains_key(key),
        cache.insert(key, value)[key] == value,
        other != key ==> (cache.insert(key, value).contains_key(other) == cache.contains_key(other)
            && (cache.contains_key(other) ==> cache.insert(key, value)[other] == cache[other])),
{
}

} // verus!
