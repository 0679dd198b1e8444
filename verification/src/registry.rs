//! A small keyed store. The caches of a render context hold one entry per
//! logical identity, so a vector of pairs searched front to back is enough.

use vstd::prelude::*;

verus! {

/// A key of a [`Registry`]: a value with a mathematical model and an
/// executable test for equal models.
pub trait Key: Sized {
    type Model;

    spec fn model(&self) -> Self::Model;

    fn same(&self, other: &Self) -> (equal: bool)
        ensures
            equal == (self.model() == other.model()),
    ;
}

impl Key for String {
    type Model = Seq<char>;

    open spec fn model(&self) -> Seq<char> {
        self@
    }

    fn same(&self, other: &Self) -> (equal: bool) {
        *self == *other
    }
}

/// Entries keyed by `K`, no two with the same key model.
pub struct Registry<K: Key, V> {
    entries: Vec<(K, V)>,
}

impl<K: Key, V> Registry<K, V> {
    #[verifier::type_invariant]
    spec fn distinct_keys(&self) -> bool {
        forall|i: int, j: int|
            0 <= i < self.entries@.len() && 0 <= j < self.entries@.len() && i != j
                ==> self.entries@[i].0.model() != self.entries@[j].0.model()
    }

    spec fn position(&self, key: K::Model) -> int {
        choose|i: int| 0 <= i < self.entries@.len() && self.entries@[i].0.model() == key
    }

    /// The store as a map from key models to values.
    pub closed spec fn view(&self) -> Map<K::Model, V> {
        Map::new(
            |key: K::Model|
                exists|i: int| 0 <= i < self.entries@.len() && self.entries@[i].0.model() == key,
            |key: K::Model| self.entries@[self.position(key)].1,
        )
    }

    pub fn new() -> (registry: Self)
        ensures
            registry@ == Map::<K::Model, V>::empty(),
    {
        let registry = Registry { entries: Vec::new() };
        assert(registry@ =~= Map::<K::Model, V>::empty());
        registry
    }

    fn find(&self, key: &K) -> (found: Option<usize>)
        ensures
            match found {
                Some(i) => i < self.entries@.len() && self.entries@[i as int].0.model()
                    == key.model() && self@.dom().contains(key.model()) && self@[key.model()]
                    == self.entries@[i as int].1,
                None => !self@.dom().contains(key.model()),
            },
    {
        proof {
            use_type_invariant(self);
        }
        let mut i: usize = 0;
        while i < self.entries.len()
            invariant
                self.distinct_keys(),
                i <= self.entries@.len(),
                forall|j: int| 0 <= j < i ==> self.entries@[j].0.model() != key.model(),
            decreases self.entries@.len() - i,
        {
            if self.entries[i].0.same(key) {
                let ghost at = self.position(key.model());
                assert(0 <= at < self.entries@.len() && self.entries@[at].0.model()
                    == key.model());
                assert(at == i);
                return Some(i);
            }
            i += 1;
        }
        None
    }

    /// Whether an entry is stored under `key`.
    pub fn contains(&self, key: &K) -> (present: bool)
        ensures
            present == self@.dom().contains(key.model()),
    {
        self.find(key).is_some()
    }

    /// The value stored under `key`, if there is one.
    pub fn get(&self, key: &K) -> (value: Option<&V>)
        ensures
            match value {
                Some(v) => self@.dom().contains(key.model()) && *v == self@[key.model()],
                None => !self@.dom().contains(key.model()),
            },
    {
        match self.find(key) {
            Some(i) => Some(&self.entries[i].1),
            None => None,
        }
    }

    /// Stores `value` under `key`, in place of the entry that was there.
    pub fn insert(&mut self, key: K, value: V)
        ensures
            final(self)@ == old(self)@.insert(key.model(), value),
    {
        proof {
            use_type_invariant(&*self);
        }
        let ghost before = *self;
        let found = self.find(&key);
        let mut entries: Vec<(K, V)> = Vec::new();
        core::mem::swap(&mut self.entries, &mut entries);
        match found {
            Some(i) => {
                entries.set(i, (key, value));
                self.entries = entries;
                assert forall|k: K::Model| #[trigger]
                    self@.dom().contains(k) == before@.insert(key.model(), value).dom().contains(
                        k,
                    ) by {
                    if self@.dom().contains(k) {
                        let j = choose|j: int|
                            0 <= j < self.entries@.len() && self.entries@[j].0.model() == k;
                        assert(before.entries@[j].0.model() == k);
                    }
                    if before@.dom().contains(k) {
                        let j = choose|j: int|
                            0 <= j < before.entries@.len() && before.entries@[j].0.model() == k;
                        assert(self.entries@[j].0.model() == k);
                    }
                    if k == key.model() {
                        assert(self.entries@[i as int].0.model() == k);
                    }
                }
            },
            None => {
                entries.push((key, value));
                self.entries = entries;
                let ghost last = before.entries@.len() as int;
                assert forall|k: K::Model| #[trigger]
                    self@.dom().contains(k) == before@.insert(key.model(), value).dom().contains(
                        k,
                    ) by {
                    if self@.dom().contains(k) {
                        let j = choose|j: int|
                            0 <= j < self.entries@.len() && self.entries@[j].0.model() == k;
                        if j < last {
                            assert(before.entries@[j].0.model() == k);
                        }
                    }
                    if before@.dom().contains(k) {
                        let j = choose|j: int|
                            0 <= j < before.entries@.len() && before.entries@[j].0.model() == k;
                        assert(self.entries@[j].0.model() == k);
                    }
                    if k == key.model() {
                        assert(self.entries@[last].0.model() == k);
                    }
                }
            },
        }
        assert forall|k: K::Model| self@.dom().contains(k) implies #[trigger] self@[k]
            == before@.insert(key.model(), value)[k] by {
            let j = self.position(k);
            assert(0 <= j < self.entries@.len() && self.entries@[j].0.model() == k);
            if k != key.model() {
                assert(before.entries@[j].0.model() == k);
                assert(before.position(k) == j);
            }
        }
        assert(self@ =~= before@.insert(key.model(), value));
    }

    /// The number of entries.
    pub fn len(&self) -> (n: usize)
        ensures
            n == self@.dom().len(),
            self@.dom().finite(),
    {
        proof {
            use_type_invariant(self);
            self.lemma_len();
        }
        self.entries.len()
    }

    proof fn lemma_len(&self)
        requires
            self.distinct_keys(),
        ensures
            self@.dom().finite(),
            self@.dom().len() == self.entries@.len(),
    {
        let keys = self.entries@.map_values(|e: (K, V)| e.0.model());
        assert(keys.no_duplicates());
        assert(keys.to_set() =~= self@.dom()) by {
            assert forall|k: K::Model| keys.to_set().contains(k) == self@.dom().contains(k) by {
                if keys.contains(k) {
                    let i = choose|i: int| 0 <= i < keys.len() && keys[i] == k;
                    assert(self.entries@[i].0.model() == k);
                }
                if self@.dom().contains(k) {
                    let i = choose|i: int|
                        0 <= i < self.entries@.len() && self.entries@[i].0.model() == k;
                    assert(keys[i] == k);
                }
            }
        }
        keys.unique_seq_to_set();
    }
}

} // verus!
