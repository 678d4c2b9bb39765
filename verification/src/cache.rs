//! The keyed stores behind the caches. A store holds at most one value for a
//! key and never forgets one; its view is a finite map.

use crate::model::VaultCacheEntry;
use vstd::prelude::*;

verus! {

/// A key of a store: two keys are the same when their views are.
pub trait StoreKey: View + Sized {
    /// Whether `self` and `other` are the same key.
    fn same(&self, other: &Self) -> (equal: bool)
        ensures
            equal == (self@ == other@),
    ;
}

impl StoreKey for String {
    fn same(&self, other: &Self) -> (equal: bool) {
        *self == *other
    }
}

impl StoreKey for (String, String) {
    fn same(&self, other: &Self) -> (equal: bool) {
        self.0 == other.0 && self.1 == other.1
    }
}

/// A store of values by key.
pub struct Store<K: StoreKey, V: View> {
    keys: Vec<K>,
    values: Vec<V>,
}

/// The secret names cached for each vault, by vault name.
pub type SecretListCache = Store<String, VaultCacheEntry>;

/// The secret values cached, by vault name and secret name.
pub type SecretValueCache = Store<(String, String), String>;

impl<K: StoreKey, V: View> Store<K, V> {
    /// Each key has its value, and no key is held twice.
    pub closed spec fn wf(self) -> bool {
        &&& self.keys@.len() == self.values@.len()
        &&& forall|i: int, j: int|
            0 <= i < j < self.keys@.len() ==> (#[trigger] self.keys@[i])@ != (
            #[trigger] self.keys@[j])@
    }

    /// Whether `key` is held at position `i`.
    spec fn held_at(self, key: K::V, i: int) -> bool {
        0 <= i < self.keys@.len() && self.keys@[i]@ == key
    }

    /// The store as a map from the views of its keys to those of its values.
    pub closed spec fn view(&self) -> Map<K::V, V::V> {
        Map::new(
            |key: K::V| exists|i: int| self.held_at(key, i),
            |key: K::V| self.values@[choose|i: int| self.held_at(key, i)]@,
        )
    }

    /// An empty store.
    pub fn new() -> (store: Self)
        ensures
            store.wf(),
            store@ == Map::<K::V, V::V>::empty(),
    {
        let store = Store { keys: Vec::new(), values: Vec::new() };
        assert(store@ =~= Map::<K::V, V::V>::empty());
        store
    }

    /// The position at which `key` is held, if it is held.
    fn find(&self, key: &K) -> (at: Option<usize>)
        requires
            self.wf(),
        ensures
            match at {
                Some(i) => self.held_at(key@, i as int) && i < self.values@.len(),
                None => forall|i: int| !self.held_at(key@, i),
            },
    {
        let mut i: usize = 0;
        while i < self.keys.len()
            invariant
                i <= self.keys@.len(),
                self.keys@.len() == self.values@.len(),
                forall|j: int| 0 <= j < i ==> !self.held_at(key@, j),
            decreases self.keys.len() - i,
        {
            if self.keys[i].same(key) {
                return Some(i);
            }
            i += 1;
        }
        None
    }

    /// Whether a value is held for `key`.
    pub fn contains_key(&self, key: &K) -> (held: bool)
        requires
            self.wf(),
        ensures
            held == self@.contains_key(key@),
    {
        match self.find(key) {
            Some(i) => {
                assert(self.held_at(key@, i as int));
                true
            },
            None => false,
        }
    }

    /// The value held for `key`, if any.
    pub fn get(&self, key: &K) -> (value: Option<&V>)
        requires
            self.wf(),
        ensures
            match value {
                Some(v) => self@.contains_key(key@) && v@ == self@[key@],
                None => !self@.contains_key(key@),
            },
    {
        match self.find(key) {
            Some(i) => {
                proof {
                    assert(self.held_at(key@, i as int));
                    let c = choose|c: int| self.held_at(key@, c);
                    assert(c == i);
                }
                Some(&self.values[i])
            },
            None => None,
        }
    }

    /// How many keys are held.
    pub fn len(&self) -> (n: usize)
        requires
            self.wf(),
        ensures
            n == self@.dom().len(),
            self@.dom().finite(),
    {
        proof {
            self.lemma_domain(self.keys@.len() as int);
            assert(self.domain_below(self.keys@.len() as int) =~= self@.dom());
        }
        self.keys.len()
    }

    /// The views of the keys held at the first `n` positions.
    spec fn domain_below(self, n: int) -> Set<K::V> {
        Set::new(|key: K::V| exists|i: int| self.held_at(key, i) && i < n)
    }

    /// The keys at the first `n` positions are `n` different keys.
    proof fn lemma_domain(self, n: int)
        requires
            self.wf(),
            0 <= n <= self.keys@.len(),
        ensures
            self.domain_below(n).finite(),
            self.domain_below(n).len() == n,
        decreases n,
    {
        if n == 0 {
            assert(self.domain_below(0) =~= Set::<K::V>::empty());
        } else {
            self.lemma_domain(n - 1);
            let key = self.keys@[n - 1]@;
            assert(self.held_at(key, n - 1));
            assert(self.domain_below(n) =~= self.domain_below(n - 1).insert(key)) by {
                assert forall|k: K::V| self.domain_below(n).contains(k) implies self.domain_below(
                    n - 1,
                ).insert(key).contains(k) by {
                    let i = choose|i: int| self.held_at(k, i) && i < n;
                    if i < n - 1 {
                        assert(self.held_at(k, i) && i < n - 1);
                    }
                }
            }
            assert(!self.domain_below(n - 1).contains(key)) by {
                if self.domain_below(n - 1).contains(key) {
                    let i = choose|i: int| self.held_at(key, i) && i < n - 1;
                    assert(self.keys@[i]@ != self.keys@[n - 1]@);
                }
            }
        }
    }

    /// Holds `value` for `key` from now on, in place of what was held for it.
    pub fn insert(&mut self, key: K, value: V)
        requires
            old(self).wf(),
        ensures
            final(self).wf(),
            final(self)@ == old(self)@.insert(key@, value@),
    {
        let ghost before = *self;
        match self.find(&key) {
            Some(i) => {
                self.values.set(i, value);
                proof {
                    let after = *self;
                    assert(after.keys@ == before.keys@);
                    assert forall|k: K::V| #[trigger]
                        after@.contains_key(k) == before@.insert(key@, value@).contains_key(k) by {
                        if before.held_at(k, i as int) {
                            assert(after.held_at(k, i as int));
                        }
                        if exists|j: int| after.held_at(k, j) {
                            let j = choose|j: int| after.held_at(k, j);
                            assert(before.held_at(k, j));
                        }
                        if exists|j: int| before.held_at(k, j) {
                            let j = choose|j: int| before.held_at(k, j);
                            assert(after.held_at(k, j));
                        }
                    }
                    assert forall|k: K::V| #[trigger] after@.contains_key(k) implies after@[k]
                        == before@.insert(key@, value@)[k] by {
                        let j = choose|j: int| after.held_at(k, j);
                        assert(before.held_at(k, j));
                        let b = choose|b: int| before.held_at(k, b);
                        assert(b == j);
                    }
                    assert(after@ =~= before@.insert(key@, value@));
                }
            },
            None => {
                self.keys.push(key);
                self.values.push(value);
                proof {
                    let after = *self;
                    let n = before.keys@.len() as int;
                    assert(after.held_at(key@, n));
                    assert forall|i: int, j: int| 0 <= i < j < after.keys@.len() implies (
                    #[trigger] after.keys@[i])@ != (#[trigger] after.keys@[j])@ by {
                        assert(after.keys@[i] == before.keys@[i]);
                        if j == n {
                            assert(!before.held_at(key@, i));
                        } else {
                            assert(after.keys@[j] == before.keys@[j]);
                        }
                    }
                    assert forall|k: K::V| #[trigger]
                        after@.contains_key(k) == before@.insert(key@, value@).contains_key(k) by {
                        if exists|j: int| after.held_at(k, j) {
                            let j = choose|j: int| after.held_at(k, j);
                            if j < n {
                                assert(before.held_at(k, j));
                            }
                        }
                        if exists|j: int| before.held_at(k, j) {
                            let j = choose|j: int| before.held_at(k, j);
                            assert(after.held_at(k, j));
                        }
                    }
                    assert forall|k: K::V| #[trigger] after@.contains_key(k) implies after@[k]
                        == before@.insert(key@, value@)[k] by {
                        let j = choose|j: int| after.held_at(k, j);
                        if j < n {
                            assert(before.held_at(k, j));
                            let b = choose|b: int| before.held_at(k, b);
                            assert(b == j);
                        } else {
                            assert(k == key@);
                        }
                    }
                    assert(after@ =~= before@.insert(key@, value@));
                }
            },
        }
    }
}

} // verus!
