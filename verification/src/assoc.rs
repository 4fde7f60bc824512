//! A small association map over two parallel vectors. Keys are compared with
//! [`MapKey::same`], no key occurs twice, and the view is a `Map`.
use vstd::prelude::*;
use crate::address::WorkerAddress;

verus! {

/// A key of an [`AssocMap`]: a copyable value with a decidable equality.
pub trait MapKey: Copy {
    fn same(&self, other: &Self) -> (r: bool)
        ensures
            r == (*self == *other),
    ;
}

impl MapKey for u32 {
    fn same(&self, other: &Self) -> (r: bool) {
        *self == *other
    }
}

impl MapKey for WorkerAddress {
    fn same(&self, other: &Self) -> (r: bool) {
        *self == *other
    }
}

/// Map from `K` to `V`, in insertion order.
pub struct AssocMap<K, V> {
    pub keys: Vec<K>,
    pub values: Vec<V>,
}

impl<K, V> View for AssocMap<K, V> {
    type V = Map<K, V>;

    open spec fn view(&self) -> Map<K, V> {
        Map::new(
            |k: K| self.keys@.contains(k),
            |k: K| self.values@[self.keys@.index_of(k)],
        )
    }
}

impl<K: MapKey, V> AssocMap<K, V> {
    /// Both vectors have one length and no key occurs twice.
    pub open spec fn wf(&self) -> bool {
        &&& self.keys@.len() == self.values@.len()
        &&& self.keys@.no_duplicates()
    }

    /// In a well-formed map the key at position `i` is found at `i`.
    pub proof fn lemma_position(&self, i: int)
        requires
            self.wf(),
            0 <= i < self.keys@.len(),
        ensures
            self.keys@.index_of(self.keys@[i]) == i,
            self@.contains_key(self.keys@[i]),
            self@[self.keys@[i]] == self.values@[i],
    {
        let k = self.keys@[i];
        assert(self.keys@.contains(k));
        let j = self.keys@.index_of(k);
        assert(0 <= j < self.keys@.len() && self.keys@[j] == k);
    }

    pub fn new() -> (m: Self)
        ensures
            m.wf(),
            m@ == Map::<K, V>::empty(),
            m.keys@.len() == 0,
    {
        let m = AssocMap { keys: Vec::new(), values: Vec::new() };
        assert(m@ =~= Map::<K, V>::empty());
        m
    }

    pub fn len(&self) -> (n: usize)
        requires
            self.wf(),
        ensures
            n == self.keys@.len(),
    {
        self.keys.len()
    }

    /// Position of `key`, if the map holds it.
    pub fn find(&self, key: &K) -> (r: Option<usize>)
        requires
            self.wf(),
        ensures
            match r {
                Some(i) => i < self.keys@.len() && self.keys@[i as int] == *key
                    && self@.contains_key(*key) && self@[*key] == self.values@[i as int],
                None => !self@.contains_key(*key),
            },
    {
        let mut i: usize = 0;
        while i < self.keys.len()
            invariant
                self.wf(),
                i <= self.keys@.len(),
                forall|j: int| 0 <= j < i ==> self.keys@[j] != *key,
            decreases self.keys@.len() - i,
        {
            if self.keys[i].same(key) {
                proof {
                    self.lemma_position(i as int);
                }
                return Some(i);
            }
            i += 1;
        }
        None
    }

    /// The value stored under `key`.
    pub fn get(&self, key: &K) -> (r: Option<&V>)
        requires
            self.wf(),
        ensures
            match r {
                Some(v) => self@.contains_key(*key) && *v == self@[*key],
                None => !self@.contains_key(*key),
            },
    {
        match self.find(key) {
            Some(i) => Some(&self.values[i]),
            None => None,
        }
    }

    /// Stores `value` under `key`, replacing what was there.
    pub fn insert(&mut self, key: K, value: V)
        requires
            old(self).wf(),
        ensures
            final(self).wf(),
            final(self)@ == old(self)@.insert(key, value),
    {
        match self.find(&key) {
            Some(i) => {
                self.values.set(i, value);
                proof {
                    assert forall|k: K| self.keys@.contains(k) implies #[trigger] self@[k]
                        == old(self)@.insert(key, value)[k] by {
                        let j = self.keys@.index_of(k);
                        old(self).lemma_position(j);
                        old(self).lemma_position(i as int);
                    }
                    assert(self@ =~= old(self)@.insert(key, value));
                }
            },
            None => {
                self.keys.push(key);
                self.values.push(value);
                proof {
                    let n = old(self).keys@.len() as int;
                    assert(self.keys@ == old(self).keys@.push(key));
                    assert(self.keys@.no_duplicates()) by {
                        assert forall|a: int, b: int|
                            0 <= a < self.keys@.len() && 0 <= b < self.keys@.len() && a != b
                            implies self.keys@[a] != self.keys@[b] by {
                            if a < n && b < n {
                            } else if a == n {
                                assert(old(self).keys@[b] == self.keys@[b]);
                                assert(old(self).keys@.contains(self.keys@[b]));
                            } else {
                                assert(old(self).keys@[a] == self.keys@[a]);
                                assert(old(self).keys@.contains(self.keys@[a]));
                            }
                        }
                    }
                    assert forall|k: K| #[trigger] self@.contains_key(k) <==> old(self)@.insert(
                        key,
                        value,
                    ).contains_key(k) by {
                        if self.keys@.contains(k) {
                            let j = self.keys@.index_of(k);
                            if j < n {
                                assert(old(self).keys@[j] == k);
                            }
                        }
                        if old(self).keys@.contains(k) {
                            let j = old(self).keys@.index_of(k);
                            assert(self.keys@[j] == k);
                        }
                        if k == key {
                            assert(self.keys@[n] == key);
                        }
                    }
                    assert forall|k: K| self.keys@.contains(k) implies #[trigger] self@[k]
                        == old(self)@.insert(key, value)[k] by {
                        let j = self.keys@.index_of(k);
                        self.lemma_position(j);
                        if j < n {
                            assert(old(self).keys@[j] == k);
                            old(self).lemma_position(j);
                        }
                    }
                    assert(self@ =~= old(self)@.insert(key, value));
                }
            },
        }
    }

    /// Takes the entry of `key` out of the map and returns its value.
    pub fn remove(&mut self, key: &K) -> (r: Option<V>)
        requires
            old(self).wf(),
        ensures
            final(self).wf(),
            final(self)@ == old(self)@.remove(*key),
            r == if old(self)@.contains_key(*key) {
                Some(old(self)@[*key])
            } else {
                None::<V>
            },
    {
        match self.find(key) {
            Some(i) => {
                self.keys.remove(i);
                let v = self.values.remove(i);
                proof {
                    let ok = old(self).keys@;
                    let nk = self.keys@;
                    assert(nk == ok.remove(i as int));
                    assert(self.values@ == old(self).values@.remove(i as int));
                    assert forall|a: int| 0 <= a < nk.len() implies nk[a] == ok[if a
                        < i { a } else { a + 1 }] by {}
                    assert(nk.no_duplicates());
                    assert forall|k: K| #[trigger] self@.contains_key(k) <==> old(self)@.remove(
                        *key,
                    ).contains_key(k) by {
                        if nk.contains(k) {
                            let j = nk.index_of(k);
                            let oj = if j < i { j } else { j + 1 };
                            assert(ok[oj] == k);
                        }
                        if ok.contains(k) && k != *key {
                            let j = ok.index_of(k);
                            let nj = if j < i { j } else { j - 1 };
                            assert(nk[nj] == k);
                        }
                    }
                    assert forall|k: K| nk.contains(k) implies #[trigger] self@[k] == old(
                        self,
                    )@.remove(*key)[k] by {
                        let j = nk.index_of(k);
                        self.lemma_position(j);
                        let oj = if j < i { j } else { j + 1 };
                        assert(ok[oj] == k);
                        old(self).lemma_position(oj);
                    }
                    assert(self@ =~= old(self)@.remove(*key));
                }
                Some(v)
            },
            None => {
                proof {
                    assert(self@ =~= old(self)@.remove(*key));
                }
                None
            },
        }
    }
}

impl<K: MapKey, V: Copy> AssocMap<K, V> {
    /// A copy of the map, with its entries in the same order.
    pub fn duplicate(&self) -> (copy: Self)
        requires
            self.wf(),
        ensures
            copy.wf(),
            copy@ == self@,
            copy.keys@ == self.keys@,
            copy.values@ == self.values@,
    {
        let mut keys: Vec<K> = Vec::new();
        let mut values: Vec<V> = Vec::new();
        let mut i: usize = 0;
        while i < self.keys.len()
            invariant
                self.wf(),
                i <= self.keys@.len(),
                keys@ == self.keys@.subrange(0, i as int),
                values@ == self.values@.subrange(0, i as int),
            decreases self.keys@.len() - i,
        {
            keys.push(self.keys[i]);
            values.push(self.values[i]);
            proof {
                assert(keys@ =~= self.keys@.subrange(0, i + 1));
                assert(values@ =~= self.values@.subrange(0, i + 1));
            }
            i += 1;
        }
        proof {
            assert(keys@ =~= self.keys@);
            assert(values@ =~= self.values@);
        }
        AssocMap { keys, values }
    }
}

} // verus!
