//! A map from strings to values, kept in insertion order.
//!
//! The map is viewed as a `Map` from the keys' characters to the values'
//! deep views. Its entries can also be walked by position, in the order in
//! which the keys were first inserted.

use vstd::prelude::*;

verus! {

#[derive(Debug)]
struct Entry<V> {
    key: String,
    value: V,
}

/// A finite map keyed by strings.
#[derive(Debug)]
pub struct StrMap<V> {
    entries: Vec<Entry<V>>,
}

/// The position of `k` in `keys`; meaningful where `keys` contains `k`.
pub open spec fn position(keys: Seq<Seq<char>>, k: Seq<char>) -> int {
    choose|i: int| 0 <= i < keys.len() && keys[i] == k
}

proof fn lemma_position(keys: Seq<Seq<char>>, i: int)
    requires
        keys.no_duplicates(),
        0 <= i < keys.len(),
    ensures
        position(keys, keys[i]) == i,
{
    let j = position(keys, keys[i]);
    assert(0 <= j < keys.len() && keys[j] == keys[i]);
}

/// One element more of a sequence: what the longer prefix holds is what the
/// shorter one holds, and that element.
pub proof fn lemma_take_next<A>(s: Seq<A>, i: int)
    requires
        0 <= i < s.len(),
    ensures
        s.take(i + 1) == s.take(i).push(s[i]),
        forall|k: A| #[trigger]
            s.take(i + 1).contains(k) <==> (s.take(i).contains(k) || k == s[i]),
{
    let taken = s.take(i);
    let next = s.take(i + 1);
    assert(next =~= taken.push(s[i]));
    assert forall|k: A| next.contains(k) <==> (taken.contains(k) || k == s[i]) by {
        if taken.contains(k) {
            let j = choose|j: int| 0 <= j < taken.len() && taken[j] == k;
            assert(next[j] == k);
        }
        if k == s[i] {
            assert(next[i] == k);
        }
    }
}

impl<V: DeepView> View for StrMap<V> {
    type V = Map<Seq<char>, V::V>;

    closed spec fn view(&self) -> Map<Seq<char>, V::V> {
        Map::new(
            |k: Seq<char>| self.keys().contains(k),
            |k: Seq<char>| self.entries[position(self.keys(), k)].value.deep_view(),
        )
    }
}

impl<V: DeepView> DeepView for StrMap<V> {
    type V = Map<Seq<char>, V::V>;

    open spec fn deep_view(&self) -> Map<Seq<char>, V::V> {
        self.view()
    }
}

impl<V> StrMap<V> {
    /// The keys in the order in which they were first inserted.
    pub closed spec fn keys(&self) -> Seq<Seq<char>> {
        Seq::new(self.entries.len() as nat, |i: int| self.entries[i].key@)
    }

    /// No key is held twice.
    #[verifier::type_invariant]
    spec fn distinct_keys(&self) -> bool {
        self.keys().no_duplicates()
    }
}

impl<V: DeepView> StrMap<V> {
    /// The keys are pairwise different, they are the map's domain, and the
    /// domain is finite.
    pub open spec fn keys_describe_map(&self) -> bool {
        &&& self.keys().no_duplicates()
        &&& self@.dom().finite()
        &&& self@.dom().len() == self.keys().len()
        &&& forall|k: Seq<char>| self@.contains_key(k) <==> self.keys().contains(k)
    }

    proof fn lemma_keys(&self)
        requires
            self.keys().no_duplicates(),
        ensures
            self.keys_describe_map(),
    {
        let keys = self.keys();
        assert(self@.dom() =~= keys.to_set()) by {
            assert forall|k: Seq<char>| self@.dom().contains(k) <==> keys.to_set().contains(
                k,
            ) by {}
        }
        keys.unique_seq_to_set();
        vstd::seq_lib::seq_to_set_is_finite(keys);
    }

    /// An empty map.
    pub fn new() -> (m: Self)
        ensures
            m@ == Map::<Seq<char>, V::V>::empty(),
            m.keys() == Seq::<Seq<char>>::empty(),
    {
        let m = StrMap { entries: Vec::new() };
        assert(m.keys() =~= Seq::<Seq<char>>::empty());
        assert(m@ =~= Map::<Seq<char>, V::V>::empty());
        m
    }

    /// The number of keys.
    pub fn len(&self) -> (n: usize)
        ensures
            n == self.keys().len(),
            n == self@.len(),
            self.keys_describe_map(),
    {
        proof {
            use_type_invariant(self);
            self.lemma_keys();
        }
        self.entries.len()
    }

    /// Whether the map holds no key.
    pub fn is_empty(&self) -> (r: bool)
        ensures
            r == (self@.len() == 0),
            r == (self@ == Map::<Seq<char>, V::V>::empty()),
    {
        proof {
            use_type_invariant(self);
            self.lemma_keys();
            if self.entries.len() == 0 {
                assert(self@ =~= Map::<Seq<char>, V::V>::empty());
            }
        }
        self.entries.len() == 0
    }

    fn find(&self, key: &str) -> (r: Option<usize>)
        ensures
            match r {
                Some(i) => i < self.keys().len() && self.keys()[i as int] == key@,
                None => !self.keys().contains(key@),
            },
    {
        let wanted = key.to_owned();
        let mut i: usize = 0;
        while i < self.entries.len()
            invariant
                i <= self.entries.len(),
                wanted@ == key@,
                forall|j: int| 0 <= j < i ==> self.keys()[j] != key@,
            decreases self.entries.len() - i,
        {
            if self.entries[i].key == wanted {
                return Some(i);
            }
            i = i + 1;
        }
        None
    }

    /// Whether `key` is in the map.
    pub fn contains_key(&self, key: &str) -> (r: bool)
        ensures
            r == self@.contains_key(key@),
    {
        self.find(key).is_some()
    }

    /// The value stored under `key`.
    pub fn get(&self, key: &str) -> (r: Option<&V>)
        ensures
            match r {
                Some(v) => self@.contains_key(key@) && v.deep_view() == self@[key@],
                None => !self@.contains_key(key@),
            },
    {
        match self.find(key) {
            Some(i) => {
                proof {
                    use_type_invariant(self);
                    lemma_position(self.keys(), i as int);
                }
                Some(&self.entries[i].value)
            },
            None => None,
        }
    }

    /// The key at position `i`.
    pub fn key_at(&self, i: usize) -> (k: &String)
        requires
            i < self.keys().len(),
        ensures
            k@ == self.keys()[i as int],
            self@.contains_key(k@),
    {
        proof {
            assert(self.keys()[i as int] == self.entries@[i as int].key@);
            assert(self.keys().contains(self.keys()[i as int]));
        }
        &self.entries[i].key
    }

    /// The value at position `i`.
    pub fn value_at(&self, i: usize) -> (v: &V)
        requires
            i < self.keys().len(),
        ensures
            self@.contains_key(self.keys()[i as int]),
            v.deep_view() == self@[self.keys()[i as int]],
    {
        proof {
            use_type_invariant(self);
            lemma_position(self.keys(), i as int);
            assert(self.keys().contains(self.keys()[i as int]));
        }
        &self.entries[i].value
    }

    /// Stores `value` under `key`, replacing what was there. A new key goes
    /// to the end of the order; a key already present keeps its position.
    pub fn insert(&mut self, key: String, value: V)
        ensures
            final(self)@ == old(self)@.insert(key@, value.deep_view()),
            final(self).keys() == (if old(self).keys().contains(key@) {
                old(self).keys()
            } else {
                old(self).keys().push(key@)
            }),
    {
        proof {
            use_type_invariant(&*self);
        }
        let ghost before = *self;
        let ghost k = key@;
        let ghost dv = value.deep_view();
        let found = self.find(key.as_str());
        let mut taken = StrMap { entries: Vec::new() };
        proof {
            assert(taken.keys() =~= Seq::<Seq<char>>::empty());
        }
        core::mem::swap(self, &mut taken);
        let mut entries = taken.entries;
        match found {
            Some(i) => {
                entries.set(i, Entry { key, value });
                proof {
                    let after = StrMap { entries };
                    assert(after.keys() =~= before.keys());
                }
                *self = StrMap { entries };
                proof {
                    assert(self.keys() =~= before.keys());
                    assert forall|q: Seq<char>| self.keys().contains(q) implies #[trigger] self@[q]
                        == before@.insert(k, dv)[q] by {
                        let j = position(self.keys(), q);
                        if q == k {
                            lemma_position(self.keys(), i as int);
                        } else {
                            assert(j != i);
                        }
                    }
                    assert(self@ =~= before@.insert(k, dv));
                }
            },
            None => {
                entries.push(Entry { key, value });
                proof {
                    let after = StrMap { entries };
                    assert(after.keys() =~= before.keys().push(k));
                    assert(after.keys().no_duplicates());
                }
                *self = StrMap { entries };
                proof {
                    let n = before.keys().len() as int;
                    assert(self.keys() =~= before.keys().push(k));
                    assert forall|q: Seq<char>|
                        self.keys().contains(q) <==> (q == k || before.keys().contains(q)) by {
                        if before.keys().contains(q) {
                            let j = position(before.keys(), q);
                            assert(self.keys()[j] == q);
                        }
                        if q == k {
                            assert(self.keys()[n] == q);
                        }
                    }
                    assert forall|q: Seq<char>| self.keys().contains(q) implies #[trigger] self@[q]
                        == before@.insert(k, dv)[q] by {
                        let j = position(self.keys(), q);
                        if q == k {
                            lemma_position(self.keys(), n);
                        } else {
                            assert(j != n);
                            assert(before.keys()[j] == q);
                            lemma_position(before.keys(), j);
                        }
                    }
                    assert(self@ =~= before@.insert(k, dv));
                }
            },
        }
    }

    /// The position of `key` in the order of the keys.
    pub fn position_of(&self, key: &str) -> (r: Option<usize>)
        ensures
            r is Some <==> self@.contains_key(key@),
            r matches Some(i) ==> i < self.keys().len() && self.keys()[i as int] == key@,
    {
        self.find(key)
    }

    /// Puts `value` in the place of the value at position `i` and returns
    /// the value that was there.
    pub fn replace_at(&mut self, i: usize, value: V) -> (previous: V)
        requires
            i < old(self).keys().len(),
        ensures
            final(self).keys() == old(self).keys(),
            final(self)@ == old(self)@.insert(old(self).keys()[i as int], value.deep_view()),
            old(self)@.contains_key(old(self).keys()[i as int]),
            previous.deep_view() == old(self)@[old(self).keys()[i as int]],
    {
        proof {
            use_type_invariant(&*self);
            lemma_position(self.keys(), i as int);
            assert(self.keys().contains(self.keys()[i as int]));
        }
        let ghost before = *self;
        let ghost k = self.keys()[i as int];
        let ghost dv = value.deep_view();
        let mut taken = StrMap { entries: Vec::new() };
        proof {
            assert(taken.keys() =~= Seq::<Seq<char>>::empty());
        }
        core::mem::swap(self, &mut taken);
        let mut entries = taken.entries;
        let old_entry = entries.remove(i);
        let Entry { key, value: previous } = old_entry;
        entries.insert(i, Entry { key, value });
        proof {
            let after = StrMap { entries };
            assert(after.keys() =~= before.keys());
        }
        *self = StrMap { entries };
        proof {
            assert forall|q: Seq<char>| self.keys().contains(q) implies #[trigger] self@[q]
                == before@.insert(k, dv)[q] by {
                let j = position(self.keys(), q);
                if q == k {
                    lemma_position(self.keys(), i as int);
                } else {
                    assert(j != i);
                }
            }
            assert(self@ =~= before@.insert(k, dv));
        }
        previous
    }

    /// Removes every key.
    pub fn clear(&mut self)
        ensures
            final(self)@ == Map::<Seq<char>, V::V>::empty(),
            final(self).keys() == Seq::<Seq<char>>::empty(),
    {
        self.entries = Vec::new();
        assert(self.keys() =~= Seq::<Seq<char>>::empty());
        assert(self@ =~= Map::<Seq<char>, V::V>::empty());
    }
}

impl<V: Clone> Clone for StrMap<V> {
    /// A map with the same keys, in the same order, each with a clone of its value.
    fn clone(&self) -> (m: Self)
        ensures
            m.keys() == self.keys(),
    {
        let mut entries: Vec<Entry<V>> = Vec::new();
        let mut i: usize = 0;
        while i < self.entries.len()
            invariant
                i <= self.entries.len(),
                entries.len() == i,
                forall|j: int| 0 <= j < i ==> entries@[j].key@ == self.entries@[j].key@,
            decreases self.entries.len() - i,
        {
            let key = self.entries[i].key.clone();
            let value = self.entries[i].value.clone();
            entries.push(Entry { key, value });
            i = i + 1;
        }
        proof {
            use_type_invariant(self);
            let m = StrMap { entries };
            assert(m.keys() =~= self.keys());
        }
        StrMap { entries }
    }
}

impl StrMap<String> {
    /// A map with the same keys, in the same order, and the same values.
    pub fn duplicate(&self) -> (m: Self)
        ensures
            m@ == self@,
            m.keys() == self.keys(),
    {
        let mut m: StrMap<String> = StrMap::new();
        let n = self.len();
        let mut i: usize = 0;
        while i < n
            invariant
                i <= n,
                n == self.keys().len(),
                self.keys_describe_map(),
                m.keys() == self.keys().take(i as int),
                forall|k: Seq<char>| m@.contains_key(k) <==> self.keys().take(i as int).contains(k),
                forall|k: Seq<char>| m@.contains_key(k) ==> m@[k] == self@[k],
            decreases n - i,
        {
            let k = self.key_at(i).clone();
            let v = self.value_at(i).clone();
            let ghost taken = self.keys().take(i as int);
            proof {
                lemma_take_next(self.keys(), i as int);
                if taken.contains(k@) {
                    let j = choose|j: int| 0 <= j < taken.len() && taken[j] == k@;
                    assert(self.keys()[j] == self.keys()[i as int]);
                }
            }
            m.insert(k, v);
            i = i + 1;
        }
        proof {
            assert(self.keys().take(n as int) == self.keys());
            assert(m@ =~= self@);
        }
        m
    }
}

} // verus!
