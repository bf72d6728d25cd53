//! A finite map keyed by strings, kept as an insertion-ordered list of
//! entries in which no key occurs twice.

use vstd::prelude::*;

verus! {

/// The text of each string of a sequence.
pub open spec fn texts(strings: Seq<String>) -> Seq<Seq<char>> {
    strings.map_values(|s: String| s@)
}

/// Map from string keys to values of type `V`.
///
/// The view is the mathematical map from key text to value.
#[derive(Debug)]
pub struct StringMap<V> {
    keys: Vec<String>,
    values: Vec<V>,
}

impl<V> View for StringMap<V> {
    type V = Map<Seq<char>, V>;

    closed spec fn view(&self) -> Map<Seq<char>, V> {
        let ks = self.key_seq();
        Map::new(|k: Seq<char>| ks.contains(k), |k: Seq<char>| self.values@[ks.index_of(k)])
    }
}

impl<V> StringMap<V> {
    /// The keys, as text, in insertion order.
    pub closed spec fn key_seq(&self) -> Seq<Seq<char>> {
        texts(self.keys@)
    }

    #[verifier::type_invariant]
    spec fn inv(&self) -> bool {
        &&& self.keys@.len() == self.values@.len()
        &&& self.key_seq().no_duplicates()
    }

    /// The domain of the view is finite and has one element per entry.
    proof fn lemma_domain(&self)
        requires
            self.inv(),
        ensures
            self@.dom().finite(),
            self@.dom().len() == self.keys@.len(),
            self@.dom() == self.key_seq().to_set(),
    {
        let ks = self.key_seq();
        assert(self@.dom() =~= ks.to_set());
        ks.unique_seq_to_set();
    }

    /// At a valid position, the view maps the key to the value stored there.
    proof fn lemma_entry(&self, i: int)
        requires
            self.inv(),
            0 <= i < self.keys@.len(),
        ensures
            self@.contains_key(self.keys@[i]@),
            self@[self.keys@[i]@] == self.values@[i],
    {
        let ks = self.key_seq();
        assert(ks[i] == self.keys@[i]@);
        assert(ks.contains(ks[i]));
        let j = ks.index_of(ks[i]);
        assert(0 <= j < ks.len() && ks[j] == ks[i]);
    }

    /// The map holds a key exactly if the key is among its entries.
    pub proof fn lemma_keys(&self)
        ensures
            forall|k: Seq<char>| self@.contains_key(k) <==> self.key_seq().contains(k),
    {
    }

    /// An empty map.
    pub fn new() -> (r: Self)
        ensures
            r@ == Map::<Seq<char>, V>::empty(),
    {
        let r = StringMap { keys: Vec::new(), values: Vec::new() };
        assert(r@ =~= Map::<Seq<char>, V>::empty());
        r
    }

    /// Number of entries.
    pub fn len(&self) -> (n: usize)
        ensures
            self@.dom().finite(),
            n == self@.dom().len(),
            n == self.key_seq().len(),
    {
        proof {
            use_type_invariant(self);
            self.lemma_domain();
        }
        self.keys.len()
    }

    /// Position of `key` among the entries, if it is present.
    fn position(&self, key: &String) -> (r: Option<usize>)
        ensures
            match r {
                Some(i) => i < self.keys@.len() && self.keys@[i as int]@ == key@,
                None => !self.key_seq().contains(key@),
            },
    {
        let mut i: usize = 0;
        while i < self.keys.len()
            invariant
                i <= self.keys@.len(),
                forall|j: int| 0 <= j < i ==> self.key_seq()[j] != key@,
            decreases self.keys@.len() - i,
        {
            if self.keys[i] == *key {
                return Some(i);
            }
            i += 1;
        }
        None
    }

    /// Whether `key` has an entry.
    pub fn contains_key(&self, key: &String) -> (r: bool)
        ensures
            r == self@.contains_key(key@),
    {
        proof {
            use_type_invariant(self);
        }
        match self.position(key) {
            Some(i) => {
                proof {
                    self.lemma_entry(i as int);
                }
                true
            },
            None => false,
        }
    }

    /// The value stored under `key`, if any.
    pub fn get(&self, key: &String) -> (r: Option<&V>)
        ensures
            match r {
                Some(v) => self@.contains_key(key@) && *v == self@[key@],
                None => !self@.contains_key(key@),
            },
    {
        proof {
            use_type_invariant(self);
        }
        match self.position(key) {
            Some(i) => {
                proof {
                    self.lemma_entry(i as int);
                }
                Some(&self.values[i])
            },
            None => None,
        }
    }

    /// Stores `value` under `key`, replacing and returning any earlier value.
    pub fn insert(&mut self, key: String, value: V) -> (r: Option<V>)
        ensures
            final(self)@ == old(self)@.insert(key@, value),
            match r {
                Some(v) => old(self)@.contains_key(key@) && v == old(self)@[key@],
                None => !old(self)@.contains_key(key@),
            },
    {
        proof {
            use_type_invariant(&*self);
        }
        let found = self.position(&key);
        let ghost before = *self;
        let ghost ks0 = self.key_seq();
        let mut taken = StringMap::new();
        std::mem::swap(self, &mut taken);
        let StringMap { mut keys, mut values } = taken;
        match found {
            Some(i) => {
                proof {
                    before.lemma_entry(i as int);
                }
                let mut value = value;
                std::mem::swap(&mut values[i], &mut value);
                *self = StringMap { keys, values };
                proof {
                    assert(self.key_seq() == ks0);
                    assert(ks0[i as int] == key@);
                    assert(self@ =~= before@.insert(key@, self.values@[i as int]));
                }
                Some(value)
            },
            None => {
                keys.push(key);
                values.push(value);
                proof {
                    assert(texts(keys@) =~= ks0.push(key@));
                }
                *self = StringMap { keys, values };
                proof {
                    let ks = self.key_seq();
                    assert forall|k: Seq<char>| ks.contains(k) <==> (ks0.contains(k) || k == key@) by {
                        if ks.contains(k) {
                            let j = ks.index_of(k);
                            if j < ks0.len() {
                                assert(ks0[j] == k);
                            }
                        }
                        if ks0.contains(k) {
                            let j = ks0.index_of(k);
                            assert(ks[j] == k);
                        }
                        if k == key@ {
                            assert(ks[ks0.len() as int] == k);
                        }
                    }
                    assert forall|k: Seq<char>| ks.contains(k) implies self.values@[ks.index_of(k)]
                        == before@.insert(key@, value)[k] by {
                        let j = ks.index_of(k);
                        if k != key@ {
                            assert(ks0[j] == k);
                            let j0 = ks0.index_of(k);
                            assert(ks[j0] == k);
                        }
                    }
                    assert(self@ =~= before@.insert(key@, value));
                }
                None
            },
        }
    }

    /// The entry at position `i` in insertion order, if there are that many.
    pub fn entry(&self, i: usize) -> (r: Option<(&String, &V)>)
        ensures
            match r {
                Some((k, v)) => i < self.key_seq().len() && k@ == self.key_seq()[i as int]
                    && self@.contains_key(k@) && *v == self@[k@],
                None => i >= self.key_seq().len(),
            },
    {
        proof {
            use_type_invariant(self);
        }
        if i < self.keys.len() {
            proof {
                self.lemma_entry(i as int);
            }
            Some((&self.keys[i], &self.values[i]))
        } else {
            None
        }
    }
}

impl<V: Copy> Clone for StringMap<V> {
    fn clone(&self) -> (r: Self)
        ensures
            r@ == self@,
    {
        proof {
            use_type_invariant(self);
        }
        let mut keys: Vec<String> = Vec::new();
        let mut values: Vec<V> = Vec::new();
        let mut i: usize = 0;
        while i < self.keys.len()
            invariant
                i <= self.keys@.len(),
                self.keys@.len() == self.values@.len(),
                keys@.len() == i,
                values@.len() == i,
                forall|j: int| 0 <= j < i ==> keys@[j]@ == self.keys@[j]@,
                forall|j: int| 0 <= j < i ==> values@[j] == self.values@[j],
            decreases self.keys@.len() - i,
        {
            keys.push(self.keys[i].clone());
            values.push(self.values[i]);
            i += 1;
        }
        proof {
            assert(texts(keys@) =~= texts(self.keys@));
            assert(values@ =~= self.values@);
        }
        StringMap { keys, values }
    }
}

} // verus!
