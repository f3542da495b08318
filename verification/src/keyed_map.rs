use vstd::prelude::*;
use crate::identity::Identity;

verus! {

/// What a key of a [`KeyedMap`] must offer: a mathematical model, a test
/// for equal models, and a copy with the same model.
pub trait Key: Sized {
    type Model;

    spec fn model(&self) -> Self::Model;

    fn matches(&self, other: &Self) -> (r: bool)
        ensures
            r == (self.model() == other.model()),
    ;

    fn replica(&self) -> (copy: Self)
        ensures
            copy.model() == self.model(),
    ;
}

impl Key for Identity {
    type Model = Seq<u8>;

    open spec fn model(&self) -> Seq<u8> {
        self@
    }

    fn matches(&self, other: &Identity) -> (r: bool) {
        self.same(other)
    }

    fn replica(&self) -> (copy: Identity) {
        self.clone()
    }
}

impl Key for String {
    type Model = Seq<char>;

    open spec fn model(&self) -> Seq<char> {
        self@
    }

    fn matches(&self, other: &String) -> (r: bool) {
        *self == *other
    }

    fn replica(&self) -> (copy: String) {
        self.clone()
    }
}

/// A finite map, kept as two parallel lists in which no key occurs twice.
/// Its view is the mathematical map from the keys' models to the values.
pub struct KeyedMap<K: Key, V> {
    keys: Vec<K>,
    values: Vec<V>,
}

impl<K: Key, V> KeyedMap<K, V> {
    /// Whether some key in the list has the model `key`.
    pub closed spec fn knows(&self, key: K::Model) -> bool {
        exists|i: int| 0 <= i < self.keys@.len() && self.keys@[i].model() == key
    }

    /// Where a key with the model `key` stands in the list.
    pub closed spec fn position(&self, key: K::Model) -> int {
        choose|i: int| 0 <= i < self.keys@.len() && self.keys@[i].model() == key
    }

    /// The map that the two lists stand for.
    pub closed spec fn view(&self) -> Map<K::Model, V> {
        Map::new(|k: K::Model| self.knows(k), |k: K::Model| self.values@[self.position(k)])
    }

    /// The lists have one length and no key occurs twice; the map is
    /// therefore finite.
    pub closed spec fn wf(&self) -> bool {
        &&& self.keys@.len() == self.values@.len()
        &&& forall|i: int, j: int|
            0 <= i < j < self.keys@.len() ==> self.keys@[i].model() != self.keys@[j].model()
        &&& self@.dom().finite()
    }

    /// The empty map.
    pub fn new() -> (m: KeyedMap<K, V>)
        ensures
            m.wf(),
            m@ == Map::<K::Model, V>::empty(),
    {
        let m = KeyedMap { keys: Vec::new(), values: Vec::new() };
        assert(m@ =~= Map::<K::Model, V>::empty());
        m
    }

    fn find(&self, key: &K) -> (r: Option<usize>)
        requires
            self.wf(),
        ensures
            match r {
                Some(i) => i < self.keys@.len() && self.keys@[i as int].model() == key.model()
                    && self.knows(key.model()) && self.position(key.model()) == i,
                None => !self.knows(key.model()),
            },
    {
        let mut i: usize = 0;
        while i < self.keys.len()
            invariant
                self.wf(),
                i <= self.keys@.len(),
                forall|j: int| 0 <= j < i ==> self.keys@[j].model() != key.model(),
            decreases self.keys@.len() - i,
        {
            if self.keys[i].matches(key) {
                assert(self.keys@[i as int].model() == key.model());
                return Some(i);
            }
            i += 1;
        }
        None
    }

    /// The value stored for `key`, if there is one.
    pub fn get(&self, key: &K) -> (r: Option<&V>)
        requires
            self.wf(),
        ensures
            r == if self@.contains_key(key.model()) {
                Some(&self@[key.model()])
            } else {
                None
            },
    {
        match self.find(key) {
            Some(i) => Some(&self.values[i]),
            None => None,
        }
    }

    /// Stores `value` for `key`, replacing what was stored for it before.
    pub fn insert(&mut self, key: &K, value: V)
        requires
            old(self).wf(),
        ensures
            final(self).wf(),
            final(self)@ == old(self)@.insert(key.model(), value),
    {
        let found = self.find(key);
        match found {
            Some(i) => {
                self.values.set(i, value);
                proof {
                    assert(self.keys@ == old(self).keys@);
                    assert forall|k: K::Model| self.knows(k) == old(self).knows(k) by {
                        if old(self).knows(k) {
                            let p = old(self).position(k);
                            assert(self.keys@[p].model() == k);
                        }
                        if self.knows(k) {
                            let p = self.position(k);
                            assert(old(self).keys@[p].model() == k);
                        }
                    }
                    assert forall|k: K::Model| self.knows(k) implies self.position(k)
                        == old(self).position(k) by {
                        let p = self.position(k);
                        let q = old(self).position(k);
                        assert(self.keys@[p].model() == k);
                        assert(old(self).keys@[q].model() == k);
                    }
                    assert(self@ =~= old(self)@.insert(key.model(), value));
                }
            },
            None => {
                let ghost n = self.keys@.len() as int;
                self.keys.push(key.replica());
                self.values.push(value);
                proof {
                    assert(self.keys@[n].model() == key.model());
                    assert forall|k: K::Model| self.knows(k) == (old(self).knows(k) || k
                        == key.model()) by {
                        if old(self).knows(k) {
                            let i = old(self).position(k);
                            assert(self.keys@[i].model() == k);
                        }
                    }
                    assert forall|k: K::Model| old(self).knows(k) implies self.position(k)
                        == old(self).position(k) by {
                        let i = old(self).position(k);
                        assert(self.keys@[i].model() == k);
                    }
                    assert(self.knows(key.model()));
                    assert(self.position(key.model()) == n);
                    assert(self@ =~= old(self)@.insert(key.model(), value));
                }
            },
        }
    }
}

} // verus!
