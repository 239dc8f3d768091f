use vstd::prelude::*;

use crate::types::{bytes_eq, copy_bytes};

verus! {

/// Values stored under byte-string keys, each key at most once, as a
/// contract's storage keeps them.
pub struct ByteKeyMap<V: View> {
    entries: Vec<(Vec<u8>, V)>,
    contents: Ghost<Map<Seq<u8>, V::V>>,
}

impl<V: View> View for ByteKeyMap<V> {
    type V = Map<Seq<u8>, V::V>;

    closed spec fn view(&self) -> Map<Seq<u8>, V::V> {
        self.contents@
    }
}

impl<V: View> ByteKeyMap<V> {
    /// The key of the `i`-th entry.
    closed spec fn key_at(self, i: int) -> Seq<u8> {
        self.entries@[i].0@
    }

    /// Each key occurs once, and the entries are exactly the contents.
    pub closed spec fn wf(self) -> bool {
        &&& forall|i: int, j: int|
            #![trigger self.key_at(i), self.key_at(j)]
            0 <= i < self.entries@.len() && 0 <= j < self.entries@.len() && self.key_at(i)
                == self.key_at(j) ==> i == j
        &&& forall|i: int|
            0 <= i < self.entries@.len() ==> {
                &&& self.contents@.contains_key(#[trigger] self.key_at(i))
                &&& self.contents@[self.key_at(i)] == self.entries@[i].1@
            }
        &&& forall|k: Seq<u8>|
            #[trigger] self.contents@.contains_key(k) ==> exists|i: int|
                0 <= i < self.entries@.len() && #[trigger] self.key_at(i) == k
    }

    /// An empty map.
    pub fn new() -> (r: Self)
        ensures
            r.wf(),
            r@ == Map::<Seq<u8>, V::V>::empty(),
    {
        ByteKeyMap { entries: Vec::new(), contents: Ghost(Map::empty()) }
    }

    /// The position of the entry stored under `key`, if any.
    fn find(&self, key: &[u8]) -> (r: Option<usize>)
        requires
            self.wf(),
        ensures
            match r {
                Some(i) => i < self.entries@.len() && self.key_at(i as int) == key@,
                None => !self@.contains_key(key@),
            },
    {
        let mut i: usize = 0;
        while i < self.entries.len()
            invariant
                self.wf(),
                i <= self.entries@.len(),
                forall|j: int| 0 <= j < i ==> #[trigger] self.key_at(j) != key@,
            decreases self.entries@.len() - i,
        {
            if bytes_eq(self.entries[i].0.as_slice(), key) {
                return Some(i);
            }
            i = i + 1;
        }
        None
    }

    /// The value stored under `key`, if any.
    pub fn get(&self, key: &[u8]) -> (r: Option<&V>)
        requires
            self.wf(),
        ensures
            match r {
                Some(v) => self@.contains_key(key@) && self@[key@] == v@,
                None => !self@.contains_key(key@),
            },
    {
        match self.find(key) {
            Some(i) => Some(&self.entries[i].1),
            None => None,
        }
    }

    /// Stores `value` under `key`, replacing what was stored there.
    pub fn insert(&mut self, key: &[u8], value: V)
        requires
            old(self).wf(),
        ensures
            final(self).wf(),
            final(self)@ == old(self)@.insert(key@, value@),
    {
        let ghost old_map = self.contents@;
        let ghost v = value@;
        let found = self.find(key);
        match found {
            Some(i) => {
                let stored_key = copy_bytes(key);
                self.entries.set(i, (stored_key, value));
            },
            None => {
                let stored_key = copy_bytes(key);
                self.entries.push((stored_key, value));
            },
        }
        self.contents = Ghost(old_map.insert(key@, v));
        let ghost n = self.entries@.len();
        assert forall|i: int| 0 <= i < n implies #[trigger] self.key_at(i) == (if i < old(self).entries@.len() {
            old(self).key_at(i)
        } else {
            key@
        }) by {
            match found {
                Some(f) => {
                    if i == f as int {
                    } else {
                        assert(self.entries@[i] == old(self).entries@[i]);
                    }
                },
                None => {
                    if i < old(self).entries@.len() {
                        assert(self.entries@[i] == old(self).entries@[i]);
                    }
                },
            }
        }
        assert forall|i: int, j: int|
            #![trigger self.key_at(i), self.key_at(j)]
            0 <= i < n && 0 <= j < n && self.key_at(i) == self.key_at(j) implies i == j by {
            match found {
                Some(f) => {
                    assert(self.key_at(i) == old(self).key_at(i));
                    assert(self.key_at(j) == old(self).key_at(j));
                },
                None => {
                    if i < old(self).entries@.len() && j < old(self).entries@.len() {
                        assert(self.key_at(i) == old(self).key_at(i));
                        assert(self.key_at(j) == old(self).key_at(j));
                    } else if i < old(self).entries@.len() {
                        assert(self.key_at(i) == old(self).key_at(i));
                        assert(old_map.contains_key(old(self).key_at(i)));
                    } else if j < old(self).entries@.len() {
                        assert(self.key_at(j) == old(self).key_at(j));
                        assert(old_map.contains_key(old(self).key_at(j)));
                    }
                },
            }
        }
        assert forall|i: int| 0 <= i < n implies {
            &&& self.contents@.contains_key(#[trigger] self.key_at(i))
            &&& self.contents@[self.key_at(i)] == self.entries@[i].1@
        } by {
            match found {
                Some(f) => {
                    if i != f as int {
                        assert(self.entries@[i] == old(self).entries@[i]);
                        assert(old(self).key_at(i) != old(self).key_at(f as int));
                    }
                },
                None => {
                    if i < old(self).entries@.len() {
                        assert(self.entries@[i] == old(self).entries@[i]);
                        assert(old_map.contains_key(old(self).key_at(i)));
                    }
                },
            }
        }
        assert forall|k: Seq<u8>| #[trigger] self.contents@.contains_key(k) implies exists|i: int|
            0 <= i < self.entries@.len() && #[trigger] self.key_at(i) == k by {
            if k == key@ {
                match found {
                    Some(i) => {
                        assert(self.key_at(i as int) == k);
                    },
                    None => {
                        assert(self.key_at(self.entries@.len() - 1) == k);
                    },
                }
            } else {
                assert(old_map.contains_key(k));
                let j = choose|j: int| 0 <= j < old(self).entries@.len() && #[trigger] old(self).key_at(j) == k;
                assert(self.key_at(j) == k);
            }
        }
    }
}

} // verus!
