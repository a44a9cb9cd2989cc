//! A small map from byte strings to plain values, standing for the keyed
//! storage of a contract.

use vstd::prelude::*;
use crate::text::bytes_equal;

verus! {

/// Index of `key` among `keys`, where it occurs.
pub open spec fn position(keys: Seq<Vec<u8>>, key: Seq<u8>) -> int {
    choose|i: int| 0 <= i < keys.len() && (#[trigger] keys[i])@ == key
}

/// `key` occurs among `keys`.
pub open spec fn present(keys: Seq<Vec<u8>>, key: Seq<u8>) -> bool {
    exists|i: int| 0 <= i < keys.len() && (#[trigger] keys[i])@ == key
}

/// No two of `keys` are equal.
pub open spec fn distinct(keys: Seq<Vec<u8>>) -> bool {
    forall|i: int, j: int|
        0 <= i < keys.len() && 0 <= j < keys.len() && i != j ==> (#[trigger] keys[i])@ != (
        #[trigger] keys[j])@
}

/// A finite map from byte strings to values of `V`.
pub struct ByteMap<V> {
    keys: Vec<Vec<u8>>,
    values: Vec<V>,
}

impl<V> View for ByteMap<V> {
    type V = Map<Seq<u8>, V>;

    closed spec fn view(&self) -> Map<Seq<u8>, V> {
        Map::new(
            |key: Seq<u8>| present(self.keys@, key),
            |key: Seq<u8>| self.values@[position(self.keys@, key)],
        )
    }
}

impl<V: Copy> ByteMap<V> {
    /// Keys and values pair up, and no key is stored twice.
    pub closed spec fn wf(&self) -> bool {
        self.keys@.len() == self.values@.len() && distinct(self.keys@)
    }

    /// In a well-formed map the key at index `i` maps to the value at `i`.
    proof fn lemma_entry(&self, i: int)
        requires
            self.wf(),
            0 <= i < self.keys@.len(),
        ensures
            self@.dom().contains(self.keys@[i]@),
            self@[self.keys@[i]@] == self.values@[i],
            position(self.keys@, self.keys@[i]@) == i,
    {
        let key = self.keys@[i]@;
        assert(present(self.keys@, key));
        let p = position(self.keys@, key);
        assert(0 <= p < self.keys@.len() && self.keys@[p]@ == key);
    }

    /// The empty map.
    pub fn new() -> (map: Self)
        ensures
            map.wf(),
            map@ == Map::<Seq<u8>, V>::empty(),
    {
        let map = ByteMap { keys: Vec::new(), values: Vec::new() };
        assert(map@ =~= Map::<Seq<u8>, V>::empty());
        map
    }

    fn find(&self, key: &[u8]) -> (found: Option<usize>)
        requires
            self.wf(),
        ensures
            match found {
                Some(i) => i < self.keys@.len() && self.keys@[i as int]@ == key@,
                None => !present(self.keys@, key@),
            },
    {
        let mut i: usize = 0;
        while i < self.keys.len()
            invariant
                i <= self.keys.len(),
                forall|k: int| 0 <= k < i ==> (#[trigger] self.keys@[k])@ != key@,
            decreases self.keys.len() - i,
        {
            if bytes_equal(self.keys[i].as_slice(), key) {
                return Some(i);
            }
            i += 1;
        }
        None
    }

    /// The value stored under `key`, if any.
    pub fn get(&self, key: &[u8]) -> (value: Option<V>)
        requires
            self.wf(),
        ensures
            value == if self@.dom().contains(key@) {
                Some(self@[key@])
            } else {
                None
            },
    {
        match self.find(key) {
            Some(i) => {
                proof {
                    self.lemma_entry(i as int);
                }
                Some(self.values[i])
            },
            None => None,
        }
    }

    /// Stores `value` under `key`, replacing what was there.
    pub fn set(&mut self, key: &[u8], value: V)
        requires
            old(self).wf(),
        ensures
            final(self).wf(),
            final(self)@ == old(self)@.insert(key@, value),
    {
        match self.find(key) {
            Some(i) => {
                self.values.set(i, value);
                proof {
                    assert forall|k: Seq<u8>| #[trigger] self@.dom().contains(k) implies self@[k]
                        == old(self)@.insert(key@, value)[k] by {
                        let p = position(self.keys@, k);
                        if k == key@ {
                            self.lemma_entry(i as int);
                        } else {
                            assert(self.keys@[p]@ == k);
                        }
                    }
                    assert(self@ =~= old(self)@.insert(key@, value));
                }
            },
            None => {
                let mut copy: Vec<u8> = Vec::new();
                let mut i: usize = 0;
                while i < key.len()
                    invariant
                        i <= key.len(),
                        copy@ == key@.take(i as int),
                    decreases key.len() - i,
                {
                    copy.push(key[i]);
                    assert(key@.take(i as int).push(key@[i as int]) =~= key@.take(i + 1));
                    i += 1;
                }
                assert(key@.take(key@.len() as int) =~= key@);
                self.keys.push(copy);
                self.values.push(value);
                proof {
                    let last = old(self).keys@.len() as int;
                    assert(self.keys@[last]@ == key@);
                    assert(distinct(self.keys@)) by {
                        assert forall|a: int, b: int|
                            0 <= a < self.keys@.len() && 0 <= b < self.keys@.len() && a
                                != b implies (#[trigger] self.keys@[a])@ != (
                        #[trigger] self.keys@[b])@ by {
                            if a < last && b < last {
                                assert(self.keys@[a] == old(self).keys@[a]);
                                assert(self.keys@[b] == old(self).keys@[b]);
                            } else if a < last {
                                assert(self.keys@[a] == old(self).keys@[a]);
                            } else {
                                assert(self.keys@[b] == old(self).keys@[b]);
                            }
                        }
                    }
                    assert forall|k: Seq<u8>| #[trigger]
                        old(self)@.insert(key@, value).dom().contains(k) implies self@.dom().contains(
                        k,
                    ) && self@[k] == old(self)@.insert(key@, value)[k] by {
                        if k == key@ {
                            self.lemma_entry(last);
                        } else {
                            let p = position(old(self).keys@, k);
                            assert(old(self).keys@[p]@ == k);
                            assert(self.keys@[p] == old(self).keys@[p]);
                            self.lemma_entry(p);
                        }
                    }
                    assert forall|k: Seq<u8>| #[trigger] self@.dom().contains(k) implies old(
                        self,
                    )@.insert(key@, value).dom().contains(k) by {
                        let p = position(self.keys@, k);
                        assert(self.keys@[p]@ == k);
                        if p < last {
                            assert(self.keys@[p] == old(self).keys@[p]);
                            assert(present(old(self).keys@, k));
                        }
                    }
                    assert(self@ =~= old(self)@.insert(key@, value));
                }
            },
        }
    }
}

} // verus!
