//! The set of keys that are down.

use vstd::prelude::*;
use crate::key::Key;

verus! {

/// The keys that are currently held down, modifier keys included.
///
/// It is a set: a key is in it or not, however often it was pressed, and
/// the keys have no order.
pub struct HeldKeys {
    keys: Vec<Key>,
}

impl View for HeldKeys {
    type V = Set<Key>;

    closed spec fn view(&self) -> Set<Key> {
        self.keys@.to_set()
    }
}

impl HeldKeys {
    /// No key is stored twice.
    #[verifier::type_invariant]
    spec fn distinct(&self) -> bool {
        self.keys@.no_duplicates()
    }

    /// The empty set: no key is down.
    pub fn new() -> (held: HeldKeys)
        ensures
            held@ == Set::<Key>::empty(),
    {
        let held = HeldKeys { keys: Vec::new() };
        held
    }

    /// Where `key` is stored, if it is.
    fn position(&self, key: Key) -> (at: Option<usize>)
        ensures
            match at {
                Some(i) => i < self.keys@.len() && self.keys@[i as int] == key,
                None => !self.keys@.contains(key),
            },
    {
        let mut i: usize = 0;
        while i < self.keys.len()
            invariant
                i <= self.keys@.len(),
                forall|j: int| 0 <= j < i ==> self.keys@[j] != key,
            decreases self.keys@.len() - i,
        {
            if self.keys[i] == key {
                return Some(i);
            }
            i += 1;
        }
        None
    }

    /// Whether `key` is down.
    pub fn contains(&self, key: &Key) -> (held: bool)
        ensures
            held == self@.contains(*key),
    {
        self.position(*key).is_some()
    }

    /// Records that `key` went down. Pressing a key that is already down
    /// changes nothing.
    pub fn insert(&mut self, key: Key)
        ensures
            final(self)@ == old(self)@.insert(key),
    {
        proof {
            use_type_invariant(&*self);
        }
        if self.position(key).is_none() {
            let mut keys: Vec<Key> = Vec::new();
            std::mem::swap(&mut keys, &mut self.keys);
            keys.push(key);
            self.keys = keys;
            assert(self.keys@.to_set() =~= old(self).keys@.to_set().insert(key)) by {
                assert forall|k: Key| self.keys@.contains(k) <==> (old(self).keys@.contains(k) || k == key) by {
                    if old(self).keys@.contains(k) {
                        let i = choose|i: int| 0 <= i < old(self).keys@.len() && old(self).keys@[i] == k;
                        assert(self.keys@[i] == k);
                    }
                    if k == key {
                        assert(self.keys@[self.keys@.len() - 1] == k);
                    }
                }
            }
        }
    }

    /// Records that `key` went up. Releasing a key that is not down changes
    /// nothing.
    pub fn remove(&mut self, key: &Key)
        ensures
            final(self)@ == old(self)@.remove(*key),
    {
        proof {
            use_type_invariant(&*self);
        }
        match self.position(*key) {
            Some(i) => {
                let mut keys: Vec<Key> = Vec::new();
                std::mem::swap(&mut keys, &mut self.keys);
                keys.remove(i);
                self.keys = keys;
                assert(self.keys@.to_set() =~= old(self).keys@.to_set().remove(*key)) by {
                    let before = old(self).keys@;
                    let after = self.keys@;
                    assert forall|k: Key| after.contains(k) <==> (before.contains(k) && k != *key) by {
                        if before.contains(k) && k != *key {
                            let j = choose|j: int| 0 <= j < before.len() && before[j] == k;
                            if j < i {
                                assert(after[j] == k);
                            } else {
                                assert(after[j - 1] == k);
                            }
                        }
                    }
                }
            },
            None => {},
        }
    }

    /// How many keys are down.
    pub fn len(&self) -> (n: usize)
        ensures
            n == self@.len(),
            self@.finite(),
    {
        proof {
            use_type_invariant(self);
            self.keys@.unique_seq_to_set();
        }
        self.keys.len()
    }
}

} // verus!
