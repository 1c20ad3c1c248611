//! Keyboard input state.

use vstd::prelude::*;
use crate::key::Key;

verus! {

/// The set of keys currently held down.
///
/// The keys are stored in a duplicate-free list; the view of an [`Input`]
/// is the set of its elements.
pub struct Input {
    keys: Vec<Key>,
}

impl Input {
    /// The set of keys currently down.
    pub closed spec fn view(self) -> Set<Key> {
        self.keys@.to_set()
    }

    /// Structural invariant: no key is listed twice.
    pub closed spec fn wf(self) -> bool {
        forall|i: int, j: int|
            0 <= i < j < self.keys@.len() ==> self.keys@[i] != self.keys@[j]
    }

    /// Creates an input state with no key down.
    pub fn new() -> (input: Input)
        ensures
            input.wf(),
            input.view() == Set::<Key>::empty(),
    {
        let input = Input { keys: Vec::new() };
        proof {
            assert(input.keys@.to_set() =~= Set::<Key>::empty());
        }
        input
    }

    /// Records that `key` went down.
    pub fn set_key(&mut self, key: Key)
        requires
            old(self).wf(),
        ensures
            final(self).wf(),
            final(self).view() == old(self).view().insert(key),
    {
        let mut found = false;
        let ghost original = self.keys@;
        for i in 0..self.keys.len()
            invariant
                self.keys@ == original,
                found <==> exists|j: int| 0 <= j < i && original[j] == key,
        {
            if self.keys[i] == key {
                found = true;
            }
        }
        if !found {
            self.keys.push(key);
            proof {
                assert(self.keys@.drop_last() == original);
                assert(self.keys@.to_set() =~= original.to_set().insert(key)) by {
                    assert forall|k: Key| self.keys@.to_set().contains(k)
                        implies original.to_set().insert(key).contains(k) by {
                        let j = choose|j: int| 0 <= j < self.keys@.len() && self.keys@[j] == k;
                        if j < original.len() {
                            assert(original[j] == k);
                        }
                    };
                    assert forall|k: Key| original.to_set().insert(key).contains(k)
                        implies self.keys@.to_set().contains(k) by {
                        if original.to_set().contains(k) {
                            let j = choose|j: int| 0 <= j < original.len() && original[j] == k;
                            assert(self.keys@[j] == k);
                        } else {
                            assert(self.keys@[self.keys@.len() - 1] == key);
                        }
                    };
                }
            }
        } else {
            proof {
                assert(self.keys@.to_set() =~= original.to_set().insert(key)) by {
                    let j = choose|j: int| 0 <= j < original.len() && original[j] == key;
                    assert(original.to_set().contains(key));
                }
            }
        }
    }

    /// Records that `key` went up.
    pub fn reset_key(&mut self, key: Key)
        requires
            old(self).wf(),
        ensures
            final(self).wf(),
            final(self).view() == old(self).view().remove(key),
    {
        let ghost original = self.keys@;
        let mut position: Option<usize> = None;
        for i in 0..self.keys.len()
            invariant
                self.keys@ == original,
                match position {
                    Some(p) => p < i && original[p as int] == key,
                    None => forall|j: int| 0 <= j < i ==> original[j] != key,
                },
        {
            if self.keys[i] == key {
                position = Some(i);
            }
        }
        match position {
            Some(p) => {
                self.keys.swap_remove(p);
                proof {
                    let after = self.keys@;
                    assert(after.to_set() =~= original.to_set().remove(key)) by {
                        assert forall|k: Key| after.to_set().contains(k)
                            implies original.to_set().remove(key).contains(k) by {
                            let j = choose|j: int| 0 <= j < after.len() && after[j] == k;
                            if j == p && p < after.len() {
                                assert(original[original.len() - 1] == k);
                            } else {
                                assert(original[j] == k);
                            }
                            assert(k != key);
                        };
                        assert forall|k: Key| original.to_set().remove(key).contains(k)
                            implies after.to_set().contains(k) by {
                            let j = choose|j: int| 0 <= j < original.len() && original[j] == k;
                            if j == original.len() - 1 {
                                if p < after.len() {
                                    assert(after[p as int] == k);
                                } else {
                                    assert(j == p);
                                }
                            } else {
                                assert(after[j] == k);
                            }
                        };
                    }
                }
            },
            None => {
                proof {
                    assert(self.keys@.to_set() =~= original.to_set().remove(key)) by {
                        if original.to_set().contains(key) {
                            let j = choose|j: int| 0 <= j < original.len() && original[j] == key;
                        }
                    }
                }
            },
        }
    }

    /// Reports whether `key` is currently down.
    pub fn is_key_down(&self, key: Key) -> (down: bool)
        ensures
            down == self.view().contains(key),
    {
        let mut found = false;
        for i in 0..self.keys.len()
            invariant
                found <==> exists|j: int| 0 <= j < i && self.keys@[j] == key,
        {
            if self.keys[i] == key {
                found = true;
            }
        }
        proof {
            if found {
                let j = choose|j: int| 0 <= j < self.keys@.len() && self.keys@[j] == key;
                assert(self.keys@.to_set().contains(key));
            } else {
                if self.keys@.to_set().contains(key) {
                    let j = choose|j: int| 0 <= j < self.keys@.len() && self.keys@[j] == key;
                }
            }
        }
        found
    }
}

} // verus!
