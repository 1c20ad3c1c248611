//! Generational slot table.
//!
//! A [`SlotList`] hands out [`Key`]s that stay valid until the stored value
//! is removed. Every removal bumps the slot's generation counter, so a key
//! issued earlier can never resolve to a value stored later in the same
//! slot: a stale key degrades to "absent" instead of aliasing.

use vstd::prelude::*;

verus! {

/// A handle into a [`SlotList`]: a slot index paired with the generation the
/// slot had when the handle was issued.
#[derive(Debug, Copy, Clone, Eq, PartialEq, Hash, Structural)]
pub struct Key {
    index: usize,
    generation: usize,
}

impl Key {
    /// Builds a key from its two components.
    pub fn new(index: usize, generation: usize) -> (k: Key)
        ensures
            k.spec_index() == index,
            k.spec_generation() == generation,
    {
        Key { index, generation }
    }

    /// The slot index this key points at.
    pub closed spec fn spec_index(self) -> int {
        self.index as int
    }

    /// The generation the slot had when this key was issued.
    pub closed spec fn spec_generation(self) -> int {
        self.generation as int
    }
}

/// A growable table of value slots with per-slot generation counters and a
/// free list of reusable indices.
pub struct SlotList<T> {
    items: Vec<Option<T>>,
    generations: Vec<usize>,
    empty: Vec<usize>,
}

impl<T> SlotList<T> {
    /// Number of slots ever allocated (live, vacant and retired alike).
    pub closed spec fn slot_count(self) -> int {
        self.items@.len() as int
    }

    /// Current generation of slot `i`.
    pub closed spec fn generation_of(self, i: int) -> int {
        self.generations@[i] as int
    }

    /// The value the table holds for `key`: the stored item when the key's
    /// index is in range and its generation matches the slot, absent
    /// otherwise.
    pub closed spec fn spec_get(self, key: Key) -> Option<T> {
        if 0 <= key.spec_index() < self.items@.len()
            && self.generations@[key.spec_index()] == key.spec_generation() {
            self.items@[key.spec_index()]
        } else {
            None
        }
    }

    /// Structural invariant: the generation list parallels the item list and
    /// the free list holds distinct, in-range indices of vacant slots whose
    /// generation can still be bumped.
    pub closed spec fn wf(self) -> bool {
        &&& self.generations@.len() == self.items@.len()
        &&& forall|k: int| 0 <= k < self.empty@.len() ==> {
            &&& #[trigger] self.empty@[k] < self.items@.len()
            &&& self.items@[self.empty@[k] as int] is None
            &&& self.generations@[self.empty@[k] as int] < usize::MAX
        }
        &&& forall|j: int, k: int|
            0 <= j < k < self.empty@.len() ==> self.empty@[j] != self.empty@[k]
    }

    /// Creates an empty table.
    pub fn new() -> (s: SlotList<T>)
        ensures
            s.wf(),
            s.slot_count() == 0,
            forall|k: Key| #[trigger] s.spec_get(k) is None,
    {
        SlotList { items: Vec::new(), generations: Vec::new(), empty: Vec::new() }
    }

    /// Inserts the item into this SlotList and returns a Key to it.
    ///
    /// A vacant slot is reused when one is available (its generation counter
    /// bumped by one, so earlier keys to it stay stale); otherwise a fresh
    /// slot is appended at generation zero.
    pub fn insert(&mut self, item: T) -> (k: Key)
        requires
            old(self).wf(),
        ensures
            final(self).wf(),
            final(self).spec_get(k) == Some(item),
            old(self).spec_get(k) is None,
            forall|k2: Key| k2 != k ==> final(self).spec_get(k2) == old(self).spec_get(k2),
            0 <= k.spec_index() < final(self).slot_count(),
            final(self).generation_of(k.spec_index()) == k.spec_generation(),
            k.spec_index() < old(self).slot_count() ==> {
                &&& k.spec_generation() == old(self).generation_of(k.spec_index()) + 1
                &&& final(self).slot_count() == old(self).slot_count()
            },
            k.spec_index() == old(self).slot_count() ==> {
                &&& k.spec_generation() == 0
                &&& final(self).slot_count() == old(self).slot_count() + 1
            },
            k.spec_index() <= old(self).slot_count(),
            forall|i: int|
                0 <= i < old(self).slot_count() && i != k.spec_index()
                    ==> final(self).generation_of(i) == old(self).generation_of(i),
    {
        if let Some(index) = self.empty.pop() {
            let generation = self.generations[index] + 1;
            self.items.set(index, Some(item));
            self.generations.set(index, generation);
            Key::new(index, generation)
        } else {
            let index = self.items.len();
            self.items.push(Some(item));
            self.generations.push(0);
            Key::new(index, 0)
        }
    }

    /// Removes the item stored for `key`, if the key is still current, and
    /// returns it; the key is invalidated by bumping the slot's generation.
    /// A stale or out-of-range key is a no-op that returns absent.
    ///
    /// A slot whose generation counter cannot be bumped any further is
    /// retired: its item is removed but the slot is never reused, so stale
    /// keys can still never alias a later value.
    pub fn remove(&mut self, key: Key) -> (r: Option<T>)
        requires
            old(self).wf(),
        ensures
            final(self).wf(),
            r == old(self).spec_get(key),
            final(self).spec_get(key) is None,
            forall|k2: Key| k2 != key ==> final(self).spec_get(k2) == old(self).spec_get(k2),
            final(self).slot_count() == old(self).slot_count(),
            r is Some && key.spec_generation() < usize::MAX
                ==> final(self).generation_of(key.spec_index()) == key.spec_generation() + 1,
            forall|i: int|
                0 <= i < old(self).slot_count()
                    ==> final(self).generation_of(i) >= old(self).generation_of(i),
            forall|i: int|
                0 <= i < old(self).slot_count() && i != key.spec_index()
                    ==> final(self).generation_of(i) == old(self).generation_of(i),
    {
        if key.index >= self.items.len() {
            return None;
        }
        if self.generations[key.index] != key.generation {
            return None;
        }
        let slot = &mut self.items[key.index];
        let taken = slot.take();
        if taken.is_none() {
            proof {
                assert(self.items@ =~= old(self).items@);
            }
            return None;
        }
        if key.generation < usize::MAX {
            let bumped = key.generation + 1;
            self.generations.set(key.index, bumped);
            if bumped < usize::MAX {
                self.empty.push(key.index);
            }
        }
        taken
    }

    /// Returns a reference to the item stored for `key`, or absent when the
    /// key is stale or out of range.
    pub fn get(&self, key: Key) -> (r: Option<&T>)
        requires
            self.wf(),
        ensures
            r is Some <==> self.spec_get(key) is Some,
            r is Some ==> Some(*r.unwrap()) == self.spec_get(key),
    {
        if key.index >= self.items.len() {
            return None;
        }
        if self.generations[key.index] != key.generation {
            return None;
        }
        match &self.items[key.index] {
            Some(item) => Some(item),
            None => None,
        }
    }

    /// Returns a mutable reference to the item stored for `key`, or absent
    /// when the key is stale or out of range.
    pub fn get_mut(&mut self, key: Key) -> (r: Option<&mut T>)
        requires
            old(self).wf(),
        ensures
            r is Some <==> old(self).spec_get(key) is Some,
            final(self).wf(),
            final(self).slot_count() == old(self).slot_count(),
            forall|i: int|
                0 <= i < old(self).slot_count()
                    ==> final(self).generation_of(i) == old(self).generation_of(i),
            forall|k2: Key| k2 != key ==> final(self).spec_get(k2) == old(self).spec_get(k2),
            r is None ==> forall|k2: Key|
                final(self).spec_get(k2) == old(self).spec_get(k2),
            r is Some ==> {
                &&& Some(*r.unwrap()) == old(self).spec_get(key)
                &&& final(self).spec_get(key) == Some(*final(r.unwrap()))
            },
    {
        if key.index >= self.items.len() {
            return None;
        }
        if self.generations[key.index] != key.generation {
            return None;
        }
        if self.items[key.index].is_some() {
            let slot = &mut self.items[key.index];
            slot.as_mut()
        } else {
            None
        }
    }
}

/// Handle safety: once a handle `h` has been removed from a table, lookups
/// with `h` stay absent even after a later insert reuses the same slot
/// index. The hypotheses are exactly what [`SlotList::remove`] (taking the
/// table from `s0` to `s1`) and [`SlotList::insert`] (taking `s1` to `s2`
/// and returning `k`) guarantee.
pub proof fn lemma_handle_safety<T>(
    s0: SlotList<T>,
    h: Key,
    s1: SlotList<T>,
    s2: SlotList<T>,
    k: Key,
    item: T,
)
    requires
        s0.spec_get(h) is Some,
        s1.spec_get(h) is None,
        s1.slot_count() == s0.slot_count(),
        forall|i: int|
            0 <= i < s0.slot_count() ==> s1.generation_of(i) >= s0.generation_of(i),
        s2.spec_get(k) == Some(item),
        forall|k2: Key| k2 != k ==> s2.spec_get(k2) == s1.spec_get(k2),
        k.spec_index() <= s1.slot_count(),
        k.spec_index() < s1.slot_count()
            ==> k.spec_generation() == s1.generation_of(k.spec_index()) + 1,
    ensures
        s2.spec_get(h) is None,
{
    if k == h {
        assert(0 <= h.spec_index() < s0.slot_count());
        assert(s0.generation_of(h.spec_index()) == h.spec_generation());
        assert(k.spec_generation() >= h.spec_generation() + 1);
    }
}

/// Generation monotonicity: inserting at a reused slot and then removing
/// the returned key strictly increases that slot's generation (by one for
/// the insert and one more for the remove). The hypotheses are what
/// [`SlotList::insert`] (taking `s0` to `s1`, returning `k`) and a
/// successful [`SlotList::remove`] of `k` (taking `s1` to `s2`) guarantee;
/// a slot whose generation counter is exhausted is retired instead, so the
/// cycle is stated for keys below the counter's ceiling.
pub proof fn lemma_generation_cycle<T>(s0: SlotList<T>, s1: SlotList<T>, k: Key, s2: SlotList<T>)
    requires
        0 <= k.spec_index() <= s0.slot_count(),
        s1.generation_of(k.spec_index()) == k.spec_generation(),
        k.spec_index() < s0.slot_count()
            ==> k.spec_generation() == s0.generation_of(k.spec_index()) + 1,
        k.spec_index() == s0.slot_count() ==> k.spec_generation() == 0,
        k.spec_generation() < usize::MAX,
        s2.generation_of(k.spec_index()) == k.spec_generation() + 1,
    ensures
        s2.generation_of(k.spec_index()) > s1.generation_of(k.spec_index()),
        k.spec_index() < s0.slot_count()
            ==> s2.generation_of(k.spec_index()) == s0.generation_of(k.spec_index()) + 2,
{
}

} // verus!
