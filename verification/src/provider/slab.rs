//! A slab: values kept in numbered slots. A value is put in and found again
//! by the number of its slot, its handle; the slot of a value that was taken
//! out is used again.

use vstd::prelude::*;

verus! {

/// Values of any type, each under a handle of its own.
#[derive(Debug)]
pub struct Slab<V> {
    slots: Vec<Option<V>>,
    spare: Vec<usize>,
}

impl<V> View for Slab<V> {
    type V = Map<usize, V>;

    /// The values held, by handle.
    closed spec fn view(&self) -> Map<usize, V> {
        Map::new(
            |h: usize| h < self.slots@.len() && self.slots@[h as int].is_some(),
            |h: usize| self.slots@[h as int].unwrap(),
        )
    }
}

impl<V> Slab<V> {
    /// The spare handles are distinct, and each names an empty slot.
    pub closed spec fn wf(&self) -> bool {
        &&& self.spare@.no_duplicates()
        &&& forall|i: int|
            0 <= i < self.spare@.len() ==> (#[trigger] self.spare@[i]) < self.slots@.len()
                && self.slots@[self.spare@[i] as int].is_none()
    }

    /// An empty slab.
    pub fn new() -> (slab: Self)
        ensures
            slab.wf(),
            slab@ == Map::<usize, V>::empty(),
    {
        let slab = Slab { slots: Vec::new(), spare: Vec::new() };
        assert(slab@ =~= Map::<usize, V>::empty());
        slab
    }

    /// Puts `value` in and hands back its handle, one that held nothing.
    pub fn insert(&mut self, value: V) -> (handle: usize)
        requires
            old(self).wf(),
        ensures
            final(self).wf(),
            !old(self)@.contains_key(handle),
            final(self)@ == old(self)@.insert(handle, value),
    {
        match self.spare.pop() {
            Some(handle) => {
                assert(old(self).spare@[old(self).spare@.len() - 1] == handle);
                self.slots.set(handle, Some(value));
                assert(self@ =~= old(self)@.insert(handle, value));
                assert forall|i: int| 0 <= i < self.spare@.len() implies (
                #[trigger] self.spare@[i]) < self.slots@.len()
                    && self.slots@[self.spare@[i] as int].is_none() by {
                    assert(old(self).spare@[i] == self.spare@[i]);
                    assert(old(self).spare@[i] != old(self).spare@[old(self).spare@.len() - 1]);
                }
                handle
            },
            None => {
                let handle = self.slots.len();
                self.slots.push(Some(value));
                assert(self@ =~= old(self)@.insert(handle, value));
                handle
            },
        }
    }

    /// Takes the value under `handle` out.
    pub fn take(&mut self, handle: usize) -> (value: V)
        requires
            old(self).wf(),
            old(self)@.contains_key(handle),
        ensures
            final(self).wf(),
            value == old(self)@[handle],
            final(self)@ == old(self)@.remove(handle),
    {
        let mut slot: Option<V> = None;
        self.slots.set_and_swap(handle, &mut slot);
        self.spare.push(handle);
        assert(self@ =~= old(self)@.remove(handle));
        assert forall|i: int, j: int|
            0 <= i < self.spare@.len() && 0 <= j < self.spare@.len() && i != j implies self.spare@[i]
            != self.spare@[j] by {
            if i < old(self).spare@.len() {
                assert(old(self).spare@[i] == self.spare@[i]);
            }
            if j < old(self).spare@.len() {
                assert(old(self).spare@[j] == self.spare@[j]);
            }
        }
        assert forall|i: int| 0 <= i < self.spare@.len() implies (#[trigger] self.spare@[i])
            < self.slots@.len() && self.slots@[self.spare@[i] as int].is_none() by {
            if i < old(self).spare@.len() {
                assert(old(self).spare@[i] == self.spare@[i]);
            }
        }
        slot.unwrap()
    }

    /// The value under `handle`.
    pub fn get(&self, handle: usize) -> (value: &V)
        requires
            self@.contains_key(handle),
        ensures
            *value == self@[handle],
    {
        self.slots[handle].as_ref().unwrap()
    }

    /// Whether a value stands under `handle`.
    pub fn contains(&self, handle: usize) -> (held: bool)
        ensures
            held == self@.contains_key(handle),
    {
        handle < self.slots.len() && self.slots[handle].is_some()
    }
}

} // verus!
