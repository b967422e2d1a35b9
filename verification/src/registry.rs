//! A registry that hands out handles in registration order.

use vstd::prelude::*;

verus! {

/// The entries registered so far, in registration order. An entry's handle
/// is its position; removing an entry vacates its position, so a handle is
/// never handed out twice and the order of the others does not change.
pub struct Registry<X> {
    slots: Vec<Option<X>>,
}

impl<X> View for Registry<X> {
    type V = Seq<Option<X>>;

    /// Position by position, the entry registered there, or `None` where it
    /// has been removed.
    closed spec fn view(&self) -> Seq<Option<X>> {
        self.slots@
    }
}

impl<X: Copy> Registry<X> {
    /// A registry without entries.
    pub fn new() -> (registry: Self)
        ensures
            registry@ == Seq::<Option<X>>::empty(),
    {
        Registry { slots: Vec::new() }
    }

    /// The number of handles handed out so far.
    pub fn len(&self) -> (n: usize)
        ensures
            n == self@.len(),
    {
        self.slots.len()
    }

    /// Registers `entry` behind all earlier entries and returns its handle.
    pub fn add(&mut self, entry: X) -> (handle: usize)
        ensures
            handle == old(self)@.len(),
            final(self)@ == old(self)@.push(Some(entry)),
    {
        let handle = self.slots.len();
        self.slots.push(Some(entry));
        handle
    }

    /// The entry registered under `handle`, if it has not been removed.
    pub fn get(&self, handle: usize) -> (entry: Option<X>)
        ensures
            entry == if handle < self@.len() {
                self@[handle as int]
            } else {
                None
            },
    {
        if handle < self.slots.len() {
            self.slots[handle]
        } else {
            None
        }
    }

    /// Removes the entry registered under `handle`. A handle that holds no
    /// entry is left alone.
    pub fn remove(&mut self, handle: usize)
        ensures
            final(self)@ == if handle < old(self)@.len() {
                old(self)@.update(handle as int, None)
            } else {
                old(self)@
            },
    {
        if handle < self.slots.len() {
            self.slots[handle] = None;
        }
    }

    /// Puts `entry` in place of the entry registered under `handle`, and
    /// says whether there was one. A handle that holds no entry is left
    /// alone.
    pub fn replace(&mut self, handle: usize, entry: X) -> (replaced: bool)
        ensures
            replaced == (handle < old(self)@.len() && old(self)@[handle as int].is_some()),
            final(self)@ == if replaced {
                old(self)@.update(handle as int, Some(entry))
            } else {
                old(self)@
            },
    {
        if handle < self.slots.len() && self.slots[handle].is_some() {
            self.slots[handle] = Some(entry);
            true
        } else {
            false
        }
    }
}

} // verus!
