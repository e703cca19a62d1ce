//! One storage cell of a rack: an exclusivity flag and room for one value.

use vstd::prelude::*;

verus! {

/// A storage cell that is either free or held.
///
/// The flag is kept in a machine word, so that a slot is aligned to the word
/// size and its footprint is a multiple of it.
pub struct Slot<T> {
    holders: usize,
    storage: Option<T>,
}

impl<T> Slot<T> {
    /// What the slot holds: `Some` of the live value, or `None` while free.
    pub closed spec fn value(&self) -> Option<T> {
        self.storage
    }

    /// The exclusivity flag: whether a handle holds this slot.
    pub closed spec fn is_held(&self) -> bool {
        self.holders != 0
    }

    /// The flag and the storage agree: the slot stores a live value exactly
    /// while it is held, and it never has more than one holder.
    pub closed spec fn wf(&self) -> bool {
        &&& self.holders <= 1
        &&& self.holders == 1 <==> self.storage is Some
    }

    /// In a well-formed slot the flag says whether a value is stored.
    pub proof fn lemma_held_iff_stored(&self)
        requires
            self.wf(),
        ensures
            self.is_held() <==> self.value() is Some,
    {
    }

    /// A free slot.
    pub fn free() -> (slot: Self)
        ensures
            slot.wf(),
            !slot.is_held(),
            slot.value() is None,
    {
        Slot { holders: 0, storage: None }
    }

    /// Reads the exclusivity flag.
    pub fn held(&self) -> (held: bool)
        ensures
            held == self.is_held(),
    {
        self.holders != 0
    }

    /// Takes the slot for `value` if it is free. A held slot is left as it is
    /// and the value is handed back.
    pub fn try_acquire(&mut self, value: T) -> (rejected: Option<T>)
        requires
            old(self).wf(),
        ensures
            final(self).wf(),
            old(self).is_held() ==> rejected == Some(value) && *final(self) == *old(self),
            !old(self).is_held() ==> {
                &&& rejected is None
                &&& final(self).is_held()
                &&& final(self).value() == Some(value)
            },
    {
        if self.holders != 0 {
            Some(value)
        } else {
            self.storage = Some(value);
            self.holders = 1;
            None
        }
    }

    /// Frees the slot and hands out what it stored: the value of a held slot,
    /// nothing from a free one.
    pub fn take(&mut self) -> (value: Option<T>)
        requires
            old(self).wf(),
        ensures
            value == old(self).value(),
            final(self).wf(),
            !final(self).is_held(),
            final(self).value() is None,
    {
        self.holders = 0;
        self.storage.take()
    }

    /// Destroys the stored value, if there is one, and frees the slot.
    pub fn release(&mut self)
        requires
            old(self).wf(),
        ensures
            final(self).wf(),
            !final(self).is_held(),
            final(self).value() is None,
    {
        self.storage = None;
        self.holders = 0;
    }

    /// The value of a held slot.
    pub fn get(&self) -> (value: &T)
        requires
            self.wf(),
            self.is_held(),
        ensures
            self.value() == Some(*value),
    {
        self.storage.as_ref().unwrap()
    }

    /// The value of a held slot, for writing. The slot stays held, and stores
    /// whatever the caller leaves behind the reference.
    pub fn get_mut(&mut self) -> (value: &mut T)
        requires
            old(self).wf(),
            old(self).is_held(),
        ensures
            old(self).value() == Some(*value),
            final(self).wf(),
            final(self).is_held(),
            final(self).value() == Some(*final(value)),
    {
        self.storage.as_mut().unwrap()
    }
}

} // verus!
