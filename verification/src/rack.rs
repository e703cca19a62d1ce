//! The rack, a fixed number of slots, and the unit, the handle to one held
//! slot.

use vstd::prelude::*;
use core::marker::PhantomData;
use crate::data_array::{all_vacant, init};
use crate::error::AddUnitError;
use crate::model::{
    after_add, after_release, all_free, is_full, is_lowest_free, lemma_lowest_free,
};
use crate::slot::Slot;

verus! {

/// A pool that stores values in its own slots and hands out a [`Unit`] for
/// each.
pub trait Rack<T> {
    /// What each slot holds, by index.
    spec fn slots(&self) -> Seq<Option<T>>;

    /// The rack's invariant.
    spec fn inv(&self) -> bool;

    /// Stores `value` in the lowest free slot and returns the unit that owns
    /// it. A full rack is left as it is and the error says so.
    fn add(&mut self, value: T) -> (res: Result<Unit<T>, AddUnitError>)
        requires
            old(self).inv(),
        ensures
            final(self).inv(),
            final(self).slots() == after_add(old(self).slots(), value),
            res is Ok <==> !is_full(old(self).slots()),
            match res {
                Ok(unit) => {
                    &&& is_lowest_free(old(self).slots(), unit.index())
                    &&& final(self).slots() == old(self).slots().update(
                        unit.index(),
                        Some(value),
                    )
                },
                Err(error) => {
                    &&& error == AddUnitError::FullRack
                    &&& final(self).slots() == old(self).slots()
                },
            },
    ;

    /// Stores `value` as `add` does, for callers who know that the rack is
    /// not full.
    fn must_add(&mut self, value: T) -> (unit: Unit<T>)
        requires
            old(self).inv(),
            !is_full(old(self).slots()),
        ensures
            final(self).inv(),
            is_lowest_free(old(self).slots(), unit.index()),
            final(self).slots() == old(self).slots().update(unit.index(), Some(value)),
            final(self).slots() == after_add(old(self).slots(), value),
    ;
}

/// A rack of `N` slots.
pub struct FixedRack<T, const N: usize> {
    data: [Slot<T>; N],
}

impl<T, const N: usize> View for FixedRack<T, N> {
    type V = Seq<Option<T>>;

    /// What each of the `N` slots holds.
    closed spec fn view(&self) -> Seq<Option<T>> {
        Seq::new(N as nat, |i: int| self.data@[i].value())
    }
}

impl<T, const N: usize> FixedRack<T, N> {
    /// Every slot's flag agrees with its storage.
    pub closed spec fn wf(&self) -> bool {
        forall|i: int| 0 <= i < N ==> (#[trigger] self.data@[i]).wf()
    }

    /// `unit` names a held slot of this rack.
    pub open spec fn holds(&self, unit: &Unit<T>) -> bool {
        &&& 0 <= unit.index() < self@.len()
        &&& self@[unit.index()] is Some
    }

    /// The capacity is fixed: the rack has `N` slots, whatever they hold.
    pub proof fn lemma_capacity(&self)
        ensures
            self@.len() == N,
    {
    }

    /// A rack with all its slots free.
    pub fn new() -> (rack: Self)
        ensures
            rack.wf(),
            rack@ == all_free::<T>(N as nat),
    {
        let rack = FixedRack { data: init() };
        assert(rack@ =~= all_free::<T>(N as nat));
        rack
    }

    /// A rack over the given free slots.
    pub fn with_slots(data: [Slot<T>; N]) -> (rack: Self)
        requires
            all_vacant(data@),
        ensures
            rack.wf(),
            rack@ == all_free::<T>(N as nat),
    {
        let rack = FixedRack { data };
        assert(rack@ =~= all_free::<T>(N as nat));
        rack
    }

    /// Whether every slot is held, so that `add` would fail.
    pub fn is_full(&self) -> (full: bool)
        requires
            self.wf(),
        ensures
            full == is_full(self@),
    {
        let mut i: usize = 0;
        while i < N
            invariant
                0 <= i <= N,
                self.wf(),
                forall|j: int| 0 <= j < i ==> (#[trigger] self@[j]) is Some,
            decreases N - i,
        {
            proof {
                self.data@[i as int].lemma_held_iff_stored();
            }
            if !self.data[i].held() {
                assert(self@[i as int] is None);
                return false;
            }
            i += 1;
        }
        true
    }
}

impl<T, const N: usize> Rack<T> for FixedRack<T, N> {
    open spec fn slots(&self) -> Seq<Option<T>> {
        self@
    }

    open spec fn inv(&self) -> bool {
        self.wf()
    }

    fn add(&mut self, value: T) -> (res: Result<Unit<T>, AddUnitError>) {
        let mut pending = value;
        let mut i: usize = 0;
        while i < N
            invariant
                0 <= i <= N,
                self.wf(),
                self@ == old(self)@,
                pending == value,
                forall|j: int| 0 <= j < i ==> (#[trigger] self@[j]) is Some,
            decreases N - i,
        {
            proof {
                self.data@[i as int].lemma_held_iff_stored();
            }
            match self.data[i].try_acquire(pending) {
                None => {
                    proof {
                        assert(self@ =~= old(self)@.update(i as int, Some(value)));
                        assert(is_lowest_free(old(self)@, i as int));
                        lemma_lowest_free(old(self)@);
                    }
                    return Ok(Unit { index: i, marker: PhantomData });
                },
                Some(back) => {
                    assert(self@ =~= old(self)@);
                    pending = back;
                },
            }
            i += 1;
        }
        proof {
            lemma_lowest_free(old(self)@);
        }
        Err(AddUnitError::FullRack)
    }

    fn must_add(&mut self, value: T) -> (unit: Unit<T>) {
        self.add(value).expect("The rack is full")
    }
}

/// The owner of one value stored in a rack.
///
/// A unit is made only by adding a value to a rack, and it cannot be copied.
/// It names the slot that holds the value. Through it the value is read and
/// changed, and releasing it destroys the value and frees the slot. A unit
/// that is dropped without being released leaves its slot held: the value
/// then lives as long as the rack.
#[derive(Debug)]
pub struct Unit<T> {
    index: usize,
    marker: PhantomData<T>,
}

impl<T> Unit<T> {
    /// The index of the slot that this unit names.
    pub closed spec fn index(&self) -> int {
        self.index as int
    }

    /// The index of the slot that this unit names.
    pub fn slot(&self) -> (index: usize)
        ensures
            index == self.index(),
    {
        self.index
    }

    /// Whether this unit names a held slot of `rack`, as every unit does for
    /// the rack that made it until it is released.
    pub fn is_live<const N: usize>(&self, rack: &FixedRack<T, N>) -> (live: bool)
        requires
            rack.wf(),
        ensures
            live == rack.holds(self),
    {
        proof {
            if self.index < N {
                rack.data@[self.index as int].lemma_held_iff_stored();
            }
        }
        self.index < N && rack.data[self.index].held()
    }

    /// The value that this unit owns.
    pub fn get_ref<'a, const N: usize>(&self, rack: &'a FixedRack<T, N>) -> (value: &'a T)
        requires
            rack.wf(),
            rack.holds(self),
        ensures
            rack@[self.index()] == Some(*value),
    {
        proof {
            rack.data@[self.index as int].lemma_held_iff_stored();
        }
        rack.data[self.index].get()
    }

    /// The value that this unit owns, for writing. Whatever the caller leaves
    /// behind the reference is what the slot then holds; no other slot
    /// changes.
    pub fn get_mut<'a, const N: usize>(&mut self, rack: &'a mut FixedRack<T, N>) -> (value:
        &'a mut T)
        requires
            old(rack).wf(),
            old(rack).holds(old(self)),
        ensures
            *final(self) == *old(self),
            old(rack)@[old(self).index()] == Some(*value),
            final(rack).wf(),
            final(rack)@ == old(rack)@.update(old(self).index(), Some(*final(value))),
    {
        proof {
            rack.data@[self.index as int].lemma_held_iff_stored();
        }
        rack.data[self.index].get_mut()
    }

    /// Ends the unit and hands its value to the caller: the slot is free
    /// again, and no other slot changes.
    pub fn into_inner<const N: usize>(self, rack: &mut FixedRack<T, N>) -> (value: T)
        requires
            old(rack).wf(),
            old(rack).holds(&self),
        ensures
            old(rack)@[self.index()] == Some(value),
            final(rack).wf(),
            final(rack)@ == after_release(old(rack)@, self.index()),
    {
        let stored = rack.data[self.index].take();
        proof {
            assert(rack@ =~= after_release(old(rack)@, self.index()));
        }
        stored.unwrap()
    }

    /// Ends the unit: the value it owns is destroyed and its slot is free
    /// again. No other slot changes.
    pub fn release<const N: usize>(self, rack: &mut FixedRack<T, N>)
        requires
            old(rack).wf(),
            old(rack).holds(&self),
        ensures
            final(rack).wf(),
            final(rack)@ == after_release(old(rack)@, self.index()),
    {
        rack.data[self.index].release();
        proof {
            assert(rack@ =~= after_release(old(rack)@, self.index()));
        }
    }
}

impl<T, const N: usize> Default for FixedRack<T, N> {
    /// A rack with all its slots free.
    fn default() -> (rack: Self)
        ensures
            rack.wf(),
            rack@ == all_free::<T>(N as nat),
    {
        FixedRack::new()
    }
}

/// A rack of one slot.
pub type Rack1<T> = FixedRack<T, 1>;

/// A rack of 2 slots.
pub type Rack2<T> = FixedRack<T, 2>;

/// A rack of 4 slots.
pub type Rack4<T> = FixedRack<T, 4>;

/// A rack of 8 slots.
pub type Rack8<T> = FixedRack<T, 8>;

/// A rack of 16 slots.
pub type Rack16<T> = FixedRack<T, 16>;

/// A rack of 32 slots.
pub type Rack32<T> = FixedRack<T, 32>;

/// A rack of 64 slots.
pub type Rack64<T> = FixedRack<T, 64>;

/// A rack of 128 slots.
pub type Rack128<T> = FixedRack<T, 128>;

/// A rack of 256 slots.
pub type Rack256<T> = FixedRack<T, 256>;

/// A rack of 512 slots.
pub type Rack512<T> = FixedRack<T, 512>;

/// A rack of 1024 slots.
pub type Rack1024<T> = FixedRack<T, 1024>;

} // verus!
