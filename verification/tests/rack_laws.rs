use heapnotize::data_array::init_2;
use heapnotize::{AddUnitError, FixedRack, Rack, Rack1, Rack2, Rack4, Rack8, Slot, Unit};
use std::cell::Cell;
use std::rc::Rc;

/// A value that counts how often it is destroyed.
struct Counted {
    drops: Rc<Cell<usize>>,
}

impl Drop for Counted {
    fn drop(&mut self) {
        self.drops.set(self.drops.get() + 1);
    }
}

fn counted(drops: &Rc<Cell<usize>>) -> Counted {
    Counted { drops: drops.clone() }
}

#[test]
fn a_rack_accepts_exactly_its_capacity() {
    let mut rack = Rack4::new();
    let mut units = vec![];
    for value in 0..4 {
        assert!(!rack.is_full());
        let unit = rack.add(value).unwrap();
        assert_eq!(unit.slot(), value as usize);
        units.push(unit);
    }
    assert!(rack.is_full());
    assert_eq!(rack.add(4).unwrap_err(), AddUnitError::FullRack);
    assert_eq!(rack.add(5).unwrap_err(), AddUnitError::FullRack);
}

#[test]
fn a_rack_of_eight_fills_in_slot_order() {
    let mut rack = Rack8::new();
    let mut slots = vec![];
    while let Ok(unit) = rack.add('x') {
        slots.push(unit.slot());
    }
    assert_eq!(slots, vec![0, 1, 2, 3, 4, 5, 6, 7]);
}

#[test]
fn a_rack_without_slots_is_always_full() {
    let mut rack = FixedRack::<u8, 0>::new();
    assert!(rack.is_full());
    assert_eq!(rack.add(1).unwrap_err(), AddUnitError::FullRack);
}

#[test]
fn a_failed_add_changes_nothing() {
    let mut rack = Rack2::new();
    let first = rack.must_add(10);
    let second = rack.must_add(20);
    assert!(rack.add(30).is_err());
    assert_eq!(*first.get_ref(&rack), 10);
    assert_eq!(*second.get_ref(&rack), 20);
    assert!(first.is_live(&rack));
    assert!(second.is_live(&rack));
    assert!(rack.is_full());
}

#[test]
fn a_release_makes_room_for_one_more() {
    let mut rack = Rack4::new();
    let _a = rack.must_add(1);
    let b = rack.must_add(2);
    let _c = rack.must_add(3);
    let _d = rack.must_add(4);
    assert!(rack.is_full());
    b.release(&mut rack);
    assert!(!rack.is_full());
    let again = rack.add(5).unwrap();
    assert_eq!(again.slot(), 1);
    assert_eq!(*again.get_ref(&rack), 5);
    assert!(rack.is_full());
}

#[test]
fn the_lowest_free_slot_is_taken_first() {
    let mut rack = Rack4::new();
    let a = rack.must_add(1);
    let _b = rack.must_add(2);
    let c = rack.must_add(3);
    c.release(&mut rack);
    a.release(&mut rack);
    assert_eq!(rack.must_add(6).slot(), 0);
    assert_eq!(rack.must_add(7).slot(), 2);
    assert_eq!(rack.must_add(8).slot(), 3);
}

#[test]
fn units_store_their_values_apart() {
    let mut rack = Rack2::new();
    let mut first = rack.must_add(10);
    let mut second = rack.must_add(20);
    assert_ne!(first.slot(), second.slot());

    *first.get_mut(&mut rack) = 11;
    assert_eq!(*first.get_ref(&rack), 11);
    assert_eq!(*second.get_ref(&rack), 20);

    *second.get_mut(&mut rack) += 5;
    assert_eq!(*first.get_ref(&rack), 11);
    assert_eq!(*second.get_ref(&rack), 25);
}

#[test]
fn reads_see_what_was_written() {
    let mut rack = Rack1::new();
    let mut unit = rack.must_add(String::from("one"));
    unit.get_mut(&mut rack).push_str(" two");
    assert_eq!(unit.get_ref(&rack), "one two");
    *unit.get_mut(&mut rack) = String::from("three");
    assert_eq!(unit.get_ref(&rack), "three");
    assert_eq!(unit.get_mut(&mut rack), "three");
}

#[test]
fn a_release_destroys_the_value_once() {
    let drops = Rc::new(Cell::new(0));
    let mut rack = Rack2::new();
    let unit = rack.must_add(counted(&drops));
    assert_eq!(drops.get(), 0);
    unit.release(&mut rack);
    assert_eq!(drops.get(), 1);
    drop(rack);
    assert_eq!(drops.get(), 1);
}

#[test]
fn reuse_cycles_destroy_each_value_once() {
    let drops = Rc::new(Cell::new(0));
    let mut rack = Rack2::new();
    let _kept = rack.must_add(counted(&drops));
    for round in 1..=5 {
        let unit = rack.must_add(counted(&drops));
        assert_eq!(unit.slot(), 1);
        assert!(rack.add(counted(&drops)).is_err());
        assert_eq!(drops.get(), 2 * round - 1);
        unit.release(&mut rack);
        assert_eq!(drops.get(), 2 * round);
    }
    drop(rack);
    assert_eq!(drops.get(), 11);
}

#[test]
fn into_inner_hands_the_value_out_alive() {
    let drops = Rc::new(Cell::new(0));
    let mut rack = Rack1::new();
    let unit = rack.must_add(counted(&drops));
    let value = unit.into_inner(&mut rack);
    assert_eq!(drops.get(), 0);
    assert!(!rack.is_full());
    drop(value);
    assert_eq!(drops.get(), 1);
    drop(rack);
    assert_eq!(drops.get(), 1);
}

#[test]
fn a_rejected_value_is_destroyed_by_the_caller_only() {
    let drops = Rc::new(Cell::new(0));
    let mut slot = Slot::free();
    assert!(slot.try_acquire(counted(&drops)).is_none());
    let back = slot.try_acquire(counted(&drops));
    assert!(back.is_some());
    assert_eq!(drops.get(), 0);
    drop(back);
    assert_eq!(drops.get(), 1);
    slot.release();
    assert_eq!(drops.get(), 2);
}

#[test]
fn two_slot_scenario() {
    let mut rack = Rack2::new();
    let a = rack.add(10).unwrap();
    let b = rack.add(20).unwrap();
    assert_eq!(a.slot(), 0);
    assert_eq!(b.slot(), 1);
    assert_eq!(rack.add(30).unwrap_err(), AddUnitError::FullRack);
    a.release(&mut rack);
    let c = rack.add(30).unwrap();
    assert_eq!(c.slot(), 0);
    assert_eq!(*c.get_ref(&rack), 30);
    assert_eq!(*b.get_ref(&rack), 20);
}

#[test]
fn one_slot_scenario() {
    let mut rack = Rack1::new();
    let unit = rack.must_add(5);
    assert_eq!(*unit.get_ref(&rack), 5);
    assert!(rack.is_full());
    assert_eq!(rack.add(6).unwrap_err(), AddUnitError::FullRack);
    assert_eq!(*unit.get_ref(&rack), 5);
}

#[test]
fn the_error_says_that_the_rack_is_full() {
    assert_eq!(AddUnitError::FullRack.to_string(), "the rack is full");
}

#[test]
fn a_rack_over_two_fresh_slots_is_empty() {
    let mut rack: Rack2<i32> = FixedRack::with_slots(init_2());
    assert!(!rack.is_full());
    assert_eq!(rack.must_add(1).slot(), 0);
    assert_eq!(rack.must_add(2).slot(), 1);
    assert!(rack.is_full());
}

#[test]
fn a_default_rack_is_empty() {
    let mut rack = Rack2::<u8>::default();
    assert!(!rack.is_full());
    assert_eq!(rack.must_add(1).slot(), 0);
}

#[test]
fn a_released_unit_is_no_longer_live() {
    let mut rack = Rack2::new();
    let a = rack.must_add(1);
    let b = rack.must_add(2);
    assert!(a.is_live(&rack));
    assert!(b.is_live(&rack));
    let other = Rack1::<i32>::new();
    assert!(!a.is_live(&other));
    a.release(&mut rack);
    assert!(b.is_live(&rack));
    assert_eq!(*b.get_ref(&rack), 2);
}

#[test]
fn a_slot_is_held_from_acquire_to_release() {
    let mut slot = Slot::free();
    assert!(!slot.held());
    assert_eq!(slot.try_acquire(7), None);
    assert!(slot.held());
    assert_eq!(*slot.get(), 7);
    assert_eq!(slot.try_acquire(8), Some(8));
    assert_eq!(*slot.get(), 7);
    *slot.get_mut() = 9;
    assert_eq!(*slot.get(), 9);
    assert_eq!(slot.take(), Some(9));
    assert!(!slot.held());
    assert_eq!(slot.take(), None);
    assert_eq!(slot.try_acquire(10), None);
    slot.release();
    assert!(!slot.held());
}

#[test]
fn a_slot_is_a_word_larger_than_its_padded_value() {
    let word = std::mem::size_of::<usize>();
    assert_eq!(std::mem::size_of::<Slot<[u8; 4]>>(), 2 * word);
    assert_eq!(std::mem::size_of::<Rack4<[u8; 4]>>(), 4 * 2 * word);
    assert_eq!(std::mem::size_of::<Unit<[u8; 4]>>(), word);
}
