//! What holds of every rack, stated over the model and proved from it.

use vstd::prelude::*;
use crate::model::{
    after_add, after_release, all_free, held_count, is_full, is_lowest_free, lemma_held_count_all_free,
    lemma_held_count_full, lemma_held_count_update, lemma_lowest_free, lowest_free,
};

verus! {

/// The slots after the values of `values` were added one after the other,
/// none being released in between.
pub open spec fn after_adds<T>(slots: Seq<Option<T>>, values: Seq<T>) -> Seq<Option<T>>
    decreases values.len(),
{
    if values.len() == 0 {
        slots
    } else {
        after_add(after_adds(slots, values.drop_last()), values.last())
    }
}

/// An addition to a rack that is not full holds one value more and keeps the
/// number of slots; an addition to a full rack changes nothing.
pub proof fn lemma_add_counts<T>(slots: Seq<Option<T>>, value: T)
    ensures
        after_add(slots, value).len() == slots.len(),
        !is_full(slots) ==> held_count(after_add(slots, value)) == held_count(slots) + 1,
        is_full(slots) ==> after_add(slots, value) == slots,
{
    lemma_lowest_free(slots);
    if let Some(index) = lowest_free(slots) {
        assert(is_lowest_free(slots, index));
        lemma_held_count_update(slots, index, Some(value));
    }
}

/// A release frees one held slot: the rack holds one value less.
pub proof fn lemma_release_counts<T>(slots: Seq<Option<T>>, index: int)
    requires
        0 <= index < slots.len(),
        slots[index] is Some,
    ensures
        after_release(slots, index).len() == slots.len(),
        held_count(after_release(slots, index)) + 1 == held_count(slots),
{
    lemma_held_count_update(slots, index, None);
}

/// A fresh rack of `capacity` slots accepts exactly `capacity` values. After
/// any number of additions it holds that many values or its capacity,
/// whichever is less. So it is full, and the next addition fails, exactly
/// from the addition that reaches its capacity on.
pub proof fn lemma_fills_to_capacity<T>(capacity: nat, values: Seq<T>)
    ensures
        after_adds(all_free::<T>(capacity), values).len() == capacity,
        held_count(after_adds(all_free::<T>(capacity), values)) == if values.len() <= capacity {
            values.len()
        } else {
            capacity
        },
        is_full(after_adds(all_free::<T>(capacity), values)) <==> values.len() >= capacity,
    decreases values.len(),
{
    let fresh = all_free::<T>(capacity);
    if values.len() == 0 {
        lemma_held_count_all_free::<T>(capacity);
    } else {
        let before = after_adds(fresh, values.drop_last());
        lemma_fills_to_capacity(capacity, values.drop_last());
        lemma_add_counts(before, values.last());
    }
    lemma_held_count_full(after_adds(fresh, values));
}

/// After a release the rack is not full, so that the next addition succeeds.
/// It takes a slot no higher than the one released, and that very slot if
/// the rack was full before.
pub proof fn lemma_release_makes_room<T>(slots: Seq<Option<T>>, index: int)
    requires
        0 <= index < slots.len(),
    ensures
        !is_full(after_release(slots, index)),
        lowest_free(after_release(slots, index)) is Some,
        lowest_free(after_release(slots, index))->0 <= index,
        is_full(slots) ==> lowest_free(after_release(slots, index)) == Some(index),
{
    let released = after_release(slots, index);
    assert(released[index] is None);
    lemma_lowest_free(released);
    let next = lowest_free(released)->0;
    assert(is_lowest_free(released, next));
    if index < next {
        assert(released[index] is Some);
    }
    if is_full(slots) && next < index {
        assert(slots[next] is Some);
    }
}

/// Two live units never share a slot. An addition takes a slot other than
/// that of any unit that is live at the time, and leaves that unit's value
/// as it is; afterwards a write through either unit leaves the other's value
/// as it is.
pub proof fn lemma_units_disjoint<T>(slots: Seq<Option<T>>, held: int, value: T, written: T)
    requires
        0 <= held < slots.len(),
        slots[held] is Some,
        !is_full(slots),
    ensures
        lowest_free(slots) is Some,
        lowest_free(slots)->0 != held,
        after_add(slots, value)[held] == slots[held],
        after_add(slots, value)[lowest_free(slots)->0] == Some(value),
        after_add(slots, value).update(lowest_free(slots)->0, Some(written))[held] == slots[held],
        after_add(slots, value).update(held, Some(written))[lowest_free(slots)->0] == Some(value),
{
    lemma_lowest_free(slots);
    let fresh = lowest_free(slots)->0;
    assert(is_lowest_free(slots, fresh));
}

/// A value written through a unit is the value read through it afterwards,
/// and every other slot holds what it held before.
pub proof fn lemma_write_then_read<T>(slots: Seq<Option<T>>, index: int, written: T)
    requires
        0 <= index < slots.len(),
    ensures
        slots.update(index, Some(written))[index] == Some(written),
        forall|other: int|
            0 <= other < slots.len() && other != index ==> slots.update(index, Some(written))[other]
                == #[trigger] slots[other],
{
}

} // verus!
