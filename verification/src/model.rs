//! The mathematical model of a rack: the sequence of what its slots hold,
//! `None` for a free slot and `Some` of the value for a held one.

use vstd::prelude::*;

verus! {

/// The model of a rack of `capacity` slots, all of them free.
pub open spec fn all_free<T>(capacity: nat) -> Seq<Option<T>> {
    Seq::new(capacity, |i: int| None::<T>)
}

/// No slot is free.
pub open spec fn is_full<T>(slots: Seq<Option<T>>) -> bool {
    forall|i: int| 0 <= i < slots.len() ==> (#[trigger] slots[i]) is Some
}

/// Slot `index` is free and every slot before it is held: it is the slot that
/// a scan from the lowest index takes.
pub open spec fn is_lowest_free<T>(slots: Seq<Option<T>>, index: int) -> bool {
    &&& 0 <= index < slots.len()
    &&& slots[index] is None
    &&& forall|j: int| 0 <= j < index ==> (#[trigger] slots[j]) is Some
}

/// The slot that the next addition takes, if there is one.
pub open spec fn lowest_free<T>(slots: Seq<Option<T>>) -> Option<int> {
    if exists|i: int| is_lowest_free(slots, i) {
        Some(choose|i: int| is_lowest_free(slots, i))
    } else {
        None
    }
}

/// The slots after an attempt to add `value`: the lowest free slot holds it,
/// or nothing has changed because there was none.
pub open spec fn after_add<T>(slots: Seq<Option<T>>, value: T) -> Seq<Option<T>> {
    match lowest_free(slots) {
        Some(index) => slots.update(index, Some(value)),
        None => slots,
    }
}

/// The slots after the value in slot `index` was released.
pub open spec fn after_release<T>(slots: Seq<Option<T>>, index: int) -> Seq<Option<T>> {
    slots.update(index, None)
}

/// How many slots are held.
pub open spec fn held_count<T>(slots: Seq<Option<T>>) -> nat
    decreases slots.len(),
{
    if slots.len() == 0 {
        0
    } else {
        held_count(slots.drop_last()) + if slots.last() is Some {
            1nat
        } else {
            0nat
        }
    }
}

/// At most one slot is the lowest free one.
pub proof fn lemma_lowest_free_unique<T>(slots: Seq<Option<T>>, i: int, j: int)
    requires
        is_lowest_free(slots, i),
        is_lowest_free(slots, j),
    ensures
        i == j,
{
    if i < j {
        assert(slots[i] is Some);
    } else if j < i {
        assert(slots[j] is Some);
    }
}

/// A sequence with a free slot among its first `bound` has a lowest free slot
/// there.
proof fn lemma_lowest_free_below<T>(slots: Seq<Option<T>>, bound: int) -> (index: int)
    requires
        0 <= bound <= slots.len(),
        exists|i: int| 0 <= i < bound && (#[trigger] slots[i]) is None,
    ensures
        is_lowest_free(slots, index),
        index < bound,
    decreases bound,
{
    if exists|i: int| 0 <= i < bound - 1 && (#[trigger] slots[i]) is None {
        lemma_lowest_free_below(slots, bound - 1)
    } else {
        assert(slots[bound - 1] is None);
        bound - 1
    }
}

/// A rack has a lowest free slot exactly when it is not full, and
/// `lowest_free` names it.
pub proof fn lemma_lowest_free<T>(slots: Seq<Option<T>>)
    ensures
        is_full(slots) <==> lowest_free(slots) is None,
        forall|i: int| is_lowest_free(slots, i) <==> lowest_free(slots) == Some(i),
{
    if !is_full(slots) {
        let index = lemma_lowest_free_below(slots, slots.len() as int);
    }
    if lowest_free(slots) is Some {
        let index = choose|i: int| is_lowest_free(slots, i);
        assert(slots[index] is None);
        assert forall|i: int| is_lowest_free(slots, i) implies lowest_free(slots) == Some(i) by {
            lemma_lowest_free_unique(slots, i, index);
        }
    }
}

/// A rack never holds more values than it has slots, and it holds as many
/// exactly when it is full.
pub proof fn lemma_held_count_full<T>(slots: Seq<Option<T>>)
    ensures
        held_count(slots) <= slots.len(),
        held_count(slots) == slots.len() <==> is_full(slots),
    decreases slots.len(),
{
    if slots.len() > 0 {
        let front = slots.drop_last();
        lemma_held_count_full(front);
        if is_full(slots) {
            assert forall|i: int| 0 <= i < front.len() implies (#[trigger] front[i]) is Some by {
                assert(slots[i] is Some);
            }
        }
        if held_count(slots) == slots.len() {
            assert forall|i: int| 0 <= i < slots.len() implies (#[trigger] slots[i]) is Some by {
                if i < front.len() {
                    assert(front[i] is Some);
                }
            }
        }
    }
}

/// Writing one slot changes the count of held slots by that slot alone.
pub proof fn lemma_held_count_update<T>(slots: Seq<Option<T>>, index: int, content: Option<T>)
    requires
        0 <= index < slots.len(),
    ensures
        held_count(slots.update(index, content)) + (if slots[index] is Some {
            1nat
        } else {
            0nat
        }) == held_count(slots) + (if content is Some {
            1nat
        } else {
            0nat
        }),
    decreases slots.len(),
{
    let written = slots.update(index, content);
    if index == slots.len() - 1 {
        assert(written.drop_last() =~= slots.drop_last());
    } else {
        lemma_held_count_update(slots.drop_last(), index, content);
        assert(written.drop_last() =~= slots.drop_last().update(index, content));
    }
}

/// A rack with all its slots free holds nothing.
pub proof fn lemma_held_count_all_free<T>(capacity: nat)
    ensures
        held_count(all_free::<T>(capacity)) == 0,
    decreases capacity,
{
    if capacity > 0 {
        lemma_held_count_all_free::<T>((capacity - 1) as nat);
        assert(all_free::<T>(capacity).drop_last() =~= all_free::<T>((capacity - 1) as nat));
    }
}

} // verus!
