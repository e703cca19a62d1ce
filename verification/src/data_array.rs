//! Fresh slot arrays for racks.

use vstd::prelude::*;
use crate::slot::Slot;

verus! {

/// Every slot of `data` is free and well formed.
pub open spec fn all_vacant<T>(data: Seq<Slot<T>>) -> bool {
    forall|i: int|
        0 <= i < data.len() ==> {
            &&& (#[trigger] data[i]).wf()
            &&& !data[i].is_held()
            &&& data[i].value() is None
        }
}

/// Two free slots.
pub fn init_2<T>() -> (data: [Slot<T>; 2])
    ensures
        all_vacant(data@),
{
    [Slot::free(), Slot::free()]
}

/// `N` free slots.
///
/// Trusted: calls `core::array::from_fn`, which builds an array by calling
/// its argument once for each index. The argument here returns a free slot
/// whatever the index, so every slot of the array is free.
#[verifier::external_body]
pub(crate) fn init<T, const N: usize>() -> (data: [Slot<T>; N])
    ensures
        all_vacant(data@),
{
    core::array::from_fn(|_index| Slot::free())
}

} // verus!
