use vstd::prelude::*;
use vstd::layout::size_of;
use crate::unpark_handle::{
    best_effort_result, heap_result, strict_result, UnparkHandle, UnparkObj, UnparkTooLarge,
};

verus! {

/// Round-trip duplication: persisting a handle made from `v` by any of the
/// three constructions and then duplicating the object leaves two objects
/// that notify the same value as the handle, in the shared case, or values
/// that `T`'s own duplication made from it, one from the other, in the inline
/// case. Where duplicating `T` always gives an equal value, both objects
/// notify exactly `v`.
pub proof fn lemma_round_trip<T: Clone>(
    v: T,
    capacity: nat,
    handle: UnparkHandle<'_, T>,
    obj: UnparkObj<T>,
    dup: UnparkObj<T>,
)
    requires
        strict_result(Ok(handle), v, capacity) || best_effort_result(handle, v, capacity)
            || heap_result(handle, v),
        obj.persisted_from(handle),
        dup.duplicate_of(obj),
    ensures
        obj.is_shared() == dup.is_shared(),
        obj.is_shared() ==> dup.target() == obj.target() && obj.target() == handle.target(),
        !obj.is_shared() ==> handle.target() == v && cloned(v, obj.target()) && cloned(
            obj.target(),
            dup.target(),
        ),
        (forall|a: T, b: T| #[trigger] cloned(a, b) ==> a == b) ==> obj.target() == v
            && dup.target() == v,
{
}

/// Capacity boundary: strict-inline construction of a payload of exactly
/// `capacity` bytes succeeds, and of one of `capacity + 1` bytes fails with
/// an error carrying `capacity + 1`.
pub proof fn lemma_capacity_boundary<T>(
    v: T,
    capacity: nat,
    r: Result<UnparkHandle<'_, T>, UnparkTooLarge>,
)
    requires
        strict_result(r, v, capacity),
    ensures
        size_of::<T>() == capacity ==> r is Ok,
        size_of::<T>() == capacity + 1 ==> (r matches Err(e) && e.0 == capacity + 1),
{
}

/// Fallback equivalence: where `v` is larger than the capacity, best-effort
/// construction succeeds with an owning handle, as heap construction does;
/// persisting either gives a shared object that notifies its handle's value,
/// and when both handles hold the same value, both objects notify it.
pub proof fn lemma_fallback_equivalence<T: Clone>(
    v: T,
    w: T,
    capacity: nat,
    fallback: UnparkHandle<'_, T>,
    heap: UnparkHandle<'_, T>,
    fallback_obj: UnparkObj<T>,
    heap_obj: UnparkObj<T>,
)
    requires
        size_of::<T>() > capacity,
        best_effort_result(fallback, v, capacity),
        heap_result(heap, w),
        fallback_obj.persisted_from(fallback),
        heap_obj.persisted_from(heap),
    ensures
        fallback.is_owned() && heap.is_owned(),
        fallback_obj.is_shared() && heap_obj.is_shared(),
        cloned(v, fallback_obj.target()),
        heap_obj.target() == w,
        fallback.target() == w ==> fallback_obj.target() == heap_obj.target(),
{
}

} // verus!
