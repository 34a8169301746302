//! Statements that tie several operations together, proved here once for
//! every value, every allocator state and every tracer reading that their
//! preconditions admit.

use crate::allocator::Allocator;
use crate::allocator::RefCounter;
use crate::allocator::Slot;
use crate::heap::Heap;
use crate::heapref::HeapRef;
use crate::trace::Tracer;
use vstd::prelude::*;

verus! {

/// For every value: moving it to the heap and taking it back yields the
/// very value, and the tracer returns to its pre-allocation reading. On
/// allocation failure the value comes back untouched.
pub fn box_round_trip<T>(value: T, alloc: &mut Allocator<T>, tracer: &mut Tracer) -> (result:
    Result<T, T>)
    requires
        old(alloc).can_alloc() ==> old(tracer)@ + core::mem::size_of::<T>() <= usize::MAX,
    ensures
        result is Ok <==> old(alloc).can_alloc(),
        result is Ok ==> result->Ok_0 == value,
        result is Err ==> result->Err_0 == value,
        final(tracer)@ == old(tracer)@,
        final(alloc).recs() == old(alloc).recs(),
        final(alloc).cap() == old(alloc).cap(),
{
    match Heap::new(value, alloc, tracer) {
        Ok(heap) => Ok(heap.into_inner(alloc, tracer)),
        Err(value) => Err(value),
    }
}

/// Cloning a strong handle raises the strong count by exactly one and
/// leaves the weak count unchanged; releasing the clone restores the
/// counts, the allocations and the tracer exactly, and the original
/// handle stays well-formed throughout.
pub fn clone_then_free<T>(handle: &HeapRef<T>, alloc: &mut Allocator<T>, tracer: &mut Tracer)
    requires
        handle.wf(*old(alloc)),
        old(alloc).record_at(handle.refctr_addr()).strong < usize::MAX,
    ensures
        final(alloc).vals() == old(alloc).vals(),
        final(alloc).recs() == old(alloc).recs(),
        final(alloc).cap() == old(alloc).cap(),
        final(tracer)@ == old(tracer)@,
        handle.wf(*final(alloc)),
{
    let cloned = handle.clone(alloc);
    cloned.free(alloc, tracer);
    proof {
        assert(old(alloc).recs()[handle.refctr_addr()] == Some(
            (RefCounter {
                strong: old(alloc).record_at(handle.refctr_addr()).strong,
                weak: old(alloc).record_at(handle.refctr_addr()).weak,
            }),
        ));
        assert(alloc.recs() =~= old(alloc).recs());
    }
}

/// With a second strong handle outstanding, `try_unwrap` fails and hands
/// the caller's handle back unchanged; once the other handle is released,
/// `try_unwrap` on the sole remaining handle succeeds and yields the very
/// value that was stored, releasing both allocations.
pub fn unwrap_after_last_clone<T>(
    handle: HeapRef<T>,
    other: HeapRef<T>,
    alloc: &mut Allocator<T>,
    tracer: &mut Tracer,
) -> (value: T)
    requires
        handle.wf(*old(alloc)),
        handle.value_addr() == other.value_addr(),
        handle.refctr_addr() == other.refctr_addr(),
        old(alloc).record_at(handle.refctr_addr()).strong == 2,
        old(alloc).record_at(handle.refctr_addr()).weak == 0,
        old(alloc).size_at(handle.value_addr()) + core::mem::size_of::<RefCounter>() <= old(
            tracer,
        )@,
    ensures
        value == old(alloc).value_at(handle.value_addr()),
        final(alloc).vals() == old(alloc).vals().update(handle.value_addr(), Slot::<T>::Free),
        final(alloc).recs() == old(alloc).recs().update(handle.refctr_addr(), None),
        final(alloc).cap() == old(alloc).cap(),
        final(tracer)@ == old(tracer)@ - old(alloc).size_at(handle.value_addr())
            - core::mem::size_of::<RefCounter>(),
{
    let handle = match handle.try_unwrap(alloc, tracer) {
        Ok(_) => vstd::pervasive::unreached(),
        Err(handle) => handle,
    };
    other.free(alloc, tracer);
    let value = match handle.try_unwrap(alloc, tracer) {
        Ok(value) => value,
        Err(_) => vstd::pervasive::unreached(),
    };
    proof {
        assert(alloc.recs() =~= old(alloc).recs().update(handle.refctr_addr(), None));
    }
    value
}

} // verus!
