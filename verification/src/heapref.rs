//! A reference-counted heap object with weak observers.
//!
//! A [`HeapRef`] pairs two allocations: the shared value and one
//! [`RefCounter`] record holding the strong and weak counts. Strong handles
//! keep the value alive; weak handles keep only the record alive. The value
//! is released the moment the strong count reaches zero, the record the
//! moment both counts reach zero.
//!
//! Handles have no destructor of their own, because tearing one down needs
//! the allocator and the tracer: each handle is released explicitly with
//! its `free` operation.

use crate::allocator::Allocator;
use crate::allocator::RefCounter;
use crate::allocator::Slot;
use crate::heap::Heap;
use crate::trace::Tracer;
use crate::trace::decrement_allocated;
use crate::trace::increment_allocated;
use vstd::prelude::*;

verus! {

/// The memory overhead of one reference-counter record in bytes.
pub fn overhead() -> (bytes: usize)
    ensures
        bytes == core::mem::size_of::<RefCounter>(),
{
    core::mem::size_of::<RefCounter>()
}

/// A strong, reference-counted handle to a shared heap object.
pub struct HeapRef<T> {
    value: usize,
    refctr: usize,
    marker: core::marker::PhantomData<T>,
}

/// A weak, non-owning observer of a shared heap object: it keeps the
/// counter record alive, never the value.
pub struct HeapRefWeak<T> {
    value: usize,
    refctr: usize,
    marker: core::marker::PhantomData<T>,
}

impl<T> HeapRef<T> {
    /// The address of the shared value's allocation.
    pub closed spec fn value_addr(self) -> int {
        self.value as int
    }

    /// The address of the reference-counter record's allocation.
    pub closed spec fn refctr_addr(self) -> int {
        self.refctr as int
    }

    /// Well-formed against the given allocator: both allocations are
    /// alive, and this handle is counted in the strong count.
    pub open spec fn wf(self, alloc: Allocator<T>) -> bool {
        &&& alloc.value_live(self.value_addr())
        &&& alloc.record_live(self.refctr_addr())
        &&& alloc.record_at(self.refctr_addr()).strong >= 1
    }

    /// Creates a reference-counted heap object from an owned heap object.
    /// On allocation failure for the counter record, the owned box is
    /// handed back untouched.
    pub fn new_from_heap(value: Heap<T>, alloc: &mut Allocator<T>, tracer: &mut Tracer) -> (result:
        Result<HeapRef<T>, Heap<T>>)
        requires
            old(alloc).value_live(value.addr()),
            old(alloc).can_alloc() ==> old(tracer)@ + core::mem::size_of::<RefCounter>()
                <= usize::MAX,
        ensures
            result is Ok <==> old(alloc).can_alloc(),
            result is Ok ==> {
                let this = result->Ok_0;
                &&& this.value_addr() == value.addr()
                &&& this.refctr_addr() == old(alloc).recs().len()
                &&& final(alloc).recs() == old(alloc).recs().push(
                    Some((RefCounter { strong: 1, weak: 0 })),
                )
                &&& final(tracer)@ == old(tracer)@ + core::mem::size_of::<RefCounter>()
                &&& this.wf(*final(alloc))
            },
            result is Err ==> {
                &&& result->Err_0 == value
                &&& final(alloc).recs() == old(alloc).recs()
                &&& final(tracer)@ == old(tracer)@
            },
            final(alloc).vals() == old(alloc).vals(),
            final(alloc).cap() == old(alloc).cap(),
    {
        let size = core::mem::size_of::<RefCounter>();
        match alloc.alloc_record(RefCounter { strong: 1, weak: 0 }) {
            Some(refctr) => {
                increment_allocated(tracer, size);
                Ok(HeapRef { value: value.into_raw(), refctr, marker: core::marker::PhantomData })
            },
            None => Err(value),
        }
    }

    /// Creates a reference-counted heap object with the given value: one
    /// allocation for the value, one for the counter record. On failure of
    /// either allocation the value is handed back untouched and nothing
    /// stays allocated or traced.
    pub fn new(value: T, alloc: &mut Allocator<T>, tracer: &mut Tracer) -> (result: Result<
        HeapRef<T>,
        T,
    >)
        requires
            old(alloc).can_alloc() ==> old(tracer)@ + core::mem::size_of::<T>() <= usize::MAX,
            old(alloc).vals().len() + old(alloc).recs().len() + 2 <= old(alloc).cap() ==> old(
                tracer,
            )@ + core::mem::size_of::<T>() + core::mem::size_of::<RefCounter>() <= usize::MAX,
        ensures
            result is Ok <==> old(alloc).vals().len() + old(alloc).recs().len() + 2 <= old(
                alloc,
            ).cap(),
            result is Ok ==> {
                let this = result->Ok_0;
                &&& this.value_addr() == old(alloc).vals().len()
                &&& this.refctr_addr() == old(alloc).recs().len()
                &&& final(alloc).vals() == old(alloc).vals().push(
                    Slot::<T>::Full(core::mem::size_of::<T>(), value),
                )
                &&& final(alloc).recs() == old(alloc).recs().push(
                    Some((RefCounter { strong: 1, weak: 0 })),
                )
                &&& final(tracer)@ == old(tracer)@ + core::mem::size_of::<T>()
                    + core::mem::size_of::<RefCounter>()
                &&& this.wf(*final(alloc))
            },
            result is Err ==> {
                &&& result->Err_0 == value
                &&& final(alloc).recs() == old(alloc).recs()
                &&& final(tracer)@ == old(tracer)@
                &&& (if old(alloc).can_alloc() {
                    final(alloc).vals() == old(alloc).vals().push(Slot::<T>::Free)
                } else {
                    final(alloc).vals() == old(alloc).vals()
                })
            },
            final(alloc).cap() == old(alloc).cap(),
    {
        let value = match Heap::new(value, alloc, tracer) {
            Ok(value) => value,
            Err(value) => { return Err(value); },
        };
        match Self::new_from_heap(value, alloc, tracer) {
            Ok(this) => Ok(this),
            Err(value) => {
                let element = value.into_inner(alloc, tracer);
                proof {
                    assert(alloc.vals() =~= old(alloc).vals().push(Slot::<T>::Free));
                }
                Err(element)
            },
        }
    }

    /// A reference to the shared value.
    pub fn inner<'a>(&self, alloc: &'a Allocator<T>) -> (value: &'a T)
        requires
            alloc.value_live(self.value_addr()),
        ensures
            *value == alloc.value_at(self.value_addr()),
    {
        alloc.read_value(self.value)
    }

    /// The amount of strong references to the shared value.
    pub fn strong(&self, alloc: &Allocator<T>) -> (count: usize)
        requires
            alloc.record_live(self.refctr_addr()),
        ensures
            count == alloc.record_at(self.refctr_addr()).strong,
    {
        alloc.read_record(self.refctr).strong
    }

    /// The amount of weak references to the shared value.
    pub fn weak(&self, alloc: &Allocator<T>) -> (count: usize)
        requires
            alloc.record_live(self.refctr_addr()),
        ensures
            count == alloc.record_at(self.refctr_addr()).weak,
    {
        alloc.read_record(self.refctr).weak
    }

    /// Creates a weak observer of the shared value: the weak count rises
    /// by exactly one and the strong count is left unchanged.
    pub fn downgrade(&self, alloc: &mut Allocator<T>) -> (observer: HeapRefWeak<T>)
        requires
            old(alloc).record_live(self.refctr_addr()),
            old(alloc).record_at(self.refctr_addr()).weak < usize::MAX,
        ensures
            observer.value_addr() == self.value_addr(),
            observer.refctr_addr() == self.refctr_addr(),
            final(alloc).recs() == old(alloc).recs().update(
                self.refctr_addr(),
                Some(
                    (RefCounter {
                        strong: old(alloc).record_at(self.refctr_addr()).strong,
                        weak: (old(alloc).record_at(self.refctr_addr()).weak + 1) as usize,
                    }),
                ),
            ),
            final(alloc).vals() == old(alloc).vals(),
            final(alloc).cap() == old(alloc).cap(),
    {
        let mut counter = alloc.read_record(self.refctr);
        counter.weak = counter.weak + 1;
        alloc.write_record(self.refctr, counter);
        HeapRefWeak { value: self.value, refctr: self.refctr, marker: core::marker::PhantomData }
    }

    /// Creates another strong handle to the shared value: the strong count
    /// rises by exactly one and the weak count is left unchanged.
    pub fn clone(&self, alloc: &mut Allocator<T>) -> (cloned: HeapRef<T>)
        requires
            old(alloc).record_live(self.refctr_addr()),
            old(alloc).record_at(self.refctr_addr()).strong < usize::MAX,
        ensures
            cloned.value_addr() == self.value_addr(),
            cloned.refctr_addr() == self.refctr_addr(),
            final(alloc).recs() == old(alloc).recs().update(
                self.refctr_addr(),
                Some(
                    (RefCounter {
                        strong: (old(alloc).record_at(self.refctr_addr()).strong + 1) as usize,
                        weak: old(alloc).record_at(self.refctr_addr()).weak,
                    }),
                ),
            ),
            final(alloc).vals() == old(alloc).vals(),
            final(alloc).cap() == old(alloc).cap(),
    {
        let mut counter = alloc.read_record(self.refctr);
        counter.strong = counter.strong + 1;
        alloc.write_record(self.refctr, counter);
        HeapRef { value: self.value, refctr: self.refctr, marker: core::marker::PhantomData }
    }

    /// Takes the shared value back as an owned heap object. Succeeds only
    /// when this is the last strong handle: the strong count is set to
    /// zero and the record is released if no weak observer holds it. With
    /// other strong handles outstanding, the handle is returned unchanged.
    pub fn try_unwrap_heap(self, alloc: &mut Allocator<T>, tracer: &mut Tracer) -> (result: Result<
        Heap<T>,
        HeapRef<T>,
    >)
        requires
            self.wf(*old(alloc)),
            (old(alloc).record_at(self.refctr_addr()).strong == 1 && old(alloc).record_at(
                self.refctr_addr(),
            ).weak == 0) ==> core::mem::size_of::<RefCounter>() <= old(tracer)@,
        ensures
            result is Ok <==> old(alloc).record_at(self.refctr_addr()).strong == 1,
            result is Ok ==> {
                let counter = old(alloc).record_at(self.refctr_addr());
                &&& result->Ok_0.addr() == self.value_addr()
                &&& (if counter.weak == 0 {
                    final(alloc).recs() == old(alloc).recs().update(self.refctr_addr(), None)
                        && final(tracer)@ == old(tracer)@ - core::mem::size_of::<RefCounter>()
                } else {
                    final(alloc).recs() == old(alloc).recs().update(
                        self.refctr_addr(),
                        Some((RefCounter { strong: 0, weak: counter.weak })),
                    ) && final(tracer)@ == old(tracer)@
                })
            },
            result is Err ==> {
                &&& result->Err_0 == self
                &&& final(alloc).recs() == old(alloc).recs()
                &&& final(tracer)@ == old(tracer)@
            },
            final(alloc).vals() == old(alloc).vals(),
            final(alloc).cap() == old(alloc).cap(),
    {
        if self.strong(alloc) > 1 {
            return Err(self);
        }
        let mut counter = alloc.read_record(self.refctr);
        counter.strong = 0;
        if counter.weak == 0 {
            alloc.free_record(self.refctr);
            decrement_allocated(tracer, core::mem::size_of::<RefCounter>());
        } else {
            alloc.write_record(self.refctr, counter);
        }
        let value = Heap::from_raw(self.value, alloc);
        Ok(value)
    }

    /// Takes the shared value itself back, releasing its allocation.
    /// Succeeds only when this is the last strong handle; with other
    /// strong handles outstanding, the handle is returned unchanged.
    pub fn try_unwrap(self, alloc: &mut Allocator<T>, tracer: &mut Tracer) -> (result: Result<
        T,
        HeapRef<T>,
    >)
        requires
            self.wf(*old(alloc)),
            old(alloc).record_at(self.refctr_addr()).strong == 1 ==> old(alloc).size_at(
                self.value_addr(),
            ) + (if old(alloc).record_at(self.refctr_addr()).weak == 0 {
                core::mem::size_of::<RefCounter>() as int
            } else {
                0
            }) <= old(tracer)@,
        ensures
            result is Ok <==> old(alloc).record_at(self.refctr_addr()).strong == 1,
            result is Ok ==> {
                let counter = old(alloc).record_at(self.refctr_addr());
                &&& result->Ok_0 == old(alloc).value_at(self.value_addr())
                &&& final(alloc).vals() == old(alloc).vals().update(
                    self.value_addr(),
                    Slot::<T>::Free,
                )
                &&& (if counter.weak == 0 {
                    final(alloc).recs() == old(alloc).recs().update(self.refctr_addr(), None)
                        && final(tracer)@ == old(tracer)@ - old(alloc).size_at(self.value_addr())
                        - core::mem::size_of::<RefCounter>()
                } else {
                    final(alloc).recs() == old(alloc).recs().update(
                        self.refctr_addr(),
                        Some((RefCounter { strong: 0, weak: counter.weak })),
                    ) && final(tracer)@ == old(tracer)@ - old(alloc).size_at(self.value_addr())
                })
            },
            result is Err ==> {
                &&& result->Err_0 == self
                &&& final(alloc).vals() == old(alloc).vals()
                &&& final(alloc).recs() == old(alloc).recs()
                &&& final(tracer)@ == old(tracer)@
            },
            final(alloc).cap() == old(alloc).cap(),
    {
        let value = match self.try_unwrap_heap(alloc, tracer) {
            Ok(value) => value,
            Err(this) => { return Err(this); },
        };
        Ok(value.into_inner(alloc, tracer))
    }

    /// Releases this strong handle: the strong count falls by one; the
    /// value is released when it reaches zero, and the record too when no
    /// weak observer holds it.
    pub fn free(self, alloc: &mut Allocator<T>, tracer: &mut Tracer)
        requires
            self.wf(*old(alloc)),
            old(alloc).record_at(self.refctr_addr()).strong == 1 ==> old(alloc).size_at(
                self.value_addr(),
            ) + (if old(alloc).record_at(self.refctr_addr()).weak == 0 {
                core::mem::size_of::<RefCounter>() as int
            } else {
                0
            }) <= old(tracer)@,
        ensures
            ({
                let counter = old(alloc).record_at(self.refctr_addr());
                if counter.strong > 1 {
                    final(alloc).vals() == old(alloc).vals() && final(alloc).recs() == old(
                        alloc,
                    ).recs().update(
                        self.refctr_addr(),
                        Some((RefCounter { strong: (counter.strong - 1) as usize, weak: counter.weak })),
                    ) && final(tracer)@ == old(tracer)@
                } else if counter.weak > 0 {
                    final(alloc).vals() == old(alloc).vals().update(
                        self.value_addr(),
                        Slot::<T>::Free,
                    ) && final(alloc).recs() == old(alloc).recs().update(
                        self.refctr_addr(),
                        Some((RefCounter { strong: 0, weak: counter.weak })),
                    ) && final(tracer)@ == old(tracer)@ - old(alloc).size_at(self.value_addr())
                } else {
                    final(alloc).vals() == old(alloc).vals().update(
                        self.value_addr(),
                        Slot::<T>::Free,
                    ) && final(alloc).recs() == old(alloc).recs().update(self.refctr_addr(), None)
                        && final(tracer)@ == old(tracer)@ - old(alloc).size_at(self.value_addr())
                        - core::mem::size_of::<RefCounter>()
                }
            }),
            final(alloc).cap() == old(alloc).cap(),
    {
        let mut counter = alloc.read_record(self.refctr);
        counter.strong = counter.strong - 1;
        alloc.write_record(self.refctr, counter);
        if counter.strong == 0 {
            let size = alloc.read_size(self.value);
            alloc.discard_value(self.value);
            decrement_allocated(tracer, size);
        }
        if counter.strong == 0 && counter.weak == 0 {
            alloc.free_record(self.refctr);
            decrement_allocated(tracer, core::mem::size_of::<RefCounter>());
        }
        proof {
            assert(alloc.recs() =~= (if old(alloc).record_at(self.refctr_addr()).strong > 1 {
                old(alloc).recs().update(
                    self.refctr_addr(),
                    Some(
                        (RefCounter {
                            strong: (old(alloc).record_at(self.refctr_addr()).strong - 1) as usize,
                            weak: old(alloc).record_at(self.refctr_addr()).weak,
                        }),
                    ),
                )
            } else if old(alloc).record_at(self.refctr_addr()).weak > 0 {
                old(alloc).recs().update(
                    self.refctr_addr(),
                    Some(
                        (RefCounter {
                            strong: 0,
                            weak: old(alloc).record_at(self.refctr_addr()).weak,
                        }),
                    ),
                )
            } else {
                old(alloc).recs().update(self.refctr_addr(), None)
            }));
        }
    }
}

impl<T> HeapRefWeak<T> {
    /// The address of the shared value's allocation.
    pub closed spec fn value_addr(self) -> int {
        self.value as int
    }

    /// The address of the reference-counter record's allocation.
    pub closed spec fn refctr_addr(self) -> int {
        self.refctr as int
    }

    /// Well-formed against the given allocator: the record is alive, this
    /// observer is counted in the weak count, and the value is alive
    /// whenever strong handles remain.
    pub open spec fn wf(self, alloc: Allocator<T>) -> bool {
        &&& alloc.record_live(self.refctr_addr())
        &&& alloc.record_at(self.refctr_addr()).weak >= 1
        &&& (alloc.record_at(self.refctr_addr()).strong >= 1 ==> alloc.value_live(
            self.value_addr(),
        ))
    }

    /// The amount of strong references to the shared value.
    pub fn strong(&self, alloc: &Allocator<T>) -> (count: usize)
        requires
            alloc.record_live(self.refctr_addr()),
        ensures
            count == alloc.record_at(self.refctr_addr()).strong,
    {
        alloc.read_record(self.refctr).strong
    }

    /// The amount of weak references to the shared value.
    pub fn weak(&self, alloc: &Allocator<T>) -> (count: usize)
        requires
            alloc.record_live(self.refctr_addr()),
        ensures
            count == alloc.record_at(self.refctr_addr()).weak,
    {
        alloc.read_record(self.refctr).weak
    }

    /// Tries to create a strong handle to the shared value. Once the
    /// strong count has reached zero it stays zero — the value cannot be
    /// resurrected, and nothing is returned; otherwise the strong count
    /// rises by exactly one.
    pub fn upgrade(&self, alloc: &mut Allocator<T>) -> (result: Option<HeapRef<T>>)
        requires
            self.wf(*old(alloc)),
            old(alloc).record_at(self.refctr_addr()).strong < usize::MAX,
        ensures
            result is Some <==> old(alloc).record_at(self.refctr_addr()).strong > 0,
            result is Some ==> {
                let handle = result->Some_0;
                &&& handle.value_addr() == self.value_addr()
                &&& handle.refctr_addr() == self.refctr_addr()
                &&& final(alloc).recs() == old(alloc).recs().update(
                    self.refctr_addr(),
                    Some(
                        (RefCounter {
                            strong: (old(alloc).record_at(self.refctr_addr()).strong + 1) as usize,
                            weak: old(alloc).record_at(self.refctr_addr()).weak,
                        }),
                    ),
                )
                &&& handle.wf(*final(alloc))
            },
            result is None ==> final(alloc).recs() == old(alloc).recs(),
            final(alloc).vals() == old(alloc).vals(),
            final(alloc).cap() == old(alloc).cap(),
    {
        let mut counter = alloc.read_record(self.refctr);
        if counter.strong == 0 {
            return None;
        }
        counter.strong = counter.strong + 1;
        alloc.write_record(self.refctr, counter);
        Some(HeapRef { value: self.value, refctr: self.refctr, marker: core::marker::PhantomData })
    }

    /// Creates another weak observer: the weak count rises by exactly one
    /// and the strong count is left unchanged.
    pub fn clone(&self, alloc: &mut Allocator<T>) -> (cloned: HeapRefWeak<T>)
        requires
            old(alloc).record_live(self.refctr_addr()),
            old(alloc).record_at(self.refctr_addr()).weak < usize::MAX,
        ensures
            cloned.value_addr() == self.value_addr(),
            cloned.refctr_addr() == self.refctr_addr(),
            final(alloc).recs() == old(alloc).recs().update(
                self.refctr_addr(),
                Some(
                    (RefCounter {
                        strong: old(alloc).record_at(self.refctr_addr()).strong,
                        weak: (old(alloc).record_at(self.refctr_addr()).weak + 1) as usize,
                    }),
                ),
            ),
            final(alloc).vals() == old(alloc).vals(),
            final(alloc).cap() == old(alloc).cap(),
    {
        let mut counter = alloc.read_record(self.refctr);
        counter.weak = counter.weak + 1;
        alloc.write_record(self.refctr, counter);
        HeapRefWeak { value: self.value, refctr: self.refctr, marker: core::marker::PhantomData }
    }

    /// Releases this weak observer: the weak count falls by one, and the
    /// record is released when both counts have reached zero.
    pub fn free(self, alloc: &mut Allocator<T>, tracer: &mut Tracer)
        requires
            old(alloc).record_live(self.refctr_addr()),
            old(alloc).record_at(self.refctr_addr()).weak >= 1,
            (old(alloc).record_at(self.refctr_addr()).strong == 0 && old(alloc).record_at(
                self.refctr_addr(),
            ).weak == 1) ==> core::mem::size_of::<RefCounter>() <= old(tracer)@,
        ensures
            ({
                let counter = old(alloc).record_at(self.refctr_addr());
                if counter.strong == 0 && counter.weak == 1 {
                    final(alloc).recs() == old(alloc).recs().update(self.refctr_addr(), None)
                        && final(tracer)@ == old(tracer)@ - core::mem::size_of::<RefCounter>()
                } else {
                    final(alloc).recs() == old(alloc).recs().update(
                        self.refctr_addr(),
                        Some(
                            (RefCounter {
                                strong: counter.strong,
                                weak: (counter.weak - 1) as usize,
                            }),
                        ),
                    ) && final(tracer)@ == old(tracer)@
                }
            }),
            final(alloc).vals() == old(alloc).vals(),
            final(alloc).cap() == old(alloc).cap(),
    {
        let mut counter = alloc.read_record(self.refctr);
        counter.weak = counter.weak - 1;
        alloc.write_record(self.refctr, counter);
        if counter.strong == 0 && counter.weak == 0 {
            alloc.free_record(self.refctr);
            decrement_allocated(tracer, core::mem::size_of::<RefCounter>());
            proof {
                assert(alloc.recs() =~= old(alloc).recs().update(self.refctr_addr(), None));
            }
        }
    }
}

} // verus!
