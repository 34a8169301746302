//! An exclusively owned heap object.
//!
//! A [`Heap`] is the sole owner of one allocation holding one value. All
//! allocation and deallocation in this crate flows through it. Operations
//! take the [`Allocator`] the box was made from and, where memory is
//! allocated or released, the [`Tracer`].

use crate::allocator::Allocator;
use crate::allocator::Slot;
use crate::trace::Tracer;
use crate::trace::decrement_allocated;
use crate::trace::increment_allocated;
use vstd::prelude::*;

verus! {

/// An allocated but not yet initialized heap object.
///
/// Produced by [`Heap::new_uninit`]; the caller writes the value and calls
/// [`UninitBox::assume_init`]. Initialization is a precondition of
/// `assume_init`, discharged by [`UninitBox::write`].
pub struct UninitBox<T> {
    memory: usize,
    marker: core::marker::PhantomData<T>,
}

/// An exclusively owned heap object: the sole owner of one allocation
/// sized for one `T`.
pub struct Heap<T> {
    memory: usize,
    marker: core::marker::PhantomData<T>,
}

impl<T> UninitBox<T> {
    /// The address of the allocation this box owns.
    pub closed spec fn addr(self) -> int {
        self.memory as int
    }

    /// Writes `value` into the allocation. May be called again to replace
    /// an earlier value.
    pub fn write(&self, value: T, alloc: &mut Allocator<T>)
        requires
            old(alloc).value_uninit(self.addr()) || old(alloc).value_live(self.addr()),
        ensures
            final(alloc).vals() == old(alloc).vals().update(
                self.addr(),
                Slot::<T>::Full(old(alloc).size_at(self.addr()), value),
            ),
            final(alloc).recs() == old(alloc).recs(),
            final(alloc).cap() == old(alloc).cap(),
    {
        alloc.write_value(self.memory, value);
    }

    /// Converts into an owned heap object. The allocation must have been
    /// fully initialized, which [`UninitBox::write`] establishes.
    pub fn assume_init(self, alloc: &Allocator<T>) -> (heap: Heap<T>)
        requires
            alloc.value_live(self.addr()),
        ensures
            heap.addr() == self.addr(),
    {
        Heap { memory: self.memory, marker: core::marker::PhantomData }
    }

    /// Releases the allocation, initialized or not, and undoes its trace.
    pub fn free(self, alloc: &mut Allocator<T>, tracer: &mut Tracer)
        requires
            old(alloc).value_uninit(self.addr()) || old(alloc).value_live(self.addr()),
            old(alloc).size_at(self.addr()) <= old(tracer)@,
        ensures
            final(alloc).vals() == old(alloc).vals().update(self.addr(), Slot::<T>::Free),
            final(alloc).recs() == old(alloc).recs(),
            final(alloc).cap() == old(alloc).cap(),
            final(tracer)@ == old(tracer)@ - old(alloc).size_at(self.addr()),
    {
        let size = alloc.read_size(self.memory);
        alloc.discard_value(self.memory);
        decrement_allocated(tracer, size);
    }
}

impl<T> Heap<T> {
    /// The address of the allocation this box owns.
    pub closed spec fn addr(self) -> int {
        self.memory as int
    }

    /// Allocates space for one `T` without initializing it, and records the
    /// allocation in the tracer. Returns nothing when allocation fails.
    pub fn new_uninit(alloc: &mut Allocator<T>, tracer: &mut Tracer) -> (result: Option<
        UninitBox<T>,
    >)
        requires
            old(alloc).can_alloc() ==> old(tracer)@ + core::mem::size_of::<T>() <= usize::MAX,
        ensures
            result is Some <==> old(alloc).can_alloc(),
            result is Some ==> {
                &&& result->Some_0.addr() == old(alloc).vals().len()
                &&& final(alloc).vals() == old(alloc).vals().push(
                    Slot::<T>::Uninit(core::mem::size_of::<T>()),
                )
                &&& final(tracer)@ == old(tracer)@ + core::mem::size_of::<T>()
            },
            result is None ==> final(alloc).vals() == old(alloc).vals() && final(tracer)@ == old(
                tracer,
            )@,
            final(alloc).recs() == old(alloc).recs(),
            final(alloc).cap() == old(alloc).cap(),
    {
        let size = core::mem::size_of::<T>();
        match alloc.alloc_value_slot(size) {
            Some(memory) => {
                increment_allocated(tracer, size);
                Some(UninitBox { memory, marker: core::marker::PhantomData })
            },
            None => None,
        }
    }

    /// Moves `value` to the heap. On allocation failure the value is handed
    /// back untouched and nothing is traced.
    pub fn new(value: T, alloc: &mut Allocator<T>, tracer: &mut Tracer) -> (result: Result<
        Heap<T>,
        T,
    >)
        requires
            old(alloc).can_alloc() ==> old(tracer)@ + core::mem::size_of::<T>() <= usize::MAX,
        ensures
            result is Ok <==> old(alloc).can_alloc(),
            result is Ok ==> {
                &&& result->Ok_0.addr() == old(alloc).vals().len()
                &&& final(alloc).vals() == old(alloc).vals().push(
                    Slot::<T>::Full(core::mem::size_of::<T>(), value),
                )
                &&& final(tracer)@ == old(tracer)@ + core::mem::size_of::<T>()
            },
            result is Err ==> {
                &&& result->Err_0 == value
                &&& final(alloc).vals() == old(alloc).vals()
                &&& final(tracer)@ == old(tracer)@
            },
            final(alloc).recs() == old(alloc).recs(),
            final(alloc).cap() == old(alloc).cap(),
    {
        let this = match Heap::new_uninit(alloc, tracer) {
            Some(this) => this,
            None => { return Err(value); },
        };
        this.write(value, alloc);
        proof {
            assert(alloc.vals() =~= old(alloc).vals().push(
                Slot::<T>::Full(core::mem::size_of::<T>(), value),
            ));
        }
        Ok(this.assume_init(alloc))
    }

    /// Rebuilds a heap object from a raw address produced by
    /// [`Heap::into_raw`]. The address must still name a live, initialized
    /// allocation of the given allocator: reusing an address whose
    /// allocation was already released is the double-free misuse of the raw
    /// primitive, and is ruled out here by the precondition.
    pub fn from_raw(memory: usize, alloc: &Allocator<T>) -> (heap: Heap<T>)
        requires
            alloc.value_live(memory as int),
        ensures
            heap.addr() == memory as int,
    {
        Heap { memory, marker: core::marker::PhantomData }
    }

    /// Takes the value out, releases the allocation and undoes its trace.
    pub fn into_inner(self, alloc: &mut Allocator<T>, tracer: &mut Tracer) -> (value: T)
        requires
            old(alloc).value_live(self.addr()),
            old(alloc).size_at(self.addr()) <= old(tracer)@,
        ensures
            value == old(alloc).value_at(self.addr()),
            final(alloc).vals() == old(alloc).vals().update(self.addr(), Slot::<T>::Free),
            final(alloc).recs() == old(alloc).recs(),
            final(alloc).cap() == old(alloc).cap(),
            final(tracer)@ == old(tracer)@ - old(alloc).size_at(self.addr()),
    {
        let size = alloc.read_size(self.memory);
        let element = alloc.take_value(self.memory);
        decrement_allocated(tracer, size);
        element
    }

    /// Consumes the box and hands out the raw address of its allocation,
    /// releasing nothing and leaving the trace untouched. The allocation is
    /// unmanaged from here on: rebuild a box with [`Heap::from_raw`] to
    /// release it, or leak it on purpose.
    pub fn into_raw(self) -> (memory: usize)
        ensures
            memory as int == self.addr(),
    {
        self.memory
    }

    /// A reference to the inner value.
    pub fn inner<'a>(&self, alloc: &'a Allocator<T>) -> (value: &'a T)
        requires
            alloc.value_live(self.addr()),
        ensures
            *value == alloc.value_at(self.addr()),
    {
        alloc.read_value(self.memory)
    }

    /// A mutable reference to the inner value.
    pub fn inner_mut<'a>(&self, alloc: &'a mut Allocator<T>) -> (value: &'a mut T)
        requires
            old(alloc).value_live(self.addr()),
        ensures
            *value == old(alloc).value_at(self.addr()),
            final(alloc).vals() == old(alloc).vals().update(
                self.addr(),
                Slot::<T>::Full(old(alloc).size_at(self.addr()), *final(value)),
            ),
            final(alloc).recs() == old(alloc).recs(),
            final(alloc).cap() == old(alloc).cap(),
    {
        alloc.borrow_value_mut(self.memory)
    }

    /// Tears the value down, releases the allocation and undoes its trace.
    pub fn free(self, alloc: &mut Allocator<T>, tracer: &mut Tracer)
        requires
            old(alloc).value_live(self.addr()),
            old(alloc).size_at(self.addr()) <= old(tracer)@,
        ensures
            final(alloc).vals() == old(alloc).vals().update(self.addr(), Slot::<T>::Free),
            final(alloc).recs() == old(alloc).recs(),
            final(alloc).cap() == old(alloc).cap(),
            final(tracer)@ == old(tracer)@ - old(alloc).size_at(self.addr()),
    {
        let size = alloc.read_size(self.memory);
        alloc.discard_value(self.memory);
        decrement_allocated(tracer, size);
    }
}

/// A source of successive values for the fixed-length segment
/// constructors, which call it once per slot, in index order.
pub trait Generator<T> {
    /// The values the generator will still produce, in order.
    spec fn future(&self) -> Seq<T>;

    /// Produces the next value.
    fn generate(&mut self) -> (value: T)
        requires
            old(self).future().len() > 0,
        ensures
            value == old(self).future()[0],
            final(self).future() == old(self).future().drop_first(),
    ;
}

/// A generator yielding the elements of a vector, first to last.
pub struct VecGenerator<T> {
    items: Vec<T>,
}

impl<T> VecGenerator<T> {
    /// A generator over the given elements.
    pub fn new(items: Vec<T>) -> (generator: VecGenerator<T>)
        ensures
            generator.future() == items@,
    {
        VecGenerator { items }
    }
}

impl<T> Generator<T> for VecGenerator<T> {
    closed spec fn future(&self) -> Seq<T> {
        self.items@
    }

    fn generate(&mut self) -> (value: T) {
        let ghost orig = self.items@;
        let value = self.items.remove(0);
        proof {
            assert(self.items@ =~= orig.drop_first());
        }
        value
    }
}

impl<T> Heap<Vec<T>> {
    /// One allocation holding a fixed-length segment of `len` elements,
    /// each initialized with `T::default()`, in index order.
    pub fn new_default(len: usize, alloc: &mut Allocator<Vec<T>>, tracer: &mut Tracer) -> (result:
        Option<Heap<Vec<T>>>) where T: Default
        requires
            (old(alloc).can_alloc() && len * core::mem::size_of::<T>() <= usize::MAX) ==> old(
                tracer,
            )@ + len * core::mem::size_of::<T>() <= usize::MAX,
        ensures
            result is Some <==> (old(alloc).can_alloc() && len * core::mem::size_of::<T>()
                <= usize::MAX),
            result is Some ==> {
                let addr = result->Some_0.addr();
                &&& addr == old(alloc).vals().len()
                &&& final(alloc).vals() == old(alloc).vals().push(final(alloc).vals().last())
                &&& final(alloc).value_live(addr)
                &&& final(alloc).size_at(addr) == len * core::mem::size_of::<T>()
                &&& final(alloc).value_at(addr)@.len() == len
                &&& (forall|i: int|
                    0 <= i < len ==> call_ensures(
                        T::default,
                        (),
                        #[trigger] final(alloc).value_at(addr)@[i],
                    ))
                &&& final(tracer)@ == old(tracer)@ + len * core::mem::size_of::<T>()
            },
            result is None ==> final(alloc).vals() == old(alloc).vals() && final(tracer)@ == old(
                tracer,
            )@,
            final(alloc).recs() == old(alloc).recs(),
            final(alloc).cap() == old(alloc).cap(),
    {
        let size = match len.checked_mul(core::mem::size_of::<T>()) {
            Some(size) => size,
            None => { return None; },
        };
        if !alloc.can_allocate() {
            return None;
        }
        let mut elements: Vec<T> = Vec::new();
        let mut nth: usize = 0;
        while nth < len
            invariant
                nth <= len,
                elements@.len() == nth,
                forall|i: int|
                    0 <= i < nth ==> call_ensures(T::default, (), #[trigger] elements@[i]),
            decreases len - nth,
        {
            elements.push(T::default());
            nth = nth + 1;
        }
        let memory = match alloc.alloc_value_slot(size) {
            Some(memory) => memory,
            None => vstd::pervasive::unreached(),
        };
        alloc.write_value(memory, elements);
        increment_allocated(tracer, size);
        proof {
            assert(alloc.vals() =~= old(alloc).vals().push(alloc.vals().last()));
        }
        Some(Heap { memory, marker: core::marker::PhantomData })
    }

    /// One allocation holding a fixed-length segment of `len` elements,
    /// initialized in index order with the generator's next values.
    ///
    /// The generator must have a value left for every slot; running out
    /// mid-construction is ruled out by the precondition. On allocation
    /// failure the generator is left untouched.
    pub fn new_from_fn<G: Generator<T>>(
        len: usize,
        generator: &mut G,
        alloc: &mut Allocator<Vec<T>>,
        tracer: &mut Tracer,
    ) -> (result: Option<Heap<Vec<T>>>)
        requires
            old(generator).future().len() >= len,
            (old(alloc).can_alloc() && len * core::mem::size_of::<T>() <= usize::MAX) ==> old(
                tracer,
            )@ + len * core::mem::size_of::<T>() <= usize::MAX,
        ensures
            result is Some <==> (old(alloc).can_alloc() && len * core::mem::size_of::<T>()
                <= usize::MAX),
            result is Some ==> {
                let addr = result->Some_0.addr();
                &&& addr == old(alloc).vals().len()
                &&& final(alloc).vals() == old(alloc).vals().push(final(alloc).vals().last())
                &&& final(alloc).value_live(addr)
                &&& final(alloc).size_at(addr) == len * core::mem::size_of::<T>()
                &&& final(alloc).value_at(addr)@ == old(generator).future().take(len as int)
                &&& final(generator).future() == old(generator).future().skip(len as int)
                &&& final(tracer)@ == old(tracer)@ + len * core::mem::size_of::<T>()
            },
            result is None ==> final(alloc).vals() == old(alloc).vals() && final(tracer)@ == old(
                tracer,
            )@ && *final(generator) == *old(generator),
            final(alloc).recs() == old(alloc).recs(),
            final(alloc).cap() == old(alloc).cap(),
    {
        let size = match len.checked_mul(core::mem::size_of::<T>()) {
            Some(size) => size,
            None => { return None; },
        };
        if !alloc.can_allocate() {
            return None;
        }
        let ghost orig = generator.future();
        let mut elements: Vec<T> = Vec::new();
        let mut nth: usize = 0;
        while nth < len
            invariant
                nth <= len,
                orig.len() >= len,
                orig == old(generator).future(),
                elements@ == orig.take(nth as int),
                generator.future() == orig.skip(nth as int),
            decreases len - nth,
        {
            let value = generator.generate();
            elements.push(value);
            proof {
                assert(elements@ =~= orig.take(nth as int + 1));
                assert(generator.future() =~= orig.skip(nth as int + 1));
            }
            nth = nth + 1;
        }
        let memory = match alloc.alloc_value_slot(size) {
            Some(memory) => memory,
            None => vstd::pervasive::unreached(),
        };
        alloc.write_value(memory, elements);
        increment_allocated(tracer, size);
        proof {
            assert(alloc.vals() =~= old(alloc).vals().push(alloc.vals().last()));
        }
        Some(Heap { memory, marker: core::marker::PhantomData })
    }
}

} // verus!
