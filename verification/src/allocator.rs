//! The allocator binding: a verified model of the host's raw
//! allocate/deallocate pair.
//!
//! The host hands this crate contiguous regions of a known byte size,
//! addressed by an opaque value. The model keeps every region this crate
//! ever requested in one [`Allocator`] arena: a region for one value of `T`,
//! or a region for one [`RefCounter`] record. An address is an index into
//! the arena and is never handed out twice, so a stale address can always be
//! told from a live one; releasing more regions never widens the arena, and
//! allocation fails — as the raw primitive may at any time — once `cap`
//! regions have been handed out.
//!
//! Misusing an address (releasing it twice, or reading through it after its
//! region was released) is undefined behavior at the raw primitive; here it
//! is ruled out by the preconditions of every operation that takes an
//! address.

use vstd::prelude::*;

verus! {

/// A shared reference counter record: the strong and weak counts kept for
/// one shared value. Exactly one record exists per distinct shared value.
#[derive(Clone, Copy, PartialEq, Eq, Structural)]
pub struct RefCounter {
    /// The amount of strong references.
    pub strong: usize,
    /// The amount of weak references.
    pub weak: usize,
}

/// The state of one value-sized region handed out by the allocator.
pub enum Slot<T> {
    /// Released; the address is retired and never handed out again.
    Free,
    /// Allocated with the given byte size, not yet initialized.
    Uninit(usize),
    /// Allocated with the given byte size and holding a value.
    Full(usize, T),
}

/// The model of the host allocator, holding every region this crate
/// requested from it: value regions and reference-counter regions.
pub struct Allocator<T> {
    values: Vec<Slot<T>>,
    records: Vec<Option<RefCounter>>,
    cap: usize,
}

impl<T> Allocator<T> {
    /// Every value region ever handed out, by address.
    pub closed spec fn vals(self) -> Seq<Slot<T>> {
        self.values@
    }

    /// Every reference-counter region ever handed out, by address.
    pub closed spec fn recs(self) -> Seq<Option<RefCounter>> {
        self.records@
    }

    /// How many regions the allocator can hand out in all.
    pub closed spec fn cap(self) -> int {
        self.cap as int
    }

    /// Whether one more allocation of either kind can still succeed.
    pub open spec fn can_alloc(self) -> bool {
        self.vals().len() + self.recs().len() < self.cap()
    }

    /// The value region at `addr` is allocated and initialized.
    pub open spec fn value_live(self, addr: int) -> bool {
        0 <= addr < self.vals().len() && self.vals()[addr] is Full
    }

    /// The value region at `addr` is allocated but not yet initialized.
    pub open spec fn value_uninit(self, addr: int) -> bool {
        0 <= addr < self.vals().len() && self.vals()[addr] is Uninit
    }

    /// The value stored in the region at `addr`.
    pub open spec fn value_at(self, addr: int) -> T
        recommends
            self.value_live(addr),
    {
        self.vals()[addr]->Full_1
    }

    /// The byte size the region at `addr` was allocated with.
    pub open spec fn size_at(self, addr: int) -> usize
        recommends
            self.value_live(addr) || self.value_uninit(addr),
    {
        match self.vals()[addr] {
            Slot::Free => 0,
            Slot::Uninit(size) => size,
            Slot::Full(size, _) => size,
        }
    }

    /// The reference-counter region at `addr` is allocated.
    pub open spec fn record_live(self, addr: int) -> bool {
        0 <= addr < self.recs().len() && self.recs()[addr] is Some
    }

    /// The reference counter stored in the region at `addr`.
    pub open spec fn record_at(self, addr: int) -> RefCounter
        recommends
            self.record_live(addr),
    {
        self.recs()[addr]->0
    }

    /// A fresh allocator able to hand out `cap` regions in all.
    pub fn new(cap: usize) -> (alloc: Allocator<T>)
        ensures
            alloc.vals() == Seq::<Slot<T>>::empty(),
            alloc.recs() == Seq::<Option<RefCounter>>::empty(),
            alloc.cap() == cap as int,
    {
        Allocator { values: Vec::new(), records: Vec::new(), cap }
    }

    /// Whether one more allocation of either kind can still succeed.
    pub fn can_allocate(&self) -> (can: bool)
        ensures
            can == self.can_alloc(),
    {
        self.records.len() < self.cap && self.values.len() < self.cap - self.records.len()
    }

    /// allocate(size) for one value of `T`: a fresh, uninitialized region,
    /// or nothing when the allocator is exhausted.
    pub(crate) fn alloc_value_slot(&mut self, size: usize) -> (result: Option<usize>)
        ensures
            old(self).can_alloc() ==> result is Some && result->Some_0 as int == old(
                self,
            ).vals().len() && final(self).vals() == old(self).vals().push(Slot::<T>::Uninit(size)),
            !old(self).can_alloc() ==> result is None && final(self).vals() == old(self).vals(),
            final(self).recs() == old(self).recs(),
            final(self).cap() == old(self).cap(),
    {
        if self.can_allocate() {
            let addr = self.values.len();
            self.values.push(Slot::Uninit(size));
            Some(addr)
        } else {
            None
        }
    }

    /// Initializes (or overwrites) the value region at `addr`.
    pub(crate) fn write_value(&mut self, addr: usize, value: T)
        requires
            old(self).value_uninit(addr as int) || old(self).value_live(addr as int),
        ensures
            final(self).vals() == old(self).vals().update(
                addr as int,
                Slot::<T>::Full(old(self).size_at(addr as int), value),
            ),
            final(self).recs() == old(self).recs(),
            final(self).cap() == old(self).cap(),
    {
        let size = match &self.values[addr] {
            Slot::Free => 0,
            Slot::Uninit(size) => *size,
            Slot::Full(size, _) => *size,
        };
        let slot = &mut self.values[addr];
        *slot = Slot::Full(size, value);
    }

    /// A reference into the live value region at `addr`.
    pub(crate) fn read_value(&self, addr: usize) -> (value: &T)
        requires
            self.value_live(addr as int),
        ensures
            *value == self.value_at(addr as int),
    {
        match &self.values[addr] {
            Slot::Full(_, value) => value,
            _ => vstd::pervasive::unreached(),
        }
    }

    /// A mutable reference into the live value region at `addr`.
    pub(crate) fn borrow_value_mut(&mut self, addr: usize) -> (value: &mut T)
        requires
            old(self).value_live(addr as int),
        ensures
            *value == old(self).value_at(addr as int),
            final(self).vals() == old(self).vals().update(
                addr as int,
                Slot::<T>::Full(old(self).size_at(addr as int), *final(value)),
            ),
            final(self).recs() == old(self).recs(),
            final(self).cap() == old(self).cap(),
    {
        let slot = &mut self.values[addr];
        match slot {
            Slot::Full(_, value) => value,
            _ => vstd::pervasive::unreached(),
        }
    }

    /// The byte size the live or uninitialized region at `addr` was
    /// allocated with.
    pub(crate) fn read_size(&self, addr: usize) -> (size: usize)
        requires
            self.value_live(addr as int) || self.value_uninit(addr as int),
        ensures
            size == self.size_at(addr as int),
    {
        match &self.values[addr] {
            Slot::Free => vstd::pervasive::unreached(),
            Slot::Uninit(size) => *size,
            Slot::Full(size, _) => *size,
        }
    }

    /// deallocate for the value region at `addr`, handing its value back.
    pub(crate) fn take_value(&mut self, addr: usize) -> (value: T)
        requires
            old(self).value_live(addr as int),
        ensures
            value == old(self).value_at(addr as int),
            final(self).vals() == old(self).vals().update(addr as int, Slot::<T>::Free),
            final(self).recs() == old(self).recs(),
            final(self).cap() == old(self).cap(),
    {
        let mut slot = Slot::Free;
        core::mem::swap(&mut slot, &mut self.values[addr]);
        match slot {
            Slot::Full(_, value) => value,
            _ => vstd::pervasive::unreached(),
        }
    }

    /// deallocate for the value region at `addr`, discarding its contents.
    pub(crate) fn discard_value(&mut self, addr: usize)
        requires
            old(self).value_uninit(addr as int) || old(self).value_live(addr as int),
        ensures
            final(self).vals() == old(self).vals().update(addr as int, Slot::<T>::Free),
            final(self).recs() == old(self).recs(),
            final(self).cap() == old(self).cap(),
    {
        let slot = &mut self.values[addr];
        *slot = Slot::Free;
    }

    /// allocate for one reference-counter record, or nothing when the
    /// allocator is exhausted.
    pub(crate) fn alloc_record(&mut self, counter: RefCounter) -> (result: Option<usize>)
        ensures
            old(self).can_alloc() ==> result is Some && result->Some_0 as int == old(
                self,
            ).recs().len() && final(self).recs() == old(self).recs().push(Some(counter)),
            !old(self).can_alloc() ==> result is None && final(self).recs() == old(self).recs(),
            final(self).vals() == old(self).vals(),
            final(self).cap() == old(self).cap(),
    {
        if self.can_allocate() {
            let addr = self.records.len();
            self.records.push(Some(counter));
            Some(addr)
        } else {
            None
        }
    }

    /// The reference counter stored in the live record region at `addr`.
    pub(crate) fn read_record(&self, addr: usize) -> (counter: RefCounter)
        requires
            self.record_live(addr as int),
        ensures
            counter == self.record_at(addr as int),
    {
        match &self.records[addr] {
            Some(counter) => *counter,
            None => vstd::pervasive::unreached(),
        }
    }

    /// Overwrites the reference counter in the live record region at `addr`.
    pub(crate) fn write_record(&mut self, addr: usize, counter: RefCounter)
        requires
            old(self).record_live(addr as int),
        ensures
            final(self).recs() == old(self).recs().update(addr as int, Some(counter)),
            final(self).vals() == old(self).vals(),
            final(self).cap() == old(self).cap(),
    {
        let slot = &mut self.records[addr];
        *slot = Some(counter);
    }

    /// deallocate for the record region at `addr`.
    pub(crate) fn free_record(&mut self, addr: usize)
        requires
            old(self).record_live(addr as int),
        ensures
            final(self).recs() == old(self).recs().update(addr as int, None),
            final(self).vals() == old(self).vals(),
            final(self).cap() == old(self).cap(),
    {
        let slot = &mut self.records[addr];
        *slot = None;
    }
}

} // verus!
