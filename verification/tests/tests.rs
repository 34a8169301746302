use picosdk_malloc::Heap;
use picosdk_malloc::HeapRef;
use picosdk_malloc::allocator::Allocator;
use picosdk_malloc::heap::UninitBox;
use picosdk_malloc::heap::VecGenerator;
use picosdk_malloc::heapref::overhead;
use picosdk_malloc::laws::box_round_trip;
use picosdk_malloc::laws::clone_then_free;
use picosdk_malloc::laws::unwrap_after_last_clone;
use picosdk_malloc::trace::Tracer;
use picosdk_malloc::trace::allocated;

/// A testing struct with a non-`0` default value
struct Testolope(u8);
impl Default for Testolope {
    fn default() -> Self {
        Self(0x07)
    }
}

pub fn uninit(tracer: &mut Tracer) {
    // Allocate memory
    let mut alloc: Allocator<[u8; 9]> = Allocator::new(16);
    let heap: UninitBox<[u8; 9]> =
        Heap::new_uninit(&mut alloc, tracer).expect("failed to allocate memory");
    assert_eq!(allocated(tracer), 9, "invalid amount of allocated bytes");
    heap.free(&mut alloc, tracer);
}

pub fn assume_init(tracer: &mut Tracer) {
    // Allocate memory
    let mut alloc: Allocator<[u8; 9]> = Allocator::new(16);
    let heap: UninitBox<[u8; 9]> =
        Heap::new_uninit(&mut alloc, tracer).expect("failed to allocate memory");
    heap.write(*b"Testolope", &mut alloc);

    // Validate value
    let heap = heap.assume_init(&alloc);
    assert_eq!(heap.inner(&alloc), b"Testolope", "invalid value on heap");
    heap.free(&mut alloc, tracer);
}

pub fn new(tracer: &mut Tracer) {
    // Allocate memory
    let mut alloc: Allocator<[u8; 9]> = Allocator::new(16);
    let heap = Heap::new(*b"Testolope", &mut alloc, tracer).expect("failed to allocate memory");
    assert_eq!(heap.inner(&alloc), b"Testolope", "invalid value on heap");
    assert_eq!(allocated(tracer), 9, "invalid amount of allocated bytes");

    // Deallocate memory
    heap.free(&mut alloc, tracer);
}

pub fn from_raw(tracer: &mut Tracer) {
    // Create raw address
    let mut alloc: Allocator<[u8; 9]> = Allocator::new(16);
    let heap = Heap::new(*b"Testolope", &mut alloc, tracer).expect("failed to allocate memory");
    let memory = heap.into_raw();

    // Load raw address
    let heap = Heap::from_raw(memory, &alloc);
    assert_eq!(heap.inner(&alloc), b"Testolope", "invalid value on heap");
    assert_eq!(allocated(tracer), 9, "invalid amount of allocated bytes");
    heap.free(&mut alloc, tracer);
}

pub fn into_inner(tracer: &mut Tracer) {
    // Allocate memory
    let mut alloc: Allocator<[u8; 9]> = Allocator::new(16);
    let heap = Heap::new(*b"Testolope", &mut alloc, tracer).expect("failed to allocate memory");

    // Take the value
    let value = heap.into_inner(&mut alloc, tracer);
    assert_eq!(value, *b"Testolope", "invalid value on heap");
    assert_eq!(allocated(tracer), 0, "invalid amount of allocated bytes");
}

pub fn into_raw(tracer: &mut Tracer) {
    // Create raw address
    let mut alloc: Allocator<[u8; 9]> = Allocator::new(16);
    let heap = Heap::new(*b"Testolope", &mut alloc, tracer).expect("failed to allocate memory");
    let memory = heap.into_raw();
    assert_eq!(allocated(tracer), 9, "invalid amount of allocated bytes");

    // Compare the bytes
    let heap = Heap::from_raw(memory, &alloc);
    assert_eq!(heap.inner(&alloc), b"Testolope", "invalid value on heap");

    // Drop memory
    heap.free(&mut alloc, tracer);
}

pub fn inner(tracer: &mut Tracer) {
    // Allocate memory and reference it
    let mut alloc: Allocator<[u8; 9]> = Allocator::new(16);
    let heap = Heap::new(*b"Testolope", &mut alloc, tracer).expect("failed to allocate memory");

    // Validate value
    assert_eq!(heap.inner(&alloc), b"Testolope", "invalid value on heap");
    heap.free(&mut alloc, tracer);
}

pub fn inner_mut(tracer: &mut Tracer) {
    // Allocate memory
    let mut alloc: Allocator<[u8; 9]> = Allocator::new(16);
    let heap = Heap::new(*b"Testolope", &mut alloc, tracer).expect("failed to allocate memory");

    // Modify and validate value
    let value = heap.inner_mut(&mut alloc);
    value.make_ascii_uppercase();
    assert_eq!(value, b"TESTOLOPE", "invalid value on heap");
    heap.free(&mut alloc, tracer);
}

pub fn new_default(tracer: &mut Tracer) {
    // Allocate memory
    let mut alloc: Allocator<Vec<Testolope>> = Allocator::new(16);
    let heap: Heap<Vec<Testolope>> =
        Heap::new_default(9, &mut alloc, tracer).expect("failed to allocate memory");
    let all_0x07 = heap.inner(&alloc).iter().all(|value| value.0 == 0x07);
    assert!(all_0x07, "invalid value on heap");
    heap.free(&mut alloc, tracer);
}

pub fn new_from_fn(tracer: &mut Tracer) {
    // Create the init function
    let mut generator = VecGenerator::new(b"Testolope".to_vec());

    // Allocate memory
    let mut alloc: Allocator<Vec<u8>> = Allocator::new(16);
    let heap: Heap<Vec<u8>> = Heap::new_from_fn(9, &mut generator, &mut alloc, tracer)
        .expect("failed to allocate memory");
    assert_eq!(heap.inner(&alloc).as_slice(), b"Testolope", "invalid value on heap");
    heap.free(&mut alloc, tracer);
}

pub fn heapref_new_from_heap(tracer: &mut Tracer) {
    // Allocate memory
    let mut alloc: Allocator<[u8; 9]> = Allocator::new(16);
    let heap = Heap::new(*b"Testolope", &mut alloc, tracer).expect("failed to allocate memory");

    // Move the object into a heapref
    let heapref = match HeapRef::new_from_heap(heap, &mut alloc, tracer) {
        Ok(heapref) => heapref,
        Err(_) => panic!("failed to allocate memory"),
    };
    assert_eq!(allocated(tracer), 9 + overhead(), "invalid amount of allocated bytes");
    heapref.free(&mut alloc, tracer);
}

pub fn heapref_new(tracer: &mut Tracer) {
    // Allocate memory
    let mut alloc: Allocator<[u8; 9]> = Allocator::new(16);
    let heapref =
        HeapRef::new(*b"Testolope", &mut alloc, tracer).expect("failed to allocate memory");
    assert_eq!(allocated(tracer), 9 + overhead(), "invalid amount of allocated bytes");
    heapref.free(&mut alloc, tracer);
}

pub fn heapref_inner(tracer: &mut Tracer) {
    // Allocate memory and reference it
    let mut alloc: Allocator<[u8; 9]> = Allocator::new(16);
    let heapref =
        HeapRef::new(*b"Testolope", &mut alloc, tracer).expect("failed to allocate memory");
    let value = heapref.inner(&alloc);
    assert_eq!(value, b"Testolope", "invalid value on heap");
    heapref.free(&mut alloc, tracer);
}

pub fn heapref_strong(tracer: &mut Tracer) {
    // Allocate memory
    let mut alloc: Allocator<[u8; 9]> = Allocator::new(16);
    let heapref =
        HeapRef::new(*b"Testolope", &mut alloc, tracer).expect("failed to allocate memory");
    assert_eq!(heapref.strong(&alloc), 1, "invalid strong reference count");
    heapref.free(&mut alloc, tracer);
}

pub fn heapref_weak(tracer: &mut Tracer) {
    // Allocate memory
    let mut alloc: Allocator<[u8; 9]> = Allocator::new(16);
    let heapref =
        HeapRef::new(*b"Testolope", &mut alloc, tracer).expect("failed to allocate memory");
    assert_eq!(heapref.weak(&alloc), 0, "invalid weak reference count");
    heapref.free(&mut alloc, tracer);
}

pub fn heapref_downgrade(tracer: &mut Tracer) {
    // Allocate memory
    let mut alloc: Allocator<[u8; 9]> = Allocator::new(16);
    let heapref =
        HeapRef::new(*b"Testolope", &mut alloc, tracer).expect("failed to allocate memory");
    let weak = heapref.downgrade(&mut alloc);
    assert_eq!(heapref.weak(&alloc), 1, "invalid weak reference count");

    // Drop the weak reference
    weak.free(&mut alloc, tracer);
    assert_eq!(heapref.weak(&alloc), 0, "invalid weak reference count");
    heapref.free(&mut alloc, tracer);
}

pub fn heapref_try_unwrap_heap(tracer: &mut Tracer) {
    // Allocate memory and clone heapref
    let mut alloc: Allocator<[u8; 9]> = Allocator::new(16);
    let heapref =
        HeapRef::new(*b"Testolope", &mut alloc, tracer).expect("failed to allocate memory");
    let clone = heapref.clone(&mut alloc);

    // Try to unwrap the heap object and drop the clone
    let heapref = match heapref.try_unwrap_heap(&mut alloc, tracer) {
        Err(heapref) => heapref,
        Ok(_) => panic!("no error when upgrading shared heap reference"),
    };
    clone.free(&mut alloc, tracer);

    // Unwrap the heap object
    let value = match heapref.try_unwrap_heap(&mut alloc, tracer) {
        Ok(value) => value,
        Err(_) => panic!("failed to unwrap exclusive heap reference"),
    };
    assert_eq!(allocated(tracer), 9, "invalid amount of allocated bytes");
    value.free(&mut alloc, tracer);
}

pub fn heapref_try_unwrap(tracer: &mut Tracer) {
    // Allocate memory and clone heapref
    let mut alloc: Allocator<[u8; 9]> = Allocator::new(16);
    let heapref =
        HeapRef::new(*b"Testolope", &mut alloc, tracer).expect("failed to allocate memory");
    let clone = heapref.clone(&mut alloc);

    // Try to unwrap the heap object and drop the clone
    let heapref = match heapref.try_unwrap(&mut alloc, tracer) {
        Err(heapref) => heapref,
        Ok(_) => panic!("no error when upgrading shared heap reference"),
    };
    clone.free(&mut alloc, tracer);

    // Unwrap the heap object
    let value = match heapref.try_unwrap(&mut alloc, tracer) {
        Ok(value) => value,
        Err(_) => panic!("failed to unwrap exclusive heap reference"),
    };
    assert_eq!(allocated(tracer), 0, "invalid amount of allocated bytes");
    drop(value);
}

pub fn heapref_clone(tracer: &mut Tracer) {
    // Allocate memory
    let mut alloc: Allocator<[u8; 9]> = Allocator::new(16);
    let heapref =
        HeapRef::new(*b"Testolope", &mut alloc, tracer).expect("failed to allocate memory");
    let clone = heapref.clone(&mut alloc);
    assert_eq!(heapref.strong(&alloc), 2, "invalid strong reference count");

    // Drop clone
    clone.free(&mut alloc, tracer);
    assert_eq!(heapref.strong(&alloc), 1, "invalid strong reference count");
    heapref.free(&mut alloc, tracer);
}

pub fn heaprefweak_strong(tracer: &mut Tracer) {
    // Allocate memory
    let mut alloc: Allocator<[u8; 9]> = Allocator::new(16);
    let heapref =
        HeapRef::new(*b"Testolope", &mut alloc, tracer).expect("failed to allocate memory");
    let weak = heapref.downgrade(&mut alloc);

    // Validate refcount
    assert_eq!(heapref.strong(&alloc), 1, "invalid strong reference count");
    weak.free(&mut alloc, tracer);
    heapref.free(&mut alloc, tracer);
}

pub fn heaprefweak_weak(tracer: &mut Tracer) {
    // Allocate memory
    let mut alloc: Allocator<[u8; 9]> = Allocator::new(16);
    let heapref =
        HeapRef::new(*b"Testolope", &mut alloc, tracer).expect("failed to allocate memory");
    let weak = heapref.downgrade(&mut alloc);

    // Validate refcount
    assert_eq!(weak.weak(&alloc), 1, "invalid weak reference count");
    weak.free(&mut alloc, tracer);
    heapref.free(&mut alloc, tracer);
}

pub fn heaprefweak_upgrade(tracer: &mut Tracer) {
    // Allocate memory
    let mut alloc: Allocator<[u8; 9]> = Allocator::new(16);
    let heapref =
        HeapRef::new(*b"Testolope", &mut alloc, tracer).expect("failed to allocate memory");
    let weak = heapref.downgrade(&mut alloc);
    assert_eq!(weak.strong(&alloc), 1, "invalid strong reference count");

    // Validate refcount
    let heapref2 = weak.upgrade(&mut alloc).expect("failed to upgrade weak reference");
    assert_eq!(weak.strong(&alloc), 2, "invalid strong reference count");

    // Drop strong references
    heapref.free(&mut alloc, tracer);
    heapref2.free(&mut alloc, tracer);
    assert!(
        weak.upgrade(&mut alloc).is_none(),
        "no error when upgrading orhpaned weak reference"
    );
    weak.free(&mut alloc, tracer);
}

pub fn heaprefweak_clone(tracer: &mut Tracer) {
    // Allocate memory
    let mut alloc: Allocator<[u8; 9]> = Allocator::new(16);
    let heapref =
        HeapRef::new(*b"Testolope", &mut alloc, tracer).expect("failed to allocate memory");
    let weak = heapref.downgrade(&mut alloc);
    assert_eq!(weak.weak(&alloc), 1, "invalid weak reference count");

    // Clone the weak reference
    let clone = weak.clone(&mut alloc);
    assert_eq!(weak.weak(&alloc), 2, "invalid weak reference count");

    // Drop clone
    clone.free(&mut alloc, tracer);
    assert_eq!(weak.weak(&alloc), 1, "invalid weak reference count");
    weak.free(&mut alloc, tracer);
    heapref.free(&mut alloc, tracer);
}

/// Runs all tests in sequential order
#[test]
fn all_sequential() {
    let mut tracer = Tracer::new();

    // Heap tests
    new(&mut tracer);
    from_raw(&mut tracer);
    into_inner(&mut tracer);
    into_raw(&mut tracer);
    inner(&mut tracer);
    inner_mut(&mut tracer);
    uninit(&mut tracer);
    assume_init(&mut tracer);
    new_default(&mut tracer);
    new_from_fn(&mut tracer);

    // HeapRef tests
    heapref_new_from_heap(&mut tracer);
    heapref_new(&mut tracer);
    heapref_inner(&mut tracer);
    heapref_strong(&mut tracer);
    heapref_weak(&mut tracer);
    heapref_downgrade(&mut tracer);
    heapref_try_unwrap_heap(&mut tracer);
    heapref_try_unwrap(&mut tracer);
    heapref_clone(&mut tracer);
    heaprefweak_strong(&mut tracer);
    heaprefweak_weak(&mut tracer);
    heaprefweak_upgrade(&mut tracer);
    heaprefweak_clone(&mut tracer);

    // Ensure that we have not leaked memory
    assert_eq!(allocated(&tracer), 0, "invalid amount of allocated bytes");
}

/// The end-to-end shared-ownership lifecycle: allocation sizes, the weak
/// observer outliving the value, and the tracer returning to zero.
#[test]
fn shared_lifecycle() {
    let mut alloc: Allocator<[u8; 9]> = Allocator::new(8);
    let mut tracer = Tracer::new();

    let heapref =
        HeapRef::new(*b"Testolope", &mut alloc, &mut tracer).expect("failed to allocate memory");
    assert_eq!(allocated(&tracer), 9 + overhead(), "invalid amount of allocated bytes");

    let weak = heapref.downgrade(&mut alloc);
    assert_eq!(weak.weak(&alloc), 1, "invalid weak reference count");
    assert_eq!(weak.strong(&alloc), 1, "invalid strong reference count");

    // Drop the strong handle: the value goes, the record stays
    heapref.free(&mut alloc, &mut tracer);
    assert_eq!(weak.strong(&alloc), 0, "invalid strong reference count");
    assert_eq!(weak.weak(&alloc), 1, "invalid weak reference count");
    assert_eq!(allocated(&tracer), overhead(), "invalid amount of allocated bytes");

    // No resurrection
    assert!(weak.upgrade(&mut alloc).is_none(), "no error when upgrading orphaned weak reference");

    // Drop the weak handle: the record goes too
    weak.free(&mut alloc, &mut tracer);
    assert_eq!(allocated(&tracer), 0, "invalid amount of allocated bytes");
}

/// The generator-built segment holds the generator's values in index order.
#[test]
fn generator_segment_matches_source() {
    let mut alloc: Allocator<Vec<u8>> = Allocator::new(4);
    let mut tracer = Tracer::new();
    let mut generator = VecGenerator::new(b"Testolope".to_vec());

    let heap: Heap<Vec<u8>> = Heap::new_from_fn(9, &mut generator, &mut alloc, &mut tracer)
        .expect("failed to allocate memory");
    assert_eq!(allocated(&tracer), 9, "invalid amount of allocated bytes");
    let elements = heap.inner(&alloc);
    for nth in 0..9 {
        assert_eq!(elements[nth], b"Testolope"[nth], "invalid value on heap");
    }
    heap.free(&mut alloc, &mut tracer);
    assert_eq!(allocated(&tracer), 0, "invalid amount of allocated bytes");
}

/// Default-built segments hold the type's default in every slot.
#[test]
fn default_segment_is_zeroed() {
    let mut alloc: Allocator<Vec<u8>> = Allocator::new(4);
    let mut tracer = Tracer::new();

    let heap: Heap<Vec<u8>> =
        Heap::new_default(5, &mut alloc, &mut tracer).expect("failed to allocate memory");
    assert_eq!(heap.inner(&alloc).as_slice(), &[0u8; 5], "invalid value on heap");
    assert_eq!(allocated(&tracer), 5, "invalid amount of allocated bytes");
    heap.free(&mut alloc, &mut tracer);
}

/// An exhausted allocator refuses a box and hands the value back untouched.
#[test]
fn allocation_failure_returns_value() {
    let mut alloc: Allocator<u32> = Allocator::new(0);
    let mut tracer = Tracer::new();
    match Heap::new(7u32, &mut alloc, &mut tracer) {
        Err(value) => assert_eq!(value, 7, "invalid value returned on failure"),
        Ok(_) => panic!("allocation succeeded on an exhausted allocator"),
    }
    assert_eq!(allocated(&tracer), 0, "invalid amount of allocated bytes");
}

/// When the counter record cannot be allocated, the shared constructor
/// frees the value again and hands it back; nothing stays traced.
#[test]
fn shared_allocation_failure_returns_value() {
    let mut alloc: Allocator<u32> = Allocator::new(1);
    let mut tracer = Tracer::new();
    match HeapRef::new(7u32, &mut alloc, &mut tracer) {
        Err(value) => assert_eq!(value, 7, "invalid value returned on failure"),
        Ok(_) => panic!("allocation succeeded on an exhausted allocator"),
    }
    assert_eq!(allocated(&tracer), 0, "invalid amount of allocated bytes");
}

/// An exhausted generator-segment allocator returns nothing and traces
/// nothing.
#[test]
fn segment_allocation_failure() {
    let mut alloc: Allocator<Vec<u8>> = Allocator::new(0);
    let mut tracer = Tracer::new();
    let mut generator = VecGenerator::new(b"Testolope".to_vec());
    let heap = Heap::new_from_fn(9, &mut generator, &mut alloc, &mut tracer);
    assert!(heap.is_none(), "allocation succeeded on an exhausted allocator");
    assert_eq!(allocated(&tracer), 0, "invalid amount of allocated bytes");
}

/// The round-trip law on concrete values.
#[test]
fn round_trip_law_concrete() {
    let mut alloc: Allocator<u64> = Allocator::new(1);
    let mut tracer = Tracer::new();
    match box_round_trip(77u64, &mut alloc, &mut tracer) {
        Ok(value) => assert_eq!(value, 77, "invalid value returned"),
        Err(_) => panic!("round trip failed"),
    }
    assert_eq!(allocated(&tracer), 0, "invalid amount of allocated bytes");
}

/// The clone-then-release law on concrete values.
#[test]
fn clone_free_law_concrete() {
    let mut alloc: Allocator<u64> = Allocator::new(4);
    let mut tracer = Tracer::new();
    let handle = HeapRef::new(77u64, &mut alloc, &mut tracer).expect("failed to allocate memory");
    clone_then_free(&handle, &mut alloc, &mut tracer);
    assert_eq!(handle.strong(&alloc), 1, "invalid strong reference count");
    assert_eq!(handle.weak(&alloc), 0, "invalid weak reference count");
    handle.free(&mut alloc, &mut tracer);
    assert_eq!(allocated(&tracer), 0, "invalid amount of allocated bytes");
}

/// The unwrap-after-last-clone law on concrete values.
#[test]
fn unwrap_law_concrete() {
    let mut alloc: Allocator<u64> = Allocator::new(4);
    let mut tracer = Tracer::new();
    let handle = HeapRef::new(77u64, &mut alloc, &mut tracer).expect("failed to allocate memory");
    let other = handle.clone(&mut alloc);
    let value = unwrap_after_last_clone(handle, other, &mut alloc, &mut tracer);
    assert_eq!(value, 77, "invalid value returned");
    assert_eq!(allocated(&tracer), 0, "invalid amount of allocated bytes");
}

/// A written but never finalized box can still be released whole.
#[test]
fn uninit_written_then_freed() {
    let mut alloc: Allocator<[u8; 9]> = Allocator::new(4);
    let mut tracer = Tracer::new();
    let heap: UninitBox<[u8; 9]> =
        Heap::new_uninit(&mut alloc, &mut tracer).expect("failed to allocate memory");
    heap.write(*b"Testolope", &mut alloc);
    heap.free(&mut alloc, &mut tracer);
    assert_eq!(allocated(&tracer), 0, "invalid amount of allocated bytes");
}
