//! Heap-allocation primitives for hosts that offer only a raw
//! allocate/deallocate pair: an exclusive-ownership box ([`Heap`]) and a
//! reference-counted shared-ownership box with weak observers ([`HeapRef`],
//! [`HeapRefWeak`]), together with a live-byte tracing counter.
//!
//! The host allocator and the tracing counter are explicit values
//! ([`allocator::Allocator`], [`trace::Tracer`]) handed to every operation
//! that allocates or releases memory; the targets this crate serves have a
//! single execution core and no synchronization primitives, so neither is
//! shared state.

pub mod allocator;
pub mod heap;
pub mod heapref;
pub mod laws;
pub mod trace;

pub use crate::heap::Heap;
pub use crate::heapref::HeapRef;
pub use crate::heapref::HeapRefWeak;




