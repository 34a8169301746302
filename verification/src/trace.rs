//! Traces the amount of heap-allocated memory managed by this crate.
//!
//! The counter is a diagnostic facility: it is expected to read `0` once
//! every outstanding box and shared reference has been torn down. The
//! targets this crate serves have no atomics, so the counter is a plain
//! value handed explicitly to every operation that allocates or releases
//! memory, never shared between execution contexts.

use vstd::prelude::*;

verus! {

/// The live-byte counter: the total size in bytes of all allocations made
/// through this crate that have not yet been released.
pub struct Tracer {
    bytes: usize,
}

impl View for Tracer {
    type V = nat;

    closed spec fn view(&self) -> nat {
        self.bytes as nat
    }
}

impl Tracer {
    /// A fresh counter, reading zero.
    pub fn new() -> (tracer: Tracer)
        ensures
            tracer@ == 0,
    {
        Tracer { bytes: 0 }
    }
}

/// The current amount of heap-allocated bytes.
pub fn allocated(tracer: &Tracer) -> (bytes: usize)
    ensures
        bytes == tracer@,
{
    tracer.bytes
}

/// Increases the allocated-bytes counter by `bytes`.
pub(crate) fn increment_allocated(tracer: &mut Tracer, bytes: usize)
    requires
        old(tracer)@ + bytes <= usize::MAX,
    ensures
        final(tracer)@ == old(tracer)@ + bytes,
{
    tracer.bytes = tracer.bytes + bytes;
}

/// Decreases the allocated-bytes counter by `bytes`.
pub(crate) fn decrement_allocated(tracer: &mut Tracer, bytes: usize)
    requires
        bytes <= old(tracer)@,
    ensures
        final(tracer)@ == old(tracer)@ - bytes,
{
    tracer.bytes = tracer.bytes - bytes;
}

} // verus!
