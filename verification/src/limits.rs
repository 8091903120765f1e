//! Heap-ceiling policy for the per-request isolate.
//!
//! An isolate is created with a fixed (initial, maximum) heap-size pair. When
//! the virtual machine reports that the heap is approaching its current
//! ceiling, the engine requests forced termination through the cancellation
//! handle and hands the allocator a doubled ceiling, so that execution is cut
//! off cooperatively instead of aborting the process mid-allocation.
//!
//! A heap breach is deliberately not an error kind of its own: the caller
//! sees it as the call failure or the timeout that the forced termination
//! induces, never as a process crash.

use vstd::prelude::*;

verus! {

/// Initial heap size, in bytes, for a fresh isolate.
pub const INITIAL_HEAP_BYTES: usize = 1000000;

/// Hard heap ceiling, in bytes, for a fresh isolate.
pub const MAX_HEAP_BYTES: usize = 2000000;

/// The (initial, maximum) heap-size pair an isolate is created with.
#[derive(Clone, Copy, PartialEq, Eq, Structural, Debug)]
pub struct HeapLimits {
    pub initial: usize,
    pub max: usize,
}

impl HeapLimits {
    /// A well-formed configuration starts below (or at) its own ceiling.
    pub open spec fn wf(self) -> bool {
        0 < self.initial <= self.max
    }

    pub fn new(initial: usize, max: usize) -> (r: HeapLimits)
        requires
            0 < initial <= max,
        ensures
            r.initial == initial,
            r.max == max,
            r.wf(),
    {
        HeapLimits { initial, max }
    }

    /// The configuration the engine is deployed with.
    pub fn deployment_default() -> (r: HeapLimits)
        ensures
            r.initial == INITIAL_HEAP_BYTES,
            r.max == MAX_HEAP_BYTES,
            r.wf(),
    {
        HeapLimits { initial: INITIAL_HEAP_BYTES, max: MAX_HEAP_BYTES }
    }
}

/// What the engine decides when the virtual machine reports a heap near its
/// current ceiling.
#[derive(Clone, Copy, PartialEq, Eq, Structural, Debug)]
pub struct NearLimitDecision {
    /// Forced termination is to be requested through the cancellation handle.
    pub request_termination: bool,
    /// The ceiling handed back to the virtual machine's allocator.
    pub new_limit: usize,
}

/// Decide the response to a near-heap-limit report: always request forced
/// termination, and double the ceiling so the allocator is not starved while
/// cooperative termination propagates to the next safe point.
pub fn on_near_heap_limit(current_limit: usize) -> (d: NearLimitDecision)
    requires
        current_limit <= usize::MAX / 2,
    ensures
        d.request_termination,
        d.new_limit == 2 * current_limit,
{
    NearLimitDecision { request_termination: true, new_limit: current_limit * 2 }
}

/// As long as the current ceiling is positive, the doubled ceiling leaves the
/// allocator strict headroom above it: raising the limit never shrinks it, so
/// a near-limit report is answered with room to allocate while termination is
/// pending.
pub proof fn lemma_near_limit_headroom(current_limit: usize, d: NearLimitDecision)
    requires
        0 < current_limit <= usize::MAX / 2,
        d.request_termination,
        d.new_limit == 2 * current_limit,
    ensures
        d.new_limit > current_limit,
{
}

} // verus!
