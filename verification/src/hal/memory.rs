//! Physical frame allocator.

use vstd::prelude::*;

verus! {

/// `n` is a power of two.
pub open spec fn is_power_of_two(n: usize) -> bool {
    n > 0 && n & ((n - 1) as usize) == 0
}

/// A physical frame allocator.
///
/// An implementation describes itself by spec functions: `inv` is its
/// well-formedness, and `alloc_spec` / `free_spec` give the state after a
/// call and what the call returns, so that callers can state their own
/// results exactly.
pub trait Memory: Sized {
    /// Well-formedness of the allocator state.
    spec fn inv(&self) -> bool;

    /// The size of one frame in bytes.
    spec fn frame_size_spec(&self) -> usize;

    /// The state after, and the result of, allocating `count` frames.
    spec fn alloc_spec(&self, count: usize) -> (Self, Option<usize>);

    /// The state after freeing `count` frames at `base`.
    spec fn free_spec(&self, base: usize, count: usize) -> Self;

    /// Bytes managed in all.
    spec fn total_bytes_spec(&self) -> usize;

    /// Bytes still available.
    spec fn free_bytes_spec(&self) -> usize;

    /// Allocate `count` contiguous frames; returns the physical base address,
    /// or `None` when memory is exhausted. Never panics, whatever `count`.
    fn alloc_frames(&mut self, count: usize) -> (r: Option<usize>)
        requires
            old(self).inv(),
        ensures
            final(self).inv(),
            (*final(self), r) == old(self).alloc_spec(count),
            final(self).frame_size_spec() == old(self).frame_size_spec(),
    ;

    /// Release `count` frames at `base`.
    fn free_frames(&mut self, base: usize, count: usize)
        requires
            old(self).inv(),
        ensures
            final(self).inv(),
            *final(self) == old(self).free_spec(base, count),
            final(self).frame_size_spec() == old(self).frame_size_spec(),
    ;

    /// The frame size in bytes: a power of two, at least 4096.
    fn frame_size(&self) -> (r: usize)
        requires
            self.inv(),
        ensures
            r == self.frame_size_spec(),
            r >= 4096,
            is_power_of_two(r),
    ;

    /// Bytes managed in all.
    fn total_bytes(&self) -> (r: usize)
        requires
            self.inv(),
        ensures
            r == self.total_bytes_spec(),
    ;

    /// Bytes still available.
    fn free_bytes(&self) -> (r: usize)
        requires
            self.inv(),
        ensures
            r == self.free_bytes_spec(),
    ;
}

} // verus!
