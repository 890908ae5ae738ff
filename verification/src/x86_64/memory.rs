//! Bump frame allocator over the physical pool `[BASE, END)`.

use vstd::prelude::*;
use crate::hal::memory::Memory;
use crate::kernel::mm::{frames_for, lemma_frames_cover};

verus! {

/// First byte of the x86_64 pool (1 MiB).
pub const BASE: usize = 0x0010_0000;
/// One past the last byte of the x86_64 pool (4 MiB).
pub const END: usize = 0x0040_0000;
/// Frame size in bytes.
pub const FRAME: usize = 4096;

/// A bump allocator over the pool `[base, end)`: frames are handed out in
/// address order from `next`, and never reused.
pub struct BumpAllocator {
    base: usize,
    end: usize,
    next: usize,
}

impl BumpAllocator {
    /// The next address that an allocation would return.
    pub closed spec fn next_spec(&self) -> usize {
        self.next
    }

    /// First byte of the pool.
    pub closed spec fn base_spec(&self) -> usize {
        self.base
    }

    /// One past the last byte of the pool.
    pub closed spec fn end_spec(&self) -> usize {
        self.end
    }

    /// This allocator with its next free address moved to `next`.
    pub closed spec fn with_next(self, next: usize) -> Self {
        BumpAllocator { next, ..self }
    }

    /// `with_next(next)` has next free address `next` and the same pool.
    /// Callers that reason about the state after an allocation bring this
    /// into scope with `broadcast use BumpAllocator::lemma_with_next`.
    pub broadcast proof fn lemma_with_next(a: Self, next: usize)
        ensures
            #[trigger] a.with_next(next).next_spec() == next,
            a.with_next(next).base_spec() == a.base_spec(),
            a.with_next(next).end_spec() == a.end_spec(),
    {
    }

    /// The next address that an allocation would return.
    pub fn next_free(&self) -> (n: usize)
        ensures
            n == self.next_spec(),
    {
        self.next
    }

    /// An allocator over the x86_64 pool `[BASE, END)`, still whole.
    pub fn new() -> (r: Self)
        ensures
            r.inv(),
            r.base_spec() == BASE,
            r.end_spec() == END,
            r.next_spec() == BASE,
    {
        BumpAllocator { base: BASE, end: END, next: BASE }
    }

    /// An allocator over the pool `[base, end)`, still whole.
    pub fn with_pool(base: usize, end: usize) -> (r: Self)
        requires
            base % FRAME == 0,
            base <= end,
        ensures
            r.inv(),
            r.base_spec() == base,
            r.end_spec() == end,
            r.next_spec() == base,
    {
        BumpAllocator { base, end, next: base }
    }
}

/// Adding whole frames to a frame-aligned address keeps it aligned.
proof fn lemma_aligned_step(base: int, count: int)
    requires
        base % 4096 == 0,
        count >= 0,
    ensures
        (base + count * 4096) % 4096 == 0,
{
    assert((base + count * 4096) % 4096 == 0) by (nonlinear_arith)
        requires
            base % 4096 == 0,
    ;
}

impl Memory for BumpAllocator {
    /// The pool starts frame aligned, and `next` stays frame aligned within
    /// the pool.
    open spec fn inv(&self) -> bool {
        &&& self.base_spec() % FRAME == 0
        &&& self.base_spec() <= self.next_spec() <= self.end_spec()
        &&& self.next_spec() % FRAME == 0
    }

    open spec fn frame_size_spec(&self) -> usize {
        FRAME
    }

    /// A request succeeds when it ends within the pool, and then `next`
    /// advances past it; a request that does not fit changes nothing.
    open spec fn alloc_spec(&self, count: usize) -> (Self, Option<usize>) {
        let size: int = count * FRAME;
        if self.next_spec() + size <= self.end_spec() {
            (self.with_next((self.next_spec() + size) as usize), Some(self.next_spec()))
        } else {
            (*self, None)
        }
    }

    /// Freeing is a no-op: a bump allocator never reuses frames.
    open spec fn free_spec(&self, base: usize, count: usize) -> Self {
        *self
    }

    open spec fn total_bytes_spec(&self) -> usize {
        (self.end_spec() - self.base_spec()) as usize
    }

    open spec fn free_bytes_spec(&self) -> usize {
        (self.end_spec() - self.next_spec()) as usize
    }

    fn alloc_frames(&mut self, count: usize) -> (r: Option<usize>) {
        let base = self.next;
        let room = self.end - self.next;
        // `count * FRAME <= room` without computing a product that could
        // overflow.
        if count <= room / FRAME {
            proof {
                lemma_fits(count as int, room as int);
                lemma_aligned_step(base as int, count as int);
            }
            self.next = base + count * FRAME;
            Some(base)
        } else {
            proof {
                lemma_does_not_fit(count as int, room as int);
            }
            None
        }
    }

    fn free_frames(&mut self, _base: usize, _count: usize) {
    }

    fn frame_size(&self) -> (r: usize) {
        assert(4096usize & 4095usize == 0) by (bit_vector);
        FRAME
    }

    fn total_bytes(&self) -> (r: usize) {
        self.end - self.base
    }

    fn free_bytes(&self) -> (r: usize) {
        self.end - self.next
    }
}

/// `count` frames fit in `room` bytes when `count <= room / 4096`.
proof fn lemma_fits(count: int, room: int)
    requires
        0 <= count <= room / 4096,
        room >= 0,
    ensures
        count * 4096 <= room,
{
    assert(count * 4096 <= room) by (nonlinear_arith)
        requires
            0 <= count <= room / 4096,
            room >= 0,
    ;
}

/// `count` frames do not fit in `room` bytes when `count > room / 4096`.
proof fn lemma_does_not_fit(count: int, room: int)
    requires
        count > room / 4096,
        room >= 0,
    ensures
        count * 4096 > room,
{
    assert(count * 4096 > room) by (nonlinear_arith)
        requires
            count > room / 4096,
            room >= 0,
    ;
}

/// An allocation that succeeds lies inside the pool, is frame aligned, and
/// takes exactly its bytes off the free bytes.
pub proof fn lemma_alloc_in_pool(a: BumpAllocator, count: usize)
    requires
        a.inv(),
        a.alloc_spec(count).1 is Some,
    ensures
        a.base_spec() <= a.alloc_spec(count).1->0,
        a.alloc_spec(count).1->0 + count * FRAME <= a.end_spec(),
        a.alloc_spec(count).1->0 % FRAME == 0,
        a.alloc_spec(count).0.free_bytes_spec() == a.free_bytes_spec() - count * FRAME,
{
    broadcast use BumpAllocator::lemma_with_next;
}

/// A request that does not fit is refused and leaves the allocator as it
/// was: `None` means the pool is short, and nothing is used up.
pub proof fn lemma_refused_changes_nothing(a: BumpAllocator, count: usize)
    requires
        a.inv(),
        count * FRAME > a.free_bytes_spec(),
    ensures
        a.alloc_spec(count) == (a, None::<usize>),
{
}

/// A request is granted exactly when its frames fit in what is left of the
/// pool, `end - next`: then it gets the next free address, and the next
/// free address moves up by exactly the request; the pool stays the same.
pub proof fn lemma_alloc_succeeds_iff_fits(a: BumpAllocator, count: usize)
    requires
        a.inv(),
    ensures
        (a.alloc_spec(count).1 is Some) <==> count * 4096 <= a.end_spec() - a.next_spec(),
        count * 4096 <= a.end_spec() - a.next_spec() ==> {
            &&& a.alloc_spec(count).1 == Some(a.next_spec())
            &&& a.alloc_spec(count).0.next_spec() == a.next_spec() + count * 4096
            &&& a.alloc_spec(count).0.base_spec() == a.base_spec()
            &&& a.alloc_spec(count).0.end_spec() == a.end_spec()
        },
{
    broadcast use BumpAllocator::lemma_with_next;

}

/// Allocation keeps the allocator well formed, failed or not.
pub proof fn lemma_alloc_keeps_inv(a: BumpAllocator, count: usize)
    requires
        a.inv(),
    ensures
        a.alloc_spec(count).0.inv(),
{
    broadcast use BumpAllocator::lemma_with_next;

    lemma_aligned_step(a.next_spec() as int, count as int);
}

/// The free bytes and the bytes handed out so far add up to the pool.
pub proof fn lemma_free_plus_used_is_total(a: BumpAllocator)
    requires
        a.inv(),
    ensures
        a.free_bytes_spec() + (a.next_spec() - a.base_spec()) == a.total_bytes_spec(),
{
}

/// A byte request served by this allocator through the memory manager gets
/// a frame-aligned block inside the pool that holds all the requested bytes.
pub proof fn lemma_alloc_bytes_in_pool(a: BumpAllocator, bytes: usize)
    requires
        a.inv(),
        a.alloc_spec(frames_for(bytes as int, FRAME as int) as usize).1 is Some,
    ensures
        a.base_spec() <= a.alloc_spec(frames_for(bytes as int, FRAME as int) as usize).1->0,
        a.alloc_spec(frames_for(bytes as int, FRAME as int) as usize).1->0 + bytes
            <= a.end_spec(),
        a.alloc_spec(frames_for(bytes as int, FRAME as int) as usize).1->0 % FRAME == 0,
{
    let frames = frames_for(bytes as int, FRAME as int);
    lemma_frames_cover(bytes as nat, FRAME as nat);
    // The frame count fits in a `usize`: it is at most `bytes`.
    assert(frames <= bytes) by (nonlinear_arith)
        requires
            frames >= 0,
            (frames - 1) * 4096 < bytes || frames == 0,
    ;
    lemma_alloc_in_pool(a, frames as usize);
}

/// A request made of a frame allocator, for reasoning about histories.
pub enum FrameRequest {
    Alloc { count: usize },
    Free { base: usize, count: usize },
}

/// The allocator after the requests `reqs`, made in order from `a`, and the
/// base address each request got (`None` for failed allocations and frees).
pub open spec fn run(a: BumpAllocator, reqs: Seq<FrameRequest>) -> (BumpAllocator, Seq<
    Option<usize>,
>)
    decreases reqs.len(),
{
    if reqs.len() == 0 {
        (a, Seq::empty())
    } else {
        let (before, got) = run(a, reqs.drop_last());
        match reqs.last() {
            FrameRequest::Alloc { count } => {
                let (after, r) = before.alloc_spec(count);
                (after, got.push(r))
            },
            FrameRequest::Free { base, count } => (before.free_spec(base, count), got.push(None)),
        }
    }
}

/// Frames requested by request `r` (zero for a free).
pub open spec fn requested(r: FrameRequest) -> nat {
    match r {
        FrameRequest::Alloc { count } => count as nat,
        FrameRequest::Free { .. } => 0,
    }
}

/// Over any history, the allocator stays well formed, `next` never moves
/// back, and every range handed out ends at or before the current `next`.
proof fn lemma_run_bounds(a: BumpAllocator, reqs: Seq<FrameRequest>)
    requires
        a.inv(),
    ensures
        run(a, reqs).0.inv(),
        run(a, reqs).0.next_spec() >= a.next_spec(),
        run(a, reqs).1.len() == reqs.len(),
        forall|i: int|
            0 <= i < reqs.len() && (#[trigger] run(a, reqs).1[i]) is Some ==> {
                &&& a.next_spec() <= run(a, reqs).1[i]->0
                &&& run(a, reqs).1[i]->0 + requested(reqs[i]) * FRAME <= run(
                    a,
                    reqs,
                ).0.next_spec()
            },
    decreases reqs.len(),
{
    broadcast use BumpAllocator::lemma_with_next;

    if reqs.len() > 0 {
        let prev = reqs.drop_last();
        lemma_run_bounds(a, prev);
        let (before, got) = run(a, prev);
        match reqs.last() {
            FrameRequest::Alloc { count } => {
                lemma_alloc_keeps_inv(before, count);
            },
            FrameRequest::Free { .. } => {},
        }
        assert forall|i: int|
            0 <= i < reqs.len() && (#[trigger] run(a, reqs).1[i]) is Some implies {
                &&& a.next_spec() <= run(a, reqs).1[i]->0
                &&& run(a, reqs).1[i]->0 + requested(reqs[i]) * FRAME <= run(
                    a,
                    reqs,
                ).0.next_spec()
            } by {
            if i < reqs.len() - 1 {
                assert(run(a, reqs).1[i] == got[i]);
                assert(reqs[i] == prev[i]);
            }
        }
    }
}

/// Frames are never handed out twice: over any history of requests, two
/// allocations that succeed get disjoint ranges, the later one above the
/// earlier one.
pub proof fn lemma_allocations_never_overlap(
    a: BumpAllocator,
    reqs: Seq<FrameRequest>,
    i: int,
    j: int,
)
    requires
        a.inv(),
        0 <= i < j < reqs.len(),
        run(a, reqs).1[i] is Some,
        run(a, reqs).1[j] is Some,
    ensures
        run(a, reqs).1[i]->0 + requested(reqs[i]) * FRAME <= run(a, reqs).1[j]->0,
    decreases reqs.len(),
{
    broadcast use BumpAllocator::lemma_with_next;

    let prev = reqs.drop_last();
    let (before, got) = run(a, prev);
    lemma_run_bounds(a, prev);
    if j == reqs.len() - 1 {
        assert(run(a, reqs).1[i] == got[i]);
        assert(reqs[i] == prev[i]);
        assert(got[i] is Some);
        assert(run(a, reqs).1[j]->0 == before.next_spec());
    } else {
        assert(run(a, reqs).1[i] == got[i]);
        assert(run(a, reqs).1[j] == got[j]);
        assert(reqs[i] == prev[i]);
        lemma_allocations_never_overlap(a, prev, i, j);
    }
}

} // verus!
