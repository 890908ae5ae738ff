//! Kernel memory manager: byte-sized requests on top of the frame allocator
//! that the platform registered.

use vstd::prelude::*;
use crate::hal::memory::Memory;

verus! {

/// The number of whole frames that cover `bytes` bytes.
pub open spec fn frames_for(bytes: int, frame_size: int) -> int {
    (bytes + frame_size - 1) / frame_size
}

/// Whole frames that cover `bytes` bytes, computed without a sum that
/// could overflow.
fn frames_covering(bytes: usize, frame_size: usize) -> (frames: usize)
    requires
        frame_size > 0,
    ensures
        frames == frames_for(bytes as int, frame_size as int),
{
    let whole = bytes / frame_size;
    proof {
        lemma_frames_split(bytes as int, frame_size as int);
    }
    if bytes % frame_size == 0 {
        whole
    } else {
        whole + 1
    }
}

/// Rounding up is whole frames plus one for a partial frame.
proof fn lemma_frames_split(bytes: int, frame_size: int)
    requires
        bytes >= 0,
        frame_size > 0,
    ensures
        frames_for(bytes, frame_size) == bytes / frame_size + if bytes % frame_size == 0 {
            0int
        } else {
            1int
        },
        bytes % frame_size != 0 ==> bytes / frame_size < bytes,
{
    let q = bytes / frame_size;
    let r = bytes % frame_size;
    assert(bytes == q * frame_size + r && 0 <= r < frame_size) by (nonlinear_arith)
        requires
            frame_size > 0,
            q == bytes / frame_size,
            r == bytes % frame_size,
    ;
    let c = if r == 0 { 0int } else { 1int };
    assert((bytes + frame_size - 1) / frame_size == q + c) by (nonlinear_arith)
        requires
            bytes == q * frame_size + r,
            0 <= r < frame_size,
            frame_size > 0,
            c == (if r == 0 { 0int } else { 1int }),
    ;
    if r != 0 {
        assert(q < bytes) by (nonlinear_arith)
            requires
                bytes == q * frame_size + r,
                r > 0,
                frame_size > 0,
                bytes >= 0,
        ;
    }
}

/// Register the frame allocator that the memory manager draws from.
pub fn init<M: Memory>(allocator: &mut Option<M>, mem: M)
    ensures
        *final(allocator) == Some(mem),
{
    *allocator = Some(mem);
}

/// Allocate at least `bytes` bytes, rounded up to whole frames. Returns
/// `None` when no allocator is registered or the allocator refuses.
pub fn alloc_bytes<M: Memory>(allocator: &mut Option<M>, bytes: usize) -> (r: Option<usize>)
    requires
        *old(allocator) is Some ==> (*old(allocator))->0.inv(),
    ensures
        *old(allocator) is None ==> r is None && *final(allocator) == *old(allocator),
        *old(allocator) is Some ==> {
            &&& *final(allocator) is Some
            &&& (*final(allocator))->0.inv()
            &&& ((*final(allocator))->0, r) == (*old(allocator))->0.alloc_spec(
                frames_for(bytes as int, (*old(allocator))->0.frame_size_spec() as int) as usize,
            )
        },
{
    match allocator {
        Some(a) => {
            let frame_size = a.frame_size();
            let frames = frames_covering(bytes, frame_size);
            a.alloc_frames(frames)
        },
        None => None,
    }
}

/// Release `bytes` bytes at `addr`, rounded up to whole frames. Does
/// nothing when no allocator is registered.
pub fn free_bytes<M: Memory>(allocator: &mut Option<M>, addr: usize, bytes: usize)
    requires
        *old(allocator) is Some ==> (*old(allocator))->0.inv(),
    ensures
        *old(allocator) is None ==> *final(allocator) == *old(allocator),
        *old(allocator) is Some ==> {
            &&& *final(allocator) is Some
            &&& (*final(allocator))->0.inv()
            &&& (*final(allocator))->0 == (*old(allocator))->0.free_spec(
                addr,
                frames_for(bytes as int, (*old(allocator))->0.frame_size_spec() as int) as usize,
            )
        },
{
    match allocator {
        Some(a) => {
            let frame_size = a.frame_size();
            let frames = frames_covering(bytes, frame_size);
            a.free_frames(addr, frames);
        },
        None => {},
    }
}

/// Requests are rounded up to the least number of whole frames that covers
/// them: the frames cover `bytes`, and one frame fewer would not.
pub proof fn lemma_frames_cover(bytes: nat, frame_size: nat)
    requires
        frame_size > 0,
    ensures
        frames_for(bytes as int, frame_size as int) * frame_size >= bytes,
        (frames_for(bytes as int, frame_size as int) - 1) * frame_size < bytes
            || bytes == 0 && frames_for(bytes as int, frame_size as int) == 0,
        frames_for(bytes as int, frame_size as int) >= 0,
{
    let f = frame_size as int;
    let b = bytes as int;
    let q = (b + f - 1) / f;
    let r = (b + f - 1) % f;
    assert(q * f + r == b + f - 1 && 0 <= r < f) by (nonlinear_arith)
        requires
            f > 0,
            q == (b + f - 1) / f,
            r == (b + f - 1) % f,
    ;
    assert(q >= 0) by (nonlinear_arith)
        requires
            f > 0,
            b >= 0,
            q == (b + f - 1) / f,
    ;
    if b == 0 {
        assert(q == 0) by (nonlinear_arith)
            requires
                f > 0,
                q == (f - 1) / f,
        ;
    }
    assert(q * f >= b) by (nonlinear_arith)
        requires
            q * f + r == b + f - 1,
            r < f,
    ;
    assert((q - 1) * f < b) by (nonlinear_arith)
        requires
            q * f + r == b + f - 1,
            0 <= r,
    ;
}

} // verus!
