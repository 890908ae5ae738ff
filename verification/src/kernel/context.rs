//! The initial stack frame that a new task starts from: the saved context
//! that the first switch into the task restores.

use vstd::prelude::*;

verus! {

/// A saved context of `W` words to lay out on a fresh task stack:
/// `words[i]` goes to address `sp + 8 * i`, and `sp` is the task's saved
/// stack pointer.
pub struct InitialFrame<const W: usize> {
    pub sp: usize,
    pub words: [usize; W],
}

/// `addr` rounded down to a multiple of 16.
pub open spec fn align_down_16(addr: usize) -> usize {
    addr & !0xFusize
}

/// Rounding down to 16 gives a 16-byte aligned address at most 15 below.
pub proof fn lemma_align_down_16(addr: usize)
    ensures
        align_down_16(addr) % 16 == 0,
        align_down_16(addr) <= addr,
        addr - align_down_16(addr) < 16,
{
    assert((addr & !0xFusize) % 16 == 0) by (bit_vector);
    assert((addr & !0xFusize) <= addr) by (bit_vector);
    assert(addr - (addr & !0xFusize) < 16) by (bit_vector);
}

/// Round `addr` down to a multiple of 16.
pub fn align_down_16_exec(addr: usize) -> (r: usize)
    ensures
        r == align_down_16(addr),
{
    addr & !0xFusize
}

} // verus!
