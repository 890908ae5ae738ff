//! aarch64 context switching: the initial frame of a new task.
//!
//! The saved context holds the AArch64 callee-saved registers, ascending
//! from the saved `sp`: x19-x28 at `[sp+0]..[sp+72]`, x29 (frame pointer)
//! at `[sp+80]` and x30 (link register) at `[sp+88]`.

use vstd::prelude::*;
use crate::kernel::context::{InitialFrame, align_down_16, align_down_16_exec, lemma_align_down_16};

verus! {

/// Bytes of the saved context: twelve registers.
pub const AARCH64_FRAME_BYTES: usize = 96;

/// The aarch64 context-switch backend.
pub struct Aarch64Context;

/// The saved context of a new task that starts at `entry`: x19-x29 zero and
/// x30 (where `ret` branches on the first switch) set to `entry`.
pub open spec fn aarch64_initial_words(entry: usize) -> Seq<usize> {
    Seq::new(12, |i: int| if i == 11 { entry } else { 0usize })
}

impl Aarch64Context {
    /// The frame to lay out on a new stack whose top is `stack_top`, so that
    /// the first switch into the task branches to `entry`.
    pub fn initial_frame(&self, stack_top: usize, entry: usize) -> (f: InitialFrame<12>)
        requires
            align_down_16(stack_top) >= AARCH64_FRAME_BYTES,
        ensures
            f.sp == align_down_16(stack_top) - AARCH64_FRAME_BYTES,
            f.words@ == aarch64_initial_words(entry),
    {
        let sp = align_down_16_exec(stack_top) - AARCH64_FRAME_BYTES;
        // x19-x28 and x29 (no previous frame) are zero.
        let mut words: [usize; 12] = [0usize; 12];
        words[11] = entry;  // x30: entry point
        assert(words@ =~= aarch64_initial_words(entry));
        InitialFrame { sp, words }
    }
}

/// The initial frame is 16-byte aligned, as AArch64 requires of `sp`, and
/// fits between `sp` and `stack_top`.
pub proof fn lemma_aarch64_frame_fits(stack_top: usize, entry: usize)
    requires
        align_down_16(stack_top) >= AARCH64_FRAME_BYTES,
    ensures
        (align_down_16(stack_top) - AARCH64_FRAME_BYTES) % 16 == 0,
        align_down_16(stack_top) - AARCH64_FRAME_BYTES + 8 * aarch64_initial_words(entry).len()
            <= stack_top,
{
    lemma_align_down_16(stack_top);
}

} // verus!
