//! x86_64 context switching: the initial frame of a new task.
//!
//! `switch_to` saves with `pushfq`, `push r15`, `push r14`, `push r13`,
//! `push r12`, `push rbp`, `push rbx`, so the saved context, ascending from
//! the saved `rsp`, is:
//!
//! ```text
//! [rsp+0x00] rbx
//! [rsp+0x08] rbp
//! [rsp+0x10] r12
//! [rsp+0x18] r13
//! [rsp+0x20] r14
//! [rsp+0x28] r15
//! [rsp+0x30] rflags
//! [rsp+0x38] rip   <- `ret` pops this to resume the task
//! ```

use vstd::prelude::*;
use crate::kernel::context::{InitialFrame, align_down_16, align_down_16_exec, lemma_align_down_16};

verus! {

/// Bytes of the saved context: seven registers and the return address.
pub const X86_FRAME_BYTES: usize = 64;
/// `rflags` of a new task: IF (bit 9) and the reserved bit 1 set.
pub const INITIAL_RFLAGS: usize = 0x0202;

/// The x86_64 context-switch backend.
pub struct X86Context;

/// The saved context of a new task that starts at `entry`: callee-saved
/// registers zero, interrupts enabled, and `entry` as the return address.
pub open spec fn x86_initial_words(entry: usize) -> Seq<usize> {
    seq![0usize, 0, 0, 0, 0, 0, INITIAL_RFLAGS, entry]
}

impl X86Context {
    /// The frame to lay out on a new stack whose top is `stack_top`, so that
    /// the first switch into the task jumps to `entry`.
    pub fn initial_frame(&self, stack_top: usize, entry: usize) -> (f: InitialFrame<8>)
        requires
            align_down_16(stack_top) >= X86_FRAME_BYTES,
        ensures
            f.sp == align_down_16(stack_top) - X86_FRAME_BYTES,
            f.words@ == x86_initial_words(entry),
    {
        let sp = align_down_16_exec(stack_top) - X86_FRAME_BYTES;
        let words: [usize; 8] = [
            0,  // rbx
            0,  // rbp
            0,  // r12
            0,  // r13
            0,  // r14
            0,  // r15
            INITIAL_RFLAGS,  // rflags
            entry,  // rip
        ];
        assert(words@ =~= x86_initial_words(entry));
        InitialFrame { sp, words }
    }
}

/// The initial frame is 16-byte aligned and fills the stack from `sp` up to
/// at most `stack_top`, one word per saved register.
pub proof fn lemma_x86_frame_fits(stack_top: usize, entry: usize)
    requires
        align_down_16(stack_top) >= X86_FRAME_BYTES,
    ensures
        (align_down_16(stack_top) - X86_FRAME_BYTES) % 16 == 0,
        align_down_16(stack_top) - X86_FRAME_BYTES + 8 * x86_initial_words(entry).len()
            <= stack_top,
{
    lemma_align_down_16(stack_top);
}

} // verus!
