//! IRQ handler table: the handler registered for each interrupt line of an
//! interrupt controller.

use vstd::prelude::*;

verus! {

/// One optional handler for each of the `N` IRQ lines, held inline so that
/// no allocation is needed. Requests for lines outside the table are
/// ignored, as the interrupt controllers do.
pub struct IrqHandlers<H, const N: usize> {
    slots: [Option<H>; N],
}

/// The table after `register_handler(irq, h)`.
pub open spec fn after_register<H>(slots: Seq<Option<H>>, irq: u32, h: H) -> Seq<Option<H>> {
    if (irq as int) < slots.len() {
        slots.update(irq as int, Some(h))
    } else {
        slots
    }
}

/// The table after `unregister_handler(irq)`.
pub open spec fn after_unregister<H>(slots: Seq<Option<H>>, irq: u32) -> Seq<Option<H>> {
    if (irq as int) < slots.len() {
        slots.update(irq as int, None)
    } else {
        slots
    }
}

/// The handler that an interrupt on `irq` runs, if any.
pub open spec fn handler_of<H>(slots: Seq<Option<H>>, irq: u32) -> Option<H> {
    if (irq as int) < slots.len() {
        slots[irq as int]
    } else {
        None
    }
}

impl<H, const N: usize> IrqHandlers<H, N> {
    /// The handler of each line, by line number; always `N` lines.
    pub closed spec fn view(&self) -> Seq<Option<H>> {
        self.slots@
    }
}

impl<H: Copy, const N: usize> IrqHandlers<H, N> {
    /// A table with no handler registered.
    pub fn new() -> (t: Self)
        ensures
            t.view() == Seq::new(N as nat, |i: int| None::<H>),
    {
        let slots: [Option<H>; N] = [None; N];
        assert(slots@ =~= Seq::new(N as nat, |i: int| None::<H>));
        IrqHandlers { slots }
    }

    /// Number of lines in the table.
    pub fn lines(&self) -> (n: usize)
        ensures
            n == N,
            self.view().len() == N,
    {
        N
    }

    /// Run `h` on interrupts of line `irq`; ignored if `irq` is out of range.
    pub fn register_handler(&mut self, irq: u32, h: H)
        ensures
            final(self).view() == after_register(old(self).view(), irq, h),
            final(self).view().len() == N,
    {
        if (irq as usize) < N {
            self.slots[irq as usize] = Some(h);
        }
    }

    /// Remove the handler of line `irq`; ignored if `irq` is out of range.
    pub fn unregister_handler(&mut self, irq: u32)
        ensures
            final(self).view() == after_unregister(old(self).view(), irq),
            final(self).view().len() == N,
    {
        if (irq as usize) < N {
            self.slots[irq as usize] = None;
        }
    }

    /// The handler to run for an interrupt on line `irq`, if one is
    /// registered and the line is in range.
    pub fn handler(&self, irq: u32) -> (r: Option<H>)
        ensures
            r == handler_of(self.view(), irq),
            self.view().len() == N,
    {
        if (irq as usize) < N {
            self.slots[irq as usize]
        } else {
            None
        }
    }
}

/// After registering `h` on an in-range line, an interrupt on that line runs
/// `h`, and every other line keeps its handler.
pub proof fn lemma_register_then_dispatch<H>(slots: Seq<Option<H>>, irq: u32, h: H, other: u32)
    requires
        (irq as int) < slots.len(),
        other != irq,
    ensures
        handler_of(after_register(slots, irq, h), irq) == Some(h),
        handler_of(after_register(slots, irq, h), other) == handler_of(slots, other),
{
}

/// After unregistering a line, an interrupt on it runs no handler, and every
/// other line keeps its handler.
pub proof fn lemma_unregister_then_dispatch<H>(slots: Seq<Option<H>>, irq: u32, other: u32)
    requires
        other != irq,
    ensures
        handler_of(after_unregister(slots, irq), irq) is None,
        handler_of(after_unregister(slots, irq), other) == handler_of(slots, other),
{
}

/// Requests for lines outside the table change nothing, and interrupts on
/// them run no handler.
pub proof fn lemma_out_of_range_ignored<H>(slots: Seq<Option<H>>, irq: u32, h: H)
    requires
        (irq as int) >= slots.len(),
    ensures
        after_register(slots, irq, h) == slots,
        after_unregister(slots, irq) == slots,
        handler_of(slots, irq) is None,
{
}

} // verus!
