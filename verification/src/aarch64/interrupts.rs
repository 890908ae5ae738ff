//! The GIC stand-in: a handler table for 256 interrupt lines.

use vstd::prelude::*;
use crate::hal::irq::{IrqHandlers, after_register, after_unregister, handler_of};

verus! {

/// Number of interrupt lines the GIC stand-in tracks.
pub const GIC_LINES: usize = 256;

/// Generic Timer PPI: the line that the IRQ vector serves.
pub const TIMER_PPI: u32 = 30;

/// The GIC stand-in: the handler registered on each line.
pub struct GicStub<H> {
    handlers: IrqHandlers<H, 256>,
}

impl<H> GicStub<H> {
    /// The handler of each line.
    pub closed spec fn view(&self) -> Seq<Option<H>> {
        self.handlers.view()
    }

}

impl<H: Copy> GicStub<H> {
    /// A controller with no handler registered.
    pub fn new() -> (g: Self)
        ensures
            g.view() == Seq::new(GIC_LINES as nat, |i: int| None::<H>),
    {
        GicStub { handlers: IrqHandlers::new() }
    }

    /// Run `h` on interrupts of line `irq`; lines from 256 up are ignored.
    pub fn register_handler(&mut self, irq: u32, h: H)
        ensures
            final(self).view() == after_register(old(self).view(), irq, h),
            final(self).view().len() == GIC_LINES,
    {
        self.handlers.register_handler(irq, h);
    }

    /// Remove the handler of line `irq`; lines from 256 up are ignored.
    pub fn unregister_handler(&mut self, irq: u32)
        ensures
            final(self).view() == after_unregister(old(self).view(), irq),
            final(self).view().len() == GIC_LINES,
    {
        self.handlers.unregister_handler(irq);
    }

    /// The handler that an interrupt on line `irq` runs, if any.
    pub fn dispatch(&self, irq: u32) -> (r: Option<H>)
        ensures
            r == handler_of(self.view(), irq),
            self.view().len() == GIC_LINES,
    {
        self.handlers.handler(irq)
    }
}

} // verus!
