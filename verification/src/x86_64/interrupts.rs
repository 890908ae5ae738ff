//! The 8259 PIC pair: handler table for its sixteen lines, and the mask
//! register updates of the master (lines 0-7, port 0x21) and slave (lines
//! 8-15, port 0xA1) controllers.

use vstd::prelude::*;
use crate::hal::irq::{IrqHandlers, after_register, after_unregister, handler_of};

verus! {

/// Number of PIC lines.
pub const PIC_LINES: usize = 16;
/// Lines served by the master PIC; the slave serves the next eight.
pub const MASTER_LINES: u32 = 8;
/// Interrupt mask register of the master PIC.
pub const MASTER_IMR_PORT: u16 = 0x21;
/// Interrupt mask register of the slave PIC.
pub const SLAVE_IMR_PORT: u16 = 0xA1;

/// The PIC interrupt controller: the handler registered on each of its
/// sixteen lines.
pub struct PicInterrupts<H> {
    handlers: IrqHandlers<H, 16>,
}

/// The mask register that holds the bit of line `irq`, or `None` for lines
/// from 16 up, which the PIC pair does not have.
pub open spec fn imr_port_spec(irq: u32) -> Option<u16> {
    if irq < MASTER_LINES {
        Some(MASTER_IMR_PORT)
    } else if irq < PIC_LINES {
        Some(SLAVE_IMR_PORT)
    } else {
        None
    }
}

/// The bit of line `irq` within its controller's mask register.
pub open spec fn line_bit(irq: u32) -> u8 {
    (irq % 8) as u8
}

/// The mask register of line `irq`'s controller after masking `irq`, where
/// `cur` is that register's current value; `None` for lines from 16 up.
pub open spec fn mask_spec(cur: u8, irq: u32) -> Option<u8> {
    if irq < PIC_LINES {
        Some(cur | (1u8 << line_bit(irq)))
    } else {
        None
    }
}

/// The mask register of line `irq`'s controller after unmasking `irq`,
/// where `cur` is that register's current value; `None` for lines from 16
/// up.
pub open spec fn unmask_spec(cur: u8, irq: u32) -> Option<u8> {
    if irq < PIC_LINES {
        Some(cur & !(1u8 << line_bit(irq)))
    } else {
        None
    }
}

impl<H> PicInterrupts<H> {
    /// The handler of each line.
    pub closed spec fn view(&self) -> Seq<Option<H>> {
        self.handlers.view()
    }

}

impl<H: Copy> PicInterrupts<H> {
    /// A PIC with no handler registered.
    pub fn new() -> (p: Self)
        ensures
            p.view() == Seq::new(PIC_LINES as nat, |i: int| None::<H>),
    {
        PicInterrupts { handlers: IrqHandlers::new() }
    }

    /// Run `h` on interrupts of line `irq`; lines from 16 up are ignored.
    pub fn register_handler(&mut self, irq: u32, h: H)
        ensures
            final(self).view() == after_register(old(self).view(), irq, h),
            final(self).view().len() == PIC_LINES,
    {
        self.handlers.register_handler(irq, h);
    }

    /// Remove the handler of line `irq`; lines from 16 up are ignored.
    pub fn unregister_handler(&mut self, irq: u32)
        ensures
            final(self).view() == after_unregister(old(self).view(), irq),
            final(self).view().len() == PIC_LINES,
    {
        self.handlers.unregister_handler(irq);
    }

    /// The handler that an interrupt on line `irq` runs, if any.
    pub fn dispatch(&self, irq: u32) -> (r: Option<H>)
        ensures
            r == handler_of(self.view(), irq),
            self.view().len() == PIC_LINES,
    {
        self.handlers.handler(irq)
    }

    /// The port of the mask register that holds line `irq`: 0x21 for lines
    /// 0-7, 0xA1 for lines 8-15, `None` from 16 up.
    pub fn imr_port(irq: u32) -> (r: Option<u16>)
        ensures
            r == imr_port_spec(irq),
    {
        if irq < MASTER_LINES {
            Some(MASTER_IMR_PORT)
        } else if (irq as usize) < PIC_LINES {
            Some(SLAVE_IMR_PORT)
        } else {
            None
        }
    }

    /// The mask register value that masks `irq`, given the current value
    /// `cur` of the register at `imr_port(irq)`; `None` from line 16 up.
    pub fn mask(cur: u8, irq: u32) -> (r: Option<u8>)
        ensures
            r == mask_spec(cur, irq),
    {
        if (irq as usize) < PIC_LINES {
            Some(cur | (1u8 << ((irq % 8) as u8)))
        } else {
            None
        }
    }

    /// The mask register value that unmasks `irq`, given the current value
    /// `cur` of the register at `imr_port(irq)`; `None` from line 16 up.
    pub fn unmask(cur: u8, irq: u32) -> (r: Option<u8>)
        ensures
            r == unmask_spec(cur, irq),
    {
        if (irq as usize) < PIC_LINES {
            Some(cur & !(1u8 << ((irq % 8) as u8)))
        } else {
            None
        }
    }
}

/// Masking a line sets its bit in its controller's register and leaves every
/// other line of that controller alone; unmasking clears it, likewise.
pub proof fn lemma_mask_touches_one_line(cur: u8, irq: u32, other: u8)
    requires
        irq < PIC_LINES,
        other < 8,
        other != line_bit(irq),
    ensures
        (mask_spec(cur, irq)->0 >> line_bit(irq)) & 1 == 1,
        (unmask_spec(cur, irq)->0 >> line_bit(irq)) & 1 == 0,
        (mask_spec(cur, irq)->0 >> other) & 1 == (cur >> other) & 1,
        (unmask_spec(cur, irq)->0 >> other) & 1 == (cur >> other) & 1,
{
    let b = line_bit(irq);
    assert(b < 8);
    assert(b < 8 && other < 8 && other != b ==> {
        &&& ((cur | (1u8 << b)) >> b) & 1 == 1
        &&& ((cur & !(1u8 << b)) >> b) & 1 == 0
        &&& ((cur | (1u8 << b)) >> other) & 1 == (cur >> other) & 1
        &&& ((cur & !(1u8 << b)) >> other) & 1 == (cur >> other) & 1
    }) by (bit_vector);
}

/// Unmasking undoes masking: mask then unmask leaves the line unmasked and
/// the others as they were.
pub proof fn lemma_unmask_after_mask(cur: u8, irq: u32)
    requires
        irq < PIC_LINES,
    ensures
        unmask_spec(mask_spec(cur, irq)->0, irq)->0 == unmask_spec(cur, irq)->0,
        mask_spec(unmask_spec(cur, irq)->0, irq)->0 == mask_spec(cur, irq)->0,
{
    let b = line_bit(irq);
    assert(b < 8);
    assert(b < 8 ==> ((cur | (1u8 << b)) & !(1u8 << b)) == (cur & !(1u8 << b))) by (bit_vector);
    assert(b < 8 ==> ((cur & !(1u8 << b)) | (1u8 << b)) == (cur | (1u8 << b))) by (bit_vector);
}

/// An interrupt on a PIC line runs the handler last registered on it, if it
/// was not unregistered since: for any table, a line below 16 registered with
/// `h` dispatches to `h`.
pub proof fn lemma_pic_dispatch_registered<H>(slots: Seq<Option<H>>, irq: u32, h: H)
    requires
        slots.len() == PIC_LINES,
        irq < PIC_LINES,
    ensures
        handler_of(after_register(slots, irq, h), irq) == Some(h),
        handler_of(after_unregister(slots, irq), irq) is None,
{
}

} // verus!
