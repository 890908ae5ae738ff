//! x86_64 Interrupt Descriptor Table: gate descriptors, the table that
//! routes the remapped PIC lines, and the PIC remapping sequence.

use vstd::prelude::*;

verus! {

/// Number of gates in the IDT.
pub const IDT_ENTRIES: usize = 256;
/// Number of PIC IRQ lines routed through the IDT.
pub const PIC_IRQS: usize = 16;
/// Vector of IRQ 0 after the PIC is remapped.
pub const IRQ_BASE_VECTOR: usize = 0x20;
/// Code segment selector of the kernel (first GDT entry after null).
pub const KERNEL_CODE_SELECTOR: u16 = 0x08;
/// Type byte of a present, DPL 0, 64-bit interrupt gate.
pub const INTERRUPT_GATE: u8 = 0x8E;
/// IDTR limit: the byte size of 256 sixteen-byte gates, minus one.
pub const IDT_LIMIT: u16 = 4095;

/// An IDT gate descriptor (64-bit mode, interrupt gate), field by field in
/// the order of the hardware layout.
#[derive(Debug, Clone, Copy, PartialEq, Eq, Structural)]
pub struct IdtEntry {
    pub offset_lo: u16,
    pub selector: u16,
    pub ist_and_zero: u8,
    pub type_attr: u8,
    pub offset_mid: u16,
    pub offset_hi: u32,
    pub reserved: u32,
}

/// A descriptor that is not present: every field zero.
pub open spec fn missing_entry() -> IdtEntry {
    IdtEntry {
        offset_lo: 0,
        selector: 0,
        ist_and_zero: 0,
        type_attr: 0,
        offset_mid: 0,
        offset_hi: 0,
        reserved: 0,
    }
}

/// The interrupt gate that jumps to `handler` in the kernel code segment.
pub open spec fn gate_for(handler: u64) -> IdtEntry {
    IdtEntry {
        offset_lo: handler as u16,
        selector: KERNEL_CODE_SELECTOR,
        ist_and_zero: 0,
        type_attr: INTERRUPT_GATE,
        offset_mid: (handler >> 16u64) as u16,
        offset_hi: (handler >> 32u64) as u32,
        reserved: 0,
    }
}

/// The handler address that a gate points to, put back together from its
/// three offset fields.
pub open spec fn gate_target(e: IdtEntry) -> u64 {
    ((e.offset_hi as u64) << 32u64) | ((e.offset_mid as u64) << 16u64) | (e.offset_lo as u64)
}

impl IdtEntry {
    /// A gate that is not present.
    pub fn missing() -> (e: Self)
        ensures
            e == missing_entry(),
    {
        IdtEntry {
            offset_lo: 0,
            selector: 0,
            ist_and_zero: 0,
            type_attr: 0,
            offset_mid: 0,
            offset_hi: 0,
            reserved: 0,
        }
    }

    /// Make this gate an interrupt gate that jumps to `handler`.
    pub fn set(&mut self, handler: u64)
        ensures
            *final(self) == gate_for(handler),
            final(self).type_attr == 0x8E,
            final(self).selector == 0x08,
            final(self).ist_and_zero == 0,
            final(self).reserved == 0,
            gate_target(*final(self)) == handler,
    {
        proof {
            lemma_gate_target(handler);
        }
        self.offset_lo = handler as u16;
        self.selector = KERNEL_CODE_SELECTOR;
        self.ist_and_zero = 0;
        self.type_attr = INTERRUPT_GATE;
        self.offset_mid = (handler >> 16u64) as u16;
        self.offset_hi = (handler >> 32u64) as u32;
        self.reserved = 0;
    }
}

/// Every gate made for a handler is a present, DPL 0, 64-bit interrupt gate
/// (type 0x8E) in the kernel code segment (selector 0x08), with no IST and a
/// zero reserved word, whatever the handler; its offsets are the handler's
/// low, middle and high bits.
pub proof fn lemma_gate_kind(handler: u64)
    ensures
        gate_for(handler).type_attr == 0x8Eu8,
        gate_for(handler).selector == 0x08u16,
        gate_for(handler).ist_and_zero == 0,
        gate_for(handler).reserved == 0,
        gate_for(handler).offset_lo == handler % 0x1_0000,
        gate_for(handler).offset_mid == (handler / 0x1_0000) % 0x1_0000,
        gate_for(handler).offset_hi == handler / 0x1_0000_0000,
{
    assert((handler as u16) == handler % 0x1_0000) by (bit_vector);
    assert(((handler >> 16u64) as u16) == (handler / 0x1_0000) % 0x1_0000) by (bit_vector);
    assert(((handler >> 32u64) as u32) == handler / 0x1_0000_0000) by (bit_vector);
}

/// A gate set to `handler` jumps to exactly `handler`: the offset fields
/// split the address without loss.
pub proof fn lemma_gate_target(handler: u64)
    ensures
        gate_target(gate_for(handler)) == handler,
{
    let lo = handler as u16;
    let mid = (handler >> 16u64) as u16;
    let hi = (handler >> 32u64) as u32;
    assert(((hi as u64) << 32u64) | ((mid as u64) << 16u64) | (lo as u64) == handler) by (bit_vector)
        requires
            lo == handler as u16,
            mid == (handler >> 16u64) as u16,
            hi == (handler >> 32u64) as u32,
    ;
}

/// The IDT: one descriptor per vector, held inline.
pub struct Idt {
    entries: [IdtEntry; 256],
}

/// The descriptors after `install_irq_stubs(stubs)`: vector `0x20 + i` jumps to
/// `stubs[i]` for the sixteen PIC lines, every other vector is unchanged.
pub open spec fn with_irq_stubs(before: Seq<IdtEntry>, stubs: Seq<u64>) -> Seq<IdtEntry> {
    Seq::new(
        before.len(),
        |v: int|
            if IRQ_BASE_VECTOR <= v < IRQ_BASE_VECTOR + PIC_IRQS {
                gate_for(stubs[v - IRQ_BASE_VECTOR])
            } else {
                before[v]
            },
    )
}

impl Idt {
    /// The descriptors, by vector.
    pub closed spec fn view(&self) -> Seq<IdtEntry> {
        self.entries@
    }

    /// A table in which no gate is present.
    pub fn new() -> (t: Self)
        ensures
            t.view().len() == IDT_ENTRIES,
            forall|v: int| 0 <= v < IDT_ENTRIES ==> #[trigger] t.view()[v] == missing_entry(),
    {
        let missing = IdtEntry::missing();
        let entries: [IdtEntry; 256] = [missing; 256];
        Idt { entries }
    }

    /// The descriptor of `vector`.
    pub fn entry(&self, vector: usize) -> (e: IdtEntry)
        requires
            vector < IDT_ENTRIES,
        ensures
            e == self.view()[vector as int],
            self.view().len() == IDT_ENTRIES,
    {
        self.entries[vector]
    }

    /// Point the gates of the sixteen PIC lines (vectors `0x20..0x30`) at
    /// their entry stubs, `stubs[i]` for IRQ `i`.
    pub fn install_irq_stubs(&mut self, stubs: &[u64; 16])
        ensures
            final(self).view().len() == IDT_ENTRIES,
            final(self).view() == with_irq_stubs(old(self).view(), stubs@),
    {
        let ghost before = self.entries@;
        let mut i: usize = 0;
        while i < PIC_IRQS
            invariant
                i <= PIC_IRQS,
                stubs@.len() == PIC_IRQS,
                before.len() == IDT_ENTRIES,
                self.entries@.len() == IDT_ENTRIES,
                forall|v: int|
                    0 <= v < IDT_ENTRIES ==> #[trigger] self.entries@[v] == if IRQ_BASE_VECTOR
                        <= v < IRQ_BASE_VECTOR + i {
                        gate_for(stubs@[v - IRQ_BASE_VECTOR])
                    } else {
                        before[v]
                    },
            decreases PIC_IRQS - i,
        {
            let mut gate = self.entries[IRQ_BASE_VECTOR + i];
            gate.set(stubs[i]);
            self.entries[IRQ_BASE_VECTOR + i] = gate;
            i = i + 1;
        }
        assert(self.entries@ =~= with_irq_stubs(before, stubs@));
    }
}

/// The port writes that remap the 8259 PIC pair so that IRQ 0-7 use
/// vectors 0x20-0x27 and IRQ 8-15 use 0x28-0x2F, then mask every line.
pub open spec fn pic_remap_writes() -> Seq<(u16, u8)> {
    seq![
        (0x20u16, 0x11u8), (0xA0u16, 0x11u8),  // ICW1: begin initialisation
        (0x21u16, 0x20u8), (0xA1u16, 0x28u8),  // ICW2: vector offsets
        (0x21u16, 0x04u8), (0xA1u16, 0x02u8),  // ICW3: cascade identity
        (0x21u16, 0x01u8), (0xA1u16, 0x01u8),  // ICW4: 8086 mode
        (0x21u16, 0xFFu8), (0xA1u16, 0xFFu8),  // mask every line
    ]
}

/// The (port, byte) writes that remap the PIC, in the order to perform them.
pub fn remap_pic() -> (w: [(u16, u8); 10])
    ensures
        w@ == pic_remap_writes(),
{
    let w: [(u16, u8); 10] = [
        (0x20u16, 0x11u8),
        (0xA0u16, 0x11u8),
        (0x21u16, 0x20u8),
        (0xA1u16, 0x28u8),
        (0x21u16, 0x04u8),
        (0xA1u16, 0x02u8),
        (0x21u16, 0x01u8),
        (0xA1u16, 0x01u8),
        (0x21u16, 0xFFu8),
        (0xA1u16, 0xFFu8),
    ];
    assert(w@ =~= pic_remap_writes());
    w
}

} // verus!
