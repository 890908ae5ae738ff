//! The x86_64 port: its frame allocator, stack frames, IDT and PIC.

pub mod memory;
pub mod idt;
pub mod context;
pub mod interrupts;
