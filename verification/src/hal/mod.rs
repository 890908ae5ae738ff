//! Hardware abstraction: the traits that a port implements for the kernel.

pub mod memory;
pub mod irq;
pub mod console;
