//! The aarch64 port: initial stack frames, the generic timer and the GIC.

pub mod context;
pub mod interrupts;
pub mod timer;
pub mod memory;
