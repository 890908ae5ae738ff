//! SpiritOS kernel logic: the syscall ABI, the frame allocator, the
//! interrupt tables, the task and driver bookkeeping, and the register
//! layouts that the architecture ports hand to the hardware.

pub mod abi;
pub mod hal;
pub mod kernel;
pub mod x86_64;
pub mod aarch64;
