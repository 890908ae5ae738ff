//! Kernel core: memory management, tasks, scheduling state, drivers and
//! syscall dispatch.

pub mod mm;
pub mod syscall_dispatch;
pub mod context;
pub mod task;
pub mod scheduler;
pub mod driver;
