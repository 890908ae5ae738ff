//! Syscall numbers, error codes and IPC message types shared by kernel and
//! userspace.

pub mod error;
pub mod ipc;
pub mod syscall;
