//! Syscall numbers and calling convention.
//!
//! | Purpose    | x86_64 | aarch64 |
//! |------------|--------|---------|
//! | syscall nr | rax    | x8      |
//! | arg0       | rdi    | x0      |
//! | arg1       | rsi    | x1      |
//! | arg2       | rdx    | x2      |
//! | arg3       | r10    | x3      |
//! | return     | rax    | x0      |
//!
//! Negative return values indicate an error (see `error::Error`).

use vstd::prelude::*;

verus! {

/// The syscalls of the ABI. The number that selects each one is given by
/// [`Syscall::number`].
#[non_exhaustive]
#[derive(Debug, Clone, Copy, PartialEq, Eq, Structural)]
pub enum Syscall {
    /// Terminate the current task. arg0 = exit code.
    Exit,
    /// Write bytes to fd. arg0=fd, arg1=buf_ptr, arg2=len.
    Write,
    /// Read bytes from fd. arg0=fd, arg1=buf_ptr, arg2=len.
    Read,
    /// Allocate pages. arg0=size_bytes. Returns base address.
    AllocPage,
    /// Free pages. arg0=ptr, arg1=size_bytes.
    FreePage,
    /// Send IPC. arg0=dest_pid, arg1=msg_ptr, arg2=msg_len.
    IpcSend,
    /// Receive IPC (blocking). arg0=buf_ptr, arg1=buf_len.
    IpcRecv,
    /// Get current task ID.
    GetPid,
    /// Yield CPU to scheduler.
    Yield,
    /// Sleep arg0 milliseconds.
    Sleep,
    /// Register IRQ handler (privileged). arg0=irq_nr, arg1=handler_fn_ptr.
    IrqBind,
}

/// The syscall number of each syscall, as fixed by the syscall table.
pub open spec fn syscall_number(s: Syscall) -> nat {
    match s {
        Syscall::Exit => 0,
        Syscall::Write => 1,
        Syscall::Read => 2,
        Syscall::AllocPage => 3,
        Syscall::FreePage => 4,
        Syscall::IpcSend => 5,
        Syscall::IpcRecv => 6,
        Syscall::GetPid => 7,
        Syscall::Yield => 8,
        Syscall::Sleep => 9,
        Syscall::IrqBind => 10,
    }
}

impl Syscall {
    /// The number that selects this syscall in the syscall-number register.
    pub fn number(&self) -> (n: usize)
        ensures
            n == syscall_number(*self),
    {
        match self {
            Syscall::Exit => 0,
            Syscall::Write => 1,
            Syscall::Read => 2,
            Syscall::AllocPage => 3,
            Syscall::FreePage => 4,
            Syscall::IpcSend => 5,
            Syscall::IpcRecv => 6,
            Syscall::GetPid => 7,
            Syscall::Yield => 8,
            Syscall::Sleep => 9,
            Syscall::IrqBind => 10,
        }
    }
}

/// Distinct syscalls have distinct numbers, all in `0..=10`: a number names
/// at most one syscall.
pub proof fn lemma_syscall_numbers_distinct(s1: Syscall, s2: Syscall)
    requires
        s1 != s2,
    ensures
        syscall_number(s1) != syscall_number(s2),
        syscall_number(s1) <= 10,
{
}

} // verus!
