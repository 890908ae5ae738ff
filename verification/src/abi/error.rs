//! Canonical error codes returned by syscalls.

use vstd::prelude::*;

verus! {

/// An error that a syscall reports. Its code, as returned in the syscall
/// return register, is given by [`Error::code`].
#[derive(Debug, Clone, Copy, PartialEq, Eq, Structural)]
pub enum Error {
    Perm,
    NotFound,
    InvalidArg,
    OutOfMemory,
    WouldBlock,
    Io,
    NotImpl,
    Busy,
}

/// The numeric code of an error, as fixed by the ABI.
pub open spec fn error_code(e: Error) -> int {
    match e {
        Error::Perm => -1,
        Error::NotFound => -2,
        Error::InvalidArg => -3,
        Error::OutOfMemory => -4,
        Error::WouldBlock => -5,
        Error::Io => -6,
        Error::NotImpl => -7,
        Error::Busy => -8,
    }
}

impl Error {
    /// The code that a syscall returns for this error.
    pub fn code(&self) -> (c: i64)
        ensures
            c == error_code(*self),
    {
        match self {
            Error::Perm => -1,
            Error::NotFound => -2,
            Error::InvalidArg => -3,
            Error::OutOfMemory => -4,
            Error::WouldBlock => -5,
            Error::Io => -6,
            Error::NotImpl => -7,
            Error::Busy => -8,
        }
    }
}

/// Every error code is negative, and lies in `-8..=-1`.
pub proof fn lemma_error_codes_negative(e: Error)
    ensures
        -8 <= error_code(e) <= -1,
{
}

/// Two different errors never share a code.
pub proof fn lemma_error_codes_distinct(e1: Error, e2: Error)
    requires
        e1 != e2,
    ensures
        error_code(e1) != error_code(e2),
{
}

} // verus!
