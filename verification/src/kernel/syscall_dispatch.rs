//! Syscall dispatch: what the kernel answers to each syscall number.

use vstd::prelude::*;
use vstd::utf8::valid_utf8;
use crate::abi::error::{Error, error_code};
use crate::abi::syscall::{Syscall, syscall_number};

verus! {

/// What the kernel does for a syscall.
#[derive(Debug, Clone, Copy, PartialEq, Eq, Structural)]
pub enum Dispatched {
    /// Return `ret` to the caller; negative values are error codes.
    Return { ret: isize },
    /// Write the caller's buffer (valid UTF-8) to the console, then return
    /// `ret`, the number of bytes written.
    WriteConsole { ret: isize },
    /// End the calling task with exit status `code`; the call never returns
    /// to it, and the kernel reclaims its resources.
    Exit { code: usize },
    /// Block the caller for at least `ms` milliseconds, then return 0.
    Sleep { ms: usize },
}

/// What the kernel does for syscall `nr` with arg0 `a0` and arg2 `len`,
/// where `buf` holds the bytes of the caller's buffer (arg1, arg2) for
/// `Write`.
pub open spec fn dispatch_spec(nr: usize, a0: usize, len: usize, buf: Seq<u8>) -> Dispatched {
    if nr == syscall_number(Syscall::Exit) {
        Dispatched::Exit { code: a0 }
    } else if nr == syscall_number(Syscall::Write) {
        if valid_utf8(buf) {
            Dispatched::WriteConsole { ret: len as isize }
        } else {
            Dispatched::Return { ret: error_code(Error::InvalidArg) as isize }
        }
    } else if nr == syscall_number(Syscall::GetPid) || nr == syscall_number(Syscall::Yield) {
        Dispatched::Return { ret: 0 }
    } else if nr == syscall_number(Syscall::Sleep) {
        Dispatched::Sleep { ms: a0 }
    } else {
        Dispatched::Return { ret: error_code(Error::NotImpl) as isize }
    }
}

/// The value a syscall answer leaves in the caller's return register, for
/// the answers that return to the caller.
pub open spec fn returned_value(d: Dispatched) -> Option<int> {
    match d {
        Dispatched::Return { ret } => Some(ret as int),
        Dispatched::WriteConsole { ret } => Some(ret as int),
        Dispatched::Exit { .. } => None,
        Dispatched::Sleep { .. } => Some(0),
    }
}

/// The caller's `Write` buffer at `ptr` of `len` bytes can be read as a
/// slice: the pointer is not null and the length fits an `isize`.
pub open spec fn write_buffer_readable(ptr: usize, len: usize) -> bool {
    ptr != 0 && len <= isize::MAX
}

/// The answer to syscall `nr` that is settled before the caller's buffer is
/// read: a `Write` whose buffer (`a1`, `a2`) cannot be read is refused with
/// `InvalidArg`; `None` when the syscall goes on to `dispatch`.
pub fn refuse_unreadable_buffer(nr: usize, a1: usize, a2: usize) -> (r: Option<Dispatched>)
    ensures
        r == if nr == syscall_number(Syscall::Write) && !write_buffer_readable(a1, a2) {
            Some(Dispatched::Return { ret: error_code(Error::InvalidArg) as isize })
        } else {
            None
        },
        nr != 1 || (a1 != 0 && a2 <= isize::MAX) ==> r is None,
        nr == 1 && (a1 == 0 || a2 > isize::MAX) ==> r == Some(Dispatched::Return { ret: -3isize }),
{
    if nr == Syscall::Write.number() && (a1 == 0 || a2 > isize::MAX as usize) {
        Some(Dispatched::Return { ret: Error::InvalidArg.code() as isize })
    } else {
        None
    }
}

/// Exactly the buffers that `from_raw_parts` cannot take are unreadable:
/// a null pointer, or a length above `isize::MAX`; any other `Write`,
/// however long, goes on to `dispatch`.
pub proof fn lemma_write_buffer_readable(ptr: usize, len: usize)
    ensures
        write_buffer_readable(ptr, len) <==> (ptr != 0 && len <= isize::MAX),
{
}

/// Whether `bytes` is valid UTF-8.
///
/// Calls `core::str::from_utf8`, which per its documentation returns `Ok`
/// exactly when the bytes are valid UTF-8; the contract says so over vstd's
/// `valid_utf8`.
#[verifier::external_body]
fn is_valid_utf8(bytes: &[u8]) -> (r: bool)
    ensures
        r == valid_utf8(bytes@),
{
    core::str::from_utf8(bytes).is_ok()
}

/// Handle syscall `nr` with arguments `a0..a3`. For `Write`, `buf` holds the
/// `a2` bytes that the caller passed at `a1`; for other syscalls it is not
/// read.
pub fn dispatch(nr: usize, a0: usize, a1: usize, a2: usize, _a3: usize, buf: &[u8]) -> (r:
    Dispatched)
    requires
        nr == syscall_number(Syscall::Write) ==> buf@.len() == a2 && a2 <= isize::MAX,
    ensures
        r == dispatch_spec(nr, a0, a2, buf@),
{
    if nr == Syscall::Exit.number() {
        return Dispatched::Exit { code: a0 };
    }
    if nr == Syscall::Write.number() {
        if is_valid_utf8(buf) {
            return Dispatched::WriteConsole { ret: a2 as isize };
        }
        return Dispatched::Return { ret: Error::InvalidArg.code() as isize };
    }
    if nr == Syscall::GetPid.number() {
        return Dispatched::Return { ret: 0 };
    }
    if nr == Syscall::Yield.number() {
        return Dispatched::Return { ret: 0 };
    }
    if nr == Syscall::Sleep.number() {
        return Dispatched::Sleep { ms: a0 };
    }
    Dispatched::Return { ret: Error::NotImpl.code() as isize }
}

/// A negative value returned to the caller always names one of the ABI's
/// errors; only a valid `Write` reaches the console, and it returns the
/// length written; only `Exit` does not return to the caller.
pub proof fn lemma_dispatch_negative_is_error(nr: usize, a0: usize, len: usize, buf: Seq<u8>)
    requires
        len <= isize::MAX,
    ensures
        returned_value(dispatch_spec(nr, a0, len, buf)) is Some && returned_value(
            dispatch_spec(nr, a0, len, buf),
        )->0 < 0 ==> exists|e: Error|
            returned_value(dispatch_spec(nr, a0, len, buf))->0 == #[trigger] error_code(e),
        dispatch_spec(nr, a0, len, buf) is WriteConsole ==> nr == syscall_number(Syscall::Write)
            && returned_value(dispatch_spec(nr, a0, len, buf)) == Some(len as int),
        returned_value(dispatch_spec(nr, a0, len, buf)) is None <==> nr == syscall_number(
            Syscall::Exit,
        ),
{
    if nr == syscall_number(Syscall::Write) && !valid_utf8(buf) {
        assert(error_code(Error::InvalidArg) == -3);
    }
    if nr != syscall_number(Syscall::Exit) && nr != syscall_number(Syscall::Write) && nr
        != syscall_number(Syscall::GetPid) && nr != syscall_number(Syscall::Yield) && nr
        != syscall_number(Syscall::Sleep) {
        assert(error_code(Error::NotImpl) == -7);
    }
}

/// Syscalls that the kernel does not implement yet are refused with
/// `NotImpl` and have no effect.
pub proof fn lemma_dispatch_unimplemented(nr: usize, a0: usize, len: usize, buf: Seq<u8>)
    requires
        nr != syscall_number(Syscall::Exit),
        nr != syscall_number(Syscall::Write),
        nr != syscall_number(Syscall::GetPid),
        nr != syscall_number(Syscall::Yield),
        nr != syscall_number(Syscall::Sleep),
    ensures
        dispatch_spec(nr, a0, len, buf) == (Dispatched::Return {
            ret: error_code(Error::NotImpl) as isize,
        }),
{
}

} // verus!
