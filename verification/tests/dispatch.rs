use lib::abi::error::Error;
use lib::abi::syscall::Syscall;
use lib::kernel::syscall_dispatch::{dispatch, refuse_unreadable_buffer, Dispatched};

#[test]
fn exit_ends_the_task_with_its_code() {
    let r = dispatch(Syscall::Exit.number(), 3, 0, 0, 0, &[]);
    assert_eq!(r, Dispatched::Exit { code: 3 });
}

#[test]
fn write_of_valid_utf8_returns_length_and_reaches_console() {
    let msg = "Hello from userspace!\n".as_bytes();
    let r = dispatch(Syscall::Write.number(), 1, 0x1000, msg.len(), 0, msg);
    assert_eq!(r, Dispatched::WriteConsole { ret: msg.len() as isize });
}

#[test]
fn write_of_multibyte_utf8_is_accepted() {
    let msg = "héllo ✓".as_bytes();
    let r = dispatch(Syscall::Write.number(), 1, 0x1000, msg.len(), 0, msg);
    assert_eq!(r, Dispatched::WriteConsole { ret: msg.len() as isize });
}

#[test]
fn write_of_empty_buffer_returns_zero() {
    let r = dispatch(Syscall::Write.number(), 1, 0, 0, 0, &[]);
    assert_eq!(r, Dispatched::WriteConsole { ret: 0 });
}

#[test]
fn write_of_invalid_utf8_is_invalid_arg() {
    let bad = [0x66u8, 0xff, 0x6f];
    let r = dispatch(Syscall::Write.number(), 1, 0x1000, bad.len(), 0, &bad);
    assert_eq!(r, Dispatched::Return { ret: Error::InvalidArg.code() as isize });
    assert_eq!(r, Dispatched::Return { ret: -3 });
}

#[test]
fn write_of_truncated_sequence_is_invalid_arg() {
    let bad = [0xe2u8, 0x9c];
    let r = dispatch(Syscall::Write.number(), 1, 0x1000, bad.len(), 0, &bad);
    assert_eq!(r, Dispatched::Return { ret: -3 });
}

#[test]
fn getpid_and_yield_return_zero() {
    assert_eq!(dispatch(Syscall::GetPid.number(), 0, 0, 0, 0, &[]), Dispatched::Return { ret: 0 });
    assert_eq!(dispatch(Syscall::Yield.number(), 0, 0, 0, 0, &[]), Dispatched::Return { ret: 0 });
}

#[test]
fn sleep_waits_for_its_milliseconds() {
    let r = dispatch(Syscall::Sleep.number(), 250, 0, 0, 0, &[]);
    assert_eq!(r, Dispatched::Sleep { ms: 250 });
}

#[test]
fn unimplemented_syscalls_are_not_impl() {
    for s in [
        Syscall::Read,
        Syscall::AllocPage,
        Syscall::FreePage,
        Syscall::IpcSend,
        Syscall::IpcRecv,
        Syscall::IrqBind,
    ] {
        let r = dispatch(s.number(), 0, 0, 0, 0, &[]);
        assert_eq!(r, Dispatched::Return { ret: -7 });
    }
    assert_eq!(
        dispatch(99, 0, 0, 0, 0, &[]),
        Dispatched::Return { ret: Error::NotImpl.code() as isize }
    );
}

#[test]
fn unreadable_write_buffer_is_refused_before_reading() {
    let w = Syscall::Write.number();
    assert_eq!(refuse_unreadable_buffer(w, 0, 4), Some(Dispatched::Return { ret: -3 }));
    assert_eq!(
        refuse_unreadable_buffer(w, 0x1000, isize::MAX as usize + 1),
        Some(Dispatched::Return { ret: -3 })
    );
    assert_eq!(refuse_unreadable_buffer(w, 0x1000, 16), None);
    assert_eq!(refuse_unreadable_buffer(Syscall::GetPid.number(), 0, usize::MAX), None);
}
