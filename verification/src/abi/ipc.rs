//! IPC message header.

use vstd::prelude::*;

verus! {

/// The fixed header that starts every IPC message; the payload follows it.
#[derive(Debug, Clone, Copy, PartialEq, Eq, Structural)]
pub struct MessageHeader {
    /// Sender task id; filled in by the kernel on receive.
    pub src_pid: u32,
    /// Destination task id.
    pub dst_pid: u32,
    /// Application-defined message type.
    pub msg_type: u32,
    /// Bytes of payload that follow the header.
    pub payload_len: u32,
}

} // verus!
