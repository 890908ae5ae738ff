//! The aarch64 (QEMU virt) frame pool, served by the bump allocator.

use vstd::prelude::*;

verus! {

/// First byte of the aarch64 pool (1 GiB, start of DRAM).
pub const POOL_BASE: usize = 0x4000_0000;
/// One past the last byte of the aarch64 pool (a 4 MiB pool).
pub const POOL_END: usize = 0x4040_0000;

} // verus!
