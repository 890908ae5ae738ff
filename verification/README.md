# SpiritOS kernel logic, verified

The decisions and data layouts of the SpiritOS kernel, written in Verus and
proved against their contracts. The crate is named `lib`. Every table
(IRQ handlers, IDT, driver registry, stack frames) is held inline: the
library allocates nothing.

- `src/abi` — syscall numbers, error codes, the IPC message header.
- `src/hal` — the `Console` and `Memory` traits a port implements, and the
  IRQ handler table shared by the interrupt controllers.
- `src/kernel` — memory manager (`mm`), syscall dispatch, tasks, scheduler
  state and round-robin scheduling step, driver registry, initial task
  frames.
- `src/x86_64`, `src/aarch64` — the bump frame allocator, IDT descriptors and
  PIC remapping/masking, context-switch frames, generic-timer arithmetic, the
  GIC handler table.
- `app/` — the boot binary: inline assembly, port and MMIO access, the
  platform singleton and the HAL traits whose behaviour depends on hardware.
- `tests/` — concrete scenarios for every module.
