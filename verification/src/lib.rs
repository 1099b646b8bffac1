//! Core of a small multi-architecture microkernel demo: frame allocation,
//! page-table construction, timer/interrupt bookkeeping, round-robin
//! preemption state, and a synchronous message-passing IPC substrate with a
//! cooperative task scheduler.
//!
//! Everything here is pure state manipulation over plain values; the
//! architecture front ends perform the MMIO, assembly and I/O around it.

pub mod ipc;
pub mod log;
pub mod mem;
pub mod preempt;
pub mod sched;
pub mod timer;
