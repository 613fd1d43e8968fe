//! A small RISC-V teaching kernel's core: the frame allocator, the task
//! scheduler and program break, the trap and system-call dispatch, and the
//! address-space layout, each with its contract.

pub mod config;
pub mod mm;
pub mod task;
pub mod trap;
pub mod syscall;
pub mod timer;
pub mod batch;
pub mod loader;
