//! Trap-and-schedule core of a single-core, machine-mode RISC-V micro-kernel.
//!
//! Everything here is plain computation over values: the kernel state is one
//! owned [`scheduler::Kernel`] value, and every hardware register that the core
//! decides about is held in it as a shadow that the machine-level glue writes
//! back after each kernel entry.
use vstd::prelude::*;

pub mod bitfield;
pub mod clint;
pub mod cpu;
pub mod mem;
pub mod memory_mapping;
pub mod plic;
pub mod pmp;
pub mod scheduler;
pub mod setup;
pub mod stack;
pub mod system_calls;
pub mod trap;
pub mod uart;
pub mod user_calls;
pub mod user_prog;
