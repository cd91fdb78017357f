//! An emulator for a single RV64 hardware thread: the base integer
//! instruction set with the multiply/divide extension, a subset of the
//! atomic memory operations, and the machine-level trap mechanism, executed
//! against a software model of registers, control/status state, and a
//! physical address space.
//!
//! Every architectural transition is specified against a mathematical view
//! of the machine (`step::CpuView`) and proved: `Cpu::execute` performs
//! exactly one fetch-decode-execute step of the specification-level
//! interpreter `step::cpu_step`, and `Cpu::handle_trap` performs exactly
//! the trap-delivery transition `step::trap_step`.

pub mod bytes;
pub mod exception;
pub mod isa;
pub mod regs;
pub mod dram;
pub mod rom;
pub mod uart;
pub mod clint;
pub mod bus;
pub mod step;
pub mod cpu;
pub mod laws;
