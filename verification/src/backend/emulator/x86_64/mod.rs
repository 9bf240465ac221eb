//! x86-64 instruction interpreter.

pub mod cpu;
pub mod dispatch;
pub mod flags;
pub mod insn;

pub use cpu::{EmuError, InsnContext, X86_64Vcpu};
