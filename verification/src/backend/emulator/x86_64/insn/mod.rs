//! Instruction handlers grouped by family.

pub mod arith;
pub mod bcd;
pub mod control;
pub mod io;
pub mod mov;
pub mod simd;
pub mod string;
pub mod system;
