//! System instructions.

pub mod msr;
