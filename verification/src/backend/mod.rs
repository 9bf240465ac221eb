//! Execution backends.

pub mod emulator;
pub mod hvf;
