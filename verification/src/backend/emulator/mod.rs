//! Software emulation backends.

pub mod x86_64;
