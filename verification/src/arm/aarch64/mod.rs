//! AArch64 platform pieces.

pub mod gic;
