//! Device models: register files with their read/write side effects.

pub mod pl011;
pub mod s3c64xx;
