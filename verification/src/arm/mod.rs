//! ARM architecture support.

pub mod aarch64;
pub mod decoder;
pub mod execution;
pub mod instructions;
