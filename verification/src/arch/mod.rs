//! Platform description support.

pub mod fdt;
