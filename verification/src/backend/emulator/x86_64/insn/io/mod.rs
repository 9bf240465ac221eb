//! Port I/O instructions.

pub mod string;
