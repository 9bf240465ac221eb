//! Control-transfer instructions.

pub mod jump;
