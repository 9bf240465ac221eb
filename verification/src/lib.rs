//! Verified core of an ARM/x86 machine emulator: interrupt controllers,
//! device models, instruction decoding and execution, device-tree building.

pub mod arch;
pub mod arm;
pub mod backend;
pub mod bits;
pub mod cpu;
pub mod devices;
pub mod smir;
