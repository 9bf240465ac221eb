//! Hypervisor.framework backend: the parts that decode VMX state and the
//! ARM64 exit decisions.

pub mod arm64;
pub mod convert;
