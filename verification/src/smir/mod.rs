//! SMIR: the architecture-neutral intermediate representation that guest
//! code is lifted into.

pub mod ir;
pub mod lift;
pub mod types;
