//! SMIR operations, blocks and functions.

use crate::smir::types::{BlockId, GuestAddr, OpId, VReg};
use vstd::prelude::*;

verus! {

/// A flags-based branch condition.
#[derive(Clone, Copy, Debug, PartialEq, Eq, Structural)]
pub enum Condition {
    Eq,
    Ne,
    /// Unsigned below / above-or-equal / below-or-equal / above.
    Ult,
    Uge,
    Ule,
    Ugt,
    /// Signed less / greater-or-equal / less-or-equal / greater.
    Slt,
    Sge,
    Sle,
    Sgt,
    Negative,
    NotNegative,
    Overflow,
    NoOverflow,
}

/// A memory operand: base + index * scale + displacement.
#[derive(Clone, Copy, Debug, PartialEq, Eq, Structural)]
pub struct Address {
    pub base: Option<VReg>,
    pub index: Option<VReg>,
    pub scale: u8,
    pub disp: i64,
}

/// Target of a call.
#[derive(Clone, Copy, Debug, PartialEq, Eq, Structural)]
pub enum CallTarget {
    Direct(GuestAddr),
    Indirect(VReg),
}

/// Why a trap is taken.
#[derive(Clone, Copy, Debug, PartialEq, Eq, Structural)]
pub enum TrapKind {
    Undefined,
    Breakpoint,
    Unaligned,
}

/// One lifted operation: its identifier and the guest instruction it came
/// from.
#[derive(Clone, Copy, Debug, PartialEq, Eq, Structural)]
pub struct SmirOp {
    pub id: OpId,
    pub guest_pc: GuestAddr,
}

/// A lifted basic block.
#[derive(Clone, Debug)]
pub struct SmirBlock {
    pub id: BlockId,
    pub guest_start: GuestAddr,
    pub ops: Vec<SmirOp>,
}

/// A lifted function: its entry and blocks.
#[derive(Clone, Debug)]
pub struct SmirFunction {
    pub entry: GuestAddr,
    pub blocks: Vec<SmirBlock>,
}

} // verus!
