//! SMIR lifting interfaces.
//!
//! This module provides traits and types for lifting machine code to SMIR.

use crate::smir::ir::{Address, CallTarget, Condition, SmirBlock, SmirFunction, SmirOp, TrapKind};
use crate::smir::types::{
    ArchReg, BlockId, BlockIdAllocator, Endian, FunctionId, GuestAddr, MemoryError, OpId,
    SourceArch, VReg, VRegAllocator,
};
use std::collections::HashMap;
use vstd::prelude::*;

verus! {

broadcast use vstd::std_specs::hash::group_hash_axioms;

// ============================================================================
// Lifter Trait
// ============================================================================

/// Lifter interface for converting machine code to SMIR
pub trait SmirLifter {
    /// Source architecture
    fn source_arch(&self) -> SourceArch;

    /// Lift a single instruction at the given address
    fn lift_insn(&mut self, addr: GuestAddr, bytes: &[u8], ctx: &mut LiftContext) -> Result<
        LiftResult,
        LiftError,
    >;

    /// Lift a basic block starting at the given address
    fn lift_block<M: MemoryReader>(
        &mut self,
        addr: GuestAddr,
        mem: &M,
        ctx: &mut LiftContext,
    ) -> Result<SmirBlock, LiftError>;

    /// Lift a function (all reachable blocks from entry)
    fn lift_function<M: MemoryReader>(
        &mut self,
        entry: GuestAddr,
        mem: &M,
        ctx: &mut LiftContext,
    ) -> Result<SmirFunction, LiftError>;
}

// ============================================================================
// Lift Result
// ============================================================================

/// Result of lifting a single instruction
#[derive(Clone, Debug)]
pub struct LiftResult {
    /// SMIR operations generated
    pub ops: Vec<SmirOp>,
    /// Number of bytes consumed
    pub bytes_consumed: usize,
    /// Control flow effect
    pub control_flow: ControlFlow,
    /// Branch targets (for block discovery)
    pub branch_targets: Vec<GuestAddr>,
}

impl LiftResult {
    /// Create a new result for a fallthrough instruction
    pub fn fallthrough(ops: Vec<SmirOp>, bytes: usize) -> (r: Self)
        ensures
            r.ops@ == ops@,
            r.bytes_consumed == bytes,
            r.control_flow == ControlFlow::Fallthrough,
            r.branch_targets@ == Seq::<GuestAddr>::empty(),
    {
        LiftResult {
            ops,
            bytes_consumed: bytes,
            control_flow: ControlFlow::Fallthrough,
            branch_targets: Vec::new(),
        }
    }

    /// Create a new result for a branch instruction
    pub fn branch(ops: Vec<SmirOp>, bytes: usize, target: GuestAddr) -> (r: Self)
        ensures
            r.ops@ == ops@,
            r.bytes_consumed == bytes,
            r.control_flow == (ControlFlow::Branch { target }),
            r.branch_targets@ == seq![target],
    {
        LiftResult {
            ops,
            bytes_consumed: bytes,
            control_flow: ControlFlow::Branch { target },
            branch_targets: vec![target],
        }
    }

    /// Create a new result for a conditional branch
    pub fn cond_branch(
        ops: Vec<SmirOp>,
        bytes: usize,
        cond: Condition,
        target: GuestAddr,
        fallthrough: GuestAddr,
    ) -> (r: Self)
        ensures
            r.ops@ == ops@,
            r.bytes_consumed == bytes,
            r.control_flow == (ControlFlow::CondBranch { cond, target, fallthrough }),
            r.branch_targets@ == seq![target, fallthrough],
    {
        LiftResult {
            ops,
            bytes_consumed: bytes,
            control_flow: ControlFlow::CondBranch { cond, target, fallthrough },
            branch_targets: vec![target, fallthrough],
        }
    }

    /// Create a new result for a return instruction
    pub fn ret(ops: Vec<SmirOp>, bytes: usize) -> (r: Self)
        ensures
            r.ops@ == ops@,
            r.bytes_consumed == bytes,
            r.control_flow == ControlFlow::Return,
            r.branch_targets@ == Seq::<GuestAddr>::empty(),
    {
        LiftResult {
            ops,
            bytes_consumed: bytes,
            control_flow: ControlFlow::Return,
            branch_targets: Vec::new(),
        }
    }
}

// ============================================================================
// Control Flow
// ============================================================================

/// Control flow after an instruction
#[derive(Clone, Copy, Debug, PartialEq, Eq, Structural)]
pub enum ControlFlow {
    /// Continue to next instruction
    Fallthrough,
    /// Continue to next instruction (alias for Fallthrough)
    NextInsn,
    /// Unconditional branch to known address
    Branch { target: GuestAddr },
    /// Unconditional branch (direct target, alias form)
    DirectBranch(GuestAddr),
    /// Conditional branch (condition code based)
    CondBranch { cond: Condition, target: GuestAddr, fallthrough: GuestAddr },
    /// Conditional branch (VReg boolean condition)
    CondBranchReg { cond: VReg, taken: GuestAddr, not_taken: GuestAddr },
    /// Indirect branch (computed target)
    IndirectBranch { target: VReg },
    /// Indirect branch through memory
    IndirectBranchMem { addr: Address },
    /// Function call
    Call { target: CallTarget },
    /// Return from function
    Return,
    /// Trap (exception, undefined)
    Trap { kind: TrapKind },
    /// System call
    Syscall,
}

/// The statically known successors of an instruction with control flow
/// `cf`.
pub open spec fn direct_targets_spec(cf: ControlFlow) -> Seq<GuestAddr> {
    match cf {
        ControlFlow::Branch { target } => seq![target],
        ControlFlow::DirectBranch(target) => seq![target],
        ControlFlow::CondBranch { target, fallthrough, .. } => seq![target, fallthrough],
        ControlFlow::CondBranchReg { taken, not_taken, .. } => seq![taken, not_taken],
        _ => Seq::empty(),
    }
}

impl ControlFlow {
    /// Check if this is a block-ending control flow
    pub fn ends_block(&self) -> (r: bool)
        ensures
            r == !(*self is Fallthrough || *self is NextInsn),
    {
        !matches!(self, ControlFlow::Fallthrough | ControlFlow::NextInsn)
    }

    /// Check if this is a function-ending control flow
    pub fn ends_function(&self) -> (r: bool)
        ensures
            r == (*self is Return || *self is Trap || *self is Syscall),
    {
        matches!(self, ControlFlow::Return | ControlFlow::Trap { .. } | ControlFlow::Syscall)
    }

    /// Get direct branch targets (for block discovery)
    pub fn direct_targets(&self) -> (r: Vec<GuestAddr>)
        ensures
            r@ == direct_targets_spec(*self),
    {
        match self {
            ControlFlow::Branch { target } => vec![*target],
            ControlFlow::DirectBranch(target) => vec![*target],
            ControlFlow::CondBranch { target, fallthrough, .. } => vec![*target, *fallthrough],
            ControlFlow::CondBranchReg { taken, not_taken, .. } => vec![*taken, *not_taken],
            _ => Vec::new(),
        }
    }
}

/// A function-ending control flow also ends its block.
pub proof fn lemma_ends_function_ends_block(cf: ControlFlow)
    ensures
        (cf is Return || cf is Trap || cf is Syscall) ==> !(cf is Fallthrough || cf is NextInsn),
{
}

// ============================================================================
// Lift Context
// ============================================================================

/// Lifting context (shared state across lifting)
pub struct LiftContext {
    /// Source architecture
    pub arch: SourceArch,
    /// Virtual register allocator
    pub vreg_alloc: VRegAllocator,
    /// Block ID allocator
    pub block_alloc: BlockIdAllocator,
    /// Current guest PC
    pub guest_pc: GuestAddr,
    /// Endianness
    pub endian: Endian,
    /// Known function entries (for call resolution)
    pub known_functions: HashMap<GuestAddr, FunctionId>,
    /// Symbol table
    pub symbols: HashMap<GuestAddr, String>,
    /// Lifted blocks cache (guest address -> block ID)
    pub block_cache: HashMap<GuestAddr, BlockId>,
    /// Current extended immediate (Hexagon)
    pub extended_imm: Option<u32>,
    /// Next operation identifier (wraps)
    pub op_counter: u16,
}

/// Looking up `addr` in a block cache: the cached block, or a fresh one
/// (number `next`) that is then cached. Returns the block, the new cache
/// and the new allocator position.
pub open spec fn block_for(cache: Map<GuestAddr, BlockId>, next: nat, addr: GuestAddr) -> (
    BlockId,
    Map<GuestAddr, BlockId>,
    nat,
) {
    if cache.contains_key(addr) {
        (cache[addr], cache, next)
    } else {
        (BlockId(next as u32), cache.insert(addr, BlockId(next as u32)), next + 1)
    }
}

/// Blocks in a cache were all allocated before `next`, and distinct
/// addresses have distinct blocks.
pub open spec fn cache_wf(cache: Map<GuestAddr, BlockId>, next: nat) -> bool {
    &&& forall|a: GuestAddr| #[trigger] cache.contains_key(a) ==> cache[a].0 < next
    &&& forall|a: GuestAddr, b: GuestAddr|
        #[trigger] cache.contains_key(a) && #[trigger] cache.contains_key(b) && a != b ==> cache[a]
            != cache[b]
}

/// Asking for the block of an address twice gives the same block, and the
/// second request changes nothing.
pub proof fn lemma_block_for_idempotent(cache: Map<GuestAddr, BlockId>, next: nat, addr: GuestAddr)
    ensures
        ({
            let (b1, c1, n1) = block_for(cache, next, addr);
            let (b2, c2, n2) = block_for(c1, n1, addr);
            b1 == b2 && c1 == c2 && n1 == n2
        }),
{
}

/// Block lookup keeps distinct addresses on distinct blocks.
pub proof fn lemma_block_for_keeps_distinct(
    cache: Map<GuestAddr, BlockId>,
    next: nat,
    addr: GuestAddr,
)
    requires
        cache_wf(cache, next),
        next < u32::MAX,
    ensures
        ({
            let (b, c, n) = block_for(cache, next, addr);
            cache_wf(c, n) && c.contains_key(addr) && c[addr] == b
        }),
{
    let (b, c, n) = block_for(cache, next, addr);
    if !cache.contains_key(addr) {
        assert forall|x: GuestAddr, y: GuestAddr|
            #[trigger] c.contains_key(x) && #[trigger] c.contains_key(y) && x != y implies c[x]
            != c[y] by {
            if x != addr && y != addr {
                assert(cache.contains_key(x) && cache.contains_key(y));
            } else if x == addr {
                assert(cache.contains_key(y));
            } else {
                assert(cache.contains_key(x));
            }
        }
    }
}

/// `ext << 6 | base[5:0]`: a Hexagon constant extender supplies the upper
/// 26 bits of an immediate, the instruction the low 6.
pub open spec fn extended_value(ext: u32, base: i32) -> u32 {
    ((ext % 0x400_0000) * 64 + (base as u32) % 64) as u32
}

impl LiftContext {
    /// The block-cache and allocator invariants.
    pub open spec fn wf(&self) -> bool {
        &&& self.vreg_alloc.wf()
        &&& cache_wf(self.block_cache@, self.block_alloc.next())
    }

    /// Create a new context for the given architecture
    pub fn new(arch: SourceArch) -> (r: Self)
        ensures
            r.wf(),
            r.arch == arch,
            r.guest_pc == 0,
            r.endian == Endian::Little,
            r.vreg_alloc.next() == 0,
            r.vreg_alloc.bindings() == Map::<u16, VReg>::empty(),
            r.block_alloc.next() == 0,
            r.known_functions@ == Map::<GuestAddr, FunctionId>::empty(),
            r.symbols@ == Map::<GuestAddr, String>::empty(),
            r.block_cache@ == Map::<GuestAddr, BlockId>::empty(),
            r.extended_imm is None,
            r.op_counter == 0,
    {
        LiftContext {
            arch,
            vreg_alloc: VRegAllocator::new(),
            block_alloc: BlockIdAllocator::new(),
            guest_pc: 0,
            endian: arch.default_endian(),
            known_functions: HashMap::new(),
            symbols: HashMap::new(),
            block_cache: HashMap::new(),
            extended_imm: None,
            op_counter: 0,
        }
    }

    /// Allocate a new virtual register
    pub fn alloc_vreg(&mut self) -> (r: VReg)
        requires
            old(self).vreg_alloc.next() < u32::MAX,
        ensures
            r.0 == old(self).vreg_alloc.next(),
            final(self).vreg_alloc.next() == old(self).vreg_alloc.next() + 1,
            final(self).vreg_alloc.bindings() == old(self).vreg_alloc.bindings(),
            final(self).block_alloc == old(self).block_alloc,
            final(self).block_cache@ == old(self).block_cache@,
            final(self).extended_imm == old(self).extended_imm,
            old(self).wf() ==> final(self).wf(),
    {
        self.vreg_alloc.fresh()
    }

    /// Allocate a new block ID
    pub fn alloc_block(&mut self) -> (r: BlockId)
        requires
            old(self).block_alloc.next() < u32::MAX,
        ensures
            r.0 == old(self).block_alloc.next(),
            final(self).block_alloc.next() == old(self).block_alloc.next() + 1,
            final(self).vreg_alloc == old(self).vreg_alloc,
            final(self).block_cache@ == old(self).block_cache@,
            final(self).extended_imm == old(self).extended_imm,
            old(self).wf() ==> final(self).wf(),
    {
        self.block_alloc.fresh()
    }

    /// Get or create a block ID for a guest address
    pub fn get_or_create_block(&mut self, addr: GuestAddr) -> (r: BlockId)
        requires
            old(self).block_alloc.next() < u32::MAX,
        ensures
            ({
                let (b, c, n) = block_for(old(self).block_cache@, old(self).block_alloc.next(), addr);
                &&& r == b
                &&& final(self).block_cache@ == c
                &&& final(self).block_alloc.next() == n
            }),
            final(self).vreg_alloc == old(self).vreg_alloc,
            final(self).extended_imm == old(self).extended_imm,
            old(self).wf() ==> final(self).wf(),
    {
        let cached = match self.block_cache.get(&addr) {
            Some(id) => Some(*id),
            None => None,
        };
        match cached {
            Some(id) => id,
            None => {
                let id = self.alloc_block();
                self.block_cache.insert(addr, id);
                proof {
                    if old(self).wf() {
                        lemma_block_for_keeps_distinct(
                            old(self).block_cache@,
                            old(self).block_alloc.next(),
                            addr,
                        );
                    }
                }
                id
            },
        }
    }

    /// Set extended immediate (Hexagon constant extender)
    pub fn set_extended_imm(&mut self, value: u32)
        ensures
            final(self).extended_imm == Some(value),
            final(self).vreg_alloc == old(self).vreg_alloc,
            final(self).block_alloc == old(self).block_alloc,
            final(self).block_cache@ == old(self).block_cache@,
    {
        self.extended_imm = Some(value);
    }

    /// Take extended immediate if set
    pub fn take_extended_imm(&mut self) -> (r: Option<u32>)
        ensures
            r == old(self).extended_imm,
            final(self).extended_imm is None,
            final(self).vreg_alloc == old(self).vreg_alloc,
            final(self).block_alloc == old(self).block_alloc,
            final(self).block_cache@ == old(self).block_cache@,
    {
        self.extended_imm.take()
    }

    /// Apply extended immediate to a value
    pub fn extend_imm(&mut self, base: i32) -> (r: i32)
        ensures
            match old(self).extended_imm {
                Some(ext) => r as u32 == extended_value(ext, base),
                None => r == base,
            },
            final(self).extended_imm is None,
            final(self).vreg_alloc == old(self).vreg_alloc,
            final(self).block_alloc == old(self).block_alloc,
            final(self).block_cache@ == old(self).block_cache@,
    {
        if let Some(ext) = self.take_extended_imm() {
            // Hexagon extension: upper 26 bits from extender, lower 6 from instruction
            let v = ((ext << 6u32) as i32) | (base & 0x3F);
            assert((((ext << 6u32) as i32) | (base & 0x3F)) as u32 == (ext % 0x400_0000) * 64
                + (base as u32) % 64) by (bit_vector);
            v
        } else {
            base
        }
    }

    /// Get the current virtual register for an architecture register
    pub fn get_arch_reg(&mut self, reg: ArchReg) -> (r: VReg)
        requires
            old(self).vreg_alloc.next() < u32::MAX,
        ensures
            old(self).vreg_alloc.bindings().contains_key(reg.0) ==> r == old(self).vreg_alloc.bindings()[reg.0] && final(self).vreg_alloc == old(self).vreg_alloc,
            !old(self).vreg_alloc.bindings().contains_key(reg.0) ==> r.0 == old(self).vreg_alloc.next() && final(self).vreg_alloc.next() == old(self).vreg_alloc.next()
                + 1 && final(self).vreg_alloc.bindings() == old(self).vreg_alloc.bindings().insert(
                reg.0,
                r,
            ),
            final(self).block_alloc == old(self).block_alloc,
            final(self).block_cache@ == old(self).block_cache@,
            final(self).extended_imm == old(self).extended_imm,
            old(self).wf() ==> final(self).wf(),
    {
        self.vreg_alloc.get_arch(reg)
    }

    /// Define a new value for an architecture register
    pub fn define_arch_reg(&mut self, reg: ArchReg) -> (r: VReg)
        requires
            old(self).vreg_alloc.next() < u32::MAX,
        ensures
            r.0 == old(self).vreg_alloc.next(),
            final(self).vreg_alloc.next() == old(self).vreg_alloc.next() + 1,
            final(self).vreg_alloc.bindings() == old(self).vreg_alloc.bindings().insert(reg.0, r),
            final(self).block_alloc == old(self).block_alloc,
            final(self).block_cache@ == old(self).block_cache@,
            final(self).extended_imm == old(self).extended_imm,
            old(self).wf() ==> final(self).wf(),
    {
        self.vreg_alloc.define_arch(reg)
    }

    /// Allocate the next operation ID (the counter wraps)
    pub fn next_op_id(&mut self) -> (r: OpId)
        ensures
            r == OpId(old(self).op_counter),
            final(self).op_counter == old(self).op_counter.wrapping_add(1),
            final(self).vreg_alloc == old(self).vreg_alloc,
            final(self).block_alloc == old(self).block_alloc,
            final(self).block_cache@ == old(self).block_cache@,
            final(self).extended_imm == old(self).extended_imm,
    {
        let id = OpId(self.op_counter);
        self.op_counter = self.op_counter.wrapping_add(1);
        id
    }
}

impl Default for LiftContext {
    fn default() -> (r: Self)
        ensures
            r.wf(),
            r.arch == SourceArch::X86_64,
            r.block_cache@ == Map::<GuestAddr, BlockId>::empty(),
            r.extended_imm is None,
    {
        Self::new(SourceArch::X86_64)
    }
}

// ============================================================================
// Lift Error
// ============================================================================

/// Lifting error
#[derive(Clone, Debug)]
pub enum LiftError {
    /// Invalid instruction encoding
    InvalidEncoding { addr: GuestAddr, bytes: Vec<u8> },
    /// Unsupported instruction
    Unsupported { addr: GuestAddr, mnemonic: String },
    /// Memory read error
    MemoryError { addr: GuestAddr, error: MemoryError },
    /// Incomplete instruction (need more bytes)
    Incomplete { addr: GuestAddr, have: usize, need: usize },
    /// Internal lifter error
    Internal(String),
}

// ============================================================================
// Memory Reader Trait
// ============================================================================

/// Memory reader interface for lifting (read-only)
pub trait MemoryReader {
    fn read(&self, addr: GuestAddr, size: usize) -> Result<Vec<u8>, MemoryError>;
}

} // verus!
