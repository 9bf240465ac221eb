//! Load/store instructions: single, doubleword, exclusive, multiple, push
//! and pop, and the Thumb table branches.

use super::operands::{field, insn_ok, ldst_half_operands, ldst_operands, ldstm_operands};
use super::{mem_same, regs_step, write_reg, ExecResult, ExclusiveMonitor, Executor};
use crate::arm::decoder::DecodedInsn;
use crate::arm::execution::{
    at, le16, le32, lemma_mask_bounds, reg_read, sext, sign_extend, word_byte_update, ArmMemory,
    CpuState, MemoryError,
};
use vstd::prelude::*;

verus! {

// ============================================================================
// Memory views
// ============================================================================

/// All four bytes of the word at `a` are backed.
pub open spec fn word_ok<M: ArmMemory>(m: M, a: u32) -> bool {
    m.mapped(a) && m.mapped(at(a, 1)) && m.mapped(at(a, 2)) && m.mapped(at(a, 3))
}

/// The little-endian word at `a`.
pub open spec fn word_at<M: ArmMemory>(m: M, a: u32) -> u32 {
    le32(m.byte(a), m.byte(at(a, 1)), m.byte(at(a, 2)), m.byte(at(a, 3)))
}

/// Both bytes of the halfword at `a` are backed.
pub open spec fn half_ok<M: ArmMemory>(m: M, a: u32) -> bool {
    m.mapped(a) && m.mapped(at(a, 1))
}

/// The little-endian halfword at `a`.
pub open spec fn half_at<M: ArmMemory>(m: M, a: u32) -> u16 {
    le16(m.byte(a), m.byte(at(a, 1)))
}

/// Access of kind `k` at `a` is backed: 0 word, 1 byte, 2 halfword,
/// 3 signed byte, 4 signed halfword.
pub open spec fn load_ok<M: ArmMemory>(m: M, a: u32, k: int) -> bool {
    if k == 0 {
        word_ok(m, a)
    } else if k == 1 || k == 3 {
        m.mapped(a)
    } else {
        half_ok(m, a)
    }
}

/// The register value loaded by an access of kind `k` (see `load_ok`).
pub open spec fn loaded<M: ArmMemory>(m: M, a: u32, k: int) -> u32 {
    if k == 0 {
        word_at(m, a)
    } else if k == 1 {
        m.byte(a) as u32
    } else if k == 2 {
        half_at(m, a) as u32
    } else if k == 3 {
        sext(m.byte(a) as u32, 8)
    } else {
        sext(half_at(m, a) as u32, 16)
    }
}

/// The state after the base register writeback `wb`, if any.
pub open spec fn with_wb(cpu: CpuState, wb: Option<(usize, u32)>) -> CpuState {
    match wb {
        Some((n, a)) => CpuState { regs: cpu.regs.update(n as int, a), ..cpu },
        None => cpu,
    }
}

/// Operands of a single load/store of kind `k` (word and byte forms use the
/// word/byte encoding, the others the halfword encoding).
pub open spec fn single_operands(cpu: CpuState, insn: DecodedInsn, k: int) -> Option<
    (usize, u32, Option<(usize, u32)>),
> {
    if k == 0 || k == 1 {
        ldst_operands(cpu, insn)
    } else {
        ldst_half_operands(cpu, insn)
    }
}

/// LDR/LDRB/LDRH/LDRSB/LDRSH: on a backed access, the writeback then the
/// loaded value in Rt (LDR to R15 is a branch); otherwise a memory fault
/// with nothing changed.
pub open spec fn load_post<M: ArmMemory>(
    o: Executor<M>,
    n: Executor<M>,
    r: ExecResult,
    insn: DecodedInsn,
    k: int,
) -> bool {
    match single_operands(o.cpu@, insn, k) {
        None => regs_step(o, n, r, (o.cpu@, ExecResult::Undefined)),
        Some((t, addr, wb)) => if load_ok(o.mem, addr, k) {
            let c1 = with_wb(o.cpu@, wb);
            let v = loaded(o.mem, addr, k);
            regs_step(
                o,
                n,
                r,
                if k == 0 {
                    write_reg(c1, t as int, v)
                } else {
                    (CpuState { regs: c1.regs.update(t as int, v), ..c1 }, ExecResult::Continue)
                },
            )
        } else {
            regs_step(o, n, r, (o.cpu@, ExecResult::MemoryFault(MemoryError::Unmapped(addr))))
        },
    }
}

/// Byte at `a` after storing the low `size` bytes (1, 2 or 4) of `v` at
/// `addr` over `prev`.
pub open spec fn stored_byte(prev: u8, a: u32, addr: u32, size: int, v: u32) -> u8 {
    if size == 1 {
        if a == addr {
            v as u8
        } else {
            prev
        }
    } else if size == 2 {
        if a == addr {
            ((v as u16) & 0xFF) as u8
        } else if a == at(addr, 1) {
            ((v as u16) >> 8) as u8
        } else {
            prev
        }
    } else {
        word_byte_update(prev, a, addr, v)
    }
}

/// All `size` bytes at `a` are backed.
pub open spec fn store_ok<M: ArmMemory>(m: M, a: u32, size: int) -> bool {
    if size == 1 {
        m.mapped(a)
    } else if size == 2 {
        half_ok(m, a)
    } else {
        word_ok(m, a)
    }
}

/// Memory `n` is `o` with the low `size` bytes of `v` stored at `addr`.
pub open spec fn mem_stored<M: ArmMemory>(o: M, n: M, addr: u32, size: int, v: u32) -> bool {
    &&& forall|x: u32| #[trigger] n.mapped(x) == o.mapped(x)
    &&& forall|x: u32| #[trigger] n.byte(x) == stored_byte(o.byte(x), x, addr, size, v)
}

/// STR/STRB/STRH: on a backed access, Rt's low bytes are stored and the
/// writeback done; otherwise a memory fault with nothing changed.
pub open spec fn store_post<M: ArmMemory>(
    o: Executor<M>,
    n: Executor<M>,
    r: ExecResult,
    insn: DecodedInsn,
    size: int,
) -> bool {
    match single_operands(o.cpu@, insn, if size == 2 {
        2
    } else {
        0
    }) {
        None => regs_step(o, n, r, (o.cpu@, ExecResult::Undefined)),
        Some((t, addr, wb)) => if store_ok(o.mem, addr, size) {
            &&& n.cpu@ == with_wb(o.cpu@, wb)
            &&& r == ExecResult::Continue
            &&& mem_stored(o.mem, n.mem, addr, size, reg_read(o.cpu@, t as int))
            &&& n.exclusive_monitor == o.exclusive_monitor
            &&& n.vbar == o.vbar
        } else {
            regs_step(o, n, r, (o.cpu@, ExecResult::MemoryFault(MemoryError::Unmapped(addr))))
        },
    }
}

// ============================================================================
// Register lists
// ============================================================================

/// Bit `j` of a register list.
pub open spec fn in_list(list: u16, j: u16) -> bool {
    (list >> j) & 1 == 1
}

/// Number of registers of the list below register `i`.
pub open spec fn below(list: u16, i: nat) -> nat
    decreases i,
{
    if i == 0 {
        0
    } else {
        below(list, (i - 1) as nat) + if in_list(list, (i - 1) as u16) {
            1nat
        } else {
            0nat
        }
    }
}

proof fn lemma_below_bound(list: u16, i: nat)
    ensures
        below(list, i) <= i,
    decreases i,
{
    if i > 0 {
        lemma_below_bound(list, (i - 1) as nat);
    }
}

/// Address of the slot of register `i` in a transfer starting at `low`.
pub open spec fn slot(low: u32, list: u16, i: nat) -> u32 {
    low.wrapping_add((4 * below(list, i)) as u32)
}

/// Registers, branch target and faulting address after loading the listed
/// registers below `i` from consecutive words at `low` (the load of R15 is
/// the branch target; the first unbacked word stops the transfer).
pub open spec fn ldm_state<M: ArmMemory>(m: M, regs: Seq<u32>, list: u16, low: u32, i: nat) -> (
    Seq<u32>,
    Option<u32>,
    Option<u32>,
)
    decreases i,
{
    if i == 0 {
        (regs, None, None)
    } else {
        let (rs, bt, f) = ldm_state(m, regs, list, low, (i - 1) as nat);
        let j = (i - 1) as nat;
        if f is Some || !in_list(list, j as u16) {
            (rs, bt, f)
        } else {
            let a = slot(low, list, j);
            if word_ok(m, a) {
                if j == 15 {
                    (rs, Some(word_at(m, a)), None)
                } else {
                    (rs.update(j as int, word_at(m, a)), bt, None)
                }
            } else {
                (rs, bt, Some(a))
            }
        }
    }
}

/// Once a transfer has faulted, later registers change nothing.
proof fn lemma_ldm_fault_stable<M: ArmMemory>(
    m: M,
    regs: Seq<u32>,
    list: u16,
    low: u32,
    i: nat,
    j: nat,
)
    requires
        i <= j,
        ldm_state(m, regs, list, low, i).2 is Some,
    ensures
        ldm_state(m, regs, list, low, j) == ldm_state(m, regs, list, low, i),
    decreases j - i,
{
    if i < j {
        lemma_ldm_fault_stable(m, regs, list, low, i, (j - 1) as nat);
    }
}

/// First unbacked slot among the listed registers below `i` of a store
/// starting at `low`.
pub open spec fn stm_fault<M: ArmMemory>(m: M, list: u16, low: u32, i: nat) -> Option<u32>
    decreases i,
{
    if i == 0 {
        None
    } else {
        let f = stm_fault(m, list, low, (i - 1) as nat);
        let j = (i - 1) as nat;
        if f is Some || !in_list(list, j as u16) {
            f
        } else if word_ok(m, slot(low, list, j)) {
            None
        } else {
            Some(slot(low, list, j))
        }
    }
}

/// Byte at `a` after storing the listed registers below `i` (values read
/// from `cpu`) at consecutive words from `low`, up to the first fault.
pub open spec fn stm_byte<M: ArmMemory>(
    m: M,
    cpu: CpuState,
    list: u16,
    low: u32,
    i: nat,
    a: u32,
) -> u8
    decreases i,
{
    if i == 0 {
        m.byte(a)
    } else {
        let prev = stm_byte(m, cpu, list, low, (i - 1) as nat, a);
        let j = (i - 1) as nat;
        if stm_fault(m, list, low, j) is Some || !in_list(list, j as u16) || !word_ok(
            m,
            slot(low, list, j),
        ) {
            prev
        } else {
            word_byte_update(prev, a, slot(low, list, j), reg_read(cpu, j as int))
        }
    }
}

proof fn lemma_stm_fault_stable<M: ArmMemory>(
    m: M,
    cpu: CpuState,
    list: u16,
    low: u32,
    i: nat,
    j: nat,
)
    requires
        i <= j,
        stm_fault(m, list, low, i) is Some,
    ensures
        stm_fault(m, list, low, j) == stm_fault(m, list, low, i),
        forall|a: u32| stm_byte(m, cpu, list, low, j, a) == stm_byte(m, cpu, list, low, i, a),
    decreases j - i,
{
    if i < j {
        lemma_stm_fault_stable(m, cpu, list, low, i, (j - 1) as nat);
    }
}

/// Memory `n` is `o` after the stores of a store-multiple.
pub open spec fn mem_stm<M: ArmMemory>(o: M, n: M, cpu: CpuState, list: u16, low: u32) -> bool {
    &&& forall|x: u32| #[trigger] n.mapped(x) == o.mapped(x)
    &&& forall|x: u32| #[trigger] n.byte(x) == stm_byte(o, cpu, list, low, 16, x)
}

/// Lowest address of an LDM/STM of `count` registers from base `base`
/// (`p`: before, `u`: increment).
pub open spec fn ldstm_low(base: u32, count: u32, p: bool, u: bool) -> u32 {
    if u {
        if p {
            base.wrapping_add(4)
        } else {
            base
        }
    } else if p {
        base.wrapping_sub((count * 4) as u32)
    } else {
        base.wrapping_sub((count * 4) as u32).wrapping_add(4)
    }
}

/// Base writeback value of an LDM/STM.
pub open spec fn ldstm_wb(base: u32, count: u32, u: bool) -> u32 {
    if u {
        base.wrapping_add((count * 4) as u32)
    } else {
        base.wrapping_sub((count * 4) as u32)
    }
}

/// LDM (all addressing modes): the listed registers loaded from
/// consecutive words, lowest register at the lowest address; the base
/// written back unless it is loaded; a loaded R15 is a branch. On an
/// unbacked word: a memory fault, the registers loaded before it kept.
pub open spec fn ldm_post<M: ArmMemory>(
    o: Executor<M>,
    n: Executor<M>,
    r: ExecResult,
    insn: DecodedInsn,
    p: bool,
    u: bool,
) -> bool {
    match ldstm_operands(insn) {
        None => regs_step(o, n, r, (o.cpu@, ExecResult::Undefined)),
        Some((b, list, wback)) => {
            let base = reg_read(o.cpu@, b as int);
            let count = below(list, 16) as u32;
            let low = ldstm_low(base, count, p, u);
            let (rs, bt, f) = ldm_state(o.mem, o.cpu@.regs, list, low, 16);
            let c1 = CpuState { regs: rs, ..o.cpu@ };
            match f {
                Some(a) => regs_step(
                    o,
                    n,
                    r,
                    (c1, ExecResult::MemoryFault(MemoryError::Unmapped(a))),
                ),
                None => {
                    let c2 = if wback && !in_list(list, b as u16) {
                        CpuState { regs: rs.update(b as int, ldstm_wb(base, count, u)), ..c1 }
                    } else {
                        c1
                    };
                    regs_step(
                        o,
                        n,
                        r,
                        (
                            c2,
                            match bt {
                                Some(t) => ExecResult::Branch(t),
                                None => ExecResult::Continue,
                            },
                        ),
                    )
                },
            }
        },
    }
}

/// STM (all addressing modes): the listed registers (R15 as read) stored to
/// consecutive words, lowest register at the lowest address, then the base
/// written back. On an unbacked word: a memory fault, the words stored
/// before it kept.
pub open spec fn stm_post<M: ArmMemory>(
    o: Executor<M>,
    n: Executor<M>,
    r: ExecResult,
    insn: DecodedInsn,
    p: bool,
    u: bool,
) -> bool {
    match ldstm_operands(insn) {
        None => regs_step(o, n, r, (o.cpu@, ExecResult::Undefined)),
        Some((b, list, wback)) => {
            let base = reg_read(o.cpu@, b as int);
            let count = below(list, 16) as u32;
            let low = ldstm_low(base, count, p, u);
            &&& mem_stm(o.mem, n.mem, o.cpu@, list, low)
            &&& n.exclusive_monitor == o.exclusive_monitor
            &&& n.vbar == o.vbar
            &&& match stm_fault(o.mem, list, low, 16) {
                Some(a) => n.cpu@ == o.cpu@ && r == ExecResult::MemoryFault(
                    MemoryError::Unmapped(a),
                ),
                None => r == ExecResult::Continue && n.cpu@ == if wback {
                    CpuState {
                        regs: o.cpu@.regs.update(b as int, ldstm_wb(base, count, u)),
                        ..o.cpu@
                    }
                } else {
                    o.cpu@
                },
            }
        },
    }
}

/// LDRD: two words at the address into Rt and Rt+1, then the writeback; a
/// memory fault at the first unbacked word with nothing changed.
pub open spec fn ldrd_post<M: ArmMemory>(
    o: Executor<M>,
    n: Executor<M>,
    r: ExecResult,
    insn: DecodedInsn,
) -> bool {
    match ldst_half_operands(o.cpu@, insn) {
        None => regs_step(o, n, r, (o.cpu@, ExecResult::Undefined)),
        Some((t, addr, wb)) => if !word_ok(o.mem, addr) {
            regs_step(o, n, r, (o.cpu@, ExecResult::MemoryFault(MemoryError::Unmapped(addr))))
        } else if !word_ok(o.mem, addr.wrapping_add(4)) {
            regs_step(
                o,
                n,
                r,
                (o.cpu@, ExecResult::MemoryFault(MemoryError::Unmapped(addr.wrapping_add(4)))),
            )
        } else {
            let t2 = next_reg(t);
            let c1 = CpuState {
                regs: o.cpu@.regs.update(t as int, word_at(o.mem, addr)).update(
                    t2 as int,
                    word_at(o.mem, addr.wrapping_add(4)),
                ),
                ..o.cpu@
            };
            regs_step(o, n, r, (with_wb(c1, wb), ExecResult::Continue))
        },
    }
}

/// The register after `t` (R15 wraps to R0).
pub open spec fn next_reg(t: usize) -> usize {
    if t == 15 {
        0
    } else {
        (t + 1) as usize
    }
}

/// STRD: Rt and Rt+1 stored as two words, then the writeback; a memory
/// fault at the first unbacked word, the first word kept if it was stored.
pub open spec fn strd_post<M: ArmMemory>(
    o: Executor<M>,
    n: Executor<M>,
    r: ExecResult,
    insn: DecodedInsn,
) -> bool {
    match ldst_half_operands(o.cpu@, insn) {
        None => regs_step(o, n, r, (o.cpu@, ExecResult::Undefined)),
        Some((t, addr, wb)) => {
            let v1 = reg_read(o.cpu@, t as int);
            let v2 = reg_read(o.cpu@, next_reg(t) as int);
            let a2 = addr.wrapping_add(4);
            &&& n.exclusive_monitor == o.exclusive_monitor
            &&& n.vbar == o.vbar
            &&& if !word_ok(o.mem, addr) {
                n.cpu@ == o.cpu@ && r == ExecResult::MemoryFault(MemoryError::Unmapped(addr))
                    && mem_same(o.mem, n.mem)
            } else if !word_ok(o.mem, a2) {
                n.cpu@ == o.cpu@ && r == ExecResult::MemoryFault(MemoryError::Unmapped(a2))
                    && mem_stored(o.mem, n.mem, addr, 4, v1)
            } else {
                &&& n.cpu@ == with_wb(o.cpu@, wb)
                &&& r == ExecResult::Continue
                &&& forall|x: u32| #[trigger] n.mem.mapped(x) == o.mem.mapped(x)
                &&& forall|x: u32| #[trigger]
                    n.mem.byte(x) == word_byte_update(
                        word_byte_update(o.mem.byte(x), x, addr, v1),
                        x,
                        a2,
                        v2,
                    )
            }
        },
    }
}

/// LDREX/LDREXB/LDREXH (`size` 4, 1, 2): the address marked exclusive, then
/// the zero-extended value loaded into Rt (a plain register write).
pub open spec fn ldrex_post<M: ArmMemory>(
    o: Executor<M>,
    n: Executor<M>,
    r: ExecResult,
    insn: DecodedInsn,
    size: u8,
) -> bool {
    let t = field(insn.raw, 12);
    let addr = reg_read(o.cpu@, field(insn.raw, 16) as int);
    let k = if size == 4 {
        0
    } else if size == 1 {
        1
    } else {
        2
    };
    &&& n.exclusive_monitor == (ExclusiveMonitor { address: Some(addr), size })
    &&& n.vbar == o.vbar
    &&& mem_same(o.mem, n.mem)
    &&& if load_ok(o.mem, addr, k) {
        n.cpu@ == CpuState { regs: o.cpu@.regs.update(t as int, loaded(o.mem, addr, k)), ..o.cpu@ }
            && r == ExecResult::Continue
    } else {
        n.cpu@ == o.cpu@ && r == ExecResult::MemoryFault(MemoryError::Unmapped(addr))
    }
}

/// STREX/STREXB/STREXH (`size` 4, 1, 2): the monitor is cleared; if it
/// held this address and size, Rt's low bytes are stored and Rd = 0, else
/// Rd = 1 and memory is unchanged.
pub open spec fn strex_post<M: ArmMemory>(
    o: Executor<M>,
    n: Executor<M>,
    r: ExecResult,
    insn: DecodedInsn,
    size: u8,
) -> bool {
    let d = field(insn.raw, 12);
    let t = (insn.raw & 0xF) as usize;
    let addr = reg_read(o.cpu@, field(insn.raw, 16) as int);
    let held = o.exclusive_monitor.address == Some(addr) && o.exclusive_monitor.size == size;
    &&& n.exclusive_monitor == (ExclusiveMonitor { address: None, ..o.exclusive_monitor })
    &&& n.vbar == o.vbar
    &&& if !held {
        mem_same(o.mem, n.mem) && r == ExecResult::Continue && n.cpu@ == CpuState {
            regs: o.cpu@.regs.update(d as int, 1),
            ..o.cpu@
        }
    } else if store_ok(o.mem, addr, size as int) {
        mem_stored(o.mem, n.mem, addr, size as int, reg_read(o.cpu@, t as int)) && r
            == ExecResult::Continue && n.cpu@ == CpuState {
            regs: o.cpu@.regs.update(d as int, 0),
            ..o.cpu@
        }
    } else {
        mem_same(o.mem, n.mem) && r == ExecResult::MemoryFault(MemoryError::Unmapped(addr))
            && n.cpu@ == o.cpu@
    }
}

/// TBB/TBH: a branch to PC + 4 + twice the byte (halfword) entry of the
/// table at Rn indexed by Rm.
pub open spec fn table_branch<M: ArmMemory>(cpu: CpuState, m: M, insn: DecodedInsn, half: bool) -> (
    CpuState,
    ExecResult,
) {
    let base = reg_read(cpu, field(insn.raw, 16) as int);
    let index = reg_read(cpu, (insn.raw & 0xF) as int);
    let address = if half {
        base.wrapping_add(index << 1)
    } else {
        base.wrapping_add(index)
    };
    let ok = if half {
        half_ok(m, address)
    } else {
        m.mapped(address)
    };
    let entry = if half {
        half_at(m, address) as u32
    } else {
        m.byte(address) as u32
    };
    if ok {
        (cpu, ExecResult::Branch(cpu.regs[15].wrapping_add(4).wrapping_add((entry * 2) as u32)))
    } else {
        (cpu, ExecResult::MemoryFault(MemoryError::Unmapped(address)))
    }
}

/// PUSH: the listed registers stored below SP, lowest register lowest,
/// then SP lowered; a memory fault keeps SP.
pub open spec fn push_post<M: ArmMemory>(
    o: Executor<M>,
    n: Executor<M>,
    r: ExecResult,
    insn: DecodedInsn,
) -> bool {
    let list = (insn.raw & 0xFFFF) as u16;
    let low = o.cpu@.regs[13].wrapping_sub((4 * below(list, 16)) as u32);
    &&& mem_stm(o.mem, n.mem, o.cpu@, list, low)
    &&& n.exclusive_monitor == o.exclusive_monitor
    &&& n.vbar == o.vbar
    &&& match stm_fault(o.mem, list, low, 16) {
        Some(a) => n.cpu@ == o.cpu@ && r == ExecResult::MemoryFault(MemoryError::Unmapped(a)),
        None => r == ExecResult::Continue && n.cpu@ == CpuState {
            regs: o.cpu@.regs.update(13, low),
            ..o.cpu@
        },
    }
}

/// POP: the listed registers loaded from SP upwards, then SP raised past
/// them; a loaded R15 is a branch. On a fault the registers loaded before
/// it are kept and SP is not changed.
pub open spec fn pop_post<M: ArmMemory>(
    o: Executor<M>,
    n: Executor<M>,
    r: ExecResult,
    insn: DecodedInsn,
) -> bool {
    let list = (insn.raw & 0xFFFF) as u16;
    let low = o.cpu@.regs[13];
    let (rs, bt, f) = ldm_state(o.mem, o.cpu@.regs, list, low, 16);
    match f {
        Some(a) => regs_step(
            o,
            n,
            r,
            (CpuState { regs: rs, ..o.cpu@ }, ExecResult::MemoryFault(MemoryError::Unmapped(a))),
        ),
        None => regs_step(
            o,
            n,
            r,
            (
                CpuState { regs: rs.update(13, slot(low, list, 16)), ..o.cpu@ },
                match bt {
                    Some(t) => ExecResult::Branch(t),
                    None => ExecResult::Continue,
                },
            ),
        ),
    }
}

// ============================================================================
// Handlers
// ============================================================================

impl<M: ArmMemory> Executor<M> {
    /// Single load of kind `k` (see `load_ok`).
    fn exec_load(&mut self, insn: &DecodedInsn, k: u8) -> (r: ExecResult)
        requires
            insn_ok(*insn),
            k < 5,
        ensures
            load_post(*old(self), *final(self), r, *insn, k as int),
    {
        let ops = if k <= 1 {
            self.decode_ldst_operands(insn)
        } else {
            self.decode_ldst_halfword_operands(insn)
        };
        let (t, address, writeback) = match ops {
            Some(v) => v,
            None => return ExecResult::Undefined,
        };
        let data = if k == 0 {
            self.mem.read_word(address)
        } else if k == 1 || k == 3 {
            match self.mem.read_byte(address) {
                Ok(b) => Ok(
                    if k == 1 {
                        b as u32
                    } else {
                        sign_extend(b as u32, 8)
                    },
                ),
                Err(e) => Err(e),
            }
        } else {
            match self.mem.read_halfword(address) {
                Ok(h) => Ok(
                    if k == 2 {
                        h as u32
                    } else {
                        sign_extend(h as u32, 16)
                    },
                ),
                Err(e) => Err(e),
            }
        };
        match data {
            Ok(data) => {
                if let Some((n, addr)) = writeback {
                    self.cpu.regs[n] = addr;
                }
                if k == 0 {
                    self.set_reg(t, data)
                } else {
                    self.cpu.regs[t] = data;
                    ExecResult::Continue
                }
            },
            Err(e) => ExecResult::MemoryFault(e),
        }
    }

    pub(crate) fn exec_ldr(&mut self, insn: &DecodedInsn) -> (r: ExecResult)
        requires
            insn_ok(*insn),
        ensures
            load_post(*old(self), *final(self), r, *insn, 0),
    {
        self.exec_load(insn, 0)
    }

    pub(crate) fn exec_ldrb(&mut self, insn: &DecodedInsn) -> (r: ExecResult)
        requires
            insn_ok(*insn),
        ensures
            load_post(*old(self), *final(self), r, *insn, 1),
    {
        self.exec_load(insn, 1)
    }

    pub(crate) fn exec_ldrh(&mut self, insn: &DecodedInsn) -> (r: ExecResult)
        requires
            insn_ok(*insn),
        ensures
            load_post(*old(self), *final(self), r, *insn, 2),
    {
        self.exec_load(insn, 2)
    }

    pub(crate) fn exec_ldrsb(&mut self, insn: &DecodedInsn) -> (r: ExecResult)
        requires
            insn_ok(*insn),
        ensures
            load_post(*old(self), *final(self), r, *insn, 3),
    {
        self.exec_load(insn, 3)
    }

    pub(crate) fn exec_ldrsh(&mut self, insn: &DecodedInsn) -> (r: ExecResult)
        requires
            insn_ok(*insn),
        ensures
            load_post(*old(self), *final(self), r, *insn, 4),
    {
        self.exec_load(insn, 4)
    }

    /// Single store of `size` bytes (1, 2 or 4).
    fn exec_store(&mut self, insn: &DecodedInsn, size: u8) -> (r: ExecResult)
        requires
            insn_ok(*insn),
            size == 1 || size == 2 || size == 4,
        ensures
            store_post(*old(self), *final(self), r, *insn, size as int),
    {
        let ops = if size == 2 {
            self.decode_ldst_halfword_operands(insn)
        } else {
            self.decode_ldst_operands(insn)
        };
        let (t, address, writeback) = match ops {
            Some(v) => v,
            None => return ExecResult::Undefined,
        };
        let value = self.reg(t);
        let res = if size == 1 {
            self.mem.write_byte(address, value as u8)
        } else if size == 2 {
            self.mem.write_halfword(address, value as u16)
        } else {
            self.mem.write_word(address, value)
        };
        match res {
            Ok(()) => {
                if let Some((n, addr)) = writeback {
                    self.cpu.regs[n] = addr;
                }
                ExecResult::Continue
            },
            Err(e) => ExecResult::MemoryFault(e),
        }
    }

    pub(crate) fn exec_str(&mut self, insn: &DecodedInsn) -> (r: ExecResult)
        requires
            insn_ok(*insn),
        ensures
            store_post(*old(self), *final(self), r, *insn, 4),
    {
        self.exec_store(insn, 4)
    }

    pub(crate) fn exec_strb(&mut self, insn: &DecodedInsn) -> (r: ExecResult)
        requires
            insn_ok(*insn),
        ensures
            store_post(*old(self), *final(self), r, *insn, 1),
    {
        self.exec_store(insn, 1)
    }

    pub(crate) fn exec_strh(&mut self, insn: &DecodedInsn) -> (r: ExecResult)
        requires
            insn_ok(*insn),
        ensures
            store_post(*old(self), *final(self), r, *insn, 2),
    {
        self.exec_store(insn, 2)
    }

    // =========================================================================
    // Load/Store Double
    // =========================================================================

    pub(crate) fn exec_ldrd(&mut self, insn: &DecodedInsn) -> (r: ExecResult)
        requires
            insn_ok(*insn),
        ensures
            ldrd_post(*old(self), *final(self), r, *insn),
    {
        let (t, address, writeback) = match self.decode_ldst_halfword_operands(insn) {
            Some(v) => v,
            None => return ExecResult::Undefined,
        };
        let t2 = if t == 15 {
            0
        } else {
            t + 1
        };

        match self.mem.read_word(address) {
            Ok(data1) => match self.mem.read_word(address.wrapping_add(4)) {
                Ok(data2) => {
                    self.cpu.regs[t] = data1;
                    self.cpu.regs[t2] = data2;
                    if let Some((n, addr)) = writeback {
                        self.cpu.regs[n] = addr;
                    }
                    ExecResult::Continue
                },
                Err(e) => ExecResult::MemoryFault(e),
            },
            Err(e) => ExecResult::MemoryFault(e),
        }
    }

    pub(crate) fn exec_strd(&mut self, insn: &DecodedInsn) -> (r: ExecResult)
        requires
            insn_ok(*insn),
        ensures
            strd_post(*old(self), *final(self), r, *insn),
    {
        let (t, address, writeback) = match self.decode_ldst_halfword_operands(insn) {
            Some(v) => v,
            None => return ExecResult::Undefined,
        };
        let t2 = if t == 15 {
            0
        } else {
            t + 1
        };
        let v1 = self.reg(t);
        let v2 = self.reg(t2);

        match self.mem.write_word(address, v1) {
            Ok(()) => match self.mem.write_word(address.wrapping_add(4), v2) {
                Ok(()) => {
                    if let Some((n, addr)) = writeback {
                        self.cpu.regs[n] = addr;
                    }
                    ExecResult::Continue
                },
                Err(e) => ExecResult::MemoryFault(e),
            },
            Err(e) => ExecResult::MemoryFault(e),
        }
    }

    // =========================================================================
    // Load/Store Exclusive
    // =========================================================================

    /// LDREX of `size` bytes (4, 1 or 2).
    fn exec_load_exclusive(&mut self, insn: &DecodedInsn, size: u8) -> (r: ExecResult)
        requires
            size == 4 || size == 1 || size == 2,
        ensures
            ldrex_post(*old(self), *final(self), r, *insn, size),
    {
        proof {
            lemma_mask_bounds();
        }
        let t = ((insn.raw >> 12) & 0xF) as usize;
        let n = ((insn.raw >> 16) & 0xF) as usize;
        let address = self.reg(n);

        self.exclusive_monitor.mark_exclusive(address, size);

        let data = if size == 4 {
            self.mem.read_word(address)
        } else if size == 1 {
            match self.mem.read_byte(address) {
                Ok(b) => Ok(b as u32),
                Err(e) => Err(e),
            }
        } else {
            match self.mem.read_halfword(address) {
                Ok(h) => Ok(h as u32),
                Err(e) => Err(e),
            }
        };
        match data {
            Ok(data) => {
                self.cpu.regs[t] = data;
                ExecResult::Continue
            },
            Err(e) => ExecResult::MemoryFault(e),
        }
    }

    /// STREX of `size` bytes (4, 1 or 2).
    fn exec_store_exclusive(&mut self, insn: &DecodedInsn, size: u8) -> (r: ExecResult)
        requires
            size == 4 || size == 1 || size == 2,
        ensures
            strex_post(*old(self), *final(self), r, *insn, size),
    {
        proof {
            lemma_mask_bounds();
        }
        let d = ((insn.raw >> 12) & 0xF) as usize;
        let t = (insn.raw & 0xF) as usize;
        let n = ((insn.raw >> 16) & 0xF) as usize;
        let address = self.reg(n);

        if self.exclusive_monitor.check_and_clear(address, size) {
            let value = self.reg(t);
            let res = if size == 4 {
                self.mem.write_word(address, value)
            } else if size == 1 {
                self.mem.write_byte(address, value as u8)
            } else {
                self.mem.write_halfword(address, value as u16)
            };
            match res {
                Ok(()) => {
                    self.cpu.regs[d] = 0;  // Success
                    ExecResult::Continue
                },
                Err(e) => ExecResult::MemoryFault(e),
            }
        } else {
            self.cpu.regs[d] = 1;  // Failure
            ExecResult::Continue
        }
    }

    pub(crate) fn exec_ldrex(&mut self, insn: &DecodedInsn) -> (r: ExecResult)
        ensures
            ldrex_post(*old(self), *final(self), r, *insn, 4),
    {
        self.exec_load_exclusive(insn, 4)
    }

    pub(crate) fn exec_strex(&mut self, insn: &DecodedInsn) -> (r: ExecResult)
        ensures
            strex_post(*old(self), *final(self), r, *insn, 4),
    {
        self.exec_store_exclusive(insn, 4)
    }

    pub(crate) fn exec_ldrexb(&mut self, insn: &DecodedInsn) -> (r: ExecResult)
        ensures
            ldrex_post(*old(self), *final(self), r, *insn, 1),
    {
        self.exec_load_exclusive(insn, 1)
    }

    pub(crate) fn exec_strexb(&mut self, insn: &DecodedInsn) -> (r: ExecResult)
        ensures
            strex_post(*old(self), *final(self), r, *insn, 1),
    {
        self.exec_store_exclusive(insn, 1)
    }

    pub(crate) fn exec_ldrexh(&mut self, insn: &DecodedInsn) -> (r: ExecResult)
        ensures
            ldrex_post(*old(self), *final(self), r, *insn, 2),
    {
        self.exec_load_exclusive(insn, 2)
    }

    pub(crate) fn exec_strexh(&mut self, insn: &DecodedInsn) -> (r: ExecResult)
        ensures
            strex_post(*old(self), *final(self), r, *insn, 2),
    {
        self.exec_store_exclusive(insn, 2)
    }

    pub(crate) fn exec_clrex(&mut self, _insn: &DecodedInsn) -> (r: ExecResult)
        ensures
            final(self).cpu == old(self).cpu,
            final(self).mem == old(self).mem,
            final(self).vbar == old(self).vbar,
            final(self).exclusive_monitor == (ExclusiveMonitor {
                address: None,
                ..old(self).exclusive_monitor
            }),
            r == ExecResult::Continue,
    {
        self.exclusive_monitor.clear();
        ExecResult::Continue
    }

    // =========================================================================
    // Table branches
    // =========================================================================

    /// Table Branch Byte (TBB) - Thumb-2.
    ///
    /// TBB [Rn, Rm]
    ///
    /// Reads a byte from memory[Rn + Rm] and branches forward by 2*byte.
    pub(crate) fn exec_tbb(&mut self, insn: &DecodedInsn) -> (r: ExecResult)
        ensures
            regs_step(
                *old(self),
                *final(self),
                r,
                table_branch(old(self).cpu@, old(self).mem, *insn, false),
            ),
    {
        proof {
            lemma_mask_bounds();
        }
        // TBB encoding: 11101000 1101nnnn 1111 0000 0000mmmm
        let n = ((insn.raw >> 16) & 0xF) as usize;
        let m = (insn.raw & 0xF) as usize;

        let base = self.reg(n);
        let index = self.reg(m);
        let address = base.wrapping_add(index);

        match self.mem.read_byte(address) {
            Ok(offset) => {
                // Branch forward by 2 * offset from PC
                let pc = self.cpu.regs[15];
                let target = pc.wrapping_add(4).wrapping_add((offset as u32) * 2);
                ExecResult::Branch(target)
            },
            Err(e) => ExecResult::MemoryFault(e),
        }
    }

    /// Table Branch Halfword (TBH) - Thumb-2.
    ///
    /// TBH [Rn, Rm, LSL #1]
    ///
    /// Reads a halfword from memory[Rn + Rm*2] and branches forward by 2*halfword.
    pub(crate) fn exec_tbh(&mut self, insn: &DecodedInsn) -> (r: ExecResult)
        ensures
            regs_step(
                *old(self),
                *final(self),
                r,
                table_branch(old(self).cpu@, old(self).mem, *insn, true),
            ),
    {
        proof {
            lemma_mask_bounds();
        }
        // TBH encoding: 11101000 1101nnnn 1111 0000 0001mmmm
        let n = ((insn.raw >> 16) & 0xF) as usize;
        let m = (insn.raw & 0xF) as usize;

        let base = self.reg(n);
        let index = self.reg(m);
        let address = base.wrapping_add(index << 1);

        match self.mem.read_halfword(address) {
            Ok(offset) => {
                // Branch forward by 2 * offset from PC
                let pc = self.cpu.regs[15];
                let target = pc.wrapping_add(4).wrapping_add((offset as u32) * 2);
                ExecResult::Branch(target)
            },
            Err(e) => ExecResult::MemoryFault(e),
        }
    }

    // =========================================================================
    // Load/Store Multiple
    // =========================================================================

    /// Number of registers in a list.
    fn count_regs(list: u16) -> (r: u32)
        ensures
            r == below(list, 16),
            r <= 16,
    {
        let mut count: u32 = 0;
        let mut i: u16 = 0;
        while i < 16
            invariant
                i <= 16,
                count == below(list, i as nat),
                count <= i,
            decreases 16 - i,
        {
            if (list >> i) & 1 == 1 {
                count += 1;
            }
            i += 1;
        }
        count
    }

    /// Load the listed registers from consecutive words at `low`; a loaded
    /// R15 is returned as the branch target.
    fn load_regs(&mut self, list: u16, low: u32) -> (r: Result<Option<u32>, MemoryError>)
        ensures
            ({
                let (rs, bt, f) = ldm_state(old(self).mem, old(self).cpu@.regs, list, low, 16);
                &&& final(self).cpu@ == (CpuState { regs: rs, ..old(self).cpu@ })
                &&& match f {
                    Some(a) => r == Err::<Option<u32>, MemoryError>(MemoryError::Unmapped(a)),
                    None => r == Ok::<Option<u32>, MemoryError>(bt),
                }
            }),
            final(self).mem == old(self).mem,
            final(self).exclusive_monitor == old(self).exclusive_monitor,
            final(self).vbar == old(self).vbar,
    {
        let mut addr = low;
        let mut branch_target: Option<u32> = None;
        let mut i: u16 = 0;
        while i < 16
            invariant
                i <= 16,
                self.mem == old(self).mem,
                self.exclusive_monitor == old(self).exclusive_monitor,
                self.vbar == old(self).vbar,
                ldm_state(old(self).mem, old(self).cpu@.regs, list, low, i as nat) == (
                    self.cpu@.regs,
                    branch_target,
                    None::<u32>,
                ),
                self.cpu@ == (CpuState { regs: self.cpu@.regs, ..old(self).cpu@ }),
                addr == slot(low, list, i as nat),
            decreases 16 - i,
        {
            proof {
                lemma_below_bound(list, i as nat);
            }
            if (list >> i) & 1 == 1 {
                match self.mem.read_word(addr) {
                    Ok(d) => {
                        if i == 15 {
                            branch_target = Some(d);
                        } else {
                            self.cpu.regs[i as usize] = d;
                        }
                    },
                    Err(e) => {
                        proof {
                            lemma_ldm_fault_stable(
                                old(self).mem,
                                old(self).cpu@.regs,
                                list,
                                low,
                                (i + 1) as nat,
                                16,
                            );
                        }
                        return Err(e);
                    },
                }
                addr = addr.wrapping_add(4);
            }
            i += 1;
        }
        Ok(branch_target)
    }

    /// Store the listed registers (R15 as read) to consecutive words at
    /// `low`.
    fn store_regs(&mut self, list: u16, low: u32) -> (r: Result<(), MemoryError>)
        ensures
            mem_stm(old(self).mem, final(self).mem, old(self).cpu@, list, low),
            match stm_fault(old(self).mem, list, low, 16) {
                Some(a) => r == Err::<(), MemoryError>(MemoryError::Unmapped(a)),
                None => r == Ok::<(), MemoryError>(()),
            },
            final(self).cpu == old(self).cpu,
            final(self).exclusive_monitor == old(self).exclusive_monitor,
            final(self).vbar == old(self).vbar,
    {
        let mut addr = low;
        let mut i: u16 = 0;
        while i < 16
            invariant
                i <= 16,
                self.cpu == old(self).cpu,
                self.exclusive_monitor == old(self).exclusive_monitor,
                self.vbar == old(self).vbar,
                forall|x: u32| #[trigger] self.mem.mapped(x) == old(self).mem.mapped(x),
                forall|x: u32| #[trigger]
                    self.mem.byte(x) == stm_byte(
                        old(self).mem,
                        old(self).cpu@,
                        list,
                        low,
                        i as nat,
                        x,
                    ),
                stm_fault(old(self).mem, list, low, i as nat) is None,
                addr == slot(low, list, i as nat),
            decreases 16 - i,
        {
            proof {
                lemma_below_bound(list, i as nat);
            }
            if (list >> i) & 1 == 1 {
                let val = if i == 15 {
                    self.cpu.get_pc()
                } else {
                    self.reg(i as usize)
                };
                let ghost m1 = self.mem;
                match self.mem.write_word(addr, val) {
                    Ok(()) => {
                        assert forall|x: u32| #[trigger]
                            self.mem.byte(x) == stm_byte(
                                old(self).mem,
                                old(self).cpu@,
                                list,
                                low,
                                (i + 1) as nat,
                                x,
                            ) by {
                            assert(m1.byte(x) == stm_byte(
                                old(self).mem,
                                old(self).cpu@,
                                list,
                                low,
                                i as nat,
                                x,
                            ));
                        }
                    },
                    Err(e) => {
                        proof {
                            lemma_stm_fault_stable(
                                old(self).mem,
                                old(self).cpu@,
                                list,
                                low,
                                (i + 1) as nat,
                                16,
                            );
                            assert forall|x: u32| #[trigger]
                                self.mem.byte(x) == stm_byte(
                                    old(self).mem,
                                    old(self).cpu@,
                                    list,
                                    low,
                                    16,
                                    x,
                                ) by {
                                assert(m1.byte(x) == stm_byte(
                                    old(self).mem,
                                    old(self).cpu@,
                                    list,
                                    low,
                                    i as nat,
                                    x,
                                ));
                            }
                        }
                        return Err(e);
                    },
                }
                addr = addr.wrapping_add(4);
            }
            i += 1;
        }
        Ok(())
    }

    /// Unified LDM/STM for all four addressing modes (IA/IB/DA/DB), A32 and T32.
    /// The lowest-numbered register always maps to the lowest address.
    pub(crate) fn exec_ldm_stm(&mut self, insn: &DecodedInsn, is_load: bool, p: bool, u: bool) -> (r:
        ExecResult)
        requires
            insn_ok(*insn),
        ensures
            is_load ==> ldm_post(*old(self), *final(self), r, *insn, p, u),
            !is_load ==> stm_post(*old(self), *final(self), r, *insn, p, u),
    {
        let (n, reglist, wback) = match self.decode_ldstm_operands(insn) {
            Some(v) => v,
            None => return ExecResult::Undefined,
        };
        let count = Self::count_regs(reglist);
        let base = self.reg(n);
        let (low, wb_val) = Self::ldstm_addresses(base, count, p, u);
        if is_load {
            self.load_multiple(n, reglist, wback, low, wb_val)
        } else {
            self.store_multiple(n, reglist, wback, low, wb_val)
        }
    }

    /// Lowest address and writeback value of an LDM/STM.
    fn ldstm_addresses(base: u32, count: u32, p: bool, u: bool) -> (r: (u32, u32))
        requires
            count <= 16,
        ensures
            r == (ldstm_low(base, count, p, u), ldstm_wb(base, count, u)),
    {
        let low = if u {
            if p {
                base.wrapping_add(4)
            } else {
                base
            }
        } else if p {
            base.wrapping_sub(count * 4)
        } else {
            base.wrapping_sub(count * 4).wrapping_add(4)
        };
        let wb_val = if u {
            base.wrapping_add(count * 4)
        } else {
            base.wrapping_sub(count * 4)
        };
        (low, wb_val)
    }

    /// LDM body: load, then write back unless the base was loaded.
    fn load_multiple(&mut self, n: usize, reglist: u16, wback: bool, low: u32, wb_val: u32) -> (r:
        ExecResult)
        requires
            n < 16,
        ensures
            ({
                let (rs, bt, f) = ldm_state(old(self).mem, old(self).cpu@.regs, reglist, low, 16);
                let c1 = CpuState { regs: rs, ..old(self).cpu@ };
                match f {
                    Some(a) => regs_step(
                        *old(self),
                        *final(self),
                        r,
                        (c1, ExecResult::MemoryFault(MemoryError::Unmapped(a))),
                    ),
                    None => regs_step(
                        *old(self),
                        *final(self),
                        r,
                        (
                            if wback && !in_list(reglist, n as u16) {
                                CpuState { regs: rs.update(n as int, wb_val), ..c1 }
                            } else {
                                c1
                            },
                            match bt {
                                Some(t) => ExecResult::Branch(t),
                                None => ExecResult::Continue,
                            },
                        ),
                    ),
                }
            }),
    {
        let branch_target = match self.load_regs(reglist, low) {
            Ok(t) => t,
            Err(e) => return ExecResult::MemoryFault(e),
        };
        // Writeback (suppressed for LDM when the base is in the loaded list).
        if wback && !((reglist >> (n as u16)) & 1 == 1) {
            self.cpu.regs[n] = wb_val;
        }
        match branch_target {
            Some(target) => ExecResult::Branch(target),
            None => ExecResult::Continue,
        }
    }

    /// STM body: store, then write back.
    fn store_multiple(&mut self, n: usize, reglist: u16, wback: bool, low: u32, wb_val: u32) -> (r:
        ExecResult)
        requires
            n < 16,
        ensures
            mem_stm(old(self).mem, final(self).mem, old(self).cpu@, reglist, low),
            final(self).exclusive_monitor == old(self).exclusive_monitor,
            final(self).vbar == old(self).vbar,
            match stm_fault(old(self).mem, reglist, low, 16) {
                Some(a) => final(self).cpu@ == old(self).cpu@ && r == ExecResult::MemoryFault(
                    MemoryError::Unmapped(a),
                ),
                None => r == ExecResult::Continue && final(self).cpu@ == if wback {
                    CpuState { regs: old(self).cpu@.regs.update(n as int, wb_val), ..old(self).cpu@ }
                } else {
                    old(self).cpu@
                },
            },
    {
        match self.store_regs(reglist, low) {
            Ok(()) => {},
            Err(e) => return ExecResult::MemoryFault(e),
        }
        if wback {
            self.cpu.regs[n] = wb_val;
        }
        ExecResult::Continue
    }

    pub(crate) fn exec_push(&mut self, insn: &DecodedInsn) -> (r: ExecResult)
        ensures
            push_post(*old(self), *final(self), r, *insn),
    {
        let reglist = match self.decode_reglist(insn) {
            Some(v) => v,
            None => return ExecResult::Undefined,
        };

        let count = Self::count_regs(reglist);
        let start_address = self.cpu.regs[13].wrapping_sub(count * 4);

        match self.store_regs(reglist, start_address) {
            Ok(()) => {},
            Err(e) => return ExecResult::MemoryFault(e),
        }

        self.cpu.regs[13] = start_address;
        ExecResult::Continue
    }

    pub(crate) fn exec_pop(&mut self, insn: &DecodedInsn) -> (r: ExecResult)
        ensures
            pop_post(*old(self), *final(self), r, *insn),
    {
        let reglist = match self.decode_reglist(insn) {
            Some(v) => v,
            None => return ExecResult::Undefined,
        };
        let count = Self::count_regs(reglist);
        let start = self.cpu.regs[13];

        let branch_target = match self.load_regs(reglist, start) {
            Ok(t) => t,
            Err(e) => return ExecResult::MemoryFault(e),
        };

        self.cpu.regs[13] = start.wrapping_add(count * 4);

        match branch_target {
            Some(target) => ExecResult::Branch(target),
            None => ExecResult::Continue,
        }
    }
}

} // verus!
