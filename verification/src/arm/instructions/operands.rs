//! Operand decoding for the executor: register numbers, shifted operands,
//! addresses and register lists, from the raw A32 word or, in Thumb state,
//! from the decoded operand list.

use super::Executor;
use crate::arm::decoder::{
    shift_type_of, thumb_state, AddressingMode, DecodedInsn, ExecutionState, MemOffset,
    MemOperand, Mnemonic, Operand, ShiftType,
};
use crate::arm::execution::{
    expand_imm_spec, lemma_mask_bounds, reg_read, shift_c, shift_spec, expand_imm_c, ArmMemory,
    CpuState,
};
use vstd::prelude::*;

verus! {

// ============================================================================
// Operand lists
// ============================================================================

/// Every register an operand names is one of R0..R15.
pub open spec fn operand_ok(o: Operand) -> bool {
    match o {
        Operand::Reg(r) => r.num < 16,
        Operand::ShiftedReg(s) => s.reg.num < 16,
        Operand::Mem(m) => m.base.num < 16 && match m.offset {
            MemOffset::Reg(r) => r.num < 16,
            MemOffset::ShiftedReg(s) => s.reg.num < 16,
            _ => true,
        },
        _ => true,
    }
}

/// Every register the instruction's operands name is one of R0..R15.
pub open spec fn insn_ok(insn: DecodedInsn) -> bool {
    forall|i: int| 0 <= i < insn.operands.len() ==> #[trigger] operand_ok(insn.operands@[i])
}

/// Numbers of the plain register operands, in order.
pub open spec fn reg_nums(ops: Seq<Operand>) -> Seq<u8>
    decreases ops.len(),
{
    if ops.len() == 0 {
        Seq::empty()
    } else {
        let rest = reg_nums(ops.drop_last());
        match ops.last() {
            Operand::Reg(r) => rest.push(r.num),
            _ => rest,
        }
    }
}

/// The first `min(lim, 4)` plain register numbers of `ops`: entry `k` of
/// the result array, zero past the count.
pub open spec fn lead_reg(ops: Seq<Operand>, lim: int, k: int) -> usize {
    if k < lead_count(ops, lim) {
        reg_nums(ops)[k] as usize
    } else {
        0
    }
}

/// How many plain register numbers `lead_reg` keeps.
pub open spec fn lead_count(ops: Seq<Operand>, lim: int) -> int {
    let l = if lim < 4 {
        lim
    } else {
        4
    };
    if reg_nums(ops).len() < l {
        reg_nums(ops).len() as int
    } else {
        l
    }
}

/// Number of the first plain register operand.
pub open spec fn first_reg(ops: Seq<Operand>) -> Option<u8>
    decreases ops.len(),
{
    if ops.len() == 0 {
        None
    } else {
        match first_reg(ops.drop_last()) {
            Some(x) => Some(x),
            None => match ops.last() {
                Operand::Reg(r) => Some(r.num),
                _ => None,
            },
        }
    }
}

/// The first memory operand.
pub open spec fn first_mem(ops: Seq<Operand>) -> Option<MemOperand>
    decreases ops.len(),
{
    if ops.len() == 0 {
        None
    } else {
        match first_mem(ops.drop_last()) {
            Some(x) => Some(x),
            None => match ops.last() {
                Operand::Mem(m) => Some(m),
                _ => None,
            },
        }
    }
}

/// The mask of the first register-list operand.
pub open spec fn first_reglist(ops: Seq<Operand>) -> Option<u16>
    decreases ops.len(),
{
    if ops.len() == 0 {
        None
    } else {
        match first_reglist(ops.drop_last()) {
            Some(x) => Some(x),
            None => match ops.last() {
                Operand::RegList(l) => Some(l.mask),
                _ => None,
            },
        }
    }
}

proof fn lemma_prefix_step(ops: Seq<Operand>, i: int)
    requires
        0 <= i < ops.len(),
    ensures
        ops.take(i + 1).drop_last() == ops.take(i),
        ops.take(i + 1).last() == ops[i],
        ops.take(i + 1).len() == i + 1,
{
    assert(ops.take(i + 1).drop_last() =~= ops.take(i));
}

/// Once a prefix has a first register (memory, register-list) operand, the
/// whole list has the same one.
proof fn lemma_first_prefix(ops: Seq<Operand>, k: int)
    requires
        0 <= k <= ops.len(),
    ensures
        first_reg(ops.take(k)) is Some ==> first_reg(ops) == first_reg(ops.take(k)),
        first_mem(ops.take(k)) is Some ==> first_mem(ops) == first_mem(ops.take(k)),
        first_reglist(ops.take(k)) is Some ==> first_reglist(ops) == first_reglist(ops.take(k)),
    decreases ops.len() - k,
{
    if k == ops.len() {
        assert(ops.take(k) =~= ops);
    } else {
        lemma_prefix_step(ops, k);
        lemma_first_prefix(ops, k + 1);
    }
}

/// Scan `ops[..end]` for its first `min(lim, 4)` plain register numbers.
fn collect_regs(ops: &Vec<Operand>, end: usize, lim: usize) -> (r: ([usize; 4], usize))
    requires
        end <= ops.len(),
        forall|i: int| 0 <= i < end ==> #[trigger] operand_ok(ops@[i]),
    ensures
        r.1 == lead_count(ops@.take(end as int), lim as int),
        forall|k: int| 0 <= k < 4 ==> r.0[k] == lead_reg(ops@.take(end as int), lim as int, k),
        forall|k: int| 0 <= k < 4 ==> r.0[k] < 16,
{
    let mut regs = [0usize; 4];
    let mut cnt: usize = 0;
    let mut i: usize = 0;
    while i < end
        invariant
            end <= ops.len(),
            i <= end,
            forall|j: int| 0 <= j < end ==> #[trigger] operand_ok(ops@[j]),
            cnt == lead_count(ops@.take(i as int), lim as int),
            forall|k: int| 0 <= k < 4 ==> regs[k] == lead_reg(ops@.take(i as int), lim as int, k),
            forall|k: int| 0 <= k < 4 ==> regs[k] < 16,
            forall|k: int| 0 <= k < reg_nums(ops@.take(i as int)).len() ==> #[trigger] reg_nums(
                ops@.take(i as int),
            )[k] < 16,
        decreases end - i,
    {
        proof {
            lemma_prefix_step(ops@, i as int);
        }
        let o = ops[i];
        assert(operand_ok(ops@[i as int]));
        if let Operand::Reg(r) = o {
            if cnt < lim && cnt < 4 {
                regs[cnt] = r.num as usize;
                cnt += 1;
            }
        }
        i += 1;
    }
    assert(ops@.take(end as int) =~= ops@.take(i as int));
    (regs, cnt)
}

/// Scan for the first plain register operand.
fn find_reg(ops: &Vec<Operand>) -> (r: Option<u8>)
    ensures
        r == first_reg(ops@),
{
    let mut i: usize = 0;
    while i < ops.len()
        invariant
            i <= ops.len(),
            first_reg(ops@.take(i as int)) is None,
        decreases ops.len() - i,
    {
        proof {
            lemma_prefix_step(ops@, i as int);
        }
        if let Operand::Reg(r) = ops[i] {
            proof {
                lemma_first_prefix(ops@, i as int + 1);
            }
            return Some(r.num);
        }
        i += 1;
    }
    assert(ops@.take(i as int) =~= ops@);
    None
}

/// Scan for the first memory operand.
fn find_mem(ops: &Vec<Operand>) -> (r: Option<MemOperand>)
    ensures
        r == first_mem(ops@),
{
    let mut i: usize = 0;
    while i < ops.len()
        invariant
            i <= ops.len(),
            first_mem(ops@.take(i as int)) is None,
        decreases ops.len() - i,
    {
        proof {
            lemma_prefix_step(ops@, i as int);
        }
        if let Operand::Mem(m) = ops[i] {
            proof {
                lemma_first_prefix(ops@, i as int + 1);
            }
            return Some(m);
        }
        i += 1;
    }
    assert(ops@.take(i as int) =~= ops@);
    None
}

/// Scan for the first register-list operand.
fn find_reglist(ops: &Vec<Operand>) -> (r: Option<u16>)
    ensures
        r == first_reglist(ops@),
{
    let mut i: usize = 0;
    while i < ops.len()
        invariant
            i <= ops.len(),
            first_reglist(ops@.take(i as int)) is None,
        decreases ops.len() - i,
    {
        proof {
            lemma_prefix_step(ops@, i as int);
        }
        if let Operand::RegList(l) = ops[i] {
            proof {
                lemma_first_prefix(ops@, i as int + 1);
            }
            return Some(l.mask);
        }
        i += 1;
    }
    assert(ops@.take(i as int) =~= ops@);
    None
}

/// A prefix of operands whose registers are valid yields valid numbers.
proof fn lemma_first_reg_ok(ops: Seq<Operand>)
    requires
        forall|i: int| 0 <= i < ops.len() ==> #[trigger] operand_ok(ops[i]),
    ensures
        first_reg(ops) matches Some(x) ==> x < 16,
        first_mem(ops) matches Some(m) ==> operand_ok(Operand::Mem(m)),
    decreases ops.len(),
{
    if ops.len() > 0 {
        assert(operand_ok(ops[ops.len() - 1]));
        lemma_first_reg_ok(ops.drop_last());
    }
}

// ============================================================================
// Operand specifications
// ============================================================================

/// Register fields `(Rd, Rm)` as usize.
pub open spec fn field(raw: u32, lo: u32) -> usize {
    ((raw >> lo) & 0xF) as usize
}

/// Carry out of a Thumb data-processing immediate (ThumbExpandImm_C): the
/// rotated forms produce carry = result[31]; plain forms leave C unchanged.
pub open spec fn thumb_imm_carry_spec(cpu: CpuState, insn: DecodedInsn, value: u32) -> bool {
    if insn.state == ExecutionState::Thumb2 && ((((insn.raw >> 26) & 1) << 11) | (((insn.raw
        >> 12) & 0x7) << 8) | (insn.raw & 0xFF)) >> 8 >= 4 {
        (value >> 31) & 1 != 0
    } else {
        cpu.cpsr.c
    }
}

/// Whether the mnemonic is a flag-setting comparison.
pub open spec fn is_test(m: Mnemonic) -> bool {
    m == Mnemonic::CMP || m == Mnemonic::CMN || m == Mnemonic::TST || m == Mnemonic::TEQ
}

/// Thumb data-processing operands `(Rd, Rn, operand2, carry)`.
pub open spec fn dp_operands_thumb(cpu: CpuState, insn: DecodedInsn) -> (usize, usize, u32, bool) {
    let ops = insn.operands@;
    let (operand2, carry) = if ops.len() == 0 {
        (0u32, cpu.cpsr.c)
    } else {
        match ops.last() {
            Operand::Imm(imm) => (imm.value as u32, thumb_imm_carry_spec(
                cpu,
                insn,
                imm.value as u32,
            )),
            Operand::Reg(r) => (reg_read(cpu, r.num as int), cpu.cpsr.c),
            Operand::ShiftedReg(sr) => shift_spec(
                reg_read(cpu, sr.reg.num as int),
                sr.shift,
                sr.amount as u32,
                cpu.cpsr.c,
            ),
            _ => (0u32, cpu.cpsr.c),
        }
    };
    let nlead = if ops.len() == 0 {
        0
    } else {
        ops.len() - 1
    };
    let lead = ops.take(nlead);
    let cnt = lead_count(lead, 2);
    let (d, n) = if cnt == 2 {
        (lead_reg(lead, 2, 0), lead_reg(lead, 2, 1))
    } else if cnt == 1 {
        if is_test(insn.mnemonic) {
            (15usize, lead_reg(lead, 2, 0))
        } else {
            (lead_reg(lead, 2, 0), 0usize)
        }
    } else {
        (0usize, 0usize)
    };
    (d, n, operand2, carry)
}

/// A32 register-shifted operand: the shift and amount used.
pub open spec fn a32_shift(cpu: CpuState, raw: u32) -> (ShiftType, u32) {
    let st = shift_type_of((((raw >> 5) & 3) as u8) & 3);
    if (raw >> 4) & 1 != 0 {
        (st, reg_read(cpu, field(raw, 8) as int) & 0xFF)
    } else {
        let imm5 = (raw >> 7) & 0x1F;
        if (st == ShiftType::LSR || st == ShiftType::ASR) && imm5 == 0 {
            (st, 32)
        } else if st == ShiftType::ROR && imm5 == 0 {
            (ShiftType::RRX, 1)
        } else {
            (st, imm5)
        }
    }
}

/// Data-processing operands `(Rd, Rn, operand2, carry)`.
pub open spec fn dp_operands(cpu: CpuState, insn: DecodedInsn) -> (usize, usize, u32, bool) {
    if thumb_state(insn.state) {
        dp_operands_thumb(cpu, insn)
    } else {
        let raw = insn.raw;
        let (v, c) = if (raw >> 25) & 1 != 0 {
            expand_imm_spec(raw & 0xFFF, cpu.cpsr.c)
        } else {
            let (st, amount) = a32_shift(cpu, raw);
            shift_spec(reg_read(cpu, (raw & 0xF) as int), st, amount, cpu.cpsr.c)
        };
        (field(raw, 12), field(raw, 16), v, c)
    }
}

/// Shift-instruction operands `(Rd, Rm, amount)`.
pub open spec fn shift_operands(cpu: CpuState, insn: DecodedInsn) -> (usize, usize, u32) {
    let raw = insn.raw;
    if thumb_state(insn.state) {
        let ops = insn.operands@;
        let amount = if ops.len() == 0 {
            0u32
        } else {
            match ops.last() {
                Operand::Imm(imm) => imm.value as u32,
                Operand::Reg(r) => reg_read(cpu, r.num as int) & 0xFF,
                _ => 0u32,
            }
        };
        (lead_reg(ops, 2, 0), lead_reg(ops, 2, 1), amount)
    } else {
        let amount = if (raw >> 4) & 1 != 0 {
            reg_read(cpu, field(raw, 8) as int) & 0xFF
        } else if (raw >> 7) & 0x1F == 0 {
            32
        } else {
            (raw >> 7) & 0x1F
        };
        (field(raw, 12), (raw & 0xF) as usize, amount)
    }
}

/// Multiply operands `(Rd, Rn, Rm)`.
pub open spec fn mul_operands(insn: DecodedInsn) -> (usize, usize, usize) {
    let ops = insn.operands@;
    if thumb_state(insn.state) {
        (lead_reg(ops, 3, 0), lead_reg(ops, 3, 1), lead_reg(ops, 3, 2))
    } else {
        (field(insn.raw, 16), (insn.raw & 0xF) as usize, field(insn.raw, 8))
    }
}

/// Multiply-accumulate operands `(Rd, Rn, Rm, Ra)`.
pub open spec fn mla_operands(insn: DecodedInsn) -> (usize, usize, usize, usize) {
    let ops = insn.operands@;
    if thumb_state(insn.state) {
        (lead_reg(ops, 4, 0), lead_reg(ops, 4, 1), lead_reg(ops, 4, 2), lead_reg(ops, 4, 3))
    } else {
        (field(insn.raw, 16), (insn.raw & 0xF) as usize, field(insn.raw, 8), field(insn.raw, 12))
    }
}

/// Long multiply operands `(RdLo, RdHi, Rn, Rm)`.
pub open spec fn mull_operands(insn: DecodedInsn) -> (usize, usize, usize, usize) {
    let ops = insn.operands@;
    if thumb_state(insn.state) {
        (lead_reg(ops, 4, 0), lead_reg(ops, 4, 1), lead_reg(ops, 4, 2), lead_reg(ops, 4, 3))
    } else {
        (field(insn.raw, 12), field(insn.raw, 16), (insn.raw & 0xF) as usize, field(insn.raw, 8))
    }
}

/// Branch target: R15 as read plus the sign-extended 24-bit word offset.
pub open spec fn branch_target(cpu: CpuState, insn: DecodedInsn) -> u32 {
    let imm26 = (insn.raw & 0x00FF_FFFF) << 2;
    let imm32 = if (imm26 & 0x0200_0000) != 0 {
        imm26 | 0xFC00_0000
    } else {
        imm26
    };
    reg_read(cpu, 15).wrapping_add(imm32)
}

/// Register operand at `pos`: the operand's register if it is a plain
/// register, none if it is another operand, `raw[3:0]` past the list.
pub open spec fn reg_operand(insn: DecodedInsn, pos: int) -> Option<usize> {
    if pos < insn.operands.len() {
        match insn.operands@[pos] {
            Operand::Reg(r) => Some(r.num as usize),
            _ => None,
        }
    } else {
        Some((insn.raw & 0xF) as usize)
    }
}

/// Thumb load/store operands `(Rt, address, writeback)`.
pub open spec fn mem_thumb(cpu: CpuState, insn: DecodedInsn) -> Option<
    (usize, u32, Option<(usize, u32)>),
> {
    let ops = insn.operands@;
    match (first_reg(ops), first_mem(ops)) {
        (Some(t), Some(mem)) => {
            let n = mem.base.num as usize;
            let base = reg_read(cpu, n as int);
            let offset: i64 = match mem.offset {
                MemOffset::Zero => 0,
                MemOffset::Imm(i) => i,
                MemOffset::Reg(r) => reg_read(cpu, r.num as int) as i64,
                MemOffset::ShiftedReg(sr) => shift_spec(
                    reg_read(cpu, sr.reg.num as int),
                    sr.shift,
                    sr.amount as u32,
                    false,
                ).0 as i64,
            };
            let offset_addr = (base as i64).wrapping_add(offset) as u32;
            let (address, wb) = match mem.mode {
                AddressingMode::Offset => (offset_addr, None),
                AddressingMode::PreIndex => (offset_addr, Some(offset_addr)),
                AddressingMode::PostIndex => (base, Some(offset_addr)),
            };
            Some(
                (
                    t as usize,
                    address,
                    match wb {
                        Some(a) => if n != 15 {
                            Some((n, a))
                        } else {
                            None
                        },
                        None => None,
                    },
                ),
            )
        },
        _ => None,
    }
}

/// Address computation shared by the A32 load/store forms.
pub open spec fn a32_address(cpu: CpuState, raw: u32, offset: u32) -> (usize, u32, Option<
    (usize, u32),
>) {
    let n = field(raw, 16);
    let base = reg_read(cpu, n as int);
    let offset_addr = if (raw >> 23) & 1 != 0 {
        base.wrapping_add(offset)
    } else {
        base.wrapping_sub(offset)
    };
    let address = if (raw >> 24) & 1 != 0 {
        offset_addr
    } else {
        base
    };
    let wback = (raw >> 24) & 1 == 0 || (raw >> 21) & 1 != 0;
    (field(raw, 12), address, if wback && n != 15 {
        Some((n, offset_addr))
    } else {
        None
    })
}

/// Word/byte load/store operands `(Rt, address, writeback)`.
pub open spec fn ldst_operands(cpu: CpuState, insn: DecodedInsn) -> Option<
    (usize, u32, Option<(usize, u32)>),
> {
    if thumb_state(insn.state) {
        mem_thumb(cpu, insn)
    } else {
        let raw = insn.raw;
        let offset = if (raw >> 25) & 1 != 0 {
            let st = shift_type_of((((raw >> 5) & 3) as u8) & 3);
            let imm5 = (raw >> 7) & 0x1F;
            let amount = if (st == ShiftType::LSR || st == ShiftType::ASR) && imm5 == 0 {
                32
            } else {
                imm5
            };
            shift_spec(reg_read(cpu, (raw & 0xF) as int), st, amount, false).0
        } else {
            raw & 0xFFF
        };
        Some(a32_address(cpu, raw, offset))
    }
}

/// Halfword/signed/doubleword load/store operands `(Rt, address,
/// writeback)`.
pub open spec fn ldst_half_operands(cpu: CpuState, insn: DecodedInsn) -> Option<
    (usize, u32, Option<(usize, u32)>),
> {
    if thumb_state(insn.state) {
        mem_thumb(cpu, insn)
    } else {
        let raw = insn.raw;
        let offset = if (raw >> 22) & 1 != 0 {
            (((raw >> 8) & 0xF) << 4) | (raw & 0xF)
        } else {
            reg_read(cpu, (raw & 0xF) as int)
        };
        Some(a32_address(cpu, raw, offset))
    }
}

/// Load/store multiple operands `(Rn, register list, writeback)`.
pub open spec fn ldstm_operands(insn: DecodedInsn) -> Option<(usize, u16, bool)> {
    if thumb_state(insn.state) {
        let ops = insn.operands@;
        match (first_reg(ops), first_reglist(ops)) {
            (Some(n), Some(list)) => Some(
                (
                    n as usize,
                    list,
                    if insn.state == ExecutionState::Thumb2 {
                        (insn.raw >> 21) & 1 != 0
                    } else {
                        true
                    },
                ),
            ),
            _ => None,
        }
    } else {
        Some((field(insn.raw, 16), (insn.raw & 0xFFFF) as u16, (insn.raw >> 21) & 1 != 0))
    }
}

// ============================================================================
// Operand decoding
// ============================================================================

impl<M: ArmMemory> Executor<M> {
    /// Collect up to `max` GPR numbers from the decoded operand list, in order.
    pub(crate) fn thumb_reg_ops(insn: &DecodedInsn, max: usize) -> (r: ([usize; 4], usize))
        requires
            insn_ok(*insn),
        ensures
            r.1 == lead_count(insn.operands@, max as int),
            forall|k: int| 0 <= k < 4 ==> r.0[k] == lead_reg(insn.operands@, max as int, k),
            forall|k: int| 0 <= k < 4 ==> r.0[k] < 16,
    {
        let r = collect_regs(&insn.operands, insn.operands.len(), max);
        assert(insn.operands@.take(insn.operands.len() as int) =~= insn.operands@);
        r
    }

    /// (Rd, Rm) for two-register ops: from operands in Thumb, from raw in A32.
    pub(crate) fn dm_ops(&self, insn: &DecodedInsn) -> (r: (usize, usize))
        requires
            insn_ok(*insn),
        ensures
            r == dm_operands(*insn),
            r.0 < 16,
            r.1 < 16,
    {
        proof {
            lemma_mask_bounds();
        }
        if insn.state.is_thumb() {
            let (r, _) = Self::thumb_reg_ops(insn, 2);
            (r[0], r[1])
        } else {
            (((insn.raw >> 12) & 0xF) as usize, (insn.raw & 0xF) as usize)
        }
    }

    /// Carry-out of a Thumb data-processing immediate (ThumbExpandImm_C). The
    /// rotated forms produce carry = result[31]; plain forms leave C unchanged.
    fn thumb_imm_carry(&self, insn: &DecodedInsn, value: u32) -> (r: bool)
        ensures
            r == thumb_imm_carry_spec(self.cpu@, *insn, value),
    {
        if insn.state == ExecutionState::Thumb2 {
            let raw = insn.raw;
            let imm12 = (((raw >> 26) & 1) << 11) | (((raw >> 12) & 0x7) << 8) | (raw & 0xFF);
            if (imm12 >> 8) >= 4 {
                return (value >> 31) & 1 != 0;
            }
        }
        self.cpu.cpsr.c
    }

    /// Thumb (T16/T32) data-processing operand decode using the decoded operands.
    fn decode_dp_operands_thumb(&mut self, insn: &DecodedInsn) -> (r: (usize, usize, u32))
        requires
            insn_ok(*insn),
        ensures
            r.0 < 16,
            r.1 < 16,
            ({
                let (d, n, v, c) = dp_operands_thumb(old(self).cpu@, *insn);
                r == (d, n, v) && final(self).cpu@ == (CpuState {
                    carry_out: c,
                    ..old(self).cpu@
                })
            }),
            final(self).mem == old(self).mem,
            final(self).exclusive_monitor == old(self).exclusive_monitor,
            final(self).vbar == old(self).vbar,
    {
        let len = insn.operands.len();
        let (operand2, carry) = if len == 0 {
            (0u32, self.cpu.cpsr.c)
        } else {
            assert(operand_ok(insn.operands@[len - 1]));
            match insn.operands[len - 1] {
                Operand::Imm(imm) => {
                    let v = imm.value as u32;
                    (v, self.thumb_imm_carry(insn, v))
                },
                Operand::Reg(r) => (self.reg(r.num as usize), self.cpu.cpsr.c),
                Operand::ShiftedReg(sr) => shift_c(
                    self.reg(sr.reg.num as usize),
                    sr.shift,
                    sr.amount as u32,
                    self.cpu.cpsr.c,
                ),
                _ => (0u32, self.cpu.cpsr.c),
            }
        };
        self.cpu.carry_out = carry;

        // Leading register operands (those before operand2).
        let nlead = if len == 0 {
            0
        } else {
            len - 1
        };
        let (lead, cnt) = collect_regs(&insn.operands, nlead, 2);
        let is_test = match insn.mnemonic {
            Mnemonic::CMP | Mnemonic::CMN | Mnemonic::TST | Mnemonic::TEQ => true,
            _ => false,
        };
        let (d, n) = if cnt == 2 {
            (lead[0], lead[1])
        } else if cnt == 1 {
            if is_test {
                (15, lead[0])
            } else {
                (lead[0], 0)
            }
        } else {
            (0, 0)
        };
        (d, n, operand2)
    }

    /// Decode data processing operands: (Rd, Rn, operand2)
    pub(crate) fn decode_dp_operands(&mut self, insn: &DecodedInsn) -> (r: (usize, usize, u32))
        requires
            insn_ok(*insn),
        ensures
            r.0 < 16,
            r.1 < 16,
            ({
                let (d, n, v, c) = dp_operands(old(self).cpu@, *insn);
                r == (d, n, v) && final(self).cpu@ == (CpuState {
                    carry_out: c,
                    ..old(self).cpu@
                })
            }),
            final(self).mem == old(self).mem,
            final(self).exclusive_monitor == old(self).exclusive_monitor,
            final(self).vbar == old(self).vbar,
    {
        proof {
            lemma_mask_bounds();
        }
        if insn.state.is_thumb() {
            return self.decode_dp_operands_thumb(insn);
        }
        let d = ((insn.raw >> 12) & 0xF) as usize;
        let n = ((insn.raw >> 16) & 0xF) as usize;

        let operand2 = if (insn.raw >> 25) & 1 != 0 {
            let imm12 = insn.raw & 0xFFF;
            let (value, carry) = expand_imm_c(imm12, self.cpu.cpsr.c);
            self.cpu.carry_out = carry;
            value
        } else {
            let m = (insn.raw & 0xF) as usize;
            let (shift_type, shift_amount) = self.a32_shift_operand(insn.raw);
            let (result, carry) = shift_c(self.reg(m), shift_type, shift_amount, self.cpu.cpsr.c);
            self.cpu.carry_out = carry;
            result
        };

        (d, n, operand2)
    }

    /// Shift type and amount of an A32 shifted-register operand.
    fn a32_shift_operand(&self, raw: u32) -> (r: (ShiftType, u32))
        ensures
            r == a32_shift(self.cpu@, raw),
    {
        proof {
            lemma_mask_bounds();
        }
        let mut shift_type = ShiftType::from_bits(((raw >> 5) & 3) as u8);

        let shift_amount = if (raw >> 4) & 1 != 0 {
            // Register-controlled shift: amount is Rs[7:0]; RRX is not
            // encodable in this form.
            let s = ((raw >> 8) & 0xF) as usize;
            self.reg(s) & 0xFF
        } else {
            let imm5 = (raw >> 7) & 0x1F;
            if (shift_type == ShiftType::LSR || shift_type == ShiftType::ASR) && imm5 == 0 {
                32
            } else if shift_type == ShiftType::ROR && imm5 == 0 {
                // type==ROR with imm5==0 encodes RRX (rotate right with
                // extend through carry), not ROR #1.
                shift_type = ShiftType::RRX;
                1
            } else {
                imm5
            }
        };
        (shift_type, shift_amount)
    }

    /// Decode shift instruction operands: (Rd, Rm, shift_amount)
    pub(crate) fn decode_shift_operands(&self, insn: &DecodedInsn) -> (r: (usize, usize, u32))
        requires
            insn_ok(*insn),
        ensures
            r == shift_operands(self.cpu@, *insn),
            r.0 < 16,
            r.1 < 16,
    {
        proof {
            lemma_mask_bounds();
        }
        if insn.state.is_thumb() {
            let (regs, _) = Self::thumb_reg_ops(insn, 2);
            let d = regs[0];
            let m = regs[1];
            let len = insn.operands.len();
            let amount = if len == 0 {
                0
            } else {
                assert(operand_ok(insn.operands@[len - 1]));
                match insn.operands[len - 1] {
                    Operand::Imm(imm) => imm.value as u32,
                    // Register-controlled shift (e.g. T16 LSLS Rdn, Rm).
                    Operand::Reg(r) => self.reg(r.num as usize) & 0xFF,
                    _ => 0,
                }
            };
            return (d, m, amount);
        }
        let d = ((insn.raw >> 12) & 0xF) as usize;
        let m = (insn.raw & 0xF) as usize;

        let shift_amount = if (insn.raw >> 4) & 1 != 0 {
            let s = ((insn.raw >> 8) & 0xF) as usize;
            self.reg(s) & 0xFF
        } else {
            let imm5 = (insn.raw >> 7) & 0x1F;
            if imm5 == 0 {
                32
            } else {
                imm5
            }
        };

        (d, m, shift_amount)
    }

    /// Decode multiply operands: (Rd, Rn, Rm)
    pub(crate) fn decode_mul_operands(&self, insn: &DecodedInsn) -> (r: (usize, usize, usize))
        requires
            insn_ok(*insn),
        ensures
            r == mul_operands(*insn),
            r.0 < 16,
            r.1 < 16,
            r.2 < 16,
    {
        proof {
            lemma_mask_bounds();
        }
        if insn.state.is_thumb() {
            let (r, _) = Self::thumb_reg_ops(insn, 3);
            return (r[0], r[1], r[2]);
        }
        let d = ((insn.raw >> 16) & 0xF) as usize;
        let n = (insn.raw & 0xF) as usize;
        let m = ((insn.raw >> 8) & 0xF) as usize;
        (d, n, m)
    }

    /// Decode MLA operands: (Rd, Rn, Rm, Ra)
    pub(crate) fn decode_mla_operands(&self, insn: &DecodedInsn) -> (r: (
        usize,
        usize,
        usize,
        usize,
    ))
        requires
            insn_ok(*insn),
        ensures
            r == mla_operands(*insn),
            r.0 < 16,
            r.1 < 16,
            r.2 < 16,
            r.3 < 16,
    {
        proof {
            lemma_mask_bounds();
        }
        if insn.state.is_thumb() {
            let (r, _) = Self::thumb_reg_ops(insn, 4);
            return (r[0], r[1], r[2], r[3]);
        }
        let d = ((insn.raw >> 16) & 0xF) as usize;
        let a = ((insn.raw >> 12) & 0xF) as usize;
        let m = ((insn.raw >> 8) & 0xF) as usize;
        let n = (insn.raw & 0xF) as usize;
        (d, n, m, a)
    }

    /// Decode long multiply operands: (RdLo, RdHi, Rn, Rm)
    pub(crate) fn decode_mull_operands(&self, insn: &DecodedInsn) -> (r: (
        usize,
        usize,
        usize,
        usize,
    ))
        requires
            insn_ok(*insn),
        ensures
            r == mull_operands(*insn),
            r.0 < 16,
            r.1 < 16,
            r.2 < 16,
            r.3 < 16,
    {
        proof {
            lemma_mask_bounds();
        }
        if insn.state.is_thumb() {
            let (r, _) = Self::thumb_reg_ops(insn, 4);
            return (r[0], r[1], r[2], r[3]);
        }
        let dhi = ((insn.raw >> 16) & 0xF) as usize;
        let dlo = ((insn.raw >> 12) & 0xF) as usize;
        let m = ((insn.raw >> 8) & 0xF) as usize;
        let n = (insn.raw & 0xF) as usize;
        (dlo, dhi, n, m)
    }

    /// Decode branch target from instruction.
    pub(crate) fn decode_branch_target(&self, insn: &DecodedInsn) -> (r: Option<u32>)
        ensures
            r == Some(branch_target(self.cpu@, *insn)),
    {
        let imm24 = insn.raw & 0x00FFFFFF;
        let imm26 = imm24 << 2;
        let imm32 = if (imm26 & 0x02000000) != 0 {
            imm26 | 0xFC000000
        } else {
            imm26
        };
        Some(self.cpu.get_pc().wrapping_add(imm32))
    }

    /// Decode register operand at given position.
    pub(crate) fn decode_reg_operand(&self, insn: &DecodedInsn, pos: usize) -> (r: Option<usize>)
        requires
            insn_ok(*insn),
        ensures
            r == reg_operand(*insn, pos as int),
            r matches Some(x) ==> x < 16,
    {
        proof {
            lemma_mask_bounds();
        }
        if pos < insn.operands.len() {
            assert(operand_ok(insn.operands@[pos as int]));
            match insn.operands[pos] {
                Operand::Reg(reg) => Some(reg.num as usize),
                _ => None,
            }
        } else {
            Some((insn.raw & 0xF) as usize)
        }
    }

    /// Compute (Rt, address, writeback) from the decoded operands (Thumb path):
    /// the first Reg operand is Rt and the Mem operand gives base/offset/mode.
    fn decode_mem_thumb(&self, insn: &DecodedInsn) -> (r: Option<
        (usize, u32, Option<(usize, u32)>),
    >)
        requires
            insn_ok(*insn),
        ensures
            r == mem_thumb(self.cpu@, *insn),
            r matches Some((t, _, wb)) ==> t < 16 && (wb matches Some((n, _)) ==> n < 16),
    {
        proof {
            lemma_first_reg_ok(insn.operands@);
        }
        let t = match find_reg(&insn.operands) {
            Some(t) => t as usize,
            None => return None,
        };
        let mem = match find_mem(&insn.operands) {
            Some(m) => m,
            None => return None,
        };
        let n = mem.base.num as usize;
        let base = self.reg(n);
        let offset: i64 = match mem.offset {
            MemOffset::Zero => 0,
            MemOffset::Imm(i) => i,
            MemOffset::Reg(r) => self.reg(r.num as usize) as i64,
            MemOffset::ShiftedReg(sr) => {
                shift_c(self.reg(sr.reg.num as usize), sr.shift, sr.amount as u32, false).0 as i64
            },
        };
        let offset_addr = (base as i64).wrapping_add(offset) as u32;
        let (address, wb_addr) = match mem.mode {
            AddressingMode::Offset => (offset_addr, None),
            AddressingMode::PreIndex => (offset_addr, Some(offset_addr)),
            AddressingMode::PostIndex => (base, Some(offset_addr)),
        };
        let wb = match wb_addr {
            Some(a) => if n != 15 {
                Some((n, a))
            } else {
                None
            },
            None => None,
        };
        Some((t, address, wb))
    }

    /// Base, address and writeback of an A32 load/store with the given
    /// offset.
    fn a32_ldst_address(&self, raw: u32, offset: u32) -> (r: (usize, u32, Option<(usize, u32)>))
        ensures
            r == a32_address(self.cpu@, raw, offset),
            r.0 < 16,
            r.2 matches Some((n, _)) ==> n < 16,
    {
        proof {
            lemma_mask_bounds();
        }
        let p = (raw >> 24) & 1;
        let u = (raw >> 23) & 1;
        let w = (raw >> 21) & 1;
        let n = ((raw >> 16) & 0xF) as usize;
        let t = ((raw >> 12) & 0xF) as usize;

        let base = self.reg(n);

        let is_add = u != 0;
        let is_index = p != 0;
        let is_wback = p == 0 || w != 0;

        let offset_addr = if is_add {
            base.wrapping_add(offset)
        } else {
            base.wrapping_sub(offset)
        };

        let address = if is_index {
            offset_addr
        } else {
            base
        };
        let writeback = if is_wback && n != 15 {
            Some((n, offset_addr))
        } else {
            None
        };

        (t, address, writeback)
    }

    /// Decode load/store operands for word/byte: (Rt, address, writeback)
    pub(crate) fn decode_ldst_operands(&self, insn: &DecodedInsn) -> (r: Option<
        (usize, u32, Option<(usize, u32)>),
    >)
        requires
            insn_ok(*insn),
        ensures
            r == ldst_operands(self.cpu@, *insn),
            r matches Some((t, _, wb)) ==> t < 16 && (wb matches Some((n, _)) ==> n < 16),
    {
        proof {
            lemma_mask_bounds();
        }
        if insn.state.is_thumb() {
            return self.decode_mem_thumb(insn);
        }
        let raw = insn.raw;
        let offset = if (raw >> 25) & 1 != 0 {
            let m = (raw & 0xF) as usize;
            let shift_type = ShiftType::from_bits(((raw >> 5) & 3) as u8);
            let imm5 = (raw >> 7) & 0x1F;
            let shift_amount = if (shift_type == ShiftType::LSR || shift_type == ShiftType::ASR)
                && imm5 == 0 {
                32
            } else {
                imm5
            };
            shift_c(self.reg(m), shift_type, shift_amount, false).0
        } else {
            raw & 0xFFF
        };
        Some(self.a32_ldst_address(raw, offset))
    }

    /// Decode load/store operands for halfword/signed: (Rt, address, writeback)
    /// Uses different encoding: bits[11:8] and bits[3:0] for immediate
    pub(crate) fn decode_ldst_halfword_operands(&self, insn: &DecodedInsn) -> (r: Option<
        (usize, u32, Option<(usize, u32)>),
    >)
        requires
            insn_ok(*insn),
        ensures
            r == ldst_half_operands(self.cpu@, *insn),
            r matches Some((t, _, wb)) ==> t < 16 && (wb matches Some((n, _)) ==> n < 16),
    {
        proof {
            lemma_mask_bounds();
        }
        if insn.state.is_thumb() {
            return self.decode_mem_thumb(insn);
        }
        let raw = insn.raw;
        let offset = if (raw >> 22) & 1 != 0 {
            // Immediate: bits[11:8] and bits[3:0]
            let imm4h = (raw >> 8) & 0xF;
            let imm4l = raw & 0xF;
            (imm4h << 4) | imm4l
        } else {
            // Register
            let m = (raw & 0xF) as usize;
            self.reg(m)
        };
        Some(self.a32_ldst_address(raw, offset))
    }

    /// Decode load/store multiple operands: (Rn, reglist, wback)
    pub(crate) fn decode_ldstm_operands(&self, insn: &DecodedInsn) -> (r: Option<
        (usize, u16, bool),
    >)
        requires
            insn_ok(*insn),
        ensures
            r == ldstm_operands(*insn),
            r matches Some((n, _, _)) ==> n < 16,
    {
        proof {
            lemma_mask_bounds();
            lemma_first_reg_ok(insn.operands@);
        }
        if insn.state.is_thumb() {
            let n = match find_reg(&insn.operands) {
                Some(n) => n as usize,
                None => return None,
            };
            let reglist = match find_reglist(&insn.operands) {
                Some(l) => l,
                None => return None,
            };
            // T16 LDM/STM always write back; T32 has an explicit W bit (bit21).
            let wback = if insn.state == ExecutionState::Thumb2 {
                (insn.raw >> 21) & 1 != 0
            } else {
                true
            };
            return Some((n, reglist, wback));
        }
        let w = (insn.raw >> 21) & 1;
        let n = ((insn.raw >> 16) & 0xF) as usize;
        let reglist = (insn.raw & 0xFFFF) as u16;
        Some((n, reglist, w != 0))
    }

    /// Decode register list for PUSH/POP.
    pub(crate) fn decode_reglist(&self, insn: &DecodedInsn) -> (r: Option<u16>)
        ensures
            r == Some((insn.raw & 0xFFFF) as u16),
    {
        Some((insn.raw & 0xFFFF) as u16)
    }
}

/// (Rd, Rm) of a two-register instruction.
pub open spec fn dm_operands(insn: DecodedInsn) -> (usize, usize) {
    if thumb_state(insn.state) {
        (lead_reg(insn.operands@, 2, 0), lead_reg(insn.operands@, 2, 1))
    } else {
        (field(insn.raw, 12), (insn.raw & 0xF) as usize)
    }
}

} // verus!
