//! Data processing (arithmetic, logical, move, compare, shift) and multiply
//! instructions.

use super::operands::{
    dp_operands, insn_ok, mla_operands, mul_operands, mull_operands, shift_operands,
};
use super::{flags_arith, flags_logical, regs_step, write_reg, write_reg_s, ExecResult, Executor};
use crate::arm::decoder::{thumb_state, DecodedInsn, Operand, ShiftType};
use crate::arm::execution::{
    awc, compute_n_flag, compute_z_flag, lemma_mask_bounds, n_flag, reg_read, shift_spec,
    ArmMemory, CpuState, Psr,
};
use vstd::prelude::*;

verus! {

// ============================================================================
// Specifications
// ============================================================================

/// The state after decoding data-processing operands (the shifter carry is
/// recorded).
pub open spec fn dp_decoded(cpu: CpuState, insn: DecodedInsn) -> CpuState {
    CpuState { carry_out: dp_operands(cpu, insn).3, ..cpu }
}

/// ADD/ADC/SUB/SBC/RSB/RSC: AddWithCarry of (optionally inverted) Rn and
/// operand2 with the given carry in (`None`: the C flag), flags from the
/// result when S is set and Rd is not R15, then the write of Rd.
pub open spec fn arith_step(
    cpu: CpuState,
    insn: DecodedInsn,
    invert_n: bool,
    invert_op2: bool,
    carry_in: Option<bool>,
) -> (CpuState, ExecResult) {
    let (d, n, op2, _) = dp_operands(cpu, insn);
    let c1 = dp_decoded(cpu, insn);
    let x = if invert_n {
        !reg_read(c1, n as int)
    } else {
        reg_read(c1, n as int)
    };
    let y = if invert_op2 {
        !op2
    } else {
        op2
    };
    let cin = match carry_in {
        Some(b) => b,
        None => cpu.cpsr.c,
    };
    let (res, co, ov) = awc(x, y, cin);
    let c2 = CpuState { carry_out: co, overflow: ov, ..c1 };
    let c3 = if insn.sets_flags && d != 15 {
        flags_arith(c2, res)
    } else {
        c2
    };
    write_reg_s(c3, d as int, res, insn.sets_flags)
}

/// Bitwise operation `k` of the logical opcodes: 0 AND, 1 ORR, 2 EOR,
/// 3 BIC, 4 ORN, 5 MOV (operand2), 6 MVN (NOT operand2).
pub open spec fn logic_value(k: int, a: u32, b: u32) -> u32 {
    if k == 0 {
        a & b
    } else if k == 1 {
        a | b
    } else if k == 2 {
        a ^ b
    } else if k == 3 {
        a & !b
    } else if k == 4 {
        a | !b
    } else if k == 5 {
        b
    } else {
        !b
    }
}

/// AND/ORR/EOR/BIC/ORN/MOV/MVN: the logical result, N, Z and the shifter
/// carry when S is set and Rd is not R15, then the write of Rd (MOV with S
/// to R15 is an exception return).
pub open spec fn logic_step(cpu: CpuState, insn: DecodedInsn, k: int) -> (CpuState, ExecResult) {
    let (d, n, op2, _) = dp_operands(cpu, insn);
    let c1 = dp_decoded(cpu, insn);
    let res = logic_value(k, reg_read(c1, n as int), op2);
    let c2 = if insn.sets_flags && d != 15 {
        flags_logical(c1, res)
    } else {
        c1
    };
    if k == 5 {
        write_reg_s(c2, d as int, res, insn.sets_flags)
    } else {
        write_reg(c2, d as int, res)
    }
}

/// CMP/CMN: flags from AddWithCarry of Rn and operand2 (inverted with carry
/// in for CMP).
pub open spec fn compare_step(cpu: CpuState, insn: DecodedInsn, negate: bool) -> (
    CpuState,
    ExecResult,
) {
    let (_, n, op2, _) = dp_operands(cpu, insn);
    let c1 = dp_decoded(cpu, insn);
    let (res, co, ov) = if negate {
        awc(reg_read(c1, n as int), !op2, true)
    } else {
        awc(reg_read(c1, n as int), op2, false)
    };
    (flags_arith(CpuState { carry_out: co, overflow: ov, ..c1 }, res), ExecResult::Continue)
}

/// TST/TEQ: flags from Rn AND (or EOR) operand2.
pub open spec fn test_step(cpu: CpuState, insn: DecodedInsn, xor: bool) -> (
    CpuState,
    ExecResult,
) {
    let (_, n, op2, _) = dp_operands(cpu, insn);
    let c1 = dp_decoded(cpu, insn);
    let res = if xor {
        reg_read(c1, n as int) ^ op2
    } else {
        reg_read(c1, n as int) & op2
    };
    (flags_logical(c1, res), ExecResult::Continue)
}

/// LSL/LSR/ASR/ROR/RRX: Shift_C of Rm with the C flag in, N, Z and the
/// carry out when S is set and Rd is not R15, then the write of Rd.
pub open spec fn shift_step(cpu: CpuState, insn: DecodedInsn, st: ShiftType, rrx: bool) -> (
    CpuState,
    ExecResult,
) {
    let (d, m, amt) = shift_operands(cpu, insn);
    let amount = if rrx {
        1
    } else {
        amt
    };
    let (res, co) = shift_spec(reg_read(cpu, m as int), st, amount, cpu.cpsr.c);
    let c1 = CpuState { carry_out: co, ..cpu };
    let c2 = if insn.sets_flags && d != 15 {
        flags_logical(c1, res)
    } else {
        c1
    };
    write_reg(c2, d as int, res)
}

/// N and Z of a 32-bit product when S is set.
pub open spec fn nz32(cpu: CpuState, s: bool, res: u32) -> CpuState {
    if s {
        CpuState { cpsr: Psr { n: n_flag(res), z: res == 0, ..cpu.cpsr }, ..cpu }
    } else {
        cpu
    }
}

/// MUL/MLA/MLS: the low 32 bits of Rn*Rm (plus Ra, or subtracted from Ra).
pub open spec fn mul_step(cpu: CpuState, insn: DecodedInsn, acc: int) -> (CpuState, ExecResult) {
    if acc == 0 {
        let (d, n, m) = mul_operands(insn);
        let res = reg_read(cpu, n as int).wrapping_mul(reg_read(cpu, m as int));
        write_reg(nz32(cpu, insn.sets_flags, res), d as int, res)
    } else {
        let (d, n, m, a) = mla_operands(insn);
        let prod = reg_read(cpu, n as int).wrapping_mul(reg_read(cpu, m as int));
        if acc == 1 {
            let res = prod.wrapping_add(reg_read(cpu, a as int));
            write_reg(nz32(cpu, insn.sets_flags, res), d as int, res)
        } else {
            write_reg(cpu, d as int, reg_read(cpu, a as int).wrapping_sub(prod))
        }
    }
}

/// The 64-bit result of a long multiply: 0 UMULL, 1 SMULL, 2 UMLAL,
/// 3 SMLAL, 4 UMAAL.
pub open spec fn long_product(cpu: CpuState, insn: DecodedInsn, k: int) -> u64 {
    let (dlo, dhi, n, m) = mull_operands(insn);
    let rn = reg_read(cpu, n as int);
    let rm = reg_read(cpu, m as int);
    let addend = ((cpu.regs[dhi as int] as u64) << 32) | (cpu.regs[dlo as int] as u64);
    let uprod = (rn as u64).wrapping_mul(rm as u64);
    let sprod = ((rn as i32) as i64).wrapping_mul((rm as i32) as i64) as u64;
    if k == 0 {
        uprod
    } else if k == 1 {
        sprod
    } else if k == 2 {
        uprod.wrapping_add(addend)
    } else if k == 3 {
        sprod.wrapping_add(addend)
    } else {
        uprod.wrapping_add(cpu.regs[dhi as int] as u64).wrapping_add(cpu.regs[dlo as int] as u64)
    }
}

/// Long multiplies: RdLo and RdHi get the halves of the product (RdHi wins
/// when they are the same register); N and Z from the 64-bit value when S
/// is set (never for UMAAL).
pub open spec fn long_mul_step(cpu: CpuState, insn: DecodedInsn, k: int) -> (
    CpuState,
    ExecResult,
) {
    let (dlo, dhi, _, _) = mull_operands(insn);
    let res = long_product(cpu, insn, k);
    let c1 = CpuState {
        regs: cpu.regs.update(dlo as int, res as u32).update(dhi as int, (res >> 32) as u32),
        ..cpu
    };
    (
        if insn.sets_flags && k != 4 {
            CpuState { cpsr: Psr { n: (res >> 63) != 0, z: res == 0, ..c1.cpsr }, ..c1 }
        } else {
            c1
        },
        ExecResult::Continue,
    )
}

/// Quotient of the signed division truncated toward zero, in 32 bits; zero
/// for a zero divisor, and the most negative value for its division by -1.
pub open spec fn sdiv_value(a: i32, b: i32) -> u32 {
    if b == 0 {
        0
    } else if a == i32::MIN && b == -1 {
        0x8000_0000
    } else {
        let q = (abs32(a) / abs32(b)) as u32;
        if (a < 0) != (b < 0) {
            (0u32).wrapping_sub(q)
        } else {
            q
        }
    }
}

/// Magnitude of a 32-bit signed value.
pub open spec fn abs32(a: i32) -> u32 {
    if a < 0 {
        (-(a as int)) as u32
    } else {
        a as u32
    }
}

/// SDIV/UDIV.
pub open spec fn div_step(cpu: CpuState, insn: DecodedInsn, signed: bool) -> (
    CpuState,
    ExecResult,
) {
    let (d, n, m) = mul_operands(insn);
    let a = reg_read(cpu, n as int);
    let b = reg_read(cpu, m as int);
    let res = if signed {
        sdiv_value(a as i32, b as i32)
    } else if b == 0 {
        0
    } else {
        a / b
    };
    write_reg(cpu, d as int, res)
}

/// Thumb NEG operands are the first two registers; A32 uses Rd and Rm.
pub open spec fn neg_step(cpu: CpuState, insn: DecodedInsn) -> (CpuState, ExecResult) {
    let (d, m) = if thumb_state(insn.state) {
        (
            super::operands::lead_reg(insn.operands@, 2, 0),
            super::operands::lead_reg(insn.operands@, 2, 1),
        )
    } else {
        (super::operands::field(insn.raw, 12), (insn.raw & 0xF) as usize)
    };
    let (res, co, ov) = awc(!reg_read(cpu, m as int), 0, true);
    let c1 = CpuState { carry_out: co, overflow: ov, ..cpu };
    let c2 = if insn.sets_flags && d != 15 {
        flags_arith(c1, res)
    } else {
        c1
    };
    write_reg(c2, d as int, res)
}

/// MOVW: Rd = imm4:imm12 (a write of R15 is a plain register write).
pub open spec fn movw_step(cpu: CpuState, insn: DecodedInsn) -> (CpuState, ExecResult) {
    let raw = insn.raw;
    let imm16 = (((raw >> 16) & 0xF) << 12) | (raw & 0xFFF);
    (
        CpuState { regs: cpu.regs.update(super::operands::field(raw, 12) as int, imm16), ..cpu },
        ExecResult::Continue,
    )
}

/// MOVT: the top half of Rd = imm16, the low half kept.
pub open spec fn movt_step(cpu: CpuState, insn: DecodedInsn) -> (CpuState, ExecResult) {
    let raw = insn.raw;
    let ops = insn.operands@;
    let (d, imm16) = if thumb_state(insn.state) {
        (
            super::operands::lead_reg(ops, 1, 0),
            if ops.len() > 0 && ops.last() is Imm {
                (ops.last()->Imm_0.value as u32) & 0xFFFF
            } else {
                0
            },
        )
    } else {
        (super::operands::field(raw, 12), (((raw >> 16) & 0xF) << 12) | (raw & 0xFFF))
    };
    (
        CpuState {
            regs: cpu.regs.update(d as int, (cpu.regs[d as int] & 0xFFFF) | (imm16 << 16)),
            ..cpu
        },
        ExecResult::Continue,
    )
}

// ============================================================================
// Handlers
// ============================================================================

impl<M: ArmMemory> Executor<M> {
    /// AddWithCarry-based data-processing instruction.
    fn exec_arith(
        &mut self,
        insn: &DecodedInsn,
        invert_n: bool,
        invert_op2: bool,
        carry_in: Option<bool>,
    ) -> (r: ExecResult)
        requires
            insn_ok(*insn),
        ensures
            regs_step(
                *old(self),
                *final(self),
                r,
                arith_step(old(self).cpu@, *insn, invert_n, invert_op2, carry_in),
            ),
    {
        let cin = match carry_in {
            Some(b) => b,
            None => self.cpu.cpsr.c,
        };
        let (d, n, operand2) = self.decode_dp_operands(insn);
        let rn = self.reg(n);
        let x = if invert_n {
            !rn
        } else {
            rn
        };
        let y = if invert_op2 {
            !operand2
        } else {
            operand2
        };
        let result = self.cpu.add_with_carry(x, y, cin);

        if insn.sets_flags && d != 15 {
            self.set_flags_arithmetic(result);
        }
        self.set_reg_with_s(d, result, insn.sets_flags)
    }

    pub(crate) fn exec_add(&mut self, insn: &DecodedInsn) -> (r: ExecResult)
        requires
            insn_ok(*insn),
        ensures
            regs_step(
                *old(self),
                *final(self),
                r,
                arith_step(old(self).cpu@, *insn, false, false, Some(false)),
            ),
    {
        self.exec_arith(insn, false, false, Some(false))
    }

    pub(crate) fn exec_adc(&mut self, insn: &DecodedInsn) -> (r: ExecResult)
        requires
            insn_ok(*insn),
        ensures
            regs_step(
                *old(self),
                *final(self),
                r,
                arith_step(old(self).cpu@, *insn, false, false, None),
            ),
    {
        self.exec_arith(insn, false, false, None)
    }

    pub(crate) fn exec_sub(&mut self, insn: &DecodedInsn) -> (r: ExecResult)
        requires
            insn_ok(*insn),
        ensures
            regs_step(
                *old(self),
                *final(self),
                r,
                arith_step(old(self).cpu@, *insn, false, true, Some(true)),
            ),
    {
        self.exec_arith(insn, false, true, Some(true))
    }

    pub(crate) fn exec_sbc(&mut self, insn: &DecodedInsn) -> (r: ExecResult)
        requires
            insn_ok(*insn),
        ensures
            regs_step(
                *old(self),
                *final(self),
                r,
                arith_step(old(self).cpu@, *insn, false, true, None),
            ),
    {
        self.exec_arith(insn, false, true, None)
    }

    pub(crate) fn exec_rsb(&mut self, insn: &DecodedInsn) -> (r: ExecResult)
        requires
            insn_ok(*insn),
        ensures
            regs_step(
                *old(self),
                *final(self),
                r,
                arith_step(old(self).cpu@, *insn, true, false, Some(true)),
            ),
    {
        self.exec_arith(insn, true, false, Some(true))
    }

    pub(crate) fn exec_rsc(&mut self, insn: &DecodedInsn) -> (r: ExecResult)
        requires
            insn_ok(*insn),
        ensures
            regs_step(
                *old(self),
                *final(self),
                r,
                arith_step(old(self).cpu@, *insn, true, false, None),
            ),
    {
        self.exec_arith(insn, true, false, None)
    }

    pub(crate) fn exec_neg(&mut self, insn: &DecodedInsn) -> (r: ExecResult)
        requires
            insn_ok(*insn),
        ensures
            regs_step(*old(self), *final(self), r, neg_step(old(self).cpu@, *insn)),
    {
        proof {
            lemma_mask_bounds();
        }
        // NEG Rd, Rm is RSB Rd, Rm, #0
        let (d, m) = if insn.state.is_thumb() {
            let (r, _) = Self::thumb_reg_ops(insn, 2);
            (r[0], r[1])
        } else {
            (((insn.raw >> 12) & 0xF) as usize, (insn.raw & 0xF) as usize)
        };
        let rm = self.reg(m);
        let result = self.cpu.add_with_carry(!rm, 0, true);

        if insn.sets_flags && d != 15 {
            self.set_flags_arithmetic(result);
        }
        self.set_reg(d, result)
    }

    /// Logical data-processing instruction `k` (see `logic_value`).
    fn exec_logic(&mut self, insn: &DecodedInsn, k: u8) -> (r: ExecResult)
        requires
            insn_ok(*insn),
        ensures
            regs_step(*old(self), *final(self), r, logic_step(old(self).cpu@, *insn, k as int)),
    {
        let (d, n, operand2) = self.decode_dp_operands(insn);
        let rn = self.reg(n);
        let result = match k {
            0 => rn & operand2,
            1 => rn | operand2,
            2 => rn ^ operand2,
            3 => rn & !operand2,
            4 => rn | !operand2,
            5 => operand2,
            _ => !operand2,
        };

        if insn.sets_flags && d != 15 {
            self.set_flags_logical(result);
        }
        if k == 5 {
            self.set_reg_with_s(d, result, insn.sets_flags)
        } else {
            self.set_reg(d, result)
        }
    }

    pub(crate) fn exec_and(&mut self, insn: &DecodedInsn) -> (r: ExecResult)
        requires
            insn_ok(*insn),
        ensures
            regs_step(*old(self), *final(self), r, logic_step(old(self).cpu@, *insn, 0)),
    {
        self.exec_logic(insn, 0)
    }

    pub(crate) fn exec_orr(&mut self, insn: &DecodedInsn) -> (r: ExecResult)
        requires
            insn_ok(*insn),
        ensures
            regs_step(*old(self), *final(self), r, logic_step(old(self).cpu@, *insn, 1)),
    {
        self.exec_logic(insn, 1)
    }

    pub(crate) fn exec_eor(&mut self, insn: &DecodedInsn) -> (r: ExecResult)
        requires
            insn_ok(*insn),
        ensures
            regs_step(*old(self), *final(self), r, logic_step(old(self).cpu@, *insn, 2)),
    {
        self.exec_logic(insn, 2)
    }

    pub(crate) fn exec_bic(&mut self, insn: &DecodedInsn) -> (r: ExecResult)
        requires
            insn_ok(*insn),
        ensures
            regs_step(*old(self), *final(self), r, logic_step(old(self).cpu@, *insn, 3)),
    {
        self.exec_logic(insn, 3)
    }

    pub(crate) fn exec_orn(&mut self, insn: &DecodedInsn) -> (r: ExecResult)
        requires
            insn_ok(*insn),
        ensures
            regs_step(*old(self), *final(self), r, logic_step(old(self).cpu@, *insn, 4)),
    {
        self.exec_logic(insn, 4)
    }

    pub(crate) fn exec_mov(&mut self, insn: &DecodedInsn) -> (r: ExecResult)
        requires
            insn_ok(*insn),
        ensures
            regs_step(*old(self), *final(self), r, logic_step(old(self).cpu@, *insn, 5)),
    {
        self.exec_logic(insn, 5)
    }

    pub(crate) fn exec_mvn(&mut self, insn: &DecodedInsn) -> (r: ExecResult)
        requires
            insn_ok(*insn),
        ensures
            regs_step(*old(self), *final(self), r, logic_step(old(self).cpu@, *insn, 6)),
    {
        self.exec_logic(insn, 6)
    }

    pub(crate) fn exec_movw(&mut self, insn: &DecodedInsn) -> (r: ExecResult)
        ensures
            regs_step(*old(self), *final(self), r, movw_step(old(self).cpu@, *insn)),
    {
        proof {
            lemma_mask_bounds();
        }
        let d = ((insn.raw >> 12) & 0xF) as usize;
        let imm4 = (insn.raw >> 16) & 0xF;
        let imm12 = insn.raw & 0xFFF;
        let imm16 = (imm4 << 12) | imm12;
        self.cpu.regs[d] = imm16;
        ExecResult::Continue
    }

    pub(crate) fn exec_movt(&mut self, insn: &DecodedInsn) -> (r: ExecResult)
        requires
            insn_ok(*insn),
        ensures
            regs_step(*old(self), *final(self), r, movt_step(old(self).cpu@, *insn)),
    {
        proof {
            lemma_mask_bounds();
        }
        let (d, imm16) = if insn.state.is_thumb() {
            let (r, _) = Self::thumb_reg_ops(insn, 1);
            let len = insn.operands.len();
            let imm = if len > 0 {
                match insn.operands[len - 1] {
                    Operand::Imm(i) => (i.value as u32) & 0xFFFF,
                    _ => 0,
                }
            } else {
                0
            };
            (r[0], imm)
        } else {
            let imm4 = (insn.raw >> 16) & 0xF;
            let imm12 = insn.raw & 0xFFF;
            (((insn.raw >> 12) & 0xF) as usize, (imm4 << 12) | imm12)
        };
        self.cpu.regs[d] = (self.cpu.regs[d] & 0xFFFF) | (imm16 << 16);
        ExecResult::Continue
    }

    // =========================================================================
    // Data Processing - Compare
    // =========================================================================

    fn exec_compare(&mut self, insn: &DecodedInsn, negate: bool) -> (r: ExecResult)
        requires
            insn_ok(*insn),
        ensures
            regs_step(*old(self), *final(self), r, compare_step(old(self).cpu@, *insn, negate)),
    {
        let (_, n, operand2) = self.decode_dp_operands(insn);
        let rn = self.reg(n);
        let result = if negate {
            self.cpu.add_with_carry(rn, !operand2, true)
        } else {
            self.cpu.add_with_carry(rn, operand2, false)
        };
        self.set_flags_arithmetic(result);
        ExecResult::Continue
    }

    pub(crate) fn exec_cmp(&mut self, insn: &DecodedInsn) -> (r: ExecResult)
        requires
            insn_ok(*insn),
        ensures
            regs_step(*old(self), *final(self), r, compare_step(old(self).cpu@, *insn, true)),
    {
        self.exec_compare(insn, true)
    }

    pub(crate) fn exec_cmn(&mut self, insn: &DecodedInsn) -> (r: ExecResult)
        requires
            insn_ok(*insn),
        ensures
            regs_step(*old(self), *final(self), r, compare_step(old(self).cpu@, *insn, false)),
    {
        self.exec_compare(insn, false)
    }

    fn exec_test(&mut self, insn: &DecodedInsn, xor: bool) -> (r: ExecResult)
        requires
            insn_ok(*insn),
        ensures
            regs_step(*old(self), *final(self), r, test_step(old(self).cpu@, *insn, xor)),
    {
        let (_, n, operand2) = self.decode_dp_operands(insn);
        let rn = self.reg(n);
        let result = if xor {
            rn ^ operand2
        } else {
            rn & operand2
        };
        self.set_flags_logical(result);
        ExecResult::Continue
    }

    pub(crate) fn exec_tst(&mut self, insn: &DecodedInsn) -> (r: ExecResult)
        requires
            insn_ok(*insn),
        ensures
            regs_step(*old(self), *final(self), r, test_step(old(self).cpu@, *insn, false)),
    {
        self.exec_test(insn, false)
    }

    pub(crate) fn exec_teq(&mut self, insn: &DecodedInsn) -> (r: ExecResult)
        requires
            insn_ok(*insn),
        ensures
            regs_step(*old(self), *final(self), r, test_step(old(self).cpu@, *insn, true)),
    {
        self.exec_test(insn, true)
    }

    // =========================================================================
    // Data Processing - Shift
    // =========================================================================

    fn exec_shift(&mut self, insn: &DecodedInsn, st: ShiftType, rrx: bool) -> (r: ExecResult)
        requires
            insn_ok(*insn),
        ensures
            regs_step(*old(self), *final(self), r, shift_step(old(self).cpu@, *insn, st, rrx)),
    {
        let (d, m, shift_amount) = self.decode_shift_operands(insn);
        let amount = if rrx {
            1
        } else {
            shift_amount
        };
        let rm = self.reg(m);
        let result = self.cpu.shift_c(rm, st, amount);

        if insn.sets_flags && d != 15 {
            self.set_flags_logical(result);
        }
        self.set_reg(d, result)
    }

    pub(crate) fn exec_lsl(&mut self, insn: &DecodedInsn) -> (r: ExecResult)
        requires
            insn_ok(*insn),
        ensures
            regs_step(
                *old(self),
                *final(self),
                r,
                shift_step(old(self).cpu@, *insn, ShiftType::LSL, false),
            ),
    {
        self.exec_shift(insn, ShiftType::LSL, false)
    }

    pub(crate) fn exec_lsr(&mut self, insn: &DecodedInsn) -> (r: ExecResult)
        requires
            insn_ok(*insn),
        ensures
            regs_step(
                *old(self),
                *final(self),
                r,
                shift_step(old(self).cpu@, *insn, ShiftType::LSR, false),
            ),
    {
        self.exec_shift(insn, ShiftType::LSR, false)
    }

    pub(crate) fn exec_asr(&mut self, insn: &DecodedInsn) -> (r: ExecResult)
        requires
            insn_ok(*insn),
        ensures
            regs_step(
                *old(self),
                *final(self),
                r,
                shift_step(old(self).cpu@, *insn, ShiftType::ASR, false),
            ),
    {
        self.exec_shift(insn, ShiftType::ASR, false)
    }

    pub(crate) fn exec_ror(&mut self, insn: &DecodedInsn) -> (r: ExecResult)
        requires
            insn_ok(*insn),
        ensures
            regs_step(
                *old(self),
                *final(self),
                r,
                shift_step(old(self).cpu@, *insn, ShiftType::ROR, false),
            ),
    {
        self.exec_shift(insn, ShiftType::ROR, false)
    }

    pub(crate) fn exec_rrx(&mut self, insn: &DecodedInsn) -> (r: ExecResult)
        requires
            insn_ok(*insn),
        ensures
            regs_step(
                *old(self),
                *final(self),
                r,
                shift_step(old(self).cpu@, *insn, ShiftType::RRX, true),
            ),
    {
        self.exec_shift(insn, ShiftType::RRX, true)
    }

    // =========================================================================
    // Multiply Operations
    // =========================================================================

    fn set_nz32(&mut self, s: bool, result: u32)
        ensures
            regs_step(
                *old(self),
                *final(self),
                ExecResult::Continue,
                (nz32(old(self).cpu@, s, result), ExecResult::Continue),
            ),
    {
        if s {
            self.cpu.cpsr.n = compute_n_flag(result);
            self.cpu.cpsr.z = compute_z_flag(result);
        }
    }

    pub(crate) fn exec_mul(&mut self, insn: &DecodedInsn) -> (r: ExecResult)
        requires
            insn_ok(*insn),
        ensures
            regs_step(*old(self), *final(self), r, mul_step(old(self).cpu@, *insn, 0)),
    {
        let (d, n, m) = self.decode_mul_operands(insn);
        let result = self.reg(n).wrapping_mul(self.reg(m));
        self.set_nz32(insn.sets_flags, result);
        self.set_reg(d, result)
    }

    pub(crate) fn exec_mla(&mut self, insn: &DecodedInsn) -> (r: ExecResult)
        requires
            insn_ok(*insn),
        ensures
            regs_step(*old(self), *final(self), r, mul_step(old(self).cpu@, *insn, 1)),
    {
        let (d, n, m, a) = self.decode_mla_operands(insn);
        let result = self.reg(n).wrapping_mul(self.reg(m)).wrapping_add(self.reg(a));
        self.set_nz32(insn.sets_flags, result);
        self.set_reg(d, result)
    }

    pub(crate) fn exec_mls(&mut self, insn: &DecodedInsn) -> (r: ExecResult)
        requires
            insn_ok(*insn),
        ensures
            regs_step(*old(self), *final(self), r, mul_step(old(self).cpu@, *insn, 2)),
    {
        let (d, n, m, a) = self.decode_mla_operands(insn);
        let result = self.reg(a).wrapping_sub(self.reg(n).wrapping_mul(self.reg(m)));
        self.set_reg(d, result)
    }

    /// Long multiply `k` (see `long_product`).
    fn exec_long_mul(&mut self, insn: &DecodedInsn, k: u8) -> (r: ExecResult)
        requires
            insn_ok(*insn),
        ensures
            regs_step(*old(self), *final(self), r, long_mul_step(old(self).cpu@, *insn, k as int)),
    {
        let (dlo, dhi, n, m) = self.decode_mull_operands(insn);
        let ghost c0 = self.cpu@;
        let result = Self::long_product(
            self.reg(n),
            self.reg(m),
            self.cpu.regs[dlo],
            self.cpu.regs[dhi],
            k,
        );
        assert(result == long_product(c0, *insn, k as int));

        self.cpu.regs[dlo] = result as u32;
        self.cpu.regs[dhi] = (result >> 32) as u32;
        assert(self.cpu.regs@ =~= c0.regs.update(dlo as int, result as u32).update(
            dhi as int,
            (result >> 32) as u32,
        ));

        if insn.sets_flags && k != 4 {
            self.cpu.cpsr.n = (result >> 63) != 0;
            self.cpu.cpsr.z = result == 0;
        }
        ExecResult::Continue
    }

    /// The 64-bit product of a long multiply with accumulator `hi:lo`.
    fn long_product(rn: u32, rm: u32, lo: u32, hi: u32, k: u8) -> (r: u64)
        ensures
            r == ({
                let addend = ((hi as u64) << 32) | (lo as u64);
                let uprod = (rn as u64).wrapping_mul(rm as u64);
                let sprod = ((rn as i32) as i64).wrapping_mul((rm as i32) as i64) as u64;
                if k == 0 {
                    uprod
                } else if k == 1 {
                    sprod
                } else if k == 2 {
                    uprod.wrapping_add(addend)
                } else if k == 3 {
                    sprod.wrapping_add(addend)
                } else {
                    uprod.wrapping_add(hi as u64).wrapping_add(lo as u64)
                }
            }),
    {
        let addend = ((hi as u64) << 32) | (lo as u64);
        let uprod = (rn as u64).wrapping_mul(rm as u64);
        let sprod = ((rn as i32) as i64).wrapping_mul((rm as i32) as i64) as u64;
        match k {
            0 => uprod,
            1 => sprod,
            2 => uprod.wrapping_add(addend),
            3 => sprod.wrapping_add(addend),
            _ => uprod.wrapping_add(hi as u64).wrapping_add(lo as u64),
        }
    }

    pub(crate) fn exec_umull(&mut self, insn: &DecodedInsn) -> (r: ExecResult)
        requires
            insn_ok(*insn),
        ensures
            regs_step(*old(self), *final(self), r, long_mul_step(old(self).cpu@, *insn, 0)),
    {
        self.exec_long_mul(insn, 0)
    }

    pub(crate) fn exec_smull(&mut self, insn: &DecodedInsn) -> (r: ExecResult)
        requires
            insn_ok(*insn),
        ensures
            regs_step(*old(self), *final(self), r, long_mul_step(old(self).cpu@, *insn, 1)),
    {
        self.exec_long_mul(insn, 1)
    }

    pub(crate) fn exec_umlal(&mut self, insn: &DecodedInsn) -> (r: ExecResult)
        requires
            insn_ok(*insn),
        ensures
            regs_step(*old(self), *final(self), r, long_mul_step(old(self).cpu@, *insn, 2)),
    {
        self.exec_long_mul(insn, 2)
    }

    pub(crate) fn exec_smlal(&mut self, insn: &DecodedInsn) -> (r: ExecResult)
        requires
            insn_ok(*insn),
        ensures
            regs_step(*old(self), *final(self), r, long_mul_step(old(self).cpu@, *insn, 3)),
    {
        self.exec_long_mul(insn, 3)
    }

    /// UMAAL: RdHi:RdLo = Rn*Rm + RdHi + RdLo (all unsigned). No flags.
    pub(crate) fn exec_umaal(&mut self, insn: &DecodedInsn) -> (r: ExecResult)
        requires
            insn_ok(*insn),
        ensures
            regs_step(*old(self), *final(self), r, long_mul_step(old(self).cpu@, *insn, 4)),
    {
        self.exec_long_mul(insn, 4)
    }

    pub(crate) fn exec_sdiv(&mut self, insn: &DecodedInsn) -> (r: ExecResult)
        requires
            insn_ok(*insn),
        ensures
            regs_step(*old(self), *final(self), r, div_step(old(self).cpu@, *insn, true)),
    {
        let (d, n, m) = self.decode_mul_operands(insn);

        let dividend = self.reg(n) as i32;
        let divisor = self.reg(m) as i32;

        let result = if divisor == 0 {
            0  // Division by zero returns 0 in ARM
        } else if dividend == i32::MIN && divisor == -1 {
            0x8000_0000  // Overflow case
        } else {
            // Quotient truncated toward zero.
            let a = if dividend < 0 {
                (-(dividend as i64)) as u32
            } else {
                dividend as u32
            };
            let b = if divisor < 0 {
                (-(divisor as i64)) as u32
            } else {
                divisor as u32
            };
            let q = a / b;
            if (dividend < 0) != (divisor < 0) {
                (0u32).wrapping_sub(q)
            } else {
                q
            }
        };

        self.set_reg(d, result)
    }

    pub(crate) fn exec_udiv(&mut self, insn: &DecodedInsn) -> (r: ExecResult)
        requires
            insn_ok(*insn),
        ensures
            regs_step(*old(self), *final(self), r, div_step(old(self).cpu@, *insn, false)),
    {
        let (d, n, m) = self.decode_mul_operands(insn);

        let dividend = self.reg(n);
        let divisor = self.reg(m);

        let result = if divisor == 0 {
            0
        } else {
            dividend / divisor
        };

        self.set_reg(d, result)
    }
}

} // verus!
