//! Bit manipulation, bit field, extension and saturation instructions.

use super::operands::{dm_operands, field, insn_ok};
use super::{regs_step, write_reg, ExecResult, Executor};
use crate::arm::decoder::aarch32::{ror32, rotate_right};
use crate::arm::decoder::{thumb_state, DecodedInsn, ShiftType};
use crate::arm::execution::{
    lemma_mask_bounds, reg_read, sext, shift_c, shift_spec, sign_extend, ArmMemory, CpuState, Psr,
};
use vstd::prelude::*;

verus! {

/// The bytes of a word in reverse order.
pub open spec fn bswap32(v: u32) -> u32 {
    ((v & 0xFF) << 24) | ((v & 0xFF00) << 8) | ((v >> 8) & 0xFF00) | (v >> 24)
}

/// The low `i` bits of `v`, reversed, as an `i`-bit value.
pub open spec fn rbit_low(v: u32, i: nat) -> u32
    decreases i,
{
    if i == 0 {
        0
    } else {
        (rbit_low(v, (i - 1) as nat) << 1) | ((v >> ((i - 1) as u32)) & 1)
    }
}

/// Result of the two-register bit operation `k`: 0 CLZ, 1 REV, 2 REV16,
/// 3 REVSH, 4 RBIT.
pub open spec fn bitop_value(k: int, v: u32) -> u32 {
    if k == 0 {
        v.leading_zeros()
    } else if k == 1 {
        bswap32(v)
    } else if k == 2 {
        ((v >> 8) & 0x00FF00FF) | ((v << 8) & 0xFF00FF00)
    } else if k == 3 {
        sext((((v & 0xFF) << 8) | ((v >> 8) & 0xFF)) & 0xFFFF, 16)
    } else {
        rbit_low(v, 32)
    }
}

/// CLZ/REV/REV16/REVSH/RBIT: Rd = op(Rm).
pub open spec fn bitop_step(cpu: CpuState, insn: DecodedInsn, k: int) -> (CpuState, ExecResult) {
    let (d, m) = dm_operands(insn);
    write_reg(cpu, d as int, bitop_value(k, reg_read(cpu, m as int)))
}

/// Bit field fields `(Rd, Rn, lsb, msb or width-1)`.
pub open spec fn bitfield_spec(insn: DecodedInsn) -> (usize, usize, u32, u32) {
    let raw = insn.raw;
    if thumb_state(insn.state) {
        (field(raw, 8), field(raw, 16), (((raw >> 12) & 0x7) << 2) | ((raw >> 6) & 0x3), raw & 0x1F)
    } else {
        (field(raw, 12), (raw & 0xF) as usize, (raw >> 7) & 0x1F, (raw >> 16) & 0x1F)
    }
}

/// Mask of bits `lsb..=msb`.
pub open spec fn field_mask(lsb: u32, msb: u32) -> u32 {
    (((1u64 << ((msb - lsb + 1) as u64)) - 1) as u32) << lsb
}

/// BFC (`insert` false) / BFI: clear bits lsb..=msb of Rd, or insert the
/// low bits of Rn there; nothing when msb < lsb. Rd is written directly.
pub open spec fn bitfield_insert_step(cpu: CpuState, insn: DecodedInsn, insert: bool) -> (
    CpuState,
    ExecResult,
) {
    let (d, n, lsb, msb) = bitfield_spec(insn);
    if msb < lsb {
        (cpu, ExecResult::Continue)
    } else {
        let mask = field_mask(lsb, msb);
        let v = if insert {
            (cpu.regs[d as int] & !mask) | ((reg_read(cpu, n as int) << lsb) & mask)
        } else {
            cpu.regs[d as int] & !mask
        };
        (CpuState { regs: cpu.regs.update(d as int, v), ..cpu }, ExecResult::Continue)
    }
}

/// UBFX / SBFX (`signed`): width-bit field of Rn at lsb, zero- or
/// sign-extended.
pub open spec fn bitfield_extract_step(cpu: CpuState, insn: DecodedInsn, signed: bool) -> (
    CpuState,
    ExecResult,
) {
    let (d, n, lsb, w) = bitfield_spec(insn);
    let width = w + 1;
    let mask = ((1u64 << (width as u64)) - 1) as u32;
    let extracted = (reg_read(cpu, n as int) >> lsb) & mask;
    write_reg(
        cpu,
        d as int,
        if signed {
            sext(extracted, width as u32)
        } else {
            extracted
        },
    )
}

/// SXTB/SXTH/UXTB/UXTH (`k` 0..3): Rm rotated right by 8*rot (A32 only),
/// then the low byte or halfword sign- or zero-extended.
pub open spec fn extend_step(cpu: CpuState, insn: DecodedInsn, k: int) -> (CpuState, ExecResult) {
    let (d, m) = dm_operands(insn);
    let rotation: u32 = if thumb_state(insn.state) {
        0
    } else {
        (((insn.raw >> 10) & 3) * 8) as u32
    };
    let rotated = ror32(reg_read(cpu, m as int), rotation);
    write_reg(
        cpu,
        d as int,
        if k == 0 {
            sext(rotated & 0xFF, 8)
        } else if k == 1 {
            sext(rotated & 0xFFFF, 16)
        } else if k == 2 {
            rotated & 0xFF
        } else {
            rotated & 0xFFFF
        },
    )
}

/// Saturate fields `(Rd, Rn, sat_imm, sh, imm5)`.
pub open spec fn sat_spec(insn: DecodedInsn) -> (usize, usize, u32, bool, u32) {
    let raw = insn.raw;
    if thumb_state(insn.state) {
        (
            field(raw, 8),
            field(raw, 16),
            raw & 0x1F,
            (raw >> 21) & 1 != 0,
            (((raw >> 12) & 0x7) << 2) | ((raw >> 6) & 0x3),
        )
    } else {
        (field(raw, 12), (raw & 0xF) as usize, (raw >> 16) & 0x1F, (raw >> 6) & 1 != 0, (raw >> 7)
            & 0x1F)
    }
}

/// The shifted operand of USAT/SSAT.
pub open spec fn sat_operand(cpu: CpuState, insn: DecodedInsn) -> u32 {
    let (_, n, _, sh, imm5) = sat_spec(insn);
    shift_spec(
        reg_read(cpu, n as int),
        if sh {
            ShiftType::ASR
        } else {
            ShiftType::LSL
        },
        if imm5 == 0 && sh {
            32
        } else {
            imm5
        },
        false,
    ).0
}

/// The state with the Q flag set.
pub open spec fn with_q(cpu: CpuState) -> CpuState {
    CpuState { cpsr: Psr { q: true, ..cpu.cpsr }, ..cpu }
}

/// Unsigned saturation to `sat_imm` bits: (value, whether clamped).
pub open spec fn usat_value_spec(operand: u32, sat_imm: u32) -> (u32, bool) {
    let max_val = (1u32 << sat_imm).saturating_sub(1);
    if (operand as i32) < 0 {
        (0u32, true)
    } else if operand > max_val {
        (max_val, true)
    } else {
        (operand, false)
    }
}

/// Signed saturation to `sat_imm` bits: (value, whether clamped).
pub open spec fn ssat_value_spec(operand: i32, sat_imm: u32) -> (u32, bool) {
    let max_val = (1i64 << ((sat_imm - 1) as u64)) - 1;
    let min_val = -(1i64 << ((sat_imm - 1) as u64));
    if operand > max_val {
        (max_val as u32, true)
    } else if operand < min_val {
        (min_val as u32, true)
    } else {
        (operand as u32, false)
    }
}

/// USAT: the operand clamped to 0..2^sat-1, Q set when clamped.
pub open spec fn usat_step(cpu: CpuState, insn: DecodedInsn) -> (CpuState, ExecResult) {
    let (d, _, sat_imm, _, _) = sat_spec(insn);
    let (v, clamped) = usat_value_spec(sat_operand(cpu, insn), sat_imm);
    write_reg(if clamped {
        with_q(cpu)
    } else {
        cpu
    }, d as int, v)
}

/// SSAT: the signed operand clamped to -2^(n-1)..2^(n-1)-1 with n the
/// field plus one, Q set when clamped.
pub open spec fn ssat_step(cpu: CpuState, insn: DecodedInsn) -> (CpuState, ExecResult) {
    let (d, _, sat0, _, _) = sat_spec(insn);
    let (v, clamped) = ssat_value_spec(sat_operand(cpu, insn) as i32, (sat0 + 1) as u32);
    write_reg(if clamped {
        with_q(cpu)
    } else {
        cpu
    }, d as int, v)
}

impl<M: ArmMemory> Executor<M> {
    /// Two-register bit operation `k` (see `bitop_value`).
    fn exec_bitop(&mut self, insn: &DecodedInsn, k: u8) -> (r: ExecResult)
        requires
            insn_ok(*insn),
        ensures
            regs_step(*old(self), *final(self), r, bitop_step(old(self).cpu@, *insn, k as int)),
    {
        let (d, m) = self.dm_ops(insn);
        let v = self.reg(m);
        let result = match k {
            0 => v.leading_zeros(),
            1 => ((v & 0xFF) << 24) | ((v & 0xFF00) << 8) | ((v >> 8) & 0xFF00) | (v >> 24),
            2 => ((v >> 8) & 0x00FF00FF) | ((v << 8) & 0xFF00FF00),
            3 => {
                // Byte-reverse the low halfword and sign-extend
                let lo = ((v & 0xFF) << 8) | ((v >> 8) & 0xFF);
                sign_extend(lo & 0xFFFF, 16)
            },
            _ => Self::reverse_bits(v),
        };
        self.set_reg(d, result)
    }

    /// Bit reversal of a word.
    fn reverse_bits(v: u32) -> (r: u32)
        ensures
            r == rbit_low(v, 32),
    {
        let mut acc: u32 = 0;
        let mut i: u32 = 0;
        while i < 32
            invariant
                i <= 32,
                acc == rbit_low(v, i as nat),
            decreases 32 - i,
        {
            acc = (acc << 1) | ((v >> i) & 1);
            i += 1;
        }
        acc
    }

    pub(crate) fn exec_clz(&mut self, insn: &DecodedInsn) -> (r: ExecResult)
        requires
            insn_ok(*insn),
        ensures
            regs_step(*old(self), *final(self), r, bitop_step(old(self).cpu@, *insn, 0)),
    {
        self.exec_bitop(insn, 0)
    }

    pub(crate) fn exec_rev(&mut self, insn: &DecodedInsn) -> (r: ExecResult)
        requires
            insn_ok(*insn),
        ensures
            regs_step(*old(self), *final(self), r, bitop_step(old(self).cpu@, *insn, 1)),
    {
        self.exec_bitop(insn, 1)
    }

    pub(crate) fn exec_rev16(&mut self, insn: &DecodedInsn) -> (r: ExecResult)
        requires
            insn_ok(*insn),
        ensures
            regs_step(*old(self), *final(self), r, bitop_step(old(self).cpu@, *insn, 2)),
    {
        self.exec_bitop(insn, 2)
    }

    pub(crate) fn exec_revsh(&mut self, insn: &DecodedInsn) -> (r: ExecResult)
        requires
            insn_ok(*insn),
        ensures
            regs_step(*old(self), *final(self), r, bitop_step(old(self).cpu@, *insn, 3)),
    {
        self.exec_bitop(insn, 3)
    }

    pub(crate) fn exec_rbit(&mut self, insn: &DecodedInsn) -> (r: ExecResult)
        requires
            insn_ok(*insn),
        ensures
            regs_step(*old(self), *final(self), r, bitop_step(old(self).cpu@, *insn, 4)),
    {
        self.exec_bitop(insn, 4)
    }

    // =========================================================================
    // Bit Field Operations
    // =========================================================================

    /// Bitfield instruction fields (Rd, Rn, lsb, five) where `five` is the
    /// width-minus-1 (SBFX/UBFX) or msb (BFI/BFC) field. Handles A32 and T32.
    fn bitfield_fields(&self, insn: &DecodedInsn) -> (r: (usize, usize, u32, u32))
        ensures
            r == bitfield_spec(*insn),
            r.0 < 16,
            r.1 < 16,
            r.2 < 32,
            r.3 < 32,
    {
        proof {
            lemma_mask_bounds();
        }
        let raw = insn.raw;
        if insn.state.is_thumb() {
            let d = ((raw >> 8) & 0xF) as usize;
            let n = ((raw >> 16) & 0xF) as usize;
            let lsb = (((raw >> 12) & 0x7) << 2) | ((raw >> 6) & 0x3);
            (d, n, lsb, raw & 0x1F)
        } else {
            let d = ((raw >> 12) & 0xF) as usize;
            let n = (raw & 0xF) as usize;
            (d, n, (raw >> 7) & 0x1F, (raw >> 16) & 0x1F)
        }
    }

    fn exec_bitfield_insert(&mut self, insn: &DecodedInsn, insert: bool) -> (r: ExecResult)
        ensures
            regs_step(
                *old(self),
                *final(self),
                r,
                bitfield_insert_step(old(self).cpu@, *insn, insert),
            ),
    {
        proof {
            lemma_mask_bounds();
        }
        let (d, n, lsb, msb) = self.bitfield_fields(insn);
        if msb < lsb {
            return ExecResult::Continue;
        }
        let width = msb - lsb + 1;
        let mask = (((1u64 << (width as u64)) - 1) as u32) << lsb;
        if insert {
            let src = (self.reg(n) << lsb) & mask;
            self.cpu.regs[d] = (self.cpu.regs[d] & !mask) | src;
        } else {
            self.cpu.regs[d] = self.cpu.regs[d] & !mask;
        }
        ExecResult::Continue
    }

    pub(crate) fn exec_bfc(&mut self, insn: &DecodedInsn) -> (r: ExecResult)
        ensures
            regs_step(
                *old(self),
                *final(self),
                r,
                bitfield_insert_step(old(self).cpu@, *insn, false),
            ),
    {
        self.exec_bitfield_insert(insn, false)
    }

    pub(crate) fn exec_bfi(&mut self, insn: &DecodedInsn) -> (r: ExecResult)
        ensures
            regs_step(
                *old(self),
                *final(self),
                r,
                bitfield_insert_step(old(self).cpu@, *insn, true),
            ),
    {
        self.exec_bitfield_insert(insn, true)
    }

    fn exec_bitfield_extract(&mut self, insn: &DecodedInsn, signed: bool) -> (r: ExecResult)
        ensures
            regs_step(
                *old(self),
                *final(self),
                r,
                bitfield_extract_step(old(self).cpu@, *insn, signed),
            ),
    {
        proof {
            lemma_mask_bounds();
        }
        let (d, n, lsb, w) = self.bitfield_fields(insn);
        let width = w + 1;
        let mask = ((1u64 << (width as u64)) - 1) as u32;
        let extracted = (self.reg(n) >> lsb) & mask;
        let result = if signed {
            sign_extend(extracted, width)
        } else {
            extracted
        };
        self.set_reg(d, result)
    }

    pub(crate) fn exec_ubfx(&mut self, insn: &DecodedInsn) -> (r: ExecResult)
        ensures
            regs_step(
                *old(self),
                *final(self),
                r,
                bitfield_extract_step(old(self).cpu@, *insn, false),
            ),
    {
        self.exec_bitfield_extract(insn, false)
    }

    pub(crate) fn exec_sbfx(&mut self, insn: &DecodedInsn) -> (r: ExecResult)
        ensures
            regs_step(
                *old(self),
                *final(self),
                r,
                bitfield_extract_step(old(self).cpu@, *insn, true),
            ),
    {
        self.exec_bitfield_extract(insn, true)
    }

    // =========================================================================
    // Extension Operations
    // =========================================================================

    /// Sign/zero extension `k` (see `extend_step`).
    fn exec_extend(&mut self, insn: &DecodedInsn, k: u8) -> (r: ExecResult)
        requires
            insn_ok(*insn),
        ensures
            regs_step(*old(self), *final(self), r, extend_step(old(self).cpu@, *insn, k as int)),
    {
        proof {
            lemma_mask_bounds();
        }
        let (d, m) = self.dm_ops(insn);
        let rotation = if insn.state.is_thumb() {
            0
        } else {
            ((insn.raw >> 10) & 3) * 8
        };
        let rotated = rotate_right(self.reg(m), rotation);
        let result = match k {
            0 => sign_extend(rotated & 0xFF, 8),
            1 => sign_extend(rotated & 0xFFFF, 16),
            2 => rotated & 0xFF,
            _ => rotated & 0xFFFF,
        };
        self.set_reg(d, result)
    }

    pub(crate) fn exec_sxtb(&mut self, insn: &DecodedInsn) -> (r: ExecResult)
        requires
            insn_ok(*insn),
        ensures
            regs_step(*old(self), *final(self), r, extend_step(old(self).cpu@, *insn, 0)),
    {
        self.exec_extend(insn, 0)
    }

    pub(crate) fn exec_sxth(&mut self, insn: &DecodedInsn) -> (r: ExecResult)
        requires
            insn_ok(*insn),
        ensures
            regs_step(*old(self), *final(self), r, extend_step(old(self).cpu@, *insn, 1)),
    {
        self.exec_extend(insn, 1)
    }

    pub(crate) fn exec_uxtb(&mut self, insn: &DecodedInsn) -> (r: ExecResult)
        requires
            insn_ok(*insn),
        ensures
            regs_step(*old(self), *final(self), r, extend_step(old(self).cpu@, *insn, 2)),
    {
        self.exec_extend(insn, 2)
    }

    pub(crate) fn exec_uxth(&mut self, insn: &DecodedInsn) -> (r: ExecResult)
        requires
            insn_ok(*insn),
        ensures
            regs_step(*old(self), *final(self), r, extend_step(old(self).cpu@, *insn, 3)),
    {
        self.exec_extend(insn, 3)
    }

    // =========================================================================
    // Saturating Arithmetic
    // =========================================================================

    /// Saturate instruction fields: (Rd, Rn, sat_imm5, sh, imm5). A32/T32.
    fn sat_fields(&self, insn: &DecodedInsn) -> (r: (usize, usize, u32, bool, u32))
        ensures
            r == sat_spec(*insn),
            r.0 < 16,
            r.1 < 16,
            r.2 < 32,
            r.4 < 32,
    {
        proof {
            lemma_mask_bounds();
        }
        let raw = insn.raw;
        if insn.state.is_thumb() {
            let d = ((raw >> 8) & 0xF) as usize;
            let n = ((raw >> 16) & 0xF) as usize;
            let imm5 = (((raw >> 12) & 0x7) << 2) | ((raw >> 6) & 0x3);
            (d, n, raw & 0x1F, (raw >> 21) & 1 != 0, imm5)
        } else {
            let d = ((raw >> 12) & 0xF) as usize;
            let n = (raw & 0xF) as usize;
            (d, n, (raw >> 16) & 0x1F, (raw >> 6) & 1 != 0, (raw >> 7) & 0x1F)
        }
    }

    /// The shifted operand of USAT/SSAT.
    fn sat_input(&self, insn: &DecodedInsn) -> (r: u32)
        ensures
            r == sat_operand(self.cpu@, *insn),
    {
        let (_, n, _, sh, imm5) = self.sat_fields(insn);
        let shift_amount = if imm5 == 0 && sh {
            32
        } else {
            imm5
        };
        let shift_type = if sh {
            ShiftType::ASR
        } else {
            ShiftType::LSL
        };
        shift_c(self.reg(n), shift_type, shift_amount, false).0
    }

    pub(crate) fn exec_usat(&mut self, insn: &DecodedInsn) -> (r: ExecResult)
        ensures
            regs_step(*old(self), *final(self), r, usat_step(old(self).cpu@, *insn)),
    {
        let (d, _, sat_imm, _, _) = self.sat_fields(insn);
        let operand = self.sat_input(insn);
        let (result, saturated) = Self::usat_value(operand, sat_imm);
        if saturated {
            self.cpu.cpsr.q = true;
        }
        self.set_reg(d, result)
    }

    /// Unsigned saturation to `sat_imm` bits: (value, whether clamped).
    fn usat_value(operand: u32, sat_imm: u32) -> (r: (u32, bool))
        requires
            sat_imm < 32,
        ensures
            r == usat_value_spec(operand, sat_imm),
    {
        let max_val = (1u32 << sat_imm).saturating_sub(1);
        let signed_operand = operand as i32;
        if signed_operand < 0 {
            (0, true)
        } else if operand > max_val {
            (max_val, true)
        } else {
            (operand, false)
        }
    }

    pub(crate) fn exec_ssat(&mut self, insn: &DecodedInsn) -> (r: ExecResult)
        ensures
            regs_step(*old(self), *final(self), r, ssat_step(old(self).cpu@, *insn)),
    {
        let (d, _, sat_imm0, _, _) = self.sat_fields(insn);
        let operand = self.sat_input(insn) as i32;
        let (result, saturated) = Self::ssat_value(operand, sat_imm0 + 1);
        if saturated {
            self.cpu.cpsr.q = true;
        }
        self.set_reg(d, result)
    }

    /// Signed saturation to `sat_imm` bits: (value, whether clamped).
    fn ssat_value(operand: i32, sat_imm: u32) -> (r: (u32, bool))
        requires
            1 <= sat_imm <= 32,
        ensures
            r == ssat_value_spec(operand, sat_imm),
    {
        proof {
            lemma_mask_bounds();
        }
        let max_val = (1i64 << ((sat_imm - 1) as u64)) - 1;
        let min_val = -(1i64 << ((sat_imm - 1) as u64));
        if (operand as i64) > max_val {
            (max_val as u32, true)
        } else if (operand as i64) < min_val {
            (min_val as u32, true)
        } else {
            (operand as u32, false)
        }
    }
}

} // verus!
