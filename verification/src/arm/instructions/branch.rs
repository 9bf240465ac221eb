//! Branch and system instructions: B/BL/BX/BLX/CBZ/CBNZ, SVC, BKPT, MRS,
//! MSR, IT and the coprocessor transfers.

use super::operands::{branch_target, field, insn_ok, reg_operand};
use super::{regs_step, ExceptionType, ExecResult, Executor};
use crate::arm::decoder::DecodedInsn;
use crate::arm::execution::{
    bank_of, current_spsr, expand_imm_spec, has_spsr, lemma_mask_bounds, mode_bits, mode_of,
    mode_switched, psr_word, reg_read, expand_imm_c, ArmMemory, CpuState, ProcessorMode, Psr,
};
use vstd::prelude::*;

verus! {

/// The return address a BL/BLX stores in LR.
pub open spec fn with_link(cpu: CpuState) -> CpuState {
    CpuState { regs: cpu.regs.update(14, cpu.regs[15].wrapping_add(4)), ..cpu }
}

/// BX/BLX (register): the T bit from bit 0 of the target, a branch to the
/// target with bit 0 cleared.
pub open spec fn interworking_branch(cpu: CpuState, target: u32) -> (CpuState, ExecResult) {
    (
        CpuState { cpsr: Psr { t: (target & 1) != 0, ..cpu.cpsr }, ..cpu },
        ExecResult::Branch(target & !1u32),
    )
}

/// BX: to the register operand, undefined without one.
pub open spec fn bx_step(cpu: CpuState, insn: DecodedInsn) -> (CpuState, ExecResult) {
    match reg_operand(insn, 0) {
        Some(m) => interworking_branch(cpu, reg_read(cpu, m as int)),
        None => (cpu, ExecResult::Undefined),
    }
}

/// BLX: LR set, then to the register operand (interworking) or, when the
/// first operand is not a register, to the branch target in Thumb state.
pub open spec fn blx_step(cpu: CpuState, insn: DecodedInsn) -> (CpuState, ExecResult) {
    let c1 = with_link(cpu);
    match reg_operand(insn, 0) {
        Some(m) => interworking_branch(c1, reg_read(c1, m as int)),
        None => (
            CpuState { cpsr: Psr { t: true, ..c1.cpsr }, ..c1 },
            ExecResult::Branch(branch_target(c1, insn)),
        ),
    }
}

/// CBZ (`zero`) / CBNZ: branch when R[raw[2:0]] is (not) zero.
pub open spec fn cbz_step(cpu: CpuState, insn: DecodedInsn, zero: bool) -> (CpuState, ExecResult) {
    let v = reg_read(cpu, (insn.raw & 0x7) as int);
    if (v == 0) == zero {
        (cpu, ExecResult::Branch(branch_target(cpu, insn)))
    } else {
        (cpu, ExecResult::Continue)
    }
}

/// MRS: Rd = CPSR, or the current SPSR (undefined in User/System mode).
pub open spec fn mrs_step(cpu: CpuState, insn: DecodedInsn) -> (CpuState, ExecResult) {
    let d = field(insn.raw, 12);
    if (insn.raw >> 22) & 1 != 0 {
        match current_spsr(cpu) {
            Some(p) => (
                CpuState { regs: cpu.regs.update(d as int, psr_word(p)), ..cpu },
                ExecResult::Continue,
            ),
            None => (cpu, ExecResult::Undefined),
        }
    } else {
        (CpuState { regs: cpu.regs.update(d as int, psr_word(cpu.cpsr)), ..cpu }, ExecResult::Continue)
    }
}

/// A PSR with the fields selected by `mask` taken from `value`: bit 3 the
/// flags (NZCVQ), bit 1 E and A (A only when `a_ok`), bit 0 the control
/// field I, F, T and M.
pub open spec fn psr_masked(p: Psr, value: u32, mask: u32, a_ok: bool, ctl_ok: bool) -> Psr {
    let p1 = if (mask & 8) != 0 {
        Psr {
            n: (value >> 31) != 0,
            z: ((value >> 30) & 1) != 0,
            c: ((value >> 29) & 1) != 0,
            v: ((value >> 28) & 1) != 0,
            q: ((value >> 27) & 1) != 0,
            ..p
        }
    } else {
        p
    };
    let p2 = if (mask & 2) != 0 {
        Psr {
            e: ((value >> 9) & 1) != 0,
            a: if a_ok {
                ((value >> 8) & 1) != 0
            } else {
                p1.a
            },
            ..p1
        }
    } else {
        p1
    };
    if (mask & 1) != 0 && ctl_ok {
        Psr {
            i: ((value >> 7) & 1) != 0,
            f: ((value >> 6) & 1) != 0,
            t: ((value >> 5) & 1) != 0,
            ..p2
        }
    } else {
        p2
    }
}

/// The operand MSR writes.
pub open spec fn msr_value(cpu: CpuState, insn: DecodedInsn) -> u32 {
    if (insn.raw >> 25) & 1 != 0 {
        expand_imm_spec(insn.raw & 0xFFF, cpu.cpsr.c).0
    } else {
        reg_read(cpu, (insn.raw & 0xF) as int)
    }
}

/// MSR to the current SPSR: the masked fields (mode included with the
/// control field); nothing in User/System mode.
pub open spec fn spsr_written(cpu: CpuState, value: u32, mask: u32) -> CpuState {
    if has_spsr(cpu) {
        let b = bank_of(cpu.cpsr.mode);
        let p = psr_masked(cpu.spsr[b], value, mask, true, true);
        let p1 = if (mask & 1) != 0 {
            Psr { mode: (value & 0x1F) as u8, ..p }
        } else {
            p
        };
        CpuState { spsr: cpu.spsr.update(b, p1), ..cpu }
    } else {
        cpu
    }
}

/// MSR to the CPSR: flags always, E always and A when privileged, the
/// control field when privileged, with a mode change (banking SP and LR)
/// when the new M field names a mode other than the current one.
pub open spec fn cpsr_written(cpu: CpuState, value: u32, mask: u32) -> CpuState {
    let privileged = cpu.cpsr.mode != 0x10;
    let c1 = CpuState { cpsr: psr_masked(cpu.cpsr, value, mask, privileged, privileged), ..cpu };
    if (mask & 1) != 0 && privileged {
        match mode_of((value & 0x1F) as u8) {
            Some(m) => if c1.cpsr.mode != mode_bits(m) {
                mode_switched(c1, m)
            } else {
                c1
            },
            None => c1,
        }
    } else {
        c1
    }
}

/// MSR.
pub open spec fn msr_step(cpu: CpuState, insn: DecodedInsn) -> (CpuState, ExecResult) {
    let value = msr_value(cpu, insn);
    let mask = (insn.raw >> 16) & 0xF;
    (
        if (insn.raw >> 22) & 1 != 0 {
            spsr_written(cpu, value, mask)
        } else {
            cpsr_written(cpu, value, mask)
        },
        ExecResult::Continue,
    )
}

/// IT: the IT state from firstcond and mask; undefined for a zero mask.
pub open spec fn it_step(cpu: CpuState, insn: DecodedInsn) -> (CpuState, ExecResult) {
    let firstcond = ((insn.raw >> 4) & 0xF) as u8;
    let mask = (insn.raw & 0xF) as u8;
    if mask == 0 {
        (cpu, ExecResult::Undefined)
    } else {
        (
            CpuState { cpsr: Psr { it: (firstcond * 16 + mask) as u8, ..cpu.cpsr }, ..cpu },
            ExecResult::Continue,
        )
    }
}

/// MRC: Rt = 0 (no coprocessor is attached), R15 left alone.
pub open spec fn mrc_step(cpu: CpuState, insn: DecodedInsn) -> (CpuState, ExecResult) {
    let t = field(insn.raw, 12);
    if t != 15 {
        (CpuState { regs: cpu.regs.update(t as int, 0), ..cpu }, ExecResult::Continue)
    } else {
        (cpu, ExecResult::Continue)
    }
}

impl<M: ArmMemory> Executor<M> {
    // =========================================================================
    // Branch Operations
    // =========================================================================

    pub(crate) fn exec_b(&mut self, insn: &DecodedInsn) -> (r: ExecResult)
        ensures
            regs_step(
                *old(self),
                *final(self),
                r,
                (old(self).cpu@, ExecResult::Branch(branch_target(old(self).cpu@, *insn))),
            ),
    {
        if let Some(target) = self.decode_branch_target(insn) {
            ExecResult::Branch(target)
        } else {
            ExecResult::Undefined
        }
    }

    pub(crate) fn exec_bl(&mut self, insn: &DecodedInsn) -> (r: ExecResult)
        ensures
            regs_step(
                *old(self),
                *final(self),
                r,
                (
                    with_link(old(self).cpu@),
                    ExecResult::Branch(branch_target(with_link(old(self).cpu@), *insn)),
                ),
            ),
    {
        let return_addr = self.cpu.regs[15].wrapping_add(4);
        self.cpu.regs[14] = return_addr;

        if let Some(target) = self.decode_branch_target(insn) {
            ExecResult::Branch(target)
        } else {
            ExecResult::Undefined
        }
    }

    pub(crate) fn exec_bx(&mut self, insn: &DecodedInsn) -> (r: ExecResult)
        requires
            insn_ok(*insn),
        ensures
            regs_step(*old(self), *final(self), r, bx_step(old(self).cpu@, *insn)),
    {
        if let Some(m) = self.decode_reg_operand(insn, 0) {
            let target = self.reg(m);
            self.cpu.cpsr.t = (target & 1) != 0;
            ExecResult::Branch(target & !1)
        } else {
            ExecResult::Undefined
        }
    }

    pub(crate) fn exec_blx(&mut self, insn: &DecodedInsn) -> (r: ExecResult)
        requires
            insn_ok(*insn),
        ensures
            regs_step(*old(self), *final(self), r, blx_step(old(self).cpu@, *insn)),
    {
        let return_addr = self.cpu.regs[15].wrapping_add(4);
        self.cpu.regs[14] = return_addr;
        self.blx_target(insn)
    }

    /// The branch of BLX, after LR is set.
    #[verifier::rlimit(50)]
    fn blx_target(&mut self, insn: &DecodedInsn) -> (r: ExecResult)
        requires
            insn_ok(*insn),
        ensures
            regs_step(
                *old(self),
                *final(self),
                r,
                match reg_operand(*insn, 0) {
                    Some(m) => interworking_branch(old(self).cpu@, reg_read(old(self).cpu@, m as int)),
                    None => (
                        CpuState { cpsr: Psr { t: true, ..old(self).cpu@.cpsr }, ..old(self).cpu@ },
                        ExecResult::Branch(branch_target(old(self).cpu@, *insn)),
                    ),
                },
            ),
    {
        if let Some(m) = self.decode_reg_operand(insn, 0) {
            let target = self.reg(m);
            self.cpu.cpsr.t = (target & 1) != 0;
            ExecResult::Branch(target & !1)
        } else if let Some(target) = self.decode_branch_target(insn) {
            self.cpu.cpsr.t = true;
            ExecResult::Branch(target)
        } else {
            ExecResult::Undefined
        }
    }

    /// CBZ (`zero`) or CBNZ (Thumb-2 only).
    fn exec_cb(&mut self, insn: &DecodedInsn, zero: bool) -> (r: ExecResult)
        ensures
            regs_step(*old(self), *final(self), r, cbz_step(old(self).cpu@, *insn, zero)),
    {
        proof {
            lemma_mask_bounds();
        }
        let n = (insn.raw & 0x7) as usize;
        if (self.reg(n) == 0) == zero {
            if let Some(target) = self.decode_branch_target(insn) {
                return ExecResult::Branch(target);
            }
        }
        ExecResult::Continue
    }

    pub(crate) fn exec_cbz(&mut self, insn: &DecodedInsn) -> (r: ExecResult)
        ensures
            regs_step(*old(self), *final(self), r, cbz_step(old(self).cpu@, *insn, true)),
    {
        self.exec_cb(insn, true)
    }

    pub(crate) fn exec_cbnz(&mut self, insn: &DecodedInsn) -> (r: ExecResult)
        ensures
            regs_step(*old(self), *final(self), r, cbz_step(old(self).cpu@, *insn, false)),
    {
        self.exec_cb(insn, false)
    }

    // =========================================================================
    // System Operations
    // =========================================================================

    pub(crate) fn exec_svc(&mut self, insn: &DecodedInsn) -> (r: ExecResult)
        ensures
            *final(self) == *old(self),
            r == ExecResult::Exception(ExceptionType::SupervisorCall(insn.raw & 0x00FF_FFFF)),
    {
        let imm = insn.raw & 0x00FFFFFF;
        ExecResult::Exception(ExceptionType::SupervisorCall(imm))
    }

    pub(crate) fn exec_bkpt(&mut self, insn: &DecodedInsn) -> (r: ExecResult)
        ensures
            *final(self) == *old(self),
            r == ExecResult::Exception(
                ExceptionType::Breakpoint((((insn.raw >> 8) & 0xFFF0) | (insn.raw & 0xF)) as u16),
            ),
    {
        let imm = ((insn.raw >> 8) & 0xFFF0) | (insn.raw & 0xF);
        ExecResult::Exception(ExceptionType::Breakpoint(imm as u16))
    }

    pub(crate) fn exec_mrs(&mut self, insn: &DecodedInsn) -> (r: ExecResult)
        ensures
            regs_step(*old(self), *final(self), r, mrs_step(old(self).cpu@, *insn)),
    {
        proof {
            lemma_mask_bounds();
        }
        let d = ((insn.raw >> 12) & 0xF) as usize;
        let r = (insn.raw >> 22) & 1;

        let value = if r != 0 {
            if let Some(spsr) = self.cpu.get_current_spsr() {
                spsr.to_u32()
            } else {
                return ExecResult::Undefined;
            }
        } else {
            self.cpu.cpsr.to_u32()
        };

        self.cpu.regs[d] = value;
        ExecResult::Continue
    }

    pub(crate) fn exec_msr(&mut self, insn: &DecodedInsn) -> (r: ExecResult)
        ensures
            regs_step(*old(self), *final(self), r, msr_step(old(self).cpu@, *insn)),
    {
        proof {
            lemma_mask_bounds();
        }
        let r = (insn.raw >> 22) & 1;
        let mask = (insn.raw >> 16) & 0xF;

        let value = if (insn.raw >> 25) & 1 != 0 {
            let imm12 = insn.raw & 0xFFF;
            expand_imm_c(imm12, self.cpu.cpsr.c).0
        } else {
            let n = (insn.raw & 0xF) as usize;
            self.reg(n)
        };

        if r != 0 {
            self.write_current_spsr_by_mask(value, mask);
        } else {
            self.write_cpsr_by_mask(value, mask);
        }

        ExecResult::Continue
    }

    /// The fields of `p` selected by `mask`, taken from `value`.
    fn psr_by_mask(p: Psr, value: u32, mask: u32, a_ok: bool, ctl_ok: bool) -> (r: Psr)
        ensures
            r == psr_masked(p, value, mask, a_ok, ctl_ok),
    {
        let p1 = if (mask & 8) != 0 {
            Psr {
                n: (value >> 31) != 0,
                z: ((value >> 30) & 1) != 0,
                c: ((value >> 29) & 1) != 0,
                v: ((value >> 28) & 1) != 0,
                q: ((value >> 27) & 1) != 0,
                ..p
            }
        } else {
            p
        };
        let p2 = if (mask & 2) != 0 {
            Psr {
                e: ((value >> 9) & 1) != 0,
                a: if a_ok {
                    ((value >> 8) & 1) != 0
                } else {
                    p1.a
                },
                ..p1
            }
        } else {
            p1
        };
        if (mask & 1) != 0 && ctl_ok {
            Psr {
                i: ((value >> 7) & 1) != 0,
                f: ((value >> 6) & 1) != 0,
                t: ((value >> 5) & 1) != 0,
                ..p2
            }
        } else {
            p2
        }
    }

    fn write_current_spsr_by_mask(&mut self, value: u32, mask: u32)
        ensures
            regs_step(
                *old(self),
                *final(self),
                ExecResult::Continue,
                (spsr_written(old(self).cpu@, value, mask), ExecResult::Continue),
            ),
    {
        if let Some(spsr) = self.cpu.get_current_spsr() {
            let mut p = Self::psr_by_mask(spsr, value, mask, true, true);
            if (mask & 1) != 0 {
                p.mode = (value & 0x1F) as u8;
            }
            self.cpu.set_current_spsr(p);
        }
    }

    fn write_cpsr_by_mask(&mut self, value: u32, mask: u32)
        ensures
            regs_step(
                *old(self),
                *final(self),
                ExecResult::Continue,
                (cpsr_written(old(self).cpu@, value, mask), ExecResult::Continue),
            ),
    {
        proof {
            lemma_mask_bounds();
        }
        let privileged = self.cpu.is_privileged();
        self.cpu.cpsr = Self::psr_by_mask(self.cpu.cpsr, value, mask, privileged, privileged);
        if (mask & 1) != 0 && privileged {
            let new_mode = value & 0x1F;
            if let Some(mode) = ProcessorMode::from_bits(new_mode as u8) {
                if self.cpu.cpsr.mode != mode.bits() {
                    self.cpu.change_mode(mode);
                }
            }
        }
    }

    /// Execute IT (If-Then) instruction (Thumb-2).
    ///
    /// IT{x{y{z}}} cond
    ///
    /// Sets up IT state for conditional execution of up to 4 following instructions.
    /// The condition and mask determine which instructions execute and which are skipped.
    pub(crate) fn exec_it(&mut self, insn: &DecodedInsn) -> (r: ExecResult)
        ensures
            regs_step(*old(self), *final(self), r, it_step(old(self).cpu@, *insn)),
    {
        proof {
            lemma_mask_bounds();
        }
        // Bits 7:4 = firstcond (base condition code)
        // Bits 3:0 = mask (determines T/E pattern)
        let firstcond = ((insn.raw >> 4) & 0xF) as u8;
        let mask = (insn.raw & 0xF) as u8;

        // Mask of 0 is not allowed (would be NOP)
        if mask == 0 {
            return ExecResult::Undefined;
        }

        // Set IT state in CPSR
        self.cpu.cpsr.set_it_state(firstcond, mask);

        ExecResult::Continue
    }

    // =========================================================================
    // Coprocessor Operations
    // =========================================================================

    /// MCR: no coprocessor is attached, so the transfer has no effect.
    pub(crate) fn exec_mcr(&mut self, insn: &DecodedInsn) -> (r: ExecResult)
        ensures
            *final(self) == *old(self),
            r == ExecResult::Continue,
    {
        ExecResult::Continue
    }

    /// MRC: no coprocessor is attached; Rt reads as zero.
    pub(crate) fn exec_mrc(&mut self, insn: &DecodedInsn) -> (r: ExecResult)
        ensures
            regs_step(*old(self), *final(self), r, mrc_step(old(self).cpu@, *insn)),
    {
        proof {
            lemma_mask_bounds();
        }
        let t = ((insn.raw >> 12) & 0xF) as usize;
        if t != 15 {
            self.cpu.regs[t] = 0;
        }
        ExecResult::Continue
    }
}

} // verus!
