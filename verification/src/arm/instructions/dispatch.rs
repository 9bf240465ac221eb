//! Execution of one decoded instruction: the condition check and the
//! dispatch on the mnemonic.

use super::alu::{
    arith_step, compare_step, div_step, logic_step, long_mul_step, movt_step, movw_step, mul_step,
    neg_step, shift_step, test_step,
};
use super::bitops::{
    bitfield_extract_step, bitfield_insert_step, bitop_step, extend_step, ssat_step, usat_step,
};
use super::branch::{blx_step, bx_step, cbz_step, it_step, mrc_step, mrs_step, msr_step, with_link};
use super::media::{
    dual_step, extend_add_step, hmul_step, parallel_step, pkh_step, sat16_step, sat_addsub_step,
    sel_step, smlald_step, smmul_step, usad_step,
};
use super::memory::{
    ldm_post, ldrd_post, ldrex_post, load_post, pop_post, push_post, stm_post, store_post,
    strd_post, strex_post, table_branch,
};
use super::operands::{branch_target, insn_ok, operand_ok};
use super::{regs_step, ExceptionType, ExecResult, ExclusiveMonitor, Executor};
use crate::arm::decoder::aarch32::{a32_cond, a32_shape, Aarch32Decoder};
use crate::arm::decoder::{
    cond_bits, Condition, DecodeError, DecodedInsn, ExecutionState, MemOffset, Mnemonic, Operand,
};
use crate::arm::execution::{at, cond_holds, le32, ArmMemory, CpuState, MemoryError};
use super::mem_same;
use crate::arm::decoder::ShiftType;
use vstd::prelude::*;

verus! {

/// Whether the instruction's condition (if any) holds for the flags.
pub open spec fn condition_holds(cpu: CpuState, insn: DecodedInsn) -> bool {
    match insn.cond {
        Some(c) => cond_holds(cond_bits(c), cpu.cpsr.n, cpu.cpsr.z, cpu.cpsr.c, cpu.cpsr.v),
        None => true,
    }
}

/// The effect of executing `insn` from `o`, giving `n` and result `r`: an
/// instruction whose condition fails does nothing and continues; otherwise
/// the mnemonic's handler runs.
pub open spec fn executes<M: ArmMemory>(
    o: Executor<M>,
    n: Executor<M>,
    insn: DecodedInsn,
    r: ExecResult,
) -> bool {
    if !condition_holds(o.cpu@, insn) {
        regs_step(o, n, r, (o.cpu@, ExecResult::Continue))
    } else {
        handled(o, n, insn, r)
    }
}

/// The ARM condition table: what each condition of an instruction asks of
/// the N, Z, C and V flags before the instruction executes.
pub proof fn lemma_condition_table(cpu: CpuState, insn: DecodedInsn)
    ensures
        ({
            let n = cpu.cpsr.n;
            let z = cpu.cpsr.z;
            let c = cpu.cpsr.c;
            let v = cpu.cpsr.v;
            condition_holds(cpu, insn) == match insn.cond {
                None => true,
                Some(Condition::EQ) => z,
                Some(Condition::NE) => !z,
                Some(Condition::CS) => c,
                Some(Condition::CC) => !c,
                Some(Condition::MI) => n,
                Some(Condition::PL) => !n,
                Some(Condition::VS) => v,
                Some(Condition::VC) => !v,
                Some(Condition::HI) => c && !z,
                Some(Condition::LS) => !c || z,
                Some(Condition::GE) => n == v,
                Some(Condition::LT) => n != v,
                Some(Condition::GT) => !z && n == v,
                Some(Condition::LE) => z || n != v,
                Some(Condition::AL) => true,
                Some(Condition::NV) => true,
            }
        }),
{
}

/// An instruction whose condition fails is skipped: the core, memory and
/// the rest of the executor stay as they were, and execution continues.
pub proof fn lemma_failed_condition_skips<M: ArmMemory>(
    o: Executor<M>,
    n: Executor<M>,
    insn: DecodedInsn,
    r: ExecResult,
)
    requires
        executes(o, n, insn, r),
        !condition_holds(o.cpu@, insn),
    ensures
        r == ExecResult::Continue,
        n.cpu@ == o.cpu@,
        mem_same(o.mem, n.mem),
        n.exclusive_monitor == o.exclusive_monitor,
        n.vbar == o.vbar,
{
}

/// The effect of the handler of `insn`'s mnemonic.
pub open spec fn handled<M: ArmMemory>(
    o: Executor<M>,
    n: Executor<M>,
    insn: DecodedInsn,
    r: ExecResult,
) -> bool {
    let c = o.cpu@;
    match insn.mnemonic {
        // Data Processing - Arithmetic
        Mnemonic::ADD | Mnemonic::ADDS => regs_step(
            o,
            n,
            r,
            arith_step(c, insn, false, false, Some(false)),
        ),
        Mnemonic::ADC | Mnemonic::ADCS => regs_step(o, n, r, arith_step(c, insn, false, false, None)),
        Mnemonic::SUB | Mnemonic::SUBS => regs_step(
            o,
            n,
            r,
            arith_step(c, insn, false, true, Some(true)),
        ),
        Mnemonic::SBC | Mnemonic::SBCS => regs_step(o, n, r, arith_step(c, insn, false, true, None)),
        Mnemonic::RSB | Mnemonic::RSBS => regs_step(
            o,
            n,
            r,
            arith_step(c, insn, true, false, Some(true)),
        ),
        Mnemonic::RSC | Mnemonic::RSCS => regs_step(o, n, r, arith_step(c, insn, true, false, None)),
        Mnemonic::NEG | Mnemonic::NEGS => regs_step(o, n, r, neg_step(c, insn)),
        // Data Processing - Logical and Move
        Mnemonic::AND | Mnemonic::ANDS => regs_step(o, n, r, logic_step(c, insn, 0)),
        Mnemonic::ORR | Mnemonic::ORRS => regs_step(o, n, r, logic_step(c, insn, 1)),
        Mnemonic::EOR | Mnemonic::EORS => regs_step(o, n, r, logic_step(c, insn, 2)),
        Mnemonic::BIC | Mnemonic::BICS => regs_step(o, n, r, logic_step(c, insn, 3)),
        Mnemonic::ORN | Mnemonic::ORNS => regs_step(o, n, r, logic_step(c, insn, 4)),
        Mnemonic::MOV | Mnemonic::MOVS => regs_step(o, n, r, logic_step(c, insn, 5)),
        Mnemonic::MVN | Mnemonic::MVNS => regs_step(o, n, r, logic_step(c, insn, 6)),
        Mnemonic::MOVZ => regs_step(o, n, r, movw_step(c, insn)),
        Mnemonic::MOVK => regs_step(o, n, r, movt_step(c, insn)),
        // Data Processing - Compare
        Mnemonic::CMP => regs_step(o, n, r, compare_step(c, insn, true)),
        Mnemonic::CMN => regs_step(o, n, r, compare_step(c, insn, false)),
        Mnemonic::TST => regs_step(o, n, r, test_step(c, insn, false)),
        Mnemonic::TEQ => regs_step(o, n, r, test_step(c, insn, true)),
        // Data Processing - Shift
        Mnemonic::LSL | Mnemonic::LSLS => regs_step(o, n, r, shift_step(c, insn, ShiftType::LSL, false)),
        Mnemonic::LSR | Mnemonic::LSRS => regs_step(o, n, r, shift_step(c, insn, ShiftType::LSR, false)),
        Mnemonic::ASR | Mnemonic::ASRS => regs_step(o, n, r, shift_step(c, insn, ShiftType::ASR, false)),
        Mnemonic::ROR | Mnemonic::RORS => regs_step(o, n, r, shift_step(c, insn, ShiftType::ROR, false)),
        Mnemonic::RRX | Mnemonic::RRXS => regs_step(o, n, r, shift_step(c, insn, ShiftType::RRX, true)),
        // Multiply
        Mnemonic::MUL | Mnemonic::MULS => regs_step(o, n, r, mul_step(c, insn, 0)),
        Mnemonic::MLA => regs_step(o, n, r, mul_step(c, insn, 1)),
        Mnemonic::MLS => regs_step(o, n, r, mul_step(c, insn, 2)),
        Mnemonic::UMULL | Mnemonic::UMULLS => regs_step(o, n, r, long_mul_step(c, insn, 0)),
        Mnemonic::SMULL | Mnemonic::SMULLS => regs_step(o, n, r, long_mul_step(c, insn, 1)),
        Mnemonic::UMLAL => regs_step(o, n, r, long_mul_step(c, insn, 2)),
        Mnemonic::SMLAL => regs_step(o, n, r, long_mul_step(c, insn, 3)),
        Mnemonic::UMAAL => regs_step(o, n, r, long_mul_step(c, insn, 4)),
        Mnemonic::SDIV => regs_step(o, n, r, div_step(c, insn, true)),
        Mnemonic::UDIV => regs_step(o, n, r, div_step(c, insn, false)),
        // Branch
        Mnemonic::B | Mnemonic::BCC => regs_step(
            o,
            n,
            r,
            (c, ExecResult::Branch(branch_target(c, insn))),
        ),
        Mnemonic::BL => regs_step(
            o,
            n,
            r,
            (with_link(c), ExecResult::Branch(branch_target(with_link(c), insn))),
        ),
        Mnemonic::BX => regs_step(o, n, r, bx_step(c, insn)),
        Mnemonic::BLX => regs_step(o, n, r, blx_step(c, insn)),
        Mnemonic::CBZ => regs_step(o, n, r, cbz_step(c, insn, true)),
        Mnemonic::CBNZ => regs_step(o, n, r, cbz_step(c, insn, false)),
        Mnemonic::TBB => regs_step(o, n, r, table_branch(c, o.mem, insn, false)),
        Mnemonic::TBH => regs_step(o, n, r, table_branch(c, o.mem, insn, true)),
        // Load/Store
        Mnemonic::LDR => load_post(o, n, r, insn, 0),
        Mnemonic::LDRB => load_post(o, n, r, insn, 1),
        Mnemonic::STR => store_post(o, n, r, insn, 4),
        Mnemonic::STRB => store_post(o, n, r, insn, 1),
        Mnemonic::LDRH => load_post(o, n, r, insn, 2),
        Mnemonic::LDRSH => load_post(o, n, r, insn, 4),
        Mnemonic::LDRSB => load_post(o, n, r, insn, 3),
        Mnemonic::STRH => store_post(o, n, r, insn, 2),
        Mnemonic::LDP => ldrd_post(o, n, r, insn),
        Mnemonic::STP => strd_post(o, n, r, insn),
        Mnemonic::LDXR => ldrex_post(o, n, r, insn, 4),
        Mnemonic::STXR => strex_post(o, n, r, insn, 4),
        Mnemonic::LDXRB => ldrex_post(o, n, r, insn, 1),
        Mnemonic::STXRB => strex_post(o, n, r, insn, 1),
        Mnemonic::LDXRH => ldrex_post(o, n, r, insn, 2),
        Mnemonic::STXRH => strex_post(o, n, r, insn, 2),
        Mnemonic::CLREX => {
            &&& n.cpu == o.cpu
            &&& n.mem == o.mem
            &&& n.vbar == o.vbar
            &&& n.exclusive_monitor == (ExclusiveMonitor {
                address: None,
                ..o.exclusive_monitor
            })
            &&& r == ExecResult::Continue
        },
        // Load/Store Multiple
        Mnemonic::LDM | Mnemonic::LDMIA => ldm_post(o, n, r, insn, false, true),
        Mnemonic::LDMIB => ldm_post(o, n, r, insn, true, true),
        Mnemonic::LDMDA => ldm_post(o, n, r, insn, false, false),
        Mnemonic::LDMDB => ldm_post(o, n, r, insn, true, false),
        Mnemonic::STM | Mnemonic::STMIA => stm_post(o, n, r, insn, false, true),
        Mnemonic::STMIB => stm_post(o, n, r, insn, true, true),
        Mnemonic::STMDA => stm_post(o, n, r, insn, false, false),
        Mnemonic::STMDB => stm_post(o, n, r, insn, true, false),
        Mnemonic::PUSH => push_post(o, n, r, insn),
        Mnemonic::POP => pop_post(o, n, r, insn),
        // System
        Mnemonic::SVC | Mnemonic::SWI => n == o && r == ExecResult::Exception(
            ExceptionType::SupervisorCall(insn.raw & 0x00FF_FFFF),
        ),
        Mnemonic::NOP | Mnemonic::YIELD | Mnemonic::SEV | Mnemonic::SEVL => n == o && r
            == ExecResult::Continue,
        Mnemonic::WFI | Mnemonic::WFE => n == o && r == ExecResult::Halt,
        Mnemonic::BKPT => n == o && r == ExecResult::Exception(
            ExceptionType::Breakpoint((((insn.raw >> 8) & 0xFFF0) | (insn.raw & 0xF)) as u16),
        ),
        Mnemonic::UDF => n == o && r == ExecResult::Exception(ExceptionType::UndefinedInstruction),
        Mnemonic::MRS => regs_step(o, n, r, mrs_step(c, insn)),
        Mnemonic::MSR => regs_step(o, n, r, msr_step(c, insn)),
        Mnemonic::DMB | Mnemonic::DSB | Mnemonic::ISB => n == o && r == ExecResult::Continue,
        Mnemonic::IT => regs_step(o, n, r, it_step(c, insn)),
        // Coprocessor
        Mnemonic::MCR => n == o && r == ExecResult::Continue,
        Mnemonic::MRC => regs_step(o, n, r, mrc_step(c, insn)),
        // Bit manipulation
        Mnemonic::CLZ => regs_step(o, n, r, bitop_step(c, insn, 0)),
        Mnemonic::REV => regs_step(o, n, r, bitop_step(c, insn, 1)),
        Mnemonic::REV16 => regs_step(o, n, r, bitop_step(c, insn, 2)),
        Mnemonic::REVSH => regs_step(o, n, r, bitop_step(c, insn, 3)),
        Mnemonic::RBIT => regs_step(o, n, r, bitop_step(c, insn, 4)),
        // Bit field
        Mnemonic::BFC => regs_step(o, n, r, bitfield_insert_step(c, insn, false)),
        Mnemonic::BFI => regs_step(o, n, r, bitfield_insert_step(c, insn, true)),
        Mnemonic::UBFX => regs_step(o, n, r, bitfield_extract_step(c, insn, false)),
        Mnemonic::SBFX => regs_step(o, n, r, bitfield_extract_step(c, insn, true)),
        // Extension
        Mnemonic::SXTB => regs_step(o, n, r, extend_step(c, insn, 0)),
        Mnemonic::SXTH => regs_step(o, n, r, extend_step(c, insn, 1)),
        Mnemonic::UXTB => regs_step(o, n, r, extend_step(c, insn, 2)),
        Mnemonic::UXTH => regs_step(o, n, r, extend_step(c, insn, 3)),
        // Saturating arithmetic
        Mnemonic::USAT => regs_step(o, n, r, usat_step(c, insn)),
        Mnemonic::SSAT => regs_step(o, n, r, ssat_step(c, insn)),
        // AArch32 media / DSP
        Mnemonic::A32_PARALLEL => regs_step(o, n, r, parallel_step(c, insn)),
        Mnemonic::A32_PKH => regs_step(o, n, r, pkh_step(c, insn)),
        Mnemonic::A32_EXTEND => regs_step(o, n, r, extend_add_step(c, insn)),
        Mnemonic::A32_SAT16 => regs_step(o, n, r, sat16_step(c, insn)),
        Mnemonic::A32_SAT_ADDSUB => regs_step(o, n, r, sat_addsub_step(c, insn)),
        Mnemonic::A32_HMUL => regs_step(o, n, r, hmul_step(c, insn)),
        Mnemonic::A32_DUAL => regs_step(o, n, r, dual_step(c, insn)),
        Mnemonic::A32_SMLALD => regs_step(o, n, r, smlald_step(c, insn)),
        Mnemonic::A32_SMMUL => regs_step(o, n, r, smmul_step(c, insn)),
        Mnemonic::A32_USAD => regs_step(o, n, r, usad_step(c, insn)),
        Mnemonic::A32_SEL => regs_step(o, n, r, sel_step(c, insn)),
        // Undefined, unknown and not implemented
        _ => n == o && r == ExecResult::Undefined,
    }
}

impl<M: ArmMemory> Executor<M> {
    /// Execute a single decoded instruction.
    #[verifier::rlimit(100)]
    pub fn execute(&mut self, insn: &DecodedInsn) -> (r: ExecResult)
        requires
            insn_ok(*insn),
        ensures
            executes(*old(self), *final(self), *insn, r),
    {
        // Check condition code
        if let Some(cond) = insn.cond {
            if !self.condition_passed(cond) {
                return ExecResult::Continue;
            }
        }
        self.dispatch(insn)
    }

    /// Dispatch based on mnemonic.
    #[verifier::rlimit(100)]
    fn dispatch(&mut self, insn: &DecodedInsn) -> (r: ExecResult)
        requires
            insn_ok(*insn),
        ensures
            handled(*old(self), *final(self), *insn, r),
    {
        match insn.mnemonic {
            // Data Processing - Arithmetic
            Mnemonic::ADD | Mnemonic::ADDS => self.exec_add(insn),
            Mnemonic::ADC | Mnemonic::ADCS => self.exec_adc(insn),
            Mnemonic::SUB | Mnemonic::SUBS => self.exec_sub(insn),
            Mnemonic::SBC | Mnemonic::SBCS => self.exec_sbc(insn),
            Mnemonic::RSB | Mnemonic::RSBS => self.exec_rsb(insn),
            Mnemonic::RSC | Mnemonic::RSCS => self.exec_rsc(insn),
            Mnemonic::NEG | Mnemonic::NEGS => self.exec_neg(insn),

            // Data Processing - Logical
            Mnemonic::AND | Mnemonic::ANDS => self.exec_and(insn),
            Mnemonic::ORR | Mnemonic::ORRS => self.exec_orr(insn),
            Mnemonic::EOR | Mnemonic::EORS => self.exec_eor(insn),
            Mnemonic::BIC | Mnemonic::BICS => self.exec_bic(insn),
            Mnemonic::ORN | Mnemonic::ORNS => self.exec_orn(insn),

            // Data Processing - Move
            Mnemonic::MOV | Mnemonic::MOVS => self.exec_mov(insn),
            Mnemonic::MVN | Mnemonic::MVNS => self.exec_mvn(insn),
            Mnemonic::MOVZ => self.exec_movw(insn),
            Mnemonic::MOVK => self.exec_movt(insn),

            // Data Processing - Compare
            Mnemonic::CMP => self.exec_cmp(insn),
            Mnemonic::CMN => self.exec_cmn(insn),
            Mnemonic::TST => self.exec_tst(insn),
            Mnemonic::TEQ => self.exec_teq(insn),

            // Data Processing - Shift
            Mnemonic::LSL | Mnemonic::LSLS => self.exec_lsl(insn),
            Mnemonic::LSR | Mnemonic::LSRS => self.exec_lsr(insn),
            Mnemonic::ASR | Mnemonic::ASRS => self.exec_asr(insn),
            Mnemonic::ROR | Mnemonic::RORS => self.exec_ror(insn),
            Mnemonic::RRX | Mnemonic::RRXS => self.exec_rrx(insn),

            // Multiply
            Mnemonic::MUL | Mnemonic::MULS => self.exec_mul(insn),
            Mnemonic::MLA => self.exec_mla(insn),
            Mnemonic::MLS => self.exec_mls(insn),
            Mnemonic::UMULL | Mnemonic::UMULLS => self.exec_umull(insn),
            Mnemonic::SMULL | Mnemonic::SMULLS => self.exec_smull(insn),
            Mnemonic::UMLAL => self.exec_umlal(insn),
            Mnemonic::SMLAL => self.exec_smlal(insn),
            Mnemonic::UMAAL => self.exec_umaal(insn),
            Mnemonic::SDIV => self.exec_sdiv(insn),
            Mnemonic::UDIV => self.exec_udiv(insn),

            // Branch
            Mnemonic::B | Mnemonic::BCC => self.exec_b(insn),
            Mnemonic::BL => self.exec_bl(insn),
            Mnemonic::BX => self.exec_bx(insn),
            Mnemonic::BLX => self.exec_blx(insn),
            Mnemonic::CBZ => self.exec_cbz(insn),
            Mnemonic::CBNZ => self.exec_cbnz(insn),
            Mnemonic::TBB => self.exec_tbb(insn),
            Mnemonic::TBH => self.exec_tbh(insn),

            // Load/Store Word/Byte
            Mnemonic::LDR => self.exec_ldr(insn),
            Mnemonic::LDRB => self.exec_ldrb(insn),
            Mnemonic::STR => self.exec_str(insn),
            Mnemonic::STRB => self.exec_strb(insn),

            // Load/Store Halfword/Signed
            Mnemonic::LDRH => self.exec_ldrh(insn),
            Mnemonic::LDRSH => self.exec_ldrsh(insn),
            Mnemonic::LDRSB => self.exec_ldrsb(insn),
            Mnemonic::STRH => self.exec_strh(insn),

            // Load/Store Double (LDP/STP are the AArch64 names; A32/T32 LDRD/STRD)
            Mnemonic::LDP => self.exec_ldrd(insn),
            Mnemonic::STP => self.exec_strd(insn),

            // Load/Store Exclusive
            Mnemonic::LDXR => self.exec_ldrex(insn),
            Mnemonic::STXR => self.exec_strex(insn),
            Mnemonic::LDXRB => self.exec_ldrexb(insn),
            Mnemonic::STXRB => self.exec_strexb(insn),
            Mnemonic::LDXRH => self.exec_ldrexh(insn),
            Mnemonic::STXRH => self.exec_strexh(insn),
            Mnemonic::CLREX => self.exec_clrex(insn),

            // Load/Store Multiple
            Mnemonic::LDM | Mnemonic::LDMIA => self.exec_ldm_stm(insn, true, false, true),
            Mnemonic::LDMIB => self.exec_ldm_stm(insn, true, true, true),
            Mnemonic::LDMDA => self.exec_ldm_stm(insn, true, false, false),
            Mnemonic::LDMDB => self.exec_ldm_stm(insn, true, true, false),
            Mnemonic::STM | Mnemonic::STMIA => self.exec_ldm_stm(insn, false, false, true),
            Mnemonic::STMIB => self.exec_ldm_stm(insn, false, true, true),
            Mnemonic::STMDA => self.exec_ldm_stm(insn, false, false, false),
            Mnemonic::STMDB => self.exec_ldm_stm(insn, false, true, false),
            Mnemonic::PUSH => self.exec_push(insn),
            Mnemonic::POP => self.exec_pop(insn),

            // System
            Mnemonic::SVC | Mnemonic::SWI => self.exec_svc(insn),
            Mnemonic::NOP | Mnemonic::YIELD | Mnemonic::SEV | Mnemonic::SEVL => {
                ExecResult::Continue
            },
            Mnemonic::WFI | Mnemonic::WFE => ExecResult::Halt,
            Mnemonic::BKPT => self.exec_bkpt(insn),
            Mnemonic::UDF => ExecResult::Exception(ExceptionType::UndefinedInstruction),
            Mnemonic::MRS => self.exec_mrs(insn),
            Mnemonic::MSR => self.exec_msr(insn),
            Mnemonic::DMB | Mnemonic::DSB | Mnemonic::ISB => ExecResult::Continue,  // Memory barriers
            Mnemonic::IT => self.exec_it(insn),

            // Coprocessor
            Mnemonic::MCR => self.exec_mcr(insn),
            Mnemonic::MRC => self.exec_mrc(insn),

            // Bit manipulation
            Mnemonic::CLZ => self.exec_clz(insn),
            Mnemonic::REV => self.exec_rev(insn),
            Mnemonic::REV16 => self.exec_rev16(insn),
            Mnemonic::REVSH => self.exec_revsh(insn),
            Mnemonic::RBIT => self.exec_rbit(insn),

            // Bit field
            Mnemonic::BFC => self.exec_bfc(insn),
            Mnemonic::BFI => self.exec_bfi(insn),
            Mnemonic::UBFX => self.exec_ubfx(insn),
            Mnemonic::SBFX => self.exec_sbfx(insn),

            // Extension
            Mnemonic::SXTB => self.exec_sxtb(insn),
            Mnemonic::SXTH => self.exec_sxth(insn),
            Mnemonic::UXTB => self.exec_uxtb(insn),
            Mnemonic::UXTH => self.exec_uxth(insn),

            // Saturating arithmetic
            Mnemonic::USAT => self.exec_usat(insn),
            Mnemonic::SSAT => self.exec_ssat(insn),

            // AArch32 media / DSP
            Mnemonic::A32_PARALLEL => self.exec_a32_parallel(insn),
            Mnemonic::A32_PKH => self.exec_a32_pkh(insn),
            Mnemonic::A32_EXTEND => self.exec_a32_extend(insn),
            Mnemonic::A32_SAT16 => self.exec_a32_sat16(insn),
            Mnemonic::A32_SAT_ADDSUB => self.exec_a32_sat_addsub(insn),
            Mnemonic::A32_HMUL => self.exec_a32_hmul(insn),
            Mnemonic::A32_DUAL => self.exec_a32_dual(insn),
            Mnemonic::A32_SMLALD => self.exec_a32_smlald(insn),
            Mnemonic::A32_SMMUL => self.exec_a32_smmul(insn),
            Mnemonic::A32_USAD => self.exec_a32_usad(insn),
            Mnemonic::A32_SEL => self.exec_a32_sel(insn),

            // Undefined/Unknown and not yet implemented
            _ => ExecResult::Undefined,
        }
    }
}

/// Whether every register an operand names is one of R0..R15.
fn operand_valid(o: Operand) -> (r: bool)
    ensures
        r == operand_ok(o),
{
    match o {
        Operand::Reg(r) => r.num < 16,
        Operand::ShiftedReg(s) => s.reg.num < 16,
        Operand::Mem(m) => m.base.num < 16 && match m.offset {
            MemOffset::Reg(r) => r.num < 16,
            MemOffset::ShiftedReg(s) => s.reg.num < 16,
            _ => true,
        },
        _ => true,
    }
}

/// Whether every register the instruction names is one of R0..R15.
fn insn_valid(insn: &DecodedInsn) -> (r: bool)
    ensures
        r == insn_ok(*insn),
{
    let mut i: usize = 0;
    while i < insn.operands.len()
        invariant
            i <= insn.operands.len(),
            forall|j: int| 0 <= j < i ==> #[trigger] operand_ok(insn.operands@[j]),
        decreases insn.operands.len() - i,
    {
        if !operand_valid(insn.operands[i]) {
            return false;
        }
        i += 1;
    }
    true
}

// =============================================================================
// Full Execution Loop
// =============================================================================

/// The word fetched at `pc`: its four bytes from `pc` upward, little-endian,
/// or the address of the first of them that is not mapped.
pub open spec fn fetch_word<M: ArmMemory>(mem: M, pc: u32) -> Result<u32, u32> {
    if !mem.mapped(pc) {
        Err(pc)
    } else if !mem.mapped(at(pc, 1)) {
        Err(at(pc, 1))
    } else if !mem.mapped(at(pc, 2)) {
        Err(at(pc, 2))
    } else if !mem.mapped(at(pc, 3)) {
        Err(at(pc, 3))
    } else {
        Ok(le32(mem.byte(pc), mem.byte(at(pc, 1)), mem.byte(at(pc, 2)), mem.byte(at(pc, 3))))
    }
}

/// What the loop answers in Thumb state: a fault on the halfword at `pc`,
/// or that halfword reported as an encoding no decoder handles.
pub open spec fn thumb_answer<M: ArmMemory>(mem: M, pc: u32) -> Result<ExecResult, DecodeError> {
    if !mem.mapped(pc) {
        Ok(ExecResult::MemoryFault(MemoryError::Unmapped(pc)))
    } else if !mem.mapped(at(pc, 1)) {
        Ok(ExecResult::MemoryFault(MemoryError::Unmapped(at(pc, 1))))
    } else {
        Err(DecodeError::InvalidEncoding((mem.byte(pc) as u32) | ((mem.byte(at(pc, 1)) as u32) << 8)))
    }
}

/// `insn` is what the A32 decoder makes of `raw`.
pub open spec fn decodes_to(raw: u32, insn: DecodedInsn) -> bool {
    insn.is(
        a32_shape(raw).0,
        a32_cond(raw),
        a32_shape(raw).1,
        a32_shape(raw).2,
        raw,
        4,
        ExecutionState::Aarch32,
    )
}

/// `n` is `m` with R15 set to `pc`.
pub open spec fn pc_set<M: ArmMemory>(m: Executor<M>, n: Executor<M>, pc: u32) -> bool {
    &&& n.cpu@ == CpuState { regs: m.cpu@.regs.update(15, pc), ..m.cpu@ }
    &&& n.mem == m.mem
    &&& n.exclusive_monitor == m.exclusive_monitor
    &&& n.vbar == m.vbar
}

/// After `insn` ran to `m` with result `res`: on `Continue` the PC moves past
/// the instruction, on `Branch` to the target, and the loop goes on (`out`
/// is `None`); any other result ends the loop with that result.
pub open spec fn after_execute<M: ArmMemory>(
    m: Executor<M>,
    n: Executor<M>,
    insn: DecodedInsn,
    res: ExecResult,
    out: Option<Result<ExecResult, DecodeError>>,
) -> bool {
    match res {
        ExecResult::Continue => out is None && pc_set(
            m,
            n,
            m.cpu.regs[15].wrapping_add(insn.size as u32),
        ),
        ExecResult::Branch(t) => out is None && pc_set(m, n, t),
        _ => out == Some(Ok::<ExecResult, DecodeError>(res)) && n == m,
    }
}

/// One decoded instruction handled by the loop: one that names a register
/// beyond R15 is undefined; any other is executed.
pub open spec fn run_decoded<M: ArmMemory>(
    o: Executor<M>,
    n: Executor<M>,
    insn: DecodedInsn,
    out: Option<Result<ExecResult, DecodeError>>,
) -> bool {
    if !insn_ok(insn) {
        n == o && out == Some(Ok::<ExecResult, DecodeError>(ExecResult::Undefined))
    } else {
        exists|m: Executor<M>, res: ExecResult|
            #[trigger] executes(o, m, insn, res) && after_execute(m, n, insn, res, out)
    }
}

/// The fetched word `raw` decoded and handled.
pub open spec fn run_word<M: ArmMemory>(
    o: Executor<M>,
    n: Executor<M>,
    raw: u32,
    out: Option<Result<ExecResult, DecodeError>>,
) -> bool {
    exists|insn: DecodedInsn| #[trigger] decodes_to(raw, insn) && run_decoded(o, n, insn, out)
}

/// One pass of the fetch-decode-execute loop from `o` to `n`: `out` is
/// `None` when the loop goes on, or else what the loop returns.
pub open spec fn arm_step<M: ArmMemory>(
    o: Executor<M>,
    n: Executor<M>,
    out: Option<Result<ExecResult, DecodeError>>,
) -> bool {
    let pc = o.cpu.regs[15];
    if o.cpu.cpsr.t {
        n == o && out == Some(thumb_answer(o.mem, pc))
    } else {
        match fetch_word(o.mem, pc) {
            Err(a) => n == o && out == Some(
                Ok::<ExecResult, DecodeError>(ExecResult::MemoryFault(MemoryError::Unmapped(a))),
            ),
            Ok(raw) => run_word(o, n, raw, out),
        }
    }
}

/// `k` passes of the loop that each go on lead from `o` to `n`.
pub open spec fn arm_runs<M: ArmMemory>(o: Executor<M>, n: Executor<M>, k: nat) -> bool
    decreases k,
{
    if k == 0 {
        n == o
    } else {
        exists|m: Executor<M>| arm_runs(o, m, (k - 1) as nat) && #[trigger] arm_step(m, n, None)
    }
}

/// The four bytes read so far, `i` of them, with zeros above.
spec fn fetched<M: ArmMemory>(mem: M, pc: u32, i: u32) -> u32 {
    le32(
        if 0 < i { mem.byte(pc) } else { 0 },
        if 1 < i { mem.byte(at(pc, 1)) } else { 0 },
        if 2 < i { mem.byte(at(pc, 2)) } else { 0 },
        if 3 < i { mem.byte(at(pc, 3)) } else { 0 },
    )
}

/// Each byte ORed in at its place fills the little-endian word from below.
proof fn lemma_fill_word(b0: u8, b1: u8, b2: u8, b3: u8)
    ensures
        le32(0, 0, 0, 0) == 0,
        0u32 | ((b0 as u32) << 0u32) == le32(b0, 0, 0, 0),
        le32(b0, 0, 0, 0) | ((b1 as u32) << 8u32) == le32(b0, b1, 0, 0),
        le32(b0, b1, 0, 0) | ((b2 as u32) << 16u32) == le32(b0, b1, b2, 0),
        le32(b0, b1, b2, 0) | ((b3 as u32) << 24u32) == le32(b0, b1, b2, b3),
{
    assert(le32(0, 0, 0, 0) == 0 && 0u32 | ((b0 as u32) << 0u32) == le32(b0, 0, 0, 0)
        && le32(b0, 0, 0, 0) | ((b1 as u32) << 8u32) == le32(b0, b1, 0, 0)
        && le32(b0, b1, 0, 0) | ((b2 as u32) << 16u32) == le32(b0, b1, b2, 0)
        && le32(b0, b1, b2, 0) | ((b3 as u32) << 24u32) == le32(b0, b1, b2, b3))
        by (bit_vector);
}

/// Run the ARM emulator in a fetch-decode-execute loop over `executor`'s
/// core and memory, decoding A32 instructions (in Thumb state no decoder is
/// available and the halfword at PC is reported as an invalid encoding).
///
/// Returns when:
/// - An exception is raised
/// - CPU is halted (WFI/WFE)
/// - max_instructions is reached
/// - A memory fault occurs
pub fn run_emulator<M: ArmMemory>(executor: &mut Executor<M>, max_instructions: u64) -> (r: Result<
    ExecResult,
    DecodeError,
>)
    ensures
        r == Ok::<ExecResult, DecodeError>(ExecResult::Continue) ==> arm_runs(
            *old(executor),
            *final(executor),
            max_instructions as nat,
        ),
        r != Ok::<ExecResult, DecodeError>(ExecResult::Continue) ==> exists|k: nat, m: Executor<M>|
            k < max_instructions && #[trigger] arm_runs(*old(executor), m, k) && arm_step(
                m,
                *final(executor),
                Some(r),
            ),
        r matches Ok(res) ==> !(res is Branch),
        max_instructions == 0 ==> r == Ok::<ExecResult, DecodeError>(ExecResult::Continue)
            && *final(executor) == *old(executor),
{
    let mut instructions_executed: u64 = 0;

    while instructions_executed < max_instructions
        invariant
            instructions_executed <= max_instructions,
            arm_runs(*old(executor), *executor, instructions_executed as nat),
        decreases max_instructions - instructions_executed,
    {
        let ghost start = *executor;
        let ghost k: nat = instructions_executed as nat;
        // Fetch instruction
        let pc = executor.cpu.regs[15];
        if executor.cpu.cpsr.t {
            let lo = match executor.mem.read_byte(pc) {
                Ok(b) => b,
                Err(e) => {
                    assert(arm_step(start, *executor, Some(Ok(ExecResult::MemoryFault(e)))));
                    return Ok(ExecResult::MemoryFault(e));
                },
            };
            let hi = match executor.mem.read_byte(pc.wrapping_add(1)) {
                Ok(b) => b,
                Err(e) => {
                    assert(arm_step(start, *executor, Some(Ok(ExecResult::MemoryFault(e)))));
                    return Ok(ExecResult::MemoryFault(e));
                },
            };
            let r = Err(DecodeError::InvalidEncoding((lo as u32) | ((hi as u32) << 8)));
            assert(arm_step(start, *executor, Some(r)));
            return r;
        }
        let mut raw: u32 = 0;
        let mut i: u32 = 0;
        proof {
            lemma_fill_word(0, 0, 0, 0);
        }
        while i < 4
            invariant
                i <= 4,
                instructions_executed < max_instructions,
                arm_runs(*old(executor), start, instructions_executed as nat),
                !start.cpu.cpsr.t,
                *executor == start,
                pc == start.cpu.regs[15],
                forall|j: u32| j < i ==> #[trigger] executor.mem.mapped(at(pc, j)),
                raw == fetched(executor.mem, pc, i),
            decreases 4 - i,
        {
            match executor.mem.read_byte(pc.wrapping_add(i)) {
                Ok(b) => {
                    proof {
                        lemma_fill_word(
                            executor.mem.byte(pc),
                            executor.mem.byte(at(pc, 1)),
                            executor.mem.byte(at(pc, 2)),
                            executor.mem.byte(at(pc, 3)),
                        );
                    }
                    raw = raw | ((b as u32) << (i * 8));
                },
                Err(e) => {
                    proof {
                        assert(at(pc, 0) == pc);
                        if i > 0 {
                            assert(executor.mem.mapped(at(pc, 0)));
                        }
                        if i > 1 {
                            assert(executor.mem.mapped(at(pc, 1)));
                        }
                        if i > 2 {
                            assert(executor.mem.mapped(at(pc, 2)));
                        }
                    }
                    assert(arm_step(start, *executor, Some(Ok(ExecResult::MemoryFault(e)))));
                    return Ok(ExecResult::MemoryFault(e));
                },
            }
            i += 1;
        }
        proof {
            assert(executor.mem.mapped(at(pc, 0)));
            assert(executor.mem.mapped(at(pc, 1)));
            assert(executor.mem.mapped(at(pc, 2)));
            assert(executor.mem.mapped(at(pc, 3)));
            assert(fetch_word(start.mem, pc) == Ok::<u32, u32>(raw));
        }

        // Decode instruction
        let insn = match Aarch32Decoder::decode(raw) {
            Ok(insn) => insn,
            Err(e) => return Err(e),
        };
        assert(decodes_to(raw, insn));
        if !insn_valid(&insn) {
            assert(!start.cpu.cpsr.t);
            assert(fetch_word(start.mem, start.cpu.regs[15]) == Ok::<u32, u32>(raw));
            assert(run_decoded(start, *executor, insn, Some(Ok(ExecResult::Undefined))));
            assert(run_word(start, *executor, raw, Some(Ok(ExecResult::Undefined))));
            assert(arm_step(start, *executor, Some(Ok(ExecResult::Undefined))));
            return Ok(ExecResult::Undefined);
        }

        // Execute instruction
        let result = executor.execute(&insn);
        let ghost mid = *executor;
        assert(executes(start, mid, insn, result));
        instructions_executed += 1;

        match result {
            ExecResult::Continue => {
                // Advance PC
                executor.cpu.regs[15] = executor.cpu.regs[15].wrapping_add(insn.size as u32);
                assert(executor.cpu@ =~= CpuState { regs: mid.cpu@.regs.update(15, mid.cpu.regs[15].wrapping_add(insn.size as u32)), ..mid.cpu@ });
                assert(after_execute(mid, *executor, insn, result, None));
                assert(run_word(start, *executor, raw, None));
                assert(arm_step(start, *executor, None));
            },
            ExecResult::Branch(target) => {
                executor.cpu.regs[15] = target;
                assert(executor.cpu@ =~= CpuState { regs: mid.cpu@.regs.update(15, target), ..mid.cpu@ });
                assert(after_execute(mid, *executor, insn, result, None));
                assert(run_word(start, *executor, raw, None));
                assert(arm_step(start, *executor, None));
            },
            _ => {
                assert(after_execute(mid, *executor, insn, result, Some(Ok(result))));
                assert(run_word(start, *executor, raw, Some(Ok(result))));
                assert(arm_step(start, *executor, Some(Ok(result))));
                assert(arm_runs(*old(executor), start, k));
                return Ok(result);
            },
        }
    }

    Ok(ExecResult::Continue)
}

} // verus!
