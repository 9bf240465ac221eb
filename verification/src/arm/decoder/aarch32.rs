//! AArch32 (A32) instruction decoder.
//!
//! This module decodes 32-bit ARM instructions (AArch32/A32).
//! All A32 instructions are 32 bits wide.

use super::{
    condition_of, reg, shift_type_of, AddressingMode, BarrierOption, Condition, DecodeError,
    DecodedInsn, ExecutionState, Immediate, MemOffset, MemOperand, Mnemonic, Operand, Register,
    RegisterList, ShiftType, ShiftedRegister,
};
use vstd::prelude::*;

verus! {

/// Decoded shape of an A32 instruction: mnemonic, operands and S bit.
pub type A32Shape = (Mnemonic, Seq<Operand>, bool);

/// `r` decodes `raw` (with no condition attached) to `t`.
pub open spec fn decodes_to(r: Result<DecodedInsn, DecodeError>, raw: u32, t: A32Shape) -> bool {
    r matches Ok(d) && d.is(t.0, None, t.1, t.2, raw, 4, ExecutionState::Aarch32)
}

/// Register operands for a list of register numbers.
pub open spec fn reg_ops(regs: Seq<u8>) -> Seq<Operand> {
    regs.map_values(|n: u8| Operand::Reg(reg(n)))
}

/// 32-bit rotate right.
pub open spec fn ror32(x: u32, r: u32) -> u32 {
    if r == 0 {
        x
    } else {
        (x >> r) | (x << ((32 - r) as u32))
    }
}

pub(crate) fn rotate_right(x: u32, r: u32) -> (v: u32)
    requires
        r < 32,
    ensures
        v == ror32(x, r),
{
    if r == 0 {
        x
    } else {
        (x >> r) | (x << (32 - r))
    }
}

/// A sign-extended 24-bit branch field.
pub open spec fn sext24(imm24: int) -> int {
    if imm24 >= 0x80_0000 {
        imm24 - 0x100_0000
    } else {
        imm24
    }
}

/// Data-processing opcode: mnemonic, whether Rn is read, whether Rd is
/// written.
pub open spec fn spec_dp_opcode(opcode: u8, s: bool) -> (Mnemonic, bool, bool) {
    if opcode == 0 {
        (if s { Mnemonic::ANDS } else { Mnemonic::AND }, true, true)
    } else if opcode == 1 {
        (if s { Mnemonic::EORS } else { Mnemonic::EOR }, true, true)
    } else if opcode == 2 {
        (if s { Mnemonic::SUBS } else { Mnemonic::SUB }, true, true)
    } else if opcode == 3 {
        (if s { Mnemonic::RSBS } else { Mnemonic::RSB }, true, true)
    } else if opcode == 4 {
        (if s { Mnemonic::ADDS } else { Mnemonic::ADD }, true, true)
    } else if opcode == 5 {
        (if s { Mnemonic::ADCS } else { Mnemonic::ADC }, true, true)
    } else if opcode == 6 {
        (if s { Mnemonic::SBCS } else { Mnemonic::SBC }, true, true)
    } else if opcode == 7 {
        (if s { Mnemonic::RSCS } else { Mnemonic::RSC }, true, true)
    } else if opcode == 8 {
        (Mnemonic::TST, true, false)
    } else if opcode == 9 {
        (Mnemonic::TEQ, true, false)
    } else if opcode == 10 {
        (Mnemonic::CMP, true, false)
    } else if opcode == 11 {
        (Mnemonic::CMN, true, false)
    } else if opcode == 12 {
        (if s { Mnemonic::ORRS } else { Mnemonic::ORR }, true, true)
    } else if opcode == 13 {
        (if s { Mnemonic::MOVS } else { Mnemonic::MOV }, false, true)
    } else if opcode == 14 {
        (if s { Mnemonic::BICS } else { Mnemonic::BIC }, true, true)
    } else {
        (if s { Mnemonic::MVNS } else { Mnemonic::MVN }, false, true)
    }
}

/// Destination and first-source operands of a data-processing instruction.
pub open spec fn dp_regs(writes_rd: bool, uses_rn: bool, rd: u8, rn: u8) -> Seq<Operand> {
    (if writes_rd {
        seq![Operand::Reg(reg(rd))]
    } else {
        Seq::empty()
    }) + (if uses_rn {
        seq![Operand::Reg(reg(rn))]
    } else {
        Seq::empty()
    })
}

/// Register operand `Rm` shifted by an immediate (RRX for ROR #0).
pub open spec fn shifted_rm(rm: u8, shift_type: ShiftType, shift_imm: u8) -> Operand {
    if shift_imm == 0 && shift_type == ShiftType::LSL {
        Operand::Reg(reg(rm))
    } else if shift_imm == 0 && shift_type == ShiftType::ROR {
        Operand::ShiftedReg(ShiftedRegister { reg: reg(rm), shift: ShiftType::RRX, amount: 0 })
    } else {
        Operand::ShiftedReg(ShiftedRegister { reg: reg(rm), shift: shift_type, amount: shift_imm })
    }
}

/// Hint mnemonic for a hint number.
pub open spec fn hint_mnemonic(hint: u32) -> Mnemonic {
    if hint == 0 {
        Mnemonic::NOP
    } else if hint == 1 {
        Mnemonic::YIELD
    } else if hint == 2 {
        Mnemonic::WFE
    } else if hint == 3 {
        Mnemonic::WFI
    } else if hint == 4 {
        Mnemonic::SEV
    } else {
        Mnemonic::HINT
    }
}

pub open spec fn spec_hints_barriers(raw: u32) -> A32Shape {
    let op1 = (raw >> 20) & 0x7F;
    let op2 = (raw >> 4) & 0xF;
    if op1 == 0b0110010 {
        let m = if op2 == 0b0100 {
            Mnemonic::DSB
        } else if op2 == 0b0101 {
            Mnemonic::DMB
        } else if op2 == 0b0110 {
            Mnemonic::ISB
        } else {
            Mnemonic::UNDEFINED
        };
        (m, seq![Operand::Barrier(BarrierOption { bits: (raw & 0xF) as u8 })], false)
    } else if op1 == 0b0110001 && op2 == 0b0001 {
        (Mnemonic::CLREX, Seq::empty(), false)
    } else if op1 == 0b0010000 && (raw & 0xFFF0) == 0xF000 {
        (hint_mnemonic(raw & 0xFF), Seq::empty(), false)
    } else {
        (Mnemonic::UNDEFINED, Seq::empty(), false)
    }
}

pub open spec fn spec_blx_imm(raw: u32) -> A32Shape {
    let h = (raw >> 24) & 1;
    let imm24 = raw & 0xFFFFFF;
    (Mnemonic::BLX, seq![Operand::Label((sext24(imm24 as int) * 4 + h * 2) as i64)], false)
}

pub open spec fn spec_svc(raw: u32) -> A32Shape {
    (Mnemonic::SVC, seq![Operand::Imm(Immediate { value: (raw & 0xFFFFFF) as i64 })], false)
}

pub open spec fn spec_coprocessor_dp(raw: u32) -> A32Shape {
    if (raw >> 4) & 1 == 0 {
        (Mnemonic::CDP, Seq::empty(), false)
    } else {
        let m = if (raw >> 20) & 1 == 1 {
            Mnemonic::MRC
        } else {
            Mnemonic::MCR
        };
        (
            m,
            seq![
                Operand::Imm(Immediate { value: (((raw >> 8) & 0xF) as u8) as i64 }),
                Operand::Imm(Immediate { value: (((raw >> 21) & 0x7) as u8) as i64 }),
                Operand::Reg(reg(((raw >> 12) & 0xF) as u8)),
                Operand::Imm(Immediate { value: (((raw >> 16) & 0xF) as u8) as i64 }),
                Operand::Imm(Immediate { value: ((raw & 0xF) as u8) as i64 }),
                Operand::Imm(Immediate { value: (((raw >> 5) & 0x7) as u8) as i64 }),
            ],
            false,
        )
    }
}

pub open spec fn spec_unconditional(raw: u32) -> A32Shape {
    let op1 = (raw >> 20) & 0xFF;
    if op1 >> 5 == 0b010 {
        spec_hints_barriers(raw)
    } else if op1 >> 5 == 0b101 {
        spec_blx_imm(raw)
    } else if op1 >> 5 == 0b110 || op1 >> 5 == 0b111 {
        if (raw >> 24) & 1 == 1 {
            spec_svc(raw)
        } else {
            spec_coprocessor_dp(raw)
        }
    } else {
        (Mnemonic::UNDEFINED, Seq::empty(), false)
    }
}

pub open spec fn spec_dp_register(raw: u32) -> A32Shape {
    let opcode = ((raw >> 21) & 0xF) as u8;
    let s = (raw >> 20) & 1 == 1;
    let (m, uses_rn, writes_rd) = spec_dp_opcode(opcode, s);
    let rd = ((raw >> 12) & 0xF) as u8;
    let rn = ((raw >> 16) & 0xF) as u8;
    let shift = shifted_rm(
        (raw & 0xF) as u8,
        shift_type_of(((raw >> 5) & 0x3) as u8),
        ((raw >> 7) & 0x1F) as u8,
    );
    (m, dp_regs(writes_rd, uses_rn, rd, rn).push(shift), s && writes_rd)
}

pub open spec fn spec_dp_immediate(raw: u32) -> A32Shape {
    let opcode = ((raw >> 21) & 0xF) as u8;
    let s = (raw >> 20) & 1 == 1;
    let rn = ((raw >> 16) & 0xF) as u8;
    let rd = ((raw >> 12) & 0xF) as u8;
    let rotate = ((raw >> 8) & 0xF) as u8;
    let imm8 = raw & 0xFF;
    if (raw >> 20) & 0xFF == 0x32 && rn == 0 && rd == 15 && rotate == 0 {
        (hint_mnemonic(imm8), Seq::empty(), false)
    } else if !s && (opcode == 0b1000 || opcode == 0b1010) {
        (
            if opcode == 0b1000 {
                Mnemonic::MOVZ
            } else {
                Mnemonic::MOVK
            },
            reg_ops(seq![rd]),
            false,
        )
    } else {
        let (m, uses_rn, writes_rd) = spec_dp_opcode(opcode, s);
        let imm = ror32(imm8, (rotate * 2) as u32) as i64;
        (m, dp_regs(writes_rd, uses_rn, rd, rn).push(Operand::Imm(Immediate { value: imm })), s
            && writes_rd)
    }
}

pub open spec fn spec_multiply(raw: u32) -> A32Shape {
    let op = (raw >> 21) & 0xF;
    let s = (raw >> 20) & 1 == 1;
    let rd = ((raw >> 16) & 0xF) as u8;
    let rn = ((raw >> 12) & 0xF) as u8;
    let rs = ((raw >> 8) & 0xF) as u8;
    let rm = (raw & 0xF) as u8;
    let (m, regs) = if op == 0 {
        (if s { Mnemonic::MULS } else { Mnemonic::MUL }, seq![rd, rm, rs])
    } else if op == 1 {
        (Mnemonic::MLA, seq![rd, rm, rs, rn])
    } else if op == 4 {
        (if s { Mnemonic::UMULLS } else { Mnemonic::UMULL }, seq![rn, rd, rm, rs])
    } else if op == 5 {
        (Mnemonic::UMLAL, seq![rn, rd, rm, rs])
    } else if op == 6 {
        (if s { Mnemonic::SMULLS } else { Mnemonic::SMULL }, seq![rn, rd, rm, rs])
    } else if op == 7 {
        (Mnemonic::SMLAL, seq![rn, rd, rm, rs])
    } else if op == 2 {
        (Mnemonic::UMAAL, seq![rn, rd, rm, rs])
    } else if op == 3 {
        (Mnemonic::MLS, seq![rd, rm, rs, rn])
    } else {
        (Mnemonic::UNKNOWN, Seq::empty())
    };
    (m, reg_ops(regs), s)
}

/// Addressing mode from the P and W bits.
pub open spec fn addressing_mode(p: u32, w: u32) -> AddressingMode {
    if p == 1 && w == 0 {
        AddressingMode::Offset
    } else if p == 1 && w == 1 {
        AddressingMode::PreIndex
    } else {
        AddressingMode::PostIndex
    }
}

pub open spec fn spec_load_store_word_byte(raw: u32, reg_offset: bool) -> A32Shape {
    let p = (raw >> 24) & 1;
    let u = (raw >> 23) & 1;
    let b = (raw >> 22) & 1;
    let w = (raw >> 21) & 1;
    let l = (raw >> 20) & 1;
    let rn = ((raw >> 16) & 0xF) as u8;
    let rt = ((raw >> 12) & 0xF) as u8;
    let m = if l == 0 && b == 0 {
        Mnemonic::STR
    } else if l == 0 {
        Mnemonic::STRB
    } else if b == 0 {
        Mnemonic::LDR
    } else {
        Mnemonic::LDRB
    };
    let offset = if reg_offset {
        let shift_imm = ((raw >> 7) & 0x1F) as u8;
        let shift_type = shift_type_of(((raw >> 5) & 0x3) as u8);
        let rm = (raw & 0xF) as u8;
        if shift_imm == 0 && shift_type == ShiftType::LSL {
            MemOffset::Reg(reg(rm))
        } else {
            MemOffset::ShiftedReg(ShiftedRegister { reg: reg(rm), shift: shift_type, amount: shift_imm })
        }
    } else {
        let imm12 = (raw & 0xFFF) as i64;
        MemOffset::Imm(if u == 1 { imm12 } else { (-imm12) as i64 })
    };
    let mem = MemOperand { base: reg(rn), offset, mode: addressing_mode(p, w) };
    (m, seq![Operand::Reg(reg(rt)), Operand::Mem(mem)], false)
}

pub open spec fn spec_extra_load_store(raw: u32) -> A32Shape {
    let p = (raw >> 24) & 1;
    let u = (raw >> 23) & 1;
    let i = (raw >> 22) & 1;
    let w = (raw >> 21) & 1;
    let l = (raw >> 20) & 1;
    let rn = ((raw >> 16) & 0xF) as u8;
    let rt = ((raw >> 12) & 0xF) as u8;
    let op1 = (raw >> 5) & 0x3;
    let rm_or_imm = (raw & 0xF) as u8;
    let imm_hi = ((raw >> 8) & 0xF) as u8;
    let m = if l == 1 && op1 == 1 {
        Mnemonic::LDRH
    } else if l == 1 && op1 == 2 {
        Mnemonic::LDRSB
    } else if l == 1 && op1 == 3 {
        Mnemonic::LDRSH
    } else if l == 0 && op1 == 1 {
        Mnemonic::STRH
    } else if l == 0 && op1 == 2 {
        Mnemonic::LDP
    } else if l == 0 && op1 == 3 {
        Mnemonic::STP
    } else {
        Mnemonic::UNKNOWN
    };
    let offset = if i == 1 {
        let imm8 = ((imm_hi << 4) | rm_or_imm) as i64;
        MemOffset::Imm(if u == 1 { imm8 } else { (-imm8) as i64 })
    } else {
        MemOffset::Reg(reg(rm_or_imm))
    };
    let mem = MemOperand { base: reg(rn), offset, mode: addressing_mode(p, w) };
    (m, seq![Operand::Reg(reg(rt)), Operand::Mem(mem)], false)
}

pub open spec fn spec_load_store_multiple(raw: u32) -> A32Shape {
    let p = (raw >> 24) & 1;
    let u = (raw >> 23) & 1;
    let w = (raw >> 21) & 1;
    let l = (raw >> 20) & 1;
    let rn = ((raw >> 16) & 0xF) as u8;
    let mask = (raw & 0xFFFF) as u16;
    let m0 = if l == 1 {
        if p == 0 && u == 1 {
            Mnemonic::LDMIA
        } else if p == 1 && u == 1 {
            Mnemonic::LDMIB
        } else if p == 0 {
            Mnemonic::LDMDA
        } else {
            Mnemonic::LDMDB
        }
    } else {
        if p == 0 && u == 1 {
            Mnemonic::STMIA
        } else if p == 1 && u == 1 {
            Mnemonic::STMIB
        } else if p == 0 {
            Mnemonic::STMDA
        } else {
            Mnemonic::STMDB
        }
    };
    let m = if rn == 13 && w == 1 && l == 1 && p == 0 && u == 1 {
        Mnemonic::POP
    } else if rn == 13 && w == 1 && l == 0 && p == 1 && u == 0 {
        Mnemonic::PUSH
    } else {
        m0
    };
    let list = Operand::RegList(RegisterList { mask });
    if m == Mnemonic::PUSH || m == Mnemonic::POP {
        (m, seq![list], false)
    } else {
        (m, seq![Operand::Reg(reg(rn)), list], false)
    }
}

pub open spec fn spec_branch(raw: u32) -> A32Shape {
    let imm24 = raw & 0xFFFFFF;
    (
        if (raw >> 24) & 1 == 1 {
            Mnemonic::BL
        } else {
            Mnemonic::B
        },
        seq![Operand::Label((sext24(imm24 as int) * 4) as i64)],
        false,
    )
}

pub open spec fn spec_coprocessor_load_store(raw: u32) -> A32Shape {
    (
        if (raw >> 20) & 1 == 1 {
            Mnemonic::LDC
        } else {
            Mnemonic::STC
        },
        Seq::empty(),
        false,
    )
}

pub open spec fn spec_dp_misc(raw: u32) -> A32Shape {
    let op = (raw >> 20) & 0x1F;
    let op2 = (raw >> 4) & 0xF;
    let rd = ((raw >> 12) & 0xF) as u8;
    let rn = ((raw >> 16) & 0xF) as u8;
    let rm = (raw & 0xF) as u8;
    if op == 0b10010 && op2 == 0b0001 {
        (Mnemonic::BX, reg_ops(seq![rm]), false)
    } else if op == 0b10010 && op2 == 0b0011 {
        (Mnemonic::BLX, reg_ops(seq![rm]), false)
    } else if op == 0b10110 && op2 == 0b0001 {
        (Mnemonic::CLZ, reg_ops(seq![rd, rm]), false)
    } else if (op & 0b11001) == 0b10000 && op2 == 0b0101 {
        (Mnemonic::A32_SAT_ADDSUB, reg_ops(seq![rd, rm, rn]), false)
    } else if (op & 0b11001) == 0b10000 && (op2 & 0b1001) == 0b1000 {
        (Mnemonic::A32_HMUL, reg_ops(seq![rd]), false)
    } else if op2 == 0b1001 {
        spec_multiply(raw)
    } else if (op2 & 0b1001) == 0b1001 {
        spec_extra_load_store(raw)
    } else {
        spec_dp_register(raw)
    }
}

pub open spec fn spec_media(raw: u32) -> A32Shape {
    let op1 = (raw >> 20) & 0x1F;
    let op2 = (raw >> 5) & 0x7;
    let rd = ((raw >> 12) & 0xF) as u8;
    let rn = ((raw >> 16) & 0xF) as u8;
    let rm = (raw & 0xF) as u8;
    let ra = ((raw >> 8) & 0xF) as u8;
    let bits_27_21 = (raw >> 21) & 0x7F;
    let bits_5_4 = (raw >> 4) & 0x3;
    let bits_7_4 = (raw >> 4) & 0xF;
    if (raw >> 23) & 0x1F == 0b01100 {
        (Mnemonic::A32_PARALLEL, reg_ops(seq![rd, rn, rm]), false)
    } else if bits_27_21 == 0b0110101 && bits_5_4 == 0b01 {
        (Mnemonic::SSAT, reg_ops(seq![rd]), false)
    } else if bits_27_21 == 0b0110111 && bits_5_4 == 0b01 {
        (Mnemonic::USAT, reg_ops(seq![rd]), false)
    } else if ((raw >> 20) & 0xFF == 0b01101010 || (raw >> 20) & 0xFF == 0b01101110) && bits_7_4
        == 0b0011 {
        (Mnemonic::A32_SAT16, reg_ops(seq![rd]), false)
    } else if op1 == 0b01000 && (op2 == 0b000 || op2 == 0b010) {
        (Mnemonic::A32_PKH, reg_ops(seq![rd, rn, rm]), false)
    } else if op1 == 0b01000 && op2 == 0b011 {
        (Mnemonic::A32_EXTEND, reg_ops(seq![rd, rn, rm]), false)
    } else if op1 == 0b01000 && op2 == 0b101 {
        (Mnemonic::A32_SEL, reg_ops(seq![rd, rn, rm]), false)
    } else if op1 == 0b01010 && op2 == 0b011 {
        (Mnemonic::A32_EXTEND, reg_ops(seq![rd, rn, rm]), false)
    } else if op1 == 0b01011 && op2 == 0b001 {
        (Mnemonic::REV, reg_ops(seq![rd, rm]), false)
    } else if op1 == 0b01011 && op2 == 0b101 {
        (Mnemonic::REV16, reg_ops(seq![rd, rm]), false)
    } else if op1 == 0b01011 && op2 == 0b011 {
        (Mnemonic::A32_EXTEND, reg_ops(seq![rd, rn, rm]), false)
    } else if (op1 == 0b01100 || op1 == 0b01110) && op2 == 0b011 {
        (Mnemonic::A32_EXTEND, reg_ops(seq![rd, rn, rm]), false)
    } else if op1 == 0b01111 && op2 == 0b001 {
        (Mnemonic::RBIT, reg_ops(seq![rd, rm]), false)
    } else if op1 == 0b01111 && op2 == 0b101 {
        (Mnemonic::REVSH, reg_ops(seq![rd, rm]), false)
    } else if op1 == 0b01111 && op2 == 0b011 {
        (Mnemonic::A32_EXTEND, reg_ops(seq![rd, rn, rm]), false)
    } else if op1 == 0b10000 {
        (Mnemonic::A32_DUAL, reg_ops(seq![rd, rn, rm, ra]), false)
    } else if op1 == 0b10100 {
        (Mnemonic::A32_SMLALD, reg_ops(seq![rd, rn, rm, ra]), false)
    } else if op1 == 0b10101 {
        (Mnemonic::A32_SMMUL, reg_ops(seq![rd, rn, rm, ra]), false)
    } else if op1 == 0b11000 && op2 == 0b000 {
        (Mnemonic::A32_USAD, reg_ops(seq![rd, rn, rm, ra]), false)
    } else if op1 >> 1 == 0b1101 {
        (Mnemonic::SBFX, reg_ops(seq![rd]), false)
    } else if op1 >> 1 == 0b1110 {
        (
            if (raw & 0xF) == 0xF {
                Mnemonic::BFC
            } else {
                Mnemonic::BFI
            },
            reg_ops(seq![rd]),
            false,
        )
    } else if op1 >> 1 == 0b1111 {
        (Mnemonic::UBFX, reg_ops(seq![rd]), false)
    } else {
        (Mnemonic::UNKNOWN, Seq::empty(), false)
    }
}

/// Shape of a conditional (cond != 0b1111) A32 instruction.
pub open spec fn spec_conditional(raw: u32) -> A32Shape {
    let op1 = (raw >> 25) & 0x7;
    let op = (raw >> 4) & 1;
    if op1 == 0b000 {
        let op2 = (raw >> 4) & 0xF;
        if op2 != 0b1001 && (op2 & 0b1001) == 0b1001 {
            spec_extra_load_store(raw)
        } else {
            spec_dp_misc(raw)
        }
    } else if op1 == 0b001 {
        spec_dp_immediate(raw)
    } else if op1 == 0b010 {
        spec_load_store_word_byte(raw, false)
    } else if op1 == 0b011 {
        if op == 0 {
            spec_load_store_word_byte(raw, true)
        } else {
            spec_media(raw)
        }
    } else if op1 == 0b100 {
        spec_load_store_multiple(raw)
    } else if op1 == 0b101 {
        spec_branch(raw)
    } else if op1 == 0b110 {
        spec_coprocessor_load_store(raw)
    } else if (raw >> 24) & 1 == 1 {
        spec_svc(raw)
    } else {
        spec_coprocessor_dp(raw)
    }
}

/// Condition attached to a decoded A32 instruction: none for AL and for the
/// unconditional space.
pub open spec fn a32_cond(raw: u32) -> Option<Condition> {
    let c = condition_of(((raw >> 28) & 0xF) as u8);
    if (raw >> 28) & 0xF == 0xF || c == Condition::AL {
        None
    } else {
        Some(c)
    }
}

/// Shape of any A32 instruction.
pub open spec fn a32_shape(raw: u32) -> A32Shape {
    if (raw >> 28) & 0xF == 0xF {
        spec_unconditional(raw)
    } else {
        spec_conditional(raw)
    }
}

/// Bit facts about a data-processing word that place it in the decode tree.
proof fn lemma_dp_fields(raw: u32)
    by (bit_vector)
    ensures
        (raw >> 28) & 0xF == raw >> 28,
        (raw >> 21) & 0xF < 16,
        8 <= (raw >> 21) & 0xF < 12 ==> (raw >> 23) & 3 == 2,
        raw & 0x0E00_0000 == 0x0200_0000 ==> (raw >> 25) & 0x7 == 1,
        raw & 0x0E00_0080 == 0 ==> (raw >> 25) & 0x7 == 0 && (raw >> 4) & 0xF != 0b1001 && ((raw
            >> 4) & 0xF) & 0b1001 != 0b1001,
        ((raw >> 20) & 0x1F == 0b10010 || (raw >> 20) & 0x1F == 0b10110 || ((raw >> 20) & 0x1F)
            & 0b11001 == 0b10000 || (raw >> 20) & 0xFF == 0x32) ==> ((raw >> 23) & 3 == 2 && (raw
            >> 20) & 1 == 0),
{
}

/// A32 data-processing encodings (immediate form, and register form with
/// bit 7 clear) decode to the mnemonic the ARM table gives their opcode
/// field, bits 24:21: AND, EOR, SUB, RSB, ADD, ADC, SBC, RSC, TST, TEQ, CMP,
/// CMN, ORR, MOV, BIC, MVN, in their flag-setting forms when S (bit 20) is
/// set. The compares are encoded with S set; with it clear those opcodes
/// are other instructions.
pub proof fn lemma_dp_mnemonics(raw: u32)
    requires
        raw >> 28 != 0xF,
        raw & 0x0E00_0000 == 0x0200_0000 || raw & 0x0E00_0080 == 0,
        (raw >> 23) & 3 == 2 ==> (raw >> 20) & 1 == 1,
    ensures
        ({
            let op = (raw >> 21) & 0xF;
            let s = (raw >> 20) & 1 == 1;
            let m = a32_shape(raw).0;
            &&& op == 0 ==> m == (if s { Mnemonic::ANDS } else { Mnemonic::AND })
            &&& op == 1 ==> m == (if s { Mnemonic::EORS } else { Mnemonic::EOR })
            &&& op == 2 ==> m == (if s { Mnemonic::SUBS } else { Mnemonic::SUB })
            &&& op == 3 ==> m == (if s { Mnemonic::RSBS } else { Mnemonic::RSB })
            &&& op == 4 ==> m == (if s { Mnemonic::ADDS } else { Mnemonic::ADD })
            &&& op == 5 ==> m == (if s { Mnemonic::ADCS } else { Mnemonic::ADC })
            &&& op == 6 ==> m == (if s { Mnemonic::SBCS } else { Mnemonic::SBC })
            &&& op == 7 ==> m == (if s { Mnemonic::RSCS } else { Mnemonic::RSC })
            &&& op == 8 ==> m == Mnemonic::TST
            &&& op == 9 ==> m == Mnemonic::TEQ
            &&& op == 10 ==> m == Mnemonic::CMP
            &&& op == 11 ==> m == Mnemonic::CMN
            &&& op == 12 ==> m == (if s { Mnemonic::ORRS } else { Mnemonic::ORR })
            &&& op == 13 ==> m == (if s { Mnemonic::MOVS } else { Mnemonic::MOV })
            &&& op == 14 ==> m == (if s { Mnemonic::BICS } else { Mnemonic::BIC })
            &&& op == 15 ==> m == (if s { Mnemonic::MVNS } else { Mnemonic::MVN })
        }),
{
    lemma_dp_fields(raw);
}

fn insn(m: Mnemonic, raw: u32) -> (r: DecodedInsn)
    ensures
        r.is(m, None, Seq::empty(), false, raw, 4, ExecutionState::Aarch32),
{
    DecodedInsn::new(m, ExecutionState::Aarch32, raw, 4)
}

/// An instruction without operands.
fn regs_insn0(m: Mnemonic, raw: u32) -> (r: Result<DecodedInsn, DecodeError>)
    ensures
        decodes_to(r, raw, (m, reg_ops(Seq::empty()), false)),
{
    let d = insn(m, raw);
    proof {
        assert(reg_ops(Seq::<u8>::empty()) =~= Seq::<Operand>::empty());
    }
    Ok(d)
}

/// An instruction whose operand is one register.
fn regs_insn1(m: Mnemonic, raw: u32, a: u8) -> (r: Result<DecodedInsn, DecodeError>)
    ensures
        decodes_to(r, raw, (m, reg_ops(seq![a]), false)),
{
    let d = insn(m, raw).with_operand(Operand::Reg(Register::raw(a, false, false)));
    proof {
        assert(d.operands@ =~= reg_ops(seq![a]));
    }
    Ok(d)
}

/// An instruction whose operands are two registers.
fn regs_insn2(m: Mnemonic, raw: u32, a: u8, b: u8) -> (r: Result<DecodedInsn, DecodeError>)
    ensures
        decodes_to(r, raw, (m, reg_ops(seq![a, b]), false)),
{
    let d = insn(m, raw).with_operand(Operand::Reg(Register::raw(a, false, false))).with_operand(
        Operand::Reg(Register::raw(b, false, false)),
    );
    proof {
        assert(d.operands@ =~= reg_ops(seq![a, b]));
    }
    Ok(d)
}

/// An instruction whose operands are three registers.
fn regs_insn3(m: Mnemonic, raw: u32, a: u8, b: u8, c: u8) -> (r: Result<DecodedInsn, DecodeError>)
    ensures
        decodes_to(r, raw, (m, reg_ops(seq![a, b, c]), false)),
{
    let d = insn(m, raw).with_operand(Operand::Reg(Register::raw(a, false, false))).with_operand(
        Operand::Reg(Register::raw(b, false, false)),
    ).with_operand(Operand::Reg(Register::raw(c, false, false)));
    proof {
        assert(d.operands@ =~= reg_ops(seq![a, b, c]));
    }
    Ok(d)
}

/// An instruction whose operands are four registers.
fn regs_insn4(m: Mnemonic, raw: u32, a: u8, b: u8, c: u8, e: u8) -> (r: Result<
    DecodedInsn,
    DecodeError,
>)
    ensures
        decodes_to(r, raw, (m, reg_ops(seq![a, b, c, e]), false)),
{
    let d = insn(m, raw).with_operand(Operand::Reg(Register::raw(a, false, false))).with_operand(
        Operand::Reg(Register::raw(b, false, false)),
    ).with_operand(Operand::Reg(Register::raw(c, false, false))).with_operand(
        Operand::Reg(Register::raw(e, false, false)),
    );
    proof {
        assert(d.operands@ =~= reg_ops(seq![a, b, c, e]));
    }
    Ok(d)
}

/// AArch32 instruction decoder.
pub struct Aarch32Decoder;

impl Aarch32Decoder {
    /// Decode a 32-bit AArch32 instruction.
    pub fn decode(raw: u32) -> (r: Result<DecodedInsn, DecodeError>)
        ensures
            r matches Ok(d) && d.is(
                a32_shape(raw).0,
                a32_cond(raw),
                a32_shape(raw).1,
                a32_shape(raw).2,
                raw,
                4,
                ExecutionState::Aarch32,
            ),
    {
        // Extract condition code (bits 31:28)
        let cond_bits = ((raw >> 28) & 0xF) as u8;
        let cond = Condition::from_bits(cond_bits);

        proof {
            assert(cond_bits & 0xF == cond_bits) by (bit_vector)
                requires
                    cond_bits == ((raw >> 28) & 0xF) as u8,
            ;
            assert((cond_bits == 15) == ((raw >> 28) & 0xF == 0xF)) by (bit_vector)
                requires
                    cond_bits == ((raw >> 28) & 0xF) as u8,
            ;
        }
        // Unconditional instructions (cond = 0b1111)
        if cond_bits == 0b1111 {
            return Self::decode_unconditional(raw);
        }

        // Extract op1 (bits 27:25) and op (bit 4)
        let op1 = (raw >> 25) & 0x7;
        let op = (raw >> 4) & 1;

        let r = if op1 == 0b000 {
            // 0b000: Data processing and misc
            // Check bits [7:4] to distinguish instruction types
            let op2 = (raw >> 4) & 0xF;
            if op2 == 0b1001 {
                // Multiply instructions (bits [7:4] = 1001)
                Self::decode_dp_misc(raw)
            } else if (op2 & 0b1001) == 0b1001 {
                // Extra load/store (bits [7:4] = 1x11 or 1xx1, but not 1001)
                Self::decode_extra_load_store(raw)
            } else {
                // Data processing register/immediate shift
                Self::decode_dp_misc(raw)
            }
        } else if op1 == 0b001 {
            // Data processing immediate (and MSR immediate)
            Self::decode_dp_immediate(raw)
        } else if op1 == 0b010 {
            // Load/store word and unsigned byte (immediate)
            Self::decode_load_store_word_byte(raw, false)
        } else if op1 == 0b011 {
            // Load/store word and unsigned byte (register) / media
            if op == 0 {
                Self::decode_load_store_word_byte(raw, true)
            } else {
                Self::decode_media(raw)
            }
        } else if op1 == 0b100 {
            // Load/store multiple
            Self::decode_load_store_multiple(raw)
        } else if op1 == 0b101 {
            // Branch / branch with link
            Self::decode_branch(raw)
        } else if op1 == 0b110 {
            // Coprocessor load/store, 2-reg transfer
            Self::decode_coprocessor_load_store(raw)
        } else {
            // Coprocessor data processing / SWI
            if (raw >> 24) & 1 == 1 {
                Self::decode_svc(raw)
            } else {
                Self::decode_coprocessor_dp(raw)
            }
        };
        let insn = match r {
            Ok(d) => d,
            Err(e) => {
                return Err(e);
            },
        };

        // Add condition to non-AL instructions
        let insn = if cond != Condition::AL {
            insn.with_cond(cond)
        } else {
            insn
        };

        Ok(insn)
    }

    // =========================================================================
    // Unconditional Instructions
    // =========================================================================

    fn decode_unconditional(raw: u32) -> (r: Result<DecodedInsn, DecodeError>)
        ensures
            decodes_to(r, raw, spec_unconditional(raw)),
    {
        let op1 = (raw >> 20) & 0xFF;

        if op1 >> 5 == 0b010 {
            // Memory hints, barriers, CLREX
            Self::decode_hints_barriers(raw)
        } else if op1 >> 5 == 0b101 {
            // BLX (immediate)
            Self::decode_blx_imm(raw)
        } else if op1 >> 5 == 0b110 || op1 >> 5 == 0b111 {
            // Handle as coprocessor with NV condition
            if (raw >> 24) & 1 == 1 {
                Self::decode_svc(raw)
            } else {
                Self::decode_coprocessor_dp(raw)
            }
        } else {
            Ok(insn(Mnemonic::UNDEFINED, raw))
        }
    }

    fn decode_hints_barriers(raw: u32) -> (r: Result<DecodedInsn, DecodeError>)
        ensures
            decodes_to(r, raw, spec_hints_barriers(raw)),
    {
        let op1 = (raw >> 20) & 0x7F;
        let op2 = (raw >> 4) & 0xF;

        if op1 == 0b0110010 {
            // Barriers
            let mnemonic = if op2 == 0b0100 {
                Mnemonic::DSB
            } else if op2 == 0b0101 {
                Mnemonic::DMB
            } else if op2 == 0b0110 {
                Mnemonic::ISB
            } else {
                Mnemonic::UNDEFINED
            };

            let option = BarrierOption::from_bits((raw & 0xF) as u8);
            proof {
                assert(((raw & 0xF) as u8) & 0xF == (raw & 0xF) as u8) by (bit_vector);
            }
            let d = insn(mnemonic, raw).with_operand(Operand::Barrier(option));
            proof {
                assert(d.operands@ =~= spec_hints_barriers(raw).1);
            }
            return Ok(d);
        }
        if op1 == 0b0110001 && op2 == 0b0001 {
            // CLREX
            return Ok(insn(Mnemonic::CLREX, raw));
        }
        // Hints: NOP, YIELD, WFE, WFI, SEV
        if op1 == 0b0010000 && (raw & 0xFFF0) == 0xF000 {
            let hint = raw & 0xFF;
            return Ok(insn(hint_mnemonic_of(hint), raw));
        }
        Ok(insn(Mnemonic::UNDEFINED, raw))
    }

    fn decode_blx_imm(raw: u32) -> (r: Result<DecodedInsn, DecodeError>)
        ensures
            decodes_to(r, raw, spec_blx_imm(raw)),
    {
        let h = ((raw >> 24) & 1) as i64;
        let imm24 = (raw & 0xFFFFFF) as i64;

        // Sign extend and shift
        let simm: i64 = if imm24 >= 0x80_0000 {
            imm24 - 0x100_0000
        } else {
            imm24
        };
        let offset = simm * 4 + h * 2;
        let d = insn(Mnemonic::BLX, raw).with_operand(Operand::Label(offset));
        proof {
            assert(d.operands@ =~= spec_blx_imm(raw).1);
        }
        Ok(d)
    }

    // =========================================================================
    // Data Processing and Miscellaneous
    // =========================================================================

    fn decode_dp_misc(raw: u32) -> (r: Result<DecodedInsn, DecodeError>)
        ensures
            decodes_to(r, raw, spec_dp_misc(raw)),
    {
        let op = (raw >> 20) & 0x1F;
        let op2 = (raw >> 4) & 0xF;

        // Check for special cases first
        if op == 0b10010 && op2 == 0b0001 {
            // BX
            return Self::decode_bx(raw);
        }
        if op == 0b10010 && op2 == 0b0011 {
            // BLX (register)
            return Self::decode_blx_reg(raw);
        }
        let rd = ((raw >> 12) & 0xF) as u8;
        let rn = ((raw >> 16) & 0xF) as u8;
        let rm = (raw & 0xF) as u8;
        // CLZ: op = 0b10110, op2 = 0b0001
        if op == 0b10110 && op2 == 0b0001 {
            return regs_insn2(Mnemonic::CLZ, raw, rd, rm);
        }
        // Miscellaneous / halfword-multiply space: S=0 with a TST/TEQ/CMP/CMN
        // opcode (op == 10xx0). These are NOT data-processing comparisons.
        if (op & 0b11001) == 0b10000 {
            if op2 == 0b0101 {
                // Saturating add/sub: QADD/QSUB/QDADD/QDSUB (Rd = sat(Rm op Rn))
                return regs_insn3(Mnemonic::A32_SAT_ADDSUB, raw, rd, rm, rn);
            }
            if (op2 & 0b1001) == 0b1000 {
                // Halfword/word multiplies: SMLA/SMUL/SMLAW/SMULW/SMLAL<x><y>
                return regs_insn1(Mnemonic::A32_HMUL, raw, rd);
            }
        }
        if op2 == 0b1001 {
            // Multiply instructions
            return Self::decode_multiply(raw);
        }
        if (op2 & 0b1001) == 0b1001 && op2 != 0b1001 {
            // Extra load/store
            return Self::decode_extra_load_store(raw);
        }
        // Data processing (register)
        Self::decode_dp_register(raw)
    }

    fn decode_dp_register(raw: u32) -> (r: Result<DecodedInsn, DecodeError>)
        ensures
            decodes_to(r, raw, spec_dp_register(raw)),
    {
        let opcode = ((raw >> 21) & 0xF) as u8;
        let s = (raw >> 20) & 1;
        let rn = ((raw >> 16) & 0xF) as u8;
        let rd = ((raw >> 12) & 0xF) as u8;
        let shift_imm = ((raw >> 7) & 0x1F) as u8;
        let shift_type = ShiftType::from_bits(((raw >> 5) & 0x3) as u8);
        proof {
            assert((((raw >> 5) & 0x3) as u8) & 3 == ((raw >> 5) & 0x3) as u8) by (bit_vector);
        }
        let rm = (raw & 0xF) as u8;

        proof {
            assert((((raw >> 21) & 0xF) as u8) < 16) by (bit_vector);
        }
        let (mnemonic, uses_rn, writes_rd) = Self::dp_opcode_to_mnemonic(opcode, s == 1);

        let mut d = insn(mnemonic, raw);
        if s == 1 && writes_rd {
            d.sets_flags = true;
        }
        if writes_rd {
            d = d.with_operand(Operand::Reg(Register::raw(rd, false, false)));
        }
        if uses_rn {
            d = d.with_operand(Operand::Reg(Register::raw(rn, false, false)));
        }

        // Add shifted register operand
        let rm_reg = Register::raw(rm, false, false);
        if shift_imm == 0 && shift_type == ShiftType::LSL {
            d = d.with_operand(Operand::Reg(rm_reg));
        } else if shift_imm == 0 && shift_type == ShiftType::ROR {
            // RRX
            d = d.with_operand(
                Operand::ShiftedReg(ShiftedRegister::new(rm_reg, ShiftType::RRX, 0)),
            );
        } else {
            d = d.with_operand(
                Operand::ShiftedReg(ShiftedRegister::new(rm_reg, shift_type, shift_imm)),
            );
        }
        proof {
            assert(d.operands@ =~= spec_dp_register(raw).1);
        }
        Ok(d)
    }

    fn decode_dp_immediate(raw: u32) -> (r: Result<DecodedInsn, DecodeError>)
        ensures
            decodes_to(r, raw, spec_dp_immediate(raw)),
    {
        let opcode = ((raw >> 21) & 0xF) as u8;
        let s = (raw >> 20) & 1;
        let rn = ((raw >> 16) & 0xF) as u8;
        let rd = ((raw >> 12) & 0xF) as u8;
        let rotate = ((raw >> 8) & 0xF) as u8;
        let imm8 = raw & 0xFF;
        proof {
            assert(s <= 1) by (bit_vector)
                requires
                    s == (raw >> 20) & 1,
            ;
            assert(rotate < 16) by (bit_vector)
                requires
                    rotate == ((raw >> 8) & 0xF) as u8,
            ;
        }

        // Hint instructions (NOP, YIELD, WFE, WFI, SEV):
        // cond 0011 0010 0000 1111 0000 0000 hint
        let bits_27_20 = (raw >> 20) & 0xFF;
        if bits_27_20 == 0x32 && rn == 0 && rd == 15 && rotate == 0 {
            return Ok(insn(hint_mnemonic_of(imm8), raw));
        }
        // 16-bit immediate moves occupy the S=0 slots of the TST/CMP opcodes:
        //   opcode 1000 = MOVW (move wide), imm16 = imm4:imm12
        //   opcode 1010 = MOVT (move top)
        // (MOVZ/MOVK mnemonics are reused; exec reads the imm fields from raw.)
        if s == 0 && (opcode == 0b1000 || opcode == 0b1010) {
            let m = if opcode == 0b1000 {
                Mnemonic::MOVZ
            } else {
                Mnemonic::MOVK
            };
            return regs_insn1(m, raw, rd);
        }
        // Decode immediate: rotate_right(imm8, rotate * 2)
        let imm = rotate_right(imm8, (rotate * 2) as u32) as i64;

        proof {
            assert((((raw >> 21) & 0xF) as u8) < 16) by (bit_vector);
        }
        let (mnemonic, uses_rn, writes_rd) = Self::dp_opcode_to_mnemonic(opcode, s == 1);

        let mut d = insn(mnemonic, raw);
        if s == 1 && writes_rd {
            d.sets_flags = true;
        }
        if writes_rd {
            d = d.with_operand(Operand::Reg(Register::raw(rd, false, false)));
        }
        if uses_rn {
            d = d.with_operand(Operand::Reg(Register::raw(rn, false, false)));
        }
        d = d.with_operand(Operand::Imm(Immediate::new(imm)));
        proof {
            assert(imm8 & 0xFF == imm8) by (bit_vector)
                requires
                    imm8 == raw & 0xFF,
            ;
            assert(d.operands@ =~= spec_dp_immediate(raw).1);
        }
        Ok(d)
    }

    fn dp_opcode_to_mnemonic(opcode: u8, s: bool) -> (r: (Mnemonic, bool, bool))
        requires
            opcode < 16,
        ensures
            r == spec_dp_opcode(opcode, s),
    {
        // Returns (mnemonic, uses_rn, writes_rd)
        match opcode {
            0b0000 => (if s { Mnemonic::ANDS } else { Mnemonic::AND }, true, true),
            0b0001 => (if s { Mnemonic::EORS } else { Mnemonic::EOR }, true, true),
            0b0010 => (if s { Mnemonic::SUBS } else { Mnemonic::SUB }, true, true),
            0b0011 => (if s { Mnemonic::RSBS } else { Mnemonic::RSB }, true, true),
            0b0100 => (if s { Mnemonic::ADDS } else { Mnemonic::ADD }, true, true),
            0b0101 => (if s { Mnemonic::ADCS } else { Mnemonic::ADC }, true, true),
            0b0110 => (if s { Mnemonic::SBCS } else { Mnemonic::SBC }, true, true),
            0b0111 => (if s { Mnemonic::RSCS } else { Mnemonic::RSC }, true, true),
            0b1000 => (Mnemonic::TST, true, false),  // S is always 1
            0b1001 => (Mnemonic::TEQ, true, false),
            0b1010 => (Mnemonic::CMP, true, false),
            0b1011 => (Mnemonic::CMN, true, false),
            0b1100 => (if s { Mnemonic::ORRS } else { Mnemonic::ORR }, true, true),
            0b1101 => (if s { Mnemonic::MOVS } else { Mnemonic::MOV }, false, true),
            0b1110 => (if s { Mnemonic::BICS } else { Mnemonic::BIC }, true, true),
            _ => (if s { Mnemonic::MVNS } else { Mnemonic::MVN }, false, true),
        }
    }

    fn decode_bx(raw: u32) -> (r: Result<DecodedInsn, DecodeError>)
        ensures
            decodes_to(r, raw, (Mnemonic::BX, reg_ops(seq![(raw & 0xF) as u8]), false)),
    {
        let rm = (raw & 0xF) as u8;
        regs_insn1(Mnemonic::BX, raw, rm)
    }

    fn decode_blx_reg(raw: u32) -> (r: Result<DecodedInsn, DecodeError>)
        ensures
            decodes_to(r, raw, (Mnemonic::BLX, reg_ops(seq![(raw & 0xF) as u8]), false)),
    {
        let rm = (raw & 0xF) as u8;
        regs_insn1(Mnemonic::BLX, raw, rm)
    }

    // =========================================================================
    // Multiply Instructions
    // =========================================================================

    fn decode_multiply(raw: u32) -> (r: Result<DecodedInsn, DecodeError>)
        ensures
            decodes_to(r, raw, spec_multiply(raw)),
    {
        let op = (raw >> 21) & 0xF;
        let s = (raw >> 20) & 1;
        let rd = ((raw >> 16) & 0xF) as u8;
        let rn = ((raw >> 12) & 0xF) as u8;
        let rs = ((raw >> 8) & 0xF) as u8;
        let rm = (raw & 0xF) as u8;

        let r = if op == 0b0000 {
            // MUL
            let m = if s == 1 {
                Mnemonic::MULS
            } else {
                Mnemonic::MUL
            };
            regs_insn3(m, raw, rd, rm, rs)
        } else if op == 0b0001 {
            // MLA
            regs_insn4(Mnemonic::MLA, raw, rd, rm, rs, rn)
        } else if op == 0b0100 {
            // UMULL: RdLo, RdHi, Rm, Rs
            let m = if s == 1 {
                Mnemonic::UMULLS
            } else {
                Mnemonic::UMULL
            };
            regs_insn4(m, raw, rn, rd, rm, rs)
        } else if op == 0b0101 {
            // UMLAL
            regs_insn4(Mnemonic::UMLAL, raw, rn, rd, rm, rs)
        } else if op == 0b0110 {
            // SMULL
            let m = if s == 1 {
                Mnemonic::SMULLS
            } else {
                Mnemonic::SMULL
            };
            regs_insn4(m, raw, rn, rd, rm, rs)
        } else if op == 0b0111 {
            // SMLAL
            regs_insn4(Mnemonic::SMLAL, raw, rn, rd, rm, rs)
        } else if op == 0b0010 {
            // UMAAL (RdHi, RdLo, Rm, Rs) -- no S variant
            regs_insn4(Mnemonic::UMAAL, raw, rn, rd, rm, rs)
        } else if op == 0b0011 {
            // MLS
            regs_insn4(Mnemonic::MLS, raw, rd, rm, rs, rn)
        } else {
            regs_insn0(Mnemonic::UNKNOWN, raw)
        };
        let mut d = match r {
            Ok(d) => d,
            Err(e) => {
                return Err(e);
            },
        };
        if s == 1 {
            d.sets_flags = true;
        }
        proof {
            assert(reg_ops(Seq::<u8>::empty()) =~= Seq::<Operand>::empty());
        }
        Ok(d)
    }

    // =========================================================================
    // Load/Store Instructions
    // =========================================================================

    fn decode_load_store_word_byte(raw: u32, reg_offset: bool) -> (r: Result<
        DecodedInsn,
        DecodeError,
    >)
        ensures
            decodes_to(r, raw, spec_load_store_word_byte(raw, reg_offset)),
    {
        let p = (raw >> 24) & 1;
        let u = (raw >> 23) & 1;
        let b = (raw >> 22) & 1;
        let w = (raw >> 21) & 1;
        let l = (raw >> 20) & 1;
        let rn = ((raw >> 16) & 0xF) as u8;
        let rt = ((raw >> 12) & 0xF) as u8;

        // Determine mnemonic
        let mnemonic = if l == 0 && b == 0 {
            Mnemonic::STR
        } else if l == 0 {
            Mnemonic::STRB
        } else if b == 0 {
            Mnemonic::LDR
        } else {
            Mnemonic::LDRB
        };

        // Calculate offset
        let offset: MemOffset = if reg_offset {
            let shift_imm = ((raw >> 7) & 0x1F) as u8;
            let shift_type = ShiftType::from_bits(((raw >> 5) & 0x3) as u8);
            proof {
                assert((((raw >> 5) & 0x3) as u8) & 3 == ((raw >> 5) & 0x3) as u8) by (bit_vector);
            }
            let rm = (raw & 0xF) as u8;
            if shift_imm == 0 && shift_type == ShiftType::LSL {
                MemOffset::Reg(Register::raw(rm, false, false))
            } else {
                MemOffset::ShiftedReg(
                    ShiftedRegister::new(Register::raw(rm, false, false), shift_type, shift_imm),
                )
            }
        } else {
            let imm12 = (raw & 0xFFF) as i64;
            let offset_val = if u == 1 {
                imm12
            } else {
                -imm12
            };
            MemOffset::Imm(offset_val)
        };

        // Determine addressing mode
        let mode = if p == 1 && w == 0 {
            AddressingMode::Offset
        } else if p == 1 && w == 1 {
            AddressingMode::PreIndex
        } else {
            AddressingMode::PostIndex
        };

        let mem = MemOperand { base: Register::raw(rn, false, false), offset, mode };
        let d = insn(mnemonic, raw).with_operand(Operand::Reg(Register::raw(rt, false, false))).with_operand(
            Operand::Mem(mem),
        );
        proof {
            assert(d.operands@ =~= spec_load_store_word_byte(raw, reg_offset).1);
        }
        Ok(d)
    }

    fn decode_extra_load_store(raw: u32) -> (r: Result<DecodedInsn, DecodeError>)
        ensures
            decodes_to(r, raw, spec_extra_load_store(raw)),
    {
        let p = (raw >> 24) & 1;
        let u = (raw >> 23) & 1;
        let i = (raw >> 22) & 1;
        let w = (raw >> 21) & 1;
        let l = (raw >> 20) & 1;
        let rn = ((raw >> 16) & 0xF) as u8;
        let rt = ((raw >> 12) & 0xF) as u8;
        let op1 = (raw >> 5) & 0x3;
        let rm_or_imm = (raw & 0xF) as u8;
        let imm_hi = ((raw >> 8) & 0xF) as u8;

        let mnemonic = if l == 1 && op1 == 0b01 {
            Mnemonic::LDRH
        } else if l == 1 && op1 == 0b10 {
            Mnemonic::LDRSB
        } else if l == 1 && op1 == 0b11 {
            Mnemonic::LDRSH
        } else if l == 0 && op1 == 0b01 {
            Mnemonic::STRH
        } else if l == 0 && op1 == 0b10 {
            // L=0 with op1 10/11 are the dual load/store (bits[7:4]=1101/1111).
            // LDP/STP are the shared exec entry points for LDRD/STRD.
            Mnemonic::LDP
        } else if l == 0 && op1 == 0b11 {
            Mnemonic::STP
        } else {
            Mnemonic::UNKNOWN
        };

        let offset = if i == 1 {
            let imm8 = ((imm_hi << 4) | rm_or_imm) as i64;
            let offset_val = if u == 1 {
                imm8
            } else {
                -imm8
            };
            MemOffset::Imm(offset_val)
        } else {
            MemOffset::Reg(Register::raw(rm_or_imm, false, false))
        };

        let mode = if p == 1 && w == 0 {
            AddressingMode::Offset
        } else if p == 1 && w == 1 {
            AddressingMode::PreIndex
        } else {
            AddressingMode::PostIndex
        };

        let mem = MemOperand { base: Register::raw(rn, false, false), offset, mode };
        let d = insn(mnemonic, raw).with_operand(Operand::Reg(Register::raw(rt, false, false))).with_operand(
            Operand::Mem(mem),
        );
        proof {
            assert(d.operands@ =~= spec_extra_load_store(raw).1);
        }
        Ok(d)
    }

    fn decode_load_store_multiple(raw: u32) -> (r: Result<DecodedInsn, DecodeError>)
        ensures
            decodes_to(r, raw, spec_load_store_multiple(raw)),
    {
        let p = (raw >> 24) & 1;
        let u = (raw >> 23) & 1;
        let w = (raw >> 21) & 1;
        let l = (raw >> 20) & 1;
        let rn = ((raw >> 16) & 0xF) as u8;
        let reg_list = (raw & 0xFFFF) as u16;

        // Determine mnemonic based on direction and incrementing
        let mnemonic = if l == 1 {
            if p == 0 && u == 1 {
                Mnemonic::LDMIA  // or LDMFD
            } else if p == 1 && u == 1 {
                Mnemonic::LDMIB  // or LDMED
            } else if p == 0 {
                Mnemonic::LDMDA  // or LDMFA
            } else {
                Mnemonic::LDMDB  // or LDMEA
            }
        } else {
            if p == 0 && u == 1 {
                Mnemonic::STMIA  // or STMEA
            } else if p == 1 && u == 1 {
                Mnemonic::STMIB  // or STMFA
            } else if p == 0 {
                Mnemonic::STMDA  // or STMED
            } else {
                Mnemonic::STMDB  // or STMFD
            }
        };

        // Check for PUSH/POP aliases
        let mnemonic = if rn == 13 && w == 1 && l == 1 && p == 0 && u == 1 {
            Mnemonic::POP  // LDMIA SP!, {regs} = POP {regs}
        } else if rn == 13 && w == 1 && l == 0 && p == 1 && u == 0 {
            Mnemonic::PUSH  // STMDB SP!, {regs} = PUSH {regs}
        } else {
            mnemonic
        };

        let is_push_pop = mnemonic == Mnemonic::PUSH || mnemonic == Mnemonic::POP;

        let mut d = insn(mnemonic, raw);

        // Add base register (not for PUSH/POP)
        if !is_push_pop {
            d = d.with_operand(Operand::Reg(Register::raw(rn, false, false)));
        }
        // Add register list
        d = d.with_operand(Operand::RegList(RegisterList::from_mask(reg_list)));
        proof {
            assert(d.operands@ =~= spec_load_store_multiple(raw).1);
        }
        Ok(d)
    }

    // =========================================================================
    // Branch Instructions
    // =========================================================================

    fn decode_branch(raw: u32) -> (r: Result<DecodedInsn, DecodeError>)
        ensures
            decodes_to(r, raw, spec_branch(raw)),
    {
        let l = (raw >> 24) & 1;
        let imm24 = (raw & 0xFFFFFF) as i64;

        // Sign extend and shift left by 2
        let simm: i64 = if imm24 >= 0x80_0000 {
            imm24 - 0x100_0000
        } else {
            imm24
        };
        let offset = simm * 4;

        let mnemonic = if l == 1 {
            Mnemonic::BL
        } else {
            Mnemonic::B
        };
        let d = insn(mnemonic, raw).with_operand(Operand::Label(offset));
        proof {
            assert(d.operands@ =~= spec_branch(raw).1);
        }
        Ok(d)
    }

    // =========================================================================
    // Coprocessor Instructions
    // =========================================================================

    fn decode_coprocessor_load_store(raw: u32) -> (r: Result<DecodedInsn, DecodeError>)
        ensures
            decodes_to(r, raw, spec_coprocessor_load_store(raw)),
    {
        let l = (raw >> 20) & 1;
        let mnemonic = if l == 1 {
            Mnemonic::LDC
        } else {
            Mnemonic::STC
        };
        Ok(insn(mnemonic, raw))
    }

    fn decode_coprocessor_dp(raw: u32) -> (r: Result<DecodedInsn, DecodeError>)
        ensures
            decodes_to(r, raw, spec_coprocessor_dp(raw)),
    {
        let op = (raw >> 4) & 1;

        if op == 0 {
            // CDP
            Ok(insn(Mnemonic::CDP, raw))
        } else {
            // MCR/MRC
            let l = (raw >> 20) & 1;
            let cp_num = ((raw >> 8) & 0xF) as u8;
            let op1 = ((raw >> 21) & 0x7) as u8;
            let crn = ((raw >> 16) & 0xF) as u8;
            let rt = ((raw >> 12) & 0xF) as u8;
            let crm = (raw & 0xF) as u8;
            let op2 = ((raw >> 5) & 0x7) as u8;

            let mnemonic = if l == 1 {
                Mnemonic::MRC
            } else {
                Mnemonic::MCR
            };
            let d = insn(mnemonic, raw).with_operand(Operand::Imm(Immediate::new(cp_num as i64))).with_operand(
                Operand::Imm(Immediate::new(op1 as i64)),
            ).with_operand(Operand::Reg(Register::raw(rt, false, false))).with_operand(
                Operand::Imm(Immediate::new(crn as i64)),
            ).with_operand(Operand::Imm(Immediate::new(crm as i64))).with_operand(
                Operand::Imm(Immediate::new(op2 as i64)),
            );
            proof {
                assert(d.operands@ =~= spec_coprocessor_dp(raw).1);
            }
            Ok(d)
        }
    }

    fn decode_svc(raw: u32) -> (r: Result<DecodedInsn, DecodeError>)
        ensures
            decodes_to(r, raw, spec_svc(raw)),
    {
        let imm24 = (raw & 0xFFFFFF) as i64;
        let d = insn(Mnemonic::SVC, raw).with_operand(Operand::Imm(Immediate::new(imm24)));
        proof {
            assert(d.operands@ =~= spec_svc(raw).1);
        }
        Ok(d)
    }

    // =========================================================================
    // Media Instructions
    // =========================================================================

    fn decode_media(raw: u32) -> (r: Result<DecodedInsn, DecodeError>)
        ensures
            decodes_to(r, raw, spec_media(raw)),
    {
        let op1 = (raw >> 20) & 0x1F;
        let op2 = (raw >> 5) & 0x7;
        let rd = ((raw >> 12) & 0xF) as u8;
        let rn = ((raw >> 16) & 0xF) as u8;
        let rm = (raw & 0xF) as u8;
        let ra = ((raw >> 8) & 0xF) as u8;  // Rs / Ra (bits 11:8)

        // Parallel add/sub (signed & unsigned): bits[27:23] == 0b01100.
        if (raw >> 23) & 0x1F == 0b01100 {
            return regs_insn3(Mnemonic::A32_PARALLEL, raw, rd, rn, rm);
        }
        // Saturate (the sat_imm field spans bit 20, so match the fixed bits).
        let bits_27_21 = (raw >> 21) & 0x7F;
        let bits_5_4 = (raw >> 4) & 0x3;
        if bits_27_21 == 0b0110101 && bits_5_4 == 0b01 {
            return regs_insn1(Mnemonic::SSAT, raw, rd);
        }
        if bits_27_21 == 0b0110111 && bits_5_4 == 0b01 {
            return regs_insn1(Mnemonic::USAT, raw, rd);
        }
        let bits_7_4 = (raw >> 4) & 0xF;
        if (raw >> 20) & 0xFF == 0b01101010 && bits_7_4 == 0b0011 {
            return regs_insn1(Mnemonic::A32_SAT16, raw, rd);  // SSAT16
        }
        if (raw >> 20) & 0xFF == 0b01101110 && bits_7_4 == 0b0011 {
            return regs_insn1(Mnemonic::A32_SAT16, raw, rd);  // USAT16
        }
        if op1 == 0b01000 {
            // PKH / SEL / SXTB16 / SXTAB16
            if op2 == 0b000 || op2 == 0b010 {
                return regs_insn3(Mnemonic::A32_PKH, raw, rd, rn, rm);
            } else if op2 == 0b011 {
                return regs_insn3(Mnemonic::A32_EXTEND, raw, rd, rn, rm);
            } else if op2 == 0b101 {
                return regs_insn3(Mnemonic::A32_SEL, raw, rd, rn, rm);
            }
        } else if op1 == 0b01010 && op2 == 0b011 {
            // SXTB / SXTAB (signed extend byte)
            return regs_insn3(Mnemonic::A32_EXTEND, raw, rd, rn, rm);
        } else if op1 == 0b01011 {
            // REV / REV16 / SXTH / SXTAH
            if op2 == 0b001 {
                return regs_insn2(Mnemonic::REV, raw, rd, rm);
            } else if op2 == 0b101 {
                return regs_insn2(Mnemonic::REV16, raw, rd, rm);
            } else if op2 == 0b011 {
                return regs_insn3(Mnemonic::A32_EXTEND, raw, rd, rn, rm);
            }
        } else if op1 == 0b01100 && op2 == 0b011 {
            // UXTB16 / UXTAB16
            return regs_insn3(Mnemonic::A32_EXTEND, raw, rd, rn, rm);
        } else if op1 == 0b01110 && op2 == 0b011 {
            // UXTB / UXTAB
            return regs_insn3(Mnemonic::A32_EXTEND, raw, rd, rn, rm);
        } else if op1 == 0b01111 {
            // RBIT / REVSH / UXTH / UXTAH
            if op2 == 0b001 {
                return regs_insn2(Mnemonic::RBIT, raw, rd, rm);
            } else if op2 == 0b101 {
                return regs_insn2(Mnemonic::REVSH, raw, rd, rm);
            } else if op2 == 0b011 {
                return regs_insn3(Mnemonic::A32_EXTEND, raw, rd, rn, rm);
            }
        } else if op1 == 0b10000 {
            // Signed multiply (dual / most-significant) + USAD8
            return regs_insn4(Mnemonic::A32_DUAL, raw, rd, rn, rm, ra);
        } else if op1 == 0b10100 {
            return regs_insn4(Mnemonic::A32_SMLALD, raw, rd, rn, rm, ra);
        } else if op1 == 0b10101 {
            return regs_insn4(Mnemonic::A32_SMMUL, raw, rd, rn, rm, ra);
        } else if op1 == 0b11000 && op2 == 0b000 {
            return regs_insn4(Mnemonic::A32_USAD, raw, rd, rn, rm, ra);
        }
        // Bit-field: SBFX (1101x), BFI/BFC (1110x), UBFX (1111x).
        if op1 >> 1 == 0b1101 {
            return regs_insn1(Mnemonic::SBFX, raw, rd);
        } else if op1 >> 1 == 0b1110 {
            if (raw & 0xF) == 0xF {
                return regs_insn1(Mnemonic::BFC, raw, rd);
            } else {
                return regs_insn1(Mnemonic::BFI, raw, rd);
            }
        } else if op1 >> 1 == 0b1111 {
            return regs_insn1(Mnemonic::UBFX, raw, rd);
        }
        Ok(insn(Mnemonic::UNKNOWN, raw))
    }
}

fn hint_mnemonic_of(hint: u32) -> (m: Mnemonic)
    ensures
        m == hint_mnemonic(hint),
{
    if hint == 0 {
        Mnemonic::NOP
    } else if hint == 1 {
        Mnemonic::YIELD
    } else if hint == 2 {
        Mnemonic::WFE
    } else if hint == 3 {
        Mnemonic::WFI
    } else if hint == 4 {
        Mnemonic::SEV
    } else {
        Mnemonic::HINT
    }
}

} // verus!
