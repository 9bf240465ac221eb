//! AArch32 media / DSP instructions (A32 encodings; the operation is
//! derived from the raw word): saturating add/subtract, halfword and dual
//! multiplies, most-significant-word multiply, sum of absolute differences,
//! pack, extend-and-add, parallel saturate, select and the parallel
//! add/subtract family.

use super::operands::field;
use super::{regs_step, write_reg, ExecResult, Executor};
use crate::arm::decoder::aarch32::{ror32, rotate_right};
use crate::arm::decoder::{thumb_state, DecodedInsn};
use crate::arm::execution::{lemma_mask_bounds, reg_read, ArmMemory, CpuState, Psr};
use vstd::prelude::*;

verus! {

// ============================================================================
// Register fields
// ============================================================================

/// (Rd, Rn, Rm) for 3-register media ops (A32 / T32 layouts).
pub open spec fn media_regs_spec(insn: DecodedInsn) -> (usize, usize, usize) {
    if thumb_state(insn.state) {
        (field(insn.raw, 8), field(insn.raw, 16), (insn.raw & 0xF) as usize)
    } else {
        (field(insn.raw, 12), field(insn.raw, 16), (insn.raw & 0xF) as usize)
    }
}

/// (Rd, Ra, Rm, Rn) for 4-register DSP multiplies (A32 / T32 layouts).
pub open spec fn dsp4_regs_spec(insn: DecodedInsn) -> (usize, usize, usize, usize) {
    if thumb_state(insn.state) {
        (field(insn.raw, 8), field(insn.raw, 12), (insn.raw & 0xF) as usize, field(insn.raw, 16))
    } else {
        (field(insn.raw, 16), field(insn.raw, 12), field(insn.raw, 8), (insn.raw & 0xF) as usize)
    }
}

/// The state with the Q flag set when `sat` holds.
pub open spec fn q_if(cpu: CpuState, sat: bool) -> CpuState {
    if sat {
        CpuState { cpsr: Psr { q: true, ..cpu.cpsr }, ..cpu }
    } else {
        cpu
    }
}

/// A 64-bit value saturated to 32 signed bits: (value, whether clamped).
pub open spec fn sat32(x: int) -> (u32, bool) {
    if x > i32::MAX {
        (0x7FFF_FFFF, true)
    } else if x < i32::MIN {
        (0x8000_0000, true)
    } else {
        (x as u32, false)
    }
}

/// A register value as a signed 64-bit number.
pub open spec fn s64(v: u32) -> i64 {
    (v as i32) as i64
}

// ============================================================================
// Saturating add/subtract
// ============================================================================

/// Canonical kind of QADD/QSUB/QDADD/QDSUB: 0, 1, 2, 3.
pub open spec fn sat_addsub_kind(insn: DecodedInsn) -> u32 {
    let raw = insn.raw;
    if thumb_state(insn.state) {
        let k = (raw >> 4) & 0x3;
        if k == 0 {
            0
        } else if k == 1 {
            2
        } else if k == 2 {
            1
        } else {
            3
        }
    } else {
        (raw >> 21) & 0x3
    }
}

/// QADD/QSUB (Rm ± Rn) and QDADD/QDSUB (Rm ± sat(2*Rn)) of kind `kind`,
/// saturated to 32 bits: (value, whether any step saturated).
pub open spec fn qaddsub_spec(m: int, n: int, kind: u32) -> (u32, bool) {
    let (dbl, dsat) = sat32(2 * n);
    if kind == 0 {
        sat32(m + n)
    } else if kind == 1 {
        sat32(m - n)
    } else if kind == 2 {
        (sat32(m + s64(dbl)).0, dsat || sat32(m + s64(dbl)).1)
    } else {
        (sat32(m - s64(dbl)).0, dsat || sat32(m - s64(dbl)).1)
    }
}

/// QADD / QSUB / QDADD / QDSUB; Q set if any step saturates.
pub open spec fn sat_addsub_step(cpu: CpuState, insn: DecodedInsn) -> (CpuState, ExecResult) {
    let (rd, rn, rm) = media_regs_spec(insn);
    let (v, sat) = qaddsub_spec(
        s64(reg_read(cpu, rm as int)) as int,
        s64(reg_read(cpu, rn as int)) as int,
        sat_addsub_kind(insn),
    );
    write_reg(q_if(cpu, sat), rd as int, v)
}

// ============================================================================
// Halfword multiplies
// ============================================================================

/// Top or bottom signed halfword of a register value.
pub open spec fn half_of(v: u32, top: bool) -> i64 {
    if top {
        (((v >> 16) as u16) as i16) as i64
    } else {
        ((v as u16) as i16) as i64
    }
}

/// Normalized halfword multiply kind (0 SMLA, 1 SMLAW, 2 SMULW, 3 SMLAL,
/// 4 SMUL) and the two halfword selectors.
pub open spec fn hmul_kind(insn: DecodedInsn) -> (u32, bool, bool) {
    let raw = insn.raw;
    let (_, ra, _, _) = dsp4_regs_spec(insn);
    if thumb_state(insn.state) {
        let nt = (raw >> 5) & 1 != 0;
        let mt = (raw >> 4) & 1 != 0;
        if (raw >> 20) & 0x7 == 0b001 {
            (
                if ra == 15 {
                    4
                } else {
                    0
                },
                nt,
                mt,
            )
        } else {
            (
                if ra == 15 {
                    2
                } else {
                    1
                },
                false,
                mt,
            )
        }
    } else {
        let nt = (raw >> 5) & 1 != 0;
        let mt = (raw >> 6) & 1 != 0;
        let op = (raw >> 21) & 0x3;
        if op == 0 {
            (0, nt, mt)
        } else if op == 1 {
            (
                if (raw >> 5) & 1 != 0 {
                    2
                } else {
                    1
                },
                false,
                mt,
            )
        } else if op == 2 {
            (3, nt, mt)
        } else {
            (4, nt, mt)
        }
    }
}

/// Product of two selected signed halfwords.
#[verifier::opaque]
pub open spec fn half_product(a: u32, a_top: bool, b: u32, b_top: bool) -> int {
    half_of(a, a_top) * half_of(b, b_top)
}

/// 32-bit result of a halfword multiply of kind 0, 1, 2 or 4 and whether
/// it overflowed (sets Q).
#[verifier::opaque]
pub open spec fn hmul_value(kind: u32, n_top: bool, m_top: bool, rn_v: u32, rm_v: u32, ra_v: u32) -> (
    u32,
    bool,
) {
    let hh = half_of(rn_v, n_top) * half_of(rm_v, m_top);
    let wprod = (s64(rn_v) * half_of(rm_v, m_top)) as i64;
    if kind == 0 {
        let result = hh + s64(ra_v);
        ((result as i32) as u32, result != ((result as i32) as int))
    } else if kind == 1 {
        let result = (wprod >> 16u64) + s64(ra_v);
        ((result as i32) as u32, result != ((result as i32) as int))
    } else if kind == 2 {
        (((wprod >> 16u64) as i32) as u32, false)
    } else {
        ((hh as i32) as u32, false)
    }
}

/// SMLA<x><y>, SMLAW<y>, SMULW<y>, SMLAL<x><y>, SMUL<x><y>.
pub open spec fn hmul_step(cpu: CpuState, insn: DecodedInsn) -> (CpuState, ExecResult) {
    let (rd, ra, rm, rn) = dsp4_regs_spec(insn);
    let rn_v = reg_read(cpu, rn as int);
    let rm_v = reg_read(cpu, rm as int);
    let (kind, n_top, m_top) = hmul_kind(insn);
    if kind == 3 {
        let hh = half_product(rn_v, n_top, rm_v, m_top);
        let acc = (((cpu.regs[rd as int] as u64) << 32) | cpu.regs[ra as int] as u64) as i64;
        let result = acc.wrapping_add(hh as i64) as u64;
        (
            CpuState {
                regs: cpu.regs.update(ra as int, result as u32).update(
                    rd as int,
                    (result >> 32) as u32,
                ),
                ..cpu
            },
            ExecResult::Continue,
        )
    } else {
        let (v, ovf) = hmul_value(kind, n_top, m_top, rn_v, rm_v, reg_read(cpu, ra as int));
        write_reg(q_if(cpu, ovf), rd as int, v)
    }
}

// ============================================================================
// Dual and long dual multiplies
// ============================================================================

/// Sum or difference of the two halfword products of Rn and (optionally
/// half-swapped) Rm.
pub open spec fn dual_product(rn_v: u32, rm_v: u32, swap: bool, sub: bool) -> int {
    let m = if swap {
        ror32(rm_v, 16)
    } else {
        rm_v
    };
    let p1 = half_of(rn_v, false) * half_of(m, false);
    let p2 = half_of(rn_v, true) * half_of(m, true);
    if sub {
        p1 - p2
    } else {
        p1 + p2
    }
}

/// (swap, subtract) of SMUAD/SMUSD/SMLAD/SMLSD.
pub open spec fn dual_flags(insn: DecodedInsn) -> (bool, bool) {
    let raw = insn.raw;
    if thumb_state(insn.state) {
        ((raw >> 4) & 1 != 0, (raw >> 20) & 0x7 == 0b100)
    } else {
        ((raw >> 5) & 1 != 0, (raw >> 6) & 1 != 0)
    }
}

/// SMUAD / SMUSD / SMLAD / SMLSD value: the dual product plus Ra (unless
/// R15), truncated to 32 bits, and whether it did not fit (sets Q).
#[verifier::opaque]
pub open spec fn dual_value(rn_v: u32, rm_v: u32, ra: usize, ra_v: u32, swap: bool, sub: bool) -> (
    u32,
    bool,
) {
    let p = dual_product(rn_v, rm_v, swap, sub);
    let result = if ra != 15 {
        p + s64(ra_v)
    } else {
        p
    };
    ((result as i32) as u32, result != ((result as i32) as int))
}

/// SMUAD / SMUSD / SMLAD / SMLSD.
pub open spec fn dual_step(cpu: CpuState, insn: DecodedInsn) -> (CpuState, ExecResult) {
    let (rd, ra, rm, rn) = dsp4_regs_spec(insn);
    let (swap, sub) = dual_flags(insn);
    let (v, ovf) = dual_value(
        reg_read(cpu, rn as int),
        reg_read(cpu, rm as int),
        ra,
        reg_read(cpu, ra as int),
        swap,
        sub,
    );
    write_reg(q_if(cpu, ovf), rd as int, v)
}

/// (RdHi, RdLo, Rm, Rn, swap, subtract) of SMLALD/SMLSLD.
pub open spec fn smlald_fields(insn: DecodedInsn) -> (usize, usize, usize, usize, bool, bool) {
    let raw = insn.raw;
    if thumb_state(insn.state) {
        (
            field(raw, 8),
            field(raw, 12),
            (raw & 0xF) as usize,
            field(raw, 16),
            (raw >> 4) & 1 != 0,
            (raw >> 20) & 0x7 == 0b101,
        )
    } else {
        (
            field(raw, 16),
            field(raw, 12),
            field(raw, 8),
            (raw & 0xF) as usize,
            (raw >> 5) & 1 != 0,
            (raw >> 6) & 1 != 0,
        )
    }
}

/// SMLALD / SMLSLD: RdHi:RdLo += the dual product (64-bit, wrapping).
pub open spec fn smlald_step(cpu: CpuState, insn: DecodedInsn) -> (CpuState, ExecResult) {
    let (dhi, dlo, rm, rn, swap, sub) = smlald_fields(insn);
    let prod = dual_product(reg_read(cpu, rn as int), reg_read(cpu, rm as int), swap, sub);
    let acc = (((cpu.regs[dhi as int] as u64) << 32) | cpu.regs[dlo as int] as u64) as i64;
    let result = acc.wrapping_add(prod as i64) as u64;
    (
        CpuState {
            regs: cpu.regs.update(dlo as int, result as u32).update(dhi as int, (result >> 32) as u32),
            ..cpu
        },
        ExecResult::Continue,
    )
}

/// (round, subtract) of SMMUL/SMMLA/SMMLS.
pub open spec fn smmul_flags(insn: DecodedInsn) -> (bool, bool) {
    let raw = insn.raw;
    if thumb_state(insn.state) {
        ((raw >> 4) & 1 != 0, (raw >> 20) & 0x7 == 0b110)
    } else {
        ((raw >> 5) & 1 != 0, (raw >> 6) & 1 != 0)
    }
}

/// SMMUL / SMMLA / SMMLS: bits 63:32 of Ra:0 ± Rn*Rm (modulo 2^64),
/// optionally rounded.
pub open spec fn smmul_step(cpu: CpuState, insn: DecodedInsn) -> (CpuState, ExecResult) {
    let (rd, ra, rm, rn) = dsp4_regs_spec(insn);
    let (round, sub) = smmul_flags(insn);
    let prod = (s64(reg_read(cpu, rn as int)) * s64(reg_read(cpu, rm as int))) as i64;
    let acc: i64 = if ra == 15 {
        0
    } else {
        s64(reg_read(cpu, ra as int)) << 32u64
    };
    let r1 = if sub {
        acc.wrapping_sub(prod)
    } else {
        acc.wrapping_add(prod)
    };
    let r2 = if round {
        r1.wrapping_add(0x8000_0000)
    } else {
        r1
    };
    write_reg(cpu, rd as int, (r2 >> 32u64) as u32)
}

// ============================================================================
// Sum of absolute differences, pack, select
// ============================================================================

/// Byte lane `i` of a word.
pub open spec fn byte_lane(v: u32, i: u32) -> u32 {
    (v >> (i * 8)) & 0xFF
}

/// |a - b| of two byte lanes.
pub open spec fn absdiff(a: u32, b: u32) -> u32 {
    if a >= b {
        (a - b) as u32
    } else {
        (b - a) as u32
    }
}

/// Sum (wrapping) of the absolute differences of the first `i` byte lanes.
pub open spec fn usad_sum(n: u32, m: u32, i: nat) -> u32
    decreases i,
{
    if i == 0 {
        0
    } else {
        usad_sum(n, m, (i - 1) as nat).wrapping_add(
            absdiff(byte_lane(n, (i - 1) as u32), byte_lane(m, (i - 1) as u32)),
        )
    }
}

/// USAD8 / USADA8.
pub open spec fn usad_step(cpu: CpuState, insn: DecodedInsn) -> (CpuState, ExecResult) {
    let (rd, ra, rm, rn) = dsp4_regs_spec(insn);
    let s = usad_sum(reg_read(cpu, rn as int), reg_read(cpu, rm as int), 4);
    write_reg(
        cpu,
        rd as int,
        if ra != 15 {
            s.wrapping_add(reg_read(cpu, ra as int))
        } else {
            s
        },
    )
}

/// (tb form, shift) of PKHBT/PKHTB.
pub open spec fn pkh_fields(insn: DecodedInsn) -> (bool, u32) {
    let raw = insn.raw;
    if thumb_state(insn.state) {
        ((raw >> 5) & 1 != 0, (((raw >> 12) & 0x7) << 2) | ((raw >> 6) & 0x3))
    } else {
        ((raw >> 6) & 1 != 0, (raw >> 7) & 0x1F)
    }
}

/// PKHTB: top half of Rn, bottom of Rm ASR imm (imm 0 means 32); PKHBT:
/// bottom half of Rn, top of Rm LSL imm.
pub open spec fn pkh_step(cpu: CpuState, insn: DecodedInsn) -> (CpuState, ExecResult) {
    let (rd, rn, rm) = media_regs_spec(insn);
    let (tbform, imm5) = pkh_fields(insn);
    let n = reg_read(cpu, rn as int);
    let m = reg_read(cpu, rm as int);
    write_reg(
        cpu,
        rd as int,
        if tbform {
            let op2 = if imm5 == 0 {
                ((m as i32) >> 31u32) as u32
            } else {
                ((m as i32) >> imm5) as u32
            };
            (n & 0xFFFF_0000) | (op2 & 0xFFFF)
        } else {
            (m.wrapping_shl(imm5) & 0xFFFF_0000) | (n & 0xFFFF)
        },
    )
}

/// Byte `i` of the SEL result: from Rn where GE[i] is set, else from Rm.
pub open spec fn sel_byte(ge: u8, n: u32, m: u32, i: u32) -> u32 {
    if (ge >> (i as u8)) & 1 != 0 {
        byte_lane(n, i)
    } else {
        byte_lane(m, i)
    }
}

/// SEL.
pub open spec fn sel_step(cpu: CpuState, insn: DecodedInsn) -> (CpuState, ExecResult) {
    let (rd, rn, rm) = media_regs_spec(insn);
    let n = reg_read(cpu, rn as int);
    let m = reg_read(cpu, rm as int);
    let ge = cpu.cpsr.ge;
    write_reg(
        cpu,
        rd as int,
        sel_byte(ge, n, m, 0) | (sel_byte(ge, n, m, 1) << 8) | (sel_byte(ge, n, m, 2) << 16) | (
        sel_byte(ge, n, m, 3) << 24),
    )
}

// ============================================================================
// Extend and add
// ============================================================================

/// Low byte, zero- or sign-extended.
pub open spec fn extb(b: u32, unsigned: bool) -> u32 {
    if unsigned {
        b & 0xFF
    } else {
        ((((b & 0xFF) as u8) as i8) as i32) as u32
    }
}

/// (unsigned, size, rotation) of the extend family: size 0b00 B16, 0b10
/// B, 0b11 H.
pub open spec fn extend_fields(insn: DecodedInsn) -> (bool, u32, u32) {
    let raw = insn.raw;
    if thumb_state(insn.state) {
        let ty = (raw >> 20) & 0x7;
        let size: u32 = if ty >> 1 == 0 {
            0b11
        } else if ty >> 1 == 1 {
            0b00
        } else {
            0b10
        };
        (ty & 1 != 0, size, (((raw >> 4) & 0x3) * 8) as u32)
    } else {
        ((raw >> 22) & 1 != 0, (raw >> 20) & 0x3, (((raw >> 10) & 0x3) * 8) as u32)
    }
}

/// (U|S)XT(A)(B|H|B16): Rm rotated, extended, plus Rn unless Rn is R15
/// (lane-wise for B16).
pub open spec fn extend_add_value(n: u32, rotated: u32, unsigned: bool, size: u32, add: bool) -> u32 {
    if size == 0b10 {
        let ext = extb(rotated, unsigned);
        if add {
            n.wrapping_add(ext)
        } else {
            ext
        }
    } else if size == 0b11 {
        let h = rotated & 0xFFFF;
        let ext = if unsigned {
            h
        } else {
            (((h as u16) as i16) as i32) as u32
        };
        if add {
            n.wrapping_add(ext)
        } else {
            ext
        }
    } else {
        let lo = extb(rotated, unsigned) & 0xFFFF;
        let hi = extb(rotated >> 16, unsigned) & 0xFFFF;
        if add {
            let l = (n & 0xFFFF).wrapping_add(lo) & 0xFFFF;
            let h = ((n >> 16) & 0xFFFF).wrapping_add(hi) & 0xFFFF;
            l | (h << 16)
        } else {
            lo | (hi << 16)
        }
    }
}

/// The extend-and-add family.
pub open spec fn extend_add_step(cpu: CpuState, insn: DecodedInsn) -> (CpuState, ExecResult) {
    let (rd, rn, rm) = media_regs_spec(insn);
    let (unsigned, size, rotation) = extend_fields(insn);
    let rotated = ror32(reg_read(cpu, rm as int), rotation);
    write_reg(
        cpu,
        rd as int,
        extend_add_value(reg_read(cpu, rn as int), rotated, unsigned, size, rn != 15),
    )
}

// ============================================================================
// Parallel halfword saturate
// ============================================================================

/// (Rd, Rn, sat, unsigned) of SSAT16/USAT16.
pub open spec fn sat16_fields(insn: DecodedInsn) -> (usize, usize, u32, bool) {
    let raw = insn.raw;
    if thumb_state(insn.state) {
        (field(raw, 8), field(raw, 16), raw & 0xF, (raw >> 23) & 1 != 0)
    } else {
        (field(raw, 12), (raw & 0xF) as usize, (raw >> 16) & 0xF, (raw >> 22) & 1 != 0)
    }
}

/// One halfword clamped: unsigned to 0..2^sat-1, signed to sat+1 bits;
/// (value, whether clamped).
pub open spec fn sat16_lane(h: i32, sat: u32, unsigned: bool) -> (i32, bool) {
    if unsigned {
        let max = ((1u32 << sat) - 1) as i32;
        if h < 0 {
            (0, true)
        } else if h > max {
            (max, true)
        } else {
            (h, false)
        }
    } else {
        let max = ((1i32 << sat) - 1) as i32;
        let min = (-(1i32 << sat)) as i32;
        if h > max {
            (max, true)
        } else if h < min {
            (min, true)
        } else {
            (h, false)
        }
    }
}

/// Halfword `i` of a word as a signed value.
pub open spec fn half_lane(n: u32, i: u32) -> i32 {
    ((((n >> (i * 16)) & 0xFFFF) as u16) as i16) as i32
}

/// SSAT16 / USAT16.
pub open spec fn sat16_step(cpu: CpuState, insn: DecodedInsn) -> (CpuState, ExecResult) {
    let (rd, rn, sat, unsigned) = sat16_fields(insn);
    let n = reg_read(cpu, rn as int);
    let (c0, s0) = sat16_lane(half_lane(n, 0), sat, unsigned);
    let (c1, s1) = sat16_lane(half_lane(n, 1), sat, unsigned);
    write_reg(
        q_if(cpu, s0 || s1),
        rd as int,
        ((c0 as u32) & 0xFFFF) | (((c1 as u32) & 0xFFFF) << 16),
    )
}

// ============================================================================
// Parallel add/subtract
// ============================================================================

/// Normalized (prefix, op) codes: prefix 1 S, 2 Q, 3 SH, 5 U, 6 UQ, 7 UH;
/// op 0 ADD16, 1 ASX, 2 SAX, 3 SUB16, 4 ADD8, 7 SUB8.
pub open spec fn parallel_codes(insn: DecodedInsn) -> (u32, u32) {
    let raw = insn.raw;
    if thumb_state(insn.state) {
        let p = (raw >> 4) & 0x7;
        let o = (raw >> 20) & 0x7;
        (
            if p == 0 {
                0b001
            } else if p == 1 {
                0b010
            } else if p == 2 {
                0b011
            } else if p == 4 {
                0b101
            } else if p == 5 {
                0b110
            } else {
                0b111
            },
            if o == 0 {
                0b100
            } else if o == 1 {
                0b000
            } else if o == 2 {
                0b001
            } else if o == 4 {
                0b111
            } else if o == 5 {
                0b011
            } else {
                0b010
            },
        )
    } else {
        ((raw >> 20) & 0x7, (raw >> 5) & 0x7)
    }
}

/// Lane `idx` (width 8 or 16) of a word.
pub open spec fn lane_w(v: u32, idx: u32, eight: bool) -> u32 {
    if eight {
        (v >> (idx * 8)) & 0xFF
    } else {
        (v >> (idx * 16)) & 0xFFFF
    }
}

/// Operands (a, b, subtract) of lane `idx` for op `op2`.
pub open spec fn lane_inputs(n: u32, m: u32, op2: u32, idx: u32) -> (u32, u32, bool) {
    if op2 == 0b001 {
        if idx == 0 {
            (lane_w(n, 0, false), lane_w(m, 1, false), true)
        } else {
            (lane_w(n, 1, false), lane_w(m, 0, false), false)
        }
    } else if op2 == 0b010 {
        if idx == 0 {
            (lane_w(n, 0, false), lane_w(m, 1, false), false)
        } else {
            (lane_w(n, 1, false), lane_w(m, 0, false), true)
        }
    } else {
        let eight = op2 == 0b100 || op2 == 0b111;
        (lane_w(n, idx, eight), lane_w(m, idx, eight), op2 == 0b011 || op2 == 0b111)
    }
}

/// A lane value sign-extended from `width` bits.
pub open spec fn sext_lane(v: u32, width: u32) -> int {
    if v >= (if width == 8 {
        0x80u32
    } else {
        0x8000u32
    }) {
        v - (if width == 8 {
            0x100int
        } else {
            0x1_0000int
        })
    } else {
        v as int
    }
}

/// Result of one lane and its GE bit, if the prefix sets GE.
pub open spec fn lane_op(prefix: u32, a: u32, b: u32, sub: bool, width: u32) -> (u32, Option<bool>) {
    let avs = sext_lane(a, width);
    let bvs = sext_lane(b, width);
    let avu = a as int;
    let bvu = b as int;
    let rs = if sub {
        avs - bvs
    } else {
        avs + bvs
    };
    let ru = if sub {
        avu - bvu
    } else {
        avu + bvu
    };
    let smax: int = if width == 8 {
        0x7F
    } else {
        0x7FFF
    };
    let smin: int = if width == 8 {
        -0x80
    } else {
        -0x8000
    };
    let umax: int = if width == 8 {
        0xFF
    } else {
        0xFFFF
    };
    if prefix == 0b001 {
        (rs as u32, Some(rs >= 0))
    } else if prefix == 0b101 {
        if sub {
            (ru as u32, Some(avu >= bvu))
        } else {
            (ru as u32, Some(ru >= umax + 1))
        }
    } else if prefix == 0b010 {
        (
            if rs < smin {
                smin as u32
            } else if rs > smax {
                smax as u32
            } else {
                rs as u32
            },
            None,
        )
    } else if prefix == 0b110 {
        (
            if ru < 0 {
                0u32
            } else if ru > umax {
                umax as u32
            } else {
                ru as u32
            },
            None,
        )
    } else if prefix == 0b011 {
        (((rs as i64) >> 1u64) as u32, None)
    } else {
        (((ru as i64) >> 1u64) as u32, None)
    }
}

/// Result word, GE bits and whether GE is written after the first `k`
/// lanes.
pub open spec fn parallel_acc(n: u32, m: u32, prefix: u32, op2: u32, k: nat) -> (u32, u8, bool)
    decreases k,
{
    if k == 0 {
        (0, 0, false)
    } else {
        let (res, ge, set_ge) = parallel_acc(n, m, prefix, op2, (k - 1) as nat);
        let idx = (k - 1) as u32;
        let eight = op2 == 0b100 || op2 == 0b111;
        let width: u32 = if eight {
            8
        } else {
            16
        };
        let maskw: u32 = if eight {
            0xFF
        } else {
            0xFFFF
        };
        let (a, b, sub) = lane_inputs(n, m, op2, idx);
        let (val, g) = lane_op(prefix, a, b, sub, width);
        let res1 = res | ((val & maskw) << (idx * width));
        match g {
            Some(bit) => (
                res1,
                if bit {
                    if eight {
                        ge | (1u8 << (idx as u8))
                    } else {
                        ge | (3u8 << ((idx * 2) as u8))
                    }
                } else {
                    ge
                },
                true,
            ),
            None => (res1, ge, set_ge),
        }
    }
}

/// Whether the normalized codes name an operation.
pub open spec fn parallel_defined(prefix: u32, op2: u32) -> bool {
    (op2 == 0 || op2 == 1 || op2 == 2 || op2 == 3 || op2 == 4 || op2 == 7) && (prefix == 1
        || prefix == 2 || prefix == 3 || prefix == 5 || prefix == 6 || prefix == 7)
}

/// Signed/unsigned parallel add/sub (SADD8/QADD16/UHASX/...): GE is written
/// by the plain signed (S) and unsigned (U) prefixes.
pub open spec fn parallel_step(cpu: CpuState, insn: DecodedInsn) -> (CpuState, ExecResult) {
    let (rd, rn, rm) = media_regs_spec(insn);
    let (prefix, op2) = parallel_codes(insn);
    if !parallel_defined(prefix, op2) {
        (cpu, ExecResult::Undefined)
    } else {
        let nl: nat = if op2 == 0b100 || op2 == 0b111 {
            4
        } else {
            2
        };
        let (res, ge, set_ge) = parallel_acc(
            reg_read(cpu, rn as int),
            reg_read(cpu, rm as int),
            prefix,
            op2,
            nl,
        );
        write_reg(
            if set_ge {
                CpuState { cpsr: Psr { ge, ..cpu.cpsr }, ..cpu }
            } else {
                cpu
            },
            rd as int,
            res,
        )
    }
}

impl<M: ArmMemory> Executor<M> {
    /// (Rd, Rn, Rm) for 3-register media ops (A32 / T32 layouts).
    fn media_regs(&self, insn: &DecodedInsn) -> (r: (usize, usize, usize))
        ensures
            r == media_regs_spec(*insn),
            r.0 < 16,
            r.1 < 16,
            r.2 < 16,
    {
        proof {
            lemma_mask_bounds();
        }
        let raw = insn.raw;
        if insn.state.is_thumb() {
            (((raw >> 8) & 0xF) as usize, ((raw >> 16) & 0xF) as usize, (raw & 0xF) as usize)
        } else {
            (((raw >> 12) & 0xF) as usize, ((raw >> 16) & 0xF) as usize, (raw & 0xF) as usize)
        }
    }

    /// (Rd, Ra, Rm, Rn) for 4-register DSP multiplies (A32 / T32 layouts).
    fn dsp4_regs(&self, insn: &DecodedInsn) -> (r: (usize, usize, usize, usize))
        ensures
            r == dsp4_regs_spec(*insn),
            r.0 < 16,
            r.1 < 16,
            r.2 < 16,
            r.3 < 16,
    {
        proof {
            lemma_mask_bounds();
        }
        let raw = insn.raw;
        if insn.state.is_thumb() {
            (
                ((raw >> 8) & 0xF) as usize,  // Rd = hw2[11:8]
                ((raw >> 12) & 0xF) as usize,  // Ra = hw2[15:12]
                (raw & 0xF) as usize,  // Rm = hw2[3:0]
                ((raw >> 16) & 0xF) as usize,  // Rn = hw1[3:0]
            )
        } else {
            (
                ((raw >> 16) & 0xF) as usize,  // Rd = bits[19:16]
                ((raw >> 12) & 0xF) as usize,  // Ra = bits[15:12]
                ((raw >> 8) & 0xF) as usize,  // Rm = bits[11:8]
                (raw & 0xF) as usize,  // Rn = bits[3:0]
            )
        }
    }

    /// Signed-saturate a value to 32 bits: (value, whether it saturated).
    fn ssat32(x: i64) -> (r: (u32, bool))
        ensures
            r == sat32(x as int),
    {
        if x > i32::MAX as i64 {
            (0x7FFF_FFFF, true)
        } else if x < i32::MIN as i64 {
            (0x8000_0000, true)
        } else {
            (x as u32, false)
        }
    }

    /// Canonical kind of a saturating add/subtract: 0=QADD 1=QSUB 2=QDADD
    /// 3=QDSUB.
    fn sat_addsub_kind(insn: &DecodedInsn) -> (r: u32)
        ensures
            r == sat_addsub_kind(*insn),
    {
        let raw = insn.raw;
        if insn.state.is_thumb() {
            match (raw >> 4) & 0x3 {
                0 => 0,
                1 => 2,
                2 => 1,
                _ => 3,
            }
        } else {
            (raw >> 21) & 0x3
        }
    }

    /// Saturating add/subtract of kind `kind`.
    fn qaddsub(m: i64, n: i64, kind: u32) -> (r: (u32, bool))
        requires
            -0x8000_0000 <= m < 0x8000_0000,
            -0x8000_0000 <= n < 0x8000_0000,
        ensures
            r == qaddsub_spec(m as int, n as int, kind),
    {
        if kind == 0b00 {
            Self::ssat32(m + n)
        } else if kind == 0b01 {
            Self::ssat32(m - n)
        } else {
            let (d, dsat) = Self::ssat32(2 * n);
            let dbl = d as i32 as i64;
            let (v, sat) = if kind == 0b10 {
                Self::ssat32(m + dbl)
            } else {
                Self::ssat32(m - dbl)
            };
            (v, dsat || sat)
        }
    }

    /// QADD / QSUB / QDADD / QDSUB.
    pub(crate) fn exec_a32_sat_addsub(&mut self, insn: &DecodedInsn) -> (r: ExecResult)
        ensures
            regs_step(*old(self), *final(self), r, sat_addsub_step(old(self).cpu@, *insn)),
    {
        let (rd, rn, rm) = self.media_regs(insn);
        let n = self.reg(rn) as i32 as i64;
        let m = self.reg(rm) as i32 as i64;
        let kind = Self::sat_addsub_kind(insn);
        let (result, sat) = Self::qaddsub(m, n, kind);
        if sat {
            self.cpu.cpsr.q = true;
        }
        self.set_reg(rd, result)
    }

    /// Normalized halfword multiply kind: 0=SMLA 1=SMLAW 2=SMULW 3=SMLAL
    /// 4=SMUL, with the halfword selectors.
    fn hmul_decode(insn: &DecodedInsn, ra: usize) -> (r: (u32, bool, bool))
        requires
            ra == dsp4_regs_spec(*insn).1,
        ensures
            r == hmul_kind(*insn),
    {
        let raw = insn.raw;
        if insn.state.is_thumb() {
            let op1 = (raw >> 20) & 0x7;  // hw1[6:4]
            let nt = (raw >> 5) & 1 != 0;
            let mt = (raw >> 4) & 1 != 0;
            if op1 == 0b001 {
                (
                    if ra == 15 {
                        4u32
                    } else {
                        0
                    },
                    nt,
                    mt,
                )  // SMUL / SMLA
            } else {
                (
                    if ra == 15 {
                        2u32
                    } else {
                        1
                    },
                    false,
                    mt,
                )  // SMULW / SMLAW
            }
        } else {
            let nt = (raw >> 5) & 1 != 0;
            let mt = (raw >> 6) & 1 != 0;
            match (raw >> 21) & 0x3 {
                0b00 => (0u32, nt, mt),
                0b01 => (
                    if (raw >> 5) & 1 != 0 {
                        2u32
                    } else {
                        1
                    },
                    false,
                    mt,
                ),
                0b10 => (3u32, nt, mt),
                _ => (4u32, nt, mt),
            }
        }
    }

    /// Value and overflow of a halfword multiply of kind 0, 1, 2 or 4.
    fn hmul_compute(kind: u32, n_top: bool, m_top: bool, rn_v: u32, rm_v: u32, ra_v: u32) -> (r: (
        u32,
        bool,
    ))
        ensures
            r == hmul_value(kind, n_top, m_top, rn_v, rm_v, ra_v),
    {
        proof {
            lemma_mask_bounds();
            reveal(hmul_value);
        }
        let hh = Self::mul_halves(Self::half(rn_v, n_top), Self::half(rm_v, m_top));
        let prod = Self::mul_word_half(rn_v as i32 as i64, Self::half(rm_v, m_top));
        if kind == 0 {
            // SMLA<x><y>: Rd = Rn.x * Rm.y + Ra (Q on signed overflow)
            let result = hh + ra_v as i32 as i64;
            let r32 = result as i32;
            (r32 as u32, result != r32 as i64)
        } else if kind == 1 {
            // SMLAW<y>: Rd = (Rn * Rm.y)[47:16] + Ra (Q on overflow)
            let result = (prod >> 16u64) + ra_v as i32 as i64;
            let r32 = result as i32;
            (r32 as u32, result != r32 as i64)
        } else if kind == 2 {
            // SMULW<y>: Rd = (Rn * Rm.y)[47:16]
            ((prod >> 16u64) as i32 as u32, false)
        } else {
            // SMUL<x><y>: Rd = Rn.x * Rm.y
            (hh as i32 as u32, false)
        }
    }

    /// SMUL/SMLA/SMULW/SMLAW/SMLAL <x><y> (halfword and word multiplies).
    #[verifier::rlimit(100)]
    pub(crate) fn exec_a32_hmul(&mut self, insn: &DecodedInsn) -> (r: ExecResult)
        ensures
            regs_step(*old(self), *final(self), r, hmul_step(old(self).cpu@, *insn)),
    {
        let (rd, ra, rm, rn) = self.dsp4_regs(insn);
        let rn_v = self.reg(rn);
        let rm_v = self.reg(rm);
        let (kind, n_top, m_top) = Self::hmul_decode(insn, ra);
        if kind == 3 {
            // SMLAL<x><y>: RdHi:RdLo += Rn.x * Rm.y (RdHi=rd, RdLo=ra)
            let hh = Self::mul_halves(Self::half(rn_v, n_top), Self::half(rm_v, m_top));
            proof {
                reveal(half_product);
            }
            let acc = (((self.cpu.regs[rd] as u64) << 32) | self.cpu.regs[ra] as u64) as i64;
            let result = acc.wrapping_add(hh) as u64;
            self.cpu.regs[ra] = result as u32;
            self.cpu.regs[rd] = (result >> 32) as u32;
            ExecResult::Continue
        } else {
            let ra_v = self.reg(ra);
            let (v, ovf) = Self::hmul_compute(kind, n_top, m_top, rn_v, rm_v, ra_v);
            if ovf {
                self.cpu.cpsr.q = true;
            }
            self.set_reg(rd, v)
        }
    }

    /// Product of two signed halfwords.
    fn mul_halves(a: i64, b: i64) -> (r: i64)
        requires
            -0x8000 <= a < 0x8000,
            -0x8000 <= b < 0x8000,
        ensures
            r == a * b,
            -0x4000_0000 <= r <= 0x4000_0000,
    {
        proof {
            assert(-0x4000_0000 <= a * b <= 0x4000_0000) by (nonlinear_arith)
                requires
                    -0x8000 <= a < 0x8000,
                    -0x8000 <= b < 0x8000,
            ;
        }
        a * b
    }

    /// Product of a signed word and a signed halfword.
    fn mul_word_half(a: i64, b: i64) -> (r: i64)
        requires
            -0x8000_0000 <= a < 0x8000_0000,
            -0x8000 <= b < 0x8000,
        ensures
            r == a * b,
            -0x4000_0000_0000 <= r <= 0x4000_0000_0000,
    {
        proof {
            assert(-0x4000_0000_0000 <= a * b <= 0x4000_0000_0000) by (nonlinear_arith)
                requires
                    -0x8000_0000 <= a < 0x8000_0000,
                    -0x8000 <= b < 0x8000,
            ;
        }
        a * b
    }

    /// Top or bottom signed halfword.
    fn half(v: u32, top: bool) -> (r: i64)
        ensures
            r == half_of(v, top),
            -0x8000 <= r < 0x8000,
    {
        if top {
            (v >> 16) as u16 as i16 as i64
        } else {
            v as u16 as i16 as i64
        }
    }

    /// Sum or difference of the halfword products.
    fn dual(rn_v: u32, rm_v: u32, swap: bool, sub: bool) -> (r: i64)
        ensures
            r == dual_product(rn_v, rm_v, swap, sub),
            -0x8000_0000 <= r <= 0x8000_0000,
    {
        let m = if swap {
            rotate_right(rm_v, 16)
        } else {
            rm_v
        };
        let p1 = Self::mul_halves(Self::half(rn_v, false), Self::half(m, false));
        let p2 = Self::mul_halves(Self::half(rn_v, true), Self::half(m, true));
        if sub {
            p1 - p2
        } else {
            p1 + p2
        }
    }

    /// Value and overflow of SMUAD / SMUSD / SMLAD / SMLSD.
    fn dual_compute(rn_v: u32, rm_v: u32, ra: usize, ra_v: u32, swap: bool, sub: bool) -> (r: (
        u32,
        bool,
    ))
        ensures
            r == dual_value(rn_v, rm_v, ra, ra_v, swap, sub),
    {
        proof {
            reveal(dual_value);
        }
        let p = Self::dual(rn_v, rm_v, swap, sub);
        let result = if ra != 15 {
            p + ra_v as i32 as i64
        } else {
            p
        };
        let r32 = result as i32;
        (r32 as u32, result != r32 as i64)
    }

    /// SMUAD / SMUSD / SMLAD / SMLSD.
    #[verifier::rlimit(100)]
    pub(crate) fn exec_a32_dual(&mut self, insn: &DecodedInsn) -> (r: ExecResult)
        ensures
            regs_step(*old(self), *final(self), r, dual_step(old(self).cpu@, *insn)),
    {
        let raw = insn.raw;
        let (rd, ra, rm, rn) = self.dsp4_regs(insn);
        // X (swap Rm halves) and sub flags differ by encoding.
        let (swap, sub) = if insn.state.is_thumb() {
            ((raw >> 4) & 1 != 0, (raw >> 20) & 0x7 == 0b100)
        } else {
            ((raw >> 5) & 1 != 0, (raw >> 6) & 1 != 0)
        };
        let (v, ovf) = Self::dual_compute(self.reg(rn), self.reg(rm), ra, self.reg(ra), swap, sub);
        if ovf {
            self.cpu.cpsr.q = true;
        }
        self.set_reg(rd, v)
    }

    /// SMLALD / SMLSLD.
    pub(crate) fn exec_a32_smlald(&mut self, insn: &DecodedInsn) -> (r: ExecResult)
        ensures
            regs_step(*old(self), *final(self), r, smlald_step(old(self).cpu@, *insn)),
    {
        proof {
            lemma_mask_bounds();
        }
        let raw = insn.raw;
        let (dhi, dlo, rm, rn, swap, sub) = if insn.state.is_thumb() {
            (
                ((raw >> 8) & 0xF) as usize,  // RdHi = hw2[11:8]
                ((raw >> 12) & 0xF) as usize,  // RdLo = hw2[15:12]
                (raw & 0xF) as usize,  // Rm = hw2[3:0]
                ((raw >> 16) & 0xF) as usize,  // Rn = hw1[3:0]
                (raw >> 4) & 1 != 0,
                (raw >> 20) & 0x7 == 0b101,  // op1==101 -> SMLSLD
            )
        } else {
            (
                ((raw >> 16) & 0xF) as usize,
                ((raw >> 12) & 0xF) as usize,
                ((raw >> 8) & 0xF) as usize,
                (raw & 0xF) as usize,
                (raw >> 5) & 1 != 0,
                (raw >> 6) & 1 != 0,
            )
        };
        let prod = Self::dual(self.reg(rn), self.reg(rm), swap, sub);
        let acc = (((self.cpu.regs[dhi] as u64) << 32) | self.cpu.regs[dlo] as u64) as i64;
        let result = acc.wrapping_add(prod) as u64;
        self.cpu.regs[dlo] = result as u32;
        self.cpu.regs[dhi] = (result >> 32) as u32;
        ExecResult::Continue
    }

    /// SMMUL / SMMLA / SMMLS (signed most-significant-word multiply).
    pub(crate) fn exec_a32_smmul(&mut self, insn: &DecodedInsn) -> (r: ExecResult)
        ensures
            regs_step(*old(self), *final(self), r, smmul_step(old(self).cpu@, *insn)),
    {
        let raw = insn.raw;
        let (rd, ra, rm, rn) = self.dsp4_regs(insn);
        let (round, sub) = if insn.state.is_thumb() {
            ((raw >> 4) & 1 != 0, (raw >> 20) & 0x7 == 0b110)
        } else {
            ((raw >> 5) & 1 != 0, (raw >> 6) & 1 != 0)
        };
        let a = self.reg(rn) as i32 as i64;
        let b = self.reg(rm) as i32 as i64;
        proof {
            assert(-0x4000_0000_0000_0000 <= a * b <= 0x4000_0000_0000_0000) by (nonlinear_arith)
                requires
                    -0x8000_0000 <= a < 0x8000_0000,
                    -0x8000_0000 <= b < 0x8000_0000,
            ;
        }
        let prod = a * b;
        let acc: i64 = if ra == 15 {
            0
        } else {
            (self.reg(ra) as i32 as i64) << 32u64
        };
        // The result is bits 63:32 of the sum modulo 2^64.
        let r1 = if sub {
            acc.wrapping_sub(prod)
        } else {
            acc.wrapping_add(prod)
        };
        let r2 = if round {
            r1.wrapping_add(0x8000_0000)  // rounding
        } else {
            r1
        };
        self.set_reg(rd, (r2 >> 32u64) as u32)
    }

    /// USAD8 / USADA8 (sum of absolute differences).
    pub(crate) fn exec_a32_usad(&mut self, insn: &DecodedInsn) -> (r: ExecResult)
        ensures
            regs_step(*old(self), *final(self), r, usad_step(old(self).cpu@, *insn)),
    {
        let (rd, ra, rm, rn) = self.dsp4_regs(insn);
        let n = self.reg(rn);
        let m = self.reg(rm);
        let mut sum: u32 = 0;
        let mut i: u32 = 0;
        while i < 4
            invariant
                i <= 4,
                sum == usad_sum(n, m, i as nat),
            decreases 4 - i,
        {
            let a = (n >> (i * 8)) & 0xFF;
            let b = (m >> (i * 8)) & 0xFF;
            let d = if a >= b {
                a - b
            } else {
                b - a
            };
            sum = sum.wrapping_add(d);
            i += 1;
        }
        if ra != 15 {
            sum = sum.wrapping_add(self.reg(ra));
        }
        self.set_reg(rd, sum)
    }

    /// PKHBT / PKHTB (pack halfword).
    pub(crate) fn exec_a32_pkh(&mut self, insn: &DecodedInsn) -> (r: ExecResult)
        ensures
            regs_step(*old(self), *final(self), r, pkh_step(old(self).cpu@, *insn)),
    {
        proof {
            lemma_mask_bounds();
        }
        let raw = insn.raw;
        let (rd, rn, rm) = self.media_regs(insn);
        let (tbform, imm5) = if insn.state.is_thumb() {
            ((raw >> 5) & 1 != 0, (((raw >> 12) & 0x7) << 2) | ((raw >> 6) & 0x3))
        } else {
            ((raw >> 6) & 1 != 0, (raw >> 7) & 0x1F)
        };
        let n = self.reg(rn);
        let m = self.reg(rm);
        let result = if tbform {
            // PKHTB: top from Rn, bottom from (Rm ASR imm5; imm5==0 => 32)
            let op2 = if imm5 == 0 {
                ((m as i32) >> 31u32) as u32
            } else {
                ((m as i32) >> imm5) as u32
            };
            (n & 0xFFFF_0000) | (op2 & 0xFFFF)
        } else {
            // PKHBT: bottom from Rn, top from (Rm LSL imm5)
            let op2 = m.wrapping_shl(imm5);
            (op2 & 0xFFFF_0000) | (n & 0xFFFF)
        };
        self.set_reg(rd, result)
    }

    /// Low byte, zero- or sign-extended.
    fn extb(b: u32, unsigned: bool) -> (r: u32)
        ensures
            r == extb(b, unsigned),
    {
        if unsigned {
            b & 0xFF
        } else {
            (b & 0xFF) as u8 as i8 as i32 as u32
        }
    }

    /// (U|S)XT(A)(B|H|B16) sign/zero extend, with optional add and rotate.
    pub(crate) fn exec_a32_extend(&mut self, insn: &DecodedInsn) -> (r: ExecResult)
        ensures
            regs_step(*old(self), *final(self), r, extend_add_step(old(self).cpu@, *insn)),
    {
        proof {
            lemma_mask_bounds();
        }
        let raw = insn.raw;
        let (rd, rn, rm) = self.media_regs(insn);
        // size: 00=B16, 10=B, 11=H ; unsigned ; rotation.
        let (unsigned, size, rotation) = if insn.state.is_thumb() {
            let ty = (raw >> 20) & 0x7;  // hw1[6:4]: 0SXTH 1UXTH 2SXTB16 3UXTB16 4SXTB 5UXTB
            let size = if ty >> 1 == 0 {
                0b11  // H
            } else if ty >> 1 == 1 {
                0b00  // B16
            } else {
                0b10  // B
            };
            (ty & 1 != 0, size, ((raw >> 4) & 0x3) * 8)
        } else {
            ((raw >> 22) & 1 != 0, (raw >> 20) & 0x3, ((raw >> 10) & 0x3) * 8)
        };
        let rotated = rotate_right(self.reg(rm), rotation);
        let add = rn != 15;
        let n = self.reg(rn);
        let result = Self::extend_add(n, rotated, unsigned, size, add);
        self.set_reg(rd, result)
    }

    /// Extension (and add) of a rotated value.
    fn extend_add(n: u32, rotated: u32, unsigned: bool, size: u32, add: bool) -> (r: u32)
        ensures
            r == extend_add_value(n, rotated, unsigned, size, add),
    {
        if size == 0b10 {
            let ext = Self::extb(rotated, unsigned);
            if add {
                n.wrapping_add(ext)
            } else {
                ext
            }
        } else if size == 0b11 {
            let h = rotated & 0xFFFF;
            let ext = if unsigned {
                h
            } else {
                h as u16 as i16 as i32 as u32
            };
            if add {
                n.wrapping_add(ext)
            } else {
                ext
            }
        } else {
            let lo = Self::extb(rotated, unsigned) & 0xFFFF;
            let hi = Self::extb(rotated >> 16, unsigned) & 0xFFFF;
            if add {
                let l = (n & 0xFFFF).wrapping_add(lo) & 0xFFFF;
                let h = ((n >> 16) & 0xFFFF).wrapping_add(hi) & 0xFFFF;
                l | (h << 16)
            } else {
                lo | (hi << 16)
            }
        }
    }

    /// One halfword of SSAT16/USAT16.
    fn sat16_clamp(h: i32, sat: u32, unsigned: bool) -> (r: (i32, bool))
        requires
            sat < 16,
        ensures
            r == sat16_lane(h, sat, unsigned),
    {
        proof {
            lemma_mask_bounds();
        }
        if unsigned {
            let max = ((1u32 << sat) - 1) as i32;
            if h < 0 {
                (0, true)
            } else if h > max {
                (max, true)
            } else {
                (h, false)
            }
        } else {
            let max = (1i32 << sat) - 1;
            let min = -(1i32 << sat);
            if h > max {
                (max, true)
            } else if h < min {
                (min, true)
            } else {
                (h, false)
            }
        }
    }

    /// Fields of SSAT16 / USAT16.
    fn sat16_decode(insn: &DecodedInsn) -> (r: (usize, usize, u32, bool))
        ensures
            r == sat16_fields(*insn),
            r.0 < 16,
            r.1 < 16,
            r.2 < 16,
    {
        proof {
            lemma_mask_bounds();
        }
        let raw = insn.raw;
        if insn.state.is_thumb() {
            (((raw >> 8) & 0xF) as usize, ((raw >> 16) & 0xF) as usize, raw & 0xF, (raw >> 23) & 1
                != 0)
        } else {
            (((raw >> 12) & 0xF) as usize, (raw & 0xF) as usize, (raw >> 16) & 0xF, (raw >> 22) & 1
                != 0)
        }
    }

    /// Halfword `i` of a word as a signed value.
    fn half_lane(n: u32, i: u32) -> (r: i32)
        requires
            i < 2,
        ensures
            r == half_lane(n, i),
    {
        ((n >> (i * 16)) & 0xFFFF) as u16 as i16 as i32
    }

    /// SSAT16 / USAT16 (parallel halfword saturate).
    #[verifier::rlimit(60)]
    pub(crate) fn exec_a32_sat16(&mut self, insn: &DecodedInsn) -> (r: ExecResult)
        ensures
            regs_step(*old(self), *final(self), r, sat16_step(old(self).cpu@, *insn)),
    {
        let (rd, rn, sat, unsigned) = Self::sat16_decode(insn);
        let n = self.reg(rn);
        let (c0, s0) = Self::sat16_clamp(Self::half_lane(n, 0), sat, unsigned);
        let (c1, s1) = Self::sat16_clamp(Self::half_lane(n, 1), sat, unsigned);
        if s0 || s1 {
            self.cpu.cpsr.q = true;
        }
        let out = ((c0 as u32) & 0xFFFF) | (((c1 as u32) & 0xFFFF) << 16);
        self.set_reg(rd, out)
    }

    /// SEL (select bytes by GE flags).
    pub(crate) fn exec_a32_sel(&mut self, insn: &DecodedInsn) -> (r: ExecResult)
        ensures
            regs_step(*old(self), *final(self), r, sel_step(old(self).cpu@, *insn)),
    {
        let (rd, rn, rm) = self.media_regs(insn);
        let n = self.reg(rn);
        let m = self.reg(rm);
        let ge = self.cpu.cpsr.ge;
        let b0 = Self::sel_lane(ge, n, m, 0);
        let b1 = Self::sel_lane(ge, n, m, 1);
        let b2 = Self::sel_lane(ge, n, m, 2);
        let b3 = Self::sel_lane(ge, n, m, 3);
        self.set_reg(rd, b0 | (b1 << 8) | (b2 << 16) | (b3 << 24))
    }

    /// Byte `i` of a SEL result.
    fn sel_lane(ge: u8, n: u32, m: u32, i: u32) -> (r: u32)
        requires
            i < 4,
        ensures
            r == sel_byte(ge, n, m, i),
    {
        if (ge >> (i as u8)) & 1 != 0 {
            (n >> (i * 8)) & 0xFF
        } else {
            (m >> (i * 8)) & 0xFF
        }
    }

    /// Normalized (prefix, op) codes of the parallel add/subtract family.
    fn parallel_decode(insn: &DecodedInsn) -> (r: (u32, u32))
        ensures
            r == parallel_codes(*insn),
    {
        let raw = insn.raw;
        // Normalize to the A32 codes: prefix 001=S 010=Q 011=SH 101=U 110=UQ
        // 111=UH ; op2 000=add16 001=asx 010=sax 011=sub16 100=add8 111=sub8.
        if insn.state.is_thumb() {
            let prefix = match (raw >> 4) & 0x7 {
                // hw2[6:4]: 0=S 1=Q 2=SH 4=U 5=UQ 6=UH
                0 => 0b001,
                1 => 0b010,
                2 => 0b011,
                4 => 0b101,
                5 => 0b110,
                _ => 0b111,
            };
            let op2 = match (raw >> 20) & 0x7 {
                // hw1[6:4]: 0=add8 1=add16 2=asx 4=sub8 5=sub16 6=sax
                0 => 0b100,
                1 => 0b000,
                2 => 0b001,
                4 => 0b111,
                5 => 0b011,
                _ => 0b010,
            };
            (prefix, op2)
        } else {
            ((raw >> 20) & 0x7, (raw >> 5) & 0x7)
        }
    }

    /// Operands of one lane.
    fn parallel_lane_inputs(n: u32, m: u32, op2: u32, idx: u32) -> (r: (u32, u32, bool))
        requires
            idx < 4,
            (op2 == 0b100 || op2 == 0b111) || idx < 2,
        ensures
            r == lane_inputs(n, m, op2, idx),
            r.0 < 0x1_0000,
            r.1 < 0x1_0000,
            (op2 == 0b100 || op2 == 0b111) ==> r.0 < 0x100 && r.1 < 0x100,
    {
        proof {
            lemma_mask_bounds();
        }
        if op2 == 0b001 {
            // ASX: lane0 = n.lo - m.hi ; lane1 = n.hi + m.lo
            if idx == 0 {
                ((n >> 0u32) & 0xFFFF, (m >> 16u32) & 0xFFFF, true)
            } else {
                ((n >> 16u32) & 0xFFFF, (m >> 0u32) & 0xFFFF, false)
            }
        } else if op2 == 0b010 {
            // SAX: lane0 = n.lo + m.hi ; lane1 = n.hi - m.lo
            if idx == 0 {
                ((n >> 0u32) & 0xFFFF, (m >> 16u32) & 0xFFFF, false)
            } else {
                ((n >> 16u32) & 0xFFFF, (m >> 0u32) & 0xFFFF, true)
            }
        } else {
            let eight = op2 == 0b100 || op2 == 0b111;
            let sub = op2 == 0b011 || op2 == 0b111;
            if eight {
                ((n >> (idx * 8)) & 0xFF, (m >> (idx * 8)) & 0xFF, sub)
            } else {
                ((n >> (idx * 16)) & 0xFFFF, (m >> (idx * 16)) & 0xFFFF, sub)
            }
        }
    }

    /// A lane sign-extended from `width` bits.
    fn sext_lane(v: u32, width: u32) -> (r: i64)
        requires
            v < 0x1_0000,
        ensures
            r == sext_lane(v, width),
            -0x1_0000 <= r < 0x1_0000,
    {
        let half: u32 = if width == 8 {
            0x80
        } else {
            0x8000
        };
        if v >= half {
            v as i64 - if width == 8 {
                0x100i64
            } else {
                0x1_0000i64
            }
        } else {
            v as i64
        }
    }

    /// One lane of the parallel add/subtract family.
    fn parallel_lane(prefix: u32, a: u32, b: u32, sub: bool, width: u32) -> (r: (u32, Option<bool>))
        requires
            a < 0x1_0000,
            b < 0x1_0000,
        ensures
            r == lane_op(prefix, a, b, sub, width),
    {
        let avs = Self::sext_lane(a, width);
        let bvs = Self::sext_lane(b, width);
        let avu = a as i64;
        let bvu = b as i64;
        let rs = if sub {
            avs - bvs
        } else {
            avs + bvs
        };
        let ru = if sub {
            avu - bvu
        } else {
            avu + bvu
        };
        let smax: i64 = if width == 8 {
            0x7F
        } else {
            0x7FFF
        };
        let smin: i64 = if width == 8 {
            -0x80
        } else {
            -0x8000
        };
        let umax: i64 = if width == 8 {
            0xFF
        } else {
            0xFFFF
        };
        if prefix == 0b001 {
            (rs as u32, Some(rs >= 0))
        } else if prefix == 0b101 {
            if sub {
                (ru as u32, Some(avu >= bvu))
            } else {
                (ru as u32, Some(ru >= umax + 1))
            }
        } else if prefix == 0b010 {
            let v = if rs < smin {
                smin as u32
            } else if rs > smax {
                smax as u32
            } else {
                rs as u32
            };
            (v, None)
        } else if prefix == 0b110 {
            let v = if ru < 0 {
                0u32
            } else if ru > umax {
                umax as u32
            } else {
                ru as u32
            };
            (v, None)
        } else if prefix == 0b011 {
            ((rs >> 1u64) as u32, None)
        } else {
            ((ru >> 1u64) as u32, None)
        }
    }

    /// Signed/unsigned parallel add/sub (SADD8/QADD16/UHASX/...). Sets GE for
    /// the plain signed (S) and unsigned (U) prefixes.
    pub(crate) fn exec_a32_parallel(&mut self, insn: &DecodedInsn) -> (r: ExecResult)
        ensures
            regs_step(*old(self), *final(self), r, parallel_step(old(self).cpu@, *insn)),
    {
        let (rd, rn, rm) = self.media_regs(insn);
        let (prefix, op2) = Self::parallel_decode(insn);
        let defined_op = op2 == 0 || op2 == 1 || op2 == 2 || op2 == 3 || op2 == 4 || op2 == 7;
        let defined_prefix = prefix == 1 || prefix == 2 || prefix == 3 || prefix == 5 || prefix
            == 6 || prefix == 7;
        if !(defined_op && defined_prefix) {
            return ExecResult::Undefined;
        }
        let n = self.reg(rn);
        let m = self.reg(rm);

        let eight = op2 == 0b100 || op2 == 0b111;
        let width: u32 = if eight {
            8
        } else {
            16
        };
        let maskw: u32 = if eight {
            0xFF
        } else {
            0xFFFF
        };
        let nlanes: u32 = if eight {
            4
        } else {
            2
        };

        let mut result: u32 = 0;
        let mut ge: u8 = 0;
        let mut set_ge = false;
        let mut idx: u32 = 0;
        while idx < nlanes
            invariant
                idx <= nlanes,
                nlanes == (if eight {
                    4u32
                } else {
                    2u32
                }),
                eight == (op2 == 0b100 || op2 == 0b111),
                width == (if eight {
                    8u32
                } else {
                    16u32
                }),
                maskw == (if eight {
                    0xFFu32
                } else {
                    0xFFFFu32
                }),
                (result, ge, set_ge) == parallel_acc(n, m, prefix, op2, idx as nat),
            decreases nlanes - idx,
        {
            let (a, b, sub) = Self::parallel_lane_inputs(n, m, op2, idx);
            let (val, ge_opt) = Self::parallel_lane(prefix, a, b, sub, width);
            result = result | ((val & maskw) << (idx * width));
            if let Some(g) = ge_opt {
                set_ge = true;
                if g {
                    if eight {
                        ge = ge | (1u8 << (idx as u8));
                    } else {
                        ge = ge | (3u8 << ((idx * 2) as u8));
                    }
                }
            }
            idx += 1;
        }

        if set_ge {
            self.cpu.cpsr.ge = ge;
        }
        self.set_reg(rd, result)
    }
}

/// Byte lanes packed from below come back out at their places.
proof fn lemma_pack_bytes(v0: u32, v1: u32, v2: u32, v3: u32)
    by (bit_vector)
    ensures
        ({
            let r = (((0u32 | ((v0 & 0xFF) << 0u32)) | ((v1 & 0xFF) << 8u32)) | ((v2 & 0xFF)
                << 16u32)) | ((v3 & 0xFF) << 24u32);
            &&& (r >> 0u32) & 0xFF == v0 & 0xFF
            &&& (r >> 8u32) & 0xFF == v1 & 0xFF
            &&& (r >> 16u32) & 0xFF == v2 & 0xFF
            &&& (r >> 24u32) & 0xFF == v3 & 0xFF
        }),
{
}

/// Halfword lanes packed from below come back out at their places.
proof fn lemma_pack_halves(v0: u32, v1: u32)
    by (bit_vector)
    ensures
        ({
            let r = (0u32 | ((v0 & 0xFFFF) << 0u32)) | ((v1 & 0xFFFF) << 16u32);
            &&& (r >> 0u32) & 0xFFFF == v0 & 0xFFFF
            &&& (r >> 16u32) & 0xFFFF == v1 & 0xFFFF
        }),
{
}

/// GE flags set lane by lane from below hold each lane's flag.
proof fn lemma_pack_ge(g0: bool, g1: bool, g2: bool, g3: bool)
    by (bit_vector)
    ensures
        ({
            let e0 = if g0 { 0u8 | (1u8 << 0u8) } else { 0u8 };
            let e1 = if g1 { e0 | (1u8 << 1u8) } else { e0 };
            let e2 = if g2 { e1 | (1u8 << 2u8) } else { e1 };
            let e3 = if g3 { e2 | (1u8 << 3u8) } else { e2 };
            let h0 = if g0 { 0u8 | (3u8 << 0u8) } else { 0u8 };
            let h1 = if g1 { h0 | (3u8 << 2u8) } else { h0 };
            &&& (e3 >> 0u8) & 1 == (if g0 { 1u8 } else { 0u8 })
            &&& (e3 >> 1u8) & 1 == (if g1 { 1u8 } else { 0u8 })
            &&& (e3 >> 2u8) & 1 == (if g2 { 1u8 } else { 0u8 })
            &&& (e3 >> 3u8) & 1 == (if g3 { 1u8 } else { 0u8 })
            &&& (h1 >> 0u8) & 3 == (if g0 { 3u8 } else { 0u8 })
            &&& (h1 >> 2u8) & 3 == (if g1 { 3u8 } else { 0u8 })
        }),
{
}

/// Each lane of a parallel add/subtract result is the lane operation on
/// that lane's inputs; GE is written by the plain signed and unsigned
/// prefixes alone, and then each lane's GE bits are that lane's flag.
#[verifier::spinoff_prover]
#[verifier::rlimit(60)]
pub proof fn lemma_parallel_lanes(n: u32, m: u32, prefix: u32, op2: u32, i: u32)
    requires
        parallel_defined(prefix, op2),
        i < (if op2 == 0b100 || op2 == 0b111 {
            4u32
        } else {
            2u32
        }),
    ensures
        ({
            let eight = op2 == 0b100 || op2 == 0b111;
            let nl: nat = if eight {
                4
            } else {
                2
            };
            let (a, b, sub) = lane_inputs(n, m, op2, i);
            lane_w(parallel_acc(n, m, prefix, op2, nl).0, i, eight) == lane_op(
                prefix,
                a,
                b,
                sub,
                if eight {
                    8
                } else {
                    16
                },
            ).0 & (if eight {
                0xFFu32
            } else {
                0xFFFFu32
            })
        }),
        parallel_acc(
            n,
            m,
            prefix,
            op2,
            if op2 == 0b100 || op2 == 0b111 {
                4nat
            } else {
                2nat
            },
        ).2 == (prefix == 0b001 || prefix == 0b101),
        ({
            let eight = op2 == 0b100 || op2 == 0b111;
            let nl: nat = if eight {
                4
            } else {
                2
            };
            let (a, b, sub) = lane_inputs(n, m, op2, i);
            let ge = parallel_acc(n, m, prefix, op2, nl).1;
            lane_op(prefix, a, b, sub, if eight {
                8
            } else {
                16
            }).1 matches Some(bit) ==> if eight {
                (ge >> (i as u8)) & 1 == (if bit {
                    1u8
                } else {
                    0u8
                })
            } else {
                (ge >> ((2 * i) as u8)) & 3 == (if bit {
                    3u8
                } else {
                    0u8
                })
            }
        }),
{
    reveal_with_fuel(parallel_acc, 5);
    let eight = op2 == 0b100 || op2 == 0b111;
    let w: u32 = if eight {
        8
    } else {
        16
    };
    let v0 = lane_op(prefix, lane_inputs(n, m, op2, 0).0, lane_inputs(n, m, op2, 0).1, lane_inputs(n, m, op2, 0).2, w).0;
    let v1 = lane_op(prefix, lane_inputs(n, m, op2, 1).0, lane_inputs(n, m, op2, 1).1, lane_inputs(n, m, op2, 1).2, w).0;
    let v2 = lane_op(prefix, lane_inputs(n, m, op2, 2).0, lane_inputs(n, m, op2, 2).1, lane_inputs(n, m, op2, 2).2, w).0;
    let v3 = lane_op(prefix, lane_inputs(n, m, op2, 3).0, lane_inputs(n, m, op2, 3).1, lane_inputs(n, m, op2, 3).2, w).0;
    let g0 = lane_op(prefix, lane_inputs(n, m, op2, 0).0, lane_inputs(n, m, op2, 0).1, lane_inputs(n, m, op2, 0).2, w).1;
    let g1 = lane_op(prefix, lane_inputs(n, m, op2, 1).0, lane_inputs(n, m, op2, 1).1, lane_inputs(n, m, op2, 1).2, w).1;
    let g2 = lane_op(prefix, lane_inputs(n, m, op2, 2).0, lane_inputs(n, m, op2, 2).1, lane_inputs(n, m, op2, 2).2, w).1;
    let g3 = lane_op(prefix, lane_inputs(n, m, op2, 3).0, lane_inputs(n, m, op2, 3).1, lane_inputs(n, m, op2, 3).2, w).1;
    lemma_pack_ge(g0 == Some(true), g1 == Some(true), g2 == Some(true), g3 == Some(true));
    if eight {
        lemma_pack_bytes(v0, v1, v2, v3);
        assert(parallel_acc(n, m, prefix, op2, 4).0 == (((0u32 | ((v0 & 0xFF) << 0u32)) | ((v1
            & 0xFF) << 8u32)) | ((v2 & 0xFF) << 16u32)) | ((v3 & 0xFF) << 24u32));
    } else {
        lemma_pack_halves(v0, v1);
        assert(parallel_acc(n, m, prefix, op2, 2).0 == (0u32 | ((v0 & 0xFFFF) << 0u32)) | ((v1
            & 0xFFFF) << 16u32));
    }
}

} // verus!
