//! VEX integer instructions: byte shuffle (VPSHUFB) and packed arithmetic.

use crate::backend::emulator::x86_64::cpu::{
    adv, from_bytes, from_vbytes, modrm_result, to_bytes, vbytes, vreg_of, with_vreg, EmuError,
    InsnContext, MemStep, X86_64Vcpu,
};
use crate::backend::emulator::x86_64::dispatch::vex::lanes::{
    is_lane_op, lanewise, lanewise_exec, op_modulus, sad_bw, sad_fold,
};
use crate::backend::emulator::x86_64::dispatch::vex::misc::vec_operand;
use crate::cpu::VcpuExit;
use vstd::prelude::*;

verus! {

/// VPSHUFB result bytes: within each 128-bit lane, byte `i` is the source
/// byte the low four bits of control byte `i` select, or zero where the
/// control byte's top bit is set. A 128-bit form clears the upper lane.
pub open spec fn pshufb_bytes(src: Seq<u8>, ctl: Seq<u8>, l: u8) -> Seq<u8> {
    Seq::new(
        32,
        |i: int|
            if i >= 16 && l != 1 {
                0u8
            } else if ctl[i] >= 0x80 {
                0u8
            } else {
                src[16 * (i / 16) + ctl[i] % 16]
            },
    )
}

/// VPSHUFB xmm1, xmm2 (vvvv), xmm3/m (VEX.66.0F38 00).
pub open spec fn pshufb_effect(v: X86_64Vcpu, ctx: InsnContext, l: u8, vvvv: u8) -> MemStep {
    let regs = v.regs;
    let m = v.memory();
    match modrm_result(regs, v.sregs, ctx, 0) {
        Err(e) => (regs, m, Err(e)),
        Ok(d) => {
            let n: nat = if l == 1 {
                4
            } else {
                2
            };
            match vec_operand(m, regs, d, n) {
                None => (regs, m, Err(EmuError::MemoryFault(d.addr))),
                Some(ctl) => (
                    adv(
                        with_vreg(
                            regs,
                            d.reg as int,
                            from_vbytes(
                                pshufb_bytes(vbytes(vreg_of(regs, vvvv as int)), vbytes(ctl), l),
                            ),
                        ),
                        regs.rip,
                        ctx.cursor + d.len,
                    ),
                    m,
                    Ok(None),
                ),
            }
        },
    }
}

/// An opcode of the packed integer arithmetic group (VEX.66.0F).
pub open spec fn is_packed_int_op(op: u8) -> bool {
    (is_lane_op(op) && op >= 0xD0) || op == 0xD4 || op == 0xDB || op == 0xDF || op == 0xEB || op == 0xEF || op
        == 0xF4 || op == 0xF6 || op == 0xFB
}

/// Whether `op` belongs to the packed integer arithmetic group.
pub fn packed_int_opcode(op: u8) -> (b: bool)
    ensures
        b == is_packed_int_op(op),
{
    op == 0xD4 || op == 0xD5 || (0xD8 <= op && op <= 0xE0 && op != 0xD7) || (0xE3 <= op && op
        <= 0xE5) || (0xE8 <= op && op <= 0xEF) || (0xF4 <= op && op <= 0xF6) || (0xF8 <= op && op
        <= 0xFE)
}

/// Result of a packed integer opcode on one quadword of each source.
pub open spec fn qword_op(op: u8, a: u64, b: u64) -> u64 {
    if op == 0xD4 {
        // PADDQ
        ((a + b) % 0x1_0000_0000_0000_0000) as u64
    } else if op == 0xFB {
        // PSUBQ
        ((a - b) % 0x1_0000_0000_0000_0000) as u64
    } else if op == 0xDB {
        // PAND
        a & b
    } else if op == 0xDF {
        // PANDN
        !a & b
    } else if op == 0xEB {
        // POR
        a | b
    } else if op == 0xEF {
        // PXOR
        a ^ b
    } else if op == 0xF4 {
        // PMULUDQ: product of the low dwords.
        ((a % 0x1_0000_0000) * (b % 0x1_0000_0000)) as u64
    } else if op == 0xF6 {
        // PSADBW
        sad_fold(a, b, 8) as u64
    } else if is_lane_op(op) {
        lanewise(op, a, b, op_modulus(op))
    } else {
        0
    }
}

/// Quadwords of a packed integer result: each is `qword_op` of the sources'
/// quadwords; a 128-bit form clears the upper lane.
pub open spec fn packed_result(op: u8, a: Seq<u64>, b: Seq<u64>, l: u8) -> Seq<u64> {
    Seq::new(
        4,
        |i: int|
            if i >= 2 && l != 1 {
                0u64
            } else {
                qword_op(op, a[i], b[i])
            },
    )
}

/// A VEX packed integer arithmetic instruction (VEX.66.0F `op`):
/// xmm1/ymm1 = op(xmm2/ymm2 (vvvv), xmm3/ymm3/mem).
pub open spec fn packed_arith_effect(
    v: X86_64Vcpu,
    ctx: InsnContext,
    l: u8,
    vvvv: u8,
    op: u8,
) -> MemStep {
    let regs = v.regs;
    let m = v.memory();
    match modrm_result(regs, v.sregs, ctx, 0) {
        Err(e) => (regs, m, Err(e)),
        Ok(d) => {
            let n: nat = if l == 1 {
                4
            } else {
                2
            };
            match vec_operand(m, regs, d, n) {
                None => (regs, m, Err(EmuError::MemoryFault(d.addr))),
                Some(src2) => (
                    adv(
                        with_vreg(
                            regs,
                            d.reg as int,
                            packed_result(op, vreg_of(regs, vvvv as int), src2, l),
                        ),
                        regs.rip,
                        ctx.cursor + d.len,
                    ),
                    m,
                    Ok(None),
                ),
            }
        },
    }
}

/// `qword_op` on one quadword of each source.
fn qword_op_exec(op: u8, a: u64, b: u64) -> (r: u64)
    ensures
        r == qword_op(op, a, b),
{
    if op == 0xD4 {
        if a > u64::MAX - b {
            a - (u64::MAX - b) - 1
        } else {
            a + b
        }
    } else if op == 0xFB {
        if a >= b {
            a - b
        } else {
            u64::MAX - (b - a) + 1
        }
    } else if op == 0xDB {
        a & b
    } else if op == 0xDF {
        !a & b
    } else if op == 0xEB {
        a | b
    } else if op == 0xEF {
        a ^ b
    } else if op == 0xF4 {
        let x = a % 0x1_0000_0000;
        let y = b % 0x1_0000_0000;
        assert(x * y <= 0xFFFF_FFFE_0000_0001) by (nonlinear_arith)
            requires
                x < 0x1_0000_0000,
                y < 0x1_0000_0000,
        ;
        x * y
    } else if op == 0xF6 {
        sad_bw(a, b)
    } else if op == 0xD5 || op == 0xD8 || op == 0xD9 || op == 0xDA || op == 0xDC || op == 0xDD
        || op == 0xDE || op == 0xE0 || op == 0xE3 || op == 0xE4 || op == 0xE5 || op == 0xE8 || op
        == 0xE9 || op == 0xEA || op == 0xEC || op == 0xED || op == 0xEE || op == 0xF5 || op == 0xF8
        || op == 0xF9 || op == 0xFA || op == 0xFC || op == 0xFD || op == 0xFE || op == 0x04 || op
        == 0x08 || op == 0x09 || op == 0x0A || op == 0x0B {
        lanewise_exec(op, a, b)
    } else {
        0
    }
}

/// A packed integer opcode on the two quadwords of a 128-bit lane of each
/// source.
pub fn packed_int_op(a_lo: u64, a_hi: u64, b_lo: u64, b_hi: u64, opcode: u8) -> (r: (u64, u64))
    ensures
        r == (qword_op(opcode, a_lo, b_lo), qword_op(opcode, a_hi, b_hi)),
{
    (qword_op_exec(opcode, a_lo, b_lo), qword_op_exec(opcode, a_hi, b_hi))
}

impl X86_64Vcpu {
    /// VPSHUFB xmm1/ymm1, xmm2/ymm2 (vvvv), xmm3/ymm3/mem.
    pub fn execute_vex_pshufb(&mut self, ctx: &mut InsnContext, vex_l: u8, vvvv: u8) -> (r:
        Result<Option<VcpuExit>, EmuError>)
        requires
            old(ctx).wf(),
            vvvv < 16,
        ensures
            final(self).sregs == old(self).sregs,
            (final(self).regs, final(self).memory(), r) == pshufb_effect(
                *old(self),
                *old(ctx),
                vex_l,
                vvvv,
            ),
    {
        let d = self.decode_modrm(ctx, 0)?;
        let n: usize = if vex_l == 1 {
            4
        } else {
            2
        };
        let ctl_q = self.fetch_vec_operand(&d, n)?;
        let ctl = to_bytes(&ctl_q);
        let src = to_bytes(&self.vreg(vvvv));
        let mut out = [0u8; 32];
        let mut i: usize = 0;
        while i < 32
            invariant
                i <= 32,
                forall|k: int|
                    0 <= k < i ==> #[trigger] out[k] == pshufb_bytes(src@, ctl@, vex_l)[k],
                forall|k: int| i <= k < 32 ==> #[trigger] out[k] == 0,
            decreases 32 - i,
        {
            if i < 16 || vex_l == 1 {
                let idx = ctl[i];
                if idx < 0x80 {
                    out[i] = src[16 * (i / 16) + (idx % 16) as usize];
                }
            }
            i += 1;
        }
        assert(out@ =~= pshufb_bytes(src@, ctl@, vex_l));
        self.set_vreg(d.reg, from_bytes(&out));
        self.advance(ctx.cursor);
        Ok(None)
    }

    /// Packed integer arithmetic: xmm1/ymm1 = op(xmm2/ymm2 (vvvv),
    /// xmm3/ymm3/mem), VEX.66.0F `opcode`.
    pub fn execute_vex_packed_int_arith(
        &mut self,
        ctx: &mut InsnContext,
        vex_l: u8,
        vvvv: u8,
        opcode: u8,
    ) -> (r: Result<Option<VcpuExit>, EmuError>)
        requires
            old(ctx).wf(),
            vvvv < 16,
        ensures
            final(self).sregs == old(self).sregs,
            (final(self).regs, final(self).memory(), r) == packed_arith_effect(
                *old(self),
                *old(ctx),
                vex_l,
                vvvv,
                opcode,
            ),
    {
        let d = self.decode_modrm(ctx, 0)?;
        let n: usize = if vex_l == 1 {
            4
        } else {
            2
        };
        let src2 = self.fetch_vec_operand(&d, n)?;
        let src1 = self.vreg(vvvv);
        let (lo0, lo1) = packed_int_op(src1[0], src1[1], src2[0], src2[1], opcode);
        let (hi0, hi1) = if vex_l == 1 {
            packed_int_op(src1[2], src1[3], src2[2], src2[3], opcode)
        } else {
            (0, 0)
        };
        let out: [u64; 4] = [lo0, lo1, hi0, hi1];
        assert(out@ =~= packed_result(opcode, vreg_of(self.regs, vvvv as int), src2@, vex_l));
        self.set_vreg(d.reg, out);
        self.advance(ctx.cursor);
        Ok(None)
    }
}

} // verus!
