//! VEX.66.0F38 integer instructions that combine neighbouring elements or
//! whole blocks: PHADD/PHSUB (W, D, SW), PMADDUBSW, PSIGNB/W/D, PMULHRSW,
//! PHMINPOSUW, and MPSADBW (VEX.66.0F3A 42).

use crate::backend::emulator::x86_64::cpu::{
    adv, from_bytes, from_vbytes, modrm_result, to_bytes, vbytes, vreg_of, with_vreg, EmuError,
    InsnContext, MemStep, X86_64Vcpu,
};
use crate::backend::emulator::x86_64::dispatch::vex::integer::packed_arith_effect;
use crate::backend::emulator::x86_64::dispatch::vex::lanes::{lane, lane_op, lane_op_exec, mpow};
use crate::backend::emulator::x86_64::dispatch::vex::misc::vec_operand;
use crate::cpu::VcpuExit;
use vstd::prelude::*;

verus! {

/// The lane operation PHADD/PHSUB apply to each adjacent pair: wrapping or
/// (for words) saturating add or subtract.
pub open spec fn pair_lane_op(sub: bool, saturate: bool, words: bool) -> u8 {
    if words {
        if sub {
            if saturate {
                0xE9
            } else {
                0xF9
            }
        } else if saturate {
            0xED
        } else {
            0xFD
        }
    } else if sub {
        0xFA
    } else {
        0xFE
    }
}

/// A pair operation (see `pair_lane_op`).
pub open spec fn is_pair_op(op: u8) -> bool {
    op == 0xE9 || op == 0xF9 || op == 0xED || op == 0xFD || op == 0xFA || op == 0xFE
}

/// The adjacent pairs of a quadword combined by `op`, packed into 32 bits:
/// two word results, or one dword result.
pub open spec fn pairs(q: u64, op: u8) -> nat {
    if op == 0xFA || op == 0xFE {
        lane_op(op, lane(q, 0x1_0000_0000, 0), lane(q, 0x1_0000_0000, 1), 0x1_0000_0000)
    } else {
        lane_op(op, lane(q, 0x1_0000, 0), lane(q, 0x1_0000, 1), 0x1_0000) + 0x1_0000 * lane_op(
            op,
            lane(q, 0x1_0000, 2),
            lane(q, 0x1_0000, 3),
            0x1_0000,
        )
    }
}

/// PHADD/PHSUB result quadwords: in each 128-bit lane, the low quadword
/// holds the pairs of the first source's lane, the high one those of the
/// second source's; a 128-bit form clears the upper lane.
pub open spec fn hpair_result(op: u8, a: Seq<u64>, b: Seq<u64>, l: u8) -> Seq<u64> {
    Seq::new(
        4,
        |i: int|
            if i >= 2 && l != 1 {
                0u64
            } else {
                let s = if i % 2 == 0 {
                    a
                } else {
                    b
                };
                let k = 2 * (i / 2);
                (pairs(s[k], op) + 0x1_0000_0000 * pairs(s[k + 1], op)) as u64
            },
    )
}

/// VPHADD*/VPHSUB* xmm1, xmm2 (vvvv), xmm3/m with pair operation `op`.
pub open spec fn hpair_effect(v: X86_64Vcpu, ctx: InsnContext, l: u8, vvvv: u8, op: u8) -> MemStep {
    let regs = v.regs;
    let m = v.memory();
    match modrm_result(regs, v.sregs, ctx, 0) {
        Err(e) => (regs, m, Err(e)),
        Ok(d) => {
            let n: nat = if l == 1 {
                4
            } else {
                2
            };
            match vec_operand(m, regs, d, n) {
                None => (regs, m, Err(EmuError::MemoryFault(d.addr))),
                Some(src2) => (
                    adv(
                        with_vreg(
                            regs,
                            d.reg as int,
                            hpair_result(op, vreg_of(regs, vvvv as int), src2, l),
                        ),
                        regs.rip,
                        ctx.cursor + d.len,
                    ),
                    m,
                    Ok(None),
                ),
            }
        },
    }
}

proof fn lemma_word_lanes(q: u64)
    ensures
        lane(q, 0x1_0000, 0) == q % 0x1_0000,
        lane(q, 0x1_0000, 1) == (q / 0x1_0000) % 0x1_0000,
        lane(q, 0x1_0000, 2) == (q / 0x1_0000_0000) % 0x1_0000,
        lane(q, 0x1_0000, 3) == (q / 0x1_0000_0000_0000) % 0x1_0000,
        lane(q, 0x1_0000_0000, 0) == q % 0x1_0000_0000,
        lane(q, 0x1_0000_0000, 1) == (q / 0x1_0000_0000) % 0x1_0000_0000,
{
    reveal_with_fuel(mpow, 4);
    assert(mpow(0x1_0000, 0) == 1 && mpow(0x1_0000_0000, 0) == 1);
    assert(q as nat / 1 == q as nat);
}

fn pairs_exec(q: u64, op: u8) -> (r: u64)
    requires
        is_pair_op(op),
    ensures
        r == pairs(q, op),
{
    proof {
        lemma_word_lanes(q);
    }
    if op == 0xFA || op == 0xFE {
        lane_op_exec(op, q % 0x1_0000_0000, (q / 0x1_0000_0000) % 0x1_0000_0000, 0x1_0000_0000)
    } else {
        let w0 = lane_op_exec(op, q % 0x1_0000, (q / 0x1_0000) % 0x1_0000, 0x1_0000);
        let w1 = lane_op_exec(
            op,
            (q / 0x1_0000_0000) % 0x1_0000,
            (q / 0x1_0000_0000_0000) % 0x1_0000,
            0x1_0000,
        );
        w0 + 0x1_0000 * w1
    }
}

fn pair_quadword(lo: u64, hi: u64, op: u8) -> (r: u64)
    requires
        is_pair_op(op),
    ensures
        r == (pairs(lo, op) + 0x1_0000_0000 * pairs(hi, op)) as u64,
{
    let p = pairs_exec(lo, op);
    let q = pairs_exec(hi, op);
    proof {
        lemma_pairs_bound(lo, op);
        lemma_pairs_bound(hi, op);
    }
    p + 0x1_0000_0000 * q
}

proof fn lemma_pairs_bound(q: u64, op: u8)
    requires
        is_pair_op(op),
    ensures
        pairs(q, op) < 0x1_0000_0000,
{
    crate::backend::emulator::x86_64::dispatch::vex::lanes::lemma_lane_op_bound(
        op,
        lane(q, 0x1_0000_0000, 0),
        lane(q, 0x1_0000_0000, 1),
        0x1_0000_0000,
    );
    crate::backend::emulator::x86_64::dispatch::vex::lanes::lemma_lane_op_bound(
        op,
        lane(q, 0x1_0000, 0),
        lane(q, 0x1_0000, 1),
        0x1_0000,
    );
    crate::backend::emulator::x86_64::dispatch::vex::lanes::lemma_lane_op_bound(
        op,
        lane(q, 0x1_0000, 2),
        lane(q, 0x1_0000, 3),
        0x1_0000,
    );
    lemma_word_lanes(q);
}

/// PHADDW/PHADDSW (`elem_bits` 16) or PHADDD (32) on one 128-bit lane of
/// each source: (low, high) result quadwords.
pub fn hadd_128(a_lo: u64, a_hi: u64, b_lo: u64, b_hi: u64, elem_bits: u32, saturate: bool) -> (r: (
    u64,
    u64,
))
    ensures
        ({
            let op = pair_lane_op(false, saturate, elem_bits == 16);
            r == ((pairs(a_lo, op) + 0x1_0000_0000 * pairs(a_hi, op)) as u64, (pairs(b_lo, op)
                + 0x1_0000_0000 * pairs(b_hi, op)) as u64)
        }),
{
    let op: u8 = if elem_bits == 16 {
        if saturate {
            0xED
        } else {
            0xFD
        }
    } else {
        0xFE
    };
    (pair_quadword(a_lo, a_hi, op), pair_quadword(b_lo, b_hi, op))
}

/// PHSUBW/PHSUBSW (`elem_bits` 16) or PHSUBD (32) on one 128-bit lane of
/// each source: (low, high) result quadwords.
pub fn hsub_128(a_lo: u64, a_hi: u64, b_lo: u64, b_hi: u64, elem_bits: u32, saturate: bool) -> (r: (
    u64,
    u64,
))
    ensures
        ({
            let op = pair_lane_op(true, saturate, elem_bits == 16);
            r == ((pairs(a_lo, op) + 0x1_0000_0000 * pairs(a_hi, op)) as u64, (pairs(b_lo, op)
                + 0x1_0000_0000 * pairs(b_hi, op)) as u64)
        }),
{
    let op: u8 = if elem_bits == 16 {
        if saturate {
            0xE9
        } else {
            0xF9
        }
    } else {
        0xFA
    };
    (pair_quadword(a_lo, a_hi, op), pair_quadword(b_lo, b_hi, op))
}

/// Word `i` (0..16) of a vector.
pub open spec fn word_of(q: Seq<u64>, i: int) -> nat {
    lane(q[i / 4], 0x1_0000, (i % 4) as nat)
}

/// The least of the first `n` words of `q` and the index of its first
/// occurrence.
pub open spec fn min_pos(q: Seq<u64>, n: nat) -> (nat, nat)
    decreases n,
{
    if n <= 1 {
        (word_of(q, 0), 0)
    } else {
        let p = min_pos(q, (n - 1) as nat);
        if word_of(q, n - 1) < p.0 {
            (word_of(q, n - 1), (n - 1) as nat)
        } else {
            p
        }
    }
}

/// `min_pos` finds the minimum and the first place it occurs.
pub proof fn lemma_min_pos(q: Seq<u64>, n: nat)
    requires
        n >= 1,
    ensures
        min_pos(q, n).1 < n,
        word_of(q, min_pos(q, n).1 as int) == min_pos(q, n).0,
        forall|k: int| 0 <= k < n ==> min_pos(q, n).0 <= #[trigger] word_of(q, k),
        forall|k: int| 0 <= k < min_pos(q, n).1 ==> min_pos(q, n).0 < #[trigger] word_of(q, k),
    decreases n,
{
    if n > 1 {
        lemma_min_pos(q, (n - 1) as nat);
    }
}

/// VPHMINPOSUW xmm1, xmm2/m128: the least unsigned word of the source in
/// bits 15..0 and its index in bits 18..16, the rest cleared. VEX.vvvv
/// must be 1111b; the VEX.256 form writes the result and then refuses.
pub open spec fn phminposuw_effect(v: X86_64Vcpu, ctx: InsnContext, l: u8, vvvv: u8) -> MemStep {
    let regs = v.regs;
    let m = v.memory();
    if vvvv != 0 {
        (regs, m, Err(EmuError::InvalidOpcode(ctx.opcode)))
    } else {
        match modrm_result(regs, v.sregs, ctx, 0) {
            Err(e) => (regs, m, Err(e)),
            Ok(d) => match vec_operand(m, regs, d, 2) {
                None => (regs, m, Err(EmuError::MemoryFault(d.addr))),
                Some(src) => {
                    let p = min_pos(src, 8);
                    let r = with_vreg(regs, d.reg as int, seq![(p.0 + 0x1_0000 * p.1) as u64, 0, 0, 0]);
                    if l == 1 {
                        (r, m, Err(EmuError::InvalidOpcode(ctx.opcode)))
                    } else {
                        (adv(r, regs.rip, ctx.cursor + d.len), m, Ok(None))
                    }
                },
            },
        }
    }
}

/// |x - y| of two bytes.
pub open spec fn absdiff(x: u8, y: u8) -> nat {
    if x >= y {
        (x - y) as nat
    } else {
        (y - x) as nat
    }
}

/// Sum of absolute differences of four bytes of `x` from `i` and of `y`
/// from `j`.
pub open spec fn sad4(x: Seq<u8>, i: int, y: Seq<u8>, j: int) -> nat {
    absdiff(x[i], y[j]) + absdiff(x[i + 1], y[j + 1]) + absdiff(x[i + 2], y[j + 2]) + absdiff(
        x[i + 3],
        y[j + 3],
    )
}

/// MPSADBW result word `w` (0..16): in 128-bit lane `w / 8`, the SAD of the
/// four bytes of the first source at block offset (imm bit 2) plus `w % 8`
/// against the four-byte block of the second source that imm bits 1..0
/// (upper lane: bits 4..3) select.
pub open spec fn mpsadbw_word(s1: Seq<u8>, s2: Seq<u8>, imm: u8, w: int) -> nat {
    let ln = w / 8;
    let blk1 = 4 * ((imm / 4) % 2) as int;
    let blk2 = 4 * (if ln == 0 {
        imm % 4
    } else {
        (imm / 8) % 4
    }) as int;
    sad4(s1, 16 * ln + blk1 + w % 8, s2, 16 * ln + blk2)
}

/// MPSADBW result bytes; a 128-bit form clears the upper lane.
pub open spec fn mpsadbw_bytes(s1: Seq<u8>, s2: Seq<u8>, imm: u8, l: u8) -> Seq<u8> {
    Seq::new(
        32,
        |b: int|
            if b >= 16 && l != 1 {
                0u8
            } else if b % 2 == 0 {
                (mpsadbw_word(s1, s2, imm, b / 2) % 256) as u8
            } else {
                (mpsadbw_word(s1, s2, imm, b / 2) / 256) as u8
            },
    )
}

/// VMPSADBW xmm1, xmm2 (vvvv), xmm3/m, imm8.
pub open spec fn mpsadbw_effect(v: X86_64Vcpu, ctx: InsnContext, l: u8, vvvv: u8) -> MemStep {
    let regs = v.regs;
    let m = v.memory();
    match modrm_result(regs, v.sregs, ctx, 1) {
        Err(e) => (regs, m, Err(e)),
        Ok(d) => {
            let c = ctx.cursor + d.len;
            if c >= ctx.bytes_len {
                (regs, m, Err(EmuError::Incomplete))
            } else {
                let imm = ctx.bytes[c];
                let n: nat = if l == 1 {
                    4
                } else {
                    2
                };
                match vec_operand(m, regs, d, n) {
                    None => (regs, m, Err(EmuError::MemoryFault(d.addr))),
                    Some(src2) => (
                        adv(
                            with_vreg(
                                regs,
                                d.reg as int,
                                from_vbytes(
                                    mpsadbw_bytes(
                                        vbytes(vreg_of(regs, vvvv as int)),
                                        vbytes(src2),
                                        imm,
                                        l,
                                    ),
                                ),
                            ),
                            regs.rip,
                            c + 1,
                        ),
                        m,
                        Ok(None),
                    ),
                }
            }
        },
    }
}

fn absdiff_exec(x: u8, y: u8) -> (r: u16)
    ensures
        r == absdiff(x, y),
{
    if x >= y {
        (x - y) as u16
    } else {
        (y - x) as u16
    }
}

/// One MPSADBW result word (see `mpsadbw_word`).
fn sad_word(s1: &[u8; 32], s2: &[u8; 32], imm: u8, w: usize) -> (r: u16)
    requires
        w < 16,
    ensures
        r as nat == mpsadbw_word(s1@, s2@, imm, w as int),
{
    let ln = w / 8;
    let blk1: usize = 4 * ((imm / 4) % 2) as usize;
    let blk2: usize = 4 * (if ln == 0 {
        imm % 4
    } else {
        (imm / 8) % 4
    }) as usize;
    let i = 16 * ln + blk1 + w % 8;
    let j = 16 * ln + blk2;
    absdiff_exec(s1[i], s2[j]) + absdiff_exec(s1[i + 1], s2[j + 1]) + absdiff_exec(
        s1[i + 2],
        s2[j + 2],
    ) + absdiff_exec(s1[i + 3], s2[j + 3])
}

impl X86_64Vcpu {
    #[verifier::rlimit(30)]
    fn execute_vex_hpair(&mut self, ctx: &mut InsnContext, vex_l: u8, vvvv: u8, op: u8) -> (r:
        Result<Option<VcpuExit>, EmuError>)
        requires
            old(ctx).wf(),
            vvvv < 16,
            is_pair_op(op),
        ensures
            final(self).sregs == old(self).sregs,
            (final(self).regs, final(self).memory(), r) == hpair_effect(
                *old(self),
                *old(ctx),
                vex_l,
                vvvv,
                op,
            ),
    {
        let d = self.decode_modrm(ctx, 0)?;
        let n: usize = if vex_l == 1 {
            4
        } else {
            2
        };
        let src2 = self.fetch_vec_operand(&d, n)?;
        let src1 = self.vreg(vvvv);
        let q0 = pair_quadword(src1[0], src1[1], op);
        let q1 = pair_quadword(src2[0], src2[1], op);
        let (q2, q3) = if vex_l == 1 {
            (pair_quadword(src1[2], src1[3], op), pair_quadword(src2[2], src2[3], op))
        } else {
            (0, 0)
        };
        let out: [u64; 4] = [q0, q1, q2, q3];
        proof {
            let want = hpair_result(op, vreg_of(self.regs, vvvv as int), src2@, vex_l);
            assert(out@[0] == want[0]);
            assert(out@[1] == want[1]);
            assert(out@[2] == want[2]);
            assert(out@[3] == want[3]);
            assert(out@ =~= want);
        }
        self.set_vreg(d.reg, out);
        self.advance(ctx.cursor);
        Ok(None)
    }

    /// VPHADDW/VPHADDD/VPHADDSW: horizontal add of adjacent elements
    /// (`elem_bits` 16 or 32; `saturate` for words).
    pub fn execute_vex_phadd(
        &mut self,
        ctx: &mut InsnContext,
        vex_l: u8,
        vvvv: u8,
        elem_bits: u32,
        saturate: bool,
    ) -> (r: Result<Option<VcpuExit>, EmuError>)
        requires
            old(ctx).wf(),
            vvvv < 16,
        ensures
            final(self).sregs == old(self).sregs,
            (final(self).regs, final(self).memory(), r) == hpair_effect(
                *old(self),
                *old(ctx),
                vex_l,
                vvvv,
                pair_lane_op(false, saturate, elem_bits == 16),
            ),
    {
        let op: u8 = if elem_bits == 16 {
            if saturate {
                0xED
            } else {
                0xFD
            }
        } else {
            0xFE
        };
        self.execute_vex_hpair(ctx, vex_l, vvvv, op)
    }

    /// VPHSUBW/VPHSUBD/VPHSUBSW: horizontal subtract of adjacent elements.
    pub fn execute_vex_phsub(
        &mut self,
        ctx: &mut InsnContext,
        vex_l: u8,
        vvvv: u8,
        elem_bits: u32,
        saturate: bool,
    ) -> (r: Result<Option<VcpuExit>, EmuError>)
        requires
            old(ctx).wf(),
            vvvv < 16,
        ensures
            final(self).sregs == old(self).sregs,
            (final(self).regs, final(self).memory(), r) == hpair_effect(
                *old(self),
                *old(ctx),
                vex_l,
                vvvv,
                pair_lane_op(true, saturate, elem_bits == 16),
            ),
    {
        let op: u8 = if elem_bits == 16 {
            if saturate {
                0xE9
            } else {
                0xF9
            }
        } else {
            0xFA
        };
        self.execute_vex_hpair(ctx, vex_l, vvvv, op)
    }

    /// VPMADDUBSW: unsigned bytes of the first source times signed bytes of
    /// the second, adjacent products summed into saturated words.
    pub fn execute_vex_pmaddubsw(&mut self, ctx: &mut InsnContext, vex_l: u8, vvvv: u8) -> (r:
        Result<Option<VcpuExit>, EmuError>)
        requires
            old(ctx).wf(),
            vvvv < 16,
        ensures
            final(self).sregs == old(self).sregs,
            (final(self).regs, final(self).memory(), r) == packed_arith_effect(
                *old(self),
                *old(ctx),
                vex_l,
                vvvv,
                0x04,
            ),
    {
        self.execute_vex_packed_int_arith(ctx, vex_l, vvvv, 0x04)
    }

    /// VPSIGNB/W/D (opcode 0x08/0x09/0x0A): each element of the first
    /// source negated, zeroed or kept by the sign of the second's.
    pub fn execute_vex_psign(&mut self, ctx: &mut InsnContext, vex_l: u8, vvvv: u8, opcode: u8) -> (r:
        Result<Option<VcpuExit>, EmuError>)
        requires
            old(ctx).wf(),
            vvvv < 16,
            opcode == 0x08 || opcode == 0x09 || opcode == 0x0A,
        ensures
            final(self).sregs == old(self).sregs,
            (final(self).regs, final(self).memory(), r) == packed_arith_effect(
                *old(self),
                *old(ctx),
                vex_l,
                vvvv,
                opcode,
            ),
    {
        self.execute_vex_packed_int_arith(ctx, vex_l, vvvv, opcode)
    }

    /// VPMULHRSW: signed word products scaled by 2^-15 with rounding.
    pub fn execute_vex_pmulhrsw(&mut self, ctx: &mut InsnContext, vex_l: u8, vvvv: u8) -> (r:
        Result<Option<VcpuExit>, EmuError>)
        requires
            old(ctx).wf(),
            vvvv < 16,
        ensures
            final(self).sregs == old(self).sregs,
            (final(self).regs, final(self).memory(), r) == packed_arith_effect(
                *old(self),
                *old(ctx),
                vex_l,
                vvvv,
                0x0B,
            ),
    {
        self.execute_vex_packed_int_arith(ctx, vex_l, vvvv, 0x0B)
    }

    /// VPHMINPOSUW xmm1, xmm2/m128.
    pub fn execute_vex_phminposuw(&mut self, ctx: &mut InsnContext, vex_l: u8, vvvv: u8) -> (r:
        Result<Option<VcpuExit>, EmuError>)
        requires
            old(ctx).wf(),
        ensures
            final(self).sregs == old(self).sregs,
            (final(self).regs, final(self).memory(), r) == phminposuw_effect(
                *old(self),
                *old(ctx),
                vex_l,
                vvvv,
            ),
    {
        if vvvv != 0 {
            return Err(EmuError::InvalidOpcode(ctx.opcode));
        }
        let opcode = ctx.opcode;
        let d = self.decode_modrm(ctx, 0)?;
        let src = self.fetch_vec_operand(&d, 2)?;
        proof {
            lemma_word_lanes(src[0]);
            lemma_word_lanes(src[1]);
        }
        let mut min_val: u64 = src[0] % 0x1_0000;
        let mut min_idx: u64 = 0;
        let mut i: usize = 1;
        while i < 8
            invariant
                1 <= i <= 8,
                (min_val as nat, min_idx as nat) == min_pos(src@, i as nat),
                min_val < 0x1_0000,
                min_idx < 8,
            decreases 8 - i,
        {
            let q = src[i / 4];
            let k = i % 4;
            let w = if k == 0 {
                q % 0x1_0000
            } else if k == 1 {
                (q / 0x1_0000) % 0x1_0000
            } else if k == 2 {
                (q / 0x1_0000_0000) % 0x1_0000
            } else {
                (q / 0x1_0000_0000_0000) % 0x1_0000
            };
            proof {
                lemma_word_lanes(q);
                assert(w == word_of(src@, i as int));
            }
            if w < min_val {
                min_val = w;
                min_idx = i as u64;
            }
            i += 1;
        }
        let out: [u64; 4] = [min_val + 0x1_0000 * min_idx, 0, 0, 0];
        assert(out@ =~= seq![(min_val + 0x1_0000 * min_idx) as u64, 0u64, 0u64, 0u64]);
        self.set_vreg(d.reg, out);
        if vex_l == 1 {
            return Err(EmuError::InvalidOpcode(opcode));
        }
        self.advance(ctx.cursor);
        Ok(None)
    }

    /// VMPSADBW xmm1, xmm2 (vvvv), xmm3/m, imm8.
    pub fn execute_vex_mpsadbw(&mut self, ctx: &mut InsnContext, vex_l: u8, vvvv: u8) -> (r: Result<
        Option<VcpuExit>,
        EmuError,
    >)
        requires
            old(ctx).wf(),
            vvvv < 16,
        ensures
            final(self).sregs == old(self).sregs,
            (final(self).regs, final(self).memory(), r) == mpsadbw_effect(
                *old(self),
                *old(ctx),
                vex_l,
                vvvv,
            ),
    {
        let d = self.decode_modrm(ctx, 1)?;
        let imm = ctx.consume_u8()?;
        let n: usize = if vex_l == 1 {
            4
        } else {
            2
        };
        let src2_q = self.fetch_vec_operand(&d, n)?;
        let s1 = to_bytes(&self.vreg(vvvv));
        let s2 = to_bytes(&src2_q);
        let mut out = [0u8; 32];
        let words: usize = if vex_l == 1 {
            16
        } else {
            8
        };
        let mut w: usize = 0;
        while w < words
            invariant
                w <= words,
                words == 16 || words == 8,
                words == 16 <==> vex_l == 1,
                forall|b: int|
                    0 <= b < 2 * w ==> #[trigger] out[b] == mpsadbw_bytes(s1@, s2@, imm, vex_l)[b],
                forall|b: int| 2 * w <= b < 32 ==> #[trigger] out[b] == 0,
            decreases words - w,
        {
            let s = sad_word(&s1, &s2, imm, w);
            out[2 * w] = (s % 256) as u8;
            out[2 * w + 1] = (s / 256) as u8;
            w += 1;
        }
        assert(out@ =~= mpsadbw_bytes(s1@, s2@, imm, vex_l));
        self.set_vreg(d.reg, from_bytes(&out));
        self.advance(ctx.cursor);
        Ok(None)
    }
}

} // verus!
