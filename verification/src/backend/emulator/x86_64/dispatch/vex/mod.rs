//! VEX-encoded instructions: prefix decoding and the sign-mask extracts.

pub mod horizontal;
pub mod integer;
pub mod kmask;
pub mod lanes;
pub mod misc;
pub mod shuffle;
pub mod state;

use crate::backend::emulator::x86_64::cpu::{
    gpr, incomplete, merge_sized, modrm_regs, with_gpr, EmuError, InsnContext, Step, X86_64Vcpu,
};
use crate::cpu::{Registers, VcpuExit};
use vstd::prelude::*;

verus! {

/// The fields of a two- or three-byte VEX prefix, with the inverted
/// R/X/B/vvvv bits already un-inverted.
#[derive(Clone, Copy, Debug, PartialEq, Eq, Structural)]
pub struct VexPrefix {
    pub r: bool,
    pub x: bool,
    pub b: bool,
    pub w: bool,
    pub vvvv: u8,
    pub l: bool,
    pub pp: u8,
    /// Opcode map: 1 = 0F, 2 = 0F38, 3 = 0F3A.
    pub map: u8,
}

/// The prefix of `C5 b1`.
pub open spec fn vex2(b1: u8) -> VexPrefix {
    VexPrefix {
        r: b1 < 0x80,
        x: false,
        b: false,
        w: false,
        vvvv: (15 - (b1 / 8) % 16) as u8,
        l: (b1 / 4) % 2 == 1,
        pp: b1 % 4,
        map: 1,
    }
}

/// The prefix of `C4 b1 b2`.
pub open spec fn vex3(b1: u8, b2: u8) -> VexPrefix {
    VexPrefix {
        r: b1 < 0x80,
        x: (b1 / 64) % 2 == 0,
        b: (b1 / 32) % 2 == 0,
        w: b2 >= 0x80,
        vvvv: (15 - (b2 / 8) % 16) as u8,
        l: (b2 / 4) % 2 == 1,
        pp: b2 % 4,
        map: b1 % 32,
    }
}

/// The REX byte with the same W/R/X/B bits as a VEX prefix.
pub open spec fn vex_rex(v: VexPrefix) -> u8 {
    (0x40 + (if v.w {
        8int
    } else {
        0
    }) + (if v.r {
        4int
    } else {
        0
    }) + (if v.x {
        2int
    } else {
        0
    }) + (if v.b {
        1int
    } else {
        0
    })) as u8
}

/// Decode the payload of a VEX prefix whose first byte (0xC5 for the
/// two-byte form, else the three-byte form) has been consumed.
pub fn decode_vex(ctx: &mut InsnContext, two_byte: bool) -> (r: Result<VexPrefix, EmuError>)
    requires
        old(ctx).wf(),
    ensures
        final(ctx).wf(),
        ({
            let c = old(ctx).cursor as int;
            if two_byte {
                if old(ctx).has(1) {
                    r == Ok::<VexPrefix, EmuError>(vex2(old(ctx).bytes[c])) && *final(ctx) == old(
                        ctx,
                    ).advanced(1)
                } else {
                    r == Err::<VexPrefix, EmuError>(EmuError::Incomplete)
                }
            } else {
                if old(ctx).has(2) {
                    r == Ok::<VexPrefix, EmuError>(vex3(old(ctx).bytes[c], old(ctx).bytes[c + 1]))
                        && *final(ctx) == old(ctx).advanced(2)
                } else {
                    r == Err::<VexPrefix, EmuError>(EmuError::Incomplete)
                }
            }
        }),
        r matches Ok(v) ==> v.vvvv < 16 && v.pp < 4,
{
    if two_byte {
        let b1 = ctx.consume_u8()?;
        Ok(
            VexPrefix {
                r: b1 < 0x80,
                x: false,
                b: false,
                w: false,
                vvvv: 15 - (b1 / 8) % 16,
                l: (b1 / 4) % 2 == 1,
                pp: b1 % 4,
                map: 1,
            },
        )
    } else {
        if ctx.cursor + 2 > ctx.bytes_len {
            return Err(EmuError::Incomplete);
        }
        let b1 = ctx.consume_u8()?;
        let b2 = ctx.consume_u8()?;
        Ok(
            VexPrefix {
                r: b1 < 0x80,
                x: (b1 / 64) % 2 == 0,
                b: (b1 / 32) % 2 == 0,
                w: b2 >= 0x80,
                vvvv: 15 - (b2 / 8) % 16,
                l: (b2 / 4) % 2 == 1,
                pp: b2 % 4,
                map: b1 % 32,
            },
        )
    }
}

/// REX byte equivalent of a VEX prefix.
pub fn rex_of(v: &VexPrefix) -> (r: u8)
    ensures
        r == vex_rex(*v),
{
    0x40 + (if v.w {
        8
    } else {
        0
    }) + (if v.r {
        4
    } else {
        0
    }) + (if v.x {
        2
    } else {
        0
    }) + (if v.b {
        1
    } else {
        0
    })
}

/// Bit `pos` of a quadword.
pub open spec fn qbit(q: u64, pos: u64) -> u64 {
    (q >> pos) & 1
}

/// VMOVMSKPS: the sign bits of the four (or, for a 256-bit source, eight)
/// single-precision lanes of `lo:hi:hi2:hi3`, lane `k` in bit `k`.
pub open spec fn movmskps_value(lo: u64, hi: u64, hi2: u64, hi3: u64, l: bool) -> u64 {
    let x = qbit(lo, 31) | (qbit(lo, 63) << 1u64) | (qbit(hi, 31) << 2u64) | (qbit(hi, 63)
        << 3u64);
    if l {
        x | (qbit(hi2, 31) << 4u64) | (qbit(hi2, 63) << 5u64) | (qbit(hi3, 31) << 6u64) | (qbit(
            hi3,
            63,
        ) << 7u64)
    } else {
        x
    }
}

/// VMOVMSKPD: the sign bits of the two (or four) double-precision lanes.
pub open spec fn movmskpd_value(lo: u64, hi: u64, hi2: u64, hi3: u64, l: bool) -> u64 {
    let x = qbit(lo, 63) | (qbit(hi, 63) << 1u64);
    if l {
        x | (qbit(hi2, 63) << 2u64) | (qbit(hi3, 63) << 3u64)
    } else {
        x
    }
}

/// Each bit of a VMOVMSKPS result is the sign of its lane, and no bit
/// above the lane count is set.
pub proof fn lemma_movmskps_lanes(lo: u64, hi: u64, hi2: u64, hi3: u64)
    by (bit_vector)
    ensures
        movmskps_value(lo, hi, hi2, hi3, false) < 16,
        movmskps_value(lo, hi, hi2, hi3, true) < 256,
        (movmskps_value(lo, hi, hi2, hi3, true) >> 0u64) & 1 == (lo >> 31u64) & 1,
        (movmskps_value(lo, hi, hi2, hi3, true) >> 1u64) & 1 == (lo >> 63u64) & 1,
        (movmskps_value(lo, hi, hi2, hi3, true) >> 2u64) & 1 == (hi >> 31u64) & 1,
        (movmskps_value(lo, hi, hi2, hi3, true) >> 3u64) & 1 == (hi >> 63u64) & 1,
        (movmskps_value(lo, hi, hi2, hi3, true) >> 4u64) & 1 == (hi2 >> 31u64) & 1,
        (movmskps_value(lo, hi, hi2, hi3, true) >> 5u64) & 1 == (hi2 >> 63u64) & 1,
        (movmskps_value(lo, hi, hi2, hi3, true) >> 6u64) & 1 == (hi3 >> 31u64) & 1,
        (movmskps_value(lo, hi, hi2, hi3, true) >> 7u64) & 1 == (hi3 >> 63u64) & 1,
        movmskps_value(lo, hi, hi2, hi3, false) == movmskps_value(lo, hi, hi2, hi3, true) & 0xF,
{
}

/// Each bit of a VMOVMSKPD result is the sign of its lane, and no bit
/// above the lane count is set.
pub proof fn lemma_movmskpd_lanes(lo: u64, hi: u64, hi2: u64, hi3: u64)
    by (bit_vector)
    ensures
        movmskpd_value(lo, hi, hi2, hi3, false) < 4,
        movmskpd_value(lo, hi, hi2, hi3, true) < 16,
        (movmskpd_value(lo, hi, hi2, hi3, true) >> 0u64) & 1 == (lo >> 63u64) & 1,
        (movmskpd_value(lo, hi, hi2, hi3, true) >> 1u64) & 1 == (hi >> 63u64) & 1,
        (movmskpd_value(lo, hi, hi2, hi3, true) >> 2u64) & 1 == (hi2 >> 63u64) & 1,
        (movmskpd_value(lo, hi, hi2, hi3, true) >> 3u64) & 1 == (hi3 >> 63u64) & 1,
        movmskpd_value(lo, hi, hi2, hi3, false) == movmskpd_value(lo, hi, hi2, hi3, true) & 0x3,
{
}

/// The registers after VMOVMSKPS (`pp` 0) or VMOVMSKPD (`pp` 1) from
/// vector register `src` into general register `dst`: the mask, written
/// as a 32-bit value (so zero-extended), and RIP past the instruction.
pub open spec fn movmsk_result(
    regs: Registers,
    pp: u8,
    l: bool,
    dst: int,
    src: int,
    len: nat,
) -> Registers {
    let lo = regs.xmm[src][0];
    let hi = regs.xmm[src][1];
    let hi2 = regs.ymm_high[src][0];
    let hi3 = regs.ymm_high[src][1];
    let v = if pp == 0 {
        movmskps_value(lo, hi, hi2, hi3, l)
    } else {
        movmskpd_value(lo, hi, hi2, hi3, l)
    };
    Registers {
        rip: regs.rip.wrapping_add(len as u64),
        ..with_gpr(regs, dst, merge_sized(gpr(regs, dst), v, 4))
    }
}

/// VMOVMSKPS/PD with the cursor at the ModRM byte; a memory source is
/// not valid.
pub open spec fn movmsk_step(regs: Registers, ctx: InsnContext, pp: u8, l: bool) -> Step {
    let c = ctx.cursor as int;
    let m = ctx.bytes[c];
    let (dst, src) = modrm_regs(m, ctx.rex);
    if !ctx.has(1) {
        incomplete(regs)
    } else if m / 64 != 3 {
        (regs, Err(EmuError::Unsupported(ctx.opcode)))
    } else {
        (movmsk_result(regs, pp, l, dst as int, src as int, (c + 1) as nat), Ok(None))
    }
}

impl X86_64Vcpu {
    /// VMOVMSKPS / VMOVMSKPD r32, xmm/ymm (VEX 0F 50 /r). Only a register
    /// source is valid. The cursor is at the ModRM byte.
    pub fn execute_vex_movmskp(&mut self, ctx: &mut InsnContext, vex_pp: u8, vex_l: bool) -> (r:
        Result<Option<VcpuExit>, EmuError>)
        requires
            old(ctx).wf(),
        ensures
            final(ctx).wf(),
            final(self).sregs == old(self).sregs,
            final(self).memory() == old(self).memory(),
            (final(self).regs, r) == movmsk_step(old(self).regs, *old(ctx), vex_pp, vex_l),
    {
        let (reg, rm) = ctx.decode_modrm_reg()?;
        let src = rm as usize;
        let lo = self.regs.xmm[src][0];
        let hi = self.regs.xmm[src][1];
        let hi2 = self.regs.ymm_high[src][0];
        let hi3 = self.regs.ymm_high[src][1];
        let mut result: u64 = 0;
        if vex_pp == 0 {
            // Sign bits of the single-precision lanes.
            result = result | ((lo >> 31u64) & 1);
            result = result | (((lo >> 63u64) & 1) << 1u64);
            result = result | (((hi >> 31u64) & 1) << 2u64);
            result = result | (((hi >> 63u64) & 1) << 3u64);
            if vex_l {
                result = result | (((hi2 >> 31u64) & 1) << 4u64);
                result = result | (((hi2 >> 63u64) & 1) << 5u64);
                result = result | (((hi3 >> 31u64) & 1) << 6u64);
                result = result | (((hi3 >> 63u64) & 1) << 7u64);
            }
        } else {
            // Sign bits of the double-precision lanes.
            result = result | ((lo >> 63u64) & 1);
            result = result | (((hi >> 63u64) & 1) << 1u64);
            if vex_l {
                result = result | (((hi2 >> 63u64) & 1) << 2u64);
                result = result | (((hi3 >> 63u64) & 1) << 3u64);
            }
        }
        assert(forall|x: u64| #[trigger] (0u64 | x) == x) by (bit_vector);
        self.set_reg(reg, result, 4);
        self.advance(ctx.cursor);
        Ok(None)
    }
}

} // verus!
