//! AVX-512 mask-register instructions in VEX encoding: KMOV, the logical
//! and add operations, KNOT, KTEST/KORTEST, KUNPCK and KSHIFT. A mask
//! operation of `bits` (8, 16, 32 or 64) works on the low `bits` of each
//! mask register and clears the rest of the destination.
//!
//! Register fields that name a mask register are 3 bits wide; a VEX.vvvv
//! or an extended ModRM.reg naming register 8 or above is refused.

use crate::backend::emulator::x86_64::cpu::{
    adv, gpr, le_bytes, merge_sized, modrm_result, rex_bit, store_le, with_gpr, EmuError,
    InsnContext, MemStep, X86_64Vcpu,
};
use crate::backend::emulator::x86_64::dispatch::vex::VexPrefix;
use crate::backend::emulator::x86_64::flags::{set_status, with_status};
use crate::cpu::{Registers, VcpuExit};
use vstd::prelude::*;

verus! {

/// The low `bits` of a mask register.
pub open spec fn kmask(bits: u8) -> u64 {
    if bits == 8 {
        0xFF
    } else if bits == 16 {
        0xFFFF
    } else if bits == 32 {
        0xFFFF_FFFF
    } else {
        0xFFFF_FFFF_FFFF_FFFF
    }
}

/// A mask width the instructions take.
pub open spec fn mask_width(bits: u8) -> bool {
    bits == 8 || bits == 16 || bits == 32 || bits == 64
}

/// The registers with mask register `i` set to `v`.
pub open spec fn with_k(regs: Registers, i: int, v: u64) -> Registers {
    Registers { k: vstd::array::spec_array_update(regs.k, i, v), ..regs }
}

/// The binary mask operations.
#[derive(Clone, Copy, Debug, PartialEq, Eq, Structural)]
pub enum KmaskOp {
    And,
    AndNot,
    Or,
    Xor,
    Xnor,
    Add,
}

/// A binary mask operation on two registers' values (before the width
/// mask).
pub open spec fn kop(op: KmaskOp, a: u64, b: u64) -> u64 {
    match op {
        KmaskOp::And => a & b,
        KmaskOp::AndNot => !a & b,
        KmaskOp::Or => a | b,
        KmaskOp::Xor => a ^ b,
        KmaskOp::Xnor => !(a ^ b),
        KmaskOp::Add => a.wrapping_add(b),
    }
}

/// The ModRM byte at the cursor.
pub open spec fn modrm_at(ctx: InsnContext) -> u8 {
    ctx.bytes[ctx.cursor as int]
}

/// KMOV k1, k2/m (load): the mask from a mask register or `bits / 8`
/// bytes of memory.
pub open spec fn kmov_load_effect(v: X86_64Vcpu, ctx: InsnContext, bits: u8) -> MemStep {
    let regs = v.regs;
    let m = v.memory();
    if !ctx.has(1) {
        (regs, m, Err(EmuError::Incomplete))
    } else {
        let b = modrm_at(ctx);
        let dst = ((b / 8) % 8) as int;
        if b / 64 == 3 {
            (
                adv(with_k(regs, dst, regs.k[(b % 8) as int] & kmask(bits)), regs.rip, ctx.cursor + 1),
                m,
                Ok(None),
            )
        } else {
            match modrm_result(regs, v.sregs, ctx, 0) {
                Err(e) => (regs, m, Err(e)),
                Ok(d) => if d.addr + bits / 8 > m.len() {
                    (regs, m, Err(EmuError::MemoryFault(d.addr)))
                } else {
                    (
                        adv(
                            with_k(
                                regs,
                                dst,
                                (le_bytes(m, d.addr as int, (bits / 8) as nat) as u64) & kmask(bits),
                            ),
                            regs.rip,
                            ctx.cursor + d.len,
                        ),
                        m,
                        Ok(None),
                    )
                },
            }
        }
    }
}

/// KMOV m, k1 (store): `bits / 8` bytes of the mask register to memory.
pub open spec fn kmov_store_effect(v: X86_64Vcpu, ctx: InsnContext, bits: u8) -> MemStep {
    let regs = v.regs;
    let m = v.memory();
    match modrm_result(regs, v.sregs, ctx, 0) {
        Err(e) => (regs, m, Err(e)),
        Ok(d) => if !d.is_memory {
            (regs, m, Err(EmuError::Unsupported(ctx.opcode)))
        } else if d.reg >= 8 {
            (regs, m, Err(EmuError::InvalidOpcode(ctx.opcode)))
        } else if d.addr + bits / 8 > m.len() {
            (regs, m, Err(EmuError::MemoryFault(d.addr)))
        } else {
            (
                adv(regs, regs.rip, ctx.cursor + d.len),
                store_le(m, d.addr as int, regs.k[d.reg as int] as nat, (bits / 8) as nat),
                Ok(None),
            )
        },
    }
}

/// The register-only mask instructions: the registers afterwards and the
/// result, with the cursor at ModRM.
pub open spec fn kreg_step(
    regs: Registers,
    ctx: InsnContext,
    vvvv: u8,
    kind: u8,
    bits: u8,
    op: KmaskOp,
    left: bool,
) -> (Registers, Result<Option<VcpuExit>, EmuError>) {
    let c = ctx.cursor as int;
    let vvvv_free = kind == 4 || kind == 5 || kind == 7;
    if vvvv_free && vvvv != 0 {
        (regs, Err(EmuError::InvalidOpcode(ctx.opcode)))
    } else if !ctx.has(1) {
        (regs, Err(EmuError::Incomplete))
    } else {
        let b = modrm_at(ctx);
        let reg = ((b / 8) % 8) as int;
        let rm = (b % 8) as int;
        let mask = kmask(bits);
        if b / 64 != 3 {
            (regs, Err(EmuError::Unsupported(ctx.opcode)))
        } else if (kind == 2 || kind == 6) && vvvv >= 8 {
            (regs, Err(EmuError::InvalidOpcode(ctx.opcode)))
        } else if kind == 0 {
            // KMOV k1, r
            let idx = rm + if rex_bit(ctx.rex, 1) {
                8int
            } else {
                0
            };
            (adv(with_k(regs, reg, gpr(regs, idx) & mask), regs.rip, c + 1), Ok(None))
        } else if kind == 1 {
            // KMOV r, k1
            let idx = reg + if rex_bit(ctx.rex, 4) {
                8int
            } else {
                0
            };
            (
                adv(
                    with_gpr(
                        regs,
                        idx,
                        merge_sized(
                            gpr(regs, idx),
                            regs.k[rm] & mask,
                            if bits == 64 {
                                8
                            } else {
                                4
                            },
                        ),
                    ),
                    regs.rip,
                    c + 1,
                ),
                Ok(None),
            )
        } else if kind == 2 {
            // binary operation k1 = k(vvvv) op k2
            (
                adv(with_k(regs, reg, kop(op, regs.k[vvvv as int], regs.k[rm]) & mask), regs.rip, c + 1),
                Ok(None),
            )
        } else if kind == 3 {
            // KNOT
            (adv(with_k(regs, reg, !regs.k[rm] & mask), regs.rip, c + 1), Ok(None))
        } else if kind == 4 || kind == 5 {
            // KTEST (4) / KORTEST (5)
            let s1 = regs.k[reg] & mask;
            let s2 = regs.k[rm] & mask;
            let (zf, cf) = if kind == 4 {
                (s1 & s2 == 0, !s1 & s2 == 0)
            } else {
                ((s1 | s2) == 0, (s1 | s2) == mask)
            };
            (
                adv(
                    Registers {
                        rflags: with_status(regs.rflags, cf, false, false, zf, false, false),
                        ..regs
                    },
                    regs.rip,
                    c + 1,
                ),
                Ok(None),
            )
        } else if kind == 6 {
            // KUNPCK: `bits` is the width of each half
            (
                adv(
                    with_k(
                        regs,
                        reg,
                        ((regs.k[vvvv as int] & mask) << bits) | (regs.k[rm] & mask),
                    ),
                    regs.rip,
                    c + 1,
                ),
                Ok(None),
            )
        } else {
            // KSHIFTL (`left`) / KSHIFTR by the immediate after ModRM
            if !ctx.has(2) {
                (regs, Err(EmuError::Incomplete))
            } else {
                let count = ctx.bytes[c + 1];
                let src = regs.k[rm] & mask;
                let r = if count >= bits {
                    0
                } else if left {
                    (src << count) & mask
                } else {
                    src >> count
                };
                (adv(with_k(regs, reg, r), regs.rip, c + 2), Ok(None))
            }
        }
    }
}

/// Mask width for the logical, KNOT, KMOV k/m and KTEST forms by VEX.pp
/// and VEX.W: pp 0 gives W (64 with W1), pp 1 gives B (D with W1).
pub open spec fn logic_width(pp: u8, w: bool) -> u8 {
    if pp == 0 {
        if w {
            64
        } else {
            16
        }
    } else if w {
        32
    } else {
        8
    }
}

/// Mask width for KMOV between mask and general registers: pp 0 gives W,
/// pp 1 gives B, pp 3 gives D (Q with W1).
pub open spec fn gpr_width(pp: u8, w: bool) -> u8 {
    if pp == 0 {
        16
    } else if pp == 1 {
        8
    } else if w {
        64
    } else {
        32
    }
}

/// A VEX-encoded mask instruction (`v.map` 1 or 3) the interpreter takes.
pub open spec fn is_kmask_insn(v: VexPrefix, op: u8) -> bool {
    if v.map == 1 {
        (v.pp <= 1 && (op == 0x41 || op == 0x42 || op == 0x45 || op == 0x46 || op == 0x47 || op
            == 0x4A) && v.l) || (v.pp <= 1 && (op == 0x44 || op == 0x90 || op == 0x91 || op == 0x98
            || op == 0x99) && !v.l) || (op == 0x4B && v.l && ((v.pp == 1 && !v.w) || v.pp == 0))
            || ((op == 0x92 || op == 0x93) && !v.l && (v.pp == 3 || ((v.pp == 0 || v.pp == 1)
            && !v.w)))
    } else {
        v.map == 3 && v.pp == 1 && 0x30 <= op <= 0x33 && !v.l
    }
}

/// The binary operation of a logical mask opcode.
pub open spec fn logic_op(op: u8) -> KmaskOp {
    if op == 0x41 {
        KmaskOp::And
    } else if op == 0x42 {
        KmaskOp::AndNot
    } else if op == 0x45 {
        KmaskOp::Or
    } else if op == 0x46 {
        KmaskOp::Xnor
    } else if op == 0x47 {
        KmaskOp::Xor
    } else {
        KmaskOp::Add
    }
}

/// What a VEX-encoded mask instruction does; the cursor is at ModRM.
pub open spec fn kmask_effect(vcpu: X86_64Vcpu, ctx: InsnContext, v: VexPrefix) -> MemStep {
    let op = ctx.opcode;
    let regs = vcpu.regs;
    let m = vcpu.memory();
    if v.map == 3 {
        let bits: u8 = if op == 0x30 || op == 0x32 {
            if v.w {
                16
            } else {
                8
            }
        } else if v.w {
            64
        } else {
            32
        };
        let s = kreg_step(regs, ctx, v.vvvv, 7, bits, KmaskOp::And, op >= 0x32);
        (s.0, m, s.1)
    } else if op == 0x90 {
        kmov_load_effect(vcpu, ctx, logic_width(v.pp, v.w))
    } else if op == 0x91 {
        kmov_store_effect(vcpu, ctx, logic_width(v.pp, v.w))
    } else {
        let (kind, bits): (u8, u8) = if op == 0x92 {
            (0, gpr_width(v.pp, v.w))
        } else if op == 0x93 {
            (1, gpr_width(v.pp, v.w))
        } else if op == 0x44 {
            (3, logic_width(v.pp, v.w))
        } else if op == 0x99 {
            (4, logic_width(v.pp, v.w))
        } else if op == 0x98 {
            (5, logic_width(v.pp, v.w))
        } else if op == 0x4B {
            (
                6,
                if v.pp == 1 {
                    8
                } else if v.w {
                    32
                } else {
                    16
                },
            )
        } else {
            (2, logic_width(v.pp, v.w))
        };
        let s = kreg_step(regs, ctx, v.vvvv, kind, bits, logic_op(op), false);
        (s.0, m, s.1)
    }
}

/// Whether `op` under prefix `v` is a mask instruction the interpreter takes.
pub fn kmask_insn_opcode(v: &VexPrefix, op: u8) -> (b: bool)
    ensures
        b == is_kmask_insn(*v, op),
{
    if v.map == 1 {
        (v.pp <= 1 && (op == 0x41 || op == 0x42 || op == 0x45 || op == 0x46 || op == 0x47 || op
            == 0x4A) && v.l) || (v.pp <= 1 && (op == 0x44 || op == 0x90 || op == 0x91 || op == 0x98
            || op == 0x99) && !v.l) || (op == 0x4B && v.l && ((v.pp == 1 && !v.w) || v.pp == 0))
            || ((op == 0x92 || op == 0x93) && !v.l && (v.pp == 3 || ((v.pp == 0 || v.pp == 1)
            && !v.w)))
    } else {
        v.map == 3 && v.pp == 1 && 0x30 <= op && op <= 0x33 && !v.l
    }
}

fn kmask_bits(size_bits: u8) -> (r: u64)
    requires
        mask_width(size_bits),
    ensures
        r == kmask(size_bits),
{
    match size_bits {
        8 => 0xFF,
        16 => 0xFFFF,
        32 => 0xFFFF_FFFF,
        _ => 0xFFFF_FFFF_FFFF_FFFF,
    }
}

fn kop_exec(op: KmaskOp, a: u64, b: u64) -> (r: u64)
    ensures
        r == kop(op, a, b),
{
    match op {
        KmaskOp::And => a & b,
        KmaskOp::AndNot => !a & b,
        KmaskOp::Or => a | b,
        KmaskOp::Xor => a ^ b,
        KmaskOp::Xnor => !(a ^ b),
        KmaskOp::Add => a.wrapping_add(b),
    }
}

fn rex_set(rex: Option<u8>, bit: u8) -> (r: bool)
    requires
        bit > 0,
    ensures
        r == rex_bit(rex, bit),
{
    match rex {
        Some(b) => (b / bit) % 2 == 1,
        None => false,
    }
}

impl X86_64Vcpu {
    fn set_k(&mut self, i: u8, v: u64)
        requires
            i < 8,
        ensures
            final(self).regs == with_k(old(self).regs, i as int, v),
            final(self).sregs == old(self).sregs,
            final(self).memory() == old(self).memory(),
    {
        self.regs.k[i as usize] = v;
        assert(self.regs.k@ =~= old(self).regs.k@.update(i as int, v));
    }

    /// KMOVB/W/D/Q k1, k2/m.
    pub fn execute_kmov_load(&mut self, ctx: &mut InsnContext, size_bits: u8) -> (r: Result<
        Option<VcpuExit>,
        EmuError,
    >)
        requires
            old(ctx).wf(),
            mask_width(size_bits),
        ensures
            final(self).sregs == old(self).sregs,
            (final(self).regs, final(self).memory(), r) == kmov_load_effect(
                *old(self),
                *old(ctx),
                size_bits,
            ),
    {
        if ctx.cursor >= ctx.bytes_len {
            return Err(EmuError::Incomplete);
        }
        let b = ctx.bytes[ctx.cursor];
        let dst = (b / 8) % 8;
        let mask = kmask_bits(size_bits);
        if b / 64 == 3 {
            let value = self.regs.k[(b % 8) as usize] & mask;
            ctx.cursor = ctx.cursor + 1;
            self.set_k(dst, value);
            self.advance(ctx.cursor);
            return Ok(None);
        }
        let d = self.decode_modrm(ctx, 0)?;
        let value = self.read_mem(d.addr, size_bits / 8)? & mask;
        self.set_k(dst, value);
        self.advance(ctx.cursor);
        Ok(None)
    }

    /// KMOVB/W/D/Q m, k1.
    pub fn execute_kmov_store(&mut self, ctx: &mut InsnContext, size_bits: u8) -> (r: Result<
        Option<VcpuExit>,
        EmuError,
    >)
        requires
            old(ctx).wf(),
            mask_width(size_bits),
        ensures
            final(self).sregs == old(self).sregs,
            (final(self).regs, final(self).memory(), r) == kmov_store_effect(
                *old(self),
                *old(ctx),
                size_bits,
            ),
    {
        let opcode = ctx.opcode;
        let d = self.decode_modrm(ctx, 0)?;
        if !d.is_memory {
            return Err(EmuError::Unsupported(opcode));
        }
        if d.reg >= 8 {
            return Err(EmuError::InvalidOpcode(opcode));
        }
        let value = self.regs.k[d.reg as usize];
        self.write_mem(d.addr, value, size_bits / 8)?;
        self.advance(ctx.cursor);
        Ok(None)
    }

    /// The register-only mask instructions (see `kreg_step`).
    fn execute_kreg(
        &mut self,
        ctx: &mut InsnContext,
        vvvv: u8,
        kind: u8,
        size_bits: u8,
        op: KmaskOp,
        left: bool,
    ) -> (r: Result<Option<VcpuExit>, EmuError>)
        requires
            old(ctx).wf(),
            mask_width(size_bits),
            kind <= 7,
            kind == 6 ==> size_bits <= 32,
        ensures
            final(self).sregs == old(self).sregs,
            final(self).memory() == old(self).memory(),
            (final(self).regs, r) == kreg_step(
                old(self).regs,
                *old(ctx),
                vvvv,
                kind,
                size_bits,
                op,
                left,
            ),
    {
        let opcode = ctx.opcode;
        if (kind == 4 || kind == 5 || kind == 7) && vvvv != 0 {
            return Err(EmuError::InvalidOpcode(opcode));
        }
        if ctx.cursor >= ctx.bytes_len {
            return Err(EmuError::Incomplete);
        }
        let c = ctx.cursor;
        let b = ctx.bytes[c];
        let reg = (b / 8) % 8;
        let rm = (b % 8) as usize;
        let mask = kmask_bits(size_bits);
        if b / 64 != 3 {
            return Err(EmuError::Unsupported(opcode));
        }
        if (kind == 2 || kind == 6) && vvvv >= 8 {
            return Err(EmuError::InvalidOpcode(opcode));
        }
        if kind == 7 {
            if c + 2 > ctx.bytes_len {
                return Err(EmuError::Incomplete);
            }
            let count = ctx.bytes[c + 1];
            let src = self.regs.k[rm] & mask;
            let r = if count >= size_bits {
                0
            } else if left {
                (src << count) & mask
            } else {
                src >> count
            };
            self.set_k(reg, r);
            self.advance(c + 2);
            return Ok(None);
        }
        if kind == 0 {
            let idx = rm as u8 + if rex_set(ctx.rex, 1) {
                8
            } else {
                0
            };
            let value = self.get_reg(idx) & mask;
            self.set_k(reg, value);
        } else if kind == 1 {
            let idx = reg + if rex_set(ctx.rex, 4) {
                8
            } else {
                0
            };
            let value = self.regs.k[rm] & mask;
            self.set_reg(
                idx,
                value,
                if size_bits == 64 {
                    8
                } else {
                    4
                },
            );
        } else if kind == 2 {
            let value = kop_exec(op, self.regs.k[vvvv as usize], self.regs.k[rm]) & mask;
            self.set_k(reg, value);
        } else if kind == 3 {
            let value = !self.regs.k[rm] & mask;
            self.set_k(reg, value);
        } else if kind == 4 || kind == 5 {
            let s1 = self.regs.k[reg as usize] & mask;
            let s2 = self.regs.k[rm] & mask;
            let (zf, cf) = if kind == 4 {
                (s1 & s2 == 0, !s1 & s2 == 0)
            } else {
                ((s1 | s2) == 0, (s1 | s2) == mask)
            };
            self.regs.rflags = set_status(self.regs.rflags, cf, false, false, zf, false, false);
        } else {
            let value = ((self.regs.k[vvvv as usize] & mask) << size_bits) | (self.regs.k[rm]
                & mask);
            self.set_k(reg, value);
        }
        self.advance(c + 1);
        Ok(None)
    }

    /// KMOVB/W/D/Q k1, r32/r64.
    pub fn execute_kmov_from_gpr(&mut self, ctx: &mut InsnContext, size_bits: u8) -> (r:
        Result<Option<VcpuExit>, EmuError>)
        requires
            old(ctx).wf(),
            mask_width(size_bits),
        ensures
            final(self).sregs == old(self).sregs,
            final(self).memory() == old(self).memory(),
            (final(self).regs, r) == kreg_step(
                old(self).regs,
                *old(ctx),
                0,
                0,
                size_bits,
                KmaskOp::And,
                false,
            ),
    {
        self.execute_kreg(ctx, 0, 0, size_bits, KmaskOp::And, false)
    }

    /// KMOVB/W/D/Q r32/r64, k1.
    pub fn execute_kmov_to_gpr(&mut self, ctx: &mut InsnContext, size_bits: u8) -> (r:
        Result<Option<VcpuExit>, EmuError>)
        requires
            old(ctx).wf(),
            mask_width(size_bits),
        ensures
            final(self).sregs == old(self).sregs,
            final(self).memory() == old(self).memory(),
            (final(self).regs, r) == kreg_step(
                old(self).regs,
                *old(ctx),
                0,
                1,
                size_bits,
                KmaskOp::And,
                false,
            ),
    {
        self.execute_kreg(ctx, 0, 1, size_bits, KmaskOp::And, false)
    }

    /// KAND/KANDN/KOR/KXOR/KXNOR/KADD k1, k(vvvv), k2.
    pub fn execute_kmask_binop(
        &mut self,
        ctx: &mut InsnContext,
        vvvv: u8,
        size_bits: u8,
        op: KmaskOp,
    ) -> (r: Result<Option<VcpuExit>, EmuError>)
        requires
            old(ctx).wf(),
            mask_width(size_bits),
        ensures
            final(self).sregs == old(self).sregs,
            final(self).memory() == old(self).memory(),
            (final(self).regs, r) == kreg_step(old(self).regs, *old(ctx), vvvv, 2, size_bits, op, false),
    {
        self.execute_kreg(ctx, vvvv, 2, size_bits, op, false)
    }

    /// KNOT k1, k2.
    pub fn execute_kmask_unaryop(&mut self, ctx: &mut InsnContext, size_bits: u8) -> (r:
        Result<Option<VcpuExit>, EmuError>)
        requires
            old(ctx).wf(),
            mask_width(size_bits),
        ensures
            final(self).sregs == old(self).sregs,
            final(self).memory() == old(self).memory(),
            (final(self).regs, r) == kreg_step(
                old(self).regs,
                *old(ctx),
                0,
                3,
                size_bits,
                KmaskOp::And,
                false,
            ),
    {
        self.execute_kreg(ctx, 0, 3, size_bits, KmaskOp::And, false)
    }

    /// KTESTB/W/D/Q k1, k2: ZF from k1 & k2, CF from !k1 & k2.
    pub fn execute_ktest(&mut self, ctx: &mut InsnContext, vvvv: u8, size_bits: u8) -> (r:
        Result<Option<VcpuExit>, EmuError>)
        requires
            old(ctx).wf(),
            mask_width(size_bits),
        ensures
            final(self).sregs == old(self).sregs,
            final(self).memory() == old(self).memory(),
            (final(self).regs, r) == kreg_step(
                old(self).regs,
                *old(ctx),
                vvvv,
                4,
                size_bits,
                KmaskOp::And,
                false,
            ),
    {
        self.execute_kreg(ctx, vvvv, 4, size_bits, KmaskOp::And, false)
    }

    /// KORTESTB/W/D/Q k1, k2: ZF if k1 | k2 is zero, CF if all ones.
    pub fn execute_kortest(&mut self, ctx: &mut InsnContext, vvvv: u8, size_bits: u8) -> (r:
        Result<Option<VcpuExit>, EmuError>)
        requires
            old(ctx).wf(),
            mask_width(size_bits),
        ensures
            final(self).sregs == old(self).sregs,
            final(self).memory() == old(self).memory(),
            (final(self).regs, r) == kreg_step(
                old(self).regs,
                *old(ctx),
                vvvv,
                5,
                size_bits,
                KmaskOp::And,
                false,
            ),
    {
        self.execute_kreg(ctx, vvvv, 5, size_bits, KmaskOp::And, false)
    }

    /// KUNPCKBW/WD/DQ k1, k(vvvv), k2: the low `lane_bits` of k(vvvv) above
    /// those of k2.
    pub fn execute_kunpck(&mut self, ctx: &mut InsnContext, vvvv: u8, lane_bits: u8) -> (r:
        Result<Option<VcpuExit>, EmuError>)
        requires
            old(ctx).wf(),
            lane_bits == 8 || lane_bits == 16 || lane_bits == 32,
        ensures
            final(self).sregs == old(self).sregs,
            final(self).memory() == old(self).memory(),
            (final(self).regs, r) == kreg_step(
                old(self).regs,
                *old(ctx),
                vvvv,
                6,
                lane_bits,
                KmaskOp::And,
                false,
            ),
    {
        self.execute_kreg(ctx, vvvv, 6, lane_bits, KmaskOp::And, false)
    }

    /// KSHIFTL (`left`) / KSHIFTR k1, k2, imm8.
    pub fn execute_kshift(
        &mut self,
        ctx: &mut InsnContext,
        vvvv: u8,
        size_bits: u8,
        left: bool,
    ) -> (r: Result<Option<VcpuExit>, EmuError>)
        requires
            old(ctx).wf(),
            mask_width(size_bits),
        ensures
            final(self).sregs == old(self).sregs,
            final(self).memory() == old(self).memory(),
            (final(self).regs, r) == kreg_step(
                old(self).regs,
                *old(ctx),
                vvvv,
                7,
                size_bits,
                KmaskOp::And,
                left,
            ),
    {
        self.execute_kreg(ctx, vvvv, 7, size_bits, KmaskOp::And, left)
    }
    /// A VEX-encoded mask instruction (see `kmask_effect`); the cursor is at
    /// ModRM.
    pub fn execute_kmask_insn(&mut self, ctx: &mut InsnContext, v: &VexPrefix) -> (r: Result<
        Option<VcpuExit>,
        EmuError,
    >)
        requires
            old(ctx).wf(),
            is_kmask_insn(*v, old(ctx).opcode),
        ensures
            final(self).sregs == old(self).sregs,
            (final(self).regs, final(self).memory(), r) == kmask_effect(*old(self), *old(ctx), *v),
    {
        let op = ctx.opcode;
        let logic: u8 = if v.pp == 0 {
            if v.w {
                64
            } else {
                16
            }
        } else if v.w {
            32
        } else {
            8
        };
        if v.map == 3 {
            let bits: u8 = if op == 0x30 || op == 0x32 {
                if v.w {
                    16
                } else {
                    8
                }
            } else if v.w {
                64
            } else {
                32
            };
            return self.execute_kshift(ctx, v.vvvv, bits, op >= 0x32);
        }
        if op == 0x90 {
            return self.execute_kmov_load(ctx, logic);
        }
        if op == 0x91 {
            return self.execute_kmov_store(ctx, logic);
        }
        let gpr_bits: u8 = if v.pp == 0 {
            16
        } else if v.pp == 1 {
            8
        } else if v.w {
            64
        } else {
            32
        };
        if op == 0x92 {
            self.execute_kmov_from_gpr(ctx, gpr_bits)
        } else if op == 0x93 {
            self.execute_kmov_to_gpr(ctx, gpr_bits)
        } else if op == 0x44 {
            self.execute_kmask_unaryop(ctx, logic)
        } else if op == 0x99 {
            self.execute_ktest(ctx, v.vvvv, logic)
        } else if op == 0x98 {
            self.execute_kortest(ctx, v.vvvv, logic)
        } else if op == 0x4B {
            let lane: u8 = if v.pp == 1 {
                8
            } else if v.w {
                32
            } else {
                16
            };
            self.execute_kunpck(ctx, v.vvvv, lane)
        } else {
            let kop = if op == 0x41 {
                KmaskOp::And
            } else if op == 0x42 {
                KmaskOp::AndNot
            } else if op == 0x45 {
                KmaskOp::Or
            } else if op == 0x46 {
                KmaskOp::Xnor
            } else if op == 0x47 {
                KmaskOp::Xor
            } else {
                KmaskOp::Add
            };
            self.execute_kmask_binop(ctx, v.vvvv, logic, kop)
        }
    }
}

} // verus!
