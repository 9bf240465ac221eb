//! AVX (VEX-encoded) SIMD instruction implementations.
//!
//! VEX-encoded move operations for 128-bit (XMM) and 256-bit (YMM)
//! registers. A memory operand is accessed as a whole: if any byte of it
//! lies outside guest memory the instruction faults at the operand address
//! and changes nothing.

use crate::backend::emulator::x86_64::cpu::{
    adv, gpr, le_bytes, merge_sized, modrm_result, qwords, store_le, store_qwords, vreg_of, widen,
    with_gpr, with_vreg, EmuError, InsnContext, MemStep, Modrm, X86_64Vcpu,
};
use crate::cpu::VcpuExit;
use vstd::prelude::*;

verus! {

/// Quadwords of a 128-bit (`l == 0`) or 256-bit operand.
pub open spec fn width_q(l: u8) -> nat {
    if l == 0 {
        2
    } else {
        4
    }
}

/// VMOVDQA/VMOVDQU load: the destination takes the memory or register
/// source; a 128-bit load clears bits 255:128.
pub open spec fn vec_load_effect(v: X86_64Vcpu, ctx: InsnContext, l: u8) -> MemStep {
    let regs = v.regs;
    let m = v.memory();
    match modrm_result(regs, v.sregs, ctx, 0) {
        Err(e) => (regs, m, Err(e)),
        Ok(d) => {
            let n = width_q(l);
            let len = ctx.cursor + d.len;
            if d.is_memory {
                if d.addr + 8 * n > m.len() {
                    (regs, m, Err(EmuError::MemoryFault(d.addr)))
                } else {
                    (
                        adv(
                            with_vreg(regs, d.reg as int, widen(qwords(m, d.addr as int, n), n)),
                            regs.rip,
                            len,
                        ),
                        m,
                        Ok(None),
                    )
                }
            } else {
                (
                    adv(
                        with_vreg(regs, d.reg as int, widen(vreg_of(regs, d.rm as int), n)),
                        regs.rip,
                        len,
                    ),
                    m,
                    Ok(None),
                )
            }
        },
    }
}

/// VLDDQU: like the unaligned load, but VEX.vvvv must be 1111b and the
/// source must be memory.
pub open spec fn vlddqu_effect(v: X86_64Vcpu, ctx: InsnContext, l: u8, vvvv: u8) -> MemStep {
    let regs = v.regs;
    let m = v.memory();
    if vvvv != 0 {
        (regs, m, Err(EmuError::Unsupported(ctx.opcode)))
    } else {
        match modrm_result(regs, v.sregs, ctx, 0) {
            Err(e) => (regs, m, Err(e)),
            Ok(d) => {
                let n: nat = if l == 1 {
                    4
                } else {
                    2
                };
                if !d.is_memory {
                    (regs, m, Err(EmuError::Unsupported(ctx.opcode)))
                } else if d.addr + 8 * n > m.len() {
                    (regs, m, Err(EmuError::MemoryFault(d.addr)))
                } else {
                    (
                        adv(
                            with_vreg(regs, d.reg as int, widen(qwords(m, d.addr as int, n), n)),
                            regs.rip,
                            ctx.cursor + d.len,
                        ),
                        m,
                        Ok(None),
                    )
                }
            },
        }
    }
}

/// VMOVDQA/VMOVDQU store: memory takes the source quadwords, or a register
/// destination takes them (bits 255:128 cleared for 128 bits).
pub open spec fn vec_store_effect(v: X86_64Vcpu, ctx: InsnContext, l: u8) -> MemStep {
    let regs = v.regs;
    let m = v.memory();
    match modrm_result(regs, v.sregs, ctx, 0) {
        Err(e) => (regs, m, Err(e)),
        Ok(d) => {
            let n = width_q(l);
            let src = vreg_of(regs, d.reg as int);
            let len = ctx.cursor + d.len;
            if d.is_memory {
                if d.addr + 8 * n > m.len() {
                    (regs, m, Err(EmuError::MemoryFault(d.addr)))
                } else {
                    (adv(regs, regs.rip, len), store_qwords(m, d.addr as int, src, n), Ok(None))
                }
            } else {
                (adv(with_vreg(regs, d.rm as int, widen(src, n)), regs.rip, len), m, Ok(None))
            }
        },
    }
}

/// A 64-bit value in the low quadword of a vector register, the rest zero.
pub open spec fn low_only(x: u64) -> Seq<u64> {
    seq![x, 0u64, 0u64, 0u64]
}

/// VMOVD/VMOVQ load (66 0F 6E): a 32-bit (or with VEX.W 64-bit) GPR or
/// memory value, zero-extended into the destination.
pub open spec fn vmovd_load_effect(v: X86_64Vcpu, ctx: InsnContext, w: u8) -> MemStep {
    let regs = v.regs;
    let m = v.memory();
    match modrm_result(regs, v.sregs, ctx, 0) {
        Err(e) => (regs, m, Err(e)),
        Ok(d) => {
            let size: u8 = if w == 1 {
                8
            } else {
                4
            };
            let len = ctx.cursor + d.len;
            if d.is_memory {
                if d.addr + size > m.len() {
                    (regs, m, Err(EmuError::MemoryFault(d.addr)))
                } else {
                    let x = le_bytes(m, d.addr as int, size as nat) as u64;
                    (adv(with_vreg(regs, d.reg as int, low_only(x)), regs.rip, len), m, Ok(None))
                }
            } else {
                let x = merge_sized(0, gpr(regs, d.rm as int), size);
                (adv(with_vreg(regs, d.reg as int, low_only(x)), regs.rip, len), m, Ok(None))
            }
        },
    }
}

/// VMOVD/VMOVQ store (66 0F 7E): the low 32 (or with VEX.W 64) bits of the
/// source into a GPR (zero-extended) or memory.
pub open spec fn vmovd_store_effect(v: X86_64Vcpu, ctx: InsnContext, w: u8) -> MemStep {
    let regs = v.regs;
    let m = v.memory();
    match modrm_result(regs, v.sregs, ctx, 0) {
        Err(e) => (regs, m, Err(e)),
        Ok(d) => {
            let size: u8 = if w == 1 {
                8
            } else {
                4
            };
            let x = merge_sized(0, regs.xmm[d.reg as int][0], size);
            let len = ctx.cursor + d.len;
            if d.is_memory {
                if d.addr + size > m.len() {
                    (regs, m, Err(EmuError::MemoryFault(d.addr)))
                } else {
                    (adv(regs, regs.rip, len), store_le(m, d.addr as int, x as nat, size as nat), Ok(None))
                }
            } else {
                (
                    adv(
                        with_gpr(regs, d.rm as int, merge_sized(gpr(regs, d.rm as int), x, size)),
                        regs.rip,
                        len,
                    ),
                    m,
                    Ok(None),
                )
            }
        },
    }
}

/// VMOVQ load (F3 0F 7E): a quadword from memory or from the low quadword
/// of a register, zero-extended into the destination.
pub open spec fn vmovq_load_effect(v: X86_64Vcpu, ctx: InsnContext) -> MemStep {
    let regs = v.regs;
    let m = v.memory();
    match modrm_result(regs, v.sregs, ctx, 0) {
        Err(e) => (regs, m, Err(e)),
        Ok(d) => {
            let len = ctx.cursor + d.len;
            if d.is_memory {
                if d.addr + 8 > m.len() {
                    (regs, m, Err(EmuError::MemoryFault(d.addr)))
                } else {
                    let x = le_bytes(m, d.addr as int, 8) as u64;
                    (adv(with_vreg(regs, d.reg as int, low_only(x)), regs.rip, len), m, Ok(None))
                }
            } else {
                let x = regs.xmm[d.rm as int][0];
                (adv(with_vreg(regs, d.reg as int, low_only(x)), regs.rip, len), m, Ok(None))
            }
        },
    }
}

/// VMOVQ store (66 0F D6): the low quadword of the source to memory, or
/// zero-extended into a register.
pub open spec fn vmovq_store_effect(v: X86_64Vcpu, ctx: InsnContext) -> MemStep {
    let regs = v.regs;
    let m = v.memory();
    match modrm_result(regs, v.sregs, ctx, 0) {
        Err(e) => (regs, m, Err(e)),
        Ok(d) => {
            let x = regs.xmm[d.reg as int][0];
            let len = ctx.cursor + d.len;
            if d.is_memory {
                if d.addr + 8 > m.len() {
                    (regs, m, Err(EmuError::MemoryFault(d.addr)))
                } else {
                    (adv(regs, regs.rip, len), store_le(m, d.addr as int, x as nat, 8), Ok(None))
                }
            } else {
                (adv(with_vreg(regs, d.rm as int, low_only(x)), regs.rip, len), m, Ok(None))
            }
        },
    }
}

/// The first `n` quadwords of `q`, zero above.
fn widen_exec(q: [u64; 4], n: usize) -> (r: [u64; 4])
    requires
        n == 2 || n == 4,
    ensures
        r@ == widen(q@, n as nat),
{
    let r = if n == 2 {
        [q[0], q[1], 0, 0]
    } else {
        q
    };
    assert(r@ =~= widen(q@, n as nat));
    r
}

/// Shared body of the two full-width loads.
fn vec_load(vcpu: &mut X86_64Vcpu, ctx: &mut InsnContext, vex_l: u8) -> (r: Result<
    Option<VcpuExit>,
    EmuError,
>)
    requires
        old(ctx).wf(),
    ensures
        final(vcpu).sregs == old(vcpu).sregs,
        (final(vcpu).regs, final(vcpu).memory(), r) == vec_load_effect(*old(vcpu), *old(ctx), vex_l),
{
    let d = vcpu.decode_modrm(ctx, 0)?;
    let n: usize = if vex_l == 0 {
        2
    } else {
        4
    };
    let q = if d.is_memory {
        vcpu.read_qwords(d.addr, n)?
    } else {
        widen_exec(vcpu.vreg(d.rm), n)
    };
    vcpu.set_vreg(d.reg, q);
    vcpu.advance(ctx.cursor);
    Ok(None)
}

/// VMOVDQA load - VEX.66.0F 6F /r (aligned; an unaligned address is
/// accessed rather than faulted)
pub fn vmovdqa_load(vcpu: &mut X86_64Vcpu, ctx: &mut InsnContext, vex_l: u8) -> (r: Result<
    Option<VcpuExit>,
    EmuError,
>)
    requires
        old(ctx).wf(),
    ensures
        final(vcpu).sregs == old(vcpu).sregs,
        (final(vcpu).regs, final(vcpu).memory(), r) == vec_load_effect(*old(vcpu), *old(ctx), vex_l),
{
    vec_load(vcpu, ctx, vex_l)
}

/// VMOVDQU load - VEX.F3.0F 6F /r (unaligned)
pub fn vmovdqu_load(vcpu: &mut X86_64Vcpu, ctx: &mut InsnContext, vex_l: u8) -> (r: Result<
    Option<VcpuExit>,
    EmuError,
>)
    requires
        old(ctx).wf(),
    ensures
        final(vcpu).sregs == old(vcpu).sregs,
        (final(vcpu).regs, final(vcpu).memory(), r) == vec_load_effect(*old(vcpu), *old(ctx), vex_l),
{
    vec_load(vcpu, ctx, vex_l)
}

/// VLDDQU load - VEX.F2.0F F0 /r (unaligned memory load only)
pub fn vlddqu_load(vcpu: &mut X86_64Vcpu, ctx: &mut InsnContext, vex_l: u8, vvvv: u8) -> (r:
    Result<Option<VcpuExit>, EmuError>)
    requires
        old(ctx).wf(),
    ensures
        final(vcpu).sregs == old(vcpu).sregs,
        (final(vcpu).regs, final(vcpu).memory(), r) == vlddqu_effect(
            *old(vcpu),
            *old(ctx),
            vex_l,
            vvvv,
        ),
{
    if vvvv != 0 {
        return Err(EmuError::Unsupported(ctx.opcode));
    }
    let d = vcpu.decode_modrm(ctx, 0)?;
    if !d.is_memory {
        return Err(EmuError::Unsupported(ctx.opcode));
    }
    let n: usize = if vex_l == 1 {
        4
    } else {
        2
    };
    let q = vcpu.read_qwords(d.addr, n)?;
    vcpu.set_vreg(d.reg, q);
    vcpu.advance(ctx.cursor);
    Ok(None)
}

/// Shared body of the two full-width stores.
fn vec_store(vcpu: &mut X86_64Vcpu, ctx: &mut InsnContext, vex_l: u8) -> (r: Result<
    Option<VcpuExit>,
    EmuError,
>)
    requires
        old(ctx).wf(),
    ensures
        final(vcpu).sregs == old(vcpu).sregs,
        (final(vcpu).regs, final(vcpu).memory(), r) == vec_store_effect(
            *old(vcpu),
            *old(ctx),
            vex_l,
        ),
{
    let d = vcpu.decode_modrm(ctx, 0)?;
    let n: usize = if vex_l == 0 {
        2
    } else {
        4
    };
    let src = vcpu.vreg(d.reg);
    if d.is_memory {
        vcpu.write_qwords(d.addr, src, n)?;
    } else {
        vcpu.set_vreg(d.rm, widen_exec(src, n));
    }
    vcpu.advance(ctx.cursor);
    Ok(None)
}

/// VMOVDQA store - VEX.66.0F 7F /r (aligned; an unaligned address is
/// accessed rather than faulted)
pub fn vmovdqa_store(vcpu: &mut X86_64Vcpu, ctx: &mut InsnContext, vex_l: u8) -> (r: Result<
    Option<VcpuExit>,
    EmuError,
>)
    requires
        old(ctx).wf(),
    ensures
        final(vcpu).sregs == old(vcpu).sregs,
        (final(vcpu).regs, final(vcpu).memory(), r) == vec_store_effect(
            *old(vcpu),
            *old(ctx),
            vex_l,
        ),
{
    vec_store(vcpu, ctx, vex_l)
}

/// VMOVDQU store - VEX.F3.0F 7F /r (unaligned)
pub fn vmovdqu_store(vcpu: &mut X86_64Vcpu, ctx: &mut InsnContext, vex_l: u8) -> (r: Result<
    Option<VcpuExit>,
    EmuError,
>)
    requires
        old(ctx).wf(),
    ensures
        final(vcpu).sregs == old(vcpu).sregs,
        (final(vcpu).regs, final(vcpu).memory(), r) == vec_store_effect(
            *old(vcpu),
            *old(ctx),
            vex_l,
        ),
{
    vec_store(vcpu, ctx, vex_l)
}

/// VMOVD/VMOVQ load - VEX.66.0F 6E /r (GPR or m32/m64 -> xmm, zero-extend to
/// 128 bits, clear the upper YMM lane). VEX.W selects D (32-bit) vs Q (64-bit).
pub fn vmovd_load(vcpu: &mut X86_64Vcpu, ctx: &mut InsnContext, vex_w: u8) -> (r: Result<
    Option<VcpuExit>,
    EmuError,
>)
    requires
        old(ctx).wf(),
    ensures
        final(vcpu).sregs == old(vcpu).sregs,
        (final(vcpu).regs, final(vcpu).memory(), r) == vmovd_load_effect(
            *old(vcpu),
            *old(ctx),
            vex_w,
        ),
{
    let d = vcpu.decode_modrm(ctx, 0)?;
    let size: u8 = if vex_w == 1 {
        8
    } else {
        4
    };
    let value = if d.is_memory {
        vcpu.read_mem(d.addr, size)?
    } else {
        let x = vcpu.get_reg(d.rm);
        if size == 8 {
            x
        } else {
            x & 0xFFFF_FFFF
        }
    };
    vcpu.set_vreg(d.reg, [value, 0, 0, 0]);
    proof {
        assert([value, 0u64, 0u64, 0u64]@ =~= low_only(value));
    }
    vcpu.advance(ctx.cursor);
    Ok(None)
}

/// VMOVD/VMOVQ store - VEX.66.0F 7E /r (xmm -> GPR or m32/m64).
pub fn vmovd_store(vcpu: &mut X86_64Vcpu, ctx: &mut InsnContext, vex_w: u8) -> (r: Result<
    Option<VcpuExit>,
    EmuError,
>)
    requires
        old(ctx).wf(),
    ensures
        final(vcpu).sregs == old(vcpu).sregs,
        (final(vcpu).regs, final(vcpu).memory(), r) == vmovd_store_effect(
            *old(vcpu),
            *old(ctx),
            vex_w,
        ),
{
    let d = vcpu.decode_modrm(ctx, 0)?;
    let value = vcpu.regs.xmm[d.reg as usize][0];
    if vex_w == 1 {
        if d.is_memory {
            vcpu.write_mem(d.addr, value, 8)?;
        } else {
            vcpu.set_reg(d.rm, value, 8);
        }
    } else if d.is_memory {
        vcpu.write_mem(d.addr, value & 0xFFFF_FFFF, 4)?;
    } else {
        vcpu.set_reg(d.rm, value & 0xFFFF_FFFF, 4);
    }
    vcpu.advance(ctx.cursor);
    Ok(None)
}

/// VMOVQ load - VEX.F3.0F 7E /r (xmm2/m64 -> xmm1, zero-extend 64->128, clear
/// upper YMM lane).
pub fn vmovq_load(vcpu: &mut X86_64Vcpu, ctx: &mut InsnContext) -> (r: Result<
    Option<VcpuExit>,
    EmuError,
>)
    requires
        old(ctx).wf(),
    ensures
        final(vcpu).sregs == old(vcpu).sregs,
        (final(vcpu).regs, final(vcpu).memory(), r) == vmovq_load_effect(*old(vcpu), *old(ctx)),
{
    let d = vcpu.decode_modrm(ctx, 0)?;
    let value = if d.is_memory {
        vcpu.read_mem(d.addr, 8)?
    } else {
        vcpu.regs.xmm[d.rm as usize][0]
    };
    vcpu.set_vreg(d.reg, [value, 0, 0, 0]);
    proof {
        assert([value, 0u64, 0u64, 0u64]@ =~= low_only(value));
    }
    vcpu.advance(ctx.cursor);
    Ok(None)
}

/// VMOVQ store - VEX.66.0F D6 /r (xmm1 -> xmm2/m64; register form zero-extends).
pub fn vmovq_store(vcpu: &mut X86_64Vcpu, ctx: &mut InsnContext) -> (r: Result<
    Option<VcpuExit>,
    EmuError,
>)
    requires
        old(ctx).wf(),
    ensures
        final(vcpu).sregs == old(vcpu).sregs,
        (final(vcpu).regs, final(vcpu).memory(), r) == vmovq_store_effect(*old(vcpu), *old(ctx)),
{
    let d = vcpu.decode_modrm(ctx, 0)?;
    let value = vcpu.regs.xmm[d.reg as usize][0];
    if d.is_memory {
        vcpu.write_mem(d.addr, value, 8)?;
    } else {
        vcpu.set_vreg(d.rm, [value, 0, 0, 0]);
        proof {
            assert([value, 0u64, 0u64, 0u64]@ =~= low_only(value));
        }
    }
    vcpu.advance(ctx.cursor);
    Ok(None)
}

} // verus!
