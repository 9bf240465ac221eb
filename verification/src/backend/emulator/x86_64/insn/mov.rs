//! MOV with an immediate source.

use crate::backend::emulator::x86_64::cpu::{
    gpr, incomplete, merge_sized, modrm_regs, rex_bit, with_gpr, with_reg8, EmuError, InsnContext,
    Step, X86_64Vcpu,
};
use crate::cpu::{Registers, VcpuExit};
use vstd::prelude::*;

verus! {

/// Sign extension of a 32-bit immediate to 64 bits.
pub open spec fn sext32(v: u32) -> u64 {
    if v >= 0x8000_0000 {
        (v + 0xFFFF_FFFF_0000_0000) as u64
    } else {
        v as u64
    }
}

/// The register that `B0+r` / `B8+r` names, extended by REX.B.
pub open spec fn opcode_reg(opcode: u8, rex: Option<u8>) -> u8 {
    (opcode % 8 + if rex_bit(rex, 1) {
        8u8
    } else {
        0u8
    }) as u8
}

fn opcode_reg_exec(opcode: u8, rex: Option<u8>) -> (r: u8)
    ensures
        r == opcode_reg(opcode, rex),
        r < 16,
{
    let b: u8 = match rex {
        Some(x) => if x % 2 == 1 {
            8
        } else {
            0
        },
        None => 0,
    };
    opcode % 8 + b
}

/// MOV r8, imm8 with the cursor past the opcode.
pub open spec fn mov_r8_step(regs: Registers, ctx: InsnContext) -> Step {
    if ctx.has(1) {
        (
            Registers {
                rip: regs.rip.wrapping_add((ctx.cursor + 1) as u64),
                ..with_reg8(
                    regs,
                    opcode_reg(ctx.opcode, ctx.rex) as int,
                    ctx.bytes[ctx.cursor as int],
                    ctx.rex is Some,
                )
            },
            Ok(None),
        )
    } else {
        incomplete(regs)
    }
}

/// MOV r, imm with the cursor past the opcode.
pub open spec fn mov_r_step(regs: Registers, ctx: InsnContext) -> Step {
    let n = ctx.op_size as int;
    let reg = opcode_reg(ctx.opcode, ctx.rex) as int;
    if ctx.has(n) {
        (
            Registers {
                rip: regs.rip.wrapping_add((ctx.cursor + n) as u64),
                ..with_gpr(
                    regs,
                    reg,
                    merge_sized(gpr(regs, reg), ctx.peek(n as nat) as u64, ctx.op_size),
                )
            },
            Ok(None),
        )
    } else {
        incomplete(regs)
    }
}

/// MOV r/m, imm (register form) with the cursor past the opcode. A memory
/// operand, or a ModRM reg field other than 0, is not implemented.
pub open spec fn mov_rm_step(regs: Registers, ctx: InsnContext) -> Step {
    let c = ctx.cursor as int;
    let m = ctx.bytes[c];
    let n = if ctx.op_size == 2 {
        2int
    } else {
        4int
    };
    let rm = modrm_regs(m, ctx.rex).1 as int;
    let imm = le_at(ctx, c + 1, n as nat);
    let v = if ctx.op_size == 8 {
        sext32(imm as u32)
    } else {
        imm as u64
    };
    if !ctx.has(1) {
        incomplete(regs)
    } else if m / 64 != 3 || (m / 8) % 8 != 0 {
        (regs, Err(EmuError::Unsupported(ctx.opcode)))
    } else if !ctx.has(1 + n) {
        incomplete(regs)
    } else {
        (
            Registers {
                rip: regs.rip.wrapping_add((c + 1 + n) as u64),
                ..with_gpr(regs, rm, merge_sized(gpr(regs, rm), v, ctx.op_size))
            },
            Ok(None),
        )
    }
}

/// MOV r8, imm8 (0xB0+r). The cursor is past the opcode.
pub fn mov_r8_imm8(vcpu: &mut X86_64Vcpu, ctx: &mut InsnContext) -> (r: Result<
    Option<VcpuExit>,
    EmuError,
>)
    requires
        old(ctx).wf(),
    ensures
        final(ctx).wf(),
        final(vcpu).sregs == old(vcpu).sregs,
        final(vcpu).memory() == old(vcpu).memory(),
        (final(vcpu).regs, r) == mov_r8_step(old(vcpu).regs, *old(ctx)),
{
    let imm = ctx.consume_u8()?;
    let reg = opcode_reg_exec(ctx.opcode, ctx.rex);
    vcpu.set_reg8(reg, imm, ctx.rex.is_some());
    vcpu.advance(ctx.cursor);
    Ok(None)
}

/// MOV r, imm (0xB8+r): imm16, imm32 (zero-extended) or, with REX.W, imm64.
pub fn mov_r_imm(vcpu: &mut X86_64Vcpu, ctx: &mut InsnContext) -> (r: Result<
    Option<VcpuExit>,
    EmuError,
>)
    requires
        old(ctx).wf(),
        old(ctx).op_size == 2 || old(ctx).op_size == 4 || old(ctx).op_size == 8,
    ensures
        final(ctx).wf(),
        final(vcpu).sregs == old(vcpu).sregs,
        final(vcpu).memory() == old(vcpu).memory(),
        (final(vcpu).regs, r) == mov_r_step(old(vcpu).regs, *old(ctx)),
{
    let reg = opcode_reg_exec(ctx.opcode, ctx.rex);
    let size = ctx.op_size;
    let imm: u64 = if size == 2 {
        ctx.consume_u16()? as u64
    } else if size == 4 {
        ctx.consume_u32()? as u64
    } else {
        ctx.consume_u64()?
    };
    vcpu.set_reg(reg, imm, size);
    vcpu.advance(ctx.cursor);
    Ok(None)
}

/// MOV r/m, imm (0xC7 /0), register form: imm16, imm32, or for a 64-bit
/// operand a sign-extended imm32.
pub fn mov_rm_imm(vcpu: &mut X86_64Vcpu, ctx: &mut InsnContext) -> (r: Result<
    Option<VcpuExit>,
    EmuError,
>)
    requires
        old(ctx).wf(),
        old(ctx).op_size == 2 || old(ctx).op_size == 4 || old(ctx).op_size == 8,
    ensures
        final(ctx).wf(),
        final(vcpu).sregs == old(vcpu).sregs,
        final(vcpu).memory() == old(vcpu).memory(),
        (final(vcpu).regs, r) == mov_rm_step(old(vcpu).regs, *old(ctx)),
{
    let (reg, rm) = ctx.decode_modrm_reg()?;
    if reg % 8 != 0 {
        return Err(EmuError::Unsupported(ctx.opcode));
    }
    let size = ctx.op_size;
    let imm: u64 = if size == 2 {
        ctx.consume_u16()? as u64
    } else {
        let v = ctx.consume_u32()?;
        if size == 8 && v >= 0x8000_0000 {
            v as u64 + 0xFFFF_FFFF_0000_0000
        } else {
            v as u64
        }
    };
    vcpu.set_reg(rm, imm, size);
    vcpu.advance(ctx.cursor);
    Ok(None)
}

/// Little-endian value of `n` instruction bytes at `at`.
pub open spec fn le_at(ctx: InsnContext, at: int, n: nat) -> nat {
    crate::backend::emulator::x86_64::cpu::le_bytes(ctx.bytes@, at, n)
}

} // verus!
