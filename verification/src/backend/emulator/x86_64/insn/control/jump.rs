//! Jump instructions: JMP, Jcc.

use crate::backend::emulator::x86_64::cpu::{
    branch_op_size, incomplete, EmuError, InsnContext, Step, X86_64Vcpu,
};
use crate::backend::emulator::x86_64::flags::cc_holds;
use crate::cpu::{Registers, SystemRegisters, VcpuExit};
use vstd::prelude::*;

verus! {

/// 2^64.
pub open spec fn modulus64() -> int {
    0x1_0000_0000_0000_0000
}

/// An address computed modulo 2^64.
pub open spec fn wrap64(x: int) -> u64 {
    (x % modulus64()) as u64
}

/// A byte, word or dword displacement as a signed value.
pub open spec fn sext(v: nat, bytes: nat) -> int {
    if bytes == 1 {
        if v >= 0x80 {
            v - 0x100
        } else {
            v as int
        }
    } else if bytes == 2 {
        if v >= 0x8000 {
            v - 0x1_0000
        } else {
            v as int
        }
    } else {
        if v >= 0x8000_0000 {
            v - 0x1_0000_0000
        } else {
            v as int
        }
    }
}

/// An instruction pointer truncated to the operand-size width: a 16-bit
/// jump wraps IP within 64 KiB, a 32-bit one within 4 GiB; 64-bit is
/// unchanged.
pub open spec fn mask_ip_spec(ip: u64, op_size: u8) -> u64 {
    if op_size == 2 {
        ip % 0x1_0000
    } else if op_size == 4 {
        ip % 0x1_0000_0000
    } else {
        ip
    }
}

/// Truncate an instruction pointer to the operand-size width.
fn mask_ip(ip: u64, op_size: u8) -> (r: u64)
    ensures
        r == mask_ip_spec(ip, op_size),
{
    match op_size {
        2 => ip % 0x1_0000,
        4 => ip % 0x1_0000_0000,
        _ => ip,
    }
}

/// RIP + instruction length + displacement, modulo 2^64.
fn rel_target(rip: u64, len: usize, disp: i64) -> (r: u64)
    requires
        len <= 15,
        -0x8000_0000 <= disp < 0x8000_0000,
    ensures
        r == wrap64(rip + len + disp),
{
    rip.wrapping_add(len as u64).wrapping_add_signed(disp)
}

/// The registers after a near jump taken (`taken`) or not: RIP becomes
/// the relative target or the next instruction, masked to the branch
/// operand size.
pub open spec fn near_jump(
    regs: Registers,
    op_size: u8,
    len: nat,
    disp: int,
    taken: bool,
) -> Registers {
    Registers {
        rip: mask_ip_spec(
            if taken {
                wrap64(regs.rip + len + disp)
            } else {
                wrap64(regs.rip + len)
            },
            op_size,
        ),
        ..regs
    }
}

/// Read a `bytes`-wide signed displacement.
fn consume_disp(ctx: &mut InsnContext, bytes: u8) -> (r: Result<i64, EmuError>)
    requires
        old(ctx).wf(),
        bytes == 1 || bytes == 2 || bytes == 4,
    ensures
        final(ctx).wf(),
        old(ctx).has(bytes as int) ==> r is Ok && r->Ok_0 as int == sext(
            old(ctx).peek(bytes as nat),
            bytes as nat,
        ) && *final(ctx) == old(ctx).advanced(bytes as int),
        !old(ctx).has(bytes as int) ==> r == Err::<i64, EmuError>(EmuError::Incomplete) && *final(ctx) == *old(ctx),
        r matches Ok(d) ==> -0x8000_0000 <= d < 0x8000_0000,
{
    proof {
        reveal_with_fuel(crate::backend::emulator::x86_64::cpu::le_bytes, 5);
    }
    if bytes == 1 {
        let b = ctx.consume_u8()?;
        Ok(
            if b >= 0x80 {
                b as i64 - 0x100
            } else {
                b as i64
            },
        )
    } else if bytes == 2 {
        let w = ctx.consume_u16()?;
        Ok(
            if w >= 0x8000 {
                w as i64 - 0x1_0000
            } else {
                w as i64
            },
        )
    } else {
        let d = ctx.consume_u32()?;
        Ok(
            if d >= 0x8000_0000 {
                d as i64 - 0x1_0000_0000
            } else {
                d as i64
            },
        )
    }
}

/// Width of the displacement of `jmp rel16/32` and `jcc rel16/32`.
pub open spec fn rel_width(op_size: u8) -> nat {
    if op_size == 2 {
        2
    } else {
        4
    }
}

/// A relative jump with `width` displacement bytes after the cursor: RIP
/// moves as `near_jump` says, or the instruction is incomplete.
pub open spec fn rel_jump_step(
    regs: Registers,
    sregs: SystemRegisters,
    ctx: InsnContext,
    width: nat,
    taken: bool,
) -> Step {
    if ctx.has(width as int) {
        (
            near_jump(
                regs,
                branch_op_size(sregs, ctx.operand_size_override),
                (ctx.cursor + width) as nat,
                sext(ctx.peek(width), width),
                taken,
            ),
            Ok(None),
        )
    } else {
        incomplete(regs)
    }
}

/// JMPABS imm64 with the cursor past the opcode.
pub open spec fn jmp_abs_step(regs: Registers, ctx: InsnContext) -> Step {
    if ctx.has(8) {
        (Registers { rip: ctx.peek(8) as u64, ..regs }, Ok(None))
    } else {
        incomplete(regs)
    }
}

/// JMP rel8 (0xEB).
pub fn jmp_rel8(vcpu: &mut X86_64Vcpu, ctx: &mut InsnContext) -> (r: Result<
    Option<VcpuExit>,
    EmuError,
>)
    requires
        old(ctx).wf(),
    ensures
        final(ctx).wf(),
        final(vcpu).sregs == old(vcpu).sregs,
        final(vcpu).memory() == old(vcpu).memory(),
        (final(vcpu).regs, r) == rel_jump_step(old(vcpu).regs, old(vcpu).sregs, *old(ctx), 1, true),
{
    let op_size = vcpu.near_branch_op_size(ctx);
    let disp = consume_disp(ctx, 1)?;
    let target = rel_target(vcpu.regs.rip, ctx.cursor, disp);
    vcpu.regs.rip = mask_ip(target, op_size);
    Ok(None)
}

/// JMP rel16/rel32 (0xE9). The displacement is rel16 for a 16-bit operand
/// size, else rel32 (sign-extended, including in 64-bit mode).
pub fn jmp_rel32(vcpu: &mut X86_64Vcpu, ctx: &mut InsnContext) -> (r: Result<
    Option<VcpuExit>,
    EmuError,
>)
    requires
        old(ctx).wf(),
    ensures
        final(ctx).wf(),
        final(vcpu).sregs == old(vcpu).sregs,
        final(vcpu).memory() == old(vcpu).memory(),
        (final(vcpu).regs, r) == rel_jump_step(
            old(vcpu).regs,
            old(vcpu).sregs,
            *old(ctx),
            rel_width(branch_op_size(old(vcpu).sregs, old(ctx).operand_size_override)),
            true,
        ),
{
    let op_size = vcpu.near_branch_op_size(ctx);
    let disp = consume_disp(
        ctx,
        if op_size == 2 {
            2
        } else {
            4
        },
    )?;
    let target = rel_target(vcpu.regs.rip, ctx.cursor, disp);
    vcpu.regs.rip = mask_ip(target, op_size);
    Ok(None)
}

/// JMPABS imm64: RIP takes the 64-bit immediate.
pub fn jmp_abs(vcpu: &mut X86_64Vcpu, ctx: &mut InsnContext) -> (r: Result<
    Option<VcpuExit>,
    EmuError,
>)
    requires
        old(ctx).wf(),
    ensures
        final(ctx).wf(),
        final(vcpu).sregs == old(vcpu).sregs,
        final(vcpu).memory() == old(vcpu).memory(),
        (final(vcpu).regs, r) == jmp_abs_step(old(vcpu).regs, *old(ctx)),
{
    vcpu.regs.rip = ctx.consume_u64()?;
    Ok(None)
}

/// Jcc rel8 (0x70-0x7F): condition `cc` selects the target or the next
/// instruction.
pub fn jcc_rel8(vcpu: &mut X86_64Vcpu, ctx: &mut InsnContext, cc: u8) -> (r: Result<
    Option<VcpuExit>,
    EmuError,
>)
    requires
        old(ctx).wf(),
        cc < 16,
    ensures
        final(ctx).wf(),
        final(vcpu).sregs == old(vcpu).sregs,
        final(vcpu).memory() == old(vcpu).memory(),
        (final(vcpu).regs, r) == rel_jump_step(
            old(vcpu).regs,
            old(vcpu).sregs,
            *old(ctx),
            1,
            cc_holds(old(vcpu).regs.rflags, cc),
        ),
{
    let op_size = vcpu.near_branch_op_size(ctx);
    let disp = consume_disp(ctx, 1)?;
    let target = if vcpu.check_condition(cc) {
        rel_target(vcpu.regs.rip, ctx.cursor, disp)
    } else {
        rel_target(vcpu.regs.rip, ctx.cursor, 0)
    };
    vcpu.regs.rip = mask_ip(target, op_size);
    Ok(None)
}

/// Jcc rel16/rel32 (0x0F 0x80-0x8F).
pub fn jcc_rel32(vcpu: &mut X86_64Vcpu, ctx: &mut InsnContext, cc: u8) -> (r: Result<
    Option<VcpuExit>,
    EmuError,
>)
    requires
        old(ctx).wf(),
        cc < 16,
    ensures
        final(ctx).wf(),
        final(vcpu).sregs == old(vcpu).sregs,
        final(vcpu).memory() == old(vcpu).memory(),
        (final(vcpu).regs, r) == rel_jump_step(
            old(vcpu).regs,
            old(vcpu).sregs,
            *old(ctx),
            rel_width(branch_op_size(old(vcpu).sregs, old(ctx).operand_size_override)),
            cc_holds(old(vcpu).regs.rflags, cc),
        ),
{
    let op_size = vcpu.near_branch_op_size(ctx);
    let disp = consume_disp(
        ctx,
        if op_size == 2 {
            2
        } else {
            4
        },
    )?;
    let target = if vcpu.check_condition(cc) {
        rel_target(vcpu.regs.rip, ctx.cursor, disp)
    } else {
        rel_target(vcpu.regs.rip, ctx.cursor, 0)
    };
    vcpu.regs.rip = mask_ip(target, op_size);
    Ok(None)
}

} // verus!
