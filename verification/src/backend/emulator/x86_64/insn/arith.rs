//! Eight-bit ADD and SUB on the accumulator, with their status flags.

use crate::backend::emulator::x86_64::cpu::{incomplete, EmuError, InsnContext, Step, X86_64Vcpu};
use crate::backend::emulator::x86_64::flags::{parity, parity_even, set_status, with_status};
use crate::cpu::{Registers, VcpuExit};
use vstd::prelude::*;

verus! {

/// Sign bit of a byte.
pub open spec fn neg8(x: u8) -> bool {
    x >= 0x80
}

/// 8-bit ADD result.
pub open spec fn add8(a: u8, b: u8) -> u8 {
    ((a + b) % 256) as u8
}

/// RFLAGS after an 8-bit ADD.
pub open spec fn add8_flags(rflags: u64, a: u8, b: u8) -> u64 {
    let r = add8(a, b);
    with_status(
        rflags,
        a + b > 255,
        parity_even(r),
        a % 16 + b % 16 > 15,
        r == 0,
        neg8(r),
        neg8(a) == neg8(b) && neg8(r) != neg8(a),
    )
}

/// 8-bit SUB result.
pub open spec fn sub8(a: u8, b: u8) -> u8 {
    ((a - b + 256) % 256) as u8
}

/// RFLAGS after an 8-bit SUB.
pub open spec fn sub8_flags(rflags: u64, a: u8, b: u8) -> u64 {
    let r = sub8(a, b);
    with_status(
        rflags,
        a < b,
        parity_even(r),
        a % 16 < b % 16,
        r == 0,
        neg8(r),
        neg8(a) != neg8(b) && neg8(r) != neg8(a),
    )
}

/// ADD AL, imm8 (0x04) / SUB AL, imm8 (0x2C): the registers afterwards.
pub open spec fn acc8_result(regs: Registers, imm: u8, sub: bool, len: nat) -> Registers {
    let a = (regs.rax % 256) as u8;
    let r = if sub {
        sub8(a, imm)
    } else {
        add8(a, imm)
    };
    Registers {
        rax: ((regs.rax - regs.rax % 256) + r) as u64,
        rflags: if sub {
            sub8_flags(regs.rflags, a, imm)
        } else {
            add8_flags(regs.rflags, a, imm)
        },
        rip: regs.rip.wrapping_add(len as u64),
        ..regs
    }
}

/// ADD/SUB AL, imm8 with the cursor past the opcode.
pub open spec fn acc8_step(regs: Registers, ctx: InsnContext, sub: bool) -> Step {
    if ctx.has(1) {
        (
            acc8_result(regs, ctx.bytes[ctx.cursor as int], sub, (ctx.cursor + 1) as nat),
            Ok(None),
        )
    } else {
        incomplete(regs)
    }
}

fn add8_exec(rflags: u64, a: u8, b: u8) -> (r: (u8, u64))
    ensures
        r == (add8(a, b), add8_flags(rflags, a, b)),
{
    let r = a.wrapping_add(b);
    let f = set_status(
        rflags,
        a as u16 + b as u16 > 255,
        parity(r),
        a % 16 + b % 16 > 15,
        r == 0,
        r >= 0x80,
        (a >= 0x80) == (b >= 0x80) && (r >= 0x80) != (a >= 0x80),
    );
    (r, f)
}

fn sub8_exec(rflags: u64, a: u8, b: u8) -> (r: (u8, u64))
    ensures
        r == (sub8(a, b), sub8_flags(rflags, a, b)),
{
    let r = a.wrapping_sub(b);
    let f = set_status(
        rflags,
        a < b,
        parity(r),
        a % 16 < b % 16,
        r == 0,
        r >= 0x80,
        (a >= 0x80) != (b >= 0x80) && (r >= 0x80) != (a >= 0x80),
    );
    (r, f)
}

/// ADD AL, imm8 (0x04) and SUB AL, imm8 (0x2C). The cursor is past the
/// opcode.
#[verifier::rlimit(30)]
pub fn acc8_imm(vcpu: &mut X86_64Vcpu, ctx: &mut InsnContext, sub: bool) -> (r: Result<
    Option<VcpuExit>,
    EmuError,
>)
    requires
        old(ctx).wf(),
    ensures
        final(ctx).wf(),
        final(vcpu).sregs == old(vcpu).sregs,
        final(vcpu).memory() == old(vcpu).memory(),
        (final(vcpu).regs, r) == acc8_step(old(vcpu).regs, *old(ctx), sub),
{
    let imm = ctx.consume_u8()?;
    let a = (vcpu.regs.rax % 256) as u8;
    let (res, f) = if sub {
        sub8_exec(vcpu.regs.rflags, a, imm)
    } else {
        add8_exec(vcpu.regs.rflags, a, imm)
    };
    vcpu.regs.rax = (vcpu.regs.rax - vcpu.regs.rax % 256) + res as u64;
    vcpu.regs.rflags = f;
    vcpu.advance(ctx.cursor);
    Ok(None)
}

} // verus!
