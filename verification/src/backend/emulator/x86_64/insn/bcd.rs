//! Decimal and ASCII adjust: DAA, DAS, AAA, AAS. All four are invalid in
//! 64-bit mode.

use crate::backend::emulator::x86_64::cpu::{EmuError, InsnContext, Step, X86_64Vcpu};
use crate::backend::emulator::x86_64::flags::{
    flag, parity, parity_even, set_status, with_status, AF, CF, OF,
};
use crate::cpu::{Registers, VcpuExit};
use vstd::prelude::*;

verus! {

/// DAA: the adjusted AL, CF and AF.
pub open spec fn daa_spec(al: u8, cf: bool, af: bool) -> (u8, bool, bool) {
    let low = al % 16 > 9 || af;
    let al1: u8 = if low {
        al.wrapping_add(6)
    } else {
        al
    };
    let high = al > 0x99 || cf;
    let al2: u8 = if high {
        al1.wrapping_add(0x60)
    } else {
        al1
    };
    (al2, high, low)
}

/// DAS: the adjusted AL, CF and AF.
pub open spec fn das_spec(al: u8, cf: bool, af: bool) -> (u8, bool, bool) {
    let low = al % 16 > 9 || af;
    let al1: u8 = if low {
        al.wrapping_sub(6)
    } else {
        al
    };
    let cf1 = low && (cf || al < 6);
    let high = al > 0x99 || cf;
    let al2: u8 = if high {
        al1.wrapping_sub(0x60)
    } else {
        al1
    };
    (al2, high || cf1, low)
}

/// AAA: the adjusted AX and the new CF = AF.
pub open spec fn aaa_spec(ax: u16, af: bool) -> (u16, bool) {
    let adjust = ax % 16 > 9 || af;
    let ax1 = if adjust {
        ax.wrapping_add(0x106)
    } else {
        ax
    };
    ((ax1 - ax1 % 256 + ax1 % 16) as u16, adjust)
}

/// AAS: the adjusted AX and the new CF = AF.
pub open spec fn aas_spec(ax: u16, af: bool) -> (u16, bool) {
    let adjust = ax % 16 > 9 || af;
    if adjust {
        let ax1 = ax.wrapping_sub(6);
        let ah = ((ax1 / 256) as u8).wrapping_sub(1);
        ((ah * 256 + ax1 % 16) as u16, true)
    } else {
        ((ax - ax % 256 + ax % 16) as u16, false)
    }
}

/// The registers after DAA (`das` false) or DAS (`das` true) outside
/// 64-bit mode: AL adjusted; CF, AF from the adjustment; SF, ZF, PF from
/// the result; OF kept.
pub open spec fn decimal_adjust_result(regs: Registers, das: bool, len: nat) -> Registers {
    let al = (regs.rax % 256) as u8;
    let f = regs.rflags;
    let (r, cf, af) = if das {
        das_spec(al, flag(f, CF), flag(f, AF))
    } else {
        daa_spec(al, flag(f, CF), flag(f, AF))
    };
    Registers {
        rax: (regs.rax - regs.rax % 256 + r) as u64,
        rflags: with_status(f, cf, parity_even(r), af, r == 0, r >= 0x80, flag(f, OF)),
        rip: regs.rip.wrapping_add(len as u64),
        ..regs
    }
}

/// The registers after AAA (`aas` false) or AAS (`aas` true) outside
/// 64-bit mode: AX adjusted, CF and AF set to whether it was.
pub open spec fn ascii_adjust_result(regs: Registers, aas: bool, len: nat) -> Registers {
    let ax = (regs.rax % 0x1_0000) as u16;
    let f = regs.rflags;
    let (r, adj) = if aas {
        aas_spec(ax, flag(f, AF))
    } else {
        aaa_spec(ax, flag(f, AF))
    };
    Registers {
        rax: (regs.rax - regs.rax % 0x1_0000 + r) as u64,
        rflags: with_status(
            f,
            adj,
            flag(f, 0x4),
            adj,
            flag(f, 0x40),
            flag(f, 0x80),
            flag(f, OF),
        ),
        rip: regs.rip.wrapping_add(len as u64),
        ..regs
    }
}

/// DAA/DAS with the cursor past the opcode: #UD in 64-bit mode.
pub open spec fn decimal_adjust_step(regs: Registers, long: bool, ctx: InsnContext, das: bool) -> Step {
    if long {
        (regs, Err(EmuError::InvalidOpcode(ctx.opcode)))
    } else {
        (decimal_adjust_result(regs, das, ctx.cursor as nat), Ok(None))
    }
}

/// AAA/AAS with the cursor past the opcode: #UD in 64-bit mode.
pub open spec fn ascii_adjust_step(regs: Registers, long: bool, ctx: InsnContext, aas: bool) -> Step {
    if long {
        (regs, Err(EmuError::InvalidOpcode(ctx.opcode)))
    } else {
        (ascii_adjust_result(regs, aas, ctx.cursor as nat), Ok(None))
    }
}

fn daa_exec(al: u8, cf: bool, af: bool) -> (r: (u8, bool, bool))
    ensures
        r == daa_spec(al, cf, af),
{
    let low = al % 16 > 9 || af;
    let al1 = if low {
        al.wrapping_add(6)
    } else {
        al
    };
    let high = al > 0x99 || cf;
    let al2 = if high {
        al1.wrapping_add(0x60)
    } else {
        al1
    };
    (al2, high, low)
}

fn das_exec(al: u8, cf: bool, af: bool) -> (r: (u8, bool, bool))
    ensures
        r == das_spec(al, cf, af),
{
    let low = al % 16 > 9 || af;
    let al1 = if low {
        al.wrapping_sub(6)
    } else {
        al
    };
    let cf1 = low && (cf || al < 6);
    let high = al > 0x99 || cf;
    let al2 = if high {
        al1.wrapping_sub(0x60)
    } else {
        al1
    };
    (al2, high || cf1, low)
}

/// DAA (0x27, `das` false) and DAS (0x2F, `das` true). The cursor is past
/// the opcode.
pub fn decimal_adjust(vcpu: &mut X86_64Vcpu, ctx: &InsnContext, das: bool) -> (r: Result<
    Option<VcpuExit>,
    EmuError,
>)
    ensures
        final(vcpu).sregs == old(vcpu).sregs,
        final(vcpu).memory() == old(vcpu).memory(),
        (final(vcpu).regs, r) == decimal_adjust_step(old(vcpu).regs, old(vcpu).sregs.cs.l, *ctx, das),
{
    if vcpu.in_64bit_mode() {
        return Err(EmuError::InvalidOpcode(ctx.opcode));
    }
    let al = (vcpu.regs.rax % 256) as u8;
    let f = vcpu.regs.rflags;
    let (r, cf, af) = if das {
        das_exec(al, f & CF != 0, f & AF != 0)
    } else {
        daa_exec(al, f & CF != 0, f & AF != 0)
    };
    vcpu.regs.rax = vcpu.regs.rax - vcpu.regs.rax % 256 + r as u64;
    vcpu.regs.rflags = set_status(f, cf, parity(r), af, r == 0, r >= 0x80, f & OF != 0);
    vcpu.advance(ctx.cursor);
    Ok(None)
}

fn aaa_exec(ax: u16, af: bool) -> (r: (u16, bool))
    ensures
        r == aaa_spec(ax, af),
{
    let adjust = ax % 16 > 9 || af;
    let ax1 = if adjust {
        ax.wrapping_add(0x106)
    } else {
        ax
    };
    (ax1 - ax1 % 256 + ax1 % 16, adjust)
}

fn aas_exec(ax: u16, af: bool) -> (r: (u16, bool))
    ensures
        r == aas_spec(ax, af),
{
    let adjust = ax % 16 > 9 || af;
    if adjust {
        let ax1 = ax.wrapping_sub(6);
        let ah = ((ax1 / 256) as u8).wrapping_sub(1);
        (ah as u16 * 256 + ax1 % 16, true)
    } else {
        (ax - ax % 256 + ax % 16, false)
    }
}

/// AAA (0x37, `aas` false) and AAS (0x3F, `aas` true). The cursor is past
/// the opcode.
pub fn ascii_adjust(vcpu: &mut X86_64Vcpu, ctx: &InsnContext, aas: bool) -> (r: Result<
    Option<VcpuExit>,
    EmuError,
>)
    ensures
        final(vcpu).sregs == old(vcpu).sregs,
        final(vcpu).memory() == old(vcpu).memory(),
        (final(vcpu).regs, r) == ascii_adjust_step(old(vcpu).regs, old(vcpu).sregs.cs.l, *ctx, aas),
{
    if vcpu.in_64bit_mode() {
        return Err(EmuError::InvalidOpcode(ctx.opcode));
    }
    let ax = (vcpu.regs.rax % 0x1_0000) as u16;
    let f = vcpu.regs.rflags;
    let (r, adj) = if aas {
        aas_exec(ax, f & AF != 0)
    } else {
        aaa_exec(ax, f & AF != 0)
    };
    vcpu.regs.rax = vcpu.regs.rax - vcpu.regs.rax % 0x1_0000 + r as u64;
    vcpu.regs.rflags = set_status(f, adj, f & 0x4 != 0, adj, f & 0x40 != 0, f & 0x80 != 0, f & OF != 0);
    vcpu.advance(ctx.cursor);
    Ok(None)
}

} // verus!
