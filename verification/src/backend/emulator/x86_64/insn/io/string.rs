//! String port I/O: INSB/INSW/INSD (0x6C/0x6D) and OUTSB/OUTSW/OUTSD
//! (0x6E/0x6F). One element moves per execution, as an I/O exit for the
//! host: INS names the guest address in rDI the input goes to, OUTS carries
//! the bytes read at the address in rSI (both without a segment base, cut to
//! the address size). rDI/rSI then step by the element size
//! (down when DF is set). Under REP the count in rCX drops by one and the
//! instruction is retired only when it reaches zero, so it runs again for
//! the next element; with a zero count it is retired at once without I/O.

use crate::backend::emulator::x86_64::cpu::{adv, le_bytes, EmuError, InsnContext, Step, X86_64Vcpu};
use crate::backend::emulator::x86_64::flags::{flag, DF};
use crate::cpu::{Registers, SystemRegisters, VcpuExit};
use vstd::prelude::*;

verus! {

/// Address size in bytes: 8 in 64-bit mode (4 with 0x67); else 4 or 2 by
/// CS.D toggled by 0x67.
pub open spec fn io_addr_size(sregs: SystemRegisters, ctx: InsnContext) -> u8 {
    if sregs.cs.l {
        if ctx.address_size_override {
            4
        } else {
            8
        }
    } else if sregs.cs.db == ctx.address_size_override {
        2
    } else {
        4
    }
}

/// The low `a` bytes of a register.
pub open spec fn masked(r: u64, a: u8) -> u64 {
    if a == 2 {
        r % 0x1_0000
    } else if a == 4 {
        r % 0x1_0000_0000
    } else {
        r
    }
}

/// A register whose low `a` bytes change by `d` (wrapping there): a 16-bit
/// update keeps the upper bytes, a 32-bit one clears them.
pub open spec fn offset_reg(r: u64, a: u8, d: int) -> u64 {
    if a == 2 {
        ((r - r % 0x1_0000) + (r % 0x1_0000 + d) % 0x1_0000) as u64
    } else if a == 4 {
        ((r % 0x1_0000_0000 + d) % 0x1_0000_0000) as u64
    } else {
        ((r + d) % 0x1_0000_0000_0000_0000) as u64
    }
}

/// The registers after one string I/O element: the index register (rSI for
/// OUTS, rDI for INS) stepped, the count dropped under REP, and RIP past
/// the instruction unless REP has elements left.
pub open spec fn io_elem_regs(
    regs: Registers,
    ctx: InsnContext,
    a: u8,
    size: u8,
    source: bool,
) -> Registers {
    let d: int = if flag(regs.rflags, DF) {
        -(size as int)
    } else {
        size as int
    };
    let r1 = if source {
        Registers { rsi: offset_reg(regs.rsi, a, d), ..regs }
    } else {
        Registers { rdi: offset_reg(regs.rdi, a, d), ..regs }
    };
    if ctx.rep_prefix is Some {
        let r2 = Registers { rcx: offset_reg(regs.rcx, a, -1), ..r1 };
        if masked(r2.rcx, a) == 0 {
            adv(r2, regs.rip, ctx.cursor as int)
        } else {
            r2
        }
    } else {
        adv(r1, regs.rip, ctx.cursor as int)
    }
}

/// INS with elements of `size` bytes; the cursor is past the opcode.
pub open spec fn ins_step(v: X86_64Vcpu, ctx: InsnContext, size: u8) -> Step {
    let regs = v.regs;
    let a = io_addr_size(v.sregs, ctx);
    if ctx.rep_prefix is Some && masked(regs.rcx, a) == 0 {
        (adv(regs, regs.rip, ctx.cursor as int), Ok(None))
    } else {
        (
            io_elem_regs(regs, ctx, a, size, false),
            Ok(
                Some(
                    VcpuExit::IoIn {
                        port: (regs.rdx % 0x1_0000) as u16,
                        size,
                        dest: masked(regs.rdi, a),
                    },
                ),
            ),
        )
    }
}

/// OUTS with elements of `size` bytes; the cursor is past the opcode.
pub open spec fn outs_step(v: X86_64Vcpu, ctx: InsnContext, size: u8) -> Step {
    let regs = v.regs;
    let a = io_addr_size(v.sregs, ctx);
    let src = masked(regs.rsi, a);
    if ctx.rep_prefix is Some && masked(regs.rcx, a) == 0 {
        (adv(regs, regs.rip, ctx.cursor as int), Ok(None))
    } else if src + size > v.memory().len() {
        (regs, Err(EmuError::MemoryFault(src)))
    } else {
        (
            io_elem_regs(regs, ctx, a, size, true),
            Ok(
                Some(
                    VcpuExit::IoOut {
                        port: (regs.rdx % 0x1_0000) as u16,
                        size,
                        data: le_bytes(v.memory(), src as int, size as nat) as u32,
                    },
                ),
            ),
        )
    }
}

fn addr_size_bytes(sregs: &SystemRegisters, ctx: &InsnContext) -> (a: u8)
    ensures
        a == io_addr_size(*sregs, *ctx),
{
    if sregs.cs.l {
        if ctx.address_size_override {
            4
        } else {
            8
        }
    } else if sregs.cs.db == ctx.address_size_override {
        2
    } else {
        4
    }
}

fn masked_exec(r: u64, a: u8) -> (m: u64)
    ensures
        m == masked(r, a),
{
    if a == 2 {
        r % 0x1_0000
    } else if a == 4 {
        r % 0x1_0000_0000
    } else {
        r
    }
}

/// `offset_reg` by `d` = +`size` (or -`size` when `down`).
fn offset_exec(r: u64, a: u8, size: u64, down: bool) -> (n: u64)
    requires
        size <= 8,
    ensures
        n == offset_reg(
            r,
            a,
            if down {
                -(size as int)
            } else {
                size as int
            },
        ),
{
    let (m, low): (u64, u64) = if a == 2 {
        (0x1_0000, r % 0x1_0000)
    } else if a == 4 {
        (0x1_0000_0000, r % 0x1_0000_0000)
    } else {
        (0, r)
    };
    let new_low: u64 = if m == 0 {
        if down {
            r.wrapping_sub(size)
        } else {
            r.wrapping_add(size)
        }
    } else if down {
        if low >= size {
            low - size
        } else {
            m - (size - low)
        }
    } else {
        (low + size) % m
    };
    if a == 2 {
        (r - low) + new_low
    } else {
        new_low
    }
}

/// One string I/O element's register update (see `io_elem_regs`).
fn io_elem_update(vcpu: &mut X86_64Vcpu, ctx: &InsnContext, a: u8, size: u8, source: bool)
    requires
        1 <= size <= 8,
    ensures
        final(vcpu).regs == io_elem_regs(old(vcpu).regs, *ctx, a, size, source),
        final(vcpu).sregs == old(vcpu).sregs,
        final(vcpu).memory() == old(vcpu).memory(),
{
    let down = vcpu.regs.rflags & DF != 0;
    if source {
        vcpu.regs.rsi = offset_exec(vcpu.regs.rsi, a, size as u64, down);
    } else {
        vcpu.regs.rdi = offset_exec(vcpu.regs.rdi, a, size as u64, down);
    }
    if ctx.rep_prefix.is_some() {
        vcpu.regs.rcx = offset_exec(vcpu.regs.rcx, a, 1, true);
        if masked_exec(vcpu.regs.rcx, a) == 0 {
            vcpu.advance(ctx.cursor);
        }
    } else {
        vcpu.advance(ctx.cursor);
    }
}

fn ins_common(vcpu: &mut X86_64Vcpu, ctx: &mut InsnContext, size: u8) -> (r: Result<
    Option<VcpuExit>,
    EmuError,
>)
    requires
        size == 1 || size == 2 || size == 4,
    ensures
        *final(ctx) == *old(ctx),
        final(vcpu).sregs == old(vcpu).sregs,
        final(vcpu).memory() == old(vcpu).memory(),
        (final(vcpu).regs, r) == ins_step(*old(vcpu), *old(ctx), size),
{
    let port = (vcpu.regs.rdx % 0x1_0000) as u16;
    let a = addr_size_bytes(&vcpu.sregs, ctx);
    if ctx.rep_prefix.is_some() && masked_exec(vcpu.regs.rcx, a) == 0 {
        vcpu.advance(ctx.cursor);
        return Ok(None);
    }
    let dest = masked_exec(vcpu.regs.rdi, a);
    io_elem_update(vcpu, ctx, a, size, false);
    Ok(Some(VcpuExit::IoIn { port, size, dest }))
}

fn outs_common(vcpu: &mut X86_64Vcpu, ctx: &mut InsnContext, size: u8) -> (r: Result<
    Option<VcpuExit>,
    EmuError,
>)
    requires
        size == 1 || size == 2 || size == 4,
    ensures
        *final(ctx) == *old(ctx),
        final(vcpu).sregs == old(vcpu).sregs,
        final(vcpu).memory() == old(vcpu).memory(),
        (final(vcpu).regs, r) == outs_step(*old(vcpu), *old(ctx), size),
{
    let port = (vcpu.regs.rdx % 0x1_0000) as u16;
    let a = addr_size_bytes(&vcpu.sregs, ctx);
    if ctx.rep_prefix.is_some() && masked_exec(vcpu.regs.rcx, a) == 0 {
        vcpu.advance(ctx.cursor);
        return Ok(None);
    }
    let src = masked_exec(vcpu.regs.rsi, a);
    let val = vcpu.read_mem(src, size)?;
    proof {
        assert(le_bytes(vcpu.memory(), src as int, size as nat) < 0x1_0000_0000) by {
            lemma_le_bytes_small(vcpu.memory(), src as int, size as nat);
        }
    }
    let data = val as u32;
    io_elem_update(vcpu, ctx, a, size, true);
    Ok(Some(VcpuExit::IoOut { port, size, data }))
}

/// Up to four bytes read little-endian fit in 32 bits.
proof fn lemma_le_bytes_small(s: Seq<u8>, start: int, n: nat)
    requires
        n <= 4,
    ensures
        le_bytes(s, start, n) < crate::backend::emulator::x86_64::cpu::pow256(n),
        crate::backend::emulator::x86_64::cpu::pow256(n) <= 0x1_0000_0000,
    decreases n,
{
    reveal_with_fuel(crate::backend::emulator::x86_64::cpu::pow256, 5);
    if n > 0 {
        lemma_le_bytes_small(s, start + 1, (n - 1) as nat);
        assert(le_bytes(s, start, n) == s[start] as nat + 256 * le_bytes(s, start + 1, (n - 1) as nat));
    }
}

/// INSB (0x6C): a byte from port DX to the address in rDI.
pub fn insb(vcpu: &mut X86_64Vcpu, ctx: &mut InsnContext) -> (r: Result<
    Option<VcpuExit>,
    EmuError,
>)
    ensures
        *final(ctx) == *old(ctx),
        final(vcpu).sregs == old(vcpu).sregs,
        final(vcpu).memory() == old(vcpu).memory(),
        (final(vcpu).regs, r) == ins_step(*old(vcpu), *old(ctx), 1),
{
    ins_common(vcpu, ctx, 1)
}

/// INSW/INSD (0x6D): a word (operand size 2) or dword from port DX.
pub fn insw(vcpu: &mut X86_64Vcpu, ctx: &mut InsnContext) -> (r: Result<
    Option<VcpuExit>,
    EmuError,
>)
    ensures
        *final(ctx) == *old(ctx),
        final(vcpu).sregs == old(vcpu).sregs,
        final(vcpu).memory() == old(vcpu).memory(),
        (final(vcpu).regs, r) == ins_step(
            *old(vcpu),
            *old(ctx),
            if old(ctx).op_size == 2 {
                2
            } else {
                4
            },
        ),
{
    let size: u8 = if ctx.op_size == 2 {
        2
    } else {
        4
    };
    ins_common(vcpu, ctx, size)
}

/// OUTSB (0x6E): the byte at the address in rSI to port DX.
pub fn outsb(vcpu: &mut X86_64Vcpu, ctx: &mut InsnContext) -> (r: Result<
    Option<VcpuExit>,
    EmuError,
>)
    ensures
        *final(ctx) == *old(ctx),
        final(vcpu).sregs == old(vcpu).sregs,
        final(vcpu).memory() == old(vcpu).memory(),
        (final(vcpu).regs, r) == outs_step(*old(vcpu), *old(ctx), 1),
{
    outs_common(vcpu, ctx, 1)
}

/// OUTSW/OUTSD (0x6F): a word (with 0x66) or dword to port DX.
pub fn outsw(vcpu: &mut X86_64Vcpu, ctx: &mut InsnContext) -> (r: Result<
    Option<VcpuExit>,
    EmuError,
>)
    ensures
        *final(ctx) == *old(ctx),
        final(vcpu).sregs == old(vcpu).sregs,
        final(vcpu).memory() == old(vcpu).memory(),
        (final(vcpu).regs, r) == outs_step(
            *old(vcpu),
            *old(ctx),
            if old(ctx).operand_size_override {
                2
            } else {
                4
            },
        ),
{
    let size: u8 = if ctx.operand_size_override {
        2
    } else {
        4
    };
    outs_common(vcpu, ctx, size)
}

} // verus!
