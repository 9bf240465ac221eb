//! Move string: MOVSB (0xA4) and MOVSW/MOVSD/MOVSQ (0xA5). Each element is
//! read at seg:rSI (DS unless overridden) and written at ES:rDI; rSI and rDI
//! then step by the element size, down when DF is set. With REP/REPNE the
//! move repeats rCX times, rCX counting down; a fault stops it with the
//! elements before it done and RIP still at the instruction.

use crate::backend::emulator::x86_64::cpu::{
    adv, le_bytes, store_le, EmuError, InsnContext, MemStep, X86_64Vcpu,
};
use crate::backend::emulator::x86_64::flags::{flag, DF};
use crate::backend::emulator::x86_64::insn::string::{
    advance_index, advance_index_spec, dec_count, dec_count_spec, index, index_spec, rep_count,
    rep_count_spec,
};
use crate::cpu::{Registers, SystemRegisters, VcpuExit};
use vstd::prelude::*;

verus! {

/// Base of the source segment: DS, or the segment a prefix names.
pub open spec fn source_base(sregs: SystemRegisters, seg: Option<u8>) -> u64 {
    match seg {
        Some(b) => if b == 0x26 {
            sregs.es.base
        } else if b == 0x2E {
            sregs.cs.base
        } else if b == 0x36 {
            sregs.ss.base
        } else if b == 0x64 {
            sregs.fs.base
        } else if b == 0x65 {
            sregs.gs.base
        } else {
            sregs.ds.base
        },
        None => sregs.ds.base,
    }
}

/// A 32-bit address size: the 0x67 prefix in 64-bit mode.
pub open spec fn string_addr32(sregs: SystemRegisters, ctx: InsnContext) -> bool {
    ctx.address_size_override && sregs.cs.l
}

/// `a + b` modulo 2^64.
pub open spec fn add64(a: u64, b: u64) -> u64 {
    ((a + b) % 0x1_0000_0000_0000_0000) as u64
}

/// One element of `size` bytes moved: the registers and memory afterwards,
/// or the fault at the source or destination.
pub open spec fn movs_elem(
    regs: Registers,
    m: Seq<u8>,
    sregs: SystemRegisters,
    ctx: InsnContext,
    size: u8,
) -> Result<(Registers, Seq<u8>), EmuError> {
    let a32 = string_addr32(sregs, ctx);
    let src = add64(source_base(sregs, ctx.segment_override), index_spec(regs.rsi, a32));
    let dst = add64(sregs.es.base, index_spec(regs.rdi, a32));
    if src + size > m.len() {
        Err(EmuError::MemoryFault(src))
    } else if dst + size > m.len() {
        Err(EmuError::MemoryFault(dst))
    } else {
        let forward = !flag(regs.rflags, DF);
        Ok(
            (
                Registers {
                    rsi: advance_index_spec(regs.rsi, size as u64, forward, a32),
                    rdi: advance_index_spec(regs.rdi, size as u64, forward, a32),
                    rcx: if ctx.rep_prefix is Some {
                        dec_count_spec(regs.rcx, a32)
                    } else {
                        regs.rcx
                    },
                    ..regs
                },
                store_le(m, dst as int, le_bytes(m, src as int, size as nat), size as nat),
            ),
        )
    }
}

/// Up to `n` element moves, stopping early under REP once rCX is zero.
pub open spec fn movs_loop(
    regs: Registers,
    m: Seq<u8>,
    sregs: SystemRegisters,
    ctx: InsnContext,
    size: u8,
    n: nat,
) -> MemStep
    decreases n,
{
    if n == 0 || (ctx.rep_prefix is Some && rep_count_spec(
        regs.rcx,
        string_addr32(sregs, ctx),
    ) == 0) {
        (regs, m, Ok(None))
    } else {
        match movs_elem(regs, m, sregs, ctx, size) {
            Err(e) => (regs, m, Err(e)),
            Ok(p) => movs_loop(p.0, p.1, sregs, ctx, size, (n - 1) as nat),
        }
    }
}

/// MOVS with elements of `size` bytes; the cursor is past the opcode.
pub open spec fn movs_effect(v: X86_64Vcpu, ctx: InsnContext, size: u8) -> MemStep {
    let count: u64 = if ctx.rep_prefix is Some {
        rep_count_spec(v.regs.rcx, string_addr32(v.sregs, ctx))
    } else {
        1
    };
    let s = movs_loop(v.regs, v.memory(), v.sregs, ctx, size, count as nat);
    match s.2 {
        Ok(_) => (adv(s.0, s.0.rip, ctx.cursor as int), s.1, Ok(None)),
        Err(_) => s,
    }
}

proof fn lemma_dec_count(c: u64, a32: bool)
    requires
        rep_count_spec(c, a32) > 0,
    ensures
        rep_count_spec(dec_count_spec(c, a32), a32) == rep_count_spec(c, a32) - 1,
{
}

proof fn lemma_elem_count(
    regs: Registers,
    m: Seq<u8>,
    sregs: SystemRegisters,
    ctx: InsnContext,
    size: u8,
)
    requires
        ctx.rep_prefix is Some,
        movs_elem(regs, m, sregs, ctx, size) is Ok,
    ensures
        movs_elem(regs, m, sregs, ctx, size)->Ok_0.0.rcx == dec_count_spec(
            regs.rcx,
            string_addr32(sregs, ctx),
        ),
{
}

proof fn lemma_loop_exhausts_count(
    regs: Registers,
    m: Seq<u8>,
    sregs: SystemRegisters,
    ctx: InsnContext,
    size: u8,
    n: nat,
)
    requires
        ctx.rep_prefix is Some,
        n == rep_count_spec(regs.rcx, string_addr32(sregs, ctx)),
        movs_loop(regs, m, sregs, ctx, size, n).2 is Ok,
    ensures
        rep_count_spec(movs_loop(regs, m, sregs, ctx, size, n).0.rcx, string_addr32(sregs, ctx))
            == 0,
    decreases n,
{
    if n > 0 {
        let e = movs_elem(regs, m, sregs, ctx, size);
        assert(e is Ok);
        let p = e->Ok_0;
        assert(movs_loop(regs, m, sregs, ctx, size, n) == movs_loop(
            p.0,
            p.1,
            sregs,
            ctx,
            size,
            (n - 1) as nat,
        ));
        lemma_elem_count(regs, m, sregs, ctx, size);
        lemma_dec_count(regs.rcx, string_addr32(sregs, ctx));
        lemma_loop_exhausts_count(p.0, p.1, sregs, ctx, size, (n - 1) as nat);
    }
}

/// A REP MOVS that completes without a fault has used up its count: rCX
/// (ECX with a 32-bit address size) is zero afterwards.
pub proof fn lemma_rep_movs_exhausts_count(v: X86_64Vcpu, ctx: InsnContext, size: u8)
    requires
        ctx.rep_prefix is Some,
        movs_effect(v, ctx, size).2 is Ok,
    ensures
        rep_count_spec(movs_effect(v, ctx, size).0.rcx, string_addr32(v.sregs, ctx)) == 0,
{
    let count = rep_count_spec(v.regs.rcx, string_addr32(v.sregs, ctx));
    lemma_loop_exhausts_count(v.regs, v.memory(), v.sregs, ctx, size, count as nat);
}

fn add_wrap(a: u64, b: u64) -> (r: u64)
    ensures
        r == add64(a, b),
{
    if a > u64::MAX - b {
        a - (u64::MAX - b) - 1
    } else {
        a + b
    }
}

fn source_base_exec(sregs: &SystemRegisters, seg: Option<u8>) -> (r: u64)
    ensures
        r == source_base(*sregs, seg),
{
    match seg {
        Some(b) => if b == 0x26 {
            sregs.es.base
        } else if b == 0x2E {
            sregs.cs.base
        } else if b == 0x36 {
            sregs.ss.base
        } else if b == 0x64 {
            sregs.fs.base
        } else if b == 0x65 {
            sregs.gs.base
        } else {
            sregs.ds.base
        },
        None => sregs.ds.base,
    }
}

/// MOVS for all element sizes.
fn movs_common(vcpu: &mut X86_64Vcpu, ctx: &InsnContext, size: u8) -> (r: Result<
    Option<VcpuExit>,
    EmuError,
>)
    requires
        1 <= size <= 8,
    ensures
        final(vcpu).sregs == old(vcpu).sregs,
        (final(vcpu).regs, final(vcpu).memory(), r) == movs_effect(*old(vcpu), *ctx, size),
{
    let is_rep = ctx.rep_prefix.is_some();
    let addr32 = ctx.address_size_override && vcpu.sregs.cs.l;
    let src_base = source_base_exec(&vcpu.sregs, ctx.segment_override);
    let dst_base = vcpu.sregs.es.base;
    let count: u64 = if is_rep {
        rep_count(vcpu.regs.rcx, addr32)
    } else {
        1
    };
    let ghost sregs = vcpu.sregs;
    let ghost total = movs_loop(vcpu.regs, vcpu.memory(), sregs, *ctx, size, count as nat);
    let mut i: u64 = 0;
    while i < count
        invariant
            1 <= size <= 8,
            i <= count,
            vcpu.sregs == sregs,
            is_rep == ctx.rep_prefix is Some,
            addr32 == string_addr32(sregs, *ctx),
            src_base == source_base(sregs, ctx.segment_override),
            dst_base == sregs.es.base,
            movs_loop(vcpu.regs, vcpu.memory(), sregs, *ctx, size, (count - i) as nat) == total,
            sregs == old(vcpu).sregs,
            count == (if ctx.rep_prefix is Some {
                rep_count_spec(old(vcpu).regs.rcx, string_addr32(sregs, *ctx))
            } else {
                1
            }),
            total == movs_loop(old(vcpu).regs, old(vcpu).memory(), sregs, *ctx, size, count as nat),
        ensures
            vcpu.sregs == sregs,
            total == (vcpu.regs, vcpu.memory(), Ok::<Option<VcpuExit>, EmuError>(None)),
        decreases count - i,
    {
        if is_rep && rep_count(vcpu.regs.rcx, addr32) == 0 {
            break;
        }
        let src = add_wrap(src_base, index(vcpu.regs.rsi, addr32));
        let dst = add_wrap(dst_base, index(vcpu.regs.rdi, addr32));
        let ghost regs0 = vcpu.regs;
        let ghost m0 = vcpu.memory();
        let val = vcpu.read_mem(src, size)?;
        vcpu.write_mem(dst, val, size)?;
        let forward = vcpu.regs.rflags & DF == 0;
        vcpu.regs.rsi = advance_index(vcpu.regs.rsi, size as u64, forward, addr32);
        vcpu.regs.rdi = advance_index(vcpu.regs.rdi, size as u64, forward, addr32);
        if is_rep {
            vcpu.regs.rcx = dec_count(vcpu.regs.rcx, addr32);
        }
        assert(movs_elem(regs0, m0, sregs, *ctx, size) == Ok::<(Registers, Seq<u8>), EmuError>(
            (vcpu.regs, vcpu.memory()),
        ));
        i += 1;
    }
    vcpu.advance(ctx.cursor);
    Ok(None)
}

/// MOVSB (0xA4).
pub fn movsb(vcpu: &mut X86_64Vcpu, ctx: &mut InsnContext) -> (r: Result<
    Option<VcpuExit>,
    EmuError,
>)
    ensures
        *final(ctx) == *old(ctx),
        final(vcpu).sregs == old(vcpu).sregs,
        (final(vcpu).regs, final(vcpu).memory(), r) == movs_effect(*old(vcpu), *old(ctx), 1),
{
    movs_common(vcpu, ctx, 1)
}

/// MOVSW/MOVSD/MOVSQ (0xA5): elements of the operand size.
pub fn movs(vcpu: &mut X86_64Vcpu, ctx: &mut InsnContext) -> (r: Result<
    Option<VcpuExit>,
    EmuError,
>)
    requires
        1 <= old(ctx).op_size <= 8,
    ensures
        *final(ctx) == *old(ctx),
        final(vcpu).sregs == old(vcpu).sregs,
        (final(vcpu).regs, final(vcpu).memory(), r) == movs_effect(
            *old(vcpu),
            *old(ctx),
            old(ctx).op_size,
        ),
{
    let op_size = ctx.op_size;
    movs_common(vcpu, ctx, op_size)
}

} // verus!
