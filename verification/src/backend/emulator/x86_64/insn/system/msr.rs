//! Model-specific registers: RDMSR (0F 32) and WRMSR (0F 30). Both need
//! CPL 0; MSRs the interpreter does not model read as zero and ignore writes.

use crate::backend::emulator::x86_64::cpu::{adv, store_le, EmuError, InsnContext, Step, X86_64Vcpu};
use crate::cpu::{Registers, Segment, SystemRegisters, VcpuExit};
use vstd::prelude::*;

verus! {

pub const MSR_TSC: u32 = 0x10;
pub const MSR_APIC_BASE: u32 = 0x1B;
pub const MSR_SYSENTER_CS: u32 = 0x174;
pub const MSR_SYSENTER_ESP: u32 = 0x175;
pub const MSR_SYSENTER_EIP: u32 = 0x176;
pub const MSR_EFER: u32 = 0xC000_0080;
pub const MSR_STAR: u32 = 0xC000_0081;
pub const MSR_LSTAR: u32 = 0xC000_0082;
pub const MSR_CSTAR: u32 = 0xC000_0083;
pub const MSR_FMASK: u32 = 0xC000_0084;
pub const MSR_FS_BASE: u32 = 0xC000_0100;
pub const MSR_GS_BASE: u32 = 0xC000_0101;
pub const MSR_KERNEL_GS_BASE: u32 = 0xC000_0102;

/// IA32_APIC_BASE as read: the default base 0xFEE00000, the global enable
/// (bit 11) and the bootstrap-processor flag (bit 8).
pub const APIC_BASE_VALUE: u64 = 0xFEE0_0900;
/// Offset from GS.base of the guest kernel's per-CPU copy of CR0.
pub const CR0_SHADOW_OFFSET: u64 = 0xffff_ffff_836e_e018;

/// Current privilege level: 0 in real mode, else the RPL of CS.
pub open spec fn cpl(sregs: SystemRegisters) -> u16 {
    if sregs.cr0 % 2 == 0 {
        0
    } else {
        sregs.cs.selector % 4
    }
}

/// An MSR that WRMSR stores and RDMSR reads back.
pub open spec fn stored_msr(ecx: u32) -> bool {
    ecx == MSR_EFER || ecx == MSR_STAR || ecx == MSR_LSTAR || ecx == MSR_CSTAR || ecx == MSR_FMASK
        || ecx == MSR_SYSENTER_CS || ecx == MSR_SYSENTER_ESP || ecx == MSR_SYSENTER_EIP || ecx
        == MSR_FS_BASE || ecx == MSR_GS_BASE || ecx == MSR_KERNEL_GS_BASE
}

/// The value RDMSR returns for MSR `ecx`.
pub open spec fn msr_read(sregs: SystemRegisters, tsc: u64, ecx: u32) -> u64 {
    if ecx == MSR_TSC {
        tsc
    } else if ecx == MSR_APIC_BASE {
        APIC_BASE_VALUE
    } else if ecx == MSR_EFER {
        sregs.efer
    } else if ecx == MSR_STAR {
        sregs.star
    } else if ecx == MSR_LSTAR {
        sregs.lstar
    } else if ecx == MSR_CSTAR {
        sregs.cstar
    } else if ecx == MSR_FMASK {
        sregs.fmask
    } else if ecx == MSR_SYSENTER_CS {
        sregs.sysenter_cs
    } else if ecx == MSR_SYSENTER_ESP {
        sregs.sysenter_esp
    } else if ecx == MSR_SYSENTER_EIP {
        sregs.sysenter_eip
    } else if ecx == MSR_FS_BASE {
        sregs.fs.base
    } else if ecx == MSR_GS_BASE {
        sregs.gs.base
    } else if ecx == MSR_KERNEL_GS_BASE {
        sregs.kernel_gs_base
    } else {
        0
    }
}

/// The system registers after WRMSR writes `value` to MSR `ecx`.
pub open spec fn msr_write(sregs: SystemRegisters, ecx: u32, value: u64) -> SystemRegisters {
    if ecx == MSR_EFER {
        SystemRegisters { efer: value, ..sregs }
    } else if ecx == MSR_STAR {
        SystemRegisters { star: value, ..sregs }
    } else if ecx == MSR_LSTAR {
        SystemRegisters { lstar: value, ..sregs }
    } else if ecx == MSR_CSTAR {
        SystemRegisters { cstar: value, ..sregs }
    } else if ecx == MSR_FMASK {
        SystemRegisters { fmask: value, ..sregs }
    } else if ecx == MSR_SYSENTER_CS {
        SystemRegisters { sysenter_cs: value, ..sregs }
    } else if ecx == MSR_SYSENTER_ESP {
        SystemRegisters { sysenter_esp: value, ..sregs }
    } else if ecx == MSR_SYSENTER_EIP {
        SystemRegisters { sysenter_eip: value, ..sregs }
    } else if ecx == MSR_FS_BASE {
        SystemRegisters { fs: Segment { base: value, ..sregs.fs }, ..sregs }
    } else if ecx == MSR_GS_BASE {
        SystemRegisters { gs: Segment { base: value, ..sregs.gs }, ..sregs }
    } else if ecx == MSR_KERNEL_GS_BASE {
        SystemRegisters { kernel_gs_base: value, ..sregs }
    } else {
        sregs
    }
}

/// EDX:EAX as one 64-bit value.
pub open spec fn edx_eax(regs: Registers) -> u64 {
    ((regs.rdx % 0x1_0000_0000) * 0x1_0000_0000 + regs.rax % 0x1_0000_0000) as u64
}

/// RDMSR: EDX:EAX = MSR[ECX] (upper halves of RAX and RDX cleared), or #GP
/// outside CPL 0. The cursor is past the second opcode byte.
pub open spec fn rdmsr_step(v: X86_64Vcpu, ctx: InsnContext) -> Step {
    let regs = v.regs;
    if cpl(v.sregs) != 0 {
        (regs, Err(EmuError::GeneralProtection(0)))
    } else {
        let value = msr_read(v.sregs, v.tsc, regs.rcx as u32);
        (
            adv(
                Registers {
                    rax: value % 0x1_0000_0000,
                    rdx: value / 0x1_0000_0000,
                    ..regs
                },
                regs.rip,
                ctx.cursor as int,
            ),
            Ok(None),
        )
    }
}

/// WRMSR: the registers afterwards and the result.
pub open spec fn wrmsr_step(v: X86_64Vcpu, ctx: InsnContext) -> Step {
    if cpl(v.sregs) != 0 {
        (v.regs, Err(EmuError::GeneralProtection(0)))
    } else {
        (adv(v.regs, v.regs.rip, ctx.cursor as int), Ok(None))
    }
}

/// WRMSR: the system registers afterwards; MSR[ECX] = EDX:EAX at CPL 0.
pub open spec fn wrmsr_sregs(v: X86_64Vcpu) -> SystemRegisters {
    if cpl(v.sregs) != 0 {
        v.sregs
    } else {
        msr_write(v.sregs, v.regs.rcx as u32, edx_eax(v.regs))
    }
}

/// WRMSR: memory afterwards. Setting GS.base to a non-zero value at CPL 0
/// refreshes the guest kernel's per-CPU copy of CR0 (it may have been copied
/// before the per-CPU area existed): CR0 is stored at GS.base plus
/// `CR0_SHADOW_OFFSET`, when those eight bytes lie in memory; a store that
/// does not fit is dropped.
pub open spec fn wrmsr_memory(v: X86_64Vcpu) -> Seq<u8> {
    let value = edx_eax(v.regs);
    let addr = value.wrapping_add(CR0_SHADOW_OFFSET);
    if cpl(v.sregs) == 0 && v.regs.rcx as u32 == MSR_GS_BASE && value != 0 && addr + 8
        <= v.memory().len() {
        store_le(v.memory(), addr as int, v.sregs.cr0 as nat, 8)
    } else {
        v.memory()
    }
}

/// A value WRMSR stores in an MSR is the value RDMSR then reads from it; the
/// other MSRs keep their values.
pub proof fn lemma_msr_read_back(sregs: SystemRegisters, tsc: u64, ecx: u32, value: u64, other: u32)
    requires
        stored_msr(ecx),
        other != ecx,
    ensures
        msr_read(msr_write(sregs, ecx, value), tsc, ecx) == value,
        msr_read(msr_write(sregs, ecx, value), tsc, other) == msr_read(sregs, tsc, other),
{
}

fn cpl_exec(sregs: &SystemRegisters) -> (r: u16)
    ensures
        r == cpl(*sregs),
{
    if sregs.cr0 % 2 == 0 {
        0
    } else {
        sregs.cs.selector % 4
    }
}

fn msr_read_exec(sregs: &SystemRegisters, tsc: u64, ecx: u32) -> (r: u64)
    ensures
        r == msr_read(*sregs, tsc, ecx),
{
    match ecx {
        MSR_TSC => tsc,
        MSR_APIC_BASE => APIC_BASE_VALUE,
        MSR_EFER => sregs.efer,
        MSR_STAR => sregs.star,
        MSR_LSTAR => sregs.lstar,
        MSR_CSTAR => sregs.cstar,
        MSR_FMASK => sregs.fmask,
        MSR_SYSENTER_CS => sregs.sysenter_cs,
        MSR_SYSENTER_ESP => sregs.sysenter_esp,
        MSR_SYSENTER_EIP => sregs.sysenter_eip,
        MSR_FS_BASE => sregs.fs.base,
        MSR_GS_BASE => sregs.gs.base,
        MSR_KERNEL_GS_BASE => sregs.kernel_gs_base,
        _ => 0,
    }
}

fn msr_write_exec(sregs: &mut SystemRegisters, ecx: u32, value: u64)
    ensures
        *final(sregs) == msr_write(*old(sregs), ecx, value),
{
    match ecx {
        MSR_EFER => sregs.efer = value,
        MSR_STAR => sregs.star = value,
        MSR_LSTAR => sregs.lstar = value,
        MSR_CSTAR => sregs.cstar = value,
        MSR_FMASK => sregs.fmask = value,
        MSR_SYSENTER_CS => sregs.sysenter_cs = value,
        MSR_SYSENTER_ESP => sregs.sysenter_esp = value,
        MSR_SYSENTER_EIP => sregs.sysenter_eip = value,
        MSR_FS_BASE => sregs.fs.base = value,
        MSR_GS_BASE => sregs.gs.base = value,
        MSR_KERNEL_GS_BASE => sregs.kernel_gs_base = value,
        _ => {},
    }
}

/// WRMSR (0F 30): MSR[ECX] = EDX:EAX.
pub fn wrmsr(vcpu: &mut X86_64Vcpu, ctx: &mut InsnContext) -> (r: Result<Option<VcpuExit>, EmuError>)
    ensures
        *final(ctx) == *old(ctx),
        final(vcpu).sregs == wrmsr_sregs(*old(vcpu)),
        final(vcpu).memory() == wrmsr_memory(*old(vcpu)),
        (final(vcpu).regs, r) == wrmsr_step(*old(vcpu), *old(ctx)),
{
    if cpl_exec(&vcpu.sregs) != 0 {
        return Err(EmuError::GeneralProtection(0));
    }
    let ecx = vcpu.regs.rcx as u32;
    let hi = vcpu.regs.rdx % 0x1_0000_0000;
    let lo = vcpu.regs.rax % 0x1_0000_0000;
    assert(hi * 0x1_0000_0000 + lo <= u64::MAX) by (nonlinear_arith)
        requires
            hi < 0x1_0000_0000,
            lo < 0x1_0000_0000,
    ;
    let value = hi * 0x1_0000_0000 + lo;
    msr_write_exec(&mut vcpu.sregs, ecx, value);
    if ecx == MSR_GS_BASE && value != 0 {
        let cr0 = vcpu.sregs.cr0;
        let _ = vcpu.write_mem(value.wrapping_add(CR0_SHADOW_OFFSET), cr0, 8);
    }
    vcpu.advance(ctx.cursor);
    Ok(None)
}

/// RDMSR (0F 32): EDX:EAX = MSR[ECX].
pub fn rdmsr(vcpu: &mut X86_64Vcpu, ctx: &mut InsnContext) -> (r: Result<Option<VcpuExit>, EmuError>)
    ensures
        *final(ctx) == *old(ctx),
        final(vcpu).sregs == old(vcpu).sregs,
        final(vcpu).memory() == old(vcpu).memory(),
        (final(vcpu).regs, r) == rdmsr_step(*old(vcpu), *old(ctx)),
{
    if cpl_exec(&vcpu.sregs) != 0 {
        return Err(EmuError::GeneralProtection(0));
    }
    let ecx = vcpu.regs.rcx as u32;
    let value = msr_read_exec(&vcpu.sregs, vcpu.tsc, ecx);
    vcpu.regs.rax = value % 0x1_0000_0000;
    vcpu.regs.rdx = value / 0x1_0000_0000;
    vcpu.advance(ctx.cursor);
    Ok(None)
}

} // verus!
