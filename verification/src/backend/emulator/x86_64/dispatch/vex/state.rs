//! Vector state instructions: VZEROUPPER/VZEROALL (VEX.0F 77) and
//! VLDMXCSR/VSTMXCSR (VEX.0F AE /2, /3). MXCSR is not modelled: a load only
//! checks that its operand is readable, a store writes the reset value.

use crate::backend::emulator::x86_64::cpu::{
    adv, modrm_result, store_le, with_vreg, EmuError, InsnContext, MemStep, X86_64Vcpu,
};
use crate::cpu::{Registers, VcpuExit};
use vstd::prelude::*;

verus! {

/// The MXCSR value VSTMXCSR stores: all exceptions masked, round to nearest.
pub const MXCSR_DEFAULT: u64 = 0x1F80;

/// Vector registers below `n` with their upper lane cleared, or all of
/// them when `all`.
pub open spec fn vzero_regs(regs: Registers, all: bool, n: nat) -> Registers
    decreases n,
{
    if n == 0 {
        regs
    } else {
        let r = vzero_regs(regs, all, (n - 1) as nat);
        let k = n - 1;
        with_vreg(
            r,
            k,
            seq![
                if all {
                    0u64
                } else {
                    r.xmm[k][0]
                },
                if all {
                    0u64
                } else {
                    r.xmm[k][1]
                },
                0u64,
                0u64,
            ],
        )
    }
}

/// VZEROUPPER (VEX.L = 0) or VZEROALL (VEX.L = 1).
pub open spec fn vzero_effect(regs: Registers, ctx: InsnContext, l: u8) -> Registers {
    adv(vzero_regs(regs, l != 0, 16), regs.rip, ctx.cursor as int)
}

/// VLDMXCSR m32 (/2) or VSTMXCSR m32 (/3).
pub open spec fn mxcsr_effect(v: X86_64Vcpu, ctx: InsnContext) -> MemStep {
    let regs = v.regs;
    let m = v.memory();
    match modrm_result(regs, v.sregs, ctx, 0) {
        Err(e) => (regs, m, Err(e)),
        Ok(d) => if !d.is_memory || (d.reg % 8 != 2 && d.reg % 8 != 3) {
            (regs, m, Err(EmuError::Unsupported(ctx.opcode)))
        } else if d.addr + 4 > m.len() {
            (regs, m, Err(EmuError::MemoryFault(d.addr)))
        } else {
            (
                adv(regs, regs.rip, ctx.cursor + d.len),
                if d.reg % 8 == 3 {
                    store_le(m, d.addr as int, MXCSR_DEFAULT as nat, 4)
                } else {
                    m
                },
                Ok(None),
            )
        },
    }
}

impl X86_64Vcpu {
    /// VZEROUPPER / VZEROALL.
    pub fn execute_vex_vzero(&mut self, ctx: &mut InsnContext, vex_l: u8) -> (r: Result<
        Option<VcpuExit>,
        EmuError,
    >)
        ensures
            final(self).sregs == old(self).sregs,
            final(self).memory() == old(self).memory(),
            final(self).regs == vzero_effect(old(self).regs, *old(ctx), vex_l),
            r == Ok::<Option<VcpuExit>, EmuError>(None),
    {
        let all = vex_l != 0;
        let mut i: u8 = 0;
        while i < 16
            invariant
                i <= 16,
                all == (vex_l != 0),
                self.regs == vzero_regs(old(self).regs, all, i as nat),
                self.regs.rip == old(self).regs.rip,
                self.sregs == old(self).sregs,
                self.memory() == old(self).memory(),
            decreases 16 - i,
        {
            let v = self.vreg(i);
            let q: [u64; 4] = if all {
                [0, 0, 0, 0]
            } else {
                [v[0], v[1], 0, 0]
            };
            assert(q@ =~= seq![
                if all {
                    0u64
                } else {
                    self.regs.xmm[i as int][0]
                },
                if all {
                    0u64
                } else {
                    self.regs.xmm[i as int][1]
                },
                0u64,
                0u64,
            ]);
            self.set_vreg(i, q);
            i += 1;
        }
        self.advance(ctx.cursor);
        Ok(None)
    }

    /// VLDMXCSR / VSTMXCSR.
    pub fn execute_vex_ldst_mxcsr(&mut self, ctx: &mut InsnContext) -> (r: Result<
        Option<VcpuExit>,
        EmuError,
    >)
        requires
            old(ctx).wf(),
        ensures
            final(self).sregs == old(self).sregs,
            (final(self).regs, final(self).memory(), r) == mxcsr_effect(*old(self), *old(ctx)),
    {
        let d = self.decode_modrm(ctx, 0)?;
        if !d.is_memory || (d.reg % 8 != 2 && d.reg % 8 != 3) {
            return Err(EmuError::Unsupported(ctx.opcode));
        }
        if d.reg % 8 == 2 {
            let _ = self.read_mem(d.addr, 4)?;
        } else {
            self.write_mem(d.addr, MXCSR_DEFAULT, 4)?;
        }
        self.advance(ctx.cursor);
        Ok(None)
    }
}

} // verus!
