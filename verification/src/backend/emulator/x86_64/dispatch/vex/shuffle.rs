//! VEX broadcasts: VPBROADCASTB/W/D/Q, VBROADCASTSS/SD, VBROADCASTI128 and
//! VBROADCASTF128.

use crate::backend::emulator::x86_64::cpu::{
    adv, le_bytes, modrm_result, qwords, vreg_of, with_vreg, EmuError, InsnContext, MemStep,
    X86_64Vcpu,
};
use crate::cpu::VcpuExit;
use vstd::prelude::*;

verus! {

/// A `size`-byte element repeated across a quadword.
pub open spec fn replicate(x: nat, size: nat) -> u64 {
    if size == 1 {
        (x * 0x0101_0101_0101_0101) as u64
    } else if size == 2 {
        (x * 0x0001_0001_0001_0001) as u64
    } else if size == 4 {
        (x * 0x0000_0001_0000_0001) as u64
    } else {
        x as u64
    }
}

/// An element broadcast to every lane of a 128-bit (`l == 0`, upper lane
/// cleared) or 256-bit vector.
pub open spec fn splat(q: u64, l: u8) -> Seq<u64> {
    if l == 1 {
        seq![q, q, q, q]
    } else {
        seq![q, q, 0u64, 0u64]
    }
}

/// Broadcast of a `size`-byte element from memory or from the low element
/// of a register. With `check_vvvv`, VEX.vvvv must be 1111b.
pub open spec fn broadcast_effect(
    v: X86_64Vcpu,
    ctx: InsnContext,
    l: u8,
    size: nat,
    check_vvvv: bool,
    vvvv: u8,
) -> MemStep {
    let regs = v.regs;
    let m = v.memory();
    if check_vvvv && vvvv != 0 {
        (regs, m, Err(EmuError::Unsupported(ctx.opcode)))
    } else {
        match modrm_result(regs, v.sregs, ctx, 0) {
            Err(e) => (regs, m, Err(e)),
            Ok(d) => {
                let done = |x: nat|
                    (
                        adv(
                            with_vreg(regs, d.reg as int, splat(replicate(x, size), l)),
                            regs.rip,
                            ctx.cursor + d.len,
                        ),
                        m,
                        Ok::<Option<VcpuExit>, EmuError>(None),
                    );
                if d.is_memory {
                    if d.addr + size > m.len() {
                        (regs, m, Err(EmuError::MemoryFault(d.addr)))
                    } else {
                        done(le_bytes(m, d.addr as int, size))
                    }
                } else {
                    let low = regs.xmm[d.rm as int][0];
                    done(
                        if size == 8 {
                            low as nat
                        } else if size == 4 {
                            (low % 0x1_0000_0000) as nat
                        } else if size == 2 {
                            (low % 0x1_0000) as nat
                        } else {
                            (low % 0x100) as nat
                        },
                    )
                }
            },
        }
    }
}

/// VBROADCASTI128 / VBROADCASTF128: 16 bytes of memory into both lanes of a
/// 256-bit register; VEX.vvvv must be 1111b, VEX.L 1, and the source memory.
pub open spec fn broadcast_128_effect(v: X86_64Vcpu, ctx: InsnContext, l: u8, vvvv: u8) -> MemStep {
    let regs = v.regs;
    let m = v.memory();
    if vvvv != 0 || l == 0 {
        (regs, m, Err(EmuError::Unsupported(ctx.opcode)))
    } else {
        match modrm_result(regs, v.sregs, ctx, 0) {
            Err(e) => (regs, m, Err(e)),
            Ok(d) => if !d.is_memory {
                (regs, m, Err(EmuError::Unsupported(ctx.opcode)))
            } else if d.addr + 16 > m.len() {
                (regs, m, Err(EmuError::MemoryFault(d.addr)))
            } else {
                let q = qwords(m, d.addr as int, 2);
                (
                    adv(with_vreg(regs, d.reg as int, seq![q[0], q[1], q[0], q[1]]), regs.rip, ctx.cursor + d.len),
                    m,
                    Ok(None),
                )
            },
        }
    }
}

fn replicate_exec(x: u64, size: u8) -> (r: u64)
    requires
        size == 1 || size == 2 || size == 4 || size == 8,
        size == 1 ==> x < 0x100,
        size == 2 ==> x < 0x1_0000,
        size == 4 ==> x < 0x1_0000_0000,
    ensures
        r == replicate(x as nat, size as nat),
{
    if size == 1 {
        x * 0x0101_0101_0101_0101
    } else if size == 2 {
        x * 0x0001_0001_0001_0001
    } else if size == 4 {
        x * 0x0000_0001_0000_0001
    } else {
        x
    }
}

impl X86_64Vcpu {
    /// Shared body of the element broadcasts.
    fn broadcast_elem(&mut self, ctx: &mut InsnContext, vex_l: u8, size: u8) -> (r: Result<
        Option<VcpuExit>,
        EmuError,
    >)
        requires
            old(ctx).wf(),
            size == 1 || size == 2 || size == 4 || size == 8,
        ensures
            final(self).sregs == old(self).sregs,
            (final(self).regs, final(self).memory(), r) == broadcast_effect(
                *old(self),
                *old(ctx),
                vex_l,
                size as nat,
                false,
                0,
            ),
    {
        let d = self.decode_modrm(ctx, 0)?;
        let x: u64 = if d.is_memory {
            let v = self.read_mem(d.addr, size)?;
            proof {
                reveal_with_fuel(le_bytes, 9);
            }
            v
        } else {
            let low = self.regs.xmm[d.rm as usize][0];
            if size == 8 {
                low
            } else if size == 4 {
                low % 0x1_0000_0000
            } else if size == 2 {
                low % 0x1_0000
            } else {
                low % 0x100
            }
        };
        let q = replicate_exec(x, size);
        let out: [u64; 4] = if vex_l == 1 {
            [q, q, q, q]
        } else {
            [q, q, 0, 0]
        };
        assert(out@ =~= splat(q, vex_l));
        self.set_vreg(d.reg, out);
        self.advance(ctx.cursor);
        Ok(None)
    }

    /// VPBROADCASTB/W/D/Q (VEX.66.0F38 78/79/58/59): the low element of a
    /// register or an element of memory into every element.
    pub fn execute_vex_broadcast(&mut self, ctx: &mut InsnContext, vex_l: u8, opcode: u8) -> (r:
        Result<Option<VcpuExit>, EmuError>)
        requires
            old(ctx).wf(),
            opcode == 0x78 || opcode == 0x79 || opcode == 0x58 || opcode == 0x59,
        ensures
            final(self).sregs == old(self).sregs,
            (final(self).regs, final(self).memory(), r) == broadcast_effect(
                *old(self),
                *old(ctx),
                vex_l,
                if opcode == 0x78 {
                    1
                } else if opcode == 0x79 {
                    2
                } else if opcode == 0x58 {
                    4
                } else {
                    8
                },
                false,
                0,
            ),
    {
        let size: u8 = match opcode {
            0x78 => 1,
            0x79 => 2,
            0x58 => 4,
            _ => 8,
        };
        self.broadcast_elem(ctx, vex_l, size)
    }

    /// VBROADCASTSS / VBROADCASTSD (VEX.66.0F38 18/19): a 32- or 64-bit
    /// element, bit for bit; VEX.vvvv must be 1111b.
    pub fn execute_vex_broadcast_fp(
        &mut self,
        ctx: &mut InsnContext,
        vex_l: u8,
        vvvv: u8,
        opcode: u8,
    ) -> (r: Result<Option<VcpuExit>, EmuError>)
        requires
            old(ctx).wf(),
        ensures
            final(self).sregs == old(self).sregs,
            (final(self).regs, final(self).memory(), r) == broadcast_effect(
                *old(self),
                *old(ctx),
                vex_l,
                if opcode == 0x18 {
                    4
                } else {
                    8
                },
                true,
                vvvv,
            ),
    {
        if vvvv != 0 {
            return Err(EmuError::Unsupported(ctx.opcode));
        }
        let size: u8 = if opcode == 0x18 {
            4
        } else {
            8
        };
        self.broadcast_elem(ctx, vex_l, size)
    }

    /// VBROADCASTI128 / VBROADCASTF128 (VEX.256.66.0F38 5A/1A).
    pub fn execute_vex_broadcast_128(&mut self, ctx: &mut InsnContext, vex_l: u8, vvvv: u8) -> (r:
        Result<Option<VcpuExit>, EmuError>)
        requires
            old(ctx).wf(),
        ensures
            final(self).sregs == old(self).sregs,
            (final(self).regs, final(self).memory(), r) == broadcast_128_effect(
                *old(self),
                *old(ctx),
                vex_l,
                vvvv,
            ),
    {
        if vvvv != 0 || vex_l == 0 {
            return Err(EmuError::Unsupported(ctx.opcode));
        }
        let d = self.decode_modrm(ctx, 0)?;
        if !d.is_memory {
            return Err(EmuError::Unsupported(ctx.opcode));
        }
        let q = self.read_qwords(d.addr, 2)?;
        let out = [q[0], q[1], q[0], q[1]];
        self.set_vreg(d.reg, out);
        self.advance(ctx.cursor);
        Ok(None)
    }
}

} // verus!
