//! Instruction fetch, prefix decoding and dispatch.

pub mod vex;

use crate::backend::emulator::x86_64::cpu::{
    branch_op_size, code_linear, incomplete, rex_bit, EmuError, InsnContext, MemStep, Step,
    X86_64Vcpu, MAX_INSN_LEN,
};
use crate::backend::emulator::x86_64::dispatch::vex::horizontal::{
    hpair_effect, mpsadbw_effect, pair_lane_op, phminposuw_effect,
};
use crate::backend::emulator::x86_64::dispatch::vex::integer::{
    is_packed_int_op, packed_arith_effect, packed_int_opcode, pshufb_effect,
};
use crate::backend::emulator::x86_64::dispatch::vex::misc::{masked_move_effect, pmovmskb_effect};
use crate::backend::emulator::x86_64::dispatch::vex::shuffle::{
    broadcast_128_effect, broadcast_effect,
};
use crate::backend::emulator::x86_64::dispatch::vex::kmask::{
    is_kmask_insn, kmask_effect, kmask_insn_opcode,
};
use crate::backend::emulator::x86_64::dispatch::vex::state::{mxcsr_effect, vzero_effect};
use crate::backend::emulator::x86_64::dispatch::vex::{
    decode_vex, movmsk_step, rex_of, vex2, vex3, vex_rex, VexPrefix,
};
use crate::backend::emulator::x86_64::insn::simd::avx::{
    vec_load_effect, vec_store_effect, vlddqu_effect, vlddqu_load, vmovd_load, vmovd_load_effect,
    vmovd_store, vmovd_store_effect, vmovdqa_load, vmovdqa_store, vmovdqu_load, vmovdqu_store,
    vmovq_load, vmovq_load_effect, vmovq_store, vmovq_store_effect,
};
use crate::backend::emulator::x86_64::flags::cc_holds;
use crate::backend::emulator::x86_64::insn::arith::{acc8_imm, acc8_step};
use crate::backend::emulator::x86_64::insn::bcd::{
    ascii_adjust, ascii_adjust_step, decimal_adjust, decimal_adjust_step,
};
use crate::backend::emulator::x86_64::insn::control::jump::{
    jcc_rel32, jcc_rel8, jmp_rel32, jmp_rel8, rel_jump_step, rel_width,
};
use crate::backend::emulator::x86_64::insn::mov::{
    mov_r8_imm8, mov_r8_step, mov_r_imm, mov_r_step, mov_rm_imm, mov_rm_step,
};
use crate::backend::emulator::x86_64::insn::io::string::{
    ins_step, insb, insw, outs_step, outsb, outsw,
};
use crate::backend::emulator::x86_64::insn::string::movs::{movs, movs_effect, movsb};
use crate::backend::emulator::x86_64::insn::system::msr::{
    rdmsr, rdmsr_step, wrmsr, wrmsr_memory, wrmsr_sregs, wrmsr_step,
};
use crate::cpu::{Registers, SystemRegisters, VcpuExit};
use vstd::prelude::*;

verus! {

/// A legacy prefix: operand size, address size, LOCK, REP/REPNE, segment.
pub open spec fn is_legacy_prefix(b: u8) -> bool {
    b == 0x66 || b == 0x67 || b == 0xF0 || b == 0xF2 || b == 0xF3 || b == 0x2E || b == 0x36 || b
        == 0x3E || b == 0x26 || b == 0x64 || b == 0x65
}

/// A segment-override prefix: ES, CS, SS, DS, FS, GS.
pub open spec fn is_segment_prefix(b: u8) -> bool {
    b == 0x26 || b == 0x2E || b == 0x36 || b == 0x3E || b == 0x64 || b == 0x65
}

/// The context after the legacy prefixes at the cursor, with the operand-
/// and address-size overrides, REP and segment override they set.
pub open spec fn scan_prefixes(ctx: InsnContext) -> InsnContext
    decreases ctx.bytes_len - ctx.cursor,
{
    if ctx.cursor < ctx.bytes_len && is_legacy_prefix(ctx.bytes[ctx.cursor as int]) {
        let b = ctx.bytes[ctx.cursor as int];
        scan_prefixes(
            InsnContext {
                cursor: (ctx.cursor + 1) as usize,
                operand_size_override: ctx.operand_size_override || b == 0x66,
                address_size_override: ctx.address_size_override || b == 0x67,
                rep_prefix: if b == 0xF2 || b == 0xF3 {
                    Some(b)
                } else {
                    ctx.rep_prefix
                },
                segment_override: if is_segment_prefix(b) {
                    Some(b)
                } else {
                    ctx.segment_override
                },
                ..ctx
            },
        )
    } else {
        ctx
    }
}

/// In 64-bit mode, a REX byte (0x40..0x4F) at the cursor is taken.
pub open spec fn take_rex(ctx: InsnContext, long: bool) -> InsnContext {
    if long && ctx.has(1) && 0x40 <= ctx.bytes[ctx.cursor as int] <= 0x4F {
        InsnContext {
            rex: Some(ctx.bytes[ctx.cursor as int]),
            cursor: (ctx.cursor + 1) as usize,
            ..ctx
        }
    } else {
        ctx
    }
}

/// Operand size: in 64-bit mode 8 with REX.W, else 2 with 0x66, else 4;
/// outside it CS.D toggled by 0x66.
pub open spec fn op_size_of(long: bool, db: bool, ctx: InsnContext) -> u8 {
    if long {
        if rex_bit(ctx.rex, 8) {
            8
        } else if ctx.operand_size_override {
            2
        } else {
            4
        }
    } else if db != ctx.operand_size_override {
        4
    } else {
        2
    }
}

/// The context after prefixes, REX and the opcode byte, or `None` where
/// the opcode byte is missing.
pub open spec fn decoded(vcpu: X86_64Vcpu, raw: InsnContext) -> Option<InsnContext> {
    let long = vcpu.sregs.cs.l;
    let q = take_rex(scan_prefixes(raw), long);
    if !q.has(1) {
        None
    } else {
        Some(
            InsnContext {
                opcode: q.bytes[q.cursor as int],
                op_size: op_size_of(long, vcpu.sregs.cs.db, q),
                cursor: (q.cursor + 1) as usize,
                ..q
            },
        )
    }
}

/// What the instruction whose raw bytes are `raw` does on `vcpu`: the
/// registers and memory afterwards and the result.
pub open spec fn insn_effect(vcpu: X86_64Vcpu, raw: InsnContext) -> MemStep {
    match decoded(vcpu, raw) {
        None => (vcpu.regs, vcpu.memory(), Err(EmuError::Incomplete)),
        Some(ctx) => if ctx.opcode == 0xC4 || ctx.opcode == 0xC5 {
            vex_effect(vcpu, ctx)
        } else if ctx.opcode == 0xA4 {
            movs_effect(vcpu, ctx, 1)
        } else if ctx.opcode == 0xA5 {
            movs_effect(vcpu, ctx, ctx.op_size)
        } else {
            let s = opcode_step(vcpu, ctx);
            (s.0, if ctx.opcode == 0x0F {
                two_byte_memory(vcpu, ctx)
            } else {
                vcpu.memory()
            }, s.1)
        },
    }
}

/// One-byte opcode `ctx.opcode`, the cursor past it.
pub open spec fn opcode_step(vcpu: X86_64Vcpu, ctx: InsnContext) -> Step {
    let regs = vcpu.regs;
    let sregs = vcpu.sregs;
    let long = sregs.cs.l;
    let op = ctx.opcode;
    let next = Registers { rip: regs.rip.wrapping_add(ctx.cursor as u64), ..regs };
    if op == 0xF4 {
        (next, Ok(Some(VcpuExit::Hlt)))
    } else if op == 0x90 {
        (next, Ok(None))
    } else if op == 0x04 || op == 0x2C {
        acc8_step(regs, ctx, op == 0x2C)
    } else if 0xB0 <= op <= 0xB7 {
        mov_r8_step(regs, ctx)
    } else if 0xB8 <= op <= 0xBF {
        mov_r_step(regs, ctx)
    } else if op == 0xC7 {
        mov_rm_step(regs, ctx)
    } else if op == 0x27 || op == 0x2F {
        decimal_adjust_step(regs, long, ctx, op == 0x2F)
    } else if op == 0x37 || op == 0x3F {
        ascii_adjust_step(regs, long, ctx, op == 0x3F)
    } else if op == 0xEB {
        rel_jump_step(regs, sregs, ctx, 1, true)
    } else if op == 0xE9 {
        rel_jump_step(
            regs,
            sregs,
            ctx,
            rel_width(branch_op_size(sregs, ctx.operand_size_override)),
            true,
        )
    } else if 0x70 <= op <= 0x7F {
        rel_jump_step(regs, sregs, ctx, 1, cc_holds(regs.rflags, (op - 0x70) as u8))
    } else if op == 0x6C {
        ins_step(vcpu, ctx, 1)
    } else if op == 0x6D {
        ins_step(
            vcpu,
            ctx,
            if ctx.op_size == 2 {
                2
            } else {
                4
            },
        )
    } else if op == 0x6E {
        outs_step(vcpu, ctx, 1)
    } else if op == 0x6F {
        outs_step(
            vcpu,
            ctx,
            if ctx.operand_size_override {
                2
            } else {
                4
            },
        )
    } else if op == 0x0F {
        two_byte_step(vcpu, ctx)
    } else {
        (regs, Err(EmuError::Unsupported(op)))
    }
}

/// 0x0F-escaped opcodes: Jcc rel16/32, WRMSR, RDMSR.
pub open spec fn two_byte_step(vcpu: X86_64Vcpu, ctx: InsnContext) -> Step {
    let regs = vcpu.regs;
    if !ctx.has(1) {
        incomplete(regs)
    } else {
        let op2 = ctx.bytes[ctx.cursor as int];
        let c2 = InsnContext { opcode: op2, cursor: (ctx.cursor + 1) as usize, ..ctx };
        if 0x80 <= op2 <= 0x8F {
            rel_jump_step(
                regs,
                vcpu.sregs,
                c2,
                rel_width(branch_op_size(vcpu.sregs, ctx.operand_size_override)),
                cc_holds(regs.rflags, (op2 - 0x80) as u8),
            )
        } else if op2 == 0x30 {
            wrmsr_step(vcpu, c2)
        } else if op2 == 0x32 {
            rdmsr_step(vcpu, c2)
        } else {
            (regs, Err(EmuError::Unsupported(op2)))
        }
    }
}

/// Memory after a 0x0F-escaped opcode: only WRMSR changes it.
pub open spec fn two_byte_memory(vcpu: X86_64Vcpu, ctx: InsnContext) -> Seq<u8> {
    if ctx.has(1) && ctx.bytes[ctx.cursor as int] == 0x30 {
        wrmsr_memory(vcpu)
    } else {
        vcpu.memory()
    }
}

/// The system registers after a 0x0F-escaped opcode: only WRMSR changes
/// them.
pub open spec fn two_byte_sregs(vcpu: X86_64Vcpu, ctx: InsnContext) -> SystemRegisters {
    if ctx.has(1) && ctx.bytes[ctx.cursor as int] == 0x30 {
        wrmsr_sregs(vcpu)
    } else {
        vcpu.sregs
    }
}

/// The system registers after the instruction whose raw bytes are `raw`.
pub open spec fn insn_sregs(vcpu: X86_64Vcpu, raw: InsnContext) -> SystemRegisters {
    match decoded(vcpu, raw) {
        Some(ctx) => if ctx.opcode == 0x0F {
            two_byte_sregs(vcpu, ctx)
        } else {
            vcpu.sregs
        },
        None => vcpu.sregs,
    }
}

/// VEX-encoded instructions (0xC4/0xC5). Outside 64-bit mode these bytes
/// are LES/LDS unless the next byte has both top bits set; LES/LDS are not
/// implemented.
pub open spec fn vex_effect(vcpu: X86_64Vcpu, ctx: InsnContext) -> MemStep {
    let regs = vcpu.regs;
    let m = vcpu.memory();
    let op = ctx.opcode;
    let c = ctx.cursor as int;
    let n: int = if op == 0xC5 {
        1
    } else {
        2
    };
    if !vcpu.sregs.cs.l && (!ctx.has(1) || ctx.bytes[c] < 0xC0) {
        (regs, m, Err(EmuError::Unsupported(op)))
    } else if !ctx.has(n + 1) {
        (regs, m, Err(EmuError::Incomplete))
    } else {
        let v = if op == 0xC5 {
            vex2(ctx.bytes[c])
        } else {
            vex3(ctx.bytes[c], ctx.bytes[c + 1])
        };
        let op2 = ctx.bytes[c + n];
        let c2 = InsnContext {
            rex: Some(vex_rex(v)),
            opcode: op2,
            cursor: (c + n + 1) as usize,
            ..ctx
        };
        vex_op_effect(vcpu, c2, v)
    }
}

/// A VEX-encoded opcode `ctx.opcode` with prefix `v`, the cursor at ModRM.
pub open spec fn vex_op_effect(vcpu: X86_64Vcpu, ctx: InsnContext, v: VexPrefix) -> MemStep {
    let regs = vcpu.regs;
    let m = vcpu.memory();
    let op = ctx.opcode;
    let l: u8 = if v.l {
        1
    } else {
        0
    };
    let w: u8 = if v.w {
        1
    } else {
        0
    };
    if v.map == 2 && v.pp == 1 && (op == 0x8C || op == 0x8E) {
        masked_move_effect(
            vcpu,
            ctx,
            l,
            if w == 0 {
                4
            } else {
                8
            },
            v.vvvv,
            op == 0x8C,
            true,
        )
    } else if v.map == 2 && v.pp == 1 && 0x2C <= op <= 0x2F {
        masked_move_effect(
            vcpu,
            ctx,
            l,
            if op == 0x2C || op == 0x2E {
                4
            } else {
                8
            },
            v.vvvv,
            op == 0x2C || op == 0x2D,
            false,
        )
    } else if v.map == 2 && v.pp == 1 && op == 0x00 {
        pshufb_effect(vcpu, ctx, l, v.vvvv)
    } else if v.map == 2 && v.pp == 1 && (op == 0x78 || op == 0x79 || op == 0x58 || op == 0x59) {
        broadcast_effect(
            vcpu,
            ctx,
            l,
            if op == 0x78 {
                1
            } else if op == 0x79 {
                2
            } else if op == 0x58 {
                4
            } else {
                8
            },
            false,
            0,
        )
    } else if v.map == 2 && v.pp == 1 && (op == 0x18 || op == 0x19) {
        broadcast_effect(
            vcpu,
            ctx,
            l,
            if op == 0x18 {
                4
            } else {
                8
            },
            true,
            v.vvvv,
        )
    } else if v.map == 2 && v.pp == 1 && (op == 0x5A || op == 0x1A) {
        broadcast_128_effect(vcpu, ctx, l, v.vvvv)
    } else if v.map == 2 && v.pp == 1 && (op == 0x01 || op == 0x02 || op == 0x03 || op == 0x05 || op
        == 0x06 || op == 0x07) {
        hpair_effect(
            vcpu,
            ctx,
            l,
            v.vvvv,
            pair_lane_op(op >= 0x05, op == 0x03 || op == 0x07, op != 0x02 && op != 0x06),
        )
    } else if v.map == 2 && v.pp == 1 && (op == 0x04 || op == 0x08 || op == 0x09 || op == 0x0A || op
        == 0x0B) {
        packed_arith_effect(vcpu, ctx, l, v.vvvv, op)
    } else if v.map == 2 && v.pp == 1 && op == 0x41 {
        phminposuw_effect(vcpu, ctx, l, v.vvvv)
    } else if v.map == 3 && v.pp == 1 && op == 0x42 {
        mpsadbw_effect(vcpu, ctx, l, v.vvvv)
    } else if is_kmask_insn(v, op) {
        kmask_effect(vcpu, ctx, v)
    } else if v.map != 1 {
        (regs, m, Err(EmuError::Unsupported(op)))
    } else if op == 0x77 && v.pp == 0 {
        (vzero_effect(regs, ctx, l), m, Ok(None))
    } else if op == 0xAE && v.pp == 0 {
        mxcsr_effect(vcpu, ctx)
    } else if op == 0xD7 && v.pp == 1 {
        pmovmskb_effect(vcpu, ctx, l, v.vvvv)
    } else if v.pp == 1 && is_packed_int_op(op) {
        packed_arith_effect(vcpu, ctx, l, v.vvvv, op)
    } else if op == 0x50 && v.pp <= 1 {
        let s = movmsk_step(regs, ctx, v.pp, v.l);
        (s.0, m, s.1)
    } else if op == 0x6F && v.pp == 1 {
        vec_load_effect(vcpu, ctx, l)
    } else if op == 0x6F && v.pp == 2 {
        vec_load_effect(vcpu, ctx, l)
    } else if op == 0x7F && (v.pp == 1 || v.pp == 2) {
        vec_store_effect(vcpu, ctx, l)
    } else if op == 0xF0 && v.pp == 3 {
        vlddqu_effect(vcpu, ctx, l, v.vvvv)
    } else if op == 0x6E && v.pp == 1 {
        vmovd_load_effect(vcpu, ctx, w)
    } else if op == 0x7E && v.pp == 1 {
        vmovd_store_effect(vcpu, ctx, w)
    } else if op == 0x7E && v.pp == 2 {
        vmovq_load_effect(vcpu, ctx)
    } else if op == 0xD6 && v.pp == 1 {
        vmovq_store_effect(vcpu, ctx)
    } else {
        (regs, m, Err(EmuError::Unsupported(op)))
    }
}

/// One step of `step` from `v` to `w` with result `r`: a fetch fault at
/// CS:RIP past memory changes nothing; otherwise the up to 15 bytes there
/// are executed as `insn_effect` and `insn_sregs` say.
pub open spec fn step_effect(v: X86_64Vcpu, w: X86_64Vcpu, r: Result<Option<VcpuExit>, EmuError>) -> bool {
    let lin = code_linear(v.regs, v.sregs);
    &&& w.sregs.cs == v.sregs.cs
    &&& lin >= v.memory().len() ==> r == Err::<Option<VcpuExit>, EmuError>(
        EmuError::MemoryFault(lin as u64),
    ) && w.regs == v.regs && w.memory() == v.memory() && w.sregs == v.sregs
    &&& lin < v.memory().len() ==> exists|raw: InsnContext|
        {
            let avail = v.memory().len() - lin;
            &&& #[trigger] raw_insn(raw)
            &&& raw.bytes_len == if avail < MAX_INSN_LEN {
                avail
            } else {
                MAX_INSN_LEN as int
            }
            &&& forall|i: int|
                0 <= i < raw.bytes_len ==> #[trigger] raw.bytes[i] == v.memory()[lin + i]
            &&& (w.regs, w.memory(), r) == insn_effect(v, raw)
            &&& w.sregs == insn_sregs(v, raw)
        }
}

/// `n` steps from `v` to `w`, each returning `Ok(None)`.
pub open spec fn quiet_steps(v: X86_64Vcpu, w: X86_64Vcpu, n: nat) -> bool
    decreases n,
{
    if n == 0 {
        v == w
    } else {
        exists|m: X86_64Vcpu|
            quiet_steps(v, m, (n - 1) as nat) && #[trigger] step_effect(
                m,
                w,
                Ok::<Option<VcpuExit>, EmuError>(None),
            )
    }
}

/// Raw instruction bytes as `fetch` hands them over.
pub open spec fn raw_insn(ctx: InsnContext) -> bool {
    &&& ctx.wf()
    &&& ctx.cursor == 0
    &&& ctx.rex is None
    &&& !ctx.operand_size_override
    &&& !ctx.address_size_override
    &&& ctx.rep_prefix is None
    &&& ctx.segment_override is None
}

impl X86_64Vcpu {
    fn execute_two_byte(&mut self, ctx: &mut InsnContext) -> (r: Result<Option<VcpuExit>, EmuError>)
        requires
            old(ctx).wf(),
        ensures
            final(self).sregs == two_byte_sregs(*old(self), *old(ctx)),
            final(self).memory() == two_byte_memory(*old(self), *old(ctx)),
            (final(self).regs, r) == two_byte_step(*old(self), *old(ctx)),
    {
        let op2 = ctx.consume_u8()?;
        ctx.opcode = op2;
        if 0x80 <= op2 && op2 <= 0x8F {
            jcc_rel32(self, ctx, op2 - 0x80)
        } else if op2 == 0x30 {
            wrmsr(self, ctx)
        } else if op2 == 0x32 {
            rdmsr(self, ctx)
        } else {
            Err(EmuError::Unsupported(op2))
        }
    }

    fn execute_vex(&mut self, ctx: &mut InsnContext) -> (r: Result<Option<VcpuExit>, EmuError>)
        requires
            old(ctx).wf(),
            old(ctx).opcode == 0xC4 || old(ctx).opcode == 0xC5,
        ensures
            final(self).sregs == old(self).sregs,
            (final(self).regs, final(self).memory(), r) == vex_effect(*old(self), *old(ctx)),
    {
        let op = ctx.opcode;
        if !self.in_64bit_mode() && (ctx.cursor >= ctx.bytes_len || ctx.bytes[ctx.cursor] < 0xC0) {
            return Err(EmuError::Unsupported(op));
        }
        let n: usize = if op == 0xC5 {
            1
        } else {
            2
        };
        if ctx.cursor + n + 1 > ctx.bytes_len {
            return Err(EmuError::Incomplete);
        }
        let v = decode_vex(ctx, op == 0xC5)?;
        let op2 = ctx.consume_u8()?;
        ctx.rex = Some(rex_of(&v));
        ctx.opcode = op2;
        self.execute_vex_op(ctx, &v)
    }

    fn execute_vex_op(&mut self, ctx: &mut InsnContext, v: &VexPrefix) -> (r: Result<
        Option<VcpuExit>,
        EmuError,
    >)
        requires
            old(ctx).wf(),
            v.vvvv < 16,
        ensures
            final(self).sregs == old(self).sregs,
            (final(self).regs, final(self).memory(), r) == vex_op_effect(*old(self), *old(ctx), *v),
    {
        let op = ctx.opcode;
        let l: u8 = if v.l {
            1
        } else {
            0
        };
        let w: u8 = if v.w {
            1
        } else {
            0
        };
        if v.map == 2 && v.pp == 1 && (op == 0x8C || op == 0x8E) {
            return self.execute_vex_pmaskmov(ctx, l, w, v.vvvv, op);
        }
        if v.map == 2 && v.pp == 1 && 0x2C <= op && op <= 0x2F {
            return self.execute_vex_maskmov_fp(ctx, l, v.vvvv, op);
        }
        if v.map == 2 && v.pp == 1 && op == 0x00 {
            return self.execute_vex_pshufb(ctx, l, v.vvvv);
        }
        if v.map == 2 && v.pp == 1 && (op == 0x78 || op == 0x79 || op == 0x58 || op == 0x59) {
            return self.execute_vex_broadcast(ctx, l, op);
        }
        if v.map == 2 && v.pp == 1 && (op == 0x18 || op == 0x19) {
            return self.execute_vex_broadcast_fp(ctx, l, v.vvvv, op);
        }
        if v.map == 2 && v.pp == 1 && (op == 0x5A || op == 0x1A) {
            return self.execute_vex_broadcast_128(ctx, l, v.vvvv);
        }
        if v.map == 2 && v.pp == 1 && (op == 0x01 || op == 0x02 || op == 0x03) {
            return self.execute_vex_phadd(ctx, l, v.vvvv, if op == 0x02 { 32 } else { 16 }, op == 0x03);
        }
        if v.map == 2 && v.pp == 1 && (op == 0x05 || op == 0x06 || op == 0x07) {
            return self.execute_vex_phsub(ctx, l, v.vvvv, if op == 0x06 { 32 } else { 16 }, op == 0x07);
        }
        if v.map == 2 && v.pp == 1 && op == 0x04 {
            return self.execute_vex_pmaddubsw(ctx, l, v.vvvv);
        }
        if v.map == 2 && v.pp == 1 && (op == 0x08 || op == 0x09 || op == 0x0A) {
            return self.execute_vex_psign(ctx, l, v.vvvv, op);
        }
        if v.map == 2 && v.pp == 1 && op == 0x0B {
            return self.execute_vex_pmulhrsw(ctx, l, v.vvvv);
        }
        if v.map == 2 && v.pp == 1 && op == 0x41 {
            return self.execute_vex_phminposuw(ctx, l, v.vvvv);
        }
        if v.map == 3 && v.pp == 1 && op == 0x42 {
            return self.execute_vex_mpsadbw(ctx, l, v.vvvv);
        }
        if kmask_insn_opcode(v, op) {
            return self.execute_kmask_insn(ctx, v);
        }
        if v.map != 1 {
            return Err(EmuError::Unsupported(op));
        }
        if op == 0x77 && v.pp == 0 {
            return self.execute_vex_vzero(ctx, l);
        }
        if op == 0xAE && v.pp == 0 {
            return self.execute_vex_ldst_mxcsr(ctx);
        }
        if op == 0xD7 && v.pp == 1 {
            return self.execute_vex_pmovmskb(ctx, l, v.vvvv);
        }
        if v.pp == 1 && packed_int_opcode(op) {
            return self.execute_vex_packed_int_arith(ctx, l, v.vvvv, op);
        }
        if op == 0x50 && v.pp <= 1 {
            self.execute_vex_movmskp(ctx, v.pp, v.l)
        } else if op == 0x6F && v.pp == 1 {
            vmovdqa_load(self, ctx, l)
        } else if op == 0x6F && v.pp == 2 {
            vmovdqu_load(self, ctx, l)
        } else if op == 0x7F && v.pp == 1 {
            vmovdqa_store(self, ctx, l)
        } else if op == 0x7F && v.pp == 2 {
            vmovdqu_store(self, ctx, l)
        } else if op == 0xF0 && v.pp == 3 {
            vlddqu_load(self, ctx, l, v.vvvv)
        } else if op == 0x6E && v.pp == 1 {
            vmovd_load(self, ctx, w)
        } else if op == 0x7E && v.pp == 1 {
            vmovd_store(self, ctx, w)
        } else if op == 0x7E && v.pp == 2 {
            vmovq_load(self, ctx)
        } else if op == 0xD6 && v.pp == 1 {
            vmovq_store(self, ctx)
        } else {
            Err(EmuError::Unsupported(op))
        }
    }

    /// Execute the instruction whose raw bytes `raw` holds.
    pub fn execute(&mut self, raw: InsnContext) -> (r: Result<Option<VcpuExit>, EmuError>)
        requires
            raw_insn(raw),
        ensures
            final(self).sregs == insn_sregs(*old(self), raw),
            (final(self).regs, final(self).memory(), r) == insn_effect(*old(self), raw),
    {
        let mut ctx = raw;
        while ctx.cursor < ctx.bytes_len && (ctx.bytes[ctx.cursor] == 0x66 || ctx.bytes[ctx.cursor]
            == 0x67 || ctx.bytes[ctx.cursor] == 0xF0 || ctx.bytes[ctx.cursor] == 0xF2
            || ctx.bytes[ctx.cursor] == 0xF3 || ctx.bytes[ctx.cursor] == 0x2E || ctx.bytes[ctx.cursor]
            == 0x36 || ctx.bytes[ctx.cursor] == 0x3E || ctx.bytes[ctx.cursor] == 0x26
            || ctx.bytes[ctx.cursor] == 0x64 || ctx.bytes[ctx.cursor] == 0x65)
            invariant
                ctx.wf(),
                scan_prefixes(ctx) == scan_prefixes(raw),
            decreases ctx.bytes_len - ctx.cursor,
        {
            let b = ctx.bytes[ctx.cursor];
            if b == 0x66 {
                ctx.operand_size_override = true;
            }
            if b == 0x67 {
                ctx.address_size_override = true;
            }
            if b == 0xF2 || b == 0xF3 {
                ctx.rep_prefix = Some(b);
            }
            if b == 0x26 || b == 0x2E || b == 0x36 || b == 0x3E || b == 0x64 || b == 0x65 {
                ctx.segment_override = Some(b);
            }
            ctx.cursor = ctx.cursor + 1;
        }
        let long = self.in_64bit_mode();
        if long && ctx.cursor < ctx.bytes_len && 0x40 <= ctx.bytes[ctx.cursor]
            && ctx.bytes[ctx.cursor] <= 0x4F {
            ctx.rex = Some(ctx.bytes[ctx.cursor]);
            ctx.cursor = ctx.cursor + 1;
        }
        let op = ctx.consume_u8()?;
        ctx.opcode = op;
        ctx.op_size = if long {
            let w = match ctx.rex {
                Some(b) => (b / 8) % 2 == 1,
                None => false,
            };
            if w {
                8
            } else if ctx.operand_size_override {
                2
            } else {
                4
            }
        } else if self.sregs.cs.db != ctx.operand_size_override {
            4
        } else {
            2
        };
        match op {
            0xF4 => {
                self.advance(ctx.cursor);
                Ok(Some(VcpuExit::Hlt))
            },
            0x90 => {
                self.advance(ctx.cursor);
                Ok(None)
            },
            0x04 => acc8_imm(self, &mut ctx, false),
            0x2C => acc8_imm(self, &mut ctx, true),
            0xB0..=0xB7 => mov_r8_imm8(self, &mut ctx),
            0xB8..=0xBF => mov_r_imm(self, &mut ctx),
            0xC7 => mov_rm_imm(self, &mut ctx),
            0x27 => decimal_adjust(self, &ctx, false),
            0x2F => decimal_adjust(self, &ctx, true),
            0x37 => ascii_adjust(self, &ctx, false),
            0x3F => ascii_adjust(self, &ctx, true),
            0xEB => jmp_rel8(self, &mut ctx),
            0xE9 => jmp_rel32(self, &mut ctx),
            0x70..=0x7F => jcc_rel8(self, &mut ctx, op - 0x70),
            0x0F => self.execute_two_byte(&mut ctx),
            0xC4 | 0xC5 => self.execute_vex(&mut ctx),
            0x6C => insb(self, &mut ctx),
            0x6D => insw(self, &mut ctx),
            0x6E => outsb(self, &mut ctx),
            0x6F => outsw(self, &mut ctx),
            0xA4 => movsb(self, &mut ctx),
            0xA5 => movs(self, &mut ctx),
            _ => Err(EmuError::Unsupported(op)),
        }
    }

    /// Fetch and execute one instruction.
    pub fn step(&mut self) -> (r: Result<Option<VcpuExit>, EmuError>)
        ensures
            step_effect(*old(self), *final(self), r),
    {
        let raw = self.fetch()?;
        let r = self.execute(raw);
        assert(raw_insn(raw));
        r
    }

    /// Run until the guest stops: an exit (HLT, port I/O), or an instruction
    /// that cannot be executed, or the step budget is used up.
    pub fn run(&mut self) -> (r: Result<VcpuExit, EmuError>)
        ensures
            final(self).sregs.cs == old(self).sregs.cs,
            match r {
                Ok(exit) => exists|n: nat, m: X86_64Vcpu|
                    #[trigger] quiet_steps(*old(self), m, n) && step_effect(
                        m,
                        *final(self),
                        Ok::<Option<VcpuExit>, EmuError>(Some(exit)),
                    ),
                Err(e) => (exists|n: nat, m: X86_64Vcpu|
                    #[trigger] quiet_steps(*old(self), m, n) && step_effect(
                        m,
                        *final(self),
                        Err::<Option<VcpuExit>, EmuError>(e),
                    )) || (e == EmuError::StepLimit && quiet_steps(
                    *old(self),
                    *final(self),
                    u64::MAX as nat,
                )),
            },
    {
        let mut budget: u64 = u64::MAX;
        while budget > 0
            invariant
                self.sregs.cs == old(self).sregs.cs,
                quiet_steps(*old(self), *self, (u64::MAX - budget) as nat),
            decreases budget,
        {
            let ghost prev = *self;
            let ghost k = (u64::MAX - budget) as nat;
            budget = budget - 1;
            let r = self.step();
            match r {
                Ok(Some(exit)) => {
                    assert(quiet_steps(*old(self), prev, k) && step_effect(prev, *self, r));
                    return Ok(exit);
                },
                Ok(None) => {
                    assert(quiet_steps(*old(self), prev, k) && step_effect(prev, *self, r));
                    assert(quiet_steps(*old(self), *self, k + 1));
                },
                Err(e) => {
                    assert(quiet_steps(*old(self), prev, k) && step_effect(prev, *self, r));
                    return Err(e);
                },
            }
        }
        Err(EmuError::StepLimit)
    }
}

} // verus!
