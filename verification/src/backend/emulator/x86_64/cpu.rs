//! The x86-64 vCPU: register file, guest memory, instruction bytes.

use crate::backend::emulator::x86_64::flags::{cc_holds, check_condition};
use crate::cpu::{Registers, SystemRegisters, VcpuExit};
use vstd::prelude::*;

verus! {

/// Longest legal x86 instruction.
pub const MAX_INSN_LEN: usize = 15;

/// Why the interpreter could not execute an instruction.
#[derive(Clone, Copy, Debug, PartialEq, Eq, Structural)]
pub enum EmuError {
    /// The instruction runs past the bytes that could be fetched.
    Incomplete,
    /// #UD: the opcode is invalid in the current mode.
    InvalidOpcode(u8),
    /// An opcode or operand form the interpreter does not implement.
    Unsupported(u8),
    /// A guest-physical access outside guest memory.
    MemoryFault(u64),
    /// #GP with its error code: a privileged instruction outside CPL 0.
    GeneralProtection(u64),
    /// The run loop's step budget ran out.
    StepLimit,
}

/// Little-endian value of `n` bytes of `s` starting at `start`.
pub open spec fn le_bytes(s: Seq<u8>, start: int, n: nat) -> nat
    decreases n,
{
    if n == 0 {
        0
    } else {
        s[start] as nat + 256 * le_bytes(s, start + 1, (n - 1) as nat)
    }
}

/// Decoding state of one instruction: its bytes, a cursor past what has
/// been consumed, and the prefixes seen.
#[derive(Clone, Copy, Debug)]
pub struct InsnContext {
    pub bytes: [u8; MAX_INSN_LEN],
    pub bytes_len: usize,
    pub cursor: usize,
    /// REX prefix (for VEX-encoded instructions, the equivalent R/X/B/W bits).
    pub rex: Option<u8>,
    pub operand_size_override: bool,
    pub address_size_override: bool,
    /// The last REP (0xF3) or REPNE (0xF2) prefix byte seen.
    pub rep_prefix: Option<u8>,
    /// The last segment-override prefix byte seen (0x26, 0x2E, 0x36, 0x3E,
    /// 0x64 or 0x65).
    pub segment_override: Option<u8>,
    /// Operand size in bytes (2, 4 or 8).
    pub op_size: u8,
    pub opcode: u8,
}

impl InsnContext {
    pub open spec fn wf(&self) -> bool {
        self.bytes_len <= MAX_INSN_LEN && self.cursor <= self.bytes_len
    }

    /// The same context with the cursor `n` bytes further on.
    pub open spec fn advanced(&self, n: int) -> InsnContext {
        InsnContext { cursor: (self.cursor + n) as usize, ..*self }
    }

    /// Whether `n` more bytes are available.
    pub open spec fn has(&self, n: int) -> bool {
        self.cursor + n <= self.bytes_len
    }

    /// Little-endian value of the next `n` bytes.
    pub open spec fn peek(&self, n: nat) -> nat {
        le_bytes(self.bytes@, self.cursor as int, n)
    }

    pub fn consume_u8(&mut self) -> (r: Result<u8, EmuError>)
        requires
            old(self).wf(),
        ensures
            final(self).wf(),
            old(self).has(1) ==> r == Ok::<u8, EmuError>(old(self).bytes[old(self).cursor as int])
                && *final(self) == old(self).advanced(1),
            !old(self).has(1) ==> r == Err::<u8, EmuError>(EmuError::Incomplete) && *final(self)
                == *old(self),
    {
        if self.cursor >= self.bytes_len {
            return Err(EmuError::Incomplete);
        }
        let b = self.bytes[self.cursor];
        self.cursor = self.cursor + 1;
        Ok(b)
    }

    pub fn consume_u16(&mut self) -> (r: Result<u16, EmuError>)
        requires
            old(self).wf(),
        ensures
            final(self).wf(),
            old(self).has(2) ==> r == Ok::<u16, EmuError>(old(self).peek(2) as u16) && *final(self) == old(self).advanced(2),
            old(self).has(2) ==> old(self).peek(2) < 0x1_0000,
            !old(self).has(2) ==> r == Err::<u16, EmuError>(EmuError::Incomplete) && *final(self) == *old(self),
    {
        if self.cursor + 2 > self.bytes_len {
            return Err(EmuError::Incomplete);
        }
        let c = self.cursor;
        let v = self.bytes[c] as u16 + self.bytes[c + 1] as u16 * 256;
        proof {
            reveal_with_fuel(le_bytes, 3);
        }
        self.cursor = c + 2;
        Ok(v)
    }

    pub fn consume_u32(&mut self) -> (r: Result<u32, EmuError>)
        requires
            old(self).wf(),
        ensures
            final(self).wf(),
            old(self).has(4) ==> r == Ok::<u32, EmuError>(old(self).peek(4) as u32) && *final(self) == old(self).advanced(4),
            old(self).has(4) ==> old(self).peek(4) < 0x1_0000_0000,
            !old(self).has(4) ==> r == Err::<u32, EmuError>(EmuError::Incomplete) && *final(self) == *old(self),
    {
        if self.cursor + 4 > self.bytes_len {
            return Err(EmuError::Incomplete);
        }
        let c = self.cursor;
        let v = self.bytes[c] as u32 + self.bytes[c + 1] as u32 * 0x100 + self.bytes[c + 2] as u32
            * 0x1_0000 + self.bytes[c + 3] as u32 * 0x100_0000;
        proof {
            reveal_with_fuel(le_bytes, 5);
        }
        self.cursor = c + 4;
        Ok(v)
    }

    pub fn consume_u64(&mut self) -> (r: Result<u64, EmuError>)
        requires
            old(self).wf(),
        ensures
            final(self).wf(),
            old(self).has(8) ==> r == Ok::<u64, EmuError>(old(self).peek(8) as u64) && *final(self) == old(self).advanced(8),
            old(self).has(8) ==> old(self).peek(8) < 0x1_0000_0000_0000_0000,
            !old(self).has(8) ==> r == Err::<u64, EmuError>(EmuError::Incomplete) && *final(self) == *old(self),
    {
        if self.cursor + 8 > self.bytes_len {
            return Err(EmuError::Incomplete);
        }
        let c = self.cursor;
        let lo = self.bytes[c] as u64 + self.bytes[c + 1] as u64 * 0x100 + self.bytes[c + 2] as u64
            * 0x1_0000 + self.bytes[c + 3] as u64 * 0x100_0000;
        let hi = self.bytes[c + 4] as u64 + self.bytes[c + 5] as u64 * 0x100 + self.bytes[c + 6]
            as u64 * 0x1_0000 + self.bytes[c + 7] as u64 * 0x100_0000;
        let v = lo + hi * 0x1_0000_0000;
        proof {
            reveal_with_fuel(le_bytes, 9);
        }
        self.cursor = c + 8;
        Ok(v)
    }
}

/// REX.W, REX.R, REX.X and REX.B of an optional REX byte.
pub open spec fn rex_bit(rex: Option<u8>, bit: u8) -> bool {
    match rex {
        Some(b) => (b / bit) % 2 == 1,
        None => false,
    }
}

/// Register operands of a register-direct ModRM byte, extended by REX.R and
/// REX.B.
pub open spec fn modrm_regs(modrm: u8, rex: Option<u8>) -> (u8, u8) {
    (
        ((modrm / 8) % 8 + if rex_bit(rex, 4) {
            8u8
        } else {
            0u8
        }) as u8,
        (modrm % 8 + if rex_bit(rex, 1) {
            8u8
        } else {
            0u8
        }) as u8,
    )
}

impl InsnContext {
    /// Consume a ModRM byte that must name a register operand (mod = 11);
    /// returns the REX-extended reg and rm fields.
    pub fn decode_modrm_reg(&mut self) -> (r: Result<(u8, u8), EmuError>)
        requires
            old(self).wf(),
        ensures
            final(self).wf(),
            old(self).has(1) && old(self).bytes[old(self).cursor as int] / 64 == 3 ==> r == Ok::<
                (u8, u8),
                EmuError,
            >(modrm_regs(old(self).bytes[old(self).cursor as int], old(self).rex)) && *final(self)
                == old(self).advanced(1),
            old(self).has(1) && old(self).bytes[old(self).cursor as int] / 64 != 3 ==> r == Err::<
                (u8, u8),
                EmuError,
            >(EmuError::Unsupported(old(self).opcode)),
            !old(self).has(1) ==> r == Err::<(u8, u8), EmuError>(EmuError::Incomplete),
            r matches Ok((reg, rm)) ==> reg < 16 && rm < 16,
    {
        let modrm = self.consume_u8()?;
        if modrm / 64 != 3 {
            return Err(EmuError::Unsupported(self.opcode));
        }
        let r_ext: u8 = match self.rex {
            Some(b) => if (b / 4) % 2 == 1 {
                8
            } else {
                0
            },
            None => 0,
        };
        let b_ext: u8 = match self.rex {
            Some(b) => if b % 2 == 1 {
                8
            } else {
                0
            },
            None => 0,
        };
        Ok(((modrm / 8) % 8 + r_ext, modrm % 8 + b_ext))
    }
}

/// What one instruction does to the register file, and what it returns.
pub type Step = (Registers, Result<Option<VcpuExit>, EmuError>);

/// An instruction that stops for want of bytes.
pub open spec fn incomplete(regs: Registers) -> Step {
    (regs, Err(EmuError::Incomplete))
}

/// A decoded ModRM operand pair: the reg field, the rm register (for a
/// register operand), whether rm names memory, the effective address of a
/// memory operand, and how many bytes ModRM, SIB and displacement took.
#[derive(Clone, Copy, Debug, PartialEq, Eq, Structural)]
pub struct Modrm {
    pub reg: u8,
    pub rm: u8,
    pub is_memory: bool,
    pub addr: u64,
    pub len: usize,
}

/// Sign extension of a displacement of `n` bytes (0, 1 or 4).
pub open spec fn disp_value(v: nat, n: nat) -> int {
    if n == 0 {
        0
    } else if n == 1 {
        if v >= 0x80 {
            v - 0x100
        } else {
            v as int
        }
    } else {
        if v >= 0x8000_0000 {
            v - 0x1_0000_0000
        } else {
            v as int
        }
    }
}

/// The ModRM operand at the cursor, or `None` where bytes are missing.
/// `addr32` selects 32-bit address arithmetic; `tail` is the number of
/// immediate bytes after the displacement (RIP-relative addresses count
/// from the end of the instruction).
pub open spec fn modrm_spec(ctx: InsnContext, regs: Registers, long: bool, addr32: bool, tail: nat)
    -> Option<Modrm> {
    let c = ctx.cursor as int;
    let m = ctx.bytes[c];
    let md = m / 64;
    let rex = ctx.rex;
    let reg = ((m / 8) % 8 + if rex_bit(rex, 4) {
        8int
    } else {
        0
    }) as u8;
    let rml = m % 8;
    let bx: int = if rex_bit(rex, 1) {
        8
    } else {
        0
    };
    if !ctx.has(1) {
        None
    } else if md == 3 {
        Some(Modrm { reg, rm: (rml + bx) as u8, is_memory: false, addr: 0, len: 1 })
    } else {
        let sib = rml == 4;
        let s = ctx.bytes[c + 1];
        let head: int = if sib {
            2
        } else {
            1
        };
        let base_none = sib && s % 8 == 5 && md == 0;
        let rip_rel = !sib && rml == 5 && md == 0;
        let dsz: nat = if md == 1 {
            1
        } else if md == 2 || base_none || rip_rel {
            4
        } else {
            0
        };
        if !ctx.has(head + dsz) {
            None
        } else {
            let disp = disp_value(le_bytes(ctx.bytes@, c + head, dsz), dsz);
            let idx = ((s / 8) % 8 + if rex_bit(rex, 2) {
                8int
            } else {
                0
            });
            let index_val: u64 = if sib && idx != 4 {
                gpr(regs, idx).wrapping_mul(
                    if s / 64 == 0 {
                        1u64
                    } else if s / 64 == 1 {
                        2u64
                    } else if s / 64 == 2 {
                        4u64
                    } else {
                        8u64
                    },
                )
            } else {
                0
            };
            let base_val: u64 = if rip_rel {
                if long {
                    regs.rip.wrapping_add((c + head + dsz + tail) as u64)
                } else {
                    0
                }
            } else if base_none {
                0
            } else if sib {
                gpr(regs, s % 8 + bx)
            } else {
                gpr(regs, rml + bx)
            };
            let ea = base_val.wrapping_add(index_val).wrapping_add_signed(disp as i64);
            Some(
                Modrm {
                    reg,
                    rm: (rml + bx) as u8,
                    is_memory: true,
                    addr: if addr32 {
                        ea % 0x1_0000_0000
                    } else {
                        ea
                    },
                    len: (head + dsz) as usize,
                },
            )
        }
    }
}

/// Scale factor of a SIB byte.
fn scale_factor(s: u8) -> (r: u64)
    ensures
        r == (if s / 64 == 0 {
            1u64
        } else if s / 64 == 1 {
            2u64
        } else if s / 64 == 2 {
            4u64
        } else {
            8u64
        }),
{
    if s / 64 == 0 {
        1
    } else if s / 64 == 1 {
        2
    } else if s / 64 == 2 {
        4
    } else {
        8
    }
}

/// The sign-extended displacement of `dsz` bytes at `at`.
fn read_disp(ctx: &InsnContext, at: usize, dsz: usize) -> (d: i64)
    requires
        ctx.wf(),
        at + dsz <= ctx.bytes_len,
        dsz == 0 || dsz == 1 || dsz == 4,
    ensures
        d as int == disp_value(le_bytes(ctx.bytes@, at as int, dsz as nat), dsz as nat),
{
    proof {
        reveal_with_fuel(le_bytes, 5);
    }
    if dsz == 0 {
        0
    } else if dsz == 1 {
        let b = ctx.bytes[at];
        if b >= 0x80 {
            b as i64 - 0x100
        } else {
            b as i64
        }
    } else {
        let v = ctx.bytes[at] as u32 + ctx.bytes[at + 1] as u32 * 0x100 + ctx.bytes[at + 2] as u32
            * 0x1_0000 + ctx.bytes[at + 3] as u32 * 0x100_0000;
        if v >= 0x8000_0000 {
            v as i64 - 0x1_0000_0000
        } else {
            v as i64
        }
    }
}

/// ModRM decoding as a result: the operand, or why it could not be decoded.
pub open spec fn modrm_result(regs: Registers, sregs: SystemRegisters, ctx: InsnContext, tail: nat)
    -> Result<Modrm, EmuError> {
    let asz = addr_size(sregs, ctx.address_size_override);
    if asz == 2 {
        Err(EmuError::Unsupported(ctx.opcode))
    } else {
        match modrm_spec(ctx, regs, sregs.cs.l, asz == 4, tail) {
            Some(d) => Ok(d),
            None => Err(EmuError::Incomplete),
        }
    }
}

/// What an instruction does to the registers and memory, and what it
/// returns.
pub type MemStep = (Registers, Seq<u8>, Result<Option<VcpuExit>, EmuError>);

/// RIP moved past `len` bytes, the rest as in `r`.
pub open spec fn adv(r: Registers, rip: u64, len: int) -> Registers {
    Registers { rip: rip.wrapping_add(len as u64), ..r }
}

/// Address size in bytes: 64-bit mode uses 8 (4 with 0x67); elsewhere CS.D
/// toggled by 0x67 gives 4 or 2.
pub open spec fn addr_size(sregs: SystemRegisters, override_: bool) -> u8 {
    if sregs.cs.l {
        if override_ {
            4
        } else {
            8
        }
    } else if sregs.cs.db != override_ {
        4
    } else {
        2
    }
}

/// General-purpose register `i` in encoding order (RAX, RCX, RDX, RBX, RSP,
/// RBP, RSI, RDI, R8..R15).
pub open spec fn gpr(r: Registers, i: int) -> u64 {
    if i == 0 {
        r.rax
    } else if i == 1 {
        r.rcx
    } else if i == 2 {
        r.rdx
    } else if i == 3 {
        r.rbx
    } else if i == 4 {
        r.rsp
    } else if i == 5 {
        r.rbp
    } else if i == 6 {
        r.rsi
    } else if i == 7 {
        r.rdi
    } else if i == 8 {
        r.r8
    } else if i == 9 {
        r.r9
    } else if i == 10 {
        r.r10
    } else if i == 11 {
        r.r11
    } else if i == 12 {
        r.r12
    } else if i == 13 {
        r.r13
    } else if i == 14 {
        r.r14
    } else {
        r.r15
    }
}

/// The register file with general-purpose register `i` replaced.
pub open spec fn with_gpr(r: Registers, i: int, v: u64) -> Registers {
    if i == 0 {
        Registers { rax: v, ..r }
    } else if i == 1 {
        Registers { rcx: v, ..r }
    } else if i == 2 {
        Registers { rdx: v, ..r }
    } else if i == 3 {
        Registers { rbx: v, ..r }
    } else if i == 4 {
        Registers { rsp: v, ..r }
    } else if i == 5 {
        Registers { rbp: v, ..r }
    } else if i == 6 {
        Registers { rsi: v, ..r }
    } else if i == 7 {
        Registers { rdi: v, ..r }
    } else if i == 8 {
        Registers { r8: v, ..r }
    } else if i == 9 {
        Registers { r9: v, ..r }
    } else if i == 10 {
        Registers { r10: v, ..r }
    } else if i == 11 {
        Registers { r11: v, ..r }
    } else if i == 12 {
        Registers { r12: v, ..r }
    } else if i == 13 {
        Registers { r13: v, ..r }
    } else if i == 14 {
        Registers { r14: v, ..r }
    } else {
        Registers { r15: v, ..r }
    }
}

/// A register after a write of `size` bytes: 64-bit writes replace it,
/// 32-bit writes zero-extend, 16- and 8-bit writes merge into the low bits.
pub open spec fn merge_sized(old: u64, v: u64, size: u8) -> u64 {
    if size == 8 {
        v
    } else if size == 4 {
        v & 0xFFFF_FFFF
    } else if size == 2 {
        (old & !0xFFFFu64) | (v & 0xFFFF)
    } else {
        (old & !0xFFu64) | (v & 0xFF)
    }
}

/// The register file after an 8-bit register write. Without a REX prefix,
/// encodings 4..7 name AH, CH, DH, BH.
pub open spec fn with_reg8(r: Registers, reg: int, v: u8, rex: bool) -> Registers {
    if !rex && 4 <= reg < 8 {
        let old = gpr(r, reg - 4);
        with_gpr(r, reg - 4, (old & !0xFF00u64) | ((v as u64) << 8u64))
    } else {
        with_gpr(r, reg, (gpr(r, reg) & !0xFFu64) | (v as u64))
    }
}

/// An 8-bit register read (AH..BH without REX, as for writes).
pub open spec fn reg8(r: Registers, reg: int, rex: bool) -> u8 {
    if !rex && 4 <= reg < 8 {
        ((gpr(r, reg - 4) >> 8u64) & 0xFF) as u8
    } else {
        (gpr(r, reg) & 0xFF) as u8
    }
}

/// Operand size of a near branch: 64-bit in 64-bit mode, otherwise CS.D
/// toggled by the 0x66 prefix.
pub open spec fn branch_op_size(sregs: SystemRegisters, override_: bool) -> u8 {
    if sregs.cs.l {
        8
    } else if sregs.cs.db != override_ {
        4
    } else {
        2
    }
}

/// Linear address of the next instruction: CS.base + RIP, with the base
/// ignored in 64-bit mode.
pub open spec fn code_linear(regs: Registers, sregs: SystemRegisters) -> int {
    if sregs.cs.l {
        regs.rip as int
    } else {
        (sregs.cs.base + regs.rip) % 0x1_0000_0000_0000_0000
    }
}

/// An x86-64 vCPU interpreting instructions out of a flat guest-physical
/// memory (no paging).
pub struct X86_64Vcpu {
    pub id: u64,
    pub regs: Registers,
    pub sregs: SystemRegisters,
    /// The time-stamp counter RDMSR reports; the embedder keeps it current.
    pub tsc: u64,
    pub mem: Vec<u8>,
}

impl X86_64Vcpu {
    /// Guest memory.
    pub open spec fn memory(&self) -> Seq<u8> {
        self.mem@
    }

    /// A vCPU with zeroed registers over `mem` (guest-physical address 0
    /// upwards).
    pub fn new(id: u64, mem: Vec<u8>) -> (r: Self)
        ensures
            r.id == id,
            r.memory() == mem@,
            crate::cpu::registers_zeroed(r.regs),
            r.sregs == SystemRegisters::default_spec(),
            r.tsc == 0,
    {
        let sregs = SystemRegisters::default();
        proof {
            lemma_sregs_default(sregs);
        }
        X86_64Vcpu { id, regs: Registers::default(), sregs, tsc: 0, mem }
    }

    pub fn get_regs(&self) -> (r: Result<Registers, EmuError>)
        ensures
            r == Ok::<Registers, EmuError>(self.regs),
    {
        Ok(self.regs)
    }

    pub fn set_regs(&mut self, regs: &Registers) -> (r: Result<(), EmuError>)
        ensures
            r is Ok,
            final(self).regs == *regs,
            final(self).sregs == old(self).sregs,
            final(self).memory() == old(self).memory(),
            final(self).id == old(self).id,
    {
        self.regs = *regs;
        Ok(())
    }

    pub fn get_sregs(&self) -> (r: Result<SystemRegisters, EmuError>)
        ensures
            r == Ok::<SystemRegisters, EmuError>(self.sregs),
    {
        Ok(self.sregs)
    }

    pub fn set_sregs(&mut self, sregs: &SystemRegisters) -> (r: Result<(), EmuError>)
        ensures
            r is Ok,
            final(self).sregs == *sregs,
            final(self).regs == old(self).regs,
            final(self).memory() == old(self).memory(),
            final(self).id == old(self).id,
    {
        self.sregs = *sregs;
        Ok(())
    }

    /// RAX.
    pub fn get_rax(&self) -> (r: u64)
        ensures
            r == self.regs.rax,
    {
        self.regs.rax
    }

    /// Copy `data` into guest memory at `addr`; fails, changing nothing,
    /// where the range leaves memory.
    pub fn write_phys(&mut self, addr: u64, data: &[u8]) -> (r: Result<(), EmuError>)
        ensures
            final(self).regs == old(self).regs,
            final(self).sregs == old(self).sregs,
            final(self).id == old(self).id,
            addr + data@.len() <= old(self).memory().len() ==> r is Ok && final(self).memory()
                == old(self).memory().subrange(0, addr as int) + data@ + old(self).memory().subrange(addr + data@.len(), old(self).memory().len() as int),
            !(addr + data@.len() <= old(self).memory().len()) ==> r == Err::<(), EmuError>(
                EmuError::MemoryFault(addr),
            ) && final(self).memory() == old(self).memory(),
    {
        if addr as u128 + data.len() as u128 > self.mem.len() as u128 {
            return Err(EmuError::MemoryFault(addr));
        }
        let start = addr as usize;
        let len = self.mem.len();
        let mut i: usize = 0;
        while i < data.len()
            invariant
                self.mem@.len() == len,
                start + data@.len() <= self.mem@.len(),
                start == addr,
                i <= data@.len(),
                self.mem@.len() == old(self).mem@.len(),
                self.regs == old(self).regs,
                self.sregs == old(self).sregs,
                self.id == old(self).id,
                forall|k: int| 0 <= k < start ==> self.mem@[k] == old(self).mem@[k],
                forall|k: int| start + data@.len() <= k < self.mem@.len() ==> self.mem@[k] == old(self).mem@[k],
                forall|k: int| 0 <= k < i ==> self.mem@[start + k] == #[trigger] data@[k],
                forall|k: int| i <= k < data@.len() ==> #[trigger] self.mem@[start + k] == old(self).mem@[start + k],
            decreases data.len() - i,
        {
            self.mem.set(start + i, data[i]);
            i += 1;
        }
        assert(self.mem@ =~= old(self).mem@.subrange(0, addr as int) + data@ + old(self).mem@.subrange(addr + data@.len(), old(self).mem@.len() as int));
        Ok(())
    }

    /// Little-endian read of `size` bytes of guest memory at `addr`.
    pub fn read_mem(&self, addr: u64, size: u8) -> (r: Result<u64, EmuError>)
        requires
            size <= 8,
        ensures
            addr + size <= self.memory().len() ==> r == Ok::<u64, EmuError>(
                le_bytes(self.memory(), addr as int, size as nat) as u64,
            ),
            addr + size <= self.memory().len() ==> le_bytes(self.memory(), addr as int, size as nat)
                <= u64::MAX,
            !(addr + size <= self.memory().len()) ==> r == Err::<u64, EmuError>(
                EmuError::MemoryFault(addr),
            ),
    {
        if addr as u128 + size as u128 > self.mem.len() as u128 {
            return Err(EmuError::MemoryFault(addr));
        }
        let start = addr as usize;
        let len = self.mem.len();
        let mut v: u64 = 0;
        let mut i: usize = size as usize;
        while i > 0
            invariant
                self.mem@.len() == len,
                i <= size,
                size <= 8,
                start == addr,
                start + size <= self.mem@.len(),
                v as nat == le_bytes(self.mem@, start + i, (size - i) as nat),
                le_bytes(self.mem@, start + i, (size - i) as nat) < pow256((size - i) as nat),
            decreases i,
        {
            i -= 1;
            proof {
                lemma_le_step(self.mem@, start + i, (size - i - 1) as nat);
                lemma_pow256_bound((size - i - 1) as nat);
            }
            v = v * 256 + self.mem[start + i] as u64;
        }
        Ok(v)
    }

    /// Little-endian store of the low `size` bytes of `value` at `addr`.
    pub fn write_mem(&mut self, addr: u64, value: u64, size: u8) -> (r: Result<(), EmuError>)
        requires
            size <= 8,
        ensures
            final(self).regs == old(self).regs,
            final(self).sregs == old(self).sregs,
            final(self).id == old(self).id,
            addr + size <= old(self).memory().len() ==> r is Ok && final(self).memory()
                == store_le(old(self).memory(), addr as int, value as nat, size as nat),
            !(addr + size <= old(self).memory().len()) ==> r == Err::<(), EmuError>(
                EmuError::MemoryFault(addr),
            ) && final(self).memory() == old(self).memory(),
    {
        if addr as u128 + size as u128 > self.mem.len() as u128 {
            return Err(EmuError::MemoryFault(addr));
        }
        let start = addr as usize;
        let len = self.mem.len();
        let mut v = value;
        let mut i: usize = 0;
        while i < size as usize
            invariant
                self.mem@.len() == len,
                size <= 8,
                start == addr,
                start + size <= len,
                i <= size,
                self.regs == old(self).regs,
                self.sregs == old(self).sregs,
                self.id == old(self).id,
                store_le(self.mem@, start + i, v as nat, (size - i) as nat) == store_le(
                    old(self).mem@,
                    addr as int,
                    value as nat,
                    size as nat,
                ),
            decreases size - i,
        {
            self.mem.set(start + i, (v % 256) as u8);
            v = v / 256;
            i += 1;
        }
        Ok(())
    }

    /// Vector register `v` as four quadwords.
    pub fn vreg(&self, v: u8) -> (r: [u64; 4])
        requires
            v < 16,
        ensures
            r@ == vreg_of(self.regs, v as int),
    {
        let lo = self.regs.xmm[v as usize];
        let hi = self.regs.ymm_high[v as usize];
        let r = [lo[0], lo[1], hi[0], hi[1]];
        assert(r@ =~= vreg_of(self.regs, v as int));
        r
    }

    /// Set vector register `v` (all 256 bits).
    pub fn set_vreg(&mut self, v: u8, q: [u64; 4])
        requires
            v < 16,
        ensures
            final(self).regs == with_vreg(old(self).regs, v as int, q@),
            final(self).sregs == old(self).sregs,
            final(self).memory() == old(self).memory(),
            final(self).id == old(self).id,
    {
        self.regs.xmm[v as usize] = [q[0], q[1]];
        self.regs.ymm_high[v as usize] = [q[2], q[3]];
        assert(self.regs.xmm@ =~= old(self).regs.xmm@.update(v as int, [q[0], q[1]]));
        assert(self.regs.ymm_high@ =~= old(self).regs.ymm_high@.update(v as int, [q[2], q[3]]));
    }

    /// The `n` (at most four) quadwords at `addr`, zero above; the whole
    /// range must lie in memory, else the fault names `addr`.
    pub fn read_qwords(&self, addr: u64, n: usize) -> (r: Result<[u64; 4], EmuError>)
        requires
            n <= 4,
        ensures
            addr + 8 * n <= self.memory().len() ==> r is Ok && r->Ok_0@ == widen(
                qwords(self.memory(), addr as int, n as nat),
                n as nat,
            ),
            !(addr + 8 * n <= self.memory().len()) ==> r == Err::<[u64; 4], EmuError>(
                EmuError::MemoryFault(addr),
            ),
    {
        if addr as u128 + 8 * n as u128 > self.mem.len() as u128 {
            return Err(EmuError::MemoryFault(addr));
        }
        let mut q = [0u64; 4];
        let len = self.mem.len();
        let mut i: usize = 0;
        while i < n
            invariant
                self.mem@.len() == len,
                n <= 4,
                i <= n,
                addr + 8 * n <= self.mem@.len(),
                forall|k: int| 0 <= k < i ==> #[trigger] q[k] == le_bytes(self.mem@, addr + 8 * k, 8) as u64,
                forall|k: int| i <= k < 4 ==> #[trigger] q[k] == 0,
            decreases n - i,
        {
            let a = addr + 8 * i as u64;
            let v = self.read_mem(a, 8);
            match v {
                Ok(x) => {
                    q[i] = x;
                },
                Err(_) => {
                    assert(false);
                },
            }
            i += 1;
        }
        assert(q@ =~= widen(qwords(self.mem@, addr as int, n as nat), n as nat));
        Ok(q)
    }

    /// Store the first `n` (at most four) quadwords of `q` at `addr`; the
    /// whole range must lie in memory, else nothing is written and the
    /// fault names `addr`.
    pub fn write_qwords(&mut self, addr: u64, q: [u64; 4], n: usize) -> (r: Result<(), EmuError>)
        requires
            n <= 4,
        ensures
            final(self).regs == old(self).regs,
            final(self).sregs == old(self).sregs,
            final(self).id == old(self).id,
            addr + 8 * n <= old(self).memory().len() ==> r is Ok && final(self).memory()
                == store_qwords(old(self).memory(), addr as int, q@, n as nat),
            !(addr + 8 * n <= old(self).memory().len()) ==> r == Err::<(), EmuError>(
                EmuError::MemoryFault(addr),
            ) && final(self).memory() == old(self).memory(),
    {
        if addr as u128 + 8 * n as u128 > self.mem.len() as u128 {
            return Err(EmuError::MemoryFault(addr));
        }
        let len = self.mem.len();
        assert(q@.subrange(0, 4) =~= q@);
        let mut i: usize = 0;
        while i < n
            invariant
                self.mem@.len() == len,
                len == old(self).mem@.len(),
                n <= 4,
                i <= n,
                addr + 8 * n <= old(self).mem@.len(),
                self.mem@.len() == old(self).mem@.len(),
                self.regs == old(self).regs,
                self.sregs == old(self).sregs,
                self.id == old(self).id,
                store_qwords(self.mem@, addr + 8 * i, q@.subrange(i as int, 4), (n - i) as nat)
                    == store_qwords(old(self).mem@, addr as int, q@, n as nat),
            decreases n - i,
        {
            let a = addr + 8 * i as u64;
            let ghost before = self.mem@;
            let w = self.write_mem(a, q[i], 8);
            match w {
                Ok(()) => {},
                Err(_) => {
                    assert(false);
                },
            }
            proof {
                lemma_store_frame(before, a as int, q[i as int] as nat, 8, 0);
                assert(q@.subrange(i as int, 4).drop_first() =~= q@.subrange(i + 1, 4));
            }
            i += 1;
        }
        Ok(())
    }

    /// General-purpose register `reg`.
    pub fn get_reg(&self, reg: u8) -> (r: u64)
        requires
            reg < 16,
        ensures
            r == gpr(self.regs, reg as int),
    {
        match reg {
            0 => self.regs.rax,
            1 => self.regs.rcx,
            2 => self.regs.rdx,
            3 => self.regs.rbx,
            4 => self.regs.rsp,
            5 => self.regs.rbp,
            6 => self.regs.rsi,
            7 => self.regs.rdi,
            8 => self.regs.r8,
            9 => self.regs.r9,
            10 => self.regs.r10,
            11 => self.regs.r11,
            12 => self.regs.r12,
            13 => self.regs.r13,
            14 => self.regs.r14,
            _ => self.regs.r15,
        }
    }

    fn put_gpr(&mut self, reg: u8, v: u64)
        requires
            reg < 16,
        ensures
            final(self).regs == with_gpr(old(self).regs, reg as int, v),
            final(self).sregs == old(self).sregs,
            final(self).memory() == old(self).memory(),
            final(self).id == old(self).id,
    {
        match reg {
            0 => self.regs.rax = v,
            1 => self.regs.rcx = v,
            2 => self.regs.rdx = v,
            3 => self.regs.rbx = v,
            4 => self.regs.rsp = v,
            5 => self.regs.rbp = v,
            6 => self.regs.rsi = v,
            7 => self.regs.rdi = v,
            8 => self.regs.r8 = v,
            9 => self.regs.r9 = v,
            10 => self.regs.r10 = v,
            11 => self.regs.r11 = v,
            12 => self.regs.r12 = v,
            13 => self.regs.r13 = v,
            14 => self.regs.r14 = v,
            _ => self.regs.r15 = v,
        }
    }

    /// Write `size` bytes (1, 2, 4 or 8) of `value` to register `reg`
    /// (the byte form names the low byte of any register).
    pub fn set_reg(&mut self, reg: u8, value: u64, size: u8)
        requires
            reg < 16,
            size == 1 || size == 2 || size == 4 || size == 8,
        ensures
            final(self).regs == with_gpr(
                old(self).regs,
                reg as int,
                merge_sized(gpr(old(self).regs, reg as int), value, size),
            ),
            final(self).sregs == old(self).sregs,
            final(self).memory() == old(self).memory(),
            final(self).id == old(self).id,
    {
        let old = self.get_reg(reg);
        let v = if size == 8 {
            value
        } else if size == 4 {
            value & 0xFFFF_FFFF
        } else if size == 2 {
            (old & !0xFFFFu64) | (value & 0xFFFF)
        } else {
            (old & !0xFFu64) | (value & 0xFF)
        };
        self.put_gpr(reg, v);
    }

    /// An 8-bit register, AH..BH for encodings 4..7 without REX.
    pub fn get_reg8(&self, reg: u8, rex: bool) -> (r: u8)
        requires
            reg < 16,
        ensures
            r == reg8(self.regs, reg as int, rex),
    {
        if !rex && 4 <= reg && reg < 8 {
            ((self.get_reg(reg - 4) >> 8u64) & 0xFF) as u8
        } else {
            (self.get_reg(reg) & 0xFF) as u8
        }
    }

    /// Write an 8-bit register, AH..BH for encodings 4..7 without REX.
    pub fn set_reg8(&mut self, reg: u8, v: u8, rex: bool)
        requires
            reg < 16,
        ensures
            final(self).regs == with_reg8(old(self).regs, reg as int, v, rex),
            final(self).sregs == old(self).sregs,
            final(self).memory() == old(self).memory(),
            final(self).id == old(self).id,
    {
        if !rex && 4 <= reg && reg < 8 {
            let old = self.get_reg(reg - 4);
            self.put_gpr(reg - 4, (old & !0xFF00u64) | ((v as u64) << 8u64));
        } else {
            let old = self.get_reg(reg);
            self.put_gpr(reg, (old & !0xFFu64) | (v as u64));
        }
    }

    /// Decode the ModRM operand at the cursor and compute a memory operand's
    /// effective address (flat segments). `tail` counts immediate bytes
    /// after the operand. 16-bit addressing is not implemented.
    #[verifier::rlimit(40)]
    pub fn decode_modrm(&self, ctx: &mut InsnContext, tail: u8) -> (r: Result<Modrm, EmuError>)
        requires
            old(ctx).wf(),
        ensures
            final(ctx).wf(),
            ({
                let asz = addr_size(self.sregs, old(ctx).address_size_override);
                if asz == 2 {
                    r == Err::<Modrm, EmuError>(EmuError::Unsupported(old(ctx).opcode))
                } else {
                    match modrm_spec(*old(ctx), self.regs, self.sregs.cs.l, asz == 4, tail as nat) {
                        Some(d) => r == Ok::<Modrm, EmuError>(d) && *final(ctx) == old(ctx).advanced(
                            d.len as int,
                        ),
                        None => r == Err::<Modrm, EmuError>(EmuError::Incomplete),
                    }
                }
            }),
            r == modrm_result(self.regs, self.sregs, *old(ctx), tail as nat),
            r matches Ok(d) ==> d.reg < 16 && d.rm < 16 && *final(ctx) == old(ctx).advanced(d.len as int),
    {
        let long = self.sregs.cs.l;
        let asz: u8 = if long {
            if ctx.address_size_override {
                4
            } else {
                8
            }
        } else if self.sregs.cs.db != ctx.address_size_override {
            4
        } else {
            2
        };
        if asz == 2 {
            return Err(EmuError::Unsupported(ctx.opcode));
        }
        if ctx.cursor >= ctx.bytes_len {
            return Err(EmuError::Incomplete);
        }
        let c = ctx.cursor;
        let m = ctx.bytes[c];
        let md = m / 64;
        let (rx, xx, bx): (u8, u8, u8) = match ctx.rex {
            Some(b) => (
                if (b / 4) % 2 == 1 {
                    8
                } else {
                    0
                },
                if (b / 2) % 2 == 1 {
                    8
                } else {
                    0
                },
                if b % 2 == 1 {
                    8
                } else {
                    0
                },
            ),
            None => (0, 0, 0),
        };
        let reg = (m / 8) % 8 + rx;
        let rml = m % 8;
        if md == 3 {
            ctx.cursor = c + 1;
            return Ok(Modrm { reg, rm: rml + bx, is_memory: false, addr: 0, len: 1 });
        }
        let sib = rml == 4;
        let head: usize = if sib {
            2
        } else {
            1
        };
        if c + head > ctx.bytes_len {
            return Err(EmuError::Incomplete);
        }
        let s: u8 = if sib {
            ctx.bytes[c + 1]
        } else {
            0
        };
        let base_none = sib && s % 8 == 5 && md == 0;
        let rip_rel = !sib && rml == 5 && md == 0;
        let dsz: usize = if md == 1 {
            1
        } else if md == 2 || base_none || rip_rel {
            4
        } else {
            0
        };
        if c + head + dsz > ctx.bytes_len {
            return Err(EmuError::Incomplete);
        }
        let disp = read_disp(ctx, c + head, dsz);
        let idx = (s / 8) % 8 + xx;
        let index_val: u64 = if sib && idx != 4 {
            self.get_reg(idx).wrapping_mul(scale_factor(s))
        } else {
            0
        };
        let base_val: u64 = if rip_rel {
            if long {
                self.regs.rip.wrapping_add((c + head + dsz + tail as usize) as u64)
            } else {
                0
            }
        } else if base_none {
            0
        } else if sib {
            self.get_reg(s % 8 + bx)
        } else {
            self.get_reg(rml + bx)
        };
        let ea = base_val.wrapping_add(index_val).wrapping_add_signed(disp);
        ctx.cursor = c + head + dsz;
        Ok(
            Modrm {
                reg,
                rm: rml + bx,
                is_memory: true,
                addr: if asz == 4 {
                    ea % 0x1_0000_0000
                } else {
                    ea
                },
                len: head + dsz,
            },
        )
    }

    /// Move RIP past `n` instruction bytes.
    pub fn advance(&mut self, n: usize)
        ensures
            final(self).regs == (Registers {
                rip: old(self).regs.rip.wrapping_add(n as u64),
                ..old(self).regs
            }),
            final(self).sregs == old(self).sregs,
            final(self).memory() == old(self).memory(),
            final(self).id == old(self).id,
    {
        self.regs.rip = self.regs.rip.wrapping_add(n as u64);
    }

    /// Evaluate condition code `cc` on RFLAGS.
    pub fn check_condition(&self, cc: u8) -> (r: bool)
        requires
            cc < 16,
        ensures
            r == cc_holds(self.regs.rflags, cc),
    {
        check_condition(self.regs.rflags, cc)
    }

    /// Operand size of a near branch in the current mode.
    pub fn near_branch_op_size(&self, ctx: &InsnContext) -> (r: u8)
        ensures
            r == branch_op_size(self.sregs, ctx.operand_size_override),
    {
        if self.sregs.cs.l {
            8
        } else if self.sregs.cs.db != ctx.operand_size_override {
            4
        } else {
            2
        }
    }

    /// Whether the vCPU runs 64-bit code.
    pub fn in_64bit_mode(&self) -> (r: bool)
        ensures
            r == self.sregs.cs.l,
    {
        self.sregs.cs.l
    }

    /// The up to 15 bytes of the instruction at CS:RIP.
    pub fn fetch(&self) -> (r: Result<InsnContext, EmuError>)
        ensures
            match r {
                Ok(ctx) => {
                    let lin = code_linear(self.regs, self.sregs);
                    &&& lin < self.memory().len()
                    &&& ctx.cursor == 0
                    &&& ctx.bytes_len == (if self.memory().len() - lin < MAX_INSN_LEN {
                        self.memory().len() - lin
                    } else {
                        MAX_INSN_LEN as int
                    })
                    &&& forall|i: int|
                        0 <= i < ctx.bytes_len ==> #[trigger] ctx.bytes[i] == self.memory()[lin
                            + i]
                    &&& ctx.rex is None
                    &&& !ctx.operand_size_override
                    &&& !ctx.address_size_override
                    &&& ctx.rep_prefix is None
                    &&& ctx.segment_override is None
                },
                Err(e) => e == EmuError::MemoryFault(code_linear(self.regs, self.sregs) as u64)
                    && code_linear(self.regs, self.sregs) >= self.memory().len(),
            },
    {
        let lin: u64 = if self.sregs.cs.l {
            self.regs.rip
        } else {
            self.sregs.cs.base.wrapping_add(self.regs.rip)
        };
        if lin as u128 >= self.mem.len() as u128 {
            return Err(EmuError::MemoryFault(lin));
        }
        let start = lin as usize;
        let avail = self.mem.len() - start;
        let n = if avail < MAX_INSN_LEN {
            avail
        } else {
            MAX_INSN_LEN
        };
        let mut bytes = [0u8; MAX_INSN_LEN];
        let mut i: usize = 0;
        let len = self.mem.len();
        while i < n
            invariant
                self.mem@.len() == len,
                n <= MAX_INSN_LEN,
                start + n <= self.mem@.len(),
                i <= n,
                forall|k: int| 0 <= k < i ==> #[trigger] bytes[k] == self.mem@[start + k],
            decreases n - i,
        {
            bytes[i] = self.mem[start + i];
            i += 1;
        }
        Ok(
            InsnContext {
                bytes,
                bytes_len: n,
                cursor: 0,
                rex: None,
                operand_size_override: false,
                address_size_override: false,
                rep_prefix: None,
                segment_override: None,
                op_size: 4,
                opcode: 0,
            },
        )
    }
}

/// Memory after storing the `n` low little-endian bytes of `v` at `addr`.
pub open spec fn store_le(m: Seq<u8>, addr: int, v: nat, n: nat) -> Seq<u8>
    decreases n,
{
    if n == 0 {
        m
    } else {
        store_le(m.update(addr, (v % 256) as u8), addr + 1, v / 256, (n - 1) as nat)
    }
}

/// A store changes only its own bytes and keeps the length.
pub proof fn lemma_store_frame(m: Seq<u8>, addr: int, v: nat, n: nat, k: int)
    requires
        0 <= addr,
        addr + n <= m.len(),
    ensures
        store_le(m, addr, v, n).len() == m.len(),
        0 <= k < m.len() && (k < addr || addr + n <= k) ==> store_le(m, addr, v, n)[k] == m[k],
    decreases n,
{
    if n > 0 {
        lemma_store_frame(m.update(addr, (v % 256) as u8), addr + 1, v / 256, (n - 1) as nat, k);
    }
}

/// A read of the bytes a store wrote gives back the stored value, modulo
/// the width.
pub proof fn lemma_read_after_store(m: Seq<u8>, addr: int, v: nat, n: nat)
    requires
        0 <= addr,
        addr + n <= m.len(),
    ensures
        le_bytes(store_le(m, addr, v, n), addr, n) == v % pow256(n),
    decreases n,
{
    if n > 0 {
        let m1 = m.update(addr, (v % 256) as u8);
        lemma_read_after_store(m1, addr + 1, v / 256, (n - 1) as nat);
        lemma_store_frame(m1, addr + 1, v / 256, (n - 1) as nat, addr);
        let rest = le_bytes(store_le(m1, addr + 1, v / 256, (n - 1) as nat), addr + 1, (n - 1) as nat);
        assert(rest == (v / 256) % pow256((n - 1) as nat));
        assert(pow256(n) == 256 * pow256((n - 1) as nat));
        let p = pow256((n - 1) as nat);
        lemma_pow256_pos((n - 1) as nat);
        vstd::arithmetic::div_mod::lemma_breakdown(v as int, 256, p as int);
        assert(le_bytes(store_le(m, addr, v, n), addr, n) == (v % 256) + 256 * rest);
    }
}

proof fn lemma_pow256_pos(n: nat)
    ensures
        pow256(n) > 0,
    decreases n,
{
    if n > 0 {
        lemma_pow256_pos((n - 1) as nat);
    }
}

/// The four quadwords of vector register `v` (bits 255:0), low first.
pub open spec fn vreg_of(r: Registers, v: int) -> Seq<u64> {
    seq![r.xmm[v][0], r.xmm[v][1], r.ymm_high[v][0], r.ymm_high[v][1]]
}

/// The register file with vector register `v` set to the quadwords `q`.
pub open spec fn with_vreg(r: Registers, v: int, q: Seq<u64>) -> Registers {
    Registers {
        xmm: vstd::array::spec_array_update(r.xmm, v, [q[0], q[1]]),
        ymm_high: vstd::array::spec_array_update(r.ymm_high, v, [q[2], q[3]]),
        ..r
    }
}

/// The first `n` quadwords of `q`, zero above.
pub open spec fn widen(q: Seq<u64>, n: nat) -> Seq<u64> {
    Seq::new(4, |i: int| if i < n { q[i] } else { 0u64 })
}

/// The `n` little-endian quadwords at `addr`.
pub open spec fn qwords(m: Seq<u8>, addr: int, n: nat) -> Seq<u64> {
    Seq::new(n, |i: int| le_bytes(m, addr + 8 * i, 8) as u64)
}

/// Memory after storing the first `n` quadwords of `q` at `addr`.
pub open spec fn store_qwords(m: Seq<u8>, addr: int, q: Seq<u64>, n: nat) -> Seq<u8>
    decreases n,
{
    if n == 0 {
        m
    } else {
        store_qwords(store_le(m, addr, q[0] as nat, 8), addr + 8, q.drop_first(), (n - 1) as nat)
    }
}

/// Byte `i` (0..32, little-endian) of a vector held as quadwords.
pub open spec fn vbyte(q: Seq<u64>, i: int) -> u8 {
    ((q[i / 8] as nat / pow256((i % 8) as nat)) % 256) as u8
}

/// The 32 bytes of a vector.
pub open spec fn vbytes(q: Seq<u64>) -> Seq<u8> {
    Seq::new(32, |i: int| vbyte(q, i))
}

/// Quadwords from 32 little-endian bytes.
pub open spec fn from_vbytes(b: Seq<u8>) -> Seq<u64> {
    Seq::new(4, |k: int| le_bytes(b, 8 * k, 8) as u64)
}

/// The 32 bytes of a vector held as quadwords.
pub fn to_bytes(q: &[u64; 4]) -> (r: [u8; 32])
    ensures
        r@ == vbytes(q@),
{
    let mut r = [0u8; 32];
    let mut k: usize = 0;
    while k < 4
        invariant
            k <= 4,
            forall|i: int| 0 <= i < 8 * k ==> #[trigger] r[i] == vbyte(q@, i),
        decreases 4 - k,
    {
        let mut x = q[k];
        assert(pow256(0) == 1);
        let mut j: usize = 0;
        while j < 8
            invariant
                k < 4,
                j <= 8,
                x as nat == q[k as int] as nat / pow256(j as nat),
                forall|i: int| 0 <= i < 8 * k + j ==> #[trigger] r[i] == vbyte(q@, i),
            decreases 8 - j,
        {
            proof {
                lemma_pow256_pos(j as nat);
                assert((8 * k + j) / 8 == k && (8 * k + j) % 8 == j);
                vstd::arithmetic::div_mod::lemma_div_denominator(
                    q[k as int] as int,
                    pow256(j as nat) as int,
                    256,
                );
                assert(pow256((j + 1) as nat) == 256 * pow256(j as nat));
            }
            r[8 * k + j] = (x % 256) as u8;
            x = x / 256;
            j += 1;
        }
        k += 1;
    }
    assert(r@ =~= vbytes(q@));
    r
}

/// Quadwords from 32 little-endian bytes.
pub fn from_bytes(b: &[u8; 32]) -> (r: [u64; 4])
    ensures
        r@ == from_vbytes(b@),
{
    let mut r = [0u64; 4];
    let mut k: usize = 0;
    while k < 4
        invariant
            k <= 4,
            forall|i: int| 0 <= i < k ==> #[trigger] r[i] == le_bytes(b@, 8 * i, 8) as u64,
        decreases 4 - k,
    {
        let mut v: u64 = 0;
        let mut j: usize = 8;
        while j > 0
            invariant
                k < 4,
                j <= 8,
                v as nat == le_bytes(b@, 8 * k + j, (8 - j) as nat),
                le_bytes(b@, 8 * k + j, (8 - j) as nat) < pow256((8 - j) as nat),
                forall|i: int| 0 <= i < k ==> #[trigger] r[i] == le_bytes(b@, 8 * i, 8) as u64,
            decreases j,
        {
            j -= 1;
            proof {
                lemma_le_step(b@, 8 * k + j, (8 - j - 1) as nat);
                lemma_pow256_bound((8 - j - 1) as nat);
            }
            v = v * 256 + b[8 * k + j] as u64;
        }
        r[k] = v;
        k += 1;
    }
    assert(r@ =~= from_vbytes(b@));
    r
}

/// 256 to the power `n`.
pub open spec fn pow256(n: nat) -> nat
    decreases n,
{
    if n == 0 {
        1
    } else {
        256 * pow256((n - 1) as nat)
    }
}

proof fn lemma_pow256_bound(n: nat)
    requires
        n <= 7,
    ensures
        pow256(n) <= 0x100_0000_0000_0000,
{
    reveal_with_fuel(pow256, 8);
}

/// Peeling the first byte: `le(start, n + 1) = s[start] + 256 * le(start + 1, n)`.
proof fn lemma_le_step(s: Seq<u8>, start: int, n: nat)
    ensures
        le_bytes(s, start, n + 1) == s[start] as nat + 256 * le_bytes(s, start + 1, n),
        le_bytes(s, start + 1, n) < pow256(n) ==> le_bytes(s, start, n + 1) < pow256(n + 1),
{
    assert(le_bytes(s, start, n + 1) == s[start] as nat + 256 * le_bytes(s, start + 1, n));
    assert(pow256(n + 1) == 256 * pow256(n));
    if le_bytes(s, start + 1, n) < pow256(n) {
        assert(le_bytes(s, start + 1, n) + 1 <= pow256(n));
        assert(256 * (le_bytes(s, start + 1, n) + 1) <= 256 * pow256(n)) by (nonlinear_arith)
            requires
                le_bytes(s, start + 1, n) + 1 <= pow256(n),
        ;
    }
}

impl SystemRegisters {
    /// Reset value of the system registers.
    pub open spec fn default_spec() -> SystemRegisters {
        let z = crate::cpu::Segment {
            base: 0,
            limit: 0,
            selector: 0,
            type_: 0,
            present: false,
            dpl: 0,
            db: false,
            s: false,
            l: false,
            g: false,
            avl: false,
            unusable: false,
        };
        let t = crate::cpu::DescriptorTable { base: 0, limit: 0 };
        SystemRegisters {
            cs: z,
            ds: z,
            es: z,
            fs: z,
            gs: z,
            ss: z,
            gdt: t,
            idt: t,
            cr0: 0,
            cr2: 0,
            cr3: 0,
            cr4: 0,
            efer: 0,
            star: 0,
            lstar: 0,
            cstar: 0,
            fmask: 0,
            sysenter_cs: 0,
            sysenter_esp: 0,
            sysenter_eip: 0,
            kernel_gs_base: 0,
        }
    }
}

proof fn lemma_sregs_default(s: SystemRegisters)
    requires
        crate::cpu::segment_null(s.cs) && crate::cpu::segment_null(s.ds)
            && crate::cpu::segment_null(s.es),
        crate::cpu::segment_null(s.fs) && crate::cpu::segment_null(s.gs)
            && crate::cpu::segment_null(s.ss),
        s.gdt.base == 0 && s.gdt.limit == 0 && s.idt.base == 0 && s.idt.limit == 0,
        s.cr0 == 0 && s.cr2 == 0 && s.cr3 == 0 && s.cr4 == 0 && s.efer == 0,
        s.star == 0 && s.lstar == 0 && s.cstar == 0 && s.fmask == 0,
        s.sysenter_cs == 0 && s.sysenter_esp == 0 && s.sysenter_eip == 0,
        s.kernel_gs_base == 0,
    ensures
        s == SystemRegisters::default_spec(),
{
}

} // verus!
