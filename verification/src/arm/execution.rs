//! ARMv7 (AArch32) processor state: registers, program status registers,
//! banked registers, the ALU primitives of the architecture manual
//! (AddWithCarry, Shift_C, ARMExpandImm_C) and a flat memory.

use crate::arm::decoder::ShiftType;
use vstd::prelude::*;

verus! {

/// Masked fields of a word stay below the mask.
pub proof fn lemma_mask_bounds()
    by (bit_vector)
    ensures
        forall|x: u32| #[trigger] (x & 0x1) < 2,
        forall|x: u32| #[trigger] (x & 0x3) < 4,
        forall|x: u32| #[trigger] (x & 0x7) < 8,
        forall|x: u32| #[trigger] (x & 0xF) < 16,
        forall|x: u32| #[trigger] (x & 0x1F) < 32,
        forall|x: u32| #[trigger] (x & 0xFF) < 256,
        forall|x: u32| #[trigger] (x & 0xFFF) < 4096,
        forall|x: u32| #[trigger] (x & 0xFFFF) < 65536,
        forall|x: u32| #[trigger] (x >> 31) < 2,
        forall|a: u32, b: u32| a < 8 && b < 4 ==> #[trigger] ((a << 2) | b) < 32,
        forall|k: u64| k <= 32 ==> 1 <= #[trigger] (1u64 << k) <= 0x1_0000_0000,
        forall|k: u64| k <= 31 ==> 1 <= #[trigger] (1i64 << k) <= 0x8000_0000,
        forall|k: u32| k <= 15 ==> 1 <= #[trigger] (1i32 << k) <= 0x8000,
        forall|k: u32| k <= 15 ==> 1 <= #[trigger] (1u32 << k) <= 0x8000,
        forall|x: i64|
            -0x4000_0000_0000 <= x <= 0x4000_0000_0000 ==> -0x4000_0000 <= #[trigger] (x >> 16)
                <= 0x4000_0000,
{
}

// ============================================================================
// Processor modes
// ============================================================================

/// AArch32 processor mode.
#[derive(Clone, Copy, Debug, PartialEq, Eq, Structural)]
pub enum ProcessorMode {
    User,
    Fiq,
    Irq,
    Supervisor,
    Abort,
    Undefined,
    System,
}

/// The 5-bit CPSR.M encoding of a mode.
pub open spec fn mode_bits(m: ProcessorMode) -> u8 {
    match m {
        ProcessorMode::User => 0x10,
        ProcessorMode::Fiq => 0x11,
        ProcessorMode::Irq => 0x12,
        ProcessorMode::Supervisor => 0x13,
        ProcessorMode::Abort => 0x17,
        ProcessorMode::Undefined => 0x1B,
        ProcessorMode::System => 0x1F,
    }
}

/// The mode with the given CPSR.M encoding, if it names one.
pub open spec fn mode_of(bits: u8) -> Option<ProcessorMode> {
    if bits == 0x10 {
        Some(ProcessorMode::User)
    } else if bits == 0x11 {
        Some(ProcessorMode::Fiq)
    } else if bits == 0x12 {
        Some(ProcessorMode::Irq)
    } else if bits == 0x13 {
        Some(ProcessorMode::Supervisor)
    } else if bits == 0x17 {
        Some(ProcessorMode::Abort)
    } else if bits == 0x1B {
        Some(ProcessorMode::Undefined)
    } else if bits == 0x1F {
        Some(ProcessorMode::System)
    } else {
        None
    }
}

/// Register bank of a mode encoding: User and System share bank 0; any
/// other encoding that names no mode is treated as User.
pub open spec fn bank_of(bits: u8) -> int {
    if bits == 0x11 {
        1
    } else if bits == 0x12 {
        2
    } else if bits == 0x13 {
        3
    } else if bits == 0x17 {
        4
    } else if bits == 0x1B {
        5
    } else {
        0
    }
}

impl ProcessorMode {
    /// Decode a CPSR.M field.
    pub fn from_bits(bits: u8) -> (r: Option<ProcessorMode>)
        ensures
            r == mode_of(bits),
    {
        match bits {
            0x10 => Some(ProcessorMode::User),
            0x11 => Some(ProcessorMode::Fiq),
            0x12 => Some(ProcessorMode::Irq),
            0x13 => Some(ProcessorMode::Supervisor),
            0x17 => Some(ProcessorMode::Abort),
            0x1B => Some(ProcessorMode::Undefined),
            0x1F => Some(ProcessorMode::System),
            _ => None,
        }
    }

    /// The CPSR.M encoding of this mode.
    pub fn bits(&self) -> (r: u8)
        ensures
            r == mode_bits(*self),
    {
        match self {
            ProcessorMode::User => 0x10,
            ProcessorMode::Fiq => 0x11,
            ProcessorMode::Irq => 0x12,
            ProcessorMode::Supervisor => 0x13,
            ProcessorMode::Abort => 0x17,
            ProcessorMode::Undefined => 0x1B,
            ProcessorMode::System => 0x1F,
        }
    }
}

/// Decoding a mode's encoding gives the mode back.
pub proof fn lemma_mode_round_trip(m: ProcessorMode)
    ensures
        mode_of(mode_bits(m)) == Some(m),
{
}

fn bank_index(bits: u8) -> (r: usize)
    ensures
        r == bank_of(bits),
{
    match bits {
        0x11 => 1,
        0x12 => 2,
        0x13 => 3,
        0x17 => 4,
        0x1B => 5,
        _ => 0,
    }
}

// ============================================================================
// Program status register
// ============================================================================

/// A program status register (CPSR or SPSR), field by field.
#[derive(Clone, Copy, Debug, PartialEq, Eq, Structural)]
pub struct Psr {
    pub n: bool,
    pub z: bool,
    pub c: bool,
    pub v: bool,
    pub q: bool,
    /// IT[7:0] (Thumb If-Then state).
    pub it: u8,
    pub j: bool,
    /// GE[3:0].
    pub ge: u8,
    pub e: bool,
    pub a: bool,
    pub i: bool,
    pub f: bool,
    pub t: bool,
    /// M[4:0].
    pub mode: u8,
}

/// 1 for `true`, 0 for `false`.
pub open spec fn b2u(b: bool) -> u32 {
    if b {
        1
    } else {
        0
    }
}

fn flag(b: bool) -> (r: u32)
    ensures
        r == b2u(b),
{
    if b {
        1
    } else {
        0
    }
}

/// The 32-bit encoding of a PSR.
pub open spec fn psr_word(p: Psr) -> u32 {
    (b2u(p.n) << 31) | (b2u(p.z) << 30) | (b2u(p.c) << 29) | (b2u(p.v) << 28) | (b2u(p.q) << 27)
        | (((p.it as u32) & 3) << 25) | (b2u(p.j) << 24) | (((p.ge as u32) & 0xF) << 16) | ((
    (p.it as u32) >> 2) << 10) | (b2u(p.e) << 9) | (b2u(p.a) << 8) | (b2u(p.i) << 7) | (b2u(p.f)
        << 6) | (b2u(p.t) << 5) | ((p.mode as u32) & 0x1F)
}

/// The PSR encoded by a 32-bit word (bits 23:20 are reserved and dropped).
pub open spec fn psr_of(x: u32) -> Psr {
    Psr {
        n: (x >> 31) & 1 != 0,
        z: (x >> 30) & 1 != 0,
        c: (x >> 29) & 1 != 0,
        v: (x >> 28) & 1 != 0,
        q: (x >> 27) & 1 != 0,
        it: (((x >> 25) & 3) | (((x >> 10) & 0x3F) << 2)) as u8,
        j: (x >> 24) & 1 != 0,
        ge: ((x >> 16) & 0xF) as u8,
        e: (x >> 9) & 1 != 0,
        a: (x >> 8) & 1 != 0,
        i: (x >> 7) & 1 != 0,
        f: (x >> 6) & 1 != 0,
        t: (x >> 5) & 1 != 0,
        mode: (x & 0x1F) as u8,
    }
}

impl Psr {
    /// The reset value: Supervisor mode, IRQ and FIQ masked, ARM state.
    pub fn new() -> (r: Psr)
        ensures
            r == psr_reset(),
    {
        Psr {
            n: false,
            z: false,
            c: false,
            v: false,
            q: false,
            it: 0,
            j: false,
            ge: 0,
            e: false,
            a: true,
            i: true,
            f: true,
            t: false,
            mode: 0x13,
        }
    }

    /// Encode as a 32-bit word.
    pub fn to_u32(&self) -> (r: u32)
        ensures
            r == psr_word(*self),
    {
        (flag(self.n) << 31) | (flag(self.z) << 30) | (flag(self.c) << 29) | (flag(self.v) << 28)
            | (flag(self.q) << 27) | (((self.it as u32) & 3) << 25) | (flag(self.j) << 24) | (((
        self.ge as u32) & 0xF) << 16) | (((self.it as u32) >> 2) << 10) | (flag(self.e) << 9) | (
        flag(self.a) << 8) | (flag(self.i) << 7) | (flag(self.f) << 6) | (flag(self.t) << 5) | ((
        self.mode as u32) & 0x1F)
    }

    /// Decode a 32-bit word.
    pub fn from_u32(x: u32) -> (r: Psr)
        ensures
            r == psr_of(x),
    {
        proof {
            lemma_mask_bounds();
        }
        let it_lo = (x >> 25) & 3;
        let it_hi = (x >> 10) & 0x3F;
        Psr {
            n: (x >> 31) & 1 != 0,
            z: (x >> 30) & 1 != 0,
            c: (x >> 29) & 1 != 0,
            v: (x >> 28) & 1 != 0,
            q: (x >> 27) & 1 != 0,
            it: (it_lo | (it_hi << 2)) as u8,
            j: (x >> 24) & 1 != 0,
            ge: ((x >> 16) & 0xF) as u8,
            e: (x >> 9) & 1 != 0,
            a: (x >> 8) & 1 != 0,
            i: (x >> 7) & 1 != 0,
            f: (x >> 6) & 1 != 0,
            t: (x >> 5) & 1 != 0,
            mode: (x & 0x1F) as u8,
        }
    }

    /// Load the IT state of an IT instruction.
    pub fn set_it_state(&mut self, firstcond: u8, mask: u8)
        requires
            firstcond < 16,
            mask < 16,
        ensures
            *final(self) == (Psr { it: (firstcond * 16 + mask) as u8, ..*old(self) }),
    {
        self.it = firstcond * 16 + mask;
    }
}

/// The reset PSR.
pub open spec fn psr_reset() -> Psr {
    Psr {
        n: false,
        z: false,
        c: false,
        v: false,
        q: false,
        it: 0,
        j: false,
        ge: 0,
        e: false,
        a: true,
        i: true,
        f: true,
        t: false,
        mode: 0x13,
    }
}

/// Encoding a PSR and decoding the word gives the PSR back, for every PSR
/// whose fields fit their bit widths.
pub proof fn lemma_psr_round_trip(p: Psr)
    requires
        p.ge < 16,
        p.mode < 32,
    ensures
        psr_of(psr_word(p)) == p,
{
    let (n, z, c, v, q, j, e, a, i, f, t) = (
        b2u(p.n),
        b2u(p.z),
        b2u(p.c),
        b2u(p.v),
        b2u(p.q),
        b2u(p.j),
        b2u(p.e),
        b2u(p.a),
        b2u(p.i),
        b2u(p.f),
        b2u(p.t),
    );
    let it = p.it as u32;
    let ge = p.ge as u32;
    let mode = p.mode as u32;
    let w = psr_word(p);
    assert({
        let w = (n << 31) | (z << 30) | (c << 29) | (v << 28) | (q << 27) | ((it & 3) << 25) | (j
            << 24) | ((ge & 0xF) << 16) | ((it >> 2) << 10) | (e << 9) | (a << 8) | (i << 7) | (f
            << 6) | (t << 5) | (mode & 0x1F);
        &&& ((w >> 31) & 1) == n
        &&& ((w >> 30) & 1) == z
        &&& ((w >> 29) & 1) == c
        &&& ((w >> 28) & 1) == v
        &&& ((w >> 27) & 1) == q
        &&& (((w >> 25) & 3) | (((w >> 10) & 0x3F) << 2)) == it
        &&& ((w >> 24) & 1) == j
        &&& ((w >> 16) & 0xF) == ge
        &&& ((w >> 9) & 1) == e
        &&& ((w >> 8) & 1) == a
        &&& ((w >> 7) & 1) == i
        &&& ((w >> 6) & 1) == f
        &&& ((w >> 5) & 1) == t
        &&& (w & 0x1F) == mode
    }) by (bit_vector)
        requires
            n < 2,
            z < 2,
            c < 2,
            v < 2,
            q < 2,
            j < 2,
            e < 2,
            a < 2,
            i < 2,
            f < 2,
            t < 2,
            it < 256,
            ge < 16,
            mode < 32,
    ;
}

// ============================================================================
// ALU primitives
// ============================================================================

/// AddWithCarry(x, y, carry_in): (result, carry_out, overflow).
pub open spec fn awc(x: u32, y: u32, carry_in: bool) -> (u32, bool, bool) {
    let unsigned_sum = x as int + y as int + b2u(carry_in) as int;
    let signed_sum = (x as i32) as int + (y as i32) as int + b2u(carry_in) as int;
    let result = (unsigned_sum % 0x1_0000_0000) as u32;
    (result, result as int != unsigned_sum, (result as i32) as int != signed_sum)
}

/// AddWithCarry of the architecture manual.
pub fn add_with_carry(x: u32, y: u32, carry_in: bool) -> (r: (u32, bool, bool))
    ensures
        r == awc(x, y, carry_in),
{
    let unsigned_sum: u64 = x as u64 + y as u64 + flag(carry_in) as u64;
    let signed_sum: i64 = (x as i32) as i64 + (y as i32) as i64 + flag(carry_in) as i64;
    let result = (unsigned_sum % 0x1_0000_0000) as u32;
    (result, result as u64 != unsigned_sum, (result as i32) as i64 != signed_sum)
}

/// Bit 31 of a result (the N flag).
pub open spec fn n_flag(result: u32) -> bool {
    (result >> 31) != 0
}

/// The N flag of a result.
pub fn compute_n_flag(result: u32) -> (r: bool)
    ensures
        r == n_flag(result),
{
    (result >> 31) != 0
}

/// The Z flag of a result.
pub fn compute_z_flag(result: u32) -> (r: bool)
    ensures
        r == (result == 0),
{
    result == 0
}

/// ConditionPassed for a 4-bit condition and the NZCV flags.
pub open spec fn cond_holds(cond: u8, n: bool, z: bool, c: bool, v: bool) -> bool {
    if cond == 0 {
        z
    } else if cond == 1 {
        !z
    } else if cond == 2 {
        c
    } else if cond == 3 {
        !c
    } else if cond == 4 {
        n
    } else if cond == 5 {
        !n
    } else if cond == 6 {
        v
    } else if cond == 7 {
        !v
    } else if cond == 8 {
        c && !z
    } else if cond == 9 {
        !c || z
    } else if cond == 10 {
        n == v
    } else if cond == 11 {
        n != v
    } else if cond == 12 {
        !z && n == v
    } else if cond == 13 {
        z || n != v
    } else {
        true
    }
}

/// Evaluate a condition code against the flags.
pub fn condition_passed(cond: u8, n: bool, z: bool, c: bool, v: bool) -> (r: bool)
    ensures
        r == cond_holds(cond, n, z, c, v),
{
    match cond {
        0 => z,
        1 => !z,
        2 => c,
        3 => !c,
        4 => n,
        5 => !n,
        6 => v,
        7 => !v,
        8 => c && !z,
        9 => !c || z,
        10 => n == v,
        11 => n != v,
        12 => !z && n == v,
        13 => z || n != v,
        _ => true,
    }
}

/// Shift_C(value, type, amount, carry_in): (result, carry_out).
pub open spec fn shift_spec(value: u32, st: ShiftType, amount: u32, carry_in: bool) -> (
    u32,
    bool,
) {
    if amount == 0 {
        (value, carry_in)
    } else {
        match st {
            ShiftType::LSL => if amount < 32 {
                (value << amount, (value >> ((32 - amount) as u32)) & 1 == 1)
            } else if amount == 32 {
                (0, value & 1 == 1)
            } else {
                (0, false)
            },
            ShiftType::LSR => if amount < 32 {
                (value >> amount, (value >> ((amount - 1) as u32)) & 1 == 1)
            } else if amount == 32 {
                (0, (value >> 31) == 1)
            } else {
                (0, false)
            },
            ShiftType::ASR => if amount < 32 {
                (((value as i32) >> amount) as u32, (value >> ((amount - 1) as u32)) & 1 == 1)
            } else if (value >> 31) == 1 {
                (0xFFFF_FFFF, true)
            } else {
                (0, false)
            },
            ShiftType::ROR => {
                let a = amount % 32;
                if a == 0 {
                    (value, (value >> 31) == 1)
                } else {
                    let r = (value >> a) | (value << ((32 - a) as u32));
                    (r, (r >> 31) == 1)
                }
            },
            ShiftType::RRX => ((b2u(carry_in) << 31) | (value >> 1), value & 1 == 1),
        }
    }
}

/// Shift_C of the architecture manual.
pub fn shift_c(value: u32, st: ShiftType, amount: u32, carry_in: bool) -> (r: (u32, bool))
    ensures
        r == shift_spec(value, st, amount, carry_in),
{
    if amount == 0 {
        return (value, carry_in);
    }
    match st {
        ShiftType::LSL => if amount < 32 {
            (value << amount, (value >> (32 - amount)) & 1 == 1)
        } else if amount == 32 {
            (0, value & 1 == 1)
        } else {
            (0, false)
        },
        ShiftType::LSR => if amount < 32 {
            (value >> amount, (value >> (amount - 1)) & 1 == 1)
        } else if amount == 32 {
            (0, (value >> 31) == 1)
        } else {
            (0, false)
        },
        ShiftType::ASR => if amount < 32 {
            (((value as i32) >> amount) as u32, (value >> (amount - 1)) & 1 == 1)
        } else if (value >> 31) == 1 {
            (0xFFFF_FFFF, true)
        } else {
            (0, false)
        },
        ShiftType::ROR => {
            let a = amount % 32;
            if a == 0 {
                (value, (value >> 31) == 1)
            } else {
                let r = (value >> a) | (value << (32 - a));
                (r, (r >> 31) == 1)
            }
        },
        ShiftType::RRX => ((flag(carry_in) << 31) | (value >> 1), value & 1 == 1),
    }
}

/// ARMExpandImm_C: an 8-bit value rotated right by twice the 4-bit field.
pub open spec fn expand_imm_spec(imm12: u32, carry_in: bool) -> (u32, bool) {
    shift_spec(imm12 & 0xFF, ShiftType::ROR, (2 * ((imm12 >> 8) & 0xF)) as u32, carry_in)
}

/// ARMExpandImm_C of the architecture manual.
pub fn expand_imm_c(imm12: u32, carry_in: bool) -> (r: (u32, bool))
    ensures
        r == expand_imm_spec(imm12, carry_in),
{
    proof {
        lemma_mask_bounds();
    }
    shift_c(imm12 & 0xFF, ShiftType::ROR, 2 * ((imm12 >> 8) & 0xF), carry_in)
}

/// The low `bits` bits of `value`, sign-extended to 32 bits.
pub open spec fn sext(value: u32, bits: u32) -> u32 {
    if bits >= 32 {
        value
    } else {
        (((value << ((32 - bits) as u32)) as i32) >> ((32 - bits) as u32)) as u32
    }
}

/// Sign-extend the low `bits` bits of `value`.
pub fn sign_extend(value: u32, bits: u32) -> (r: u32)
    requires
        1 <= bits <= 32,
    ensures
        r == sext(value, bits),
{
    if bits >= 32 {
        value
    } else {
        let shift = 32 - bits;
        (((value << shift) as i32) >> shift) as u32
    }
}

// ============================================================================
// CPU state
// ============================================================================

/// ARMv7 core state: the visible registers of the current mode, the CPSR,
/// the SP/LR and SPSR banks of the other modes, and the carry and overflow
/// outputs of the last ALU operation.
#[derive(Clone, Copy, Debug)]
pub struct Armv7Cpu {
    /// R0..R15 of the current mode (R15 is the address of the current
    /// instruction).
    pub regs: [u32; 16],
    pub cpsr: Psr,
    /// SP of each bank (0 = User/System, 1 = FIQ, 2 = IRQ, 3 = Supervisor,
    /// 4 = Abort, 5 = Undefined) while that bank is not current.
    pub banked_sp: [u32; 6],
    /// LR of each bank while that bank is not current.
    pub banked_lr: [u32; 6],
    /// SPSR of each exception bank (entry 0 is unused).
    pub spsr: [Psr; 6],
    /// Carry out of the last shift or addition.
    pub carry_out: bool,
    /// Overflow of the last addition.
    pub overflow: bool,
}

/// Abstract view of the core state: sequences in place of arrays.
#[verifier::ext_equal]
pub struct CpuState {
    pub regs: Seq<u32>,
    pub cpsr: Psr,
    pub banked_sp: Seq<u32>,
    pub banked_lr: Seq<u32>,
    pub spsr: Seq<Psr>,
    pub carry_out: bool,
    pub overflow: bool,
}

impl View for Armv7Cpu {
    type V = CpuState;

    open spec fn view(&self) -> CpuState {
        CpuState {
            regs: self.regs@,
            cpsr: self.cpsr,
            banked_sp: self.banked_sp@,
            banked_lr: self.banked_lr@,
            spsr: self.spsr@,
            carry_out: self.carry_out,
            overflow: self.overflow,
        }
    }
}

/// R15 as read by an instruction: the current instruction's address plus 8
/// in ARM state, plus 4 in Thumb state.
pub open spec fn pc_read(cpu: CpuState) -> u32 {
    cpu.regs[15].wrapping_add(
        if cpu.cpsr.t {
            4
        } else {
            8
        },
    )
}

/// Value of register `r` as an operand.
pub open spec fn reg_read(cpu: CpuState, r: int) -> u32 {
    if r == 15 {
        pc_read(cpu)
    } else {
        cpu.regs[r]
    }
}

/// The state after switching from the current mode to `m`: the current SP
/// and LR are stored in the current bank and those of `m`'s bank loaded.
pub open spec fn mode_switched(cpu: CpuState, m: ProcessorMode) -> CpuState {
    let from = bank_of(cpu.cpsr.mode);
    let to = bank_of(mode_bits(m));
    if from == to {
        CpuState { cpsr: Psr { mode: mode_bits(m), ..cpu.cpsr }, ..cpu }
    } else {
        CpuState {
            regs: cpu.regs.update(13, cpu.banked_sp[to]).update(14, cpu.banked_lr[to]),
            banked_sp: cpu.banked_sp.update(from, cpu.regs[13]),
            banked_lr: cpu.banked_lr.update(from, cpu.regs[14]),
            cpsr: Psr { mode: mode_bits(m), ..cpu.cpsr },
            ..cpu
        }
    }
}

/// Whether the current mode has an SPSR (any exception mode).
pub open spec fn has_spsr(cpu: CpuState) -> bool {
    bank_of(cpu.cpsr.mode) != 0
}

/// The SPSR of the current mode.
pub open spec fn current_spsr(cpu: CpuState) -> Option<Psr> {
    if has_spsr(cpu) {
        Some(cpu.spsr[bank_of(cpu.cpsr.mode)])
    } else {
        None
    }
}

impl Armv7Cpu {
    /// A core out of reset: all registers zero, Supervisor mode.
    pub fn new() -> (r: Armv7Cpu)
        ensures
            r.regs@ == Seq::new(16, |i: int| 0u32),
            r.cpsr == psr_reset(),
            r.banked_sp@ == Seq::new(6, |i: int| 0u32),
            r.banked_lr@ == Seq::new(6, |i: int| 0u32),
            r.spsr@ == Seq::new(6, |i: int| psr_reset()),
            !r.carry_out,
            !r.overflow,
    {
        let p = Psr::new();
        let r = Armv7Cpu {
            regs: [0u32; 16],
            cpsr: p,
            banked_sp: [0u32; 6],
            banked_lr: [0u32; 6],
            spsr: [p, p, p, p, p, p],
            carry_out: false,
            overflow: false,
        };
        assert(r.regs@ =~= Seq::new(16, |i: int| 0u32));
        assert(r.banked_sp@ =~= Seq::new(6, |i: int| 0u32));
        assert(r.banked_lr@ =~= Seq::new(6, |i: int| 0u32));
        assert(r.spsr@ =~= Seq::new(6, |i: int| psr_reset()));
        r
    }

    /// Value of register `r` as an operand (R15 reads as the current
    /// instruction's address plus 8 in ARM state, plus 4 in Thumb state).
    pub fn reg(&self, r: usize) -> (v: u32)
        requires
            r < 16,
        ensures
            v == reg_read(self@, r as int),
    {
        if r == 15 {
            self.get_pc()
        } else {
            self.regs[r]
        }
    }

    /// R15 as read by an instruction.
    pub fn get_pc(&self) -> (v: u32)
        ensures
            v == pc_read(self@),
    {
        self.regs[15].wrapping_add(
            if self.cpsr.t {
                4
            } else {
                8
            },
        )
    }

    /// AddWithCarry, recording the carry and overflow outputs.
    pub fn add_with_carry(&mut self, x: u32, y: u32, carry_in: bool) -> (r: u32)
        ensures
            r == awc(x, y, carry_in).0,
            final(self)@ == (CpuState {
                carry_out: awc(x, y, carry_in).1,
                overflow: awc(x, y, carry_in).2,
                ..old(self)@
            }),
    {
        let (result, carry, overflow) = add_with_carry(x, y, carry_in);
        self.carry_out = carry;
        self.overflow = overflow;
        result
    }

    /// Shift_C with the current C flag as carry in, recording the carry out.
    pub fn shift_c(&mut self, value: u32, st: ShiftType, amount: u32) -> (r: u32)
        ensures
            r == shift_spec(value, st, amount, old(self).cpsr.c).0,
            final(self)@ == (CpuState {
                carry_out: shift_spec(value, st, amount, old(self).cpsr.c).1,
                ..old(self)@
            }),
    {
        let (result, carry) = shift_c(value, st, amount, self.cpsr.c);
        self.carry_out = carry;
        result
    }

    /// Whether the core runs in User or System mode.
    pub fn is_user_or_system(&self) -> (r: bool)
        ensures
            r == (self.cpsr.mode == 0x10 || self.cpsr.mode == 0x1F),
    {
        self.cpsr.mode == 0x10 || self.cpsr.mode == 0x1F
    }

    /// Whether the core runs in a privileged mode (any mode but User).
    pub fn is_privileged(&self) -> (r: bool)
        ensures
            r == (self.cpsr.mode != 0x10),
    {
        self.cpsr.mode != 0x10
    }

    /// Switch to mode `m`, banking SP and LR.
    pub fn change_mode(&mut self, m: ProcessorMode)
        ensures
            final(self)@ == mode_switched(old(self)@, m),
    {
        let from = bank_index(self.cpsr.mode);
        let to = bank_index(m.bits());
        if from != to {
            self.banked_sp[from] = self.regs[13];
            self.banked_lr[from] = self.regs[14];
            self.regs[13] = self.banked_sp[to];
            self.regs[14] = self.banked_lr[to];
        }
        self.cpsr.mode = m.bits();
        proof {
            let o = old(self)@;
            if from != to {
                assert(self.regs@ =~= o.regs.update(13, o.banked_sp[to as int]).update(
                    14,
                    o.banked_lr[to as int],
                ));
                assert(self.banked_sp@ =~= o.banked_sp.update(from as int, o.regs[13]));
                assert(self.banked_lr@ =~= o.banked_lr.update(from as int, o.regs[14]));
            }
        }
    }

    /// The SPSR of the current mode (none in User and System mode).
    pub fn get_current_spsr(&self) -> (r: Option<Psr>)
        ensures
            r == current_spsr(self@),
    {
        let b = bank_index(self.cpsr.mode);
        if b == 0 {
            None
        } else {
            Some(self.spsr[b])
        }
    }

    /// Replace the SPSR of the current mode; false (and no change) in User
    /// and System mode.
    pub fn set_current_spsr(&mut self, p: Psr) -> (r: bool)
        ensures
            r == has_spsr(old(self)@),
            r ==> final(self)@ == (CpuState {
                spsr: old(self).spsr@.update(bank_of(old(self).cpsr.mode), p),
                ..old(self)@
            }),
            !r ==> final(self)@ == old(self)@,
    {
        let b = bank_index(self.cpsr.mode);
        if b == 0 {
            false
        } else {
            self.spsr[b] = p;
            proof {
                assert(self.spsr@ =~= old(self).spsr@.update(b as int, p));
            }
            true
        }
    }
}

// ============================================================================
// Memory
// ============================================================================

/// A failed memory access.
#[derive(Clone, Copy, Debug, PartialEq, Eq, Structural)]
pub enum MemoryError {
    /// The address is not backed by memory.
    Unmapped(u32),
}

/// `addr + k` in the 32-bit address space.
pub open spec fn at(addr: u32, k: u32) -> u32 {
    addr.wrapping_add(k)
}

/// Little-endian halfword of two bytes.
pub open spec fn le16(b0: u8, b1: u8) -> u16 {
    (b0 as u16) | ((b1 as u16) << 8)
}

/// Little-endian word of four bytes.
pub open spec fn le32(b0: u8, b1: u8, b2: u8, b3: u8) -> u32 {
    (b0 as u32) | ((b1 as u32) << 8) | ((b2 as u32) << 16) | ((b3 as u32) << 24)
}

/// Byte-addressed memory seen by the executor.
pub trait ArmMemory {
    /// Whether `addr` is backed by memory.
    spec fn mapped(&self, addr: u32) -> bool;

    /// The byte at `addr`.
    spec fn byte(&self, addr: u32) -> u8;

    /// Read one byte.
    fn read_byte(&self, addr: u32) -> (r: Result<u8, MemoryError>)
        ensures
            match r {
                Ok(b) => self.mapped(addr) && b == self.byte(addr),
                Err(e) => !self.mapped(addr) && e == MemoryError::Unmapped(addr),
            },
    ;

    /// Read a little-endian halfword.
    fn read_halfword(&self, addr: u32) -> (r: Result<u16, MemoryError>)
        ensures
            match r {
                Ok(h) => self.mapped(addr) && self.mapped(at(addr, 1)) && h == le16(
                    self.byte(addr),
                    self.byte(at(addr, 1)),
                ),
                Err(e) => !(self.mapped(addr) && self.mapped(at(addr, 1))) && e
                    == MemoryError::Unmapped(addr),
            },
    ;

    /// Read a little-endian word.
    fn read_word(&self, addr: u32) -> (r: Result<u32, MemoryError>)
        ensures
            match r {
                Ok(w) => self.mapped(addr) && self.mapped(at(addr, 1)) && self.mapped(at(addr, 2))
                    && self.mapped(at(addr, 3)) && w == le32(
                    self.byte(addr),
                    self.byte(at(addr, 1)),
                    self.byte(at(addr, 2)),
                    self.byte(at(addr, 3)),
                ),
                Err(e) => !(self.mapped(addr) && self.mapped(at(addr, 1)) && self.mapped(
                    at(addr, 2),
                ) && self.mapped(at(addr, 3))) && e == MemoryError::Unmapped(addr),
            },
    ;

    /// Write one byte.
    fn write_byte(&mut self, addr: u32, value: u8) -> (r: Result<(), MemoryError>)
        ensures
            forall|a: u32| #[trigger] final(self).mapped(a) == old(self).mapped(a),
            match r {
                Ok(_) => old(self).mapped(addr) && forall|a: u32| #[trigger]
                    final(self).byte(a) == if a == addr {
                        value
                    } else {
                        old(self).byte(a)
                    },
                Err(e) => !old(self).mapped(addr) && e == MemoryError::Unmapped(addr) && forall|
                    a: u32,
                | #[trigger] final(self).byte(a) == old(self).byte(a),
            },
    ;

    /// Write a little-endian halfword.
    fn write_halfword(&mut self, addr: u32, value: u16) -> (r: Result<(), MemoryError>)
        ensures
            forall|a: u32| #[trigger] final(self).mapped(a) == old(self).mapped(a),
            match r {
                Ok(_) => old(self).mapped(addr) && old(self).mapped(at(addr, 1)) && forall|
                    a: u32,
                | #[trigger] final(self).byte(a) == if a == addr {
                    (value & 0xFF) as u8
                } else if a == at(addr, 1) {
                    (value >> 8) as u8
                } else {
                    old(self).byte(a)
                },
                Err(e) => !(old(self).mapped(addr) && old(self).mapped(at(addr, 1))) && e
                    == MemoryError::Unmapped(addr) && forall|a: u32| #[trigger]
                    final(self).byte(a) == old(self).byte(a),
            },
    ;

    /// Write a little-endian word.
    fn write_word(&mut self, addr: u32, value: u32) -> (r: Result<(), MemoryError>)
        ensures
            forall|a: u32| #[trigger] final(self).mapped(a) == old(self).mapped(a),
            match r {
                Ok(_) => old(self).mapped(addr) && old(self).mapped(at(addr, 1)) && old(
                    self,
                ).mapped(at(addr, 2)) && old(self).mapped(at(addr, 3)) && forall|a: u32| #[trigger]
                    final(self).byte(a) == word_byte_update(old(self).byte(a), a, addr, value),
                Err(e) => !(old(self).mapped(addr) && old(self).mapped(at(addr, 1)) && old(
                    self,
                ).mapped(at(addr, 2)) && old(self).mapped(at(addr, 3))) && e
                    == MemoryError::Unmapped(addr) && forall|a: u32| #[trigger]
                    final(self).byte(a) == old(self).byte(a),
            },
    ;
}

/// The byte at `a` after writing the word `value` at `addr` over `old`.
pub open spec fn word_byte_update(prev: u8, a: u32, addr: u32, value: u32) -> u8 {
    if a == addr {
        (value & 0xFF) as u8
    } else if a == at(addr, 1) {
        ((value >> 8) & 0xFF) as u8
    } else if a == at(addr, 2) {
        ((value >> 16) & 0xFF) as u8
    } else if a == at(addr, 3) {
        (value >> 24) as u8
    } else {
        prev
    }
}

/// Memory backed by one contiguous byte array starting at `base`.
pub struct FlatMemory {
    data: Vec<u8>,
    base: u32,
}

impl FlatMemory {
    /// Bytes of the memory.
    pub closed spec fn contents(&self) -> Seq<u8> {
        self.data@
    }

    /// Address of the first byte.
    pub closed spec fn start(&self) -> u32 {
        self.base
    }

    /// `size` zero bytes starting at address `base`.
    pub fn new(size: usize, base: u32) -> (r: FlatMemory)
        ensures
            r.start() == base,
            r.contents() == Seq::new(size as nat, |i: int| 0u8),
    {
        let mut data: Vec<u8> = Vec::new();
        let mut i: usize = 0;
        while i < size
            invariant
                i <= size,
                data@ == Seq::new(i as nat, |k: int| 0u8),
            decreases size - i,
        {
            data.push(0);
            i = i + 1;
            assert(data@ =~= Seq::new(i as nat, |k: int| 0u8));
        }
        FlatMemory { data, base }
    }

    /// Index of `addr` in the byte array, if it is backed.
    fn index_of(&self, addr: u32) -> (r: Option<usize>)
        ensures
            r is Some <==> self.mapped(addr),
            r matches Some(i) ==> i == addr - self.base && i < self.data.len(),
    {
        if addr >= self.base && ((addr - self.base) as usize) < self.data.len() {
            Some((addr - self.base) as usize)
        } else {
            None
        }
    }
}

impl ArmMemory for FlatMemory {
    open spec fn mapped(&self, addr: u32) -> bool {
        self.start() <= addr && addr - self.start() < self.contents().len()
    }

    open spec fn byte(&self, addr: u32) -> u8 {
        if self.mapped(addr) {
            self.contents()[addr - self.start()]
        } else {
            0
        }
    }

    fn read_byte(&self, addr: u32) -> (r: Result<u8, MemoryError>) {
        match self.index_of(addr) {
            Some(i) => Ok(self.data[i]),
            None => Err(MemoryError::Unmapped(addr)),
        }
    }

    fn read_halfword(&self, addr: u32) -> (r: Result<u16, MemoryError>) {
        match (self.index_of(addr), self.index_of(addr.wrapping_add(1))) {
            (Some(i0), Some(i1)) => Ok((self.data[i0] as u16) | ((self.data[i1] as u16) << 8)),
            _ => Err(MemoryError::Unmapped(addr)),
        }
    }

    fn read_word(&self, addr: u32) -> (r: Result<u32, MemoryError>) {
        match (
            self.index_of(addr),
            self.index_of(addr.wrapping_add(1)),
            self.index_of(addr.wrapping_add(2)),
            self.index_of(addr.wrapping_add(3)),
        ) {
            (Some(i0), Some(i1), Some(i2), Some(i3)) => Ok(
                (self.data[i0] as u32) | ((self.data[i1] as u32) << 8) | ((self.data[i2] as u32)
                    << 16) | ((self.data[i3] as u32) << 24),
            ),
            _ => Err(MemoryError::Unmapped(addr)),
        }
    }

    fn write_byte(&mut self, addr: u32, value: u8) -> (r: Result<(), MemoryError>) {
        match self.index_of(addr) {
            Some(i) => {
                self.data.set(i, value);
                assert forall|a: u32| #[trigger]
                    self.byte(a) == if a == addr {
                        value
                    } else {
                        old(self).byte(a)
                    } by {}
                Ok(())
            },
            None => Err(MemoryError::Unmapped(addr)),
        }
    }

    fn write_halfword(&mut self, addr: u32, value: u16) -> (r: Result<(), MemoryError>) {
        match (self.index_of(addr), self.index_of(addr.wrapping_add(1))) {
            (Some(i0), Some(i1)) => {
                self.data.set(i0, (value & 0xFF) as u8);
                self.data.set(i1, (value >> 8) as u8);
                assert forall|a: u32| #[trigger]
                    self.byte(a) == if a == addr {
                        (value & 0xFF) as u8
                    } else if a == at(addr, 1) {
                        (value >> 8) as u8
                    } else {
                        old(self).byte(a)
                    } by {}
                Ok(())
            },
            _ => Err(MemoryError::Unmapped(addr)),
        }
    }

    fn write_word(&mut self, addr: u32, value: u32) -> (r: Result<(), MemoryError>) {
        match (
            self.index_of(addr),
            self.index_of(addr.wrapping_add(1)),
            self.index_of(addr.wrapping_add(2)),
            self.index_of(addr.wrapping_add(3)),
        ) {
            (Some(i0), Some(i1), Some(i2), Some(i3)) => {
                self.data.set(i0, (value & 0xFF) as u8);
                self.data.set(i1, ((value >> 8) & 0xFF) as u8);
                self.data.set(i2, ((value >> 16) & 0xFF) as u8);
                self.data.set(i3, (value >> 24) as u8);
                assert forall|a: u32| #[trigger]
                    self.byte(a) == word_byte_update(old(self).byte(a), a, addr, value) by {}
                Ok(())
            },
            _ => Err(MemoryError::Unmapped(addr)),
        }
    }
}

} // verus!
