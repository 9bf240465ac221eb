//! Decoded ARM instruction representation shared by the decoders and the
//! executor.

use vstd::prelude::*;

pub mod aarch32;

verus! {

/// Instruction set state an instruction was decoded in.
#[derive(Clone, Copy, Debug, PartialEq, Eq, Structural)]
pub enum ExecutionState {
    /// AArch64 (A64).
    Aarch64,
    /// AArch32 (A32).
    Aarch32,
    /// ARM (A32) as used by the ARMv7 executor.
    Arm,
    /// Thumb (T16).
    Thumb,
    /// Thumb-2 (T32).
    Thumb2,
}

/// Whether a state is one of the Thumb states.
pub open spec fn thumb_state(s: ExecutionState) -> bool {
    s == ExecutionState::Thumb || s == ExecutionState::Thumb2
}

impl ExecutionState {
    /// Whether this is a Thumb (T16 or T32) state.
    pub fn is_thumb(&self) -> (r: bool)
        ensures
            r == thumb_state(*self),
    {
        match self {
            ExecutionState::Thumb | ExecutionState::Thumb2 => true,
            _ => false,
        }
    }
}

/// Condition code (bits [31:28] of an A32 instruction).
#[derive(Clone, Copy, Debug, PartialEq, Eq, Structural)]
pub enum Condition {
    EQ,
    NE,
    CS,
    CC,
    MI,
    PL,
    VS,
    VC,
    HI,
    LS,
    GE,
    LT,
    GT,
    LE,
    AL,
    NV,
}

/// The condition with the given 4-bit encoding.
pub open spec fn condition_of(bits: u8) -> Condition {
    if bits == 0 {
        Condition::EQ
    } else if bits == 1 {
        Condition::NE
    } else if bits == 2 {
        Condition::CS
    } else if bits == 3 {
        Condition::CC
    } else if bits == 4 {
        Condition::MI
    } else if bits == 5 {
        Condition::PL
    } else if bits == 6 {
        Condition::VS
    } else if bits == 7 {
        Condition::VC
    } else if bits == 8 {
        Condition::HI
    } else if bits == 9 {
        Condition::LS
    } else if bits == 10 {
        Condition::GE
    } else if bits == 11 {
        Condition::LT
    } else if bits == 12 {
        Condition::GT
    } else if bits == 13 {
        Condition::LE
    } else if bits == 14 {
        Condition::AL
    } else {
        Condition::NV
    }
}

/// The 4-bit encoding of a condition.
pub open spec fn cond_bits(c: Condition) -> u8 {
    match c {
        Condition::EQ => 0,
        Condition::NE => 1,
        Condition::CS => 2,
        Condition::CC => 3,
        Condition::MI => 4,
        Condition::PL => 5,
        Condition::VS => 6,
        Condition::VC => 7,
        Condition::HI => 8,
        Condition::LS => 9,
        Condition::GE => 10,
        Condition::LT => 11,
        Condition::GT => 12,
        Condition::LE => 13,
        Condition::AL => 14,
        Condition::NV => 15,
    }
}

impl Condition {
    /// Decode a condition field (only the low four bits are used).
    pub fn from_bits(bits: u8) -> (r: Condition)
        ensures
            r == condition_of(bits & 0xF),
    {
        match bits & 0xF {
            0 => Condition::EQ,
            1 => Condition::NE,
            2 => Condition::CS,
            3 => Condition::CC,
            4 => Condition::MI,
            5 => Condition::PL,
            6 => Condition::VS,
            7 => Condition::VC,
            8 => Condition::HI,
            9 => Condition::LS,
            10 => Condition::GE,
            11 => Condition::LT,
            12 => Condition::GT,
            13 => Condition::LE,
            14 => Condition::AL,
            _ => Condition::NV,
        }
    }

    /// The 4-bit encoding of the condition.
    pub fn bits(&self) -> (r: u8)
        ensures
            r < 16,
            r == cond_bits(*self),
            condition_of(r) == *self,
    {
        match self {
            Condition::EQ => 0,
            Condition::NE => 1,
            Condition::CS => 2,
            Condition::CC => 3,
            Condition::MI => 4,
            Condition::PL => 5,
            Condition::VS => 6,
            Condition::VC => 7,
            Condition::HI => 8,
            Condition::LS => 9,
            Condition::GE => 10,
            Condition::LT => 11,
            Condition::GT => 12,
            Condition::LE => 13,
            Condition::AL => 14,
            Condition::NV => 15,
        }
    }
}

/// Shift applied to a register operand.
#[derive(Clone, Copy, Debug, PartialEq, Eq, Structural)]
pub enum ShiftType {
    LSL,
    LSR,
    ASR,
    ROR,
    RRX,
}

/// The shift type with the given 2-bit encoding.
pub open spec fn shift_type_of(bits: u8) -> ShiftType {
    if bits == 0 {
        ShiftType::LSL
    } else if bits == 1 {
        ShiftType::LSR
    } else if bits == 2 {
        ShiftType::ASR
    } else {
        ShiftType::ROR
    }
}

impl ShiftType {
    /// Decode a 2-bit shift type field.
    pub fn from_bits(bits: u8) -> (r: ShiftType)
        ensures
            r == shift_type_of(bits & 3),
    {
        match bits & 3 {
            0 => ShiftType::LSL,
            1 => ShiftType::LSR,
            2 => ShiftType::ASR,
            _ => ShiftType::ROR,
        }
    }
}

/// A general-purpose register operand.
#[derive(Clone, Copy, Debug, PartialEq, Eq, Structural)]
pub struct Register {
    /// Register number.
    pub num: u8,
    /// 64-bit view (AArch64 X register).
    pub is_64: bool,
    /// Encoding 31 names the stack pointer.
    pub is_sp: bool,
}

impl Register {
    /// A register by number.
    pub fn raw(num: u8, is_64: bool, is_sp: bool) -> (r: Register)
        ensures
            r == (Register { num, is_64, is_sp }),
    {
        Register { num, is_64, is_sp }
    }
}

/// An A32 register operand with number `n`.
pub open spec fn reg(n: u8) -> Register {
    Register { num: n, is_64: false, is_sp: false }
}

/// Immediate operand.
#[derive(Clone, Copy, Debug, PartialEq, Eq, Structural)]
pub struct Immediate {
    pub value: i64,
}

impl Immediate {
    pub fn new(value: i64) -> (r: Immediate)
        ensures
            r == (Immediate { value }),
    {
        Immediate { value }
    }
}

/// Register shifted by an immediate amount.
#[derive(Clone, Copy, Debug, PartialEq, Eq, Structural)]
pub struct ShiftedRegister {
    pub reg: Register,
    pub shift: ShiftType,
    pub amount: u8,
}

impl ShiftedRegister {
    pub fn new(reg: Register, shift: ShiftType, amount: u8) -> (r: ShiftedRegister)
        ensures
            r == (ShiftedRegister { reg, shift, amount }),
    {
        ShiftedRegister { reg, shift, amount }
    }
}

/// Offset part of a memory operand.
#[derive(Clone, Copy, Debug, PartialEq, Eq, Structural)]
pub enum MemOffset {
    /// No offset.
    Zero,
    Imm(i64),
    Reg(Register),
    ShiftedReg(ShiftedRegister),
}

/// Addressing mode of a memory operand.
#[derive(Clone, Copy, Debug, PartialEq, Eq, Structural)]
pub enum AddressingMode {
    /// `[Rn, off]`
    Offset,
    /// `[Rn, off]!`
    PreIndex,
    /// `[Rn], off`
    PostIndex,
}

/// Memory operand.
#[derive(Clone, Copy, Debug, PartialEq, Eq, Structural)]
pub struct MemOperand {
    pub base: Register,
    pub offset: MemOffset,
    pub mode: AddressingMode,
}

/// Register list of a load/store multiple (bit `i` names register `i`).
#[derive(Clone, Copy, Debug, PartialEq, Eq, Structural)]
pub struct RegisterList {
    pub mask: u16,
}

impl RegisterList {
    pub fn from_mask(mask: u16) -> (r: RegisterList)
        ensures
            r == (RegisterList { mask }),
    {
        RegisterList { mask }
    }
}

/// Barrier option field of DMB/DSB/ISB.
#[derive(Clone, Copy, Debug, PartialEq, Eq, Structural)]
pub struct BarrierOption {
    pub bits: u8,
}

impl BarrierOption {
    pub fn from_bits(bits: u8) -> (r: BarrierOption)
        ensures
            r == (BarrierOption { bits: bits & 0xF }),
    {
        BarrierOption { bits: bits & 0xF }
    }
}

/// Instruction operand.
#[derive(Clone, Copy, Debug, PartialEq, Eq, Structural)]
pub enum Operand {
    Reg(Register),
    Imm(Immediate),
    ShiftedReg(ShiftedRegister),
    Mem(MemOperand),
    /// PC-relative branch offset in bytes.
    Label(i64),
    RegList(RegisterList),
    Barrier(BarrierOption),
}

/// Decoder failure.
#[derive(Clone, Copy, Debug, PartialEq, Eq, Structural)]
pub enum DecodeError {
    /// The encoding is not a valid instruction.
    InvalidEncoding(u32),
    /// Not enough bytes.
    Truncated,
}

/// Instruction mnemonic.
#[allow(non_camel_case_types)]
#[derive(Clone, Copy, Debug, PartialEq, Eq, Structural)]
pub enum Mnemonic {
    A32_DUAL,
    A32_EXTEND,
    A32_HMUL,
    A32_PARALLEL,
    A32_PKH,
    A32_SAT16,
    A32_SAT_ADDSUB,
    A32_SEL,
    A32_SMLALD,
    A32_SMMUL,
    A32_USAD,
    ADC,
    ADCS,
    ADD,
    ADDS,
    AND,
    ANDS,
    ASR,
    ASRS,
    B,
    BCC,
    BFC,
    BFI,
    BIC,
    BICS,
    BKPT,
    BL,
    BLX,
    BX,
    CBNZ,
    CBZ,
    CDP,
    CLREX,
    CLZ,
    CMN,
    CMP,
    DMB,
    DSB,
    EOR,
    EORS,
    HINT,
    ISB,
    IT,
    LDC,
    LDM,
    LDMDA,
    LDMDB,
    LDMIA,
    LDMIB,
    LDP,
    LDR,
    LDRB,
    LDRH,
    LDRSB,
    LDRSH,
    LDXR,
    LDXRB,
    LDXRH,
    LSL,
    LSLS,
    LSR,
    LSRS,
    MCR,
    MLA,
    MLS,
    MOV,
    MOVK,
    MOVS,
    MOVZ,
    MRC,
    MRS,
    MSR,
    MUL,
    MULS,
    MVN,
    MVNS,
    NEG,
    NEGS,
    NOP,
    ORN,
    ORNS,
    ORR,
    ORRS,
    POP,
    PUSH,
    RBIT,
    REV,
    REV16,
    REVSH,
    ROR,
    RORS,
    RRX,
    RRXS,
    RSB,
    RSBS,
    RSC,
    RSCS,
    SBC,
    SBCS,
    SBFX,
    SDIV,
    SEV,
    SEVL,
    SMLAL,
    SMULL,
    SMULLS,
    SSAT,
    STC,
    STM,
    STMDA,
    STMDB,
    STMIA,
    STMIB,
    STP,
    STR,
    STRB,
    STRH,
    STXR,
    STXRB,
    STXRH,
    SUB,
    SUBS,
    SVC,
    SWI,
    SXTB,
    SXTH,
    TBB,
    TBH,
    TEQ,
    TST,
    UBFX,
    UDF,
    UDIV,
    UMAAL,
    UMLAL,
    UMULL,
    UMULLS,
    UNDEFINED,
    UNKNOWN,
    USAT,
    UXTB,
    UXTH,
    WFE,
    WFI,
    YIELD,
}

/// A decoded instruction.
#[derive(Clone, Debug)]
pub struct DecodedInsn {
    pub mnemonic: Mnemonic,
    /// Condition, absent for unconditional (AL) instructions.
    pub cond: Option<Condition>,
    pub operands: Vec<Operand>,
    /// The S bit: the instruction updates the condition flags.
    pub sets_flags: bool,
    /// The raw encoding.
    pub raw: u32,
    /// Encoding size in bytes.
    pub size: u8,
    pub state: ExecutionState,
}

impl DecodedInsn {
    /// `self` is the instruction with these fields.
    pub open spec fn is(
        &self,
        mnemonic: Mnemonic,
        cond: Option<Condition>,
        operands: Seq<Operand>,
        sets_flags: bool,
        raw: u32,
        size: u8,
        state: ExecutionState,
    ) -> bool {
        &&& self.mnemonic == mnemonic
        &&& self.cond == cond
        &&& self.operands@ == operands
        &&& self.sets_flags == sets_flags
        &&& self.raw == raw
        &&& self.size == size
        &&& self.state == state
    }

    /// A new unconditional instruction without operands.
    pub fn new(mnemonic: Mnemonic, state: ExecutionState, raw: u32, size: u8) -> (r: Self)
        ensures
            r.is(mnemonic, None, Seq::empty(), false, raw, size, state),
    {
        DecodedInsn { mnemonic, cond: None, operands: Vec::new(), sets_flags: false, raw, size, state }
    }

    /// Append an operand.
    pub fn with_operand(self, op: Operand) -> (r: Self)
        ensures
            r.is(
                self.mnemonic,
                self.cond,
                self.operands@.push(op),
                self.sets_flags,
                self.raw,
                self.size,
                self.state,
            ),
    {
        let mut insn = self;
        insn.operands.push(op);
        insn
    }

    /// Attach a condition.
    pub fn with_cond(self, cond: Condition) -> (r: Self)
        ensures
            r.is(
                self.mnemonic,
                Some(cond),
                self.operands@,
                self.sets_flags,
                self.raw,
                self.size,
                self.state,
            ),
    {
        let mut insn = self;
        insn.cond = Some(cond);
        insn
    }

    /// Mark the instruction as setting the flags.
    pub fn with_flags(self) -> (r: Self)
        ensures
            r.is(
                self.mnemonic,
                self.cond,
                self.operands@,
                true,
                self.raw,
                self.size,
                self.state,
            ),
    {
        let mut insn = self;
        insn.sets_flags = true;
        insn
    }
}

} // verus!
