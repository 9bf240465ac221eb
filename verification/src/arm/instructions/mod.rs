//! ARM instruction execution handlers.
//!
//! This module implements the execution semantics for ARMv7 instructions,
//! providing handlers that operate on the `Armv7Cpu` state and memory.
//!
//! Instructions are grouped by category:
//! - Data processing (arithmetic, logical, shift, compare) and multiply
//! - Load/Store operations (including halfword, signed, exclusive, multiple)
//! - Branch and system operations
//! - Bit manipulation, bit fields, extension and saturation
//! - AArch32 media / DSP operations
//!
//! Each handler decodes its operands, reads the sources (R15 reads as the
//! instruction address plus 8, or plus 4 in Thumb state), performs the
//! operation, writes the destination (a write to R15 is a branch) and
//! updates the flags when the S bit is set.

use crate::arm::decoder::{
    cond_bits, thumb_state, Condition, DecodeError, DecodedInsn, Mnemonic, Operand, MemOffset,
};
use crate::arm::execution::{
    bank_of, cond_holds, condition_passed, current_spsr, has_spsr, mode_bits, mode_of,
    mode_switched, n_flag, pc_read, psr_of, psr_word, reg_read, ArmMemory, Armv7Cpu,
    CpuState, MemoryError, ProcessorMode, Psr, compute_n_flag, compute_z_flag,
};
use vstd::prelude::*;

pub mod alu;
pub mod bitops;
pub mod branch;
pub mod dispatch;
pub mod media;
pub mod memory;
pub mod operands;

verus! {

/// Result of instruction execution.
#[derive(Clone, Copy, Debug, PartialEq, Eq, Structural)]
pub enum ExecResult {
    /// Instruction executed successfully, advance to next instruction.
    Continue,
    /// Branch taken to specified address.
    Branch(u32),
    /// Exception raised (SVC, UDF, etc.).
    Exception(ExceptionType),
    /// CPU halted (WFI, WFE).
    Halt,
    /// Undefined instruction.
    Undefined,
    /// Memory error during execution.
    MemoryFault(MemoryError),
}

/// Exception types that can be raised during execution.
#[derive(Clone, Copy, Debug, PartialEq, Eq, Structural)]
pub enum ExceptionType {
    /// Supervisor call (SVC/SWI).
    SupervisorCall(u32),
    /// Undefined instruction.
    UndefinedInstruction,
    /// Prefetch abort.
    PrefetchAbort(u32),
    /// Data abort.
    DataAbort(u32),
    /// IRQ interrupt.
    Irq,
    /// FIQ fast interrupt.
    Fiq,
    /// Breakpoint (BKPT).
    Breakpoint(u16),
    /// Reset.
    Reset,
}

/// Offset of an exception's entry in the vector table.
pub open spec fn vector_offset_of(e: ExceptionType) -> u32 {
    match e {
        ExceptionType::Reset => 0x00,
        ExceptionType::UndefinedInstruction => 0x04,
        ExceptionType::SupervisorCall(_) => 0x08,
        ExceptionType::PrefetchAbort(_) => 0x0C,
        ExceptionType::DataAbort(_) => 0x10,
        ExceptionType::Irq => 0x18,
        ExceptionType::Fiq => 0x1C,
        ExceptionType::Breakpoint(_) => 0x0C,
    }
}

/// Mode an exception is taken to.
pub open spec fn target_mode_of(e: ExceptionType) -> ProcessorMode {
    match e {
        ExceptionType::Reset | ExceptionType::SupervisorCall(_) => ProcessorMode::Supervisor,
        ExceptionType::UndefinedInstruction => ProcessorMode::Undefined,
        ExceptionType::PrefetchAbort(_) | ExceptionType::Breakpoint(_) => ProcessorMode::Abort,
        ExceptionType::DataAbort(_) => ProcessorMode::Abort,
        ExceptionType::Irq => ProcessorMode::Irq,
        ExceptionType::Fiq => ProcessorMode::Fiq,
    }
}

impl ExceptionType {
    /// Get the exception vector offset for this exception.
    pub fn vector_offset(&self) -> (r: u32)
        ensures
            r == vector_offset_of(*self),
    {
        match self {
            ExceptionType::Reset => 0x00,
            ExceptionType::UndefinedInstruction => 0x04,
            ExceptionType::SupervisorCall(_) => 0x08,
            ExceptionType::PrefetchAbort(_) => 0x0C,
            ExceptionType::DataAbort(_) => 0x10,
            ExceptionType::Irq => 0x18,
            ExceptionType::Fiq => 0x1C,
            ExceptionType::Breakpoint(_) => 0x0C,  // Uses prefetch abort vector
        }
    }

    /// Get the mode to enter for this exception.
    pub fn target_mode(&self) -> (r: ProcessorMode)
        ensures
            r == target_mode_of(*self),
    {
        match self {
            ExceptionType::Reset | ExceptionType::SupervisorCall(_) => ProcessorMode::Supervisor,
            ExceptionType::UndefinedInstruction => ProcessorMode::Undefined,
            ExceptionType::PrefetchAbort(_) | ExceptionType::Breakpoint(_) => ProcessorMode::Abort,
            ExceptionType::DataAbort(_) => ProcessorMode::Abort,
            ExceptionType::Irq => ProcessorMode::Irq,
            ExceptionType::Fiq => ProcessorMode::Fiq,
        }
    }
}

/// Exclusive monitor state for LDREX/STREX.
#[derive(Clone, Copy, Debug, PartialEq, Eq, Structural)]
pub struct ExclusiveMonitor {
    /// Address being monitored (None if not monitoring).
    pub address: Option<u32>,
    /// Size of the monitored region (1, 2, 4, or 8 bytes).
    pub size: u8,
}

impl ExclusiveMonitor {
    pub fn new() -> (r: Self)
        ensures
            r == (ExclusiveMonitor { address: None, size: 0 }),
    {
        ExclusiveMonitor { address: None, size: 0 }
    }

    /// Mark an address as exclusive.
    pub fn mark_exclusive(&mut self, addr: u32, size: u8)
        ensures
            *final(self) == (ExclusiveMonitor { address: Some(addr), size }),
    {
        self.address = Some(addr);
        self.size = size;
    }

    /// Check if address is still exclusive and clear the monitor.
    pub fn check_and_clear(&mut self, addr: u32, size: u8) -> (r: bool)
        ensures
            r == (old(self).address == Some(addr) && old(self).size == size),
            *final(self) == (ExclusiveMonitor { address: None, ..*old(self) }),
    {
        if self.address == Some(addr) && self.size == size {
            self.address = None;
            true
        } else {
            self.address = None;
            false
        }
    }

    /// Clear the exclusive monitor.
    pub fn clear(&mut self)
        ensures
            *final(self) == (ExclusiveMonitor { address: None, ..*old(self) }),
    {
        self.address = None;
    }
}

/// Coprocessor interface for MRC/MCR instructions.
pub trait Coprocessor {
    /// Read from coprocessor register.
    fn read(&self, crn: u8, crm: u8, opc1: u8, opc2: u8) -> Option<u32>;

    /// Write to coprocessor register.
    fn write(&mut self, crn: u8, crm: u8, opc1: u8, opc2: u8, value: u32) -> bool;
}

/// Null coprocessor (returns all zeros, ignores writes).
pub struct NullCoprocessor;

impl Coprocessor for NullCoprocessor {
    fn read(&self, _crn: u8, _crm: u8, _opc1: u8, _opc2: u8) -> Option<u32> {
        Some(0)
    }

    fn write(&mut self, _crn: u8, _crm: u8, _opc1: u8, _opc2: u8, _value: u32) -> bool {
        true
    }
}

/// Instruction executor that ties together CPU state, memory, and decoded
/// instructions.
pub struct Executor<M: ArmMemory> {
    pub cpu: Armv7Cpu,
    pub mem: M,
    /// Exclusive monitor for LDREX/STREX.
    pub exclusive_monitor: ExclusiveMonitor,
    /// Vector base address register (VBAR).
    pub vbar: u32,
}

/// Register `r` written with `v`: a write to R15 is a branch and leaves
/// the registers alone.
pub open spec fn write_reg(cpu: CpuState, r: int, v: u32) -> (CpuState, ExecResult) {
    if r == 15 {
        (cpu, ExecResult::Branch(v))
    } else {
        (CpuState { regs: cpu.regs.update(r, v), ..cpu }, ExecResult::Continue)
    }
}

/// Restore the CPSR from the current mode's SPSR, if there is one that
/// names a mode.
pub open spec fn exc_return(cpu: CpuState) -> CpuState {
    match current_spsr(cpu) {
        Some(spsr) => match mode_of(spsr.mode) {
            Some(m) => {
                let c1 = CpuState { cpsr: psr_of(psr_word(spsr)), ..cpu };
                if mode_bits(m) != c1.cpsr.mode {
                    mode_switched(c1, m)
                } else {
                    c1
                }
            },
            None => cpu,
        },
        None => cpu,
    }
}

/// Whether the core runs in User or System mode.
pub open spec fn user_or_system(cpu: CpuState) -> bool {
    cpu.cpsr.mode == 0x10 || cpu.cpsr.mode == 0x1F
}

/// Register write of a data-processing instruction whose S bit may make a
/// write to R15 an exception return.
pub open spec fn write_reg_s(cpu: CpuState, r: int, v: u32, s: bool) -> (CpuState, ExecResult) {
    if r == 15 {
        (
            if s && !user_or_system(cpu) {
                exc_return(cpu)
            } else {
                cpu
            },
            ExecResult::Branch(v),
        )
    } else {
        (CpuState { regs: cpu.regs.update(r, v), ..cpu }, ExecResult::Continue)
    }
}

/// N, Z and C (from the shifter) set from a logical result.
pub open spec fn flags_logical(cpu: CpuState, result: u32) -> CpuState {
    CpuState {
        cpsr: Psr { n: n_flag(result), z: result == 0, c: cpu.carry_out, ..cpu.cpsr },
        ..cpu
    }
}

/// N, Z, C and V set from an arithmetic result.
pub open spec fn flags_arith(cpu: CpuState, result: u32) -> CpuState {
    CpuState {
        cpsr: Psr {
            n: n_flag(result),
            z: result == 0,
            c: cpu.carry_out,
            v: cpu.overflow,
            ..cpu.cpsr
        },
        ..cpu
    }
}

/// Address saved in LR when exception `e` is taken at `pc`.
pub open spec fn exception_return_address(pc: u32, e: ExceptionType) -> u32 {
    match e {
        ExceptionType::DataAbort(_) => pc.wrapping_add(8),
        ExceptionType::Reset => 0,
        _ => pc.wrapping_add(4),
    }
}

/// The state after taking exception `e` with vector base `vbar`.
pub open spec fn exception_taken(cpu: CpuState, vbar: u32, e: ExceptionType) -> CpuState {
    let ret = exception_return_address(cpu.regs[15], e);
    let c2 = mode_entered(cpu, target_mode_of(e), psr_word(cpu.cpsr));
    let c3 = CpuState { regs: c2.regs.update(14, ret), ..c2 };
    let c4 = CpuState {
        cpsr: Psr {
            i: true,
            f: e is Fiq || e is Reset || c3.cpsr.f,
            t: false,
            ..c3.cpsr
        },
        ..c3
    };
    CpuState { regs: c4.regs.update(15, vbar.wrapping_add(vector_offset_of(e))), ..c4 }
}

/// Taking an exception jumps to its entry in the vector table at VBAR:
/// Reset 0, Undefined 4, SVC 8, Prefetch Abort (and BKPT) 0xC, Data Abort
/// 0x10, IRQ 0x18 and FIQ 0x1C; the slot at 0x14 is reserved and no
/// exception enters there.
pub proof fn lemma_exception_vector(cpu: CpuState, vbar: u32, e: ExceptionType)
    requires
        cpu.regs.len() == 16,
    ensures
        exception_taken(cpu, vbar, e).regs.len() == 16,
        exception_taken(cpu, vbar, e).regs[15] == vbar.wrapping_add(
            match e {
                ExceptionType::Reset => 0x00u32,
                ExceptionType::UndefinedInstruction => 0x04u32,
                ExceptionType::SupervisorCall(_) => 0x08u32,
                ExceptionType::PrefetchAbort(_) => 0x0Cu32,
                ExceptionType::DataAbort(_) => 0x10u32,
                ExceptionType::Irq => 0x18u32,
                ExceptionType::Fiq => 0x1Cu32,
                ExceptionType::Breakpoint(_) => 0x0Cu32,
            },
        ),
        exception_taken(cpu, vbar, e).regs[15] != vbar.wrapping_add(0x14),
{
    reveal(mode_entered);
}

/// The state after switching to mode `m` and storing `saved` as that mode's
/// SPSR (if it has one).
#[verifier::opaque]
pub open spec fn mode_entered(cpu: CpuState, m: ProcessorMode, saved: u32) -> CpuState {
    let c1 = mode_switched(cpu, m);
    if has_spsr(c1) {
        CpuState { spsr: c1.spsr.update(bank_of(c1.cpsr.mode), psr_of(saved)), ..c1 }
    } else {
        c1
    }
}

/// Memory unchanged as seen through the memory interface.
pub open spec fn mem_same<M: ArmMemory>(a: M, b: M) -> bool {
    &&& forall|x: u32| #[trigger] b.mapped(x) == a.mapped(x)
    &&& forall|x: u32| #[trigger] b.byte(x) == a.byte(x)
}

/// A step that changes the core state alone, to `out.0`, with result
/// `out.1`.
pub open spec fn regs_step<M: ArmMemory>(
    o: Executor<M>,
    n: Executor<M>,
    r: ExecResult,
    out: (CpuState, ExecResult),
) -> bool {
    &&& n.cpu@ == out.0
    &&& r == out.1
    &&& mem_same(o.mem, n.mem)
    &&& n.exclusive_monitor == o.exclusive_monitor
    &&& n.vbar == o.vbar
}

impl<M: ArmMemory> Executor<M> {
    /// Create a new executor.
    pub fn new(cpu: Armv7Cpu, mem: M) -> (r: Self)
        ensures
            r.cpu == cpu,
            r.mem == mem,
            r.exclusive_monitor == (ExclusiveMonitor { address: None, size: 0 }),
            r.vbar == 0,
    {
        Executor { cpu, mem, exclusive_monitor: ExclusiveMonitor::new(), vbar: 0 }
    }

    /// Create a new executor with custom VBAR.
    pub fn with_vbar(cpu: Armv7Cpu, mem: M, vbar: u32) -> (r: Self)
        ensures
            r.cpu == cpu,
            r.mem == mem,
            r.exclusive_monitor == (ExclusiveMonitor { address: None, size: 0 }),
            r.vbar == vbar,
    {
        Executor { cpu, mem, exclusive_monitor: ExclusiveMonitor::new(), vbar }
    }

    // =========================================================================
    // Exception Handling
    // =========================================================================

    /// Take an exception and switch to the appropriate mode.
    pub fn take_exception(&mut self, exception: ExceptionType)
        ensures
            final(self).cpu@ == exception_taken(old(self).cpu@, old(self).vbar, exception),
            final(self).mem == old(self).mem,
            final(self).exclusive_monitor == old(self).exclusive_monitor,
            final(self).vbar == old(self).vbar,
    {
        let target_mode = exception.target_mode();
        let vector_offset = exception.vector_offset();

        // Save CPSR to SPSR of target mode
        let cpsr_value = self.cpu.cpsr.to_u32();

        // Calculate return address based on exception type
        let return_addr = Self::return_address(self.cpu.regs[15], exception);
        let ghost c0 = self.cpu@;

        // Switch mode, save the CPSR in the new mode's SPSR
        Self::enter_mode(&mut self.cpu, target_mode, cpsr_value);
        let ghost c2 = self.cpu@;

        // Set LR to return address
        self.cpu.regs[14] = return_addr;

        // Update CPSR: disable IRQ (and FIQ for FIQ and reset), enter ARM mode
        let masks_fiq = match exception {
            ExceptionType::Fiq | ExceptionType::Reset => true,
            _ => false,
        };
        self.cpu.cpsr = Psr { i: true, f: masks_fiq || self.cpu.cpsr.f, t: false, ..self.cpu.cpsr };

        // Branch to vector
        self.cpu.regs[15] = self.vbar.wrapping_add(vector_offset);
        proof {
            let t = exception_taken(c0, old(self).vbar, exception);
            assert(self.cpu.regs@ =~= t.regs);
            assert(self.cpu.banked_sp@ =~= t.banked_sp);
            assert(self.cpu.banked_lr@ =~= t.banked_lr);
            assert(self.cpu.spsr@ =~= t.spsr);
            assert(self.cpu.cpsr == t.cpsr);
        }
    }

    /// Address saved in LR when exception `e` is taken at `pc`.
    fn return_address(pc: u32, e: ExceptionType) -> (r: u32)
        ensures
            r == exception_return_address(pc, e),
    {
        match e {
            ExceptionType::SupervisorCall(_) => pc.wrapping_add(4),
            ExceptionType::UndefinedInstruction => pc.wrapping_add(4),
            ExceptionType::PrefetchAbort(_) => pc.wrapping_add(4),
            ExceptionType::DataAbort(_) => pc.wrapping_add(8),
            ExceptionType::Irq => pc.wrapping_add(4),
            ExceptionType::Fiq => pc.wrapping_add(4),
            ExceptionType::Breakpoint(_) => pc.wrapping_add(4),
            ExceptionType::Reset => 0,
        }
    }

    /// Switch to `m` and store `saved` as the new mode's SPSR.
    fn enter_mode(cpu: &mut Armv7Cpu, m: ProcessorMode, saved: u32)
        ensures
            final(cpu)@ == mode_entered(old(cpu)@, m, saved),
    {
        cpu.change_mode(m);
        cpu.set_current_spsr(Psr::from_u32(saved));
        proof {
            reveal(mode_entered);
        }
    }

    /// Return from exception (MOVS PC, LR or SUBS PC, LR, #imm with S bit).
    pub fn exception_return(&mut self)
        ensures
            final(self).cpu@ == exc_return(old(self).cpu@),
            final(self).mem == old(self).mem,
            final(self).exclusive_monitor == old(self).exclusive_monitor,
            final(self).vbar == old(self).vbar,
    {
        if let Some(spsr) = self.cpu.get_current_spsr() {
            let spsr_value = spsr.to_u32();
            let new_mode = ProcessorMode::from_bits(spsr.mode);

            if let Some(mode) = new_mode {
                // Restore CPSR from SPSR
                self.cpu.cpsr = Psr::from_u32(spsr_value);

                // Switch mode
                if mode.bits() != self.cpu.cpsr.mode {
                    self.cpu.change_mode(mode);
                }
            }
        }
    }

    /// Check if condition is passed.
    fn condition_passed(&self, cond: Condition) -> (r: bool)
        ensures
            r == cond_holds(
                cond_bits(cond),
                self.cpu.cpsr.n,
                self.cpu.cpsr.z,
                self.cpu.cpsr.c,
                self.cpu.cpsr.v,
            ),
    {
        condition_passed(
            cond.bits(),
            self.cpu.cpsr.n,
            self.cpu.cpsr.z,
            self.cpu.cpsr.c,
            self.cpu.cpsr.v,
        )
    }

    /// Get register value with PC+8 handling.
    pub(crate) fn reg(&self, r: usize) -> (v: u32)
        requires
            r < 16,
        ensures
            v == reg_read(self.cpu@, r as int),
    {
        self.cpu.reg(r)
    }

    /// Set register value, handling PC writes as branches.
    pub(crate) fn set_reg(&mut self, r: usize, value: u32) -> (res: ExecResult)
        requires
            r < 16,
        ensures
            regs_step(*old(self), *final(self), res, write_reg(old(self).cpu@, r as int, value)),
    {
        if r == 15 {
            ExecResult::Branch(value)
        } else {
            self.cpu.regs[r] = value;
            ExecResult::Continue
        }
    }

    /// Set register value, with S bit handling for PC (exception return).
    pub(crate) fn set_reg_with_s(&mut self, r: usize, value: u32, s_bit: bool) -> (res:
        ExecResult)
        requires
            r < 16,
        ensures
            regs_step(
                *old(self),
                *final(self),
                res,
                write_reg_s(old(self).cpu@, r as int, value, s_bit),
            ),
    {
        if r == 15 {
            if s_bit && !self.cpu.is_user_or_system() {
                // Exception return
                self.exception_return();
            }
            ExecResult::Branch(value)
        } else {
            self.cpu.regs[r] = value;
            ExecResult::Continue
        }
    }

    /// Update APSR flags for logical operations (N, Z, C from shifter).
    pub(crate) fn set_flags_logical(&mut self, result: u32)
        ensures
            regs_step(
                *old(self),
                *final(self),
                ExecResult::Continue,
                (flags_logical(old(self).cpu@, result), ExecResult::Continue),
            ),
    {
        self.cpu.cpsr.n = compute_n_flag(result);
        self.cpu.cpsr.z = compute_z_flag(result);
        self.cpu.cpsr.c = self.cpu.carry_out;
    }

    /// Update APSR flags for arithmetic operations (N, Z, C, V).
    pub(crate) fn set_flags_arithmetic(&mut self, result: u32)
        ensures
            regs_step(
                *old(self),
                *final(self),
                ExecResult::Continue,
                (flags_arith(old(self).cpu@, result), ExecResult::Continue),
            ),
    {
        self.cpu.cpsr.n = compute_n_flag(result);
        self.cpu.cpsr.z = compute_z_flag(result);
        self.cpu.cpsr.c = self.cpu.carry_out;
        self.cpu.cpsr.v = self.cpu.overflow;
    }
}

} // verus!
