use rax::arm::decoder::{Condition, DecodeError, DecodedInsn, ExecutionState, Mnemonic};
use rax::arm::execution::{ArmMemory, Armv7Cpu, FlatMemory, MemoryError, ProcessorMode};
use rax::arm::instructions::dispatch::run_emulator;
use rax::arm::instructions::{ExceptionType, ExecResult, Executor};

fn make_cpu() -> Armv7Cpu {
    Armv7Cpu::new()
}

fn make_mem() -> FlatMemory {
    FlatMemory::new(0x10000, 0)
}

fn make_insn(mnemonic: Mnemonic, raw: u32, sets_flags: bool) -> DecodedInsn {
    let mut insn = DecodedInsn::new(mnemonic, ExecutionState::Arm, raw, 4);
    if sets_flags {
        insn = insn.with_flags();
    }
    insn
}

#[test]
fn test_add_immediate() {
    let mut cpu = make_cpu();
    let mem = make_mem();

    cpu.regs[1] = 100;

    let insn = make_insn(Mnemonic::ADD, 0xE2810032, false);
    let mut exec = Executor::new(cpu, mem);
    let result = exec.execute(&insn);

    assert!(matches!(result, ExecResult::Continue));
    assert_eq!(exec.cpu.regs[0], 150);
}

#[test]
fn test_adds_sets_flags() {
    let mut cpu = make_cpu();
    let mem = make_mem();

    cpu.regs[1] = 0xFFFFFFFF;

    let insn = make_insn(Mnemonic::ADDS, 0xE2910001, true);
    let mut exec = Executor::new(cpu, mem);
    let result = exec.execute(&insn);

    assert!(matches!(result, ExecResult::Continue));
    assert_eq!(exec.cpu.regs[0], 0);
    assert!(exec.cpu.cpsr.z);
    assert!(exec.cpu.cpsr.c);
}

#[test]
fn test_sub_immediate() {
    let mut cpu = make_cpu();
    let mem = make_mem();

    cpu.regs[1] = 100;

    let insn = make_insn(Mnemonic::SUB, 0xE241001E, false);
    let mut exec = Executor::new(cpu, mem);
    let result = exec.execute(&insn);

    assert!(matches!(result, ExecResult::Continue));
    assert_eq!(exec.cpu.regs[0], 70);
}

#[test]
fn test_mov_immediate() {
    let cpu = make_cpu();
    let mem = make_mem();

    let insn = make_insn(Mnemonic::MOV, 0xE3A000FF, false);
    let mut exec = Executor::new(cpu, mem);
    let result = exec.execute(&insn);

    assert!(matches!(result, ExecResult::Continue));
    assert_eq!(exec.cpu.regs[0], 0xFF);
}

#[test]
fn test_cmp_sets_flags() {
    let mut cpu = make_cpu();
    let mem = make_mem();

    cpu.regs[0] = 50;

    let insn = make_insn(Mnemonic::CMP, 0xE3500032, true);
    let mut exec = Executor::new(cpu, mem);
    let result = exec.execute(&insn);

    assert!(matches!(result, ExecResult::Continue));
    assert!(exec.cpu.cpsr.z);
    assert!(exec.cpu.cpsr.c);
}

#[test]
fn test_branch() {
    let mut cpu = make_cpu();
    let mem = make_mem();

    cpu.regs[15] = 0x1000;

    let insn = make_insn(Mnemonic::B, 0xEA000040, false);
    let mut exec = Executor::new(cpu, mem);
    let result = exec.execute(&insn);

    if let ExecResult::Branch(target) = result {
        assert_eq!(target, 0x1000 + 8 + 0x100);
    } else {
        panic!("Expected Branch result");
    }
}

#[test]
fn test_ldr_str() {
    let mut cpu = make_cpu();
    let mut mem = make_mem();

    mem.write_word(0x100, 0xDEADBEEF).unwrap();

    cpu.regs[1] = 0x100;

    let insn = make_insn(Mnemonic::LDR, 0xE5910000, false);
    let mut exec = Executor::new(cpu, mem);
    let result = exec.execute(&insn);

    assert!(matches!(result, ExecResult::Continue));
    assert_eq!(exec.cpu.regs[0], 0xDEADBEEF);
}

#[test]
fn instructions_test_mul() {
    let mut cpu = make_cpu();
    let mem = make_mem();

    cpu.regs[1] = 7;
    cpu.regs[2] = 6;

    let insn = make_insn(Mnemonic::MUL, 0xE0000291, false);
    let mut exec = Executor::new(cpu, mem);
    let result = exec.execute(&insn);

    assert!(matches!(result, ExecResult::Continue));
    assert_eq!(exec.cpu.regs[0], 42);
}

#[test]
fn test_condition_ne() {
    let mut cpu = make_cpu();
    let mem = make_mem();

    cpu.cpsr.z = true;
    cpu.regs[0] = 0;

    let mut insn = make_insn(Mnemonic::MOV, 0x13A00001, false);
    insn.cond = Some(Condition::NE);
    let mut exec = Executor::new(cpu, mem);
    let result = exec.execute(&insn);

    assert!(matches!(result, ExecResult::Continue));
    assert_eq!(exec.cpu.regs[0], 0);
}

#[test]
fn instructions_test_svc() {
    let cpu = make_cpu();
    let mem = make_mem();

    let insn = make_insn(Mnemonic::SVC, 0xEF00007B, false);
    let mut exec = Executor::new(cpu, mem);
    let result = exec.execute(&insn);

    if let ExecResult::Exception(ExceptionType::SupervisorCall(imm)) = result {
        assert_eq!(imm, 123);
    } else {
        panic!("Expected SupervisorCall exception");
    }
}

#[test]
fn test_ldrex_strex() {
    let mut cpu = make_cpu();
    let mut mem = make_mem();

    mem.write_word(0x100, 0x12345678).unwrap();
    cpu.regs[1] = 0x100;
    cpu.regs[3] = 0xDEADBEEF;

    // LDREX R0, [R1] followed by STREX R2, R3, [R1]; the same executor
    // keeps the exclusive monitor state.
    let ldrex = make_insn(Mnemonic::LDXR, 0xE1910F9F, false);
    let strex = make_insn(Mnemonic::STXR, 0xE1812F93, false);

    let mut exec = Executor::new(cpu, mem);

    let result = exec.execute(&ldrex);
    assert!(matches!(result, ExecResult::Continue));

    // STREX succeeds because LDREX was just done
    let result = exec.execute(&strex);
    assert!(matches!(result, ExecResult::Continue));

    assert_eq!(exec.cpu.regs[0], 0x12345678); // LDREX loaded value
    assert_eq!(exec.cpu.regs[2], 0); // STREX success
    assert_eq!(exec.mem.read_word(0x100).unwrap(), 0xDEADBEEF); // Memory updated
}

#[test]
fn test_strex_fails_without_ldrex() {
    let mut cpu = make_cpu();
    let mut mem = make_mem();

    mem.write_word(0x100, 0x12345678).unwrap();
    cpu.regs[1] = 0x100;
    cpu.regs[3] = 0xDEADBEEF;

    // STREX without LDREX should fail
    let strex = make_insn(Mnemonic::STXR, 0xE1812F93, false);
    let mut exec = Executor::new(cpu, mem);
    let result = exec.execute(&strex);
    assert!(matches!(result, ExecResult::Continue));
    assert_eq!(exec.cpu.regs[2], 1); // Failure

    // Memory should be unchanged
    assert_eq!(exec.mem.read_word(0x100).unwrap(), 0x12345678);
}

#[test]
fn test_sdiv_udiv() {
    let mut cpu = make_cpu();
    let mem = make_mem();

    cpu.regs[1] = 100;
    cpu.regs[2] = 7;

    // SDIV R0, R1, R2
    let sdiv = make_insn(Mnemonic::SDIV, 0xE710F211, false);
    let mut exec = Executor::new(cpu, mem);
    let result = exec.execute(&sdiv);
    assert!(matches!(result, ExecResult::Continue));
    assert_eq!(exec.cpu.regs[0], 14);

    // Test division by zero
    exec.cpu.regs[2] = 0;
    let result = exec.execute(&sdiv);
    assert!(matches!(result, ExecResult::Continue));
    assert_eq!(exec.cpu.regs[0], 0);
}

#[test]
fn test_exception_handling() {
    let mut cpu = make_cpu();
    let mem = make_mem();
    cpu.regs[15] = 0x1000;

    let mut exec = Executor::new(cpu, mem);
    exec.take_exception(ExceptionType::SupervisorCall(0));

    // Should be in SVC mode
    assert_eq!(exec.cpu.cpsr.mode, ProcessorMode::Supervisor.bits());
    // IRQ should be disabled
    assert!(exec.cpu.cpsr.i);
    // Should be in ARM mode
    assert!(!exec.cpu.cpsr.t);
    // PC should be at SVC vector
    assert_eq!(exec.cpu.regs[15], 0x08);
}

#[test]
fn test_bfc_bfi() {
    let mut cpu = make_cpu();
    let mem = make_mem();

    cpu.regs[0] = 0xFFFFFFFF;

    // BFC R0, #4, #8 - clear bits 4-11
    let bfc = make_insn(Mnemonic::BFC, 0xE7CB021F, false);
    let mut exec = Executor::new(cpu, mem);
    let result = exec.execute(&bfc);
    assert!(matches!(result, ExecResult::Continue));
    assert_eq!(exec.cpu.regs[0], 0xFFFFF00F);
}

// Further checks of the executor.

#[test]
fn signed_division_truncates_toward_zero() {
    let mut cpu = make_cpu();
    cpu.regs[1] = (-7i32) as u32;
    cpu.regs[2] = 2;
    let sdiv = make_insn(Mnemonic::SDIV, 0xE710F211, false);
    let mut exec = Executor::new(cpu, make_mem());
    exec.execute(&sdiv);
    assert_eq!(exec.cpu.regs[0] as i32, -3);
    exec.cpu.regs[1] = 0x8000_0000;
    exec.cpu.regs[2] = 0xFFFF_FFFF;
    exec.execute(&sdiv);
    assert_eq!(exec.cpu.regs[0], 0x8000_0000);
}

#[test]
fn push_then_pop_restores_registers() {
    let mut cpu = make_cpu();
    cpu.regs[13] = 0x800;
    cpu.regs[4] = 0x1111;
    cpu.regs[5] = 0x2222;
    let push = make_insn(Mnemonic::PUSH, 0xE92D0030, false); // PUSH {R4, R5}
    let pop = make_insn(Mnemonic::POP, 0xE8BD0030, false); // POP {R4, R5}
    let mut exec = Executor::new(cpu, make_mem());
    assert!(matches!(exec.execute(&push), ExecResult::Continue));
    assert_eq!(exec.cpu.regs[13], 0x7F8);
    assert_eq!(exec.mem.read_word(0x7F8).unwrap(), 0x1111);
    assert_eq!(exec.mem.read_word(0x7FC).unwrap(), 0x2222);
    exec.cpu.regs[4] = 0;
    exec.cpu.regs[5] = 0;
    assert!(matches!(exec.execute(&pop), ExecResult::Continue));
    assert_eq!(exec.cpu.regs[4], 0x1111);
    assert_eq!(exec.cpu.regs[5], 0x2222);
    assert_eq!(exec.cpu.regs[13], 0x800);
}

#[test]
fn load_outside_memory_faults() {
    let mut cpu = make_cpu();
    cpu.regs[1] = 0x2_0000;
    let insn = make_insn(Mnemonic::LDR, 0xE5910000, false);
    let mut exec = Executor::new(cpu, make_mem());
    let result = exec.execute(&insn);
    assert!(matches!(result, ExecResult::MemoryFault(_)));
    assert_eq!(exec.cpu.regs[0], 0);
}

#[test]
fn undefined_mnemonic_is_reported() {
    let insn = make_insn(Mnemonic::UNKNOWN, 0, false);
    let mut exec = Executor::new(make_cpu(), make_mem());
    assert!(matches!(exec.execute(&insn), ExecResult::Undefined));
}

#[test]
fn parallel_add8_sets_ge() {
    // SADD8 R0, R1, R2 : cond 0110 0001 Rn Rd 1111 1001 Rm
    let mut cpu = make_cpu();
    cpu.regs[1] = 0x7F01_FF80;
    cpu.regs[2] = 0x0101_0101;
    let insn = make_insn(Mnemonic::A32_PARALLEL, 0xE6110F92, false);
    let mut exec = Executor::new(cpu, make_mem());
    assert!(matches!(exec.execute(&insn), ExecResult::Continue));
    // lanes: 0x80+0x01 = 0x81 (-127, GE0 clear), 0xFF+0x01 = 0x00 (0, GE1 set),
    // 0x01+0x01 = 0x02 (GE2 set), 0x7F+0x01 = 0x80 (wraps, GE3 clear: 128 >= 0 set)
    assert_eq!(exec.cpu.regs[0], 0x8002_0081);
    assert_eq!(exec.cpu.cpsr.ge, 0b1110);
}

#[test]
fn psr_word_round_trip() {
    let cpu = make_cpu();
    let word = cpu.cpsr.to_u32();
    assert_eq!(word, 0x0000_01D3);
    assert_eq!(rax::arm::execution::Psr::from_u32(word), cpu.cpsr);
}

#[test]
fn run_loop_executes_until_halt() {
    let mut mem = make_mem();
    mem.write_word(0, 0xE3A0_0005).unwrap(); // MOV R0, #5
    mem.write_word(4, 0xE280_0003).unwrap(); // ADD R0, R0, #3
    mem.write_word(8, 0xE320_F003).unwrap(); // WFI
    let mut exec = Executor::new(Armv7Cpu::new(), mem);
    let r = run_emulator(&mut exec, 10);
    assert!(matches!(r, Ok(ExecResult::Halt)));
    assert_eq!(exec.cpu.regs[0], 8);
    assert_eq!(exec.cpu.regs[15], 8);
}

#[test]
fn run_loop_stops_at_budget() {
    let mut mem = make_mem();
    mem.write_word(0, 0xE3A0_0005).unwrap(); // MOV R0, #5
    mem.write_word(4, 0xE280_0003).unwrap(); // ADD R0, R0, #3
    let mut exec = Executor::new(Armv7Cpu::new(), mem);
    let r = run_emulator(&mut exec, 1);
    assert!(matches!(r, Ok(ExecResult::Continue)));
    assert_eq!(exec.cpu.regs[0], 5);
    assert_eq!(exec.cpu.regs[15], 4);
}

#[test]
fn run_loop_reports_fetch_fault() {
    let mem = make_mem();
    let mut cpu = Armv7Cpu::new();
    cpu.regs[15] = 0xFFFE;
    let mut exec = Executor::new(cpu, mem);
    let r = run_emulator(&mut exec, 5);
    assert!(matches!(r, Ok(ExecResult::MemoryFault(MemoryError::Unmapped(0x1_0000)))));
    assert_eq!(exec.cpu.regs[15], 0xFFFE);
}

#[test]
fn run_loop_thumb_halfword_is_invalid_encoding() {
    let mut mem = make_mem();
    mem.write_word(0, 0x0000_4770).unwrap();
    let mut cpu = Armv7Cpu::new();
    cpu.cpsr.t = true;
    let mut exec = Executor::new(cpu, mem);
    let r = run_emulator(&mut exec, 5);
    assert!(matches!(r, Err(DecodeError::InvalidEncoding(0x4770))));
}
