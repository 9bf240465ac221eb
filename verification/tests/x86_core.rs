use rax::backend::emulator::x86_64::cpu::MAX_INSN_LEN;
use rax::backend::emulator::x86_64::flags;
use rax::backend::emulator::x86_64::insn::control::jump::{jcc_rel8, jmp_rel32, jmp_rel8};
use rax::backend::emulator::x86_64::{EmuError, InsnContext, X86_64Vcpu};
use rax::cpu::{Registers, Segment, SystemRegisters, VcpuExit};

const MEM_SIZE: usize = 0x10000;
const CODE_ADDR: u64 = 0x1000;

fn code_segment(long: bool) -> Segment {
    Segment {
        base: 0,
        limit: 0xFFFF_FFFF,
        selector: 0x8,
        type_: 0xB,
        present: true,
        dpl: 0,
        db: !long,
        s: true,
        l: long,
        g: true,
        avl: false,
        unusable: false,
    }
}

fn sregs(long: bool) -> SystemRegisters {
    let mut s = SystemRegisters::default();
    s.cs = code_segment(long);
    let data = Segment { selector: 0x10, type_: 0x3, l: false, db: true, ..s.cs };
    s.ds = data;
    s.es = data;
    s.fs = data;
    s.gs = data;
    s.ss = data;
    s.cr0 = 0x8000_0011;
    s.cr4 = 0x20;
    s.efer = 0x500;
    s
}

fn vcpu_with(code: &[u8], long: bool) -> X86_64Vcpu {
    let mut vcpu = X86_64Vcpu::new(0, vec![0u8; MEM_SIZE]);
    vcpu.write_phys(CODE_ADDR, code).unwrap();
    vcpu.set_sregs(&sregs(long)).unwrap();
    let mut r = Registers::default();
    r.rip = CODE_ADDR;
    r.rsp = 0x8000;
    r.rflags = 0x2;
    vcpu.set_regs(&r).unwrap();
    vcpu
}

/// A 64-bit vCPU with no interrupt table: exceptions cannot be delivered.
fn setup_vm_no_idt(code: &[u8], _regs: Option<Registers>) -> (X86_64Vcpu, u64) {
    (vcpu_with(code, true), CODE_ADDR)
}

/// A vCPU in compatibility mode (32-bit code segment under long mode).
fn create_test_cpu_compat(code: &[u8]) -> X86_64Vcpu {
    vcpu_with(code, false)
}

fn run_test(cpu: &mut X86_64Vcpu) {
    for _ in 0..10_000 {
        match cpu.step() {
            Ok(Some(VcpuExit::Hlt)) => return,
            Ok(_) => {}
            Err(e) => panic!("step error: {e:?}"),
        }
    }
    panic!("no HLT");
}

fn assert_invalid_bcd_opcode_raises_ud(opcode: u8) {
    let code = [
        opcode, 0x48, 0xc7, 0xc0, 0xff, 0x00, 0x00, 0x00, // MOV RAX, 0xFF
        0xf4, // HLT
    ];
    let (mut vcpu, _) = setup_vm_no_idt(&code, None);

    match vcpu.run() {
        Ok(VcpuExit::Hlt) => panic!("BCD opcode {opcode:#x} must raise #UD in 64-bit mode"),
        Ok(VcpuExit::Shutdown) | Err(_) => {}
        _ => {}
    }
}

#[test]
fn test_daa_no_adjustment() {
    // DAA when no adjustment needed
    let code = &[
        0xB0, 0x25, // MOV AL, 0x25
        0x04, 0x13, // ADD AL, 0x13 (AL = 0x38)
        0x27, // DAA (no adjustment)
        0xF4, // HLT
    ];
    let mut cpu = create_test_cpu_compat(code);

    run_test(&mut cpu);

    assert_eq!(cpu.get_rax() & 0xFF, 0x38, "DAA: 0x25 + 0x13 = 0x38 (no adjustment)");
}

#[test]
fn test_daa_low_nibble_adjustment() {
    // DAA when low nibble > 9
    let code = &[
        0xB0, 0x29, // MOV AL, 0x29
        0x04, 0x08, // ADD AL, 0x08 (AL = 0x31, but BCD should be 0x37)
        0x27, // DAA
        0xF4, // HLT
    ];
    let mut cpu = create_test_cpu_compat(code);

    run_test(&mut cpu);

    assert_eq!(cpu.get_rax() & 0xFF, 0x37, "DAA: 0x29 + 0x08 = 0x37 (low nibble adjusted)");
}

#[test]
fn test_das_no_adjustment() {
    // DAS when no adjustment needed
    let code = &[
        0xB0, 0x35, // MOV AL, 0x35
        0x2C, 0x12, // SUB AL, 0x12 (AL = 0x23)
        0x2F, // DAS
        0xF4, // HLT
    ];
    let mut cpu = create_test_cpu_compat(code);

    run_test(&mut cpu);

    assert_eq!(cpu.get_rax() & 0xFF, 0x23, "DAS: 0x35 - 0x12 = 0x23 (no adjustment)");
}

#[test]
fn test_daa_das_aaa_aas_invalid_in_64bit_mode_raise_ud() {
    for opcode in [0x27, 0x2f, 0x37, 0x3f] {
        assert_invalid_bcd_opcode_raises_ud(opcode);
    }
}

const HIGH_RIP: u64 = 0xFFFF_FFFF_8124_9EE0;

fn long_mode_vcpu(rflags: u64) -> X86_64Vcpu {
    let mut vcpu = X86_64Vcpu::new(0, vec![0u8; 0x10000]);
    vcpu.regs.rip = HIGH_RIP;
    vcpu.regs.rflags = rflags;
    vcpu.sregs.cs.l = true;
    vcpu.sregs.cs.db = false;
    vcpu
}

fn context(instruction: &[u8], opcode: u8) -> InsnContext {
    let mut bytes = [0; MAX_INSN_LEN];
    bytes[..instruction.len()].copy_from_slice(instruction);
    InsnContext {
        bytes,
        bytes_len: instruction.len(),
        cursor: 1,
        rex: None,
        operand_size_override: false,
        address_size_override: false,
        rep_prefix: None,
        segment_override: None,
        op_size: 4,
        opcode,
    }
}

#[test]
fn long_mode_jmp_rel8_preserves_high_rip_bits() {
    let mut vcpu = long_mode_vcpu(0x2);
    let mut ctx = context(&[0xEB, 0x05], 0xEB);

    jmp_rel8(&mut vcpu, &mut ctx).unwrap();

    assert_eq!(vcpu.regs.rip, HIGH_RIP + 2 + 5);
}

#[test]
fn long_mode_jmp_rel32_preserves_high_rip_bits() {
    let mut vcpu = long_mode_vcpu(0x2);
    let mut ctx = context(&[0xE9, 0x05, 0x00, 0x00, 0x00], 0xE9);

    jmp_rel32(&mut vcpu, &mut ctx).unwrap();

    assert_eq!(vcpu.regs.rip, HIGH_RIP + 5 + 5);
}

#[test]
fn long_mode_jcc_not_taken_preserves_high_rip_bits() {
    let mut vcpu = long_mode_vcpu(0x2 | flags::ZF);
    let mut ctx = context(&[0x75, 0x05], 0x75);

    jcc_rel8(&mut vcpu, &mut ctx, 0x5).unwrap();

    assert_eq!(vcpu.regs.rip, HIGH_RIP + 2);
}

#[test]
fn jcc_taken_backwards_and_16bit_wrap() {
    // JZ -3 with ZF set jumps back over itself.
    let mut vcpu = long_mode_vcpu(0x2 | flags::ZF);
    let mut ctx = context(&[0x74, 0xFD], 0x74);
    jcc_rel8(&mut vcpu, &mut ctx, 0x4).unwrap();
    assert_eq!(vcpu.regs.rip, HIGH_RIP + 2 - 3);

    // A 16-bit JMP wraps IP within 64 KiB.
    let mut vcpu = X86_64Vcpu::new(0, vec![0u8; 0x100]);
    vcpu.regs.rip = 0xFFFE;
    let mut ctx = context(&[0xEB, 0x10], 0xEB);
    jmp_rel8(&mut vcpu, &mut ctx).unwrap();
    assert_eq!(vcpu.regs.rip, 0x10);

    // Missing displacement byte.
    let mut ctx = context(&[0xEB], 0xEB);
    assert_eq!(jmp_rel8(&mut vcpu, &mut ctx), Err(EmuError::Incomplete));
}

#[test]
fn bcd_adjust_carries() {
    // 0x79 + 0x35 = 0xAE -> DAA gives 0x14 with CF set.
    let mut cpu = create_test_cpu_compat(&[0xB0, 0x79, 0x04, 0x35, 0x27, 0xF4]);
    run_test(&mut cpu);
    assert_eq!(cpu.get_rax() & 0xFF, 0x14);
    assert_eq!(cpu.regs.rflags & flags::CF, flags::CF);
    // 0x10 - 0x01 = 0x0F -> DAS gives 0x09 (AF borrow).
    let mut cpu = create_test_cpu_compat(&[0xB0, 0x10, 0x2C, 0x01, 0x2F, 0xF4]);
    run_test(&mut cpu);
    assert_eq!(cpu.get_rax() & 0xFF, 0x09);
    // AAA after 0x08 + 0x06 = 0x0E: AX = 0x0104.
    let mut cpu = create_test_cpu_compat(&[0xB0, 0x08, 0x04, 0x06, 0x37, 0xF4]);
    run_test(&mut cpu);
    assert_eq!(cpu.get_rax() & 0xFFFF, 0x0104);
    // AAS after 0x02 - 0x05 = 0xFD: AX = 0xFF07 (AH borrowed).
    let mut cpu = create_test_cpu_compat(&[0xB0, 0x02, 0x2C, 0x05, 0x3F, 0xF4]);
    run_test(&mut cpu);
    assert_eq!(cpu.get_rax() & 0xFFFF, 0xFF07);
}

#[test]
fn add_sub_flags() {
    // 0x7F + 1 overflows into the sign bit.
    let mut cpu = create_test_cpu_compat(&[0xB0, 0x7F, 0x04, 0x01, 0xF4]);
    run_test(&mut cpu);
    let f = cpu.regs.rflags;
    assert_eq!(cpu.get_rax() & 0xFF, 0x80);
    assert_eq!(f & flags::OF, flags::OF);
    assert_eq!(f & flags::SF, flags::SF);
    assert_eq!(f & flags::AF, flags::AF);
    assert_eq!(f & (flags::CF | flags::ZF | flags::PF), 0);
    // 0x01 - 0x01 = 0: ZF and PF set, no carry.
    let mut cpu = create_test_cpu_compat(&[0xB0, 0x01, 0x2C, 0x01, 0xF4]);
    run_test(&mut cpu);
    let f = cpu.regs.rflags;
    assert_eq!(f & (flags::ZF | flags::PF), flags::ZF | flags::PF);
    assert_eq!(f & (flags::CF | flags::SF | flags::OF), 0);
}

#[test]
fn mov_immediates_and_partial_writes() {
    // MOV AH, 0x12 ; MOV EBX, 0xFFFFFFFF ; MOV RCX, -1 (C7 sign-extended);
    // MOV R9B, 0x55 ; HLT.
    let code = [
        0xB4, 0x12, // MOV AH, 0x12
        0xBB, 0xFF, 0xFF, 0xFF, 0xFF, // MOV EBX, 0xFFFFFFFF
        0x48, 0xC7, 0xC1, 0xFF, 0xFF, 0xFF, 0xFF, // MOV RCX, -1
        0x41, 0xB1, 0x55, // MOV R9B, 0x55
        0x90, // NOP
        0xF4,
    ];
    let mut vcpu = vcpu_with(&code, true);
    let mut r = vcpu.get_regs().unwrap();
    r.rbx = 0xAAAA_AAAA_AAAA_AAAA;
    r.r9 = 0x1111_1111_1111_1111;
    vcpu.set_regs(&r).unwrap();
    assert_eq!(vcpu.run(), Ok(VcpuExit::Hlt));
    assert_eq!(vcpu.regs.rax, 0x1200);
    assert_eq!(vcpu.regs.rbx, 0xFFFF_FFFF);
    assert_eq!(vcpu.regs.rcx, u64::MAX);
    assert_eq!(vcpu.regs.r9, 0x1111_1111_1111_1155);
    assert_eq!(vcpu.regs.rip, CODE_ADDR + code.len() as u64);
}

#[test]
fn fetch_errors_and_unsupported() {
    // Code beyond memory.
    let mut vcpu = vcpu_with(&[0xF4], true);
    vcpu.regs.rip = MEM_SIZE as u64;
    assert_eq!(vcpu.step(), Err(EmuError::MemoryFault(MEM_SIZE as u64)));
    // An opcode the interpreter does not implement.
    let mut vcpu = vcpu_with(&[0xCC], true);
    assert_eq!(vcpu.step(), Err(EmuError::Unsupported(0xCC)));
    // A truncated immediate at the end of memory.
    let mut vcpu = X86_64Vcpu::new(0, vec![0x04]);
    vcpu.sregs.cs.l = true;
    assert_eq!(vcpu.step(), Err(EmuError::Incomplete));
    assert_eq!(vcpu.regs.rip, 0);
}

#[test]
fn wrmsr_then_rdmsr_reads_back_lstar() {
    // WRMSR; XOR-free reload: MOV EAX/EDX, 0; RDMSR; HLT
    let code = [
        0x0f, 0x30, // WRMSR
        0xb8, 0, 0, 0, 0, // MOV EAX, 0
        0xba, 0, 0, 0, 0, // MOV EDX, 0
        0x0f, 0x32, // RDMSR
        0xf4,
    ];
    let mut vcpu = vcpu_with(&code, true);
    let mut r = vcpu.get_regs().unwrap();
    r.rcx = 0xC000_0082;
    r.rax = 0xFFFF_FFFF_8765_4321;
    r.rdx = 0xAAAA_AAAA_1234_5678;
    vcpu.set_regs(&r).unwrap();
    run_test(&mut vcpu);
    assert_eq!(vcpu.get_sregs().unwrap().lstar, 0x1234_5678_8765_4321);
    let r = vcpu.get_regs().unwrap();
    assert_eq!(r.rax, 0x8765_4321);
    assert_eq!(r.rdx, 0x1234_5678);
}

#[test]
fn wrmsr_sets_fs_and_kernel_gs_base() {
    let code = [0x0f, 0x30, 0xf4];
    for (msr, value) in [(0xC000_0100u64, 0x7fff_0000_1000u64), (0xC000_0102, 0xffff_8000_0000_0000)] {
        let mut vcpu = vcpu_with(&code, true);
        let mut r = vcpu.get_regs().unwrap();
        r.rcx = msr;
        r.rax = value & 0xFFFF_FFFF;
        r.rdx = value >> 32;
        vcpu.set_regs(&r).unwrap();
        run_test(&mut vcpu);
        let s = vcpu.get_sregs().unwrap();
        if msr == 0xC000_0100 {
            assert_eq!(s.fs.base, value);
        } else {
            assert_eq!(s.kernel_gs_base, value);
        }
        // WRMSR (2 bytes) and HLT (1 byte) retired.
        assert_eq!(vcpu.get_regs().unwrap().rip, CODE_ADDR + 3);
    }
}

#[test]
fn rdmsr_apic_base_tsc_and_unknown() {
    let code = [0x0f, 0x32, 0xf4];
    for (msr, expected) in [(0x1Bu64, 0xFEE0_0900u64), (0x10, 0x1_2345_6789), (0x9999, 0)] {
        let mut vcpu = vcpu_with(&code, true);
        vcpu.tsc = 0x1_2345_6789;
        let mut r = vcpu.get_regs().unwrap();
        r.rcx = msr;
        r.rax = u64::MAX;
        r.rdx = u64::MAX;
        vcpu.set_regs(&r).unwrap();
        run_test(&mut vcpu);
        let r = vcpu.get_regs().unwrap();
        assert_eq!((r.rdx << 32) | r.rax, expected);
    }
}

#[test]
fn msr_access_outside_ring_zero_faults() {
    let code = [0x0f, 0x30, 0xf4];
    let mut vcpu = vcpu_with(&code, true);
    let mut s = vcpu.get_sregs().unwrap();
    s.cs.selector = 0x33;
    vcpu.set_sregs(&s).unwrap();
    let mut r = vcpu.get_regs().unwrap();
    r.rcx = 0xC000_0080;
    vcpu.set_regs(&r).unwrap();
    assert_eq!(vcpu.step(), Err(EmuError::GeneralProtection(0)));
    assert_eq!(vcpu.get_sregs().unwrap().efer, 0x500);
    assert_eq!(vcpu.get_regs().unwrap().rip, CODE_ADDR);
}

fn movs_vcpu(code: &[u8], rsi: u64, rdi: u64, rcx: u64, data: &[u8]) -> X86_64Vcpu {
    let mut vcpu = vcpu_with(code, true);
    let mut r = vcpu.get_regs().unwrap();
    r.rsi = rsi;
    r.rdi = rdi;
    r.rcx = rcx;
    vcpu.set_regs(&r).unwrap();
    vcpu.write_phys(rsi, data).unwrap();
    vcpu
}

fn bytes_at(vcpu: &X86_64Vcpu, addr: u64, n: u8) -> Vec<u8> {
    (0..n).map(|i| vcpu.read_mem(addr + i as u64, 1).unwrap() as u8).collect()
}

#[test]
fn rep_movsb_copies_forward_and_clears_rcx() {
    let mut vcpu = movs_vcpu(&[0xf3, 0xa4, 0xf4], 0x2000, 0x3000, 5, b"hello");
    run_test(&mut vcpu);
    assert_eq!(bytes_at(&vcpu, 0x3000, 6), b"hello\0");
    let r = vcpu.get_regs().unwrap();
    assert_eq!((r.rsi, r.rdi, r.rcx), (0x2005, 0x3005, 0));
    assert_eq!(r.rip, CODE_ADDR + 3);
}

#[test]
fn rep_movsq_backward_with_df() {
    let data: Vec<u8> = (1..=16).collect();
    let mut vcpu = movs_vcpu(&[0xf3, 0x48, 0xa5, 0xf4], 0x2000, 0x3000, 2, &data);
    let mut r = vcpu.get_regs().unwrap();
    r.rsi = 0x2008;
    r.rdi = 0x3008;
    r.rflags |= 0x400;
    vcpu.set_regs(&r).unwrap();
    run_test(&mut vcpu);
    assert_eq!(bytes_at(&vcpu, 0x3000, 16), data);
    let r = vcpu.get_regs().unwrap();
    assert_eq!((r.rsi, r.rdi, r.rcx), (0x1FF8, 0x2FF8, 0));
}

#[test]
fn overlapping_rep_movsb_propagates_bytes() {
    let mut vcpu = movs_vcpu(&[0xf3, 0xa4, 0xf4], 0x2000, 0x2002, 4, b"ABCD");
    run_test(&mut vcpu);
    assert_eq!(bytes_at(&vcpu, 0x2000, 6), b"ABABAB");
}

#[test]
fn single_movsw_ignores_rcx() {
    let mut vcpu = movs_vcpu(&[0x66, 0xa5, 0xf4], 0x2000, 0x3000, 7, b"xyz");
    run_test(&mut vcpu);
    assert_eq!(bytes_at(&vcpu, 0x3000, 3), b"xy\0");
    let r = vcpu.get_regs().unwrap();
    assert_eq!((r.rsi, r.rdi, r.rcx), (0x2002, 0x3002, 7));
}

#[test]
fn rep_movsb_fault_keeps_completed_elements() {
    let end = MEM_SIZE as u64;
    let mut vcpu = movs_vcpu(&[0xf3, 0xa4, 0xf4], 0x2000, end - 2, 4, b"abcd");
    assert_eq!(vcpu.step(), Err(EmuError::MemoryFault(end)));
    let r = vcpu.get_regs().unwrap();
    assert_eq!((r.rsi, r.rdi, r.rcx), (0x2002, end, 2));
    assert_eq!(r.rip, CODE_ADDR);
    assert_eq!(bytes_at(&vcpu, end - 2, 2), b"ab");
}

#[test]
fn movsb_fs_override_and_32bit_addressing() {
    // FS: MOVSB
    let mut vcpu = movs_vcpu(&[0x64, 0xa4, 0xf4], 0x2000, 0x3000, 0, b"q");
    let mut s = vcpu.get_sregs().unwrap();
    s.fs.base = 0x1000;
    vcpu.set_sregs(&s).unwrap();
    let mut r = vcpu.get_regs().unwrap();
    r.rsi = 0x1000;
    vcpu.set_regs(&r).unwrap();
    run_test(&mut vcpu);
    assert_eq!(bytes_at(&vcpu, 0x3000, 1), b"q");

    // ADDR32 MOVSB: RSI's upper half is ignored and cleared.
    let mut vcpu = movs_vcpu(&[0x67, 0xa4, 0xf4], 0x2000, 0x3000, 0, b"z");
    let mut r = vcpu.get_regs().unwrap();
    r.rsi = 0xFFFF_FFFF_0000_2000;
    vcpu.set_regs(&r).unwrap();
    run_test(&mut vcpu);
    assert_eq!(bytes_at(&vcpu, 0x3000, 1), b"z");
    assert_eq!(vcpu.get_regs().unwrap().rsi, 0x2001);
}

fn io_vcpu(code: &[u8], rdx: u64, rsi: u64, rdi: u64, rcx: u64) -> X86_64Vcpu {
    let mut vcpu = vcpu_with(code, true);
    let mut r = vcpu.get_regs().unwrap();
    r.rdx = rdx;
    r.rsi = rsi;
    r.rdi = rdi;
    r.rcx = rcx;
    vcpu.set_regs(&r).unwrap();
    vcpu
}

#[test]
fn insb_names_destination_and_steps_rdi() {
    let mut vcpu = io_vcpu(&[0x6c], 0x1_0060, 0, 0x3000, 9);
    assert_eq!(vcpu.step(), Ok(Some(VcpuExit::IoIn { port: 0x60, size: 1, dest: 0x3000 })));
    let r = vcpu.get_regs().unwrap();
    assert_eq!((r.rdi, r.rcx, r.rip), (0x3001, 9, CODE_ADDR + 1));
}

#[test]
fn rep_insb_reexecutes_until_count_is_zero() {
    let mut vcpu = io_vcpu(&[0xf3, 0x6c], 0x60, 0, 0x3000, 2);
    assert_eq!(vcpu.step(), Ok(Some(VcpuExit::IoIn { port: 0x60, size: 1, dest: 0x3000 })));
    let r = vcpu.get_regs().unwrap();
    assert_eq!((r.rdi, r.rcx, r.rip), (0x3001, 1, CODE_ADDR));
    assert_eq!(vcpu.step(), Ok(Some(VcpuExit::IoIn { port: 0x60, size: 1, dest: 0x3001 })));
    let r = vcpu.get_regs().unwrap();
    assert_eq!((r.rdi, r.rcx, r.rip), (0x3002, 0, CODE_ADDR + 2));
}

#[test]
fn rep_ins_with_zero_count_only_retires() {
    let mut vcpu = io_vcpu(&[0xf3, 0x6d], 0x60, 0, 0x3000, 0);
    assert_eq!(vcpu.step(), Ok(None));
    let r = vcpu.get_regs().unwrap();
    assert_eq!((r.rdi, r.rip), (0x3000, CODE_ADDR + 2));
}

#[test]
fn outsw_reads_word_and_outsb_steps_down() {
    let mut vcpu = io_vcpu(&[0x66, 0x6f], 0x3F8, 0x2000, 0, 0);
    vcpu.write_phys(0x2000, &[0x34, 0x12, 0x99]).unwrap();
    assert_eq!(vcpu.step(), Ok(Some(VcpuExit::IoOut { port: 0x3F8, size: 2, data: 0x1234 })));
    assert_eq!(vcpu.get_regs().unwrap().rsi, 0x2002);

    let mut vcpu = io_vcpu(&[0x6e], 0x3F8, 0x2000, 0, 0);
    vcpu.write_phys(0x2000, &[0x41]).unwrap();
    let mut r = vcpu.get_regs().unwrap();
    r.rflags |= 0x400;
    vcpu.set_regs(&r).unwrap();
    assert_eq!(vcpu.step(), Ok(Some(VcpuExit::IoOut { port: 0x3F8, size: 1, data: 0x41 })));
    assert_eq!(vcpu.get_regs().unwrap().rsi, 0x1FFF);
}

#[test]
fn outs_past_memory_faults() {
    let mut vcpu = io_vcpu(&[0x6f], 0x3F8, (MEM_SIZE - 2) as u64, 0, 0);
    assert_eq!(vcpu.step(), Err(EmuError::MemoryFault((MEM_SIZE - 2) as u64)));
    assert_eq!(vcpu.get_regs().unwrap().rip, CODE_ADDR);
}

#[test]
fn wrmsr_gs_base_refreshes_cr0_copy() {
    let code = [0x0f, 0x30, 0xf4];
    // GS.base + 0xffff_ffff_836e_e018 wraps round to 0x2000.
    let gs_base: u64 = 0x2000u64.wrapping_sub(0xffff_ffff_836e_e018);
    let mut vcpu = vcpu_with(&code, true);
    let mut r = vcpu.get_regs().unwrap();
    r.rcx = 0xC000_0101;
    r.rax = gs_base & 0xFFFF_FFFF;
    r.rdx = gs_base >> 32;
    vcpu.set_regs(&r).unwrap();
    run_test(&mut vcpu);
    assert_eq!(vcpu.get_sregs().unwrap().gs.base, gs_base);
    assert_eq!(vcpu.read_mem(0x2000, 8), Ok(0x8000_0011));
    // A GS.base whose copy would lie outside memory writes nothing.
    let mut vcpu = vcpu_with(&code, true);
    let mut r = vcpu.get_regs().unwrap();
    r.rcx = 0xC000_0101;
    r.rax = 0x1000;
    vcpu.set_regs(&r).unwrap();
    run_test(&mut vcpu);
    assert_eq!(vcpu.get_sregs().unwrap().gs.base, 0x1000);
}
