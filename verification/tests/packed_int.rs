use rax::backend::emulator::x86_64::{EmuError, X86_64Vcpu};
use rax::backend::emulator::x86_64::dispatch::vex::integer::packed_int_op;
use rax::backend::emulator::x86_64::dispatch::vex::lanes::{lane_op_exec, lanewise_exec, sad_bw};
use rax::cpu::{Registers, Segment, SystemRegisters, VcpuExit};

const MEM_SIZE: usize = 0x10000;
const CODE_ADDR: u64 = 0x1000;
const DATA_ADDR: u64 = 0x3001;

fn long_mode_sregs() -> SystemRegisters {
    let mut s = SystemRegisters::default();
    s.cs = Segment {
        base: 0,
        limit: 0xFFFF_FFFF,
        selector: 0x8,
        type_: 0xB,
        present: true,
        dpl: 0,
        db: false,
        s: true,
        l: true,
        g: true,
        avl: false,
        unusable: false,
    };
    let data = Segment { selector: 0x10, type_: 0x3, l: false, db: true, ..s.cs };
    s.ds = data;
    s.es = data;
    s.fs = data;
    s.gs = data;
    s.ss = data;
    s.cr0 = 0x8000_0011;
    s.cr4 = 0x20;
    s.efer = 0x500;
    s
}

fn setup_vm(code: &[u8], regs: Option<Registers>) -> (X86_64Vcpu, u64) {
    let mut vcpu = X86_64Vcpu::new(0, vec![0u8; MEM_SIZE]);
    vcpu.write_phys(CODE_ADDR, code).unwrap();
    vcpu.set_sregs(&long_mode_sregs()).unwrap();
    let mut r = regs.unwrap_or_default();
    r.rip = CODE_ADDR;
    r.rsp = 0x8000;
    r.rflags = 0x2;
    vcpu.set_regs(&r).unwrap();
    (vcpu, CODE_ADDR)
}

fn run_until_hlt(vcpu: &mut X86_64Vcpu) -> Result<Registers, EmuError> {
    for _ in 0..10_000 {
        if let Some(VcpuExit::Hlt) = vcpu.step()? {
            return vcpu.get_regs();
        }
    }
    Err(EmuError::StepLimit)
}

/// Runs one VEX.66.0F instruction on xmm1 (and ymm1's upper lane) and xmm2
/// (and ymm2's upper lane) and returns xmm0 and ymm0's upper lane.
fn run_xmm(code: &[u8], src1: [u64; 4], src2: [u64; 4]) -> [u64; 4] {
    let mut regs = Registers::default();
    regs.xmm[1] = [src1[0], src1[1]];
    regs.ymm_high[1] = [src1[2], src1[3]];
    regs.xmm[2] = [src2[0], src2[1]];
    regs.ymm_high[2] = [src2[2], src2[3]];
    regs.ymm_high[0] = [0xDEAD, 0xBEEF];
    let mut program = code.to_vec();
    program.push(0xf4);
    let (mut vcpu, _) = setup_vm(&program, Some(regs));
    let out = run_until_hlt(&mut vcpu).unwrap();
    [out.xmm[0][0], out.xmm[0][1], out.ymm_high[0][0], out.ymm_high[0][1]]
}

#[test]
fn vpaddusb_saturates_and_clears_upper_lane() {
    // VPADDUSB xmm0, xmm1, xmm2
    let r = run_xmm(&[0xc5, 0xf1, 0xdc, 0xc2], [0x10F0, 0xFF, 0, 0], [0x0520, 0x01, 0, 0]);
    assert_eq!(r, [0x15FF, 0xFF, 0, 0]);
}

#[test]
fn vpmulhw_takes_signed_high_half() {
    // VPMULHW xmm0, xmm1, xmm2
    let r = run_xmm(&[0xc5, 0xf1, 0xe5, 0xc2], [0x4000_8000, 0, 0, 0], [0x4000_0002, 0, 0, 0]);
    assert_eq!(r[0], 0x1000_FFFF);
}

#[test]
fn vpmaddwd_wraps_the_dword_sum() {
    // VPMADDWD xmm0, xmm1, xmm2: 0x8000 * 0x8000 twice overflows to 0x8000_0000.
    let r = run_xmm(
        &[0xc5, 0xf1, 0xf5, 0xc2],
        [0xFFFE_0003_8000_8000, 0, 0, 0],
        [0x0007_0005_8000_8000, 0, 0, 0],
    );
    assert_eq!(r[0], 0x0000_0001_8000_0000);
}

#[test]
fn vpsadbw_sums_absolute_differences() {
    // VPSADBW xmm0, xmm1, xmm2
    let r = run_xmm(
        &[0xc5, 0xf1, 0xf6, 0xc2],
        [0x0102_0304_0506_0708, 0xFF, 0, 0],
        [0x0807_0605_0403_0201, 0x00, 0, 0],
    );
    assert_eq!(r, [32, 0xFF, 0, 0]);
}

#[test]
fn vpaddq_ymm_with_memory_operand() {
    // VPADDQ ymm0, ymm1, [rax]
    let code = [0xc5, 0xf5, 0xd4, 0x00, 0xf4];
    let mut regs = Registers { rax: DATA_ADDR, ..Registers::default() };
    regs.xmm[1] = [u64::MAX, 1];
    regs.ymm_high[1] = [2, 3];
    let (mut vcpu, _) = setup_vm(&code, Some(regs));
    let data: Vec<u8> = [1u64, 2, 3, 4].iter().flat_map(|q| q.to_le_bytes()).collect();
    vcpu.write_phys(DATA_ADDR, &data).unwrap();
    let out = run_until_hlt(&mut vcpu).unwrap();
    assert_eq!(out.xmm[0], [0, 3]);
    assert_eq!(out.ymm_high[0], [5, 7]);
    assert_eq!(out.rip, CODE_ADDR + 5);
}

#[test]
fn vpaddq_memory_operand_past_end_faults() {
    let code = [0xc5, 0xf5, 0xd4, 0x00, 0xf4];
    let regs = Registers { rax: (MEM_SIZE - 8) as u64, ..Registers::default() };
    let (mut vcpu, _) = setup_vm(&code, Some(regs));
    assert_eq!(vcpu.step(), Err(EmuError::MemoryFault((MEM_SIZE - 8) as u64)));
    assert_eq!(vcpu.get_regs().unwrap().rip, CODE_ADDR);
}

#[test]
fn vpxor_of_a_register_with_itself_is_zero() {
    // VPXOR xmm1, xmm1, xmm1
    let code = [0xc5, 0xf1, 0xef, 0xc9, 0xf4];
    let mut regs = Registers::default();
    regs.xmm[1] = [0x1234, 0x5678];
    let (mut vcpu, _) = setup_vm(&code, Some(regs));
    let out = run_until_hlt(&mut vcpu).unwrap();
    assert_eq!(out.xmm[1], [0, 0]);
}

#[test]
fn packed_int_op_bitwise_and_qword_forms() {
    assert_eq!(packed_int_op(u64::MAX, 5, 1, 7, 0xD4), (0, 12));
    assert_eq!(packed_int_op(0, 5, 1, 7, 0xFB), (u64::MAX, u64::MAX - 1));
    assert_eq!(packed_int_op(0xF0, 0xFF, 0x3C, 0x0F, 0xDB), (0x30, 0x0F));
    assert_eq!(packed_int_op(0xF0, 0xFF, 0x3C, 0x0F, 0xDF), (0x0C, 0x00));
    assert_eq!(packed_int_op(0xF0, 0xFF, 0x3C, 0x0F, 0xEB), (0xFC, 0xFF));
    assert_eq!(packed_int_op(0xF0, 0xFF, 0x3C, 0x0F, 0xEF), (0xCC, 0xF0));
    assert_eq!(
        packed_int_op(u64::MAX, 3, 0x1234_5678_FFFF_FFFF, 5, 0xF4),
        (0xFFFF_FFFE_0000_0001, 15)
    );
    assert_eq!(packed_int_op(1, 2, 3, 4, 0x00), (0, 0));
}

#[test]
fn packed_word_and_byte_lanes() {
    let a = 0x7FFF_8000_0001_0005u64;
    let b = 0x0001_0001_0002_0007u64;
    assert_eq!(lanewise_exec(0xE9, a, b), 0x7FFE_8000_FFFF_FFFE); // PSUBSW
    assert_eq!(lanewise_exec(0xEA, a, b), 0x0001_8000_0001_0005); // PMINSW
    assert_eq!(lanewise_exec(0xEE, a, b), 0x7FFF_0001_0002_0007); // PMAXSW
    assert_eq!(lanewise_exec(0xD5, a, b), 0x7FFF_8000_0002_0023); // PMULLW
    assert_eq!(lanewise_exec(0xFA, a, b), 0x7FFE_7FFF_FFFE_FFFE); // PSUBD
    assert_eq!(lanewise_exec(0xEC, a, b), 0x7F00_8001_0003_000C); // PADDSB
    assert_eq!(lanewise_exec(0xE3, a, b), 0x4000_4001_0002_0006); // PAVGW
    assert_eq!(lanewise_exec(0xE4, 0xFFFF, 0xFFFF), 0xFFFE); // PMULHUW
    assert_eq!(lanewise_exec(0xD9, 0x0001_0005, 0x0002_0003), 0x0000_0002); // PSUBUSW
    assert_eq!(lanewise_exec(0xF8, 0x01, 0x02), 0xFF); // PSUBB wraps
    assert_eq!(lanewise_exec(0xE0, 0xFF01, 0xFF02), 0xFF02); // PAVGB rounds up
    assert_eq!(lanewise_exec(0xDE, 0x80_01, 0x7F_02), 0x80_02); // PMAXUB
    assert_eq!(lanewise_exec(0xDA, 0x80_01, 0x7F_02), 0x7F_01); // PMINUB
}

#[test]
fn single_lane_operations() {
    assert_eq!(lane_op_exec(0xE5, 0x8000, 0x0002, 0x1_0000), 0xFFFF);
    assert_eq!(lane_op_exec(0xDC, 0xF0, 0x20, 0x100), 0xFF);
    assert_eq!(lane_op_exec(0xE8, 0x80, 0x01, 0x100), 0x80);
    assert_eq!(lane_op_exec(0xF5, 0x8000_8000, 0x8000_8000, 0x1_0000_0000), 0x8000_0000);
    assert_eq!(sad_bw(0xFF, 0), 0xFF);
    assert_eq!(sad_bw(0, u64::MAX), 8 * 0xFF);
}

fn words(w: [u16; 4]) -> u64 {
    w.iter().enumerate().map(|(i, &x)| (x as u64) << (16 * i)).sum()
}

#[test]
fn vphaddw_and_vphaddsw() {
    // VPHADDW xmm0, xmm1, xmm2
    let a = [words([1, 2, 3, 4]), words([5, 6, 7, 8]), 0, 0];
    let b = [words([10, 20, 30, 40]), words([50, 60, 70, 80]), 0, 0];
    let r = run_xmm(&[0xc4, 0xe2, 0x71, 0x01, 0xc2], a, b);
    assert_eq!(r, [words([3, 7, 11, 15]), words([30, 70, 110, 150]), 0, 0]);
    // Wrapping versus saturating.
    let a = [words([0x7FFF, 1, 0x8000, 0xFFFF]), 0, 0, 0];
    let r = run_xmm(&[0xc4, 0xe2, 0x71, 0x01, 0xc2], a, [0; 4]);
    assert_eq!(r[0], words([0x8000, 0x7FFF, 0, 0]));
    let r = run_xmm(&[0xc4, 0xe2, 0x71, 0x03, 0xc2], a, [0; 4]);
    assert_eq!(r[0], words([0x7FFF, 0x8000, 0, 0]));
}

#[test]
fn vphsubd_ymm() {
    // VPHSUBD ymm0, ymm1, ymm2
    let a = [0x0000_0003_0000_000A, 0x0000_0008_0000_0005, 0x0000_0001_0000_0002, 0];
    let b = [0x0000_0001_0000_0004, 0, 0, 0x0000_0002_0000_0009];
    let r = run_xmm(&[0xc4, 0xe2, 0x75, 0x06, 0xc2], a, b);
    assert_eq!(r, [0xFFFF_FFFD_0000_0007, 0x0000_0000_0000_0003, 0x0000_0000_0000_0001, 0x0000_0007_0000_0000]);
}

#[test]
fn vpsignw_vpmulhrsw_vpmaddubsw() {
    // VPSIGNW
    let r = run_xmm(
        &[0xc4, 0xe2, 0x71, 0x09, 0xc2],
        [words([5, 5, 5, 0x8000]), 0, 0, 0],
        [words([1, 0, 0xFFFF, 0xFFFF]), 0, 0, 0],
    );
    assert_eq!(r[0], words([5, 0, 0xFFFB, 0x8000]));
    // VPMULHRSW
    let r = run_xmm(
        &[0xc4, 0xe2, 0x71, 0x0b, 0xc2],
        [words([0x4000, 0x8000, 0xFFFF, 3]), 0, 0, 0],
        [words([0x4000, 0x8000, 0x0001, 0x7FFF]), 0, 0, 0],
    );
    assert_eq!(r[0], words([0x2000, 0x8000, 0, 3]));
    // VPMADDUBSW: unsigned bytes times signed bytes, saturated.
    let r = run_xmm(
        &[0xc4, 0xe2, 0x71, 0x04, 0xc2],
        [0x0201_FFFF, 0, 0, 0],
        [0x03FF_7F7F, 0, 0, 0],
    );
    assert_eq!(r[0], words([0x7FFF, 5, 0, 0]));
}

#[test]
fn vphminposuw_finds_first_minimum() {
    // VPHMINPOSUW xmm0, xmm1
    let src = [words([5, 3, 9, 3]), words([7, 8, 100, 4]), 0, 0];
    let r = run_xmm(&[0xc4, 0xe2, 0x79, 0x41, 0xc1], src, [0; 4]);
    assert_eq!(r, [0x0001_0003, 0, 0, 0]);
}

#[test]
fn vphminposuw_rejects_bad_forms() {
    // VEX.vvvv other than 1111b.
    let mut regs = Registers::default();
    regs.xmm[1] = [words([5, 3, 9, 3]), words([7, 8, 100, 4])];
    let (mut vcpu, _) = setup_vm(&[0xc4, 0xe2, 0x71, 0x41, 0xc1], Some(regs));
    assert_eq!(vcpu.step(), Err(EmuError::InvalidOpcode(0x41)));
    // VEX.256: the result is written, then the form is refused.
    let (mut vcpu, _) = setup_vm(&[0xc4, 0xe2, 0x7d, 0x41, 0xc1], Some(regs));
    assert_eq!(vcpu.step(), Err(EmuError::InvalidOpcode(0x41)));
    let out = vcpu.get_regs().unwrap();
    assert_eq!(out.xmm[0], [0x0001_0003, 0]);
    assert_eq!(out.rip, CODE_ADDR);
}

#[test]
fn vmpsadbw_block_selection() {
    let s1 = [0x0706_0504_0302_0100, 0x0F0E_0D0C_0B0A_0908, 0, 0];
    // imm 0: first-source block 0 against second-source bytes 0..3 (zero).
    let r = run_xmm(&[0xc4, 0xe3, 0x71, 0x42, 0xc2, 0x00], s1, [0; 4]);
    assert_eq!(r, [words([6, 10, 14, 18]), words([22, 26, 30, 34]), 0, 0]);
    // imm 4: first-source block at byte 4.
    let r = run_xmm(&[0xc4, 0xe3, 0x71, 0x42, 0xc2, 0x04], s1, [0; 4]);
    assert_eq!(r, [words([22, 26, 30, 34]), words([38, 42, 46, 50]), 0, 0]);
    // imm 1: second-source block at byte 4 (bytes 1, 1, 1, 1).
    let r = run_xmm(&[0xc4, 0xe3, 0x71, 0x42, 0xc2, 0x01], s1, [0x0101_0101_0000_0000, 0, 0, 0]);
    assert_eq!(r[0], words([4, 6, 10, 14]));
}
