use rax::backend::emulator::x86_64::{EmuError, X86_64Vcpu};
use rax::cpu::{Registers, Segment, SystemRegisters, VcpuExit};

const MEM_SIZE: usize = 0x10000;
const CODE_ADDR: u64 = 0x1000;
const DATA_ADDR: u64 = 0x3001;

fn long_mode_sregs() -> SystemRegisters {
    let mut s = SystemRegisters::default();
    s.cs = Segment {
        base: 0,
        limit: 0xFFFF_FFFF,
        selector: 0x8,
        type_: 0xB,
        present: true,
        dpl: 0,
        db: false,
        s: true,
        l: true,
        g: true,
        avl: false,
        unusable: false,
    };
    let data = Segment { selector: 0x10, type_: 0x3, l: false, db: true, ..s.cs };
    s.ds = data;
    s.es = data;
    s.fs = data;
    s.gs = data;
    s.ss = data;
    s.cr0 = 0x8000_0011;
    s.cr4 = 0x20;
    s.efer = 0x500;
    s
}

fn setup_vm(code: &[u8], regs: Option<Registers>) -> (X86_64Vcpu, u64) {
    let mut vcpu = X86_64Vcpu::new(0, vec![0u8; MEM_SIZE]);
    vcpu.write_phys(CODE_ADDR, code).unwrap();
    vcpu.set_sregs(&long_mode_sregs()).unwrap();
    let mut r = regs.unwrap_or_default();
    r.rip = CODE_ADDR;
    r.rsp = 0x8000;
    r.rflags = 0x2;
    vcpu.set_regs(&r).unwrap();
    (vcpu, CODE_ADDR)
}

fn run_until_hlt(vcpu: &mut X86_64Vcpu) -> Result<Registers, EmuError> {
    for _ in 0..10_000 {
        if let Some(VcpuExit::Hlt) = vcpu.step()? {
            return vcpu.get_regs();
        }
    }
    Err(EmuError::StepLimit)
}

fn u64_at(bytes: &[u8], offset: usize) -> u64 {
    u64::from_le_bytes(bytes[offset..offset + 8].try_into().unwrap())
}

#[test]
fn test_vlddqu_ymm_mem_loads_32_unaligned_bytes() {
    let code = [
        0xc5, 0xff, 0xf0, 0x08, // VLDDQU ymm1, ymmword ptr [rax]
        0xf4,
    ];
    let regs = Registers { rax: DATA_ADDR, ..Registers::default() };
    let (mut vcpu, _) = setup_vm(&code, Some(regs));
    let data: Vec<u8> = (0..32).map(|i| 0xa0u8.wrapping_add(i)).collect();
    vcpu.write_phys(DATA_ADDR, &data).unwrap();

    let regs = run_until_hlt(&mut vcpu).unwrap();

    assert_eq!(regs.xmm[1][0], u64_at(&data, 0));
    assert_eq!(regs.xmm[1][1], u64_at(&data, 8));
    assert_eq!(regs.ymm_high[1][0], u64_at(&data, 16));
    assert_eq!(regs.ymm_high[1][1], u64_at(&data, 24));
}

#[test]
fn test_vlddqu_xmm_mem_zeroes_upper_ymm_lane() {
    let code = [
        0xc5, 0xfb, 0xf0, 0x10, // VLDDQU xmm2, xmmword ptr [rax]
        0xf4,
    ];
    let mut regs = Registers { rax: DATA_ADDR, ..Registers::default() };
    regs.ymm_high[2] = [0x1111_2222_3333_4444, 0x5555_6666_7777_8888];

    let (mut vcpu, _) = setup_vm(&code, Some(regs));
    let data: Vec<u8> = (0..16).map(|i| 0x20u8.wrapping_add(i * 3)).collect();
    vcpu.write_phys(DATA_ADDR, &data).unwrap();

    let regs = run_until_hlt(&mut vcpu).unwrap();

    assert_eq!(regs.xmm[2][0], u64_at(&data, 0));
    assert_eq!(regs.xmm[2][1], u64_at(&data, 8));
    assert_eq!(regs.ymm_high[2], [0, 0]);
}

#[test]
fn vmovdqu_store_then_load_round_trip() {
    let code = [
        0xc5, 0xfe, 0x7f, 0x0b, // VMOVDQU [rbx], ymm1
        0xc5, 0xfe, 0x6f, 0x13, // VMOVDQU ymm2, [rbx]
        0xf4,
    ];
    let mut regs = Registers { rbx: 0x5000, ..Registers::default() };
    regs.xmm[1] = [0x0102_0304_0506_0708, 0x1112_1314_1516_1718];
    regs.ymm_high[1] = [0x2122_2324_2526_2728, 0x3132_3334_3536_3738];
    let (mut vcpu, _) = setup_vm(&code, Some(regs));
    let out = run_until_hlt(&mut vcpu).unwrap();
    assert_eq!(out.xmm[2], out.xmm[1]);
    assert_eq!(out.ymm_high[2], out.ymm_high[1]);
    assert_eq!(vcpu.read_mem(0x5000, 8), Ok(0x0102_0304_0506_0708));
    assert_eq!(vcpu.read_mem(0x5018, 8), Ok(0x3132_3334_3536_3738));
}

#[test]
fn vmovdqa_sib_and_register_forms() {
    let code = [
        0xc5, 0xf9, 0x6f, 0x54, 0x88, 0x10, // VMOVDQA xmm2, [rax+rcx*4+0x10]
        0xc5, 0xf9, 0x6f, 0xda, // VMOVDQA xmm3, xmm2
        0xf4,
    ];
    let mut regs = Registers { rax: 0x4000, rcx: 0x4, ..Registers::default() };
    regs.ymm_high[3] = [9, 9];
    let (mut vcpu, _) = setup_vm(&code, Some(regs));
    let data: Vec<u8> = (0..16).collect();
    vcpu.write_phys(0x4000 + 16 + 0x10, &data).unwrap();
    let out = run_until_hlt(&mut vcpu).unwrap();
    assert_eq!(out.xmm[2], [u64_at(&data, 0), u64_at(&data, 8)]);
    assert_eq!(out.xmm[3], out.xmm[2]);
    assert_eq!(out.ymm_high[3], [0, 0]);
}

#[test]
fn vmovq_rip_relative_and_gpr_moves() {
    let code = [
        0xc5, 0xfa, 0x7e, 0x1d, 0x20, 0x00, 0x00, 0x00, // VMOVQ xmm3, [rip+0x20]
        0xc5, 0xf9, 0x6e, 0xe3, // VMOVD xmm4, ebx
        0xc4, 0xe1, 0xf9, 0x7e, 0xd9, // VMOVQ rcx, xmm3
        0xc5, 0xf9, 0x7e, 0xe0, // VMOVD eax, xmm4
        0xc5, 0xf9, 0xd6, 0x1e, // VMOVQ [rsi], xmm3
        0xf4,
    ];
    let regs = Registers {
        rbx: 0xFFFF_FFFF_8765_4321,
        rax: u64::MAX,
        rsi: 0x6000,
        ..Registers::default()
    };
    let (mut vcpu, _) = setup_vm(&code, Some(regs));
    // RIP after the first instruction is CODE_ADDR + 8.
    vcpu.write_phys(CODE_ADDR + 8 + 0x20, &0xDEAD_BEEF_CAFE_F00Du64.to_le_bytes()).unwrap();
    let out = run_until_hlt(&mut vcpu).unwrap();
    assert_eq!(out.xmm[3], [0xDEAD_BEEF_CAFE_F00D, 0]);
    assert_eq!(out.xmm[4], [0x8765_4321, 0]);
    assert_eq!(out.rcx, 0xDEAD_BEEF_CAFE_F00D);
    assert_eq!(out.rax, 0x8765_4321);
    assert_eq!(vcpu.read_mem(0x6000, 8), Ok(0xDEAD_BEEF_CAFE_F00D));
}

#[test]
fn vector_load_past_memory_faults_without_effect() {
    let code = [0xc5, 0xfe, 0x6f, 0x08, 0xf4]; // VMOVDQU ymm1, [rax]
    let regs = Registers { rax: (MEM_SIZE - 16) as u64, ..Registers::default() };
    let (mut vcpu, _) = setup_vm(&code, Some(regs));
    assert_eq!(vcpu.step(), Err(EmuError::MemoryFault((MEM_SIZE - 16) as u64)));
    assert_eq!(vcpu.regs.rip, CODE_ADDR);
    assert_eq!(vcpu.regs.xmm[1], [0, 0]);
    // VLDDQU with a register source is rejected.
    let (mut vcpu, _) = setup_vm(&[0xc5, 0xff, 0xf0, 0xc8, 0xf4], None);
    assert_eq!(vcpu.step(), Err(EmuError::Unsupported(0xF0)));
}

#[test]
fn vpmaskmovd_load_and_store_follow_sign_bits() {
    let code = [
        0xc4, 0xe2, 0x69, 0x8c, 0x08, // VPMASKMOVD xmm1, xmm2, [rax]
        0xc4, 0xe2, 0x69, 0x8e, 0x1b, // VPMASKMOVD [rbx], xmm2, xmm3
        0xf4,
    ];
    let mut regs = Registers { rax: 0x4000, rbx: 0x5000, ..Registers::default() };
    // Mask dwords: negative, positive, negative, positive.
    regs.xmm[2] = [0x0000_0001_8000_0000, 0x0000_0000_FFFF_FFFF];
    regs.xmm[3] = [0xBBBB_BBBB_AAAA_AAAA, 0xDDDD_DDDD_CCCC_CCCC];
    regs.ymm_high[1] = [7, 7];
    let (mut vcpu, _) = setup_vm(&code, Some(regs));
    let data: Vec<u8> = [0x1111_1111u32, 0x2222_2222, 0x3333_3333, 0x4444_4444]
        .iter()
        .flat_map(|d| d.to_le_bytes())
        .collect();
    vcpu.write_phys(0x4000, &data).unwrap();
    vcpu.write_phys(0x5000, &[0x55u8; 16]).unwrap();
    let out = run_until_hlt(&mut vcpu).unwrap();
    assert_eq!(out.xmm[1], [0x1111_1111, 0x3333_3333]);
    assert_eq!(out.ymm_high[1], [0, 0]);
    // Only the selected dwords were written.
    assert_eq!(vcpu.read_mem(0x5000, 8), Ok(0x5555_5555_AAAA_AAAA));
    assert_eq!(vcpu.read_mem(0x5008, 8), Ok(0x5555_5555_CCCC_CCCC));
}

#[test]
fn vmaskmovpd_ymm_load() {
    let code = [
        0xc4, 0xe2, 0x55, 0x2d, 0x20, // VMASKMOVPD ymm4, ymm5, [rax]
        0xf4,
    ];
    let mut regs = Registers { rax: 0x6000, ..Registers::default() };
    regs.xmm[5] = [1 << 63, 0];
    regs.ymm_high[5] = [1, u64::MAX];
    let (mut vcpu, _) = setup_vm(&code, Some(regs));
    let data: Vec<u8> = (0..32).map(|i| i as u8).collect();
    vcpu.write_phys(0x6000, &data).unwrap();
    let out = run_until_hlt(&mut vcpu).unwrap();
    assert_eq!(out.xmm[4], [u64_at(&data, 0), 0]);
    assert_eq!(out.ymm_high[4], [0, u64_at(&data, 24)]);
}

#[test]
fn masked_off_elements_never_fault() {
    // Only element 0 selected: it fits in the last four bytes of memory.
    let code = [0xc4, 0xe2, 0x69, 0x8c, 0x08, 0xf4];
    let mut regs = Registers { rax: (MEM_SIZE - 4) as u64, ..Registers::default() };
    regs.xmm[2] = [0x8000_0000, 0];
    let (mut vcpu, _) = setup_vm(&code, Some(regs));
    vcpu.write_phys((MEM_SIZE - 4) as u64, &[1, 2, 3, 4]).unwrap();
    let out = run_until_hlt(&mut vcpu).unwrap();
    assert_eq!(out.xmm[1], [0x0403_0201, 0]);
    // Selecting element 1 as well faults at its address.
    regs.xmm[2] = [0x8000_0000_8000_0000, 0];
    let (mut vcpu, _) = setup_vm(&code, Some(regs));
    assert_eq!(vcpu.step(), Err(EmuError::MemoryFault(MEM_SIZE as u64)));
}

#[test]
fn test_vbroadcastf128_duplicates_128_bit_memory_tuple() {
    let code = [
        0xc4, 0xe2, 0x7d, 0x1a, 0x18, // VBROADCASTF128 ymm3, xmmword ptr [rax]
        0xf4,
    ];
    let regs = Registers { rax: DATA_ADDR, ..Registers::default() };
    let (mut vcpu, _) = setup_vm(&code, Some(regs));
    let data: Vec<u8> = (0..16).map(|i| 0xe1u8.wrapping_sub(i * 7)).collect();
    vcpu.write_phys(DATA_ADDR, &data).unwrap();

    let regs = run_until_hlt(&mut vcpu).unwrap();

    let lo = u64_at(&data, 0);
    let hi = u64_at(&data, 8);
    assert_eq!(regs.xmm[3], [lo, hi]);
    assert_eq!(regs.ymm_high[3], [lo, hi]);
}

#[test]
fn test_vbroadcastf128_extended_destination_register() {
    let code = [
        0xc4, 0x62, 0x7d, 0x1a, 0x08, // VBROADCASTF128 ymm9, xmmword ptr [rax]
        0xf4,
    ];
    let regs = Registers { rax: DATA_ADDR, ..Registers::default() };
    let (mut vcpu, _) = setup_vm(&code, Some(regs));
    let data: Vec<u8> = (0..16).map(|i| 0x11u8.wrapping_add(i * 13)).collect();
    vcpu.write_phys(DATA_ADDR, &data).unwrap();

    let regs = run_until_hlt(&mut vcpu).unwrap();

    let lo = u64_at(&data, 0);
    let hi = u64_at(&data, 8);
    assert_eq!(regs.xmm[9], [lo, hi]);
    assert_eq!(regs.ymm_high[9], [lo, hi]);
}

#[test]
fn vpmovmskb_collects_byte_signs() {
    let code = [
        0xc5, 0xf9, 0xd7, 0xc1, // VPMOVMSKB eax, xmm1
        0xc5, 0xfd, 0xd7, 0xca, // VPMOVMSKB ecx, ymm2
        0xf4,
    ];
    let mut regs = Registers { rax: u64::MAX, ..Registers::default() };
    regs.xmm[1] = [0x8000_FF01_0000_0080, 0x8000_0000_0000_0000];
    regs.xmm[2] = [0x8080_8080_8080_8080, 0];
    regs.ymm_high[2] = [0, 0x8000_0000_0000_0000];
    let (mut vcpu, _) = setup_vm(&code, Some(regs));
    let out = run_until_hlt(&mut vcpu).unwrap();
    assert_eq!(out.rax, 0x80A1);
    assert_eq!(out.rcx, 0x8000_00FF);
}

#[test]
fn vpshufb_reverses_and_zeroes() {
    let code = [
        0xc4, 0xe2, 0x71, 0x00, 0xc2, // VPSHUFB xmm0, xmm1, xmm2
        0xf4,
    ];
    let mut regs = Registers::default();
    regs.xmm[1] = [0x0706_0504_0302_0100, 0x0F0E_0D0C_0B0A_0908];
    regs.xmm[2] = [0x0809_0A0B_0C0D_0E80, 0x0001_0203_0405_0607];
    regs.ymm_high[0] = [5, 5];
    let (mut vcpu, _) = setup_vm(&code, Some(regs));
    let out = run_until_hlt(&mut vcpu).unwrap();
    assert_eq!(out.xmm[0], [0x0809_0A0B_0C0D_0E00, 0x0001_0203_0405_0607]);
    assert_eq!(out.ymm_high[0], [0, 0]);
}

#[test]
fn element_broadcasts() {
    let code = [
        0xc4, 0xe2, 0x7d, 0x78, 0xdc, // VPBROADCASTB ymm3, xmm4
        0xc4, 0xe2, 0x79, 0x58, 0x28, // VPBROADCASTD xmm5, [rax]
        0xc4, 0xe2, 0x7d, 0x18, 0xf7, // VBROADCASTSS ymm6, xmm7
        0xf4,
    ];
    let mut regs = Registers { rax: 0x4000, ..Registers::default() };
    regs.xmm[4] = [0x1234_56AB, 0];
    regs.xmm[7] = [0xFFFF_FFFF_3F80_0000, 0];
    regs.ymm_high[5] = [3, 3];
    let (mut vcpu, _) = setup_vm(&code, Some(regs));
    vcpu.write_phys(0x4000, &0x1234_5678u32.to_le_bytes()).unwrap();
    let out = run_until_hlt(&mut vcpu).unwrap();
    assert_eq!(out.xmm[3], [0xABAB_ABAB_ABAB_ABAB; 2]);
    assert_eq!(out.ymm_high[3], [0xABAB_ABAB_ABAB_ABAB; 2]);
    assert_eq!(out.xmm[5], [0x1234_5678_1234_5678; 2]);
    assert_eq!(out.ymm_high[5], [0, 0]);
    assert_eq!(out.xmm[6], [0x3F80_0000_3F80_0000; 2]);
    assert_eq!(out.ymm_high[6], [0x3F80_0000_3F80_0000; 2]);
}

#[test]
fn vzeroupper_and_vzeroall() {
    let mut regs = Registers::default();
    for i in 0..16 {
        regs.xmm[i] = [i as u64 + 1, 2];
        regs.ymm_high[i] = [3, 4];
    }
    let (mut vcpu, _) = setup_vm(&[0xc5, 0xf8, 0x77, 0xf4], Some(regs));
    let out = run_until_hlt(&mut vcpu).unwrap();
    for i in 0..16 {
        assert_eq!(out.xmm[i], [i as u64 + 1, 2]);
        assert_eq!(out.ymm_high[i], [0, 0]);
    }
    let (mut vcpu, _) = setup_vm(&[0xc5, 0xfc, 0x77, 0xf4], Some(regs));
    let out = run_until_hlt(&mut vcpu).unwrap();
    for i in 0..16 {
        assert_eq!(out.xmm[i], [0, 0]);
        assert_eq!(out.ymm_high[i], [0, 0]);
    }
}

#[test]
fn vstmxcsr_stores_default_and_vldmxcsr_checks_operand() {
    // VSTMXCSR [rax]; VLDMXCSR [rax]; HLT
    let code = [0xc5, 0xf8, 0xae, 0x18, 0xc5, 0xf8, 0xae, 0x10, 0xf4];
    let regs = Registers { rax: DATA_ADDR, ..Registers::default() };
    let (mut vcpu, _) = setup_vm(&code, Some(regs));
    run_until_hlt(&mut vcpu).unwrap();
    assert_eq!(vcpu.read_mem(DATA_ADDR, 4), Ok(0x1F80));
    // VLDMXCSR from past the end of memory faults.
    let regs = Registers { rax: (MEM_SIZE - 2) as u64, ..Registers::default() };
    let (mut vcpu, _) = setup_vm(&[0xc5, 0xf8, 0xae, 0x10], Some(regs));
    assert_eq!(vcpu.step(), Err(EmuError::MemoryFault((MEM_SIZE - 2) as u64)));
    // A register operand is refused.
    let (mut vcpu, _) = setup_vm(&[0xc5, 0xf8, 0xae, 0xd0], None);
    assert_eq!(vcpu.step(), Err(EmuError::Unsupported(0xae)));
}

#[test]
fn mask_register_moves_and_logic() {
    let code = [
        0xc5, 0xf8, 0x90, 0x08, // KMOVW k1, [rax]
        0xc5, 0xf8, 0x92, 0xd2, // KMOVW k2, edx
        0xc5, 0xf4, 0x41, 0xda, // KANDW k3, k1, k2
        0xc5, 0xf8, 0x44, 0xe3, // KNOTW k4, k3
        0xc5, 0xf8, 0x91, 0x23, // KMOVW [rbx], k4
        0xc5, 0xf8, 0x93, 0xcb, // KMOVW ecx, k3
        0xc5, 0xf5, 0x4b, 0xea, // KUNPCKBW k5, k1, k2
        0xc4, 0xe3, 0xf9, 0x32, 0xf1, 0x03, // KSHIFTLW k6, k1, 3
        0xf4,
    ];
    let regs = Registers {
        rax: DATA_ADDR,
        rbx: DATA_ADDR + 0x10,
        rcx: u64::MAX,
        rdx: 0xABCD_00FF,
        ..Registers::default()
    };
    let (mut vcpu, _) = setup_vm(&code, Some(regs));
    vcpu.write_phys(DATA_ADDR, &[0x34, 0x12]).unwrap();
    let out = run_until_hlt(&mut vcpu).unwrap();
    assert_eq!(out.k[1], 0x1234);
    assert_eq!(out.k[2], 0x00FF);
    assert_eq!(out.k[3], 0x0034);
    assert_eq!(out.k[4], 0xFFCB);
    assert_eq!(vcpu.read_mem(DATA_ADDR + 0x10, 2), Ok(0xFFCB));
    assert_eq!(out.rcx, 0x34);
    assert_eq!(out.k[5], 0x34FF);
    assert_eq!(out.k[6], 0x91A0);
}

#[test]
fn mask_tests_set_zf_and_cf() {
    // KORTESTW k1, k2 with both zero: ZF set, CF clear.
    let (mut vcpu, _) = setup_vm(&[0xc5, 0xf8, 0x98, 0xca, 0xf4], None);
    let out = run_until_hlt(&mut vcpu).unwrap();
    assert_eq!(out.rflags & 0x41, 0x40);
    // KORTESTB k1, k2 covering all eight bits: CF set.
    let mut regs = Registers::default();
    regs.k[1] = 0x0F;
    regs.k[2] = 0xF0;
    let (mut vcpu, _) = setup_vm(&[0xc5, 0xf9, 0x98, 0xca, 0xf4], Some(regs));
    let out = run_until_hlt(&mut vcpu).unwrap();
    assert_eq!(out.rflags & 0x41, 0x01);
    // KTESTW k1, k2 with disjoint masks: ZF set; !k1 & k2 nonzero: CF clear.
    let mut regs = Registers::default();
    regs.k[1] = 0x00FF;
    regs.k[2] = 0xFF00;
    regs.rflags = 0x8D5;
    let (mut vcpu, _) = setup_vm(&[0xc5, 0xf8, 0x99, 0xca, 0xf4], Some(regs));
    let out = run_until_hlt(&mut vcpu).unwrap();
    assert_eq!(out.rflags & 0x8D5, 0x40);
    // VEX.vvvv must be 1111b for KTEST.
    let (mut vcpu, _) = setup_vm(&[0xc5, 0xf0, 0x99, 0xca], None);
    assert_eq!(vcpu.step(), Err(EmuError::InvalidOpcode(0x99)));
}

#[test]
fn vpmaskmovd_ymm_upper_fault_keeps_low_half_loaded() {
    // VPMASKMOVD ymm1, ymm2, [rax] with every element selected; the upper
    // four dwords lie past the end of memory.
    let code = [0xc4, 0xe2, 0x6d, 0x8c, 0x08, 0xf4];
    let mut regs = Registers { rax: (MEM_SIZE - 16) as u64, ..Registers::default() };
    regs.xmm[2] = [0x8000_0000_8000_0000; 2];
    regs.ymm_high[2] = [0x8000_0000_8000_0000; 2];
    regs.xmm[1] = [9, 9];
    regs.ymm_high[1] = [7, 7];
    let (mut vcpu, _) = setup_vm(&code, Some(regs));
    let data: Vec<u8> = (1..=16).collect();
    vcpu.write_phys((MEM_SIZE - 16) as u64, &data).unwrap();
    assert_eq!(vcpu.step(), Err(EmuError::MemoryFault(MEM_SIZE as u64)));
    assert_eq!(vcpu.regs.xmm[1], [u64_at(&data, 0), u64_at(&data, 8)]);
    assert_eq!(vcpu.regs.ymm_high[1], [7, 7]);
    // VMASKMOVPS reads every element before it writes the register.
    let code = [0xc4, 0xe2, 0x6d, 0x2c, 0x08, 0xf4];
    let (mut vcpu, _) = setup_vm(&code, Some(regs));
    vcpu.write_phys((MEM_SIZE - 16) as u64, &data).unwrap();
    assert_eq!(vcpu.step(), Err(EmuError::MemoryFault(MEM_SIZE as u64)));
    assert_eq!(vcpu.regs.xmm[1], [9, 9]);
    assert_eq!(vcpu.regs.ymm_high[1], [7, 7]);
}
