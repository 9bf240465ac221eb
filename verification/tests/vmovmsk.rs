use rax::backend::emulator::x86_64::{EmuError, X86_64Vcpu};
use rax::cpu::{Registers, Segment, SystemRegisters, VcpuExit};

// VMOVMSKPS / VMOVMSKPD: gather the sign bit of each packed single (4 or
// 8 lanes) or double (2 or 4 lanes) into a general register.

const MEM_SIZE: usize = 0x10000;
const CODE_ADDR: u64 = 0x1000;

fn long_mode_sregs() -> SystemRegisters {
    let mut s = SystemRegisters::default();
    s.cs = Segment {
        base: 0,
        limit: 0xFFFF_FFFF,
        selector: 0x8,
        type_: 0xB,
        present: true,
        dpl: 0,
        db: false,
        s: true,
        l: true,
        g: true,
        avl: false,
        unusable: false,
    };
    let data = Segment { selector: 0x10, type_: 0x3, l: false, db: true, ..s.cs };
    s.ds = data;
    s.es = data;
    s.fs = data;
    s.gs = data;
    s.ss = data;
    s.cr0 = 0x8000_0011;
    s.cr4 = 0x20;
    s.efer = 0x500;
    s
}

/// A 64-bit vCPU with `code` at CODE_ADDR and a stack below it.
fn setup_vm(code: &[u8], regs: Option<Registers>) -> (X86_64Vcpu, u64) {
    let mut vcpu = X86_64Vcpu::new(0, vec![0u8; MEM_SIZE]);
    vcpu.write_phys(CODE_ADDR, code).unwrap();
    vcpu.set_sregs(&long_mode_sregs()).unwrap();
    let mut r = regs.unwrap_or_default();
    r.rip = CODE_ADDR;
    r.rsp = 0x8000;
    r.rflags = 0x2;
    vcpu.set_regs(&r).unwrap();
    (vcpu, CODE_ADDR)
}

fn run_until_hlt(vcpu: &mut X86_64Vcpu) -> Result<Registers, EmuError> {
    for _ in 0..10_000 {
        if let Some(VcpuExit::Hlt) = vcpu.step()? {
            return vcpu.get_regs();
        }
    }
    Err(EmuError::StepLimit)
}

#[test]
fn test_vmovmskps_xmm0_to_eax() {
    // VMOVMSKPS EAX, XMM0
    let code = [
        0xc5, 0xf8, 0x50, 0xc0, // VMOVMSKPS EAX, XMM0
        0xf4, // HLT
    ];
    let (mut vcpu, _) = setup_vm(&code, None);
    run_until_hlt(&mut vcpu).unwrap();
}

#[test]
fn test_vmovmskps_xmm1_to_eax() {
    // VMOVMSKPS EAX, XMM1
    let code = [
        0xc5, 0xf8, 0x50, 0xc1, // VMOVMSKPS EAX, XMM1
        0xf4, // HLT
    ];
    let (mut vcpu, _) = setup_vm(&code, None);
    run_until_hlt(&mut vcpu).unwrap();
}

#[test]
fn test_vmovmskps_xmm2_to_ebx() {
    // VMOVMSKPS EBX, XMM2
    let code = [
        0xc5, 0xf8, 0x50, 0xda, // VMOVMSKPS EBX, XMM2
        0xf4, // HLT
    ];
    let (mut vcpu, _) = setup_vm(&code, None);
    run_until_hlt(&mut vcpu).unwrap();
}

#[test]
fn test_vmovmskps_xmm3_to_ecx() {
    // VMOVMSKPS ECX, XMM3
    let code = [
        0xc5, 0xf8, 0x50, 0xcb, // VMOVMSKPS ECX, XMM3
        0xf4, // HLT
    ];
    let (mut vcpu, _) = setup_vm(&code, None);
    run_until_hlt(&mut vcpu).unwrap();
}

#[test]
fn test_vmovmskps_xmm4_to_edx() {
    // VMOVMSKPS EDX, XMM4
    let code = [
        0xc5, 0xf8, 0x50, 0xd4, // VMOVMSKPS EDX, XMM4
        0xf4, // HLT
    ];
    let (mut vcpu, _) = setup_vm(&code, None);
    run_until_hlt(&mut vcpu).unwrap();
}

#[test]
fn test_vmovmskps_xmm5_to_esi() {
    // VMOVMSKPS ESI, XMM5
    let code = [
        0xc5, 0xf8, 0x50, 0xf5, // VMOVMSKPS ESI, XMM5
        0xf4, // HLT
    ];
    let (mut vcpu, _) = setup_vm(&code, None);
    run_until_hlt(&mut vcpu).unwrap();
}

#[test]
fn test_vmovmskps_xmm6_to_edi() {
    // VMOVMSKPS EDI, XMM6
    let code = [
        0xc5, 0xf8, 0x50, 0xfe, // VMOVMSKPS EDI, XMM6
        0xf4, // HLT
    ];
    let (mut vcpu, _) = setup_vm(&code, None);
    run_until_hlt(&mut vcpu).unwrap();
}

#[test]
fn test_vmovmskps_xmm7_to_eax() {
    // VMOVMSKPS EAX, XMM7
    let code = [
        0xc5, 0xf8, 0x50, 0xc7, // VMOVMSKPS EAX, XMM7
        0xf4, // HLT
    ];
    let (mut vcpu, _) = setup_vm(&code, None);
    run_until_hlt(&mut vcpu).unwrap();
}

#[test]
fn test_vmovmskps_xmm8_to_eax() {
    // VMOVMSKPS EAX, XMM8
    let code = [
        0xc4, 0xc1, 0x78, 0x50, 0xc0, // VMOVMSKPS EAX, XMM8
        0xf4, // HLT
    ];
    let (mut vcpu, _) = setup_vm(&code, None);
    run_until_hlt(&mut vcpu).unwrap();
}

#[test]
fn test_vmovmskps_xmm9_to_ebx() {
    // VMOVMSKPS EBX, XMM9
    let code = [
        0xc4, 0xc1, 0x78, 0x50, 0xd9, // VMOVMSKPS EBX, XMM9
        0xf4, // HLT
    ];
    let (mut vcpu, _) = setup_vm(&code, None);
    run_until_hlt(&mut vcpu).unwrap();
}

#[test]
fn test_vmovmskps_xmm10_to_ecx() {
    // VMOVMSKPS ECX, XMM10
    let code = [
        0xc4, 0xc1, 0x78, 0x50, 0xca, // VMOVMSKPS ECX, XMM10
        0xf4, // HLT
    ];
    let (mut vcpu, _) = setup_vm(&code, None);
    run_until_hlt(&mut vcpu).unwrap();
}

#[test]
fn test_vmovmskps_xmm11_to_edx() {
    // VMOVMSKPS EDX, XMM11
    let code = [
        0xc4, 0xc1, 0x78, 0x50, 0xd3, // VMOVMSKPS EDX, XMM11
        0xf4, // HLT
    ];
    let (mut vcpu, _) = setup_vm(&code, None);
    run_until_hlt(&mut vcpu).unwrap();
}

#[test]
fn test_vmovmskps_xmm12_to_esi() {
    // VMOVMSKPS ESI, XMM12
    let code = [
        0xc4, 0xc1, 0x78, 0x50, 0xf4, // VMOVMSKPS ESI, XMM12
        0xf4, // HLT
    ];
    let (mut vcpu, _) = setup_vm(&code, None);
    run_until_hlt(&mut vcpu).unwrap();
}

#[test]
fn test_vmovmskps_xmm13_to_edi() {
    // VMOVMSKPS EDI, XMM13
    let code = [
        0xc4, 0xc1, 0x78, 0x50, 0xfd, // VMOVMSKPS EDI, XMM13
        0xf4, // HLT
    ];
    let (mut vcpu, _) = setup_vm(&code, None);
    run_until_hlt(&mut vcpu).unwrap();
}

#[test]
fn test_vmovmskps_xmm14_to_eax() {
    // VMOVMSKPS EAX, XMM14
    let code = [
        0xc4, 0xc1, 0x78, 0x50, 0xc6, // VMOVMSKPS EAX, XMM14
        0xf4, // HLT
    ];
    let (mut vcpu, _) = setup_vm(&code, None);
    run_until_hlt(&mut vcpu).unwrap();
}

#[test]
fn test_vmovmskps_xmm15_to_eax() {
    // VMOVMSKPS EAX, XMM15
    let code = [
        0xc4, 0xc1, 0x78, 0x50, 0xc7, // VMOVMSKPS EAX, XMM15
        0xf4, // HLT
    ];
    let (mut vcpu, _) = setup_vm(&code, None);
    run_until_hlt(&mut vcpu).unwrap();
}

#[test]
fn test_vmovmskps_ymm0_to_eax() {
    // VMOVMSKPS EAX, YMM0
    let code = [
        0xc5, 0xfc, 0x50, 0xc0, // VMOVMSKPS EAX, YMM0
        0xf4, // HLT
    ];
    let (mut vcpu, _) = setup_vm(&code, None);
    run_until_hlt(&mut vcpu).unwrap();
}

#[test]
fn test_vmovmskps_ymm1_to_eax() {
    // VMOVMSKPS EAX, YMM1
    let code = [
        0xc5, 0xfc, 0x50, 0xc1, // VMOVMSKPS EAX, YMM1
        0xf4, // HLT
    ];
    let (mut vcpu, _) = setup_vm(&code, None);
    run_until_hlt(&mut vcpu).unwrap();
}

#[test]
fn test_vmovmskps_ymm2_to_ebx() {
    // VMOVMSKPS EBX, YMM2
    let code = [
        0xc5, 0xfc, 0x50, 0xda, // VMOVMSKPS EBX, YMM2
        0xf4, // HLT
    ];
    let (mut vcpu, _) = setup_vm(&code, None);
    run_until_hlt(&mut vcpu).unwrap();
}

#[test]
fn test_vmovmskps_ymm3_to_ecx() {
    // VMOVMSKPS ECX, YMM3
    let code = [
        0xc5, 0xfc, 0x50, 0xcb, // VMOVMSKPS ECX, YMM3
        0xf4, // HLT
    ];
    let (mut vcpu, _) = setup_vm(&code, None);
    run_until_hlt(&mut vcpu).unwrap();
}

#[test]
fn test_vmovmskps_ymm4_to_edx() {
    // VMOVMSKPS EDX, YMM4
    let code = [
        0xc5, 0xfc, 0x50, 0xd4, // VMOVMSKPS EDX, YMM4
        0xf4, // HLT
    ];
    let (mut vcpu, _) = setup_vm(&code, None);
    run_until_hlt(&mut vcpu).unwrap();
}

#[test]
fn test_vmovmskps_ymm5_to_esi() {
    // VMOVMSKPS ESI, YMM5
    let code = [
        0xc5, 0xfc, 0x50, 0xf5, // VMOVMSKPS ESI, YMM5
        0xf4, // HLT
    ];
    let (mut vcpu, _) = setup_vm(&code, None);
    run_until_hlt(&mut vcpu).unwrap();
}

#[test]
fn test_vmovmskps_ymm6_to_edi() {
    // VMOVMSKPS EDI, YMM6
    let code = [
        0xc5, 0xfc, 0x50, 0xfe, // VMOVMSKPS EDI, YMM6
        0xf4, // HLT
    ];
    let (mut vcpu, _) = setup_vm(&code, None);
    run_until_hlt(&mut vcpu).unwrap();
}

#[test]
fn test_vmovmskps_ymm7_to_eax() {
    // VMOVMSKPS EAX, YMM7
    let code = [
        0xc5, 0xfc, 0x50, 0xc7, // VMOVMSKPS EAX, YMM7
        0xf4, // HLT
    ];
    let (mut vcpu, _) = setup_vm(&code, None);
    run_until_hlt(&mut vcpu).unwrap();
}

#[test]
fn test_vmovmskps_ymm8_to_eax() {
    // VMOVMSKPS EAX, YMM8
    let code = [
        0xc4, 0xc1, 0x7c, 0x50, 0xc0, // VMOVMSKPS EAX, YMM8
        0xf4, // HLT
    ];
    let (mut vcpu, _) = setup_vm(&code, None);
    run_until_hlt(&mut vcpu).unwrap();
}

#[test]
fn test_vmovmskps_ymm9_to_ebx() {
    // VMOVMSKPS EBX, YMM9
    let code = [
        0xc4, 0xc1, 0x7c, 0x50, 0xd9, // VMOVMSKPS EBX, YMM9
        0xf4, // HLT
    ];
    let (mut vcpu, _) = setup_vm(&code, None);
    run_until_hlt(&mut vcpu).unwrap();
}

#[test]
fn test_vmovmskps_ymm10_to_ecx() {
    // VMOVMSKPS ECX, YMM10
    let code = [
        0xc4, 0xc1, 0x7c, 0x50, 0xca, // VMOVMSKPS ECX, YMM10
        0xf4, // HLT
    ];
    let (mut vcpu, _) = setup_vm(&code, None);
    run_until_hlt(&mut vcpu).unwrap();
}

#[test]
fn test_vmovmskps_ymm15_to_eax() {
    // VMOVMSKPS EAX, YMM15
    let code = [
        0xc4, 0xc1, 0x7c, 0x50, 0xc7, // VMOVMSKPS EAX, YMM15
        0xf4, // HLT
    ];
    let (mut vcpu, _) = setup_vm(&code, None);
    run_until_hlt(&mut vcpu).unwrap();
}

#[test]
fn test_vmovmskpd_xmm0_to_eax() {
    // VMOVMSKPD EAX, XMM0
    let code = [
        0xc5, 0xf9, 0x50, 0xc0, // VMOVMSKPD EAX, XMM0
        0xf4, // HLT
    ];
    let (mut vcpu, _) = setup_vm(&code, None);
    run_until_hlt(&mut vcpu).unwrap();
}

#[test]
fn test_vmovmskpd_xmm1_to_eax() {
    // VMOVMSKPD EAX, XMM1
    let code = [
        0xc5, 0xf9, 0x50, 0xc1, // VMOVMSKPD EAX, XMM1
        0xf4, // HLT
    ];
    let (mut vcpu, _) = setup_vm(&code, None);
    run_until_hlt(&mut vcpu).unwrap();
}

#[test]
fn test_vmovmskpd_xmm2_to_ebx() {
    // VMOVMSKPD EBX, XMM2
    let code = [
        0xc5, 0xf9, 0x50, 0xda, // VMOVMSKPD EBX, XMM2
        0xf4, // HLT
    ];
    let (mut vcpu, _) = setup_vm(&code, None);
    run_until_hlt(&mut vcpu).unwrap();
}

#[test]
fn test_vmovmskpd_xmm3_to_ecx() {
    // VMOVMSKPD ECX, XMM3
    let code = [
        0xc5, 0xf9, 0x50, 0xcb, // VMOVMSKPD ECX, XMM3
        0xf4, // HLT
    ];
    let (mut vcpu, _) = setup_vm(&code, None);
    run_until_hlt(&mut vcpu).unwrap();
}

#[test]
fn test_vmovmskpd_xmm4_to_edx() {
    // VMOVMSKPD EDX, XMM4
    let code = [
        0xc5, 0xf9, 0x50, 0xd4, // VMOVMSKPD EDX, XMM4
        0xf4, // HLT
    ];
    let (mut vcpu, _) = setup_vm(&code, None);
    run_until_hlt(&mut vcpu).unwrap();
}

#[test]
fn test_vmovmskpd_xmm5_to_esi() {
    // VMOVMSKPD ESI, XMM5
    let code = [
        0xc5, 0xf9, 0x50, 0xf5, // VMOVMSKPD ESI, XMM5
        0xf4, // HLT
    ];
    let (mut vcpu, _) = setup_vm(&code, None);
    run_until_hlt(&mut vcpu).unwrap();
}

#[test]
fn test_vmovmskpd_xmm6_to_edi() {
    // VMOVMSKPD EDI, XMM6
    let code = [
        0xc5, 0xf9, 0x50, 0xfe, // VMOVMSKPD EDI, XMM6
        0xf4, // HLT
    ];
    let (mut vcpu, _) = setup_vm(&code, None);
    run_until_hlt(&mut vcpu).unwrap();
}

#[test]
fn test_vmovmskpd_xmm7_to_eax() {
    // VMOVMSKPD EAX, XMM7
    let code = [
        0xc5, 0xf9, 0x50, 0xc7, // VMOVMSKPD EAX, XMM7
        0xf4, // HLT
    ];
    let (mut vcpu, _) = setup_vm(&code, None);
    run_until_hlt(&mut vcpu).unwrap();
}

#[test]
fn test_vmovmskpd_xmm8_to_eax() {
    // VMOVMSKPD EAX, XMM8
    let code = [
        0xc4, 0xc1, 0x79, 0x50, 0xc0, // VMOVMSKPD EAX, XMM8
        0xf4, // HLT
    ];
    let (mut vcpu, _) = setup_vm(&code, None);
    run_until_hlt(&mut vcpu).unwrap();
}

#[test]
fn test_vmovmskpd_xmm9_to_ebx() {
    // VMOVMSKPD EBX, XMM9
    let code = [
        0xc4, 0xc1, 0x79, 0x50, 0xd9, // VMOVMSKPD EBX, XMM9
        0xf4, // HLT
    ];
    let (mut vcpu, _) = setup_vm(&code, None);
    run_until_hlt(&mut vcpu).unwrap();
}

#[test]
fn test_vmovmskpd_xmm10_to_ecx() {
    // VMOVMSKPD ECX, XMM10
    let code = [
        0xc4, 0xc1, 0x79, 0x50, 0xca, // VMOVMSKPD ECX, XMM10
        0xf4, // HLT
    ];
    let (mut vcpu, _) = setup_vm(&code, None);
    run_until_hlt(&mut vcpu).unwrap();
}

#[test]
fn test_vmovmskpd_xmm11_to_edx() {
    // VMOVMSKPD EDX, XMM11
    let code = [
        0xc4, 0xc1, 0x79, 0x50, 0xd3, // VMOVMSKPD EDX, XMM11
        0xf4, // HLT
    ];
    let (mut vcpu, _) = setup_vm(&code, None);
    run_until_hlt(&mut vcpu).unwrap();
}

#[test]
fn test_vmovmskpd_xmm12_to_esi() {
    // VMOVMSKPD ESI, XMM12
    let code = [
        0xc4, 0xc1, 0x79, 0x50, 0xf4, // VMOVMSKPD ESI, XMM12
        0xf4, // HLT
    ];
    let (mut vcpu, _) = setup_vm(&code, None);
    run_until_hlt(&mut vcpu).unwrap();
}

#[test]
fn test_vmovmskpd_xmm13_to_edi() {
    // VMOVMSKPD EDI, XMM13
    let code = [
        0xc4, 0xc1, 0x79, 0x50, 0xfd, // VMOVMSKPD EDI, XMM13
        0xf4, // HLT
    ];
    let (mut vcpu, _) = setup_vm(&code, None);
    run_until_hlt(&mut vcpu).unwrap();
}

#[test]
fn test_vmovmskpd_xmm14_to_eax() {
    // VMOVMSKPD EAX, XMM14
    let code = [
        0xc4, 0xc1, 0x79, 0x50, 0xc6, // VMOVMSKPD EAX, XMM14
        0xf4, // HLT
    ];
    let (mut vcpu, _) = setup_vm(&code, None);
    run_until_hlt(&mut vcpu).unwrap();
}

#[test]
fn test_vmovmskpd_xmm15_to_eax() {
    // VMOVMSKPD EAX, XMM15
    let code = [
        0xc4, 0xc1, 0x79, 0x50, 0xc7, // VMOVMSKPD EAX, XMM15
        0xf4, // HLT
    ];
    let (mut vcpu, _) = setup_vm(&code, None);
    run_until_hlt(&mut vcpu).unwrap();
}

#[test]
fn test_vmovmskpd_ymm0_to_eax() {
    // VMOVMSKPD EAX, YMM0
    let code = [
        0xc5, 0xfd, 0x50, 0xc0, // VMOVMSKPD EAX, YMM0
        0xf4, // HLT
    ];
    let (mut vcpu, _) = setup_vm(&code, None);
    run_until_hlt(&mut vcpu).unwrap();
}

#[test]
fn test_vmovmskpd_ymm1_to_eax() {
    // VMOVMSKPD EAX, YMM1
    let code = [
        0xc5, 0xfd, 0x50, 0xc1, // VMOVMSKPD EAX, YMM1
        0xf4, // HLT
    ];
    let (mut vcpu, _) = setup_vm(&code, None);
    run_until_hlt(&mut vcpu).unwrap();
}

#[test]
fn test_vmovmskpd_ymm2_to_ebx() {
    // VMOVMSKPD EBX, YMM2
    let code = [
        0xc5, 0xfd, 0x50, 0xda, // VMOVMSKPD EBX, YMM2
        0xf4, // HLT
    ];
    let (mut vcpu, _) = setup_vm(&code, None);
    run_until_hlt(&mut vcpu).unwrap();
}

#[test]
fn test_vmovmskpd_ymm3_to_ecx() {
    // VMOVMSKPD ECX, YMM3
    let code = [
        0xc5, 0xfd, 0x50, 0xcb, // VMOVMSKPD ECX, YMM3
        0xf4, // HLT
    ];
    let (mut vcpu, _) = setup_vm(&code, None);
    run_until_hlt(&mut vcpu).unwrap();
}

#[test]
fn test_vmovmskpd_ymm4_to_edx() {
    // VMOVMSKPD EDX, YMM4
    let code = [
        0xc5, 0xfd, 0x50, 0xd4, // VMOVMSKPD EDX, YMM4
        0xf4, // HLT
    ];
    let (mut vcpu, _) = setup_vm(&code, None);
    run_until_hlt(&mut vcpu).unwrap();
}

#[test]
fn test_vmovmskpd_ymm5_to_esi() {
    // VMOVMSKPD ESI, YMM5
    let code = [
        0xc5, 0xfd, 0x50, 0xf5, // VMOVMSKPD ESI, YMM5
        0xf4, // HLT
    ];
    let (mut vcpu, _) = setup_vm(&code, None);
    run_until_hlt(&mut vcpu).unwrap();
}

#[test]
fn test_vmovmskpd_ymm6_to_edi() {
    // VMOVMSKPD EDI, YMM6
    let code = [
        0xc5, 0xfd, 0x50, 0xfe, // VMOVMSKPD EDI, YMM6
        0xf4, // HLT
    ];
    let (mut vcpu, _) = setup_vm(&code, None);
    run_until_hlt(&mut vcpu).unwrap();
}

#[test]
fn test_vmovmskpd_ymm7_to_eax() {
    // VMOVMSKPD EAX, YMM7
    let code = [
        0xc5, 0xfd, 0x50, 0xc7, // VMOVMSKPD EAX, YMM7
        0xf4, // HLT
    ];
    let (mut vcpu, _) = setup_vm(&code, None);
    run_until_hlt(&mut vcpu).unwrap();
}

#[test]
fn test_vmovmskpd_ymm8_to_eax() {
    // VMOVMSKPD EAX, YMM8
    let code = [
        0xc4, 0xc1, 0x7d, 0x50, 0xc0, // VMOVMSKPD EAX, YMM8
        0xf4, // HLT
    ];
    let (mut vcpu, _) = setup_vm(&code, None);
    run_until_hlt(&mut vcpu).unwrap();
}

#[test]
fn test_vmovmskpd_ymm9_to_ebx() {
    // VMOVMSKPD EBX, YMM9
    let code = [
        0xc4, 0xc1, 0x7d, 0x50, 0xd9, // VMOVMSKPD EBX, YMM9
        0xf4, // HLT
    ];
    let (mut vcpu, _) = setup_vm(&code, None);
    run_until_hlt(&mut vcpu).unwrap();
}

#[test]
fn test_vmovmskpd_ymm10_to_ecx() {
    // VMOVMSKPD ECX, YMM10
    let code = [
        0xc4, 0xc1, 0x7d, 0x50, 0xca, // VMOVMSKPD ECX, YMM10
        0xf4, // HLT
    ];
    let (mut vcpu, _) = setup_vm(&code, None);
    run_until_hlt(&mut vcpu).unwrap();
}

#[test]
fn test_vmovmskpd_ymm15_to_eax() {
    // VMOVMSKPD EAX, YMM15
    let code = [
        0xc4, 0xc1, 0x7d, 0x50, 0xc7, // VMOVMSKPD EAX, YMM15
        0xf4, // HLT
    ];
    let (mut vcpu, _) = setup_vm(&code, None);
    run_until_hlt(&mut vcpu).unwrap();
}

#[test]
fn test_vmovmskps_multiple_extracts() {
    // Multiple VMOVMSKPS operations
    let code = [
        0xc5, 0xf8, 0x50, 0xc0, // VMOVMSKPS EAX, XMM0
        0xc5, 0xf8, 0x50, 0xd9, // VMOVMSKPS EBX, XMM1
        0xc5, 0xf8, 0x50, 0xca, // VMOVMSKPS ECX, XMM2
        0xf4, // HLT
    ];
    let (mut vcpu, _) = setup_vm(&code, None);
    run_until_hlt(&mut vcpu).unwrap();
}

#[test]
fn test_vmovmskpd_multiple_extracts() {
    // Multiple VMOVMSKPD operations
    let code = [
        0xc5, 0xf9, 0x50, 0xc0, // VMOVMSKPD EAX, XMM0
        0xc5, 0xf9, 0x50, 0xd9, // VMOVMSKPD EBX, XMM1
        0xc5, 0xf9, 0x50, 0xca, // VMOVMSKPD ECX, XMM2
        0xf4, // HLT
    ];
    let (mut vcpu, _) = setup_vm(&code, None);
    run_until_hlt(&mut vcpu).unwrap();
}

fn kmm_set(vcpu: &mut X86_64Vcpu, idx: usize, lo: u128, hi: u128) {
    let mut regs = vcpu.get_regs().unwrap();
    regs.xmm[idx][0] = lo as u64;
    regs.xmm[idx][1] = (lo >> 64) as u64;
    regs.ymm_high[idx][0] = hi as u64;
    regs.ymm_high[idx][1] = (hi >> 64) as u64;
    vcpu.set_regs(&regs).unwrap();
}

const PS_SIGN_HI_BIT: u128 = 0x8000_0000u128; // MSB of a 32-bit lane.
const PD_SIGN_HI_BIT: u128 = 0x8000_0000_0000_0000u128; // MSB of a 64-bit lane.

#[test]
fn test_vmovmskps_xmm_value() {
    // VMOVMSKPS EAX, XMM0 ; lanes 0 and 3 negative -> mask 0b1001 = 0x9.
    let code = [0xc5, 0xf8, 0x50, 0xc0, 0xf4];
    let (mut vcpu, _) = setup_vm(&code, None);
    let lo = (PS_SIGN_HI_BIT << 0) | (PS_SIGN_HI_BIT << 96);
    kmm_set(&mut vcpu, 0, lo, 0);
    let regs = run_until_hlt(&mut vcpu).unwrap();
    assert_eq!(regs.rax & 0xFF, 0b1001);
}

#[test]
fn test_vmovmskps_ymm_value() {
    // VMOVMSKPS EAX, YMM0 ; 8 lanes -> set lanes {0,2,5,7} = 0b1010_0101 = 0xA5.
    let code = [0xc5, 0xfc, 0x50, 0xc0, 0xf4];
    let (mut vcpu, _) = setup_vm(&code, None);
    let lo = (PS_SIGN_HI_BIT << 0) | (PS_SIGN_HI_BIT << 64); // lanes 0,2
    let hi = (PS_SIGN_HI_BIT << 32) | (PS_SIGN_HI_BIT << 96); // lanes 5,7
    kmm_set(&mut vcpu, 0, lo, hi);
    let regs = run_until_hlt(&mut vcpu).unwrap();
    assert_eq!(regs.rax & 0xFF, 0b1010_0101);
}

#[test]
fn test_vmovmskpd_xmm_value() {
    // VMOVMSKPD EAX, XMM0 ; lane 1 negative -> mask 0b10 = 0x2.
    let code = [0xc5, 0xf9, 0x50, 0xc0, 0xf4];
    let (mut vcpu, _) = setup_vm(&code, None);
    let lo = PD_SIGN_HI_BIT << 64; // high qword sign set
    kmm_set(&mut vcpu, 0, lo, 0);
    let regs = run_until_hlt(&mut vcpu).unwrap();
    assert_eq!(regs.rax & 0xF, 0b10);
}

#[test]
fn test_vmovmskpd_ymm_value() {
    // VMOVMSKPD EAX, YMM0 ; 4 lanes -> set lanes {0,3} = 0b1001 = 0x9.
    let code = [0xc5, 0xfd, 0x50, 0xc0, 0xf4];
    let (mut vcpu, _) = setup_vm(&code, None);
    let lo = PD_SIGN_HI_BIT; // lane 0
    let hi = PD_SIGN_HI_BIT << 64; // lane 3 (high qword of high lane)
    kmm_set(&mut vcpu, 0, lo, hi);
    let regs = run_until_hlt(&mut vcpu).unwrap();
    assert_eq!(regs.rax & 0xF, 0b1001);
}
