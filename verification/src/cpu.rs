//! Architectural state of an x86-64 virtual CPU, shared by the backends.

use vstd::prelude::*;

verus! {

/// General-purpose, instruction-pointer, flags and vector registers.
///
/// `xmm[i]` holds bits 127:0 of vector register `i` as two little-endian
/// quadwords; `ymm_high[i]` holds bits 255:128; `k` are the AVX-512 mask
/// registers.
#[derive(Clone, Copy, Debug, PartialEq, Eq)]
pub struct Registers {
    pub rax: u64,
    pub rbx: u64,
    pub rcx: u64,
    pub rdx: u64,
    pub rsi: u64,
    pub rdi: u64,
    pub rsp: u64,
    pub rbp: u64,
    pub r8: u64,
    pub r9: u64,
    pub r10: u64,
    pub r11: u64,
    pub r12: u64,
    pub r13: u64,
    pub r14: u64,
    pub r15: u64,
    pub rip: u64,
    pub rflags: u64,
    pub xmm: [[u64; 2]; 16],
    pub ymm_high: [[u64; 2]; 16],
    pub k: [u64; 8],
}

/// All registers zero.
pub open spec fn registers_zeroed(r: Registers) -> bool {
    &&& r.rax == 0 && r.rbx == 0 && r.rcx == 0 && r.rdx == 0
    &&& r.rsi == 0 && r.rdi == 0 && r.rsp == 0 && r.rbp == 0
    &&& r.r8 == 0 && r.r9 == 0 && r.r10 == 0 && r.r11 == 0
    &&& r.r12 == 0 && r.r13 == 0 && r.r14 == 0 && r.r15 == 0
    &&& r.rip == 0 && r.rflags == 0
    &&& forall|i: int, j: int| 0 <= i < 16 && 0 <= j < 2 ==> #[trigger] r.xmm[i][j] == 0
    &&& forall|i: int, j: int| 0 <= i < 16 && 0 <= j < 2 ==> #[trigger] r.ymm_high[i][j] == 0
    &&& forall|i: int| 0 <= i < 8 ==> #[trigger] r.k[i] == 0
}

impl Default for Registers {
    fn default() -> (r: Self)
        ensures
            registers_zeroed(r),
    {
        Registers {
            rax: 0,
            rbx: 0,
            rcx: 0,
            rdx: 0,
            rsi: 0,
            rdi: 0,
            rsp: 0,
            rbp: 0,
            r8: 0,
            r9: 0,
            r10: 0,
            r11: 0,
            r12: 0,
            r13: 0,
            r14: 0,
            r15: 0,
            rip: 0,
            rflags: 0,
            xmm: [[0u64; 2]; 16],
            ymm_high: [[0u64; 2]; 16],
            k: [0u64; 8],
        }
    }
}

/// A segment register with its cached descriptor.
#[derive(Clone, Copy, Debug, PartialEq, Eq)]
pub struct Segment {
    pub base: u64,
    pub limit: u32,
    pub selector: u16,
    pub type_: u8,
    pub present: bool,
    pub dpl: u8,
    /// Default operation size (1 = 32-bit) for code segments.
    pub db: bool,
    pub s: bool,
    /// 64-bit code segment.
    pub l: bool,
    pub g: bool,
    pub avl: bool,
    pub unusable: bool,
}

/// A null segment.
pub open spec fn segment_null(s: Segment) -> bool {
    &&& s.base == 0 && s.limit == 0 && s.selector == 0 && s.type_ == 0
    &&& !s.present && s.dpl == 0 && !s.db && !s.s && !s.l && !s.g && !s.avl && !s.unusable
}

impl Default for Segment {
    fn default() -> (r: Self)
        ensures
            segment_null(r),
    {
        Segment {
            base: 0,
            limit: 0,
            selector: 0,
            type_: 0,
            present: false,
            dpl: 0,
            db: false,
            s: false,
            l: false,
            g: false,
            avl: false,
            unusable: false,
        }
    }
}

/// GDTR / IDTR.
#[derive(Clone, Copy, Debug, PartialEq, Eq)]
pub struct DescriptorTable {
    pub base: u64,
    pub limit: u16,
}

impl Default for DescriptorTable {
    fn default() -> (r: Self)
        ensures
            r.base == 0 && r.limit == 0,
    {
        DescriptorTable { base: 0, limit: 0 }
    }
}

/// Segment, descriptor-table and control registers, and the model-specific
/// registers that RDMSR/WRMSR reach.
#[derive(Clone, Copy, Debug, PartialEq, Eq)]
pub struct SystemRegisters {
    pub cs: Segment,
    pub ds: Segment,
    pub es: Segment,
    pub fs: Segment,
    pub gs: Segment,
    pub ss: Segment,
    pub gdt: DescriptorTable,
    pub idt: DescriptorTable,
    pub cr0: u64,
    pub cr2: u64,
    pub cr3: u64,
    pub cr4: u64,
    pub efer: u64,
    pub star: u64,
    pub lstar: u64,
    pub cstar: u64,
    pub fmask: u64,
    pub sysenter_cs: u64,
    pub sysenter_esp: u64,
    pub sysenter_eip: u64,
    /// The value SWAPGS exchanges with GS.base (IA32_KERNEL_GS_BASE).
    pub kernel_gs_base: u64,
}

impl Default for SystemRegisters {
    fn default() -> (r: Self)
        ensures
            segment_null(r.cs) && segment_null(r.ds) && segment_null(r.es),
            segment_null(r.fs) && segment_null(r.gs) && segment_null(r.ss),
            r.gdt.base == 0 && r.gdt.limit == 0 && r.idt.base == 0 && r.idt.limit == 0,
            r.cr0 == 0 && r.cr2 == 0 && r.cr3 == 0 && r.cr4 == 0 && r.efer == 0,
            r.star == 0 && r.lstar == 0 && r.cstar == 0 && r.fmask == 0,
            r.sysenter_cs == 0 && r.sysenter_esp == 0 && r.sysenter_eip == 0,
            r.kernel_gs_base == 0,
    {
        SystemRegisters {
            cs: Segment::default(),
            ds: Segment::default(),
            es: Segment::default(),
            fs: Segment::default(),
            gs: Segment::default(),
            ss: Segment::default(),
            gdt: DescriptorTable::default(),
            idt: DescriptorTable::default(),
            cr0: 0,
            cr2: 0,
            cr3: 0,
            cr4: 0,
            efer: 0,
            star: 0,
            lstar: 0,
            cstar: 0,
            fmask: 0,
            sysenter_cs: 0,
            sysenter_esp: 0,
            sysenter_eip: 0,
            kernel_gs_base: 0,
        }
    }
}

/// Why a vCPU stopped running guest code.
#[derive(Clone, Copy, Debug, PartialEq, Eq, Structural)]
pub enum VcpuExit {
    /// The guest executed HLT.
    Hlt,
    /// The guest can no longer run (triple fault).
    Shutdown,
    /// A port input of `size` bytes from `port`; the host stores the value
    /// little-endian at guest-physical `dest`.
    IoIn { port: u16, size: u8, dest: u64 },
    /// A port output of the low `size` bytes of `data` to `port`.
    IoOut { port: u16, size: u8, data: u32 },
}

} // verus!
