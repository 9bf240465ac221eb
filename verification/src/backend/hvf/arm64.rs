//! Exit handling of the Hypervisor.framework ARM64 vCPU, as decisions on
//! plain values: what an exit asks the run loop to do, the answer to a PSCI
//! call, the MMIO access a data abort describes, and the register value a
//! completed MMIO read yields. The framework calls stay with the host.

use vstd::prelude::*;

verus! {

/// Exception classes (ESR_EL2.EC) the run loop handles.
pub const EC_WFI_WFE: u32 = 0x01;
pub const EC_SVC64: u32 = 0x15;
pub const EC_HVC64: u32 = 0x16;
pub const EC_SMC64: u32 = 0x17;
pub const EC_MSR_MRS: u32 = 0x18;
pub const EC_INST_ABORT_LOWER: u32 = 0x20;
pub const EC_INST_ABORT_CURR: u32 = 0x21;
pub const EC_DATA_ABORT_LOWER: u32 = 0x24;
pub const EC_DATA_ABORT_CURR: u32 = 0x25;

/// PSCI function identifiers (SMC32/SMC64 calling convention).
pub const PSCI_VERSION: u32 = 0x8400_0000;
pub const PSCI_CPU_SUSPEND_32: u32 = 0x8400_0001;
pub const PSCI_CPU_OFF: u32 = 0x8400_0002;
pub const PSCI_CPU_ON_32: u32 = 0x8400_0003;
pub const PSCI_CPU_ON_64: u32 = 0xC400_0003;
pub const PSCI_MIGRATE_INFO_TYPE: u32 = 0x8400_0006;
pub const PSCI_SYSTEM_OFF: u32 = 0x8400_0008;
pub const PSCI_SYSTEM_RESET: u32 = 0x8400_0009;
pub const PSCI_FEATURES: u32 = 0x8400_000A;

/// PSCI return codes as the 64-bit register values.
pub const PSCI_SUCCESS: u64 = 0;
pub const PSCI_NOT_SUPPORTED: u64 = 0xFFFF_FFFF_FFFF_FFFF;
pub const PSCI_DENIED: u64 = 0xFFFF_FFFF_FFFF_FFFD;

/// ESR_EL2.EC: bits 31..26 of the syndrome.
pub open spec fn exception_class(syndrome: u64) -> u32 {
    ((syndrome / 0x400_0000) % 64) as u32
}

/// ESR_EL2.ISS: bits 24..0.
pub open spec fn iss(syndrome: u64) -> u32 {
    (syndrome % 0x200_0000) as u32
}

/// Length of the trapped instruction: 4 with ESR_EL2.IL (bit 25), else 2.
pub open spec fn insn_length(syndrome: u64) -> u64 {
    if (syndrome / 0x200_0000) % 2 == 1 {
        4
    } else {
        2
    }
}

/// Why `hv_vcpu_run` returned.
#[derive(Clone, Copy, Debug, PartialEq, Eq, Structural)]
pub enum ExitReason {
    /// The host cancelled the run (periodic kick).
    Canceled,
    /// A guest exception trapped to the host; the syndrome says which.
    Exception,
    /// The guest's virtual timer fired.
    VtimerActivated,
    Unknown,
}

/// What the run loop does for one exit.
#[derive(Clone, Copy, Debug, PartialEq, Eq, Structural)]
pub enum ExitAction {
    /// Hand control back to the VMM loop.
    Yield,
    /// WFI/WFE: retire the instruction (`insn_len` bytes) and yield.
    WaitForInterrupt { insn_len: u64 },
    /// A data abort: emulate the access as MMIO.
    DataAbort,
    /// An instruction abort: report it.
    InstructionAbort,
    /// An SMCCC/PSCI call; `skip` bytes to step over first (the SMC itself;
    /// an HVC's return address is already past it).
    Psci { skip: u64 },
    /// A trapped system-register access: read as zero, write ignored.
    SysRegTrap,
    /// A supervisor call: the guest handles it.
    Svc(u8),
    /// Make the virtual timer interrupt pending and run on.
    PendVtimer,
    /// An exception class the loop does not handle.
    UnhandledClass(u32),
    /// An exit with no known reason.
    Unknown,
}

/// The run loop's action for an exit.
pub open spec fn exit_action_spec(reason: ExitReason, syndrome: u64) -> ExitAction {
    match reason {
        ExitReason::Canceled => ExitAction::Yield,
        ExitReason::VtimerActivated => ExitAction::PendVtimer,
        ExitReason::Unknown => ExitAction::Unknown,
        ExitReason::Exception => {
            let ec = exception_class(syndrome);
            if ec == EC_WFI_WFE {
                ExitAction::WaitForInterrupt { insn_len: insn_length(syndrome) }
            } else if ec == EC_DATA_ABORT_LOWER || ec == EC_DATA_ABORT_CURR {
                ExitAction::DataAbort
            } else if ec == EC_INST_ABORT_LOWER || ec == EC_INST_ABORT_CURR {
                ExitAction::InstructionAbort
            } else if ec == EC_HVC64 {
                ExitAction::Psci { skip: 0 }
            } else if ec == EC_SMC64 {
                ExitAction::Psci { skip: 4 }
            } else if ec == EC_MSR_MRS {
                ExitAction::SysRegTrap
            } else if ec == EC_SVC64 {
                ExitAction::Svc(ec as u8)
            } else {
                ExitAction::UnhandledClass(ec)
            }
        },
    }
}

fn exception_class_exec(syndrome: u64) -> (ec: u32)
    ensures
        ec == exception_class(syndrome),
{
    ((syndrome / 0x400_0000) % 64) as u32
}

fn insn_length_exec(syndrome: u64) -> (n: u64)
    ensures
        n == insn_length(syndrome),
{
    if (syndrome / 0x200_0000) % 2 == 1 {
        4
    } else {
        2
    }
}

/// What the run loop does for an exit with this reason and syndrome.
pub fn exit_action(reason: ExitReason, syndrome: u64) -> (a: ExitAction)
    ensures
        a == exit_action_spec(reason, syndrome),
{
    match reason {
        ExitReason::Canceled => ExitAction::Yield,
        ExitReason::VtimerActivated => ExitAction::PendVtimer,
        ExitReason::Unknown => ExitAction::Unknown,
        ExitReason::Exception => {
            let ec = exception_class_exec(syndrome);
            if ec == EC_WFI_WFE {
                ExitAction::WaitForInterrupt { insn_len: insn_length_exec(syndrome) }
            } else if ec == EC_DATA_ABORT_LOWER || ec == EC_DATA_ABORT_CURR {
                ExitAction::DataAbort
            } else if ec == EC_INST_ABORT_LOWER || ec == EC_INST_ABORT_CURR {
                ExitAction::InstructionAbort
            } else if ec == EC_HVC64 {
                ExitAction::Psci { skip: 0 }
            } else if ec == EC_SMC64 {
                ExitAction::Psci { skip: 4 }
            } else if ec == EC_MSR_MRS {
                ExitAction::SysRegTrap
            } else if ec == EC_SVC64 {
                ExitAction::Svc(ec as u8)
            } else {
                ExitAction::UnhandledClass(ec)
            }
        },
    }
}

/// The outcome of a PSCI call.
#[derive(Clone, Copy, Debug, PartialEq, Eq, Structural)]
pub enum PsciOutcome {
    /// SYSTEM_OFF or SYSTEM_RESET: the machine stops.
    Shutdown,
    /// The value to place in x0 before the guest resumes.
    Return(u64),
}

/// A PSCI function the machine implements (PSCI_FEATURES reports success).
pub open spec fn psci_supported(f: u32) -> bool {
    f == PSCI_VERSION || f == PSCI_SYSTEM_OFF || f == PSCI_SYSTEM_RESET || f == PSCI_FEATURES || f
        == PSCI_MIGRATE_INFO_TYPE
}

/// PSCI 1.1 on a single-vCPU machine with no trusted OS: function `func`
/// (from w0), `queried` (w1) the function PSCI_FEATURES asks about.
pub open spec fn psci_spec(func: u32, queried: u32) -> PsciOutcome {
    if func == PSCI_VERSION {
        PsciOutcome::Return(0x0001_0001)
    } else if func == PSCI_MIGRATE_INFO_TYPE {
        PsciOutcome::Return(2)
    } else if func == PSCI_SYSTEM_OFF || func == PSCI_SYSTEM_RESET {
        PsciOutcome::Shutdown
    } else if func == PSCI_FEATURES {
        PsciOutcome::Return(
            if psci_supported(queried) {
                PSCI_SUCCESS
            } else {
                PSCI_NOT_SUPPORTED
            },
        )
    } else if func == PSCI_CPU_ON_32 || func == PSCI_CPU_ON_64 {
        PsciOutcome::Return(PSCI_DENIED)
    } else {
        PsciOutcome::Return(PSCI_NOT_SUPPORTED)
    }
}

/// Answer a PSCI call.
pub fn psci_call(func: u32, queried: u32) -> (r: PsciOutcome)
    ensures
        r == psci_spec(func, queried),
{
    match func {
        PSCI_VERSION => PsciOutcome::Return(0x0001_0001),
        PSCI_MIGRATE_INFO_TYPE => PsciOutcome::Return(2),
        PSCI_SYSTEM_OFF | PSCI_SYSTEM_RESET => PsciOutcome::Shutdown,
        PSCI_FEATURES => match queried {
            PSCI_VERSION | PSCI_SYSTEM_OFF | PSCI_SYSTEM_RESET | PSCI_FEATURES
            | PSCI_MIGRATE_INFO_TYPE => PsciOutcome::Return(PSCI_SUCCESS),
            _ => PsciOutcome::Return(PSCI_NOT_SUPPORTED),
        },
        PSCI_CPU_ON_32 | PSCI_CPU_ON_64 => PsciOutcome::Return(PSCI_DENIED),
        PSCI_CPU_SUSPEND_32 | PSCI_CPU_OFF => PsciOutcome::Return(PSCI_NOT_SUPPORTED),
        _ => PsciOutcome::Return(PSCI_NOT_SUPPORTED),
    }
}

/// A PSCI outcome that is a real answer: neither NOT_SUPPORTED nor DENIED.
pub open spec fn psci_answered(o: PsciOutcome) -> bool {
    match o {
        PsciOutcome::Shutdown => true,
        PsciOutcome::Return(v) => v != PSCI_NOT_SUPPORTED && v != PSCI_DENIED,
    }
}

/// PSCI_FEATURES reports a function as supported exactly when some call of
/// that function gets a real answer.
pub proof fn lemma_psci_features_consistent(f: u32)
    ensures
        psci_spec(PSCI_FEATURES, f) == PsciOutcome::Return(PSCI_SUCCESS) <==> exists|q: u32|
            psci_answered(#[trigger] psci_spec(f, q)),
{
    if psci_supported(f) {
        assert(psci_answered(psci_spec(f, PSCI_VERSION)));
    }
}

/// The load or store a data abort with a valid instruction syndrome reports.
#[derive(Clone, Copy, Debug, PartialEq, Eq, Structural)]
pub struct DataAbort {
    /// Access size in bytes (1, 2, 4 or 8).
    pub size: u8,
    /// The transfer register (31: XZR/WZR).
    pub rt: u32,
    pub write: bool,
    /// A load that sign-extends (LDRS*).
    pub sign_extend: bool,
    /// The register is 64-bit (Xt) rather than 32-bit (Wt).
    pub sixty_four: bool,
    /// Length of the trapped instruction.
    pub insn_len: u64,
}

/// 2 to the power `k`, for `k` < 4.
pub open spec fn pow2_small(k: nat) -> nat {
    if k == 0 {
        1
    } else if k == 1 {
        2
    } else if k == 2 {
        4
    } else {
        8
    }
}

/// The access a data abort describes, or `None` without a valid
/// instruction syndrome (ISS.ISV, bit 24, clear: LDP/STP, writeback forms).
pub open spec fn data_abort_spec(syndrome: u64) -> Option<DataAbort> {
    let s = iss(syndrome) as nat;
    if (s / 0x100_0000) % 2 == 0 {
        None
    } else {
        Some(
            DataAbort {
                size: pow2_small((s / 0x40_0000) % 4) as u8,
                rt: ((s / 0x1_0000) % 32) as u32,
                write: (s / 0x40) % 2 == 1,
                sign_extend: (s / 0x20_0000) % 2 == 1,
                sixty_four: (s / 0x8000) % 2 == 1,
                insn_len: insn_length(syndrome),
            },
        )
    }
}

/// Decode the access a data abort's syndrome describes.
pub fn decode_data_abort(syndrome: u64) -> (r: Option<DataAbort>)
    ensures
        r == data_abort_spec(syndrome),
{
    let s = syndrome % 0x200_0000;
    if (s / 0x100_0000) % 2 == 0 {
        return None;
    }
    let sas = (s / 0x40_0000) % 4;
    let size: u8 = if sas == 0 {
        1
    } else if sas == 1 {
        2
    } else if sas == 2 {
        4
    } else {
        8
    };
    Some(
        DataAbort {
            size,
            rt: ((s / 0x1_0000) % 32) as u32,
            write: (s / 0x40) % 2 == 1,
            sign_extend: (s / 0x20_0000) % 2 == 1,
            sixty_four: (s / 0x8000) % 2 == 1,
            insn_len: insn_length_exec(syndrome),
        },
    )
}

/// A trapped MSR/MRS access: whether it reads (ISS bit 0) and its transfer
/// register (ISS bits 9..5).
pub fn sysreg_trap(iss: u32) -> (r: (bool, u32))
    ensures
        r == (iss % 2 == 1, (iss / 32) % 32),
{
    (iss % 2 == 1, (iss / 32) % 32)
}

/// 256 to the power `n`.
pub open spec fn pow256(n: nat) -> nat
    decreases n,
{
    if n == 0 {
        1
    } else {
        256 * pow256((n - 1) as nat)
    }
}

/// The first `n` bytes of `s` as a little-endian number.
pub open spec fn le_value(s: Seq<u8>, n: nat) -> nat
    decreases n,
{
    if n == 0 {
        0
    } else {
        le_value(s, (n - 1) as nat) + s[n - 1] as nat * pow256((n - 1) as nat)
    }
}

/// The bytes an MMIO store puts on the bus: the low `size` bytes of the
/// register value, least significant first.
pub fn mmio_write_data(value: u64, size: u8) -> (r: Vec<u8>)
    requires
        size <= 8,
    ensures
        r@.len() == size,
        forall|i: int| 0 <= i < size ==> #[trigger] r@[i] == (value as nat / pow256(i as nat)) % 256,
{
    let mut out: Vec<u8> = Vec::new();
    let mut v = value;
    let mut i: u8 = 0;
    assert(pow256(0) == 1);
    while i < size
        invariant
            i <= size <= 8,
            out@.len() == i,
            v as nat == value as nat / pow256(i as nat),
            forall|k: int| 0 <= k < i ==> #[trigger] out@[k] == (value as nat / pow256(k as nat)) % 256,
        decreases size - i,
    {
        out.push((v % 256) as u8);
        proof {
            lemma_pow256_pos(i as nat);
            vstd::arithmetic::div_mod::lemma_div_denominator(
                value as int,
                pow256(i as nat) as int,
                256,
            );
            assert(pow256((i + 1) as nat) == 256 * pow256(i as nat));
            assert(pow256(i as nat) * 256 == 256 * pow256(i as nat)) by (nonlinear_arith);
        }
        v = v / 256;
        i += 1;
    }
    out
}

proof fn lemma_pow256_pos(n: nat)
    ensures
        pow256(n) > 0,
    decreases n,
{
    if n > 0 {
        lemma_pow256_pos((n - 1) as nat);
    }
}

proof fn lemma_le_value_bound(s: Seq<u8>, n: nat)
    ensures
        le_value(s, n) < pow256(n),
    decreases n,
{
    if n > 0 {
        lemma_le_value_bound(s, (n - 1) as nat);
        let p = pow256((n - 1) as nat);
        let b = s[n - 1] as nat;
        assert(le_value(s, (n - 1) as nat) + b * p < 256 * p) by (nonlinear_arith)
            requires
                le_value(s, (n - 1) as nat) < p,
                b < 256,
        ;
    }
}

/// The first `n` bytes an MMIO store of `value` puts on the bus read back,
/// little-endian, as `value` cut to `n` bytes.
proof fn lemma_store_bytes_value(value: u64, s: Seq<u8>, n: nat)
    requires
        n <= s.len(),
        forall|i: int| 0 <= i < n ==> #[trigger] s[i] == (value as nat / pow256(i as nat)) % 256,
    ensures
        le_value(s, n) == value as nat % pow256(n),
    decreases n,
{
    if n > 0 {
        let k = (n - 1) as nat;
        lemma_store_bytes_value(value, s, k);
        lemma_pow256_pos(k);
        assert(pow256(n) == 256 * pow256(k));
        assert(pow256(n) == pow256(k) * 256) by (nonlinear_arith)
            requires
                pow256(n) == 256 * pow256(k),
        ;
        vstd::arithmetic::div_mod::lemma_breakdown(value as int, pow256(k) as int, 256);
        assert(s[k as int] as nat * pow256(k) == pow256(k) * ((value as nat / pow256(k)) % 256))
            by (nonlinear_arith)
            requires
                s[k as int] == (value as nat / pow256(k)) % 256,
        ;
    }
}

/// An MMIO load of `size` bytes, zero-extended into a 64-bit register, of the
/// bytes an MMIO store of `size` bytes of `value` put on the bus gives back
/// `value` cut to `size` bytes.
pub proof fn lemma_mmio_store_load_round_trip(value: u64, size: u8, bus: Seq<u8>)
    requires
        size == 1 || size == 2 || size == 4 || size == 8,
        bus.len() == size,
        forall|i: int| 0 <= i < size ==> #[trigger] bus[i] == (value as nat / pow256(i as nat)) % 256,
    ensures
        mmio_read_spec(bus, size, false, true) as nat == value as nat % pow256(size as nat),
{
    lemma_store_bytes_value(value, bus, size as nat);
    lemma_le_value_bound(bus, size as nat);
    lemma_pow256_pos(size as nat);
    reveal_with_fuel(pow256, 9);
}

/// The value a completed MMIO load leaves in its register: the first
/// `size` bus bytes (no more than arrived, at most 8) as a little-endian
/// number, sign-extended for LDRS*, cut to 32 bits for a W register.
pub open spec fn mmio_read_spec(data: Seq<u8>, size: u8, sign_extend: bool, sixty_four: bool) -> u64 {
    let n: nat = if data.len() < size {
        if data.len() < 8 {
            data.len()
        } else {
            8
        }
    } else if size < 8 {
        size as nat
    } else {
        8
    };
    let v = le_value(data, n);
    let w: nat = if sign_extend && n < 8 && v >= pow256(n) / 2 {
        (v + 0x1_0000_0000_0000_0000 - pow256(n)) as nat
    } else {
        v
    };
    (if sixty_four {
        w
    } else {
        w % 0x1_0000_0000
    }) as u64
}

/// The register value of a completed MMIO load (see `mmio_read_spec`).
/// A sign-extending load needs at least one byte.
pub fn mmio_read_value(data: &[u8], size: u8, sign_extend: bool, sixty_four: bool) -> (r: u64)
    requires
        sign_extend ==> data@.len() > 0 && size > 0,
    ensures
        r == mmio_read_spec(data@, size, sign_extend, sixty_four),
{
    let n: usize = if data.len() < size as usize {
        if data.len() < 8 {
            data.len()
        } else {
            8
        }
    } else if size < 8 {
        size as usize
    } else {
        8
    };
    let mut v: u64 = 0;
    let mut p: u64 = 1;
    let mut i: usize = 0;
    assert(pow256(0) == 1);
    while i < n
        invariant
            n <= 8,
            n <= data@.len(),
            i <= n,
            v as nat == le_value(data@, i as nat),
            i < n ==> p as nat == pow256(i as nat),
        decreases n - i,
    {
        proof {
            lemma_le_value_bound(data@, i as nat);
            lemma_pow256_small(i as nat);
        }
        assert(v + data[i as int] as nat * p < 256 * p) by (nonlinear_arith)
            requires
                v < p,
                data[i as int] < 256,
        ;
        assert(pow256((i + 1) as nat) == 256 * pow256(i as nat));
        v = v + data[i] as u64 * p;
        if i + 1 < n {
            proof {
                lemma_pow256_small((i + 1) as nat);
            }
            p = p * 256;
        }
        i += 1;
    }
    proof {
        lemma_le_value_bound(data@, n as nat);
    }
    let full: u64 = if n == 8 {
        0
    } else {
        pow256_exec(n)
    };
    let w: u64 = if sign_extend && n < 8 && v >= full / 2 {
        v + (u64::MAX - full) + 1
    } else {
        v
    };
    if sixty_four {
        w
    } else {
        w % 0x1_0000_0000
    }
}

proof fn lemma_pow256_small(n: nat)
    requires
        n <= 7,
    ensures
        pow256(n) <= 0x100_0000_0000_0000,
{
    reveal_with_fuel(pow256, 8);
}

fn pow256_exec(n: usize) -> (r: u64)
    requires
        n < 8,
    ensures
        r == pow256(n as nat),
{
    proof {
        reveal_with_fuel(pow256, 8);
    }
    if n == 0 {
        1
    } else if n == 1 {
        0x100
    } else if n == 2 {
        0x1_0000
    } else if n == 3 {
        0x100_0000
    } else if n == 4 {
        0x1_0000_0000
    } else if n == 5 {
        0x100_0000_0000
    } else if n == 6 {
        0x1_0000_0000_0000
    } else {
        0x100_0000_0000_0000
    }
}

} // verus!
