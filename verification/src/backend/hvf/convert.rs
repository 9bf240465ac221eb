//! Conversion between the CPU state types and VMCS encodings, and decoding
//! of VMX exit qualifications.

use crate::cpu::Segment;
use vstd::prelude::*;

verus! {

/// Bit `k` of a quadword.
pub open spec fn bit(q: u64, k: u64) -> bool {
    (q as nat / pow2(k)) % 2 == 1
}

/// 2 to the power `k`.
pub open spec fn pow2(k: u64) -> nat
    decreases k,
{
    if k == 0 {
        1
    } else {
        2 * pow2((k - 1) as u64)
    }
}

proof fn lemma_bit_and(q: u64)
    by (bit_vector)
    ensures
        (q & 0x1) != 0 <==> q % 2 == 1,
        (q & 0x2) != 0 <==> (q / 2) % 2 == 1,
        (q & 0x4) != 0 <==> (q / 4) % 2 == 1,
        (q & 0x8) != 0 <==> (q / 8) % 2 == 1,
        (q & 0x10) != 0 <==> (q / 0x10) % 2 == 1,
        (q & 0x20) != 0 <==> (q / 0x20) % 2 == 1,
        (q & 0x80) != 0 <==> (q / 0x80) % 2 == 1,
        (q & 0x100) != 0 <==> (q / 0x100) % 2 == 1,
        (q & 0x1000) != 0 <==> (q / 0x1000) % 2 == 1,
        (q & 0x2000) != 0 <==> (q / 0x2000) % 2 == 1,
        (q & 0x4000) != 0 <==> (q / 0x4000) % 2 == 1,
        (q & 0x8000) != 0 <==> (q / 0x8000) % 2 == 1,
        (q & 0x1_0000) != 0 <==> (q / 0x1_0000) % 2 == 1,
        q & 0x7 == q % 8,
        q & 0xF == q % 16,
        (q >> 16) & 0xFFFF == (q / 0x1_0000) % 0x1_0000,
        (q >> 5) & 0x3 == (q / 0x20) % 4,
{
}

proof fn lemma_pow2_values()
    ensures
        pow2(0) == 1 && pow2(1) == 2 && pow2(2) == 4 && pow2(3) == 8 && pow2(4) == 0x10,
        pow2(5) == 0x20 && pow2(7) == 0x80 && pow2(8) == 0x100,
        pow2(12) == 0x1000 && pow2(13) == 0x2000 && pow2(14) == 0x4000 && pow2(15) == 0x8000,
        pow2(16) == 0x1_0000,
{
    reveal_with_fuel(pow2, 17);
}

/// Direction of a port I/O exit.
#[derive(Clone, Copy, Debug, PartialEq, Eq, Structural)]
pub enum IoDirection {
    Out,
    In,
}

/// Parse VMX exit qualification for I/O exits.
#[derive(Clone, Copy, Debug, PartialEq, Eq, Structural)]
pub struct IoExitQualification {
    /// Access size: 1, 2 or 4 bytes.
    pub size: u8,
    pub direction: IoDirection,
    /// String I/O (INS/OUTS).
    pub string: bool,
    /// REP prefix.
    pub rep: bool,
    pub port: u16,
}

/// Access size of an I/O exit: encodings 0, 1 and 3 give 1, 2 and 4 bytes;
/// the reserved encodings read as 1.
pub open spec fn io_size(qual: u64) -> u8 {
    let s = qual % 8;
    if s == 1 {
        2
    } else if s == 3 {
        4
    } else {
        1
    }
}

impl IoExitQualification {
    pub fn from_qualification(qual: u64) -> (r: Self)
        ensures
            r.size == io_size(qual),
            r.direction == (if bit(qual, 3) {
                IoDirection::In
            } else {
                IoDirection::Out
            }),
            r.string == bit(qual, 4),
            r.rep == bit(qual, 5),
            r.port == (qual / 0x1_0000) % 0x1_0000,
    {
        proof {
            lemma_bit_and(qual);
            lemma_pow2_values();
        }
        let size = match qual & 0x7 {
            0 => 1,
            1 => 2,
            3 => 4,
            _ => 1,
        };
        let direction = if (qual & 0x8) != 0 {
            IoDirection::In
        } else {
            IoDirection::Out
        };
        let string = (qual & 0x10) != 0;
        let rep = (qual & 0x20) != 0;
        let port = ((qual >> 16) & 0xFFFF) as u16;
        IoExitQualification { size, direction, string, rep, port }
    }
}

/// Parse VMX exit qualification for EPT violations (memory faults).
#[derive(Clone, Copy, Debug, PartialEq, Eq, Structural)]
pub struct EptViolationQualification {
    pub read: bool,
    pub write: bool,
    pub fetch: bool,
    pub readable: bool,
    pub writable: bool,
    pub executable: bool,
    pub guest_linear_valid: bool,
    pub guest_physical_valid: bool,
}

impl EptViolationQualification {
    pub fn from_qualification(qual: u64) -> (r: Self)
        ensures
            r.read == bit(qual, 0),
            r.write == bit(qual, 1),
            r.fetch == bit(qual, 2),
            r.readable == bit(qual, 3),
            r.writable == bit(qual, 4),
            r.executable == bit(qual, 5),
            r.guest_linear_valid == bit(qual, 7),
            r.guest_physical_valid == bit(qual, 8),
    {
        proof {
            lemma_bit_and(qual);
            lemma_pow2_values();
        }
        EptViolationQualification {
            read: (qual & 0x1) != 0,
            write: (qual & 0x2) != 0,
            fetch: (qual & 0x4) != 0,
            readable: (qual & 0x8) != 0,
            writable: (qual & 0x10) != 0,
            executable: (qual & 0x20) != 0,
            guest_linear_valid: (qual & 0x80) != 0,
            guest_physical_valid: (qual & 0x100) != 0,
        }
    }
}

/// The segment that VMCS selector, base, limit and access-rights fields
/// describe. Access rights: type in bits 3:0, S bit 4, DPL bits 6:5, P bit
/// 7, AVL bit 12, L bit 13, D/B bit 14, G bit 15, unusable bit 16.
pub open spec fn segment_of_vmcs(selector: u64, base: u64, limit: u64, ar: u64) -> Segment {
    Segment {
        base,
        limit: (limit % 0x1_0000_0000) as u32,
        selector: (selector % 0x1_0000) as u16,
        type_: (ar % 16) as u8,
        s: bit(ar, 4),
        dpl: ((ar / 0x20) % 4) as u8,
        present: bit(ar, 7),
        avl: bit(ar, 12),
        l: bit(ar, 13),
        db: bit(ar, 14),
        g: bit(ar, 15),
        unusable: bit(ar, 16),
    }
}

/// The VMCS access-rights encoding of a segment: the type ORed in at bit 0
/// and the DPL at bit 5 as they stand, with the flag bits.
pub open spec fn access_rights_of(seg: Segment) -> u64 {
    (seg.type_ as u64) | (if seg.s {
        0x10u64
    } else {
        0
    }) | ((seg.dpl as u64) << 5u64) | (if seg.present {
        0x80u64
    } else {
        0
    }) | (if seg.avl {
        0x1000u64
    } else {
        0
    }) | (if seg.l {
        0x2000u64
    } else {
        0
    }) | (if seg.db {
        0x4000u64
    } else {
        0
    }) | (if seg.g {
        0x8000u64
    } else {
        0
    }) | (if seg.unusable {
        0x1_0000u64
    } else {
        0
    })
}

/// The access-rights encoding as a sum of its fields, for type and DPL
/// taken within their widths.
spec fn access_rights_sum(seg: Segment) -> u64 {
    (seg.type_ % 16 + (if seg.s {
        0x10int
    } else {
        0
    }) + (seg.dpl % 4) * 0x20 + (if seg.present {
        0x80int
    } else {
        0
    }) + (if seg.avl {
        0x1000int
    } else {
        0
    }) + (if seg.l {
        0x2000int
    } else {
        0
    }) + (if seg.db {
        0x4000int
    } else {
        0
    }) + (if seg.g {
        0x8000int
    } else {
        0
    }) + (if seg.unusable {
        0x1_0000int
    } else {
        0
    })) as u64
}

/// With type and DPL within their widths, no two fields overlap, so the
/// OR of the fields is their sum.
proof fn lemma_access_rights_sum(seg: Segment)
    requires
        seg.type_ < 16,
        seg.dpl < 4,
    ensures
        access_rights_of(seg) == access_rights_sum(seg),
{
    let t = seg.type_;
    let d = seg.dpl;
    let s = seg.s;
    let p = seg.present;
    let a = seg.avl;
    let l = seg.l;
    let b = seg.db;
    let g = seg.g;
    let u = seg.unusable;
    assert((t as u64) | (if s { 0x10u64 } else { 0 }) | ((d as u64) << 5u64) | (if p {
        0x80u64
    } else {
        0
    }) | (if a { 0x1000u64 } else { 0 }) | (if l { 0x2000u64 } else { 0 }) | (if b {
        0x4000u64
    } else {
        0
    }) | (if g { 0x8000u64 } else { 0 }) | (if u { 0x1_0000u64 } else { 0 }) == (t as u64) + (
    if s { 0x10u64 } else { 0 }) + (d as u64) * 0x20u64 + (if p { 0x80u64 } else { 0 }) + (if a {
        0x1000u64
    } else {
        0
    }) + (if l { 0x2000u64 } else { 0 }) + (if b { 0x4000u64 } else { 0 }) + (if g {
        0x8000u64
    } else {
        0
    }) + (if u { 0x1_0000u64 } else { 0 })) by (bit_vector)
        requires
            t < 16,
            d < 4,
    ;
}

/// Decode VMCS segment fields into a segment.
pub fn segment_from_vmcs(selector: u64, base: u64, limit: u64, access_rights: u64) -> (r: Segment)
    ensures
        r == segment_of_vmcs(selector, base, limit, access_rights),
{
    proof {
        lemma_bit_and(access_rights);
        lemma_pow2_values();
    }
    Segment {
        base,
        limit: (limit % 0x1_0000_0000) as u32,
        selector: (selector % 0x1_0000) as u16,
        type_: (access_rights & 0xF) as u8,
        s: (access_rights & 0x10) != 0,
        dpl: ((access_rights >> 5) & 0x3) as u8,
        present: (access_rights & 0x80) != 0,
        avl: (access_rights & 0x1000) != 0,
        l: (access_rights & 0x2000) != 0,
        db: (access_rights & 0x4000) != 0,
        g: (access_rights & 0x8000) != 0,
        unusable: (access_rights & 0x1_0000) != 0,
    }
}

/// Encode a segment's attributes as VMCS access rights.
pub fn segment_to_access_rights(seg: &Segment) -> (r: u64)
    ensures
        r == access_rights_of(*seg),
{
    let s: u64 = if seg.s { 0x10 } else { 0 };
    let p: u64 = if seg.present { 0x80 } else { 0 };
    let avl: u64 = if seg.avl { 0x1000 } else { 0 };
    let l: u64 = if seg.l { 0x2000 } else { 0 };
    let db: u64 = if seg.db { 0x4000 } else { 0 };
    let g: u64 = if seg.g { 0x8000 } else { 0 };
    let unusable: u64 = if seg.unusable { 0x1_0000 } else { 0 };
    (seg.type_ as u64) | s | ((seg.dpl as u64) << 5) | p | avl | l | db | g | unusable
}

/// A field `f` of width `m` sitting above `lo` (below `k`) reads back.
proof fn lemma_field(x: int, k: int, m: int, lo: int, f: int, hi: int)
    requires
        k > 0,
        m > 0,
        0 <= lo < k,
        0 <= f < m,
        hi >= 0,
        x == lo + k * (f + m * hi),
    ensures
        (x / k) % m == f,
        x % k == lo,
{
    assert(x == (f + m * hi) * k + lo) by (nonlinear_arith)
        requires
            x == lo + k * (f + m * hi),
    ;
    vstd::arithmetic::div_mod::lemma_fundamental_div_mod_converse(x, k, f + m * hi, lo);
    assert(f + m * hi == hi * m + f) by (nonlinear_arith);
    vstd::arithmetic::div_mod::lemma_fundamental_div_mod_converse(f + m * hi, m, hi, f);
}

/// Writing a segment's attributes to the VMCS and reading them back gives
/// the segment again, for every segment whose type and DPL fit their fields.
#[verifier::rlimit(50)]
pub proof fn lemma_access_rights_round_trip(seg: Segment)
    requires
        seg.type_ < 16,
        seg.dpl < 4,
    ensures
        segment_of_vmcs(
            seg.selector as u64,
            seg.base,
            seg.limit as u64,
            access_rights_of(seg),
        ) == seg,
{
    lemma_pow2_values();
    lemma_access_rights_sum(seg);
    let ar = access_rights_sum(seg) as int;
    let t = seg.type_ as int;
    let d = seg.dpl as int;
    let s: int = if seg.s { 1 } else { 0 };
    let p: int = if seg.present { 1 } else { 0 };
    let a: int = if seg.avl { 1 } else { 0 };
    let l: int = if seg.l { 1 } else { 0 };
    let b: int = if seg.db { 1 } else { 0 };
    let g: int = if seg.g { 1 } else { 0 };
    let u: int = if seg.unusable { 1 } else { 0 };
    assert(ar == t + 0x10 * s + 0x20 * d + 0x80 * p + 0x1000 * a + 0x2000 * l + 0x4000 * b
        + 0x8000 * g + 0x1_0000 * u);
    lemma_field(ar, 0x10, 2, t, s, d + p * 4 + a * 0x80 + l * 0x100 + b * 0x200 + g * 0x400 + u * 0x800);
    lemma_field(ar, 0x20, 4, t + 0x10 * s, d, p + a * 0x20 + l * 0x40 + b * 0x80 + g * 0x100 + u * 0x200);
    lemma_field(ar, 0x80, 2, t + 0x10 * s + 0x20 * d, p, a * 0x10 + l * 0x20 + b * 0x40 + g * 0x80 + u * 0x100);
    lemma_field(ar, 0x1000, 2, t + 0x10 * s + 0x20 * d + 0x80 * p, a, l + b * 2 + g * 4 + u * 8);
    lemma_field(ar, 0x2000, 2, t + 0x10 * s + 0x20 * d + 0x80 * p + 0x1000 * a, l, b + g * 2 + u * 4);
    lemma_field(ar, 0x4000, 2, t + 0x10 * s + 0x20 * d + 0x80 * p + 0x1000 * a + 0x2000 * l, b, g + u * 2);
    lemma_field(ar, 0x8000, 2, t + 0x10 * s + 0x20 * d + 0x80 * p + 0x1000 * a + 0x2000 * l + 0x4000 * b, g, u);
    lemma_field(ar, 0x1_0000, 2, t + 0x10 * s + 0x20 * d + 0x80 * p + 0x1000 * a + 0x2000 * l + 0x4000 * b + 0x8000 * g, u, 0);
}

} // verus!
