//! RFLAGS bits, condition codes and the arithmetic status flags.

use vstd::prelude::*;

verus! {

pub const CF: u64 = 0x1;
pub const PF: u64 = 0x4;
pub const AF: u64 = 0x10;
pub const ZF: u64 = 0x40;
pub const SF: u64 = 0x80;
pub const DF: u64 = 0x400;
pub const OF: u64 = 0x800;

/// The six arithmetic status flags.
pub const STATUS_MASK: u64 = 0x8D5;

/// Whether `bit` is set in `rflags`.
pub open spec fn flag(rflags: u64, bit: u64) -> bool {
    rflags & bit != 0
}

/// Condition code `cc` (the low nibble of Jcc/SETcc/CMOVcc) evaluated on
/// `rflags`: even codes test a predicate, odd codes its negation.
pub open spec fn cc_holds(rflags: u64, cc: u8) -> bool {
    let cf = flag(rflags, CF);
    let pf = flag(rflags, PF);
    let zf = flag(rflags, ZF);
    let sf = flag(rflags, SF);
    let of = flag(rflags, OF);
    let base = if cc / 2 == 0 {
        of
    } else if cc / 2 == 1 {
        cf
    } else if cc / 2 == 2 {
        zf
    } else if cc / 2 == 3 {
        cf || zf
    } else if cc / 2 == 4 {
        sf
    } else if cc / 2 == 5 {
        pf
    } else if cc / 2 == 6 {
        sf != of
    } else {
        zf || sf != of
    };
    if cc % 2 == 0 {
        base
    } else {
        !base
    }
}

/// The x86 condition-code table (the low nibble of Jcc, SETcc and CMOVcc)
/// over CF, PF, ZF, SF and OF: O, NO, B, AE, E, NE, BE, A, S, NS, P, NP, L,
/// GE, LE, G.
pub proof fn lemma_condition_codes(rflags: u64)
    ensures
        ({
            let cf = rflags & CF != 0;
            let pf = rflags & PF != 0;
            let zf = rflags & ZF != 0;
            let sf = rflags & SF != 0;
            let of = rflags & OF != 0;
            &&& cc_holds(rflags, 0) == of
            &&& cc_holds(rflags, 1) == !of
            &&& cc_holds(rflags, 2) == cf
            &&& cc_holds(rflags, 3) == !cf
            &&& cc_holds(rflags, 4) == zf
            &&& cc_holds(rflags, 5) == !zf
            &&& cc_holds(rflags, 6) == (cf || zf)
            &&& cc_holds(rflags, 7) == (!cf && !zf)
            &&& cc_holds(rflags, 8) == sf
            &&& cc_holds(rflags, 9) == !sf
            &&& cc_holds(rflags, 10) == pf
            &&& cc_holds(rflags, 11) == !pf
            &&& cc_holds(rflags, 12) == (sf != of)
            &&& cc_holds(rflags, 13) == (sf == of)
            &&& cc_holds(rflags, 14) == (zf || sf != of)
            &&& cc_holds(rflags, 15) == (!zf && sf == of)
        }),
{
}

/// Evaluate condition code `cc` on `rflags`.
pub fn check_condition(rflags: u64, cc: u8) -> (r: bool)
    requires
        cc < 16,
    ensures
        r == cc_holds(rflags, cc),
{
    let cf = rflags & CF != 0;
    let pf = rflags & PF != 0;
    let zf = rflags & ZF != 0;
    let sf = rflags & SF != 0;
    let of = rflags & OF != 0;
    let base = match cc / 2 {
        0 => of,
        1 => cf,
        2 => zf,
        3 => cf || zf,
        4 => sf,
        5 => pf,
        6 => sf != of,
        _ => zf || sf != of,
    };
    if cc % 2 == 0 {
        base
    } else {
        !base
    }
}

/// Bit `i` of a byte.
pub open spec fn bit8(x: u8, i: u8) -> u8 {
    (x >> i) & 1
}

/// PF: an even number of the low eight result bits are set.
pub open spec fn parity_even(x: u8) -> bool {
    (bit8(x, 0) + bit8(x, 1) + bit8(x, 2) + bit8(x, 3) + bit8(x, 4) + bit8(x, 5) + bit8(x, 6)
        + bit8(x, 7)) % 2 == 0
}

/// Parity of the low byte of a result.
pub fn parity(x: u8) -> (r: bool)
    ensures
        r == parity_even(x),
{
    let p = x ^ (x >> 4u8);
    let p = p ^ (p >> 2u8);
    let p = p ^ (p >> 1u8);
    assert((((x ^ (x >> 4u8)) ^ ((x ^ (x >> 4u8)) >> 2u8)) ^ (((x ^ (x >> 4u8)) ^ ((x ^ (x
        >> 4u8)) >> 2u8)) >> 1u8)) & 1 == 0 <==> (((x >> 0u8) & 1) + ((x >> 1u8) & 1) + ((x
        >> 2u8) & 1) + ((x >> 3u8) & 1) + ((x >> 4u8) & 1) + ((x >> 5u8) & 1) + ((x >> 6u8) & 1)
        + ((x >> 7u8) & 1)) % 2 == 0) by (bit_vector);
    p & 1 == 0
}

/// `rflags` with the six status flags replaced.
pub open spec fn with_status(
    rflags: u64,
    cf: bool,
    pf: bool,
    af: bool,
    zf: bool,
    sf: bool,
    of: bool,
) -> u64 {
    (rflags & !STATUS_MASK) | (if cf {
        CF
    } else {
        0
    }) | (if pf {
        PF
    } else {
        0
    }) | (if af {
        AF
    } else {
        0
    }) | (if zf {
        ZF
    } else {
        0
    }) | (if sf {
        SF
    } else {
        0
    }) | (if of {
        OF
    } else {
        0
    })
}

/// Replace the six status flags of `rflags`.
pub fn set_status(rflags: u64, cf: bool, pf: bool, af: bool, zf: bool, sf: bool, of: bool) -> (r:
    u64)
    ensures
        r == with_status(rflags, cf, pf, af, zf, sf, of),
{
    (rflags & !STATUS_MASK) | (if cf {
        CF
    } else {
        0
    }) | (if pf {
        PF
    } else {
        0
    }) | (if af {
        AF
    } else {
        0
    }) | (if zf {
        ZF
    } else {
        0
    }) | (if sf {
        SF
    } else {
        0
    }) | (if of {
        OF
    } else {
        0
    })
}

proof fn lemma_status_bits(rflags: u64, c: u64, p: u64, a: u64, z: u64, s: u64, o: u64)
    by (bit_vector)
    requires
        c == 0 || c == 1,
        p == 0 || p == 4,
        a == 0 || a == 0x10,
        z == 0 || z == 0x40,
        s == 0 || s == 0x80,
        o == 0 || o == 0x800,
    ensures
        ((rflags & !0x8D5u64) | c | p | a | z | s | o) & 1 != 0 <==> c == 1,
        ((rflags & !0x8D5u64) | c | p | a | z | s | o) & 4 != 0 <==> p == 4,
        ((rflags & !0x8D5u64) | c | p | a | z | s | o) & 0x10 != 0 <==> a == 0x10,
        ((rflags & !0x8D5u64) | c | p | a | z | s | o) & 0x40 != 0 <==> z == 0x40,
        ((rflags & !0x8D5u64) | c | p | a | z | s | o) & 0x80 != 0 <==> s == 0x80,
        ((rflags & !0x8D5u64) | c | p | a | z | s | o) & 0x800 != 0 <==> o == 0x800,
        ((rflags & !0x8D5u64) | c | p | a | z | s | o) & !0x8D5u64 == rflags & !0x8D5u64,
{
}

/// Status flags read back what was written; every other RFLAGS bit keeps
/// its old value.
pub proof fn lemma_status_read_back(
    rflags: u64,
    cf: bool,
    pf: bool,
    af: bool,
    zf: bool,
    sf: bool,
    of: bool,
)
    ensures
        flag(with_status(rflags, cf, pf, af, zf, sf, of), CF) == cf,
        flag(with_status(rflags, cf, pf, af, zf, sf, of), PF) == pf,
        flag(with_status(rflags, cf, pf, af, zf, sf, of), AF) == af,
        flag(with_status(rflags, cf, pf, af, zf, sf, of), ZF) == zf,
        flag(with_status(rflags, cf, pf, af, zf, sf, of), SF) == sf,
        flag(with_status(rflags, cf, pf, af, zf, sf, of), OF) == of,
        with_status(rflags, cf, pf, af, zf, sf, of) & !STATUS_MASK == rflags & !STATUS_MASK,
{
    lemma_status_bits(
        rflags,
        if cf { 1 } else { 0 },
        if pf { 4 } else { 0 },
        if af { 0x10 } else { 0 },
        if zf { 0x40 } else { 0 },
        if sf { 0x80 } else { 0 },
        if of { 0x800 } else { 0 },
    );
}

} // verus!
