//! String instructions and the index/count arithmetic they share. With a
//! 32-bit address size (0x67 in 64-bit mode) rSI/rDI/rCX act as ESI/EDI/ECX
//! and an update clears their upper halves.

pub mod movs;

use vstd::prelude::*;

verus! {

/// The index register as an offset.
pub open spec fn index_spec(r: u64, addr32: bool) -> u64 {
    if addr32 {
        r % 0x1_0000_0000
    } else {
        r
    }
}

/// The repeat count rCX holds.
pub open spec fn rep_count_spec(rcx: u64, addr32: bool) -> u64 {
    if addr32 {
        rcx % 0x1_0000_0000
    } else {
        rcx
    }
}

/// The index register stepped by `delta` bytes up (`forward`) or down.
pub open spec fn advance_index_spec(r: u64, delta: u64, forward: bool, addr32: bool) -> u64 {
    let m: int = if addr32 {
        0x1_0000_0000
    } else {
        0x1_0000_0000_0000_0000
    };
    let i = index_spec(r, addr32) as int;
    (if forward {
        (i + delta) % m
    } else {
        (i - delta) % m
    }) as u64
}

/// rCX after one repetition.
pub open spec fn dec_count_spec(rcx: u64, addr32: bool) -> u64 {
    let m: int = if addr32 {
        0x1_0000_0000
    } else {
        0x1_0000_0000_0000_0000
    };
    ((rep_count_spec(rcx, addr32) - 1) % m) as u64
}

pub fn index(r: u64, addr32: bool) -> (i: u64)
    ensures
        i == index_spec(r, addr32),
{
    if addr32 {
        r % 0x1_0000_0000
    } else {
        r
    }
}

pub fn rep_count(rcx: u64, addr32: bool) -> (n: u64)
    ensures
        n == rep_count_spec(rcx, addr32),
{
    if addr32 {
        rcx % 0x1_0000_0000
    } else {
        rcx
    }
}

pub fn advance_index(r: u64, delta: u64, forward: bool, addr32: bool) -> (n: u64)
    requires
        delta <= 8,
    ensures
        n == advance_index_spec(r, delta, forward, addr32),
{
    let i = index(r, addr32);
    if addr32 {
        if forward {
            (i + delta) % 0x1_0000_0000
        } else if i >= delta {
            i - delta
        } else {
            0x1_0000_0000 - (delta - i)
        }
    } else if forward {
        i.wrapping_add(delta)
    } else {
        i.wrapping_sub(delta)
    }
}

pub fn dec_count(rcx: u64, addr32: bool) -> (n: u64)
    ensures
        n == dec_count_spec(rcx, addr32),
{
    let c = rep_count(rcx, addr32);
    if c > 0 {
        c - 1
    } else if addr32 {
        0xFFFF_FFFF
    } else {
        u64::MAX
    }
}

} // verus!
