//! Lane-wise arithmetic on packed integers held in quadwords.
//!
//! A quadword holds 8, 4 or 2 lanes of `m` = 2^8, 2^16 or 2^32 values;
//! lane `k` is `(x / m^k) % m`. A lane-wise operation replaces each lane
//! by a function of the two source lanes.

use vstd::prelude::*;

verus! {

/// `m` to the power `k`.
pub open spec fn mpow(m: nat, k: nat) -> nat
    decreases k,
{
    if k == 0 {
        1
    } else {
        m * mpow(m, (k - 1) as nat)
    }
}

/// Lane `k` of `x` for lanes of modulus `m`.
pub open spec fn lane(x: u64, m: nat, k: nat) -> nat {
    (x as nat / mpow(m, k)) % m
}

/// Number of lanes of modulus `m` in a quadword.
pub open spec fn lane_count(m: nat) -> nat {
    if m == 0x100 {
        8
    } else if m == 0x1_0000 {
        4
    } else {
        2
    }
}

/// A lane modulus that divides a quadword evenly.
pub open spec fn lane_modulus(m: nat) -> bool {
    m == 0x100 || m == 0x1_0000 || m == 0x1_0000_0000
}

/// Two's-complement value of a lane.
pub open spec fn signed(x: nat, m: nat) -> int {
    if x >= m / 2 {
        x - m
    } else {
        x as int
    }
}

/// A signed value as a lane (modulo `m`).
pub open spec fn wrap(v: int, m: nat) -> nat {
    (v % (m as int)) as nat
}

/// A signed value clamped to the signed lane range, as a lane.
pub open spec fn clamp_signed(v: int, m: nat) -> nat {
    let hi = (m / 2) as int - 1;
    let lo = -((m / 2) as int);
    wrap(
        if v > hi {
            hi
        } else if v < lo {
            lo
        } else {
            v
        },
        m,
    )
}

/// The lane operation selected by a packed-arithmetic opcode (VEX.66.0F;
/// 0x04 and 0x08..0x0B are VEX.66.0F38), on lanes `a` and `b` of modulus
/// `m`.
pub open spec fn lane_op(op: u8, a: nat, b: nat, m: nat) -> nat {
    if op == 0xD5 {
        // PMULLW: low half of the product.
        wrap(signed(a, m) * signed(b, m), m)
    } else if op == 0xD8 || op == 0xD9 {
        // PSUBUSB/W: unsigned saturating subtract.
        if a >= b {
            (a - b) as nat
        } else {
            0
        }
    } else if op == 0xDA {
        // PMINUB.
        if a <= b {
            a
        } else {
            b
        }
    } else if op == 0xDC || op == 0xDD {
        // PADDUSB/W: unsigned saturating add.
        if a + b >= m {
            (m - 1) as nat
        } else {
            a + b
        }
    } else if op == 0xDE {
        // PMAXUB.
        if a >= b {
            a
        } else {
            b
        }
    } else if op == 0xE0 || op == 0xE3 {
        // PAVGB/W: rounded average.
        (a + b + 1) / 2
    } else if op == 0xE4 {
        // PMULHUW: high half of the unsigned product.
        (a * b) / m
    } else if op == 0xE5 {
        // PMULHW: high half of the signed product.
        wrap((signed(a, m) * signed(b, m)) / (m as int), m)
    } else if op == 0xE8 || op == 0xE9 {
        // PSUBSB/W: signed saturating subtract.
        clamp_signed(signed(a, m) - signed(b, m), m)
    } else if op == 0xEA {
        // PMINSW.
        if signed(a, m) <= signed(b, m) {
            a
        } else {
            b
        }
    } else if op == 0xEC || op == 0xED {
        // PADDSB/W: signed saturating add.
        clamp_signed(signed(a, m) + signed(b, m), m)
    } else if op == 0xEE {
        // PMAXSW.
        if signed(a, m) >= signed(b, m) {
            a
        } else {
            b
        }
    } else if op == 0xF5 {
        // PMADDWD: sum of the two signed word products of the dword lanes.
        wrap(
            signed(a % 0x1_0000, 0x1_0000) * signed(b % 0x1_0000, 0x1_0000) + signed(
                a / 0x1_0000,
                0x1_0000,
            ) * signed(b / 0x1_0000, 0x1_0000),
            m,
        )
    } else if op == 0x04 {
        // PMADDUBSW: the unsigned bytes of `a` times the signed bytes of
        // `b`, the two products summed with signed saturation.
        clamp_signed(
            (a % 0x100) * signed(b % 0x100, 0x100) + (a / 0x100) * signed(b / 0x100, 0x100),
            m,
        )
    } else if op == 0x08 || op == 0x09 || op == 0x0A {
        // PSIGNB/W/D: `a`, its negation, or zero, by the sign of `b`.
        if b == 0 {
            0
        } else if b >= m / 2 {
            wrap(-a, m)
        } else {
            a
        }
    } else if op == 0x0B {
        // PMULHRSW: the signed product scaled by 2^-15, rounded.
        wrap((signed(a, m) * signed(b, m) + 0x4000) / 0x8000, m)
    } else if op == 0xF8 || op == 0xF9 || op == 0xFA {
        // PSUBB/W/D: wrapping subtract.
        wrap(a - b, m)
    } else {
        // PADDB/W/D: wrapping add.
        wrap((a + b) as int, m)
    }
}

/// The first `n` lanes of the lane-wise result, as a number.
pub open spec fn lane_fold(op: u8, a: u64, b: u64, m: nat, n: nat) -> nat
    decreases n,
{
    if n == 0 {
        0
    } else {
        lane_fold(op, a, b, m, (n - 1) as nat) + lane_op(
            op,
            lane(a, m, (n - 1) as nat),
            lane(b, m, (n - 1) as nat),
            m,
        ) * mpow(m, (n - 1) as nat)
    }
}

/// The lane-wise result of `op` on `a` and `b`.
pub open spec fn lanewise(op: u8, a: u64, b: u64, m: nat) -> u64 {
    lane_fold(op, a, b, m, lane_count(m)) as u64
}

/// The lane modulus an opcode works on.
pub open spec fn op_modulus(op: u8) -> nat {
    if op == 0xD8 || op == 0xDA || op == 0xDC || op == 0xDE || op == 0xE0 || op == 0xE8 || op
        == 0xEC || op == 0xF8 || op == 0xFC || op == 0x08 {
        0x100
    } else if op == 0xF5 || op == 0xFA || op == 0xFE || op == 0x0A {
        0x1_0000_0000
    } else {
        0x1_0000
    }
}

/// Lane results stay within the lane.
pub proof fn lemma_lane_op_bound(op: u8, a: nat, b: nat, m: nat)
    requires
        lane_modulus(m),
        a < m,
        b < m,
    ensures
        lane_op(op, a, b, m) < m,
{
    if op == 0xE4 {
        assert(a * b < m * m) by (nonlinear_arith)
            requires
                a < m,
                b < m,
        ;
        assert((a * b) / m < m) by (nonlinear_arith)
            requires
                a * b < m * m,
                m > 0,
        ;
    }
}

/// The result lanes compose within `n` lanes.
proof fn lemma_fold_bound(op: u8, a: u64, b: u64, m: nat, n: nat)
    requires
        lane_modulus(m),
    ensures
        lane_fold(op, a, b, m, n) < mpow(m, n),
    decreases n,
{
    if n > 0 {
        lemma_fold_bound(op, a, b, m, (n - 1) as nat);
        let k = (n - 1) as nat;
        let f = lane_op(op, lane(a, m, k), lane(b, m, k), m);
        lemma_lane_op_bound(op, lane(a, m, k), lane(b, m, k), m);
        let p = mpow(m, k);
        let prev = lane_fold(op, a, b, m, k);
        assert(prev + f * p < m * p) by (nonlinear_arith)
            requires
                prev < p,
                f < m,
                f >= 0,
        ;
    }
}

proof fn lemma_mpow_full(m: nat)
    requires
        lane_modulus(m),
    ensures
        mpow(m, lane_count(m)) == 0x1_0000_0000_0000_0000,
{
    reveal_with_fuel(mpow, 9);
}

/// Each lane of a lane-wise result is the operation on the source lanes.
pub proof fn lemma_lanewise_lanes(op: u8, a: u64, b: u64, m: nat, k: nat)
    requires
        lane_modulus(m),
        k < lane_count(m),
    ensures
        lane(lanewise(op, a, b, m), m, k) == lane_op(op, lane(a, m, k), lane(b, m, k), m),
{
    lemma_fold_bound(op, a, b, m, lane_count(m));
    lemma_mpow_full(m);
    lemma_fold_lane(op, a, b, m, lane_count(m), k);
}

proof fn lemma_mpow_pos(m: nat, k: nat)
    requires
        m > 0,
    ensures
        mpow(m, k) > 0,
    decreases k,
{
    if k > 0 {
        lemma_mpow_pos(m, (k - 1) as nat);
        assert(m * mpow(m, (k - 1) as nat) > 0) by (nonlinear_arith)
            requires
                m > 0,
                mpow(m, (k - 1) as nat) > 0,
        ;
    }
}

/// Lane `k < n` of the `n`-lane fold is the operation on the source lanes.
proof fn lemma_fold_lane(op: u8, a: u64, b: u64, m: nat, n: nat, k: nat)
    requires
        lane_modulus(m),
        k < n,
    ensures
        (lane_fold(op, a, b, m, n) / mpow(m, k)) % m == lane_op(
            op,
            lane(a, m, k),
            lane(b, m, k),
            m,
        ),
    decreases n,
{
    let j = (n - 1) as nat;
    let prev = lane_fold(op, a, b, m, j);
    let f = lane_op(op, lane(a, m, j), lane(b, m, j), m);
    lemma_lane_op_bound(op, lane(a, m, j), lane(b, m, j), m);
    lemma_fold_bound(op, a, b, m, j);
    lemma_mpow_pos(m, k);
    lemma_mpow_pos(m, j);
    let pk = mpow(m, k);
    if k == j {
        // The top lane: prev < m^k, so (prev + f * m^k) / m^k == f.
        assert((prev + f * pk) / pk == f) by {
            vstd::arithmetic::div_mod::lemma_fundamental_div_mod_converse(
                (prev + f * pk) as int,
                pk as int,
                f as int,
                prev as int,
            );
        }
        assert(f % m == f);
    } else {
        lemma_fold_lane(op, a, b, m, j, k);
        // m^j = m^k * m^(j-k): the new lane sits above lane k.
        let q = mpow(m, (j - k) as nat);
        lemma_mpow_split(m, k, (j - k) as nat);
        lemma_mpow_pos(m, (j - k) as nat);
        let x = prev + f * (pk * q);
        assert(x / pk == prev / pk + f * q) by {
            vstd::arithmetic::div_mod::lemma_hoist_over_denominator(prev as int, (f * q) as int, pk);
            assert(f * (pk * q) == (f * q) * pk) by (nonlinear_arith);
        }
        lemma_mpow_split(m, 1, (j - k - 1) as nat);
        assert(q == m * mpow(m, (j - k - 1) as nat)) by {
            reveal_with_fuel(mpow, 2);
        }
        assert((prev / pk + f * q) % m == (prev / pk) % m) by {
            vstd::arithmetic::div_mod::lemma_mod_multiples_vanish(
                (f * mpow(m, (j - k - 1) as nat)) as int,
                (prev / pk) as int,
                m as int,
            );
            assert(f * q == m * (f * mpow(m, (j - k - 1) as nat))) by (nonlinear_arith)
                requires
                    q == m * mpow(m, (j - k - 1) as nat),
            ;
        }
    }
}

/// `m^(k + j) == m^k * m^j`.
proof fn lemma_mpow_split(m: nat, k: nat, j: nat)
    ensures
        mpow(m, k + j) == mpow(m, k) * mpow(m, j),
    decreases j,
{
    if j == 0 {
        assert(mpow(m, 0) == 1);
        assert(mpow(m, k) * 1 == mpow(m, k));
    } else {
        lemma_mpow_split(m, k, (j - 1) as nat);
        assert(mpow(m, j) == m * mpow(m, (j - 1) as nat));
        assert(mpow(m, k + j) == m * mpow(m, (k + j - 1) as nat));
        assert(m * (mpow(m, k) * mpow(m, (j - 1) as nat)) == mpow(m, k) * (m * mpow(
            m,
            (j - 1) as nat,
        ))) by (nonlinear_arith);
    }
}

/// An opcode that `lane_op` covers.
pub open spec fn is_lane_op(op: u8) -> bool {
    op == 0x04 || op == 0x08 || op == 0x09 || op == 0x0A || op == 0x0B || op == 0xD5 || op == 0xD8 || op == 0xD9 || op == 0xDA || op == 0xDC || op == 0xDD || op == 0xDE
        || op == 0xE0 || op == 0xE3 || op == 0xE4 || op == 0xE5 || op == 0xE8 || op == 0xE9 || op
        == 0xEA || op == 0xEC || op == 0xED || op == 0xEE || op == 0xF5 || op == 0xF8 || op == 0xF9
        || op == 0xFA || op == 0xFC || op == 0xFD || op == 0xFE
}

/// Two's-complement value of a lane below `m`.
fn signed_exec(x: u64, m: u64) -> (r: i64)
    requires
        m == 0x100 || m == 0x1_0000 || m == 0x1_0000_0000,
        x < m,
    ensures
        r as int == signed(x as nat, m as nat),
{
    if x >= m / 2 {
        x as i64 - m as i64
    } else {
        x as i64
    }
}

/// A signed value in `(-m, m)` as a lane.
fn wrap_small(v: i64, m: u64) -> (r: u64)
    requires
        m == 0x100 || m == 0x1_0000 || m == 0x1_0000_0000,
        -(m as int) < v < m as int,
    ensures
        r as nat == wrap(v as int, m as nat),
        r < m,
{
    if v < 0 {
        (v + m as i64) as u64
    } else {
        v as u64
    }
}

/// PMULHW on one lane: the high half of the signed product.
fn mul_high_signed(a: u64, b: u64, m: u64) -> (r: u64)
    requires
        m == 0x1_0000,
        a < m,
        b < m,
    ensures
        r as nat == lane_op(0xE5, a as nat, b as nat, m as nat),
{
    let sa = signed_exec(a, m);
    let sb = signed_exec(b, m);
    assert(-0x4000_0000 <= sa * sb <= 0x4000_0000) by (nonlinear_arith)
        requires
            -0x8000 <= sa < 0x8000,
            -0x8000 <= sb < 0x8000,
    ;
    let p = sa * sb;
    // Floor division by 2^16 of a possibly negative product.
    let q: i64 = if p >= 0 {
        p / 0x1_0000
    } else {
        -((-p + 0xFFFF) / 0x1_0000)
    };
    assert(q as int == (p as int) / 0x1_0000) by {
        lemma_floor_div(p as int, q as int, 0x1_0000);
    }
    wrap_small(q, m)
}

/// PADDSB/W and PSUBSB/W on one lane: the signed sum or difference clamped
/// to the signed lane range.
fn saturate_signed(op: u8, a: u64, b: u64, m: u64) -> (r: u64)
    requires
        op == 0xE8 || op == 0xE9 || op == 0xEC || op == 0xED,
        m == 0x100 || m == 0x1_0000,
        a < m,
        b < m,
    ensures
        r as nat == lane_op(op, a as nat, b as nat, m as nat),
{
    let sa = signed_exec(a, m);
    let sb = signed_exec(b, m);
    let v = if op == 0xE8 || op == 0xE9 {
        sa - sb
    } else {
        sa + sb
    };
    let hi = (m / 2) as i64 - 1;
    let lo = -((m / 2) as i64);
    let c = if v > hi {
        hi
    } else if v < lo {
        lo
    } else {
        v
    };
    wrap_small(c, m)
}

/// PMADDWD on one dword lane: the sum of the two signed word products.
fn multiply_add_words(a: u64, b: u64, m: u64) -> (r: u64)
    requires
        m == 0x1_0000_0000,
        a < m,
        b < m,
    ensures
        r as nat == lane_op(0xF5, a as nat, b as nat, m as nat),
{
    let a0 = signed_exec(a % 0x1_0000, 0x1_0000);
    let a1 = signed_exec(a / 0x1_0000, 0x1_0000);
    let b0 = signed_exec(b % 0x1_0000, 0x1_0000);
    let b1 = signed_exec(b / 0x1_0000, 0x1_0000);
    assert(-0x4000_0000 <= a0 * b0 <= 0x4000_0000 && -0x4000_0000 <= a1 * b1 <= 0x4000_0000)
        by (nonlinear_arith)
        requires
            -0x8000 <= a0 < 0x8000,
            -0x8000 <= a1 < 0x8000,
            -0x8000 <= b0 < 0x8000,
            -0x8000 <= b1 < 0x8000,
    ;
    let p0 = a0 * b0;
    let p1 = a1 * b1;
    wrap_small(p0 + p1, m)
}

/// PMADDUBSW on one word lane: unsigned bytes of `a` times signed bytes of
/// `b`, summed and saturated.
fn multiply_add_bytes(a: u64, b: u64, m: u64) -> (r: u64)
    requires
        m == 0x1_0000,
        a < m,
        b < m,
    ensures
        r as nat == lane_op(0x04, a as nat, b as nat, m as nat),
{
    let a0 = (a % 0x100) as i64;
    let a1 = (a / 0x100) as i64;
    let b0 = signed_exec(b % 0x100, 0x100);
    let b1 = signed_exec(b / 0x100, 0x100);
    assert(-0x8000 <= a0 * b0 <= 0x8000 && -0x8000 <= a1 * b1 <= 0x8000) by (nonlinear_arith)
        requires
            0 <= a0 < 0x100,
            0 <= a1 < 0x100,
            -0x80 <= b0 < 0x80,
            -0x80 <= b1 < 0x80,
    ;
    let v = a0 * b0 + a1 * b1;
    let c: i64 = if v > 0x7FFF {
        0x7FFF
    } else if v < -0x8000 {
        -0x8000
    } else {
        v
    };
    wrap_small(c, m)
}

/// PMULHRSW on one word lane.
fn mul_high_round(a: u64, b: u64, m: u64) -> (r: u64)
    requires
        m == 0x1_0000,
        a < m,
        b < m,
    ensures
        r as nat == lane_op(0x0B, a as nat, b as nat, m as nat),
{
    let sa = signed_exec(a, m);
    let sb = signed_exec(b, m);
    assert(-0x4000_0000 <= sa * sb <= 0x4000_0000) by (nonlinear_arith)
        requires
            -0x8000 <= sa < 0x8000,
            -0x8000 <= sb < 0x8000,
    ;
    let p = sa * sb + 0x4000;
    let q: i64 = if p >= 0 {
        p / 0x8000
    } else {
        -((-p + 0x7FFF) / 0x8000)
    };
    assert(q as int == (p as int) / 0x8000) by {
        lemma_floor_div(p as int, q as int, 0x8000);
    }
    wrap_small(q, m)
}

/// `lane_op` on lanes below the opcode's modulus.
pub fn lane_op_exec(op: u8, a: u64, b: u64, m: u64) -> (r: u64)
    requires
        is_lane_op(op),
        m as nat == op_modulus(op),
        a < m,
        b < m,
    ensures
        r as nat == lane_op(op, a as nat, b as nat, m as nat),
        r < m,
{
    proof {
        lemma_lane_op_bound(op, a as nat, b as nat, m as nat);
    }
    if op == 0xD5 {
        // The low half of the product does not depend on signedness.
        assert(a * b < 0x1_0000_0000) by (nonlinear_arith)
            requires
                a < 0x1_0000,
                b < 0x1_0000,
        ;
        proof {
            lemma_low_product(a as nat, b as nat, m as nat);
        }
        (a * b) % m
    } else if op == 0xD8 || op == 0xD9 {
        if a >= b {
            a - b
        } else {
            0
        }
    } else if op == 0xDA {
        if a <= b {
            a
        } else {
            b
        }
    } else if op == 0xDC || op == 0xDD {
        if a + b >= m {
            m - 1
        } else {
            a + b
        }
    } else if op == 0xDE {
        if a >= b {
            a
        } else {
            b
        }
    } else if op == 0xE0 || op == 0xE3 {
        (a + b + 1) / 2
    } else if op == 0xE4 {
        assert(a * b < 0x1_0000_0000) by (nonlinear_arith)
            requires
                a < 0x1_0000,
                b < 0x1_0000,
        ;
        (a * b) / m
    } else if op == 0xE5 {
        mul_high_signed(a, b, m)
    } else if op == 0xE8 || op == 0xE9 || op == 0xEC || op == 0xED {
        saturate_signed(op, a, b, m)
    } else if op == 0xEA {
        if signed_exec(a, m) <= signed_exec(b, m) {
            a
        } else {
            b
        }
    } else if op == 0xEE {
        if signed_exec(a, m) >= signed_exec(b, m) {
            a
        } else {
            b
        }
    } else if op == 0xF5 {
        multiply_add_words(a, b, m)
    } else if op == 0x04 {
        multiply_add_bytes(a, b, m)
    } else if op == 0x08 || op == 0x09 || op == 0x0A {
        if b == 0 {
            0
        } else if b >= m / 2 {
            if a == 0 {
                0
            } else {
                m - a
            }
        } else {
            a
        }
    } else if op == 0x0B {
        mul_high_round(a, b, m)
    } else if op == 0xF8 || op == 0xF9 || op == 0xFA {
        if a >= b {
            a - b
        } else {
            a + (m - b)
        }
    } else {
        if a + b >= m {
            a + b - m
        } else {
            a + b
        }
    }
}

/// The low half of a product is the same for the signed and the unsigned
/// readings of the factors.
proof fn lemma_low_product(a: nat, b: nat, m: nat)
    requires
        m == 0x1_0000,
        a < m,
        b < m,
    ensures
        wrap(signed(a, m) * signed(b, m), m) == (a * b) % m,
{
    let ea: int = if a >= m / 2 {
        1
    } else {
        0
    };
    let eb: int = if b >= m / 2 {
        1
    } else {
        0
    };
    let k = m * ea * eb - a * eb - b * ea;
    assert(signed(a, m) * signed(b, m) == (a * b) + m * k) by (nonlinear_arith)
        requires
            signed(a, m) == a - m * ea,
            signed(b, m) == b - m * eb,
            k == m * ea * eb - a * eb - b * ea,
    ;
    vstd::arithmetic::div_mod::lemma_mod_multiples_vanish(k, (a * b) as int, m as int);
}

/// Floor division of `p` by `d` as computed on magnitudes.
proof fn lemma_floor_div(p: int, q: int, d: int)
    requires
        d == 0x8000 || d == 0x1_0000,
        p >= 0 ==> q == p / d,
        p < 0 ==> q == -((-p + d - 1) / d),
    ensures
        q == p / d,
{
    if p < 0 {
        let n = -p;
        let c = (n + d - 1) / d;
        vstd::arithmetic::div_mod::lemma_fundamental_div_mod(n + d - 1, d);
        assert(-c * d <= p < (-c + 1) * d) by (nonlinear_arith)
            requires
                n + d - 1 == d * c + (n + d - 1) % d,
                0 <= (n + d - 1) % d < d,
                p == -n,
                n > 0,
        ;
        vstd::arithmetic::div_mod::lemma_fundamental_div_mod_converse(p, d, -c, p + c * d);
    }
}

proof fn lemma_mpow_mono(m: nat, i: nat, j: nat)
    requires
        m > 0,
        i <= j,
    ensures
        mpow(m, i) <= mpow(m, j),
    decreases j - i,
{
    if i < j {
        lemma_mpow_mono(m, i, (j - 1) as nat);
        lemma_mpow_pos(m, (j - 1) as nat);
        assert(mpow(m, (j - 1) as nat) <= m * mpow(m, (j - 1) as nat)) by (nonlinear_arith)
            requires
                m > 0,
                mpow(m, (j - 1) as nat) > 0,
        ;
    }
}

/// The lane-wise result of `op` on two quadwords.
pub fn lanewise_exec(op: u8, a: u64, b: u64) -> (r: u64)
    requires
        is_lane_op(op),
    ensures
        r == lanewise(op, a, b, op_modulus(op)),
{
    let m: u64 = if op == 0xD8 || op == 0xDA || op == 0xDC || op == 0xDE || op == 0xE0 || op == 0xE8
        || op == 0xEC || op == 0xF8 || op == 0xFC || op == 0x08 {
        0x100
    } else if op == 0xF5 || op == 0xFA || op == 0xFE || op == 0x0A {
        0x1_0000_0000
    } else {
        0x1_0000
    };
    let n: usize = if m == 0x100 {
        8
    } else if m == 0x1_0000 {
        4
    } else {
        2
    };
    proof {
        lemma_mpow_full(m as nat);
    }
    let mut xa = a;
    let mut xb = b;
    let mut acc: u64 = 0;
    let mut w: u64 = 1;
    let mut k: usize = 0;
    assert(mpow(m as nat, 0) == 1);
    while k < n
        invariant
            is_lane_op(op),
            m as nat == op_modulus(op),
            lane_modulus(m as nat),
            n as nat == lane_count(m as nat),
            mpow(m as nat, n as nat) == 0x1_0000_0000_0000_0000,
            k <= n,
            xa as nat == a as nat / mpow(m as nat, k as nat),
            xb as nat == b as nat / mpow(m as nat, k as nat),
            k < n ==> w as nat == mpow(m as nat, k as nat),
            acc as nat == lane_fold(op, a, b, m as nat, k as nat),
        decreases n - k,
    {
        let la = xa % m;
        let lb = xb % m;
        let f = lane_op_exec(op, la, lb, m);
        proof {
            lemma_fold_bound(op, a, b, m as nat, k as nat);
            lemma_mpow_mono(m as nat, (k + 1) as nat, n as nat);
            assert(acc + f * w < m * w) by (nonlinear_arith)
                requires
                    acc < w,
                    f < m,
            ;
            lemma_mpow_pos(m as nat, k as nat);
            vstd::arithmetic::div_mod::lemma_div_denominator(
                a as int,
                mpow(m as nat, k as nat) as int,
                m as int,
            );
            vstd::arithmetic::div_mod::lemma_div_denominator(
                b as int,
                mpow(m as nat, k as nat) as int,
                m as int,
            );
            assert(mpow(m as nat, (k + 1) as nat) == m * mpow(m as nat, k as nat));
            assert(mpow(m as nat, k as nat) * m == m * mpow(m as nat, k as nat)) by (nonlinear_arith);
        }
        acc = acc + f * w;
        xa = xa / m;
        xb = xb / m;
        if k + 1 < n {
            proof {
                lemma_mpow_mono(m as nat, (k + 1) as nat, (n - 1) as nat);
                assert(mpow(m as nat, n as nat) == m * mpow(m as nat, (n - 1) as nat));
                assert(mpow(m as nat, (n - 1) as nat) < 0x1_0000_0000_0000_0000) by (nonlinear_arith)
                    requires
                        m * mpow(m as nat, (n - 1) as nat) == 0x1_0000_0000_0000_0000,
                        m >= 0x100,
                ;
            }
            w = w * m;
        }
        k += 1;
    }
    acc
}

/// Sum of the absolute differences of the first `n` byte lanes.
pub open spec fn sad_fold(a: u64, b: u64, n: nat) -> nat
    decreases n,
{
    if n == 0 {
        0
    } else {
        sad_fold(a, b, (n - 1) as nat) + {
            let x = lane(a, 0x100, (n - 1) as nat);
            let y = lane(b, 0x100, (n - 1) as nat);
            if x >= y {
                (x - y) as nat
            } else {
                (y - x) as nat
            }
        }
    }
}

/// PSADBW on one quadword: the sum of the absolute byte differences.
pub fn sad_bw(a: u64, b: u64) -> (r: u64)
    ensures
        r as nat == sad_fold(a, b, 8),
{
    let mut xa = a;
    let mut xb = b;
    let mut sum: u64 = 0;
    let mut k: usize = 0;
    assert(mpow(0x100, 0) == 1);
    while k < 8
        invariant
            k <= 8,
            xa as nat == a as nat / mpow(0x100, k as nat),
            xb as nat == b as nat / mpow(0x100, k as nat),
            sum as nat == sad_fold(a, b, k as nat),
            sum <= 255 * k,
        decreases 8 - k,
    {
        let x = xa % 0x100;
        let y = xb % 0x100;
        sum = sum + if x >= y {
            x - y
        } else {
            y - x
        };
        proof {
            lemma_mpow_pos(0x100, k as nat);
            vstd::arithmetic::div_mod::lemma_div_denominator(
                a as int,
                mpow(0x100, k as nat) as int,
                0x100,
            );
            vstd::arithmetic::div_mod::lemma_div_denominator(
                b as int,
                mpow(0x100, k as nat) as int,
                0x100,
            );
            assert(mpow(0x100, (k + 1) as nat) == 0x100 * mpow(0x100, k as nat));
            assert(mpow(0x100, k as nat) * 0x100 == 0x100 * mpow(0x100, k as nat))
                by (nonlinear_arith);
        }
        xa = xa / 0x100;
        xb = xb / 0x100;
        k += 1;
    }
    sum
}

} // verus!
