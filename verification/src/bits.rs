//! Bit-level facts about register words, shared by the device and
//! instruction models.

use vstd::prelude::*;

verus! {

/// Bit `b` of a 32-bit word.
pub open spec fn bit_of(v: u32, b: u32) -> bool {
    (v >> b) & 1 == 1
}

/// Byte lane `k` (bits `8k..8k+7`) of a 32-bit word.
pub open spec fn lane_of(v: u32, k: u32) -> u32 {
    (v >> (k * 8)) & 0xFF
}

/// Setting bit `bit` changes that bit alone.
pub proof fn lemma_set_bit(v: u32, bit: u32, b: u32)
    requires
        bit < 32,
        b < 32,
    ensures
        bit_of(v | (1u32 << bit), b) == (b == bit || bit_of(v, b)),
{
    assert(((v | (1u32 << bit)) >> b) & 1 == 1 <==> (b == bit || (v >> b) & 1 == 1))
        by (bit_vector)
        requires
            bit < 32,
            b < 32,
    ;
}

/// Testing a bit against zero reads that bit.
pub proof fn lemma_bit_test(v: u32, b: u32)
    ensures
        ((v >> b) & 1 != 0) == bit_of(v, b),
{
    assert(((v >> b) & 1 != 0) == ((v >> b) & 1 == 1)) by (bit_vector);
}

/// The zero word has no bit set.
pub proof fn lemma_zero_bits(b: u32)
    requires
        b < 32,
    ensures
        !bit_of(0, b),
{
    assert((0u32 >> b) & 1 != 1) by (bit_vector);
}

/// Or-ing a byte into an empty lane sets that lane alone.
pub proof fn lemma_set_lane(v: u32, p: u32, byte: u32, k: u32)
    requires
        byte < 4,
        k < 4,
        p < 256,
        lane_of(v, byte) == 0,
    ensures
        lane_of(v | (p << (byte * 8)), k) == if k == byte {
            p
        } else {
            lane_of(v, k)
        },
{
    assert(((v | (p << (byte * 8))) >> (k * 8)) & 0xFF == if k == byte {
        p
    } else {
        (v >> (k * 8)) & 0xFF
    }) by (bit_vector)
        requires
            byte < 4,
            k < 4,
            p < 256,
            (v >> (byte * 8)) & 0xFF == 0,
    ;
}

/// The zero word has empty byte lanes.
pub proof fn lemma_zero_lanes(k: u32)
    requires
        k < 4,
    ensures
        lane_of(0, k) == 0,
{
    assert((0u32 >> (k * 8)) & 0xFF == 0) by (bit_vector);
}

/// Two words with the same four byte lanes are equal.
pub proof fn lemma_lanes_equal(x: u32, y: u32)
    requires
        forall|k: u32| k < 4 ==> lane_of(x, k) == lane_of(y, k),
    ensures
        x == y,
{
    assert(lane_of(x, 0) == lane_of(y, 0));
    assert(lane_of(x, 1) == lane_of(y, 1));
    assert(lane_of(x, 2) == lane_of(y, 2));
    assert(lane_of(x, 3) == lane_of(y, 3));
    assert(x == y) by (bit_vector)
        requires
            (x >> 0) & 0xFF == (y >> 0) & 0xFF,
            (x >> 8) & 0xFF == (y >> 8) & 0xFF,
            (x >> 16) & 0xFF == (y >> 16) & 0xFF,
            (x >> 24) & 0xFF == (y >> 24) & 0xFF,
    ;
}


/// Two words with the same 32 bits are equal.
pub proof fn lemma_bits_equal(x: u32, y: u32)
    requires
        forall|b: u32| b < 32 ==> bit_of(x, b) == bit_of(y, b),
    ensures
        x == y,
{
    assert(bit_of(x, 0) == bit_of(y, 0));
    assert(bit_of(x, 1) == bit_of(y, 1));
    assert(bit_of(x, 2) == bit_of(y, 2));
    assert(bit_of(x, 3) == bit_of(y, 3));
    assert(bit_of(x, 4) == bit_of(y, 4));
    assert(bit_of(x, 5) == bit_of(y, 5));
    assert(bit_of(x, 6) == bit_of(y, 6));
    assert(bit_of(x, 7) == bit_of(y, 7));
    assert(bit_of(x, 8) == bit_of(y, 8));
    assert(bit_of(x, 9) == bit_of(y, 9));
    assert(bit_of(x, 10) == bit_of(y, 10));
    assert(bit_of(x, 11) == bit_of(y, 11));
    assert(bit_of(x, 12) == bit_of(y, 12));
    assert(bit_of(x, 13) == bit_of(y, 13));
    assert(bit_of(x, 14) == bit_of(y, 14));
    assert(bit_of(x, 15) == bit_of(y, 15));
    assert(bit_of(x, 16) == bit_of(y, 16));
    assert(bit_of(x, 17) == bit_of(y, 17));
    assert(bit_of(x, 18) == bit_of(y, 18));
    assert(bit_of(x, 19) == bit_of(y, 19));
    assert(bit_of(x, 20) == bit_of(y, 20));
    assert(bit_of(x, 21) == bit_of(y, 21));
    assert(bit_of(x, 22) == bit_of(y, 22));
    assert(bit_of(x, 23) == bit_of(y, 23));
    assert(bit_of(x, 24) == bit_of(y, 24));
    assert(bit_of(x, 25) == bit_of(y, 25));
    assert(bit_of(x, 26) == bit_of(y, 26));
    assert(bit_of(x, 27) == bit_of(y, 27));
    assert(bit_of(x, 28) == bit_of(y, 28));
    assert(bit_of(x, 29) == bit_of(y, 29));
    assert(bit_of(x, 30) == bit_of(y, 30));
    assert(bit_of(x, 31) == bit_of(y, 31));
    assert(x == y) by (bit_vector)
        requires
            ((x >> 0u32) & 1 == 1) == ((y >> 0u32) & 1 == 1),
            ((x >> 1u32) & 1 == 1) == ((y >> 1u32) & 1 == 1),
            ((x >> 2u32) & 1 == 1) == ((y >> 2u32) & 1 == 1),
            ((x >> 3u32) & 1 == 1) == ((y >> 3u32) & 1 == 1),
            ((x >> 4u32) & 1 == 1) == ((y >> 4u32) & 1 == 1),
            ((x >> 5u32) & 1 == 1) == ((y >> 5u32) & 1 == 1),
            ((x >> 6u32) & 1 == 1) == ((y >> 6u32) & 1 == 1),
            ((x >> 7u32) & 1 == 1) == ((y >> 7u32) & 1 == 1),
            ((x >> 8u32) & 1 == 1) == ((y >> 8u32) & 1 == 1),
            ((x >> 9u32) & 1 == 1) == ((y >> 9u32) & 1 == 1),
            ((x >> 10u32) & 1 == 1) == ((y >> 10u32) & 1 == 1),
            ((x >> 11u32) & 1 == 1) == ((y >> 11u32) & 1 == 1),
            ((x >> 12u32) & 1 == 1) == ((y >> 12u32) & 1 == 1),
            ((x >> 13u32) & 1 == 1) == ((y >> 13u32) & 1 == 1),
            ((x >> 14u32) & 1 == 1) == ((y >> 14u32) & 1 == 1),
            ((x >> 15u32) & 1 == 1) == ((y >> 15u32) & 1 == 1),
            ((x >> 16u32) & 1 == 1) == ((y >> 16u32) & 1 == 1),
            ((x >> 17u32) & 1 == 1) == ((y >> 17u32) & 1 == 1),
            ((x >> 18u32) & 1 == 1) == ((y >> 18u32) & 1 == 1),
            ((x >> 19u32) & 1 == 1) == ((y >> 19u32) & 1 == 1),
            ((x >> 20u32) & 1 == 1) == ((y >> 20u32) & 1 == 1),
            ((x >> 21u32) & 1 == 1) == ((y >> 21u32) & 1 == 1),
            ((x >> 22u32) & 1 == 1) == ((y >> 22u32) & 1 == 1),
            ((x >> 23u32) & 1 == 1) == ((y >> 23u32) & 1 == 1),
            ((x >> 24u32) & 1 == 1) == ((y >> 24u32) & 1 == 1),
            ((x >> 25u32) & 1 == 1) == ((y >> 25u32) & 1 == 1),
            ((x >> 26u32) & 1 == 1) == ((y >> 26u32) & 1 == 1),
            ((x >> 27u32) & 1 == 1) == ((y >> 27u32) & 1 == 1),
            ((x >> 28u32) & 1 == 1) == ((y >> 28u32) & 1 == 1),
            ((x >> 29u32) & 1 == 1) == ((y >> 29u32) & 1 == 1),
            ((x >> 30u32) & 1 == 1) == ((y >> 30u32) & 1 == 1),
            ((x >> 31u32) & 1 == 1) == ((y >> 31u32) & 1 == 1),
    ;
}

} // verus!
