//! The order-key encoding for parametric distances.
//!
//! The intersection logic reads nothing of a distance but its ordering,
//! so distances enter the library as unsigned keys.  A caller computing
//! with IEEE doubles takes the raw bit pattern of each distance and maps
//! it through [`distance_key`]: a pattern with the sign bit clear gets
//! the sign bit set, and a pattern with the sign bit set is inverted
//! bitwise.  This is the classic total-order transform — within each
//! sign class the key order follows (for the clear class) or reverses
//! (for the set class) the pattern order, and every key of the set class
//! lies below every key of the clear class — so unsigned key order
//! agrees with the numeric order of the doubles the patterns encode.
//! The lemmas below pin each of those three clauses down at the bit
//! level.

use vstd::prelude::*;

verus! {

/// The order key of a 64-bit pattern: set the sign bit of a pattern
/// that has it clear, invert a pattern that has it set.
pub open spec fn spec_distance_key(bits: u64) -> u64 {
    if bits >> 63 == 0 {
        bits | 0x8000000000000000
    } else {
        !bits
    }
}

/// Map one 64-bit pattern to its order key.
pub fn distance_key(bits: u64) -> (k: u64)
    ensures
        k == spec_distance_key(bits),
{
    if bits >> 63 == 0 {
        bits | 0x8000000000000000
    } else {
        !bits
    }
}

/// Distinct patterns get distinct keys: no two distances collapse.
pub proof fn lemma_distance_key_injective(a: u64, b: u64)
    requires
        spec_distance_key(a) == spec_distance_key(b),
    ensures
        a == b,
{
    assert((if a >> 63 == 0 {
        a | 0x8000000000000000
    } else {
        !a
    }) == (if b >> 63 == 0 {
        b | 0x8000000000000000
    } else {
        !b
    }) ==> a == b) by (bit_vector);
}

/// Within the clear-sign class the key order follows the pattern order.
pub proof fn lemma_key_order_sign_clear(a: u64, b: u64)
    requires
        a >> 63 == 0,
        b >> 63 == 0,
    ensures
        a < b <==> spec_distance_key(a) < spec_distance_key(b),
{
    assert((a < b) <==> ((a | 0x8000000000000000) < (b | 0x8000000000000000))) by (bit_vector)
        requires
            a >> 63 == 0u64,
            b >> 63 == 0u64,
    ;
}

/// Within the set-sign class the key order reverses the pattern order.
pub proof fn lemma_key_order_sign_set(a: u64, b: u64)
    requires
        a >> 63 == 1,
        b >> 63 == 1,
    ensures
        a < b <==> spec_distance_key(a) > spec_distance_key(b),
{
    assert((a < b) <==> (!a > !b)) by (bit_vector);
}

/// Every key of the set-sign class lies below every key of the clear
/// class.
pub proof fn lemma_key_order_across_signs(a: u64, b: u64)
    requires
        a >> 63 == 1,
        b >> 63 == 0,
    ensures
        spec_distance_key(a) < spec_distance_key(b),
{
    assert(!a < (b | 0x8000000000000000)) by (bit_vector)
        requires
            a >> 63 == 1u64,
            b >> 63 == 0u64,
    ;
}

} // verus!
