use vstd::prelude::*;

verus! {

/// The place of a real number among the others. The renderer computes with
/// single-precision numbers; what it decides, it decides by comparing them,
/// and a key stands for a number in every comparison: of two numbers the
/// smaller has the smaller key, zero has key 0, and the key of `-x` is the
/// key of `x` negated.
pub type Key = i64;

/// The key of zero.
pub const ZERO: Key = 0;

/// The key of epsilon, one ten-millionth: as near as a hit may lie to the
/// origin of a ray without counting.
pub const EPSILON: Key = 0x33d6_bf95;

/// The key of one.
pub const ONE: Key = 0x3f80_0000;

/// The key of one plus epsilon, which in single precision is the number that
/// follows one.
pub const ONE_PLUS_EPSILON: Key = 0x3f80_0001;

/// The key of infinity: no number has a larger key.
pub const INFINITY: Key = 0x7f80_0000;

/// The bit that holds the sign in the pattern of a single-precision number.
pub const SIGN_BIT: u32 = 0x8000_0000;

/// The pattern of a number without its sign.
pub open spec fn magnitude(bits: u32) -> u32 {
    if bits >= SIGN_BIT {
        (bits - SIGN_BIT) as u32
    } else {
        bits
    }
}

/// The key of the number with the given pattern. Patterns beyond infinity
/// stand for no number and have no key.
pub open spec fn spec_key_of_bits(bits: u32) -> Option<Key> {
    if magnitude(bits) > INFINITY {
        None
    } else if bits >= SIGN_BIT {
        Some((0 - magnitude(bits)) as Key)
    } else {
        Some(magnitude(bits) as Key)
    }
}

/// The pattern of the number with the opposite sign.
pub open spec fn negated(bits: u32) -> u32 {
    if bits >= SIGN_BIT {
        (bits - SIGN_BIT) as u32
    } else {
        (bits + SIGN_BIT) as u32
    }
}

/// Computes the key of a number from its single-precision pattern.
pub fn key_of_bits(bits: u32) -> (key: Option<Key>)
    ensures
        key == spec_key_of_bits(bits),
        key matches Some(k) ==> -INFINITY <= k <= INFINITY,
{
    let magnitude: u32 = if bits >= SIGN_BIT {
        bits - SIGN_BIT
    } else {
        bits
    };
    if magnitude as i64 > INFINITY {
        None
    } else if bits >= SIGN_BIT {
        Some(-(magnitude as i64))
    } else {
        Some(magnitude as i64)
    }
}

/// Keys mirror the sign: a number and the number with the opposite sign have
/// opposite keys, so both zeros have key 0.
pub proof fn lemma_keys_mirror_sign(bits: u32)
    ensures
        spec_key_of_bits(bits) is Some <==> spec_key_of_bits(negated(bits)) is Some,
        spec_key_of_bits(bits) matches Some(k) ==> spec_key_of_bits(negated(bits)) == Some(
            (0 - k) as Key,
        ),
        spec_key_of_bits(0) == Some(ZERO),
        spec_key_of_bits(SIGN_BIT) == Some(ZERO),
{
}

/// Keys follow the patterns: of two numbers that are not below zero the one
/// with the larger pattern has the larger key, of two numbers that are not
/// above zero the one with the larger pattern has the smaller key, and no
/// number with the sign bit set has a larger key than one without it.
pub proof fn lemma_keys_follow_patterns(a: u32, b: u32)
    requires
        spec_key_of_bits(a) is Some,
        spec_key_of_bits(b) is Some,
    ensures
        a < SIGN_BIT && b < SIGN_BIT ==> (a < b <==> spec_key_of_bits(a)->0 < spec_key_of_bits(
            b,
        )->0),
        a >= SIGN_BIT && b >= SIGN_BIT ==> (a < b <==> spec_key_of_bits(a)->0 > spec_key_of_bits(
            b,
        )->0),
        a >= SIGN_BIT && b < SIGN_BIT ==> spec_key_of_bits(a)->0 <= spec_key_of_bits(b)->0,
{
}

} // verus!
