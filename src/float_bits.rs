use vstd::prelude::*;

use crate::can_command::FloatBits;

verus! {

// Order of IEEE-754 single-precision values, read off their bit patterns:
// the sign bit is the top bit, and below it the patterns of non-negative
// values grow with the value. A NaN compares false with everything.
/// Bit pattern without its sign bit.
pub open spec fn magnitude(bits: FloatBits) -> int {
    if bits >= 0x8000_0000 {
        bits - 0x8000_0000
    } else {
        bits as int
    }
}

pub open spec fn is_nan(bits: FloatBits) -> bool {
    magnitude(bits) > 0x7F80_0000
}

/// An integer that orders the non-NaN values as the numbers they denote
/// (both zeros map to 0).
pub open spec fn order_key(bits: FloatBits) -> int {
    if bits >= 0x8000_0000 {
        -magnitude(bits)
    } else {
        bits as int
    }
}

/// `a < b` on the values the patterns denote.
pub open spec fn float_lt(a: FloatBits, b: FloatBits) -> bool {
    !is_nan(a) && !is_nan(b) && order_key(a) < order_key(b)
}

/// `a <= b` on the values the patterns denote.
pub open spec fn float_le(a: FloatBits, b: FloatBits) -> bool {
    !is_nan(a) && !is_nan(b) && order_key(a) <= order_key(b)
}

fn key_of(bits: FloatBits) -> (r: (bool, i64))
    ensures
        r.0 == is_nan(bits),
        r.1 == order_key(bits),
{
    let magnitude: u32 = if bits >= 0x8000_0000 {
        bits - 0x8000_0000
    } else {
        bits
    };
    let key: i64 = if bits >= 0x8000_0000 {
        -(magnitude as i64)
    } else {
        bits as i64
    };
    (magnitude > 0x7F80_0000, key)
}

/// Whether the value of `a` is less than the value of `b`.
pub fn float_bits_lt(a: FloatBits, b: FloatBits) -> (r: bool)
    ensures
        r == float_lt(a, b),
{
    let (a_nan, a_key) = key_of(a);
    let (b_nan, b_key) = key_of(b);
    !a_nan && !b_nan && a_key < b_key
}

/// Whether the value of `a` is at most the value of `b`.
pub fn float_bits_le(a: FloatBits, b: FloatBits) -> (r: bool)
    ensures
        r == float_le(a, b),
{
    let (a_nan, a_key) = key_of(a);
    let (b_nan, b_key) = key_of(b);
    !a_nan && !b_nan && a_key <= b_key
}

} // verus!
