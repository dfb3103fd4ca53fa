//! Ordering of IEEE-754 binary32 readings, computed on their bit patterns.
//!
//! A reading is carried as the `u32` bit pattern of an `f32`. Two patterns that
//! are not NaN compare as their values do once each is mapped to its signed
//! magnitude: the sign bit gives the sign, the other 31 bits the magnitude.
//! Both zeros map to 0, and any comparison with a NaN is false.
use vstd::prelude::*;

verus! {

/// The pattern with only the sign bit set.
pub const SIGN_BIT: u32 = 0x8000_0000;

/// The pattern of positive infinity; larger magnitudes are NaN.
pub const INFINITY_BITS: u32 = 0x7F80_0000;

/// True when the sign bit of the pattern is set.
pub open spec fn is_negative(bits: u32) -> bool {
    bits >= SIGN_BIT
}

/// The pattern without its sign bit.
pub open spec fn magnitude(bits: u32) -> int {
    if is_negative(bits) {
        bits - SIGN_BIT
    } else {
        bits as int
    }
}

/// True when the pattern is a NaN.
pub open spec fn is_nan(bits: u32) -> bool {
    magnitude(bits) > INFINITY_BITS
}

/// The position of a non-NaN pattern on the number line, as an integer that
/// orders patterns as their values are ordered.
pub open spec fn order_key(bits: u32) -> int {
    if is_negative(bits) {
        -magnitude(bits)
    } else {
        magnitude(bits)
    }
}

/// `a > b` for the values that the patterns encode.
pub open spec fn spec_gt(a: u32, b: u32) -> bool {
    !is_nan(a) && !is_nan(b) && order_key(a) > order_key(b)
}

/// `a < b` for the values that the patterns encode.
pub open spec fn spec_lt(a: u32, b: u32) -> bool {
    !is_nan(a) && !is_nan(b) && order_key(a) < order_key(b)
}

fn magnitude_of(bits: u32) -> (m: u32)
    ensures
        m == magnitude(bits),
{
    if bits >= SIGN_BIT {
        bits - SIGN_BIT
    } else {
        bits
    }
}

/// Whether the value encoded by `a` is greater than that encoded by `b`,
/// as `f32`'s `>` answers.
pub fn gt(a: u32, b: u32) -> (r: bool)
    ensures
        r == spec_gt(a, b),
{
    let ma = magnitude_of(a);
    let mb = magnitude_of(b);
    if ma > INFINITY_BITS || mb > INFINITY_BITS {
        return false;
    }
    let a_negative = a >= SIGN_BIT;
    let b_negative = b >= SIGN_BIT;
    if !a_negative && !b_negative {
        ma > mb
    } else if a_negative && b_negative {
        ma < mb
    } else if a_negative {
        false
    } else {
        ma > 0 || mb > 0
    }
}

/// Whether the value encoded by `a` is less than that encoded by `b`,
/// as `f32`'s `<` answers.
pub fn lt(a: u32, b: u32) -> (r: bool)
    ensures
        r == spec_lt(a, b),
{
    gt(b, a)
}

/// Less-than is greater-than with the operands swapped.
pub proof fn law_lt_is_swapped_gt(a: u32, b: u32)
    ensures
        spec_lt(a, b) == spec_gt(b, a),
{
}

/// No value is greater or less than a NaN, and a NaN is neither greater nor
/// less than any value.
pub proof fn law_nan_is_unordered(a: u32, b: u32)
    requires
        is_nan(a) || is_nan(b),
    ensures
        !spec_gt(a, b),
        !spec_lt(a, b),
{
}

/// Positive and negative zero are equal: neither is greater than the other.
pub proof fn law_zeros_are_equal()
    ensures
        !spec_gt(0, SIGN_BIT),
        !spec_gt(SIGN_BIT, 0),
{
}

} // verus!
