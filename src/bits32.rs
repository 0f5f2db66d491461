//! IEEE-754 single-precision values seen through their bit patterns.
use vstd::prelude::*;

verus! {

/// The bit pattern of `+0.0`.
pub const ZERO: u32 = 0;

/// The bit pattern of `1.0`.
pub const ONE: u32 = 0x3f80_0000;

/// The bit pattern of `-1.0`.
pub const NEG_ONE: u32 = 0xbf80_0000;

/// The sign bit.
pub const SIGN_BIT: u32 = 0x8000_0000;

/// The magnitude bits of positive infinity; larger magnitudes are NaNs.
pub const INF_MAGNITUDE: u32 = 0x7f80_0000;

/// The value's bits with the sign cleared.
pub open spec fn magnitude(b: u32) -> int {
    (b as int) % 0x8000_0000
}

pub open spec fn sign_set(b: u32) -> bool {
    b >= 0x8000_0000
}

pub open spec fn is_nan(b: u32) -> bool {
    magnitude(b) > 0x7f80_0000
}

/// Non-NaN values are ordered as their signed magnitudes: finite values and
/// infinities of one sign are ordered as their magnitude bits, and both zeros
/// have key 0.
pub open spec fn order_key(b: u32) -> int {
    if sign_set(b) {
        -magnitude(b)
    } else {
        magnitude(b)
    }
}

/// `a < b` in IEEE-754 arithmetic.
pub open spec fn lt_spec(a: u32, b: u32) -> bool {
    !is_nan(a) && !is_nan(b) && order_key(a) < order_key(b)
}

/// `a == b` in IEEE-754 arithmetic (NaN equals nothing, `-0.0 == +0.0`).
pub open spec fn eq_spec(a: u32, b: u32) -> bool {
    !is_nan(a) && !is_nan(b) && order_key(a) == order_key(b)
}

/// `a <= b` in IEEE-754 arithmetic.
pub open spec fn le_spec(a: u32, b: u32) -> bool {
    lt_spec(a, b) || eq_spec(a, b)
}

/// `x > 0.0`.
pub open spec fn is_positive(b: u32) -> bool {
    lt_spec(ZERO, b)
}

/// `x == 0.0`.
pub open spec fn is_zero(b: u32) -> bool {
    eq_spec(b, ZERO)
}

/// `|x|`: the sign bit cleared.
pub open spec fn abs_spec(b: u32) -> u32 {
    magnitude(b) as u32
}

fn magnitude_of(b: u32) -> (r: u32)
    ensures
        r as int == magnitude(b),
{
    b % SIGN_BIT
}

/// Whether `b` is a NaN.
pub fn nan(b: u32) -> (r: bool)
    ensures
        r == is_nan(b),
{
    magnitude_of(b) > INF_MAGNITUDE
}

/// IEEE-754 `a < b`.
pub fn lt(a: u32, b: u32) -> (r: bool)
    ensures
        r == lt_spec(a, b),
{
    if nan(a) || nan(b) {
        return false;
    }
    let ma = magnitude_of(a);
    let mb = magnitude_of(b);
    let na = a >= SIGN_BIT;
    let nb = b >= SIGN_BIT;
    if na && nb {
        mb < ma
    } else if na {
        ma != 0 || mb != 0
    } else if nb {
        false
    } else {
        ma < mb
    }
}

/// IEEE-754 `a == b`.
pub fn eq(a: u32, b: u32) -> (r: bool)
    ensures
        r == eq_spec(a, b),
{
    if nan(a) || nan(b) {
        return false;
    }
    let ma = magnitude_of(a);
    let mb = magnitude_of(b);
    if (a >= SIGN_BIT) == (b >= SIGN_BIT) {
        ma == mb
    } else {
        ma == 0 && mb == 0
    }
}

/// IEEE-754 `a <= b`.
pub fn le(a: u32, b: u32) -> (r: bool)
    ensures
        r == le_spec(a, b),
{
    lt(a, b) || eq(a, b)
}

/// `|b|`, as `abs` computes it: the sign bit cleared.
pub fn abs(b: u32) -> (r: u32)
    ensures
        r == abs_spec(b),
        !is_nan(b) ==> order_key(r) >= 0,
        is_nan(r) == is_nan(b),
{
    magnitude_of(b)
}

} // verus!
