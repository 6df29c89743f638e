//! Numbers of the wire that are floats, carried as the bits of an IEEE 754 single: the
//! library decides on their order and range, and leaves arithmetic on them to its users.

use vstd::prelude::*;

verus! {

pub const ONE: u32 = 0x3f80_0000;

pub const INFINITY: u32 = 0x7f80_0000;

pub const SIGN: u32 = 0x8000_0000;

/// Is the number no number? All exponent bits are set, and some bit of the fraction.
pub open spec fn is_nan(bits: u32) -> bool {
    (if bits >= SIGN {
        bits - SIGN
    } else {
        bits as int
    }) > INFINITY
}

/// Is the number neither infinite nor a NaN?
pub open spec fn is_finite(bits: u32) -> bool {
    (if bits >= SIGN {
        bits - SIGN
    } else {
        bits as int
    }) < INFINITY
}

/// Is the number above `threshold`, which is positive and finite? Singles above zero are
/// ordered as their bits are.
pub open spec fn above(bits: u32, threshold: u32) -> bool {
    threshold < bits <= INFINITY
}

pub fn is_above(bits: u32, threshold: u32) -> (r: bool)
    ensures
        r == above(bits, threshold),
{
    threshold < bits && bits <= INFINITY
}

/// The number kept between 0 and 1. A NaN and a negative zero stay what they are.
pub open spec fn unit_clamped(bits: u32) -> u32 {
    if is_nan(bits) || bits == SIGN {
        bits
    } else if bits > SIGN {
        0
    } else if bits > ONE {
        ONE
    } else {
        bits
    }
}

pub fn clamp_unit(bits: u32) -> (r: u32)
    ensures
        r == unit_clamped(bits),
{
    let magnitude: u32 = if bits >= SIGN {
        bits - SIGN
    } else {
        bits
    };
    if magnitude > INFINITY || bits == SIGN {
        bits
    } else if bits > SIGN {
        0
    } else if bits > ONE {
        ONE
    } else {
        bits
    }
}

/// A volume that can be used: 0 where the number is negative, infinite or a NaN.
pub open spec fn volume(bits: u32) -> u32 {
    if bits < INFINITY {
        bits
    } else {
        0
    }
}

pub fn sanitize_volume(bits: u32) -> (r: u32)
    ensures
        r == volume(bits),
{
    if bits < INFINITY {
        bits
    } else {
        0
    }
}

/// A volume that can be used is what it was if it was one, and is never out of range.
pub proof fn a_sanitized_volume_is_finite(bits: u32)
    ensures
        is_finite(volume(bits)),
        volume(bits) < SIGN,
        is_finite(bits) && bits < SIGN ==> volume(bits) == bits,
{
}

/// A gain comes out between nothing and one: it is kept if it lies there, is one if it is
/// larger and nothing if it is negative. What is no number stays none.
pub proof fn a_gain_comes_out_between_nothing_and_one(bits: u32)
    ensures
        bits <= 0x3f80_0000 ==> unit_clamped(bits) == bits,
        0x3f80_0000 < bits <= 0x7f80_0000 ==> unit_clamped(bits) == 0x3f80_0000,
        0x8000_0000 < bits <= 0xff80_0000 ==> unit_clamped(bits) == 0,
        bits == 0x8000_0000 ==> unit_clamped(bits) == bits,
        0x7f80_0000 < bits < 0x8000_0000 || 0xff80_0000 < bits ==> unit_clamped(bits) == bits,
        unit_clamped(unit_clamped(bits)) == unit_clamped(bits),
{
}

/// A volume is kept if it is a finite number that is not negative, and is nothing otherwise.
pub proof fn a_volume_is_finite_and_not_negative(bits: u32)
    ensures
        bits < 0x7f80_0000 ==> volume(bits) == bits,
        bits >= 0x7f80_0000 ==> volume(bits) == 0,
{
}

/// A value is no number exactly if all bits of its exponent are set and one behind them is; it
/// is finite exactly if one of its exponent is not set.
pub proof fn a_value_is_finite_or_infinite_or_none(bits: u32)
    ensures
        is_nan(bits) <==> bits & 0x7f80_0000 == 0x7f80_0000 && bits & 0x007f_ffff != 0,
        is_finite(bits) <==> bits & 0x7f80_0000 != 0x7f80_0000,
{
    assert((0x7f80_0000 < bits < 0x8000_0000 || 0xff80_0000 < bits) <==> bits & 0x7f80_0000
        == 0x7f80_0000 && bits & 0x007f_ffff != 0) by (bit_vector);
    assert((bits < 0x7f80_0000 || 0x8000_0000 <= bits < 0xff80_0000) <==> bits & 0x7f80_0000
        != 0x7f80_0000) by (bit_vector);
}

/// A value lies above a threshold that is not negative if its bits are larger: a negative
/// value, and what is no number, never does.
pub proof fn a_negative_value_lies_above_nothing(bits: u32, threshold: u32)
    ensures
        above(bits, threshold) ==> threshold < bits && bits <= 0x7f80_0000,
        threshold < bits <= 0x7f80_0000 ==> above(bits, threshold),
        bits >= 0x8000_0000 ==> !above(bits, threshold),
{
}

} // verus!
