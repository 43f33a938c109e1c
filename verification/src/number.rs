//! Reading integers out of IEEE-754 binary64 bit patterns: truncation toward zero,
//! integrality, and the saturating conversion that `as i32` performs.

use vstd::prelude::*;

verus! {

/// Biased exponent field (11 bits).
pub open spec fn exp_field(b: u64) -> u64 {
    (b >> 52u64) & 0x7ffu64
}

/// Fraction field (52 bits).
pub open spec fn frac_field(b: u64) -> u64 {
    b & 0x000f_ffff_ffff_ffffu64
}

/// Whether the sign bit is set.
pub open spec fn sign_set(b: u64) -> bool {
    (b >> 63u64) == 1
}

/// NaN: all-ones exponent, non-zero fraction.
pub open spec fn bits_nan(b: u64) -> bool {
    exp_field(b) == 0x7ff && frac_field(b) != 0
}

/// Positive or negative infinity.
pub open spec fn bits_infinite(b: u64) -> bool {
    exp_field(b) == 0x7ff && frac_field(b) == 0
}

/// Positive or negative zero.
pub open spec fn bits_zero(b: u64) -> bool {
    exp_field(b) == 0 && frac_field(b) == 0
}

/// The magnitude of a finite double truncated toward zero, when it is below 2^52;
/// `None` for magnitudes of at least 2^52. For a normal number the magnitude is
/// `(2^52 + fraction) * 2^(exponent - 1075)`; subnormals and zeros are below 1.
pub open spec fn small_trunc(b: u64) -> Option<u64> {
    let e = exp_field(b);
    if e == 0 {
        Some(0)
    } else if e >= 1075 {
        None
    } else if 1075 - e >= 64 {
        Some(0)
    } else {
        Some(((frac_field(b) + 0x0010_0000_0000_0000u64) as u64) >> ((1075 - e) as u64))
    }
}

/// Whether a finite double has no fractional part.
pub open spec fn bits_integral(b: u64) -> bool {
    let e = exp_field(b);
    if e == 0 {
        frac_field(b) == 0
    } else if e >= 1075 {
        true
    } else if 1075 - e >= 64 {
        false
    } else {
        (((frac_field(b) + 0x0010_0000_0000_0000u64) as u64) & (((1u64 << ((1075 - e) as u64))
            - 1u64) as u64)) == 0
    }
}

/// The value `x as i32` gives for the double `x` with bit pattern `b`: truncation toward
/// zero, saturating at the `i32` bounds, NaN giving 0.
pub open spec fn bits_as_i32(b: u64) -> i32 {
    if bits_nan(b) {
        0
    } else if bits_infinite(b) {
        if sign_set(b) {
            i32::MIN
        } else {
            i32::MAX
        }
    } else {
        match small_trunc(b) {
            None => if sign_set(b) {
                i32::MIN
            } else {
                i32::MAX
            },
            Some(t) => if sign_set(b) {
                if t >= 0x8000_0000u64 {
                    i32::MIN
                } else {
                    (-(t as int)) as i32
                }
            } else {
                if t > 0x7fff_ffffu64 {
                    i32::MAX
                } else {
                    t as i32
                }
            },
        }
    }
}

/// The double is strictly positive.
pub open spec fn bits_positive(b: u64) -> bool {
    !bits_nan(b) && !sign_set(b) && !bits_zero(b)
}

/// The double is at most `u32::MAX` (4294967295), for a finite non-NaN integral value
/// or an infinity.
pub open spec fn bits_at_most_u32_max(b: u64) -> bool {
    !bits_nan(b) && (sign_set(b) || (!bits_infinite(b) && small_trunc(b) is Some
        && small_trunc(b)->0 <= 0xffff_ffffu64))
}

/// Fields of a double, computed from its bit pattern.
fn fields(b: u64) -> (r: (u64, u64, bool))
    ensures
        r.0 == exp_field(b),
        r.1 == frac_field(b),
        r.2 == sign_set(b),
        r.0 <= 0x7ff,
        r.1 <= 0x000f_ffff_ffff_ffffu64,
{
    let e = (b >> 52u64) & 0x7ffu64;
    let f = b & 0x000f_ffff_ffff_ffffu64;
    let s = (b >> 63u64) == 1;
    assert(e <= 0x7ff) by (bit_vector)
        requires
            e == (b >> 52u64) & 0x7ffu64,
    ;
    assert(f <= 0x000f_ffff_ffff_ffffu64) by (bit_vector)
        requires
            f == b & 0x000f_ffff_ffff_ffffu64,
    ;
    (e, f, s)
}

/// Truncated magnitude of a finite double below 2^52.
pub fn trunc_magnitude(b: u64) -> (r: Option<u64>)
    ensures
        r == small_trunc(b),
{
    let (e, f, _s) = fields(b);
    if e == 0 {
        Some(0)
    } else if e >= 1075 {
        None
    } else if 1075 - e >= 64 {
        Some(0)
    } else {
        Some((f + 0x0010_0000_0000_0000u64) >> (1075 - e))
    }
}

/// Whether a finite double has no fractional part.
pub fn is_integral(b: u64) -> (r: bool)
    ensures
        r == bits_integral(b),
{
    let (e, f, _s) = fields(b);
    if e == 0 {
        f == 0
    } else if e >= 1075 {
        true
    } else if 1075 - e >= 64 {
        false
    } else {
        let shift: u64 = 1075 - e;
        assert((1u64 << shift) >= 1) by (bit_vector)
            requires
                shift < 64,
        ;
        ((f + 0x0010_0000_0000_0000u64) & ((1u64 << shift) - 1u64)) == 0
    }
}

/// The value `x as i32` gives for the double with bit pattern `b`.
pub fn as_i32(b: u64) -> (r: i32)
    ensures
        r == bits_as_i32(b),
{
    let (e, f, s) = fields(b);
    if e == 0x7ff && f != 0 {
        0
    } else if e == 0x7ff {
        if s {
            i32::MIN
        } else {
            i32::MAX
        }
    } else {
        match trunc_magnitude(b) {
            None => if s {
                i32::MIN
            } else {
                i32::MAX
            },
            Some(t) => if s {
                if t >= 0x8000_0000u64 {
                    i32::MIN
                } else {
                    -(t as i32)
                }
            } else {
                if t > 0x7fff_ffffu64 {
                    i32::MAX
                } else {
                    t as i32
                }
            },
        }
    }
}

/// Whether the double is strictly positive.
pub fn is_positive(b: u64) -> (r: bool)
    ensures
        r == bits_positive(b),
{
    let (e, f, s) = fields(b);
    !(e == 0x7ff && f != 0) && !s && !(e == 0 && f == 0)
}

/// Whether the double is at most `u32::MAX`.
pub fn at_most_u32_max(b: u64) -> (r: bool)
    ensures
        r == bits_at_most_u32_max(b),
{
    let (e, f, s) = fields(b);
    if e == 0x7ff && f != 0 {
        false
    } else if s {
        true
    } else if e == 0x7ff {
        false
    } else {
        match trunc_magnitude(b) {
            Some(t) => t <= 0xffff_ffffu64,
            None => false,
        }
    }
}

} // verus!
