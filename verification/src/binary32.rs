//! IEEE-754 binary32 values carried by their bit patterns.
//!
//! Every normalized quantity of the model is a binary32 number. The library
//! holds such a number as its 32-bit pattern and reads it exactly: a finite
//! pattern denotes the real number `scaled_value(bits) / 2^149`, because every
//! finite binary32 number is an integer multiple of the smallest subnormal,
//! `2^-149`. Comparisons, absolute values and maxima are decided on the bit
//! patterns and proved against that exact reading.
use vstd::arithmetic::power2::*;
use vstd::prelude::*;

verus! {

/// Bit pattern of `+0.0`.
pub const POSITIVE_ZERO_BITS: u32 = 0x0000_0000;

/// Bit pattern of `-0.0`.
pub const NEGATIVE_ZERO_BITS: u32 = 0x8000_0000;

/// Bit pattern of `1.0`.
pub const ONE_BITS: u32 = 0x3F80_0000;

/// Bit pattern of `-1.0`.
pub const MINUS_ONE_BITS: u32 = 0xBF80_0000;

/// Sign mask of a binary32 pattern.
pub const SIGN_MASK: u32 = 0x8000_0000;

/// Magnitude mask (every bit but the sign) of a binary32 pattern.
pub const MAGNITUDE_MASK: u32 = 0x7FFF_FFFF;

/// The smallest magnitude pattern whose exponent field is all ones
/// (infinities and NaNs).
pub const NON_FINITE_MAGNITUDE: u32 = 0x7F80_0000;

/// `2^23`, the weight of the implicit leading bit of a normal significand.
pub open spec fn hidden_bit() -> nat {
    0x80_0000
}

/// Whether the sign bit is set.
pub open spec fn is_negative_pattern(bits: u32) -> bool {
    bits >= 0x8000_0000
}

/// The pattern with its sign bit cleared.
pub open spec fn magnitude_of(bits: u32) -> nat {
    (bits % 0x8000_0000) as nat
}

/// The biased exponent field of a magnitude.
pub open spec fn exponent_of(mag: nat) -> nat {
    mag / hidden_bit()
}

/// The fraction field of a magnitude.
pub open spec fn fraction_of(mag: nat) -> nat {
    mag % hidden_bit()
}

/// Whether the pattern denotes a finite number (neither an infinity nor a NaN).
pub open spec fn is_finite_pattern(bits: u32) -> bool {
    magnitude_of(bits) < 0x7F80_0000
}

/// The absolute value denoted by a finite magnitude, times `2^149`.
pub open spec fn magnitude_value(mag: nat) -> nat {
    let e = exponent_of(mag);
    let f = fraction_of(mag);
    if e == 0 {
        f
    } else {
        (hidden_bit() + f) * pow2((e - 1) as nat)
    }
}

/// The number denoted by a finite pattern, times `2^149`.
pub open spec fn scaled_value(bits: u32) -> int {
    let m = magnitude_value(magnitude_of(bits)) as int;
    if is_negative_pattern(bits) {
        -m
    } else {
        m
    }
}

/// `1.0` times `2^149`.
pub open spec fn scaled_one() -> int {
    pow2(149) as int
}

/// A finite pattern whose number lies in the closed interval `[lo, hi]`
/// (both given as patterns).
pub open spec fn finite_in_range(bits: u32, lo: u32, hi: u32) -> bool {
    &&& is_finite_pattern(bits)
    &&& scaled_value(lo) <= scaled_value(bits)
    &&& scaled_value(bits) <= scaled_value(hi)
}

/// The canonical pattern of a number: `-0.0` is written as `+0.0`.
pub open spec fn canonical_pattern(bits: u32) -> u32 {
    if scaled_value(bits) == 0 {
        POSITIVE_ZERO_BITS
    } else {
        bits
    }
}

/// Splitting a magnitude into exponent and fraction fields.
proof fn lemma_fields(mag: nat)
    ensures
        mag == exponent_of(mag) * hidden_bit() + fraction_of(mag),
        fraction_of(mag) < hidden_bit(),
{
}

/// `pow2(23)` is the weight of the hidden bit.
proof fn lemma_hidden_bit_is_pow2()
    ensures
        pow2(23) == hidden_bit(),
{
    lemma2_to64();
}

/// The value of a magnitude is below `2^(23 + e)` where `e` is its exponent field.
proof fn lemma_value_below_next_binade(mag: nat)
    ensures
        magnitude_value(mag) < pow2(23 + exponent_of(mag)),
        exponent_of(mag) > 0 ==> hidden_bit() * pow2((exponent_of(mag) - 1) as nat)
            <= magnitude_value(mag),
{
    let e = exponent_of(mag);
    let f = fraction_of(mag);
    lemma_fields(mag);
    lemma_hidden_bit_is_pow2();
    if e == 0 {
        assert(pow2(23 + e) == pow2(23));
    } else {
        let p = pow2((e - 1) as nat);
        lemma_pow2_pos((e - 1) as nat);
        lemma_pow2_unfold(23 + e);
        assert((23 + e - 1) as nat == 23 + (e - 1) as nat);
        lemma_pow2_adds(23, (e - 1) as nat);
        assert(pow2(23 + e) == 2 * (hidden_bit() * p));
        assert((hidden_bit() + f) * p < 2 * (hidden_bit() * p)) by (nonlinear_arith)
            requires
                f < hidden_bit(),
                p > 0,
        ;
        assert(hidden_bit() * p <= (hidden_bit() + f) * p) by (nonlinear_arith)
            requires
                p > 0,
        ;
    }
}

/// The value of a magnitude is zero exactly when the magnitude is zero.
pub proof fn lemma_value_zero(mag: nat)
    ensures
        magnitude_value(mag) == 0 <==> mag == 0,
{
    let e = exponent_of(mag);
    lemma_fields(mag);
    if e > 0 {
        lemma_value_below_next_binade(mag);
        lemma_pow2_pos((e - 1) as nat);
        assert(hidden_bit() * pow2((e - 1) as nat) > 0) by (nonlinear_arith)
            requires
                pow2((e - 1) as nat) > 0,
        ;
    }
}

/// Larger magnitudes denote strictly larger values.
pub proof fn lemma_value_strictly_increases(m1: nat, m2: nat)
    requires
        m1 < m2,
    ensures
        magnitude_value(m1) < magnitude_value(m2),
{
    let e1 = exponent_of(m1);
    let e2 = exponent_of(m2);
    let f1 = fraction_of(m1);
    let f2 = fraction_of(m2);
    lemma_fields(m1);
    lemma_fields(m2);
    assert(e1 <= e2) by (nonlinear_arith)
        requires
            m1 < m2,
            m1 == e1 * 0x80_0000 + f1,
            m2 == e2 * 0x80_0000 + f2,
            f1 < 0x80_0000,
            f2 < 0x80_0000,
            f1 >= 0,
            f2 >= 0,
    ;
    if e1 == e2 {
        assert(f1 < f2);
        if e1 > 0 {
            let p = pow2((e1 - 1) as nat);
            lemma_pow2_pos((e1 - 1) as nat);
            assert((hidden_bit() + f1) * p < (hidden_bit() + f2) * p) by (nonlinear_arith)
                requires
                    f1 < f2,
                    p > 0,
            ;
        }
    } else {
        lemma_value_below_next_binade(m1);
        lemma_value_below_next_binade(m2);
        lemma_hidden_bit_is_pow2();
        let q = pow2((e2 - 1) as nat);
        assert(23 + (e2 - 1) as nat == (e2 + 22) as nat);
        lemma_pow2_adds(23, (e2 - 1) as nat);
        if 23 + e1 < 23 + (e2 - 1) as nat {
            lemma_pow2_strictly_increases(23 + e1, 23 + (e2 - 1) as nat);
        }
        assert(pow2(23 + e1) <= pow2(23 + (e2 - 1) as nat));
        assert(pow2(23 + (e2 - 1) as nat) == hidden_bit() * q);
    }
}

/// Equal-or-larger magnitudes denote equal-or-larger values.
pub proof fn lemma_value_increases(m1: nat, m2: nat)
    requires
        m1 <= m2,
    ensures
        magnitude_value(m1) <= magnitude_value(m2),
{
    if m1 < m2 {
        lemma_value_strictly_increases(m1, m2);
    }
}

/// `1.0` denotes `2^149`.
pub proof fn lemma_one_value()
    ensures
        scaled_value(ONE_BITS) == scaled_one(),
        scaled_value(MINUS_ONE_BITS) == -scaled_one(),
        scaled_value(POSITIVE_ZERO_BITS) == 0,
        scaled_value(NEGATIVE_ZERO_BITS) == 0,
        is_finite_pattern(ONE_BITS),
        is_finite_pattern(MINUS_ONE_BITS),
        is_finite_pattern(POSITIVE_ZERO_BITS),
{
    assert(magnitude_of(ONE_BITS) == 0x3F80_0000);
    assert(magnitude_of(MINUS_ONE_BITS) == 0x3F80_0000);
    assert(exponent_of(0x3F80_0000) == 127);
    assert(fraction_of(0x3F80_0000) == 0);
    lemma_hidden_bit_is_pow2();
    lemma_pow2_adds(23, 126);
    assert(magnitude_value(0x3F80_0000) == hidden_bit() * pow2(126));
    assert(magnitude_value(0) == 0);
}

/// Bit-level reading of a pattern: sign, magnitude mask and finiteness.
proof fn lemma_pattern_fields(bits: u32)
    ensures
        (bits & MAGNITUDE_MASK) as nat == magnitude_of(bits),
        (bits & SIGN_MASK != 0) == is_negative_pattern(bits),
        (bits & MAGNITUDE_MASK) < 0x8000_0000,
        bits == (bits & MAGNITUDE_MASK) + (if is_negative_pattern(bits) {
            0x8000_0000u32
        } else {
            0u32
        }),
{
    assert(bits & 0x7FFF_FFFF == bits % 0x8000_0000) by (bit_vector);
    assert((bits & 0x8000_0000 != 0) == (bits >= 0x8000_0000)) by (bit_vector);
    assert(bits & 0x7FFF_FFFF < 0x8000_0000) by (bit_vector);
}

/// Whether the pattern denotes a finite number.
pub fn is_finite(bits: u32) -> (r: bool)
    ensures
        r == is_finite_pattern(bits),
{
    proof {
        lemma_pattern_fields(bits);
    }
    (bits & MAGNITUDE_MASK) < NON_FINITE_MAGNITUDE
}

/// Strict numeric comparison `a < b` of two finite patterns.
pub fn less_than(a: u32, b: u32) -> (r: bool)
    requires
        is_finite_pattern(a),
        is_finite_pattern(b),
    ensures
        r == (scaled_value(a) < scaled_value(b)),
{
    proof {
        lemma_pattern_fields(a);
        lemma_pattern_fields(b);
    }
    let ma = a & MAGNITUDE_MASK;
    let mb = b & MAGNITUDE_MASK;
    let na = a & SIGN_MASK != 0;
    let nb = b & SIGN_MASK != 0;
    proof {
        lemma_value_zero(ma as nat);
        lemma_value_zero(mb as nat);
        if ma < mb {
            lemma_value_strictly_increases(ma as nat, mb as nat);
        }
        if mb < ma {
            lemma_value_strictly_increases(mb as nat, ma as nat);
        }
    }
    if !na && !nb {
        ma < mb
    } else if na && nb {
        mb < ma
    } else if !na && nb {
        false
    } else {
        !(ma == 0 && mb == 0)
    }
}

/// Absolute value: the pattern with its sign cleared.
pub fn abs(bits: u32) -> (r: u32)
    ensures
        !is_negative_pattern(r),
        magnitude_of(r) == magnitude_of(bits),
        scaled_value(r) == if scaled_value(bits) < 0 {
            -scaled_value(bits)
        } else {
            scaled_value(bits)
        },
        is_finite_pattern(r) == is_finite_pattern(bits),
{
    proof {
        lemma_pattern_fields(bits);
        lemma_value_zero(magnitude_of(bits));
    }
    let r = bits & MAGNITUDE_MASK;
    proof {
        lemma_pattern_fields(r);
    }
    r
}

} // verus!
