//! Normalized domain values: finite binary32 numbers held by their bit
//! patterns, checked against their documented closed ranges.
use crate::binary32::{
    canonical_pattern, finite_in_range, is_finite, is_finite_pattern, is_negative_pattern, less_than,
    lemma_one_value, lemma_value_strictly_increases, lemma_value_zero, magnitude_of, scaled_value,
    MINUS_ONE_BITS, ONE_BITS, POSITIVE_ZERO_BITS,
};
use vstd::prelude::*;

verus! {

/// Errors returned when constructing or updating normalized domain values.
#[derive(Clone, Copy, Debug, PartialEq, Eq, Structural)]
pub enum ValueError {
    /// The supplied value was NaN or either infinity.
    NonFinite,
    /// The supplied value was outside the type's documented range.
    OutOfRange,
}

/// What `validate_value` returns for a pattern and a closed range.
pub open spec fn validated(value: u32, min: u32, max: u32) -> Result<u32, ValueError> {
    if !is_finite_pattern(value) {
        Err(ValueError::NonFinite)
    } else if scaled_value(value) < scaled_value(min) || scaled_value(value) > scaled_value(max) {
        Err(ValueError::OutOfRange)
    } else {
        Ok(canonical_pattern(value))
    }
}

/// Checks that a binary32 pattern is finite and lies in `[min, max]`, and
/// writes `-0.0` as `+0.0`.
pub fn validate_value(value: u32, min: u32, max: u32) -> (r: Result<u32, ValueError>)
    requires
        is_finite_pattern(min),
        is_finite_pattern(max),
    ensures
        r == validated(value, min, max),
{
    if !is_finite(value) {
        return Err(ValueError::NonFinite);
    }
    if less_than(value, min) || less_than(max, value) {
        return Err(ValueError::OutOfRange);
    }
    proof {
        lemma_one_value();
    }
    // The public numeric boundary normalizes negative zero.
    let zero = POSITIVE_ZERO_BITS;
    if !less_than(value, zero) && !less_than(zero, value) {
        Ok(POSITIVE_ZERO_BITS)
    } else {
        Ok(value)
    }
}

/// A canonical pattern of a number in `[-1, 1]`.
pub open spec fn is_signed_unit(bits: u32) -> bool {
    &&& finite_in_range(bits, MINUS_ONE_BITS, ONE_BITS)
    &&& bits == canonical_pattern(bits)
}

/// A canonical pattern of a number in `[0, 1]`.
pub open spec fn is_unsigned_unit(bits: u32) -> bool {
    &&& finite_in_range(bits, POSITIVE_ZERO_BITS, ONE_BITS)
    &&& bits == canonical_pattern(bits)
}

/// Canonical patterns are never `-0.0`; in particular equal numbers have equal patterns.
pub proof fn lemma_canonical_patterns_are_unique(a: u32, b: u32)
    requires
        is_finite_pattern(a),
        is_finite_pattern(b),
        a == canonical_pattern(a),
        b == canonical_pattern(b),
    ensures
        (a == b) <==> (scaled_value(a) == scaled_value(b)),
{
    let ma = magnitude_of(a);
    let mb = magnitude_of(b);
    lemma_value_zero(ma);
    lemma_value_zero(mb);
    if ma < mb {
        lemma_value_strictly_increases(ma, mb);
    }
    if mb < ma {
        lemma_value_strictly_increases(mb, ma);
    }
    if scaled_value(a) == scaled_value(b) && scaled_value(a) != 0 {
        assert(is_negative_pattern(a) == is_negative_pattern(b));
        assert(ma == mb);
        assert(a == b) by (nonlinear_arith)
            requires
                a % 0x8000_0000 == b % 0x8000_0000,
                (a >= 0x8000_0000) == (b >= 0x8000_0000),
                a < 0x1_0000_0000,
                b < 0x1_0000_0000,
        ;
    }
}

/// Directional affinity toward another entity, in `[-1, 1]`.
#[derive(Clone, Copy, Debug, PartialEq, Eq, Structural)]
pub struct Affinity(u32);

impl View for Affinity {
    type V = u32;

    /// The binary32 pattern of the value.
    closed spec fn view(&self) -> u32 {
        self.0
    }
}

impl Affinity {
    /// The smallest valid value (`-1.0`), as a binary32 pattern.
    pub const MIN: u32 = 0xBF80_0000;

    /// The largest valid value (`1.0`), as a binary32 pattern.
    pub const MAX: u32 = 0x3F80_0000;

    /// Every value is a canonical pattern in `[-1, 1]`.
    #[verifier::type_invariant]
    pub closed spec fn inv(self) -> bool {
        is_signed_unit(self.0)
    }

    /// Constructs a value after checking finiteness and range.
    pub fn new(value: u32) -> (r: Result<Self, ValueError>)
        ensures
            r matches Ok(v) ==> validated(value, MINUS_ONE_BITS, ONE_BITS) == Ok::<u32, ValueError>(v@),
            r matches Err(e) ==> validated(value, MINUS_ONE_BITS, ONE_BITS) == Err::<u32, ValueError>(e),
            r == checked_affinity(value),
    {
        proof {
            lemma_one_value();
        }
        let v = validate_value(value, Self::MIN, Self::MAX)?;
        proof {
            lemma_canonical_is_canonical(value);
        }
        Ok(Affinity(v))
    }

    /// The affinity held by a pattern.
    pub closed spec fn from_pattern(bits: u32) -> Affinity {
        Affinity(bits)
    }

    /// An affinity is the one held by its pattern.
    pub proof fn lemma_from_pattern(a: Affinity, bits: u32)
        ensures
            Self::from_pattern(bits)@ == bits,
            a == Self::from_pattern(a@),
    {
    }

    /// The neutral affinity, `+0.0`.
    pub fn neutral() -> (r: Self)
        ensures
            r == Self::from_pattern(0),
            r@ == 0,
    {
        proof {
            lemma_one_value();
            vstd::arithmetic::power2::lemma_pow2_pos(149);
        }
        Affinity(0)
    }

    /// Returns the normalized binary32 pattern.
    pub fn value(self) -> (r: u32)
        ensures
            r == self@,
            is_signed_unit(r),
    {
        proof {
            use_type_invariant(&self);
        }
        self.0
    }
}

/// Signed beneficial or harmful result of a deed, in `[-1, 1]`.
#[derive(Clone, Copy, Debug, PartialEq, Eq, Structural)]
pub struct Impact(u32);

impl View for Impact {
    type V = u32;

    /// The binary32 pattern of the value.
    closed spec fn view(&self) -> u32 {
        self.0
    }
}

impl Impact {
    /// The smallest valid value (`-1.0`), as a binary32 pattern.
    pub const MIN: u32 = 0xBF80_0000;

    /// The largest valid value (`1.0`), as a binary32 pattern.
    pub const MAX: u32 = 0x3F80_0000;

    /// Every value is a canonical pattern in `[-1, 1]`.
    #[verifier::type_invariant]
    pub closed spec fn inv(self) -> bool {
        is_signed_unit(self.0)
    }

    /// Constructs a value after checking finiteness and range.
    pub fn new(value: u32) -> (r: Result<Self, ValueError>)
        ensures
            r matches Ok(v) ==> validated(value, MINUS_ONE_BITS, ONE_BITS) == Ok::<u32, ValueError>(v@),
            r matches Err(e) ==> validated(value, MINUS_ONE_BITS, ONE_BITS) == Err::<u32, ValueError>(e),
    {
        proof {
            lemma_one_value();
        }
        let v = validate_value(value, Self::MIN, Self::MAX)?;
        proof {
            lemma_canonical_is_canonical(value);
        }
        Ok(Impact(v))
    }

    /// Returns the normalized binary32 pattern.
    pub fn value(self) -> (r: u32)
        ensures
            r == self@,
            is_signed_unit(r),
    {
        proof {
            use_type_invariant(&self);
        }
        self.0
    }
}

/// Non-negative aggression or threat intensity of a deed, in `[0, 1]`.
#[derive(Clone, Copy, Debug, PartialEq, Eq, Structural)]
pub struct Aggression(u32);

impl View for Aggression {
    type V = u32;

    /// The binary32 pattern of the value.
    closed spec fn view(&self) -> u32 {
        self.0
    }
}

impl Aggression {
    /// The smallest valid value (`0.0`), as a binary32 pattern.
    pub const MIN: u32 = 0x0000_0000;

    /// The largest valid value (`1.0`), as a binary32 pattern.
    pub const MAX: u32 = 0x3F80_0000;

    /// Every value is a canonical pattern in `[0, 1]`.
    #[verifier::type_invariant]
    pub closed spec fn inv(self) -> bool {
        is_unsigned_unit(self.0)
    }

    /// Constructs a value after checking finiteness and range.
    pub fn new(value: u32) -> (r: Result<Self, ValueError>)
        ensures
            r matches Ok(v) ==> validated(value, POSITIVE_ZERO_BITS, ONE_BITS) == Ok::<u32, ValueError>(v@),
            r matches Err(e) ==> validated(value, POSITIVE_ZERO_BITS, ONE_BITS) == Err::<u32, ValueError>(e),
    {
        proof {
            lemma_one_value();
        }
        let v = validate_value(value, Self::MIN, Self::MAX)?;
        proof {
            lemma_canonical_is_canonical(value);
        }
        Ok(Aggression(v))
    }

    /// Returns the normalized binary32 pattern.
    pub fn value(self) -> (r: u32)
        ensures
            r == self@,
            is_unsigned_unit(r),
    {
        proof {
            use_type_invariant(&self);
        }
        self.0
    }
}

/// Confidence in an observed fact, in `[0, 1]`.
#[derive(Clone, Copy, Debug, PartialEq, Eq, Structural)]
pub struct Confidence(u32);

impl View for Confidence {
    type V = u32;

    /// The binary32 pattern of the value.
    closed spec fn view(&self) -> u32 {
        self.0
    }
}

impl Confidence {
    /// The smallest valid value (`0.0`), as a binary32 pattern.
    pub const MIN: u32 = 0x0000_0000;

    /// The largest valid value (`1.0`), as a binary32 pattern.
    pub const MAX: u32 = 0x3F80_0000;

    /// Every value is a canonical pattern in `[0, 1]`.
    #[verifier::type_invariant]
    pub closed spec fn inv(self) -> bool {
        is_unsigned_unit(self.0)
    }

    /// Constructs a value after checking finiteness and range.
    pub fn new(value: u32) -> (r: Result<Self, ValueError>)
        ensures
            r matches Ok(v) ==> validated(value, POSITIVE_ZERO_BITS, ONE_BITS) == Ok::<u32, ValueError>(v@),
            r matches Err(e) ==> validated(value, POSITIVE_ZERO_BITS, ONE_BITS) == Err::<u32, ValueError>(e),
    {
        proof {
            lemma_one_value();
        }
        let v = validate_value(value, Self::MIN, Self::MAX)?;
        proof {
            lemma_canonical_is_canonical(value);
        }
        Ok(Confidence(v))
    }

    /// Returns the normalized binary32 pattern.
    pub fn value(self) -> (r: u32)
        ensures
            r == self@,
            is_unsigned_unit(r),
    {
        proof {
            use_type_invariant(&self);
        }
        self.0
    }
}

impl Confidence {
    /// Full confidence, `1.0`.
    pub closed spec fn one() -> Confidence {
        Confidence(ONE_BITS)
    }

    /// Full confidence is the pattern of `1.0`.
    pub proof fn lemma_one()
        ensures
            Self::one()@ == ONE_BITS,
    {
    }

    /// Full confidence, `1.0`.
    pub(crate) fn one_exec() -> (r: Self)
        ensures
            r == Self::one(),
    {
        proof {
            lemma_one_value();
            vstd::arithmetic::power2::lemma_pow2_pos(149);
        }
        Confidence(ONE_BITS)
    }
}

/// One normalized PAD axis value, in `[-1, 1]`.
#[derive(Clone, Copy, Debug, PartialEq, Eq, Structural)]
pub struct PadValue(u32);

impl View for PadValue {
    type V = u32;

    /// The binary32 pattern of the value.
    closed spec fn view(&self) -> u32 {
        self.0
    }
}

impl PadValue {
    /// The smallest valid value (`-1.0`), as a binary32 pattern.
    pub const MIN: u32 = 0xBF80_0000;

    /// The largest valid value (`1.0`), as a binary32 pattern.
    pub const MAX: u32 = 0x3F80_0000;

    /// Every value is a canonical pattern in `[-1, 1]`.
    #[verifier::type_invariant]
    pub closed spec fn inv(self) -> bool {
        is_signed_unit(self.0)
    }

    /// Constructs a value after checking finiteness and range.
    pub fn new(value: u32) -> (r: Result<Self, ValueError>)
        ensures
            r matches Ok(v) ==> validated(value, MINUS_ONE_BITS, ONE_BITS) == Ok::<u32, ValueError>(v@),
            r matches Err(e) ==> validated(value, MINUS_ONE_BITS, ONE_BITS) == Err::<u32, ValueError>(e),
    {
        proof {
            lemma_one_value();
        }
        let v = validate_value(value, Self::MIN, Self::MAX)?;
        proof {
            lemma_canonical_is_canonical(value);
        }
        Ok(PadValue(v))
    }

    /// Returns the normalized binary32 pattern.
    pub fn value(self) -> (r: u32)
        ensures
            r == self@,
            is_signed_unit(r),
    {
        proof {
            use_type_invariant(&self);
        }
        self.0
    }
}

/// What `Affinity::new` returns for a pattern.
pub open spec fn checked_affinity(value: u32) -> Result<Affinity, ValueError> {
    match validated(value, MINUS_ONE_BITS, ONE_BITS) {
        Ok(bits) => Ok(Affinity::from_pattern(bits)),
        Err(e) => Err(e),
    }
}

/// The canonical pattern of a finite number is its own canonical pattern.
pub proof fn lemma_canonical_is_canonical(bits: u32)
    ensures
        canonical_pattern(canonical_pattern(bits)) == canonical_pattern(bits),
        scaled_value(canonical_pattern(bits)) == scaled_value(bits),
        is_finite_pattern(bits) ==> is_finite_pattern(canonical_pattern(bits)),
{
    lemma_one_value();
}

} // verus!
