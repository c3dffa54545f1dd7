//! Signal levels as IEEE 754 binary32 bit patterns.
//!
//! A pattern has a sign bit, eight exponent bits and twenty-three fraction bits.
//! Every finite pattern is a whole multiple of 2^-149, so its exact value is an
//! integer count of that unit: [`Level::scaled_value`]. The clamping rules are
//! stated over that count and carried out by comparing patterns.
//!
//! A pattern that is not a number has no value to clamp. Both clamps store
//! positive zero in its place, so that what a bus holds is always a number in
//! range.

use vstd::arithmetic::mul::lemma_mul_inequality;
use vstd::arithmetic::mul::lemma_mul_strict_inequality;
use vstd::arithmetic::power2::lemma2_to64;
use vstd::arithmetic::power2::lemma_pow2_adds;
use vstd::arithmetic::power2::lemma_pow2_pos;
use vstd::arithmetic::power2::lemma_pow2_strictly_increases;
use vstd::arithmetic::power2::lemma_pow2_unfold;
use vstd::arithmetic::power2::pow2;
use vstd::prelude::*;

verus! {

/// The sign bit of a pattern.
pub const SIGN_BIT: u32 = 0x8000_0000;

/// The pattern of positive infinity; a larger magnitude is not a number.
pub const INFINITY_BITS: u32 = 0x7f80_0000;

/// The pattern of negative infinity.
pub const NEGATIVE_INFINITY_BITS: u32 = 0xff80_0000;

/// The pattern of 1.0.
pub const ONE_BITS: u32 = 0x3f80_0000;

/// The pattern of 0.5.
pub const HALF_BITS: u32 = 0x3f00_0000;

/// The number of fraction patterns under one exponent: 2^23.
pub const FRACTION_SPAN: u32 = 0x80_0000;

/// A gain or a fader position, held as the bit pattern of a binary32 number.
#[derive(Clone, Copy, Debug, PartialEq, Eq, Structural)]
pub struct Level {
    pub bits: u32,
}

/// The value 1.0 counted in units of 2^-149.
pub open spec fn unit_scale() -> int {
    pow2(149) as int
}

/// The exact magnitude, in units of 2^-149, of the pattern with the sign bit
/// cleared. Infinity counts as 2^128, one step past the largest finite value.
pub open spec fn scaled_magnitude(magnitude_bits: nat) -> nat {
    let exponent = magnitude_bits / (FRACTION_SPAN as nat);
    let fraction = magnitude_bits % (FRACTION_SPAN as nat);
    if exponent == 0 {
        fraction
    } else {
        (FRACTION_SPAN as nat + fraction) * pow2((exponent - 1) as nat)
    }
}

impl Level {
    /// Whether the sign bit is set.
    pub open spec fn sign_negative(self) -> bool {
        self.bits >= SIGN_BIT
    }

    /// The pattern with the sign bit cleared.
    pub open spec fn magnitude_bits(self) -> nat {
        if self.sign_negative() {
            (self.bits - SIGN_BIT) as nat
        } else {
            self.bits as nat
        }
    }

    /// Whether the pattern is not a number.
    pub open spec fn spec_is_nan(self) -> bool {
        self.magnitude_bits() > INFINITY_BITS
    }

    /// The exact value in units of 2^-149. Meaningful unless the pattern is not
    /// a number.
    pub open spec fn scaled_value(self) -> int {
        if self.sign_negative() {
            -(scaled_magnitude(self.magnitude_bits()) as int)
        } else {
            scaled_magnitude(self.magnitude_bits()) as int
        }
    }

    /// Positive zero.
    pub open spec fn spec_zero() -> Level {
        Level { bits: 0 }
    }

    /// One half.
    pub open spec fn spec_half() -> Level {
        Level { bits: HALF_BITS }
    }

    /// One.
    pub open spec fn spec_one() -> Level {
        Level { bits: ONE_BITS }
    }

    /// What a gain update stores: the level itself where its value is above
    /// zero, and positive zero in place of every other pattern, be it a value
    /// below zero, a zero of either sign or not a number.
    pub open spec fn clamped_non_negative(self) -> Level {
        if self.spec_is_nan() || self.scaled_value() <= 0 {
            Level::spec_zero()
        } else {
            self
        }
    }

    /// What a crossfader update stores: the level itself where its value lies
    /// in [0, 1], the nearer bound in place of a value outside the range, and
    /// positive zero in place of a pattern that is not a number.
    pub open spec fn clamped_unit(self) -> Level {
        if self.spec_is_nan() || self.scaled_value() < 0 {
            Level::spec_zero()
        } else if self.scaled_value() > unit_scale() {
            Level::spec_one()
        } else {
            self
        }
    }

    /// Whether the level is a number in [0, 1].
    pub open spec fn in_unit_range(self) -> bool {
        !self.spec_is_nan() && 0 <= self.scaled_value() <= unit_scale()
    }

    /// Whether the level is a number that is zero or more, with the sign bit
    /// clear.
    pub open spec fn is_plain_non_negative(self) -> bool {
        self.bits <= INFINITY_BITS
    }

    /// Positive zero.
    #[verifier::when_used_as_spec(spec_zero)]
    pub fn zero() -> (level: Level)
        ensures
            level == Level::spec_zero(),
    {
        Level { bits: 0 }
    }

    /// One half, the centre of the crossfader.
    #[verifier::when_used_as_spec(spec_half)]
    pub fn half() -> (level: Level)
        ensures
            level == Level::spec_half(),
    {
        Level { bits: HALF_BITS }
    }

    /// One, the unity gain.
    #[verifier::when_used_as_spec(spec_one)]
    pub fn one() -> (level: Level)
        ensures
            level == Level::spec_one(),
    {
        Level { bits: ONE_BITS }
    }

    /// Whether the pattern is not a number.
    #[verifier::when_used_as_spec(spec_is_nan)]
    pub fn is_nan(self) -> (nan: bool)
        ensures
            nan == self.spec_is_nan(),
    {
        (self.bits > INFINITY_BITS && self.bits < SIGN_BIT) || self.bits > NEGATIVE_INFINITY_BITS
    }

    /// Clamps a gain from below at zero.
    pub fn clamp_non_negative(self) -> (stored: Level)
        ensures
            stored == self.clamped_non_negative(),
    {
        proof {
            lemma_sign_of_scaled_value(self);
        }
        if self.bits > INFINITY_BITS {
            Level::zero()
        } else {
            self
        }
    }

    /// Clamps a fader position into [0, 1].
    pub fn clamp_unit(self) -> (stored: Level)
        ensures
            stored == self.clamped_unit(),
    {
        proof {
            lemma_sign_of_scaled_value(self);
            if !self.spec_is_nan() {
                lemma_unit_threshold(self.magnitude_bits());
            }
        }
        if self.bits > ONE_BITS && self.bits <= INFINITY_BITS {
            Level::one()
        } else if self.bits > INFINITY_BITS && self.bits != SIGN_BIT {
            Level::zero()
        } else {
            self
        }
    }
}

/// A magnitude counts zero units exactly when its pattern is zero.
pub proof fn lemma_scaled_magnitude_zero(magnitude_bits: nat)
    ensures
        scaled_magnitude(magnitude_bits) == 0 <==> magnitude_bits == 0,
{
    let exponent = magnitude_bits / (FRACTION_SPAN as nat);
    let fraction = magnitude_bits % (FRACTION_SPAN as nat);
    if exponent != 0 {
        lemma_pow2_pos((exponent - 1) as nat);
        assert((FRACTION_SPAN as nat + fraction) * pow2((exponent - 1) as nat) > 0)
            by (nonlinear_arith)
            requires
                FRACTION_SPAN as nat + fraction > 0,
                pow2((exponent - 1) as nat) > 0,
        ;
    }
}

/// The value is below zero exactly for a set sign bit over a nonzero
/// magnitude, and zero exactly for the two zero patterns.
pub proof fn lemma_sign_of_scaled_value(level: Level)
    ensures
        level.scaled_value() < 0 <==> level.bits > SIGN_BIT,
        level.scaled_value() == 0 <==> (level.bits == 0 || level.bits == SIGN_BIT),
{
    lemma_scaled_magnitude_zero(level.magnitude_bits());
}

/// Among the magnitudes up to infinity a larger pattern is a larger value, so
/// that comparing patterns compares the numbers.
pub proof fn lemma_magnitude_order(smaller: nat, larger: nat)
    requires
        smaller < larger <= INFINITY_BITS,
    ensures
        scaled_magnitude(smaller) < scaled_magnitude(larger),
{
    let span = FRACTION_SPAN as nat;
    let low_exponent = smaller / span;
    let low_fraction = smaller % span;
    let high_exponent = larger / span;
    let high_fraction = larger % span;
    let low_significand = (span + low_fraction) as int;
    let high_significand = (span + high_fraction) as int;
    if high_exponent > 0 {
        lemma_pow2_pos((high_exponent - 1) as nat);
    }
    if low_exponent == high_exponent {
        if low_exponent > 0 {
            lemma_mul_strict_inequality(
                low_significand,
                high_significand,
                pow2((high_exponent - 1) as nat) as int,
            );
        }
    } else if low_exponent == 0 {
        lemma_mul_inequality(1, pow2((high_exponent - 1) as nat) as int, high_significand);
        assert(high_significand * pow2((high_exponent - 1) as nat) >= high_significand)
            by (nonlinear_arith)
            requires
                pow2((high_exponent - 1) as nat) >= 1,
                high_significand >= 0,
        ;
    } else {
        let low_shift = (low_exponent - 1) as nat;
        let high_shift = (high_exponent - 1) as nat;
        lemma_pow2_pos(low_shift);
        lemma_pow2_unfold(low_exponent);
        if low_exponent < high_shift {
            lemma_pow2_strictly_increases(low_exponent, high_shift);
        }
        assert(low_significand * pow2(low_shift) < span * pow2(low_exponent)) by (nonlinear_arith)
            requires
                low_significand < 2 * span,
                pow2(low_exponent) == 2 * pow2(low_shift),
                pow2(low_shift) > 0,
        ;
        assert(span * pow2(low_exponent) <= high_significand * pow2(high_shift))
            by (nonlinear_arith)
            requires
                span <= high_significand,
                pow2(low_exponent) <= pow2(high_shift),
                span > 0,
        ;
    }
}

/// The patterns of one half and of one count 2^148 and 2^149 units.
pub proof fn lemma_named_values()
    ensures
        Level::spec_zero().scaled_value() == 0,
        Level::spec_half().scaled_value() == pow2(148),
        Level::spec_one().scaled_value() == unit_scale(),
        2 * Level::spec_half().scaled_value() == Level::spec_one().scaled_value(),
{
    lemma2_to64();
    lemma_pow2_adds(23, 125);
    lemma_pow2_adds(23, 126);
    lemma_pow2_unfold(149);
    assert(HALF_BITS as nat / (FRACTION_SPAN as nat) == 126);
    assert(ONE_BITS as nat / (FRACTION_SPAN as nat) == 127);
}

/// Among the magnitudes up to infinity exactly those up to the pattern of 1.0
/// count no more than 2^149 units.
pub proof fn lemma_unit_threshold(magnitude_bits: nat)
    requires
        magnitude_bits <= INFINITY_BITS,
    ensures
        scaled_magnitude(magnitude_bits) <= unit_scale() <==> magnitude_bits <= ONE_BITS,
        scaled_magnitude(magnitude_bits) == unit_scale() <==> magnitude_bits == ONE_BITS,
{
    lemma_named_values();
    if magnitude_bits < ONE_BITS {
        lemma_magnitude_order(magnitude_bits, ONE_BITS as nat);
    } else if magnitude_bits > ONE_BITS {
        lemma_magnitude_order(ONE_BITS as nat, magnitude_bits);
    }
}

/// A clamped gain is a number that is zero or more: the value given where that
/// is zero or more, zero where it is below zero or not a number. Clamping it
/// again changes nothing.
pub proof fn law_clamp_non_negative(level: Level)
    ensures
        ({
            let stored = level.clamped_non_negative();
            &&& stored.is_plain_non_negative()
            &&& stored.scaled_value() >= 0
            &&& level.spec_is_nan() ==> stored == Level::spec_zero()
            &&& !level.spec_is_nan() && level.scaled_value() < 0 ==> stored == Level::spec_zero()
            &&& !level.spec_is_nan() && level.scaled_value() >= 0 ==> stored.scaled_value()
                == level.scaled_value()
            &&& stored.clamped_non_negative() == stored
        }),
{
    lemma_sign_of_scaled_value(level);
    lemma_sign_of_scaled_value(level.clamped_non_negative());
}

/// A clamped position lies in [0, 1], whatever was given: the value given
/// where that lies in the range, the nearer of the two bounds where it lies
/// outside, and zero where the pattern is not a number. Clamping it again
/// changes nothing.
pub proof fn law_clamp_unit(level: Level)
    ensures
        ({
            let stored = level.clamped_unit();
            &&& stored.in_unit_range()
            &&& level.spec_is_nan() ==> stored == Level::spec_zero()
            &&& !level.spec_is_nan() && level.scaled_value() < 0 ==> stored == Level::spec_zero()
                && stored.scaled_value() == 0
            &&& !level.spec_is_nan() && level.scaled_value() > unit_scale() ==> stored
                == Level::spec_one() && stored.scaled_value() == unit_scale()
            &&& !level.spec_is_nan() && 0 <= level.scaled_value() <= unit_scale() ==> stored
                == level
            &&& stored.clamped_unit() == stored
        }),
{
    lemma_named_values();
}

} // verus!
