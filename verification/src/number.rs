//! Floating-point numbers as bit patterns.
//!
//! Window systems report positions as double-precision numbers, and scroll amounts as single- or
//! double-precision ones.  They are kept here by their bits, in the interchange formats of IEEE
//! 754, and read with integer arithmetic alone.

use vstd::arithmetic::power2::{
    lemma_pow2_adds, lemma_pow2_pos, lemma_pow2_strictly_increases, lemma_pow2_unfold, pow2,
};
use vstd::bits::lemma_u64_shr_is_div;
use vstd::prelude::*;

verus! {

/// The weight of the sign bit of a double-precision number.
pub const DOUBLE_SIGN: u64 = 0x8000_0000_0000_0000;

/// The weight of the lowest exponent bit of a double-precision number.
pub const DOUBLE_UNIT: u64 = 0x10_0000_0000_0000;

/// The weight of the sign bit of a single-precision number.
pub const SINGLE_SIGN: u32 = 0x8000_0000;

/// The weight of the lowest exponent bit of a single-precision number.
pub const SINGLE_UNIT: u32 = 0x80_0000;

/// A double-precision number.
#[derive(Debug, Clone, Copy)]
pub struct Double {
    /// The bits: sign, 11 bits of exponent, 52 bits of fraction.
    pub bits: u64,
}

/// A single-precision number.
#[derive(Debug, Clone, Copy)]
pub struct Single {
    /// The bits: sign, 8 bits of exponent, 23 bits of fraction.
    pub bits: u32,
}

/// `value` moved to the nearest end of the range from `low` to `high`, if it lies outside.
pub open spec fn clamped(value: int, low: int, high: int) -> int {
    if value < low {
        low
    } else if value > high {
        high
    } else {
        value
    }
}

impl Double {
    /// The number that has these bits.
    pub fn from_bits(bits: u64) -> (r: Double)
        ensures
            r.bits == bits,
    {
        Double { bits }
    }

    /// Whether the sign bit is set.
    pub open spec fn negative(self) -> bool {
        self.bits >= DOUBLE_SIGN
    }

    /// The biased exponent.
    pub open spec fn exponent(self) -> nat {
        ((self.bits as int / DOUBLE_UNIT as int) % 2048) as nat
    }

    /// The fraction.
    pub open spec fn fraction(self) -> nat {
        (self.bits as int % DOUBLE_UNIT as int) as nat
    }

    /// Whether this is no number at all.
    pub open spec fn is_nan(self) -> bool {
        self.exponent() == 2047 && self.fraction() != 0
    }

    /// Whether this is a number, and not an infinity.
    pub open spec fn is_finite(self) -> bool {
        self.exponent() < 2047
    }

    /// The absolute value of a finite number, in units of the smallest positive one (the power
    /// of two with exponent -1074).
    pub open spec fn magnitude(self) -> nat {
        if self.exponent() == 0 {
            self.fraction()
        } else {
            (DOUBLE_UNIT as nat + self.fraction()) * pow2((self.exponent() - 1) as nat)
        }
    }

    /// The value of a finite number, in the same units.  An infinity counts as its encoding
    /// reads, beyond every finite number.
    pub open spec fn value(self) -> int {
        if self.negative() {
            -(self.magnitude() as int)
        } else {
            self.magnitude() as int
        }
    }

    /// Whether this is zero, of either sign.
    pub open spec fn zero(self) -> bool {
        self.exponent() == 0 && self.fraction() == 0
    }

    /// Whether two numbers have the same value: both zeros are one value, and what is no number
    /// equals nothing.
    pub open spec fn same(self, other: Double) -> bool {
        &&& !self.is_nan() && !other.is_nan()
        &&& self.bits == other.bits || (self.zero() && other.zero())
    }

    /// The absolute value without its fractional part.  An infinity counts as its encoding
    /// reads, larger than every finite number.
    pub open spec fn whole(self) -> nat {
        if self.exponent() == 0 {
            0
        } else if self.exponent() < 1075 {
            (DOUBLE_UNIT as nat + self.fraction()) / pow2((1075 - self.exponent()) as nat)
        } else {
            (DOUBLE_UNIT as nat + self.fraction()) * pow2((self.exponent() - 1075) as nat)
        }
    }

    /// The number without its fractional part, with its sign; zero where there is no number.
    pub open spec fn truncated(self) -> int {
        if self.is_nan() {
            0
        } else if self.negative() {
            -(self.whole() as int)
        } else {
            self.whole() as int
        }
    }

    /// The absolute value without its fractional part, cut off at two to the power of 32.
    fn whole_capped(self) -> (r: u64)
        ensures
            r == clamped(self.whole() as int, 0, 0x1_0000_0000),
    {
        let exponent: u64 = (self.bits / DOUBLE_UNIT) % 2048;
        let significand: u64 = DOUBLE_UNIT + self.bits % DOUBLE_UNIT;
        proof {
            vstd::arithmetic::power2::lemma2_to64();
            vstd::arithmetic::power2::lemma2_to64_rest();
        }
        if exponent < 1023 {
            proof {
                if exponent > 0 {
                    let shift = (1075 - exponent) as nat;
                    if shift > 53 {
                        lemma_pow2_strictly_increases(53, shift);
                    }
                    vstd::arithmetic::div_mod::lemma_basic_div(significand as int, pow2(shift) as int);
                }
            }
            0
        } else if exponent < 1055 {
            let shift: u64 = 1075 - exponent;
            proof {
                lemma_u64_shr_is_div(significand, shift);
                lemma_pow2_strictly_increases(20, shift as nat);
                lemma_pow2_pos(shift as nat);
                vstd::arithmetic::div_mod::lemma_div_is_ordered_by_denominator(
                    significand as int,
                    pow2(21) as int,
                    pow2(shift as nat) as int,
                );
            }
            significand >> shift
        } else {
            proof {
                self.lemma_whole_large();
            }
            0x1_0000_0000
        }
    }

    proof fn lemma_whole_large(self)
        requires
            self.exponent() >= 1055,
        ensures
            self.whole() >= 0x1_0000_0000,
    {
        vstd::arithmetic::power2::lemma2_to64();
        vstd::arithmetic::power2::lemma2_to64_rest();
        let significand = DOUBLE_UNIT as nat + self.fraction();
        if self.exponent() < 1075 {
            let shift = (1075 - self.exponent()) as nat;
            if shift < 20 {
                lemma_pow2_strictly_increases(shift, 20);
            }
            lemma_pow2_pos(shift);
            vstd::arithmetic::div_mod::lemma_div_is_ordered_by_denominator(
                significand as int,
                pow2(shift) as int,
                pow2(20) as int,
            );
        } else {
            let scale = pow2((self.exponent() - 1075) as nat);
            lemma_pow2_pos((self.exponent() - 1075) as nat);
            assert(significand * scale >= significand) by (nonlinear_arith)
                requires
                    scale >= 1,
            ;
        }
    }

    /// Whether this is no number at all.
    fn nan(self) -> (r: bool)
        ensures
            r == self.is_nan(),
    {
        (self.bits / DOUBLE_UNIT) % 2048 == 2047 && self.bits % DOUBLE_UNIT != 0
    }

    /// Whether this is zero, of either sign.
    pub fn is_zero(self) -> (r: bool)
        ensures
            r == self.zero(),
    {
        self.bits % DOUBLE_SIGN == 0
    }

    /// The nearest `i32` towards zero, or at the end of its range; zero where there is no
    /// number.
    pub fn to_i32(self) -> (r: i32)
        ensures
            r == clamped(self.truncated(), i32::MIN as int, i32::MAX as int),
    {
        if self.nan() {
            return 0;
        }
        let whole: u64 = self.whole_capped();
        if self.bits >= DOUBLE_SIGN {
            if whole > 0x8000_0000 {
                i32::MIN
            } else {
                (-(whole as i64)) as i32
            }
        } else if whole > 0x7fff_ffff {
            i32::MAX
        } else {
            whole as i32
        }
    }

    /// The nearest `u32` towards zero, or at the end of its range; zero where there is no
    /// number.
    pub fn to_u32(self) -> (r: u32)
        ensures
            r == clamped(self.truncated(), 0, u32::MAX as int),
    {
        if self.nan() || self.bits >= DOUBLE_SIGN {
            return 0;
        }
        let whole: u64 = self.whole_capped();
        if whole > 0xffff_ffff {
            u32::MAX
        } else {
            whole as u32
        }
    }
}

/// The double-precision number with the given parts; `sign` is zero or the weight of the sign
/// bit.
fn double_of(sign: u64, exponent: u64, fraction: u64) -> (r: Double)
    requires
        sign == 0 || sign == DOUBLE_SIGN,
        exponent < 2048,
        fraction < DOUBLE_UNIT,
    ensures
        r.negative() == (sign != 0),
        r.exponent() == exponent,
        r.fraction() == fraction,
{
    Double { bits: sign + exponent * DOUBLE_UNIT + fraction }
}

/// Two powers of two and the ratio of the two fraction widths multiply to one power of two.
pub(crate) proof fn lemma_scale(first: nat, second: nat)
    ensures
        (pow2(first) * 0x2000_0000) * pow2(second) == pow2(first + 29 + second),
{
    vstd::arithmetic::power2::lemma2_to64();
    lemma_pow2_adds(first, 29);
    lemma_pow2_adds(first + 29, second);
}

impl Single {
    /// The number that has these bits.
    pub fn from_bits(bits: u32) -> (r: Single)
        ensures
            r.bits == bits,
    {
        Single { bits }
    }

    /// Whether the sign bit is set.
    pub open spec fn negative(self) -> bool {
        self.bits >= SINGLE_SIGN
    }

    /// The biased exponent.
    pub open spec fn exponent(self) -> nat {
        ((self.bits as int / SINGLE_UNIT as int) % 256) as nat
    }

    /// The fraction.
    pub open spec fn fraction(self) -> nat {
        (self.bits as int % SINGLE_UNIT as int) as nat
    }

    /// Whether this is no number at all.
    pub open spec fn is_nan(self) -> bool {
        self.exponent() == 255 && self.fraction() != 0
    }

    /// Whether this is a number, and not an infinity.
    pub open spec fn is_finite(self) -> bool {
        self.exponent() < 255
    }

    /// The absolute value of a finite number, in units of the smallest positive one (the power
    /// of two with exponent -149).
    pub open spec fn magnitude(self) -> nat {
        if self.exponent() == 0 {
            self.fraction()
        } else {
            (SINGLE_UNIT as nat + self.fraction()) * pow2((self.exponent() - 1) as nat)
        }
    }

    /// Whether this is zero, of either sign.
    pub open spec fn zero(self) -> bool {
        self.exponent() == 0 && self.fraction() == 0
    }

    /// Whether two numbers have the same value: both zeros are one value, and what is no number
    /// equals nothing.
    pub open spec fn same(self, other: Single) -> bool {
        &&& !self.is_nan() && !other.is_nan()
        &&& self.bits == other.bits || (self.zero() && other.zero())
    }

    /// Whether `wide` is this number in double precision: the same value and sign, an infinity
    /// for an infinity, and for no number a quiet one with the same payload.
    pub open spec fn widens_to(self, wide: Double) -> bool {
        &&& wide.negative() == self.negative()
        &&& if self.is_finite() {
            // The units differ by 1074 - 149 powers of two.
            wide.is_finite() && wide.magnitude() == self.magnitude() * pow2(925)
        } else if self.is_nan() {
            &&& wide.exponent() == 2047
            &&& wide.fraction() == 0x8_0000_0000_0000 + (self.fraction() % 0x40_0000) * 0x2000_0000
        } else {
            wide.exponent() == 2047 && wide.fraction() == 0
        }
    }

    /// Whether this is zero, of either sign.
    pub fn is_zero(self) -> (r: bool)
        ensures
            r == self.zero(),
    {
        self.bits % SINGLE_SIGN == 0
    }

    /// Whether this is no number at all.
    fn nan(self) -> (r: bool)
        ensures
            r == self.is_nan(),
    {
        (self.bits / SINGLE_UNIT) % 256 == 255 && self.bits % SINGLE_UNIT != 0
    }

    /// The same number in double precision.
    pub fn to_double(self) -> (r: Double)
        ensures
            self.widens_to(r),
    {
        let sign: u64 = if self.bits >= SINGLE_SIGN { DOUBLE_SIGN } else { 0 };
        let exponent: u32 = (self.bits / SINGLE_UNIT) % 256;
        let fraction: u32 = self.bits % SINGLE_UNIT;
        if exponent == 255 {
            if fraction == 0 {
                double_of(sign, 2047, 0)
            } else {
                double_of(sign, 2047, 0x8_0000_0000_0000 + (fraction % 0x40_0000) as u64 * 0x2000_0000)
            }
        } else if exponent > 0 {
            proof {
                vstd::arithmetic::power2::lemma2_to64();
                let significand = SINGLE_UNIT as nat + self.fraction();
                let scale = pow2((exponent - 1) as nat);
                lemma_scale(0, (exponent + 895) as nat);
                lemma_pow2_adds((exponent - 1) as nat, 925);
                let wide_scale = pow2((exponent + 895) as nat);
                assert((significand * 0x2000_0000) * wide_scale == (significand * scale) * pow2(925))
                    by (nonlinear_arith)
                    requires
                        0x2000_0000 * wide_scale == scale * pow2(925),
                ;
            }
            let wide = double_of(sign, exponent as u64 + 896, fraction as u64 * 0x2000_0000);
            assert(DOUBLE_UNIT as nat + wide.fraction() == (SINGLE_UNIT as nat + self.fraction()) * 0x2000_0000);
            wide
        } else if fraction == 0 {
            assert(0nat * pow2(925) == 0);
            double_of(sign, 0, 0)
        } else {
            let mut significand: u32 = fraction;
            let mut shift: u64 = 0;
            proof {
                vstd::arithmetic::power2::lemma2_to64();
            }
            while significand < SINGLE_UNIT
                invariant
                    0 < fraction < SINGLE_UNIT,
                    fraction <= significand < 2 * SINGLE_UNIT,
                    significand == fraction * pow2(shift as nat),
                    shift <= 23,
                decreases 2 * SINGLE_UNIT - significand,
            {
                proof {
                    vstd::arithmetic::power2::lemma2_to64();
                    lemma_pow2_unfold((shift + 1) as nat);
                    let scale = pow2(shift as nat);
                    assert(fraction * (2 * scale) == 2 * (fraction * scale)) by (nonlinear_arith);
                    assert(fraction * scale >= scale) by (nonlinear_arith)
                        requires
                            fraction >= 1,
                    ;
                }
                significand = significand * 2;
                shift = shift + 1;
            }
            proof {
                let rest = (896 - shift) as nat;
                lemma_scale(shift as nat, rest);
                let scale = pow2(shift as nat);
                let wide_scale = pow2(rest);
                assert(((fraction * scale) * 0x2000_0000) * wide_scale == fraction * pow2(925))
                    by (nonlinear_arith)
                    requires
                        (scale * 0x2000_0000) * wide_scale == pow2(925),
                ;
            }
            let wide = double_of(sign, 897 - shift, (significand - SINGLE_UNIT) as u64 * 0x2000_0000);
            assert(DOUBLE_UNIT as nat + wide.fraction() == significand * 0x2000_0000);
            wide
        }
    }
}

impl PartialEq for Double {
    fn eq(&self, other: &Double) -> (r: bool) {
        let nan: bool = self.nan() || other.nan();
        !nan && (self.bits == other.bits || (self.is_zero() && other.is_zero()))
    }
}

impl vstd::std_specs::cmp::PartialEqSpecImpl for Double {
    open spec fn obeys_eq_spec() -> bool {
        true
    }

    open spec fn eq_spec(&self, other: &Double) -> bool {
        self.same(*other)
    }
}

impl PartialEq for Single {
    fn eq(&self, other: &Single) -> (r: bool) {
        let nan: bool = self.nan() || other.nan();
        !nan && (self.bits == other.bits || (self.is_zero() && other.is_zero()))
    }
}

impl vstd::std_specs::cmp::PartialEqSpecImpl for Single {
    open spec fn obeys_eq_spec() -> bool {
        true
    }

    open spec fn eq_spec(&self, other: &Single) -> bool {
        self.same(*other)
    }
}

/// `value` read as a number with sign, in 32 bits.
pub open spec fn signed(value: u32) -> int {
    if value <= i32::MAX {
        value as int
    } else {
        value - 0x1_0000_0000
    }
}

/// `value` read as a number without sign, in 32 bits.
pub open spec fn unsigned(value: i32) -> int {
    if value >= 0 {
        value as int
    } else {
        value + 0x1_0000_0000
    }
}

/// The same 32 bits as a number with sign.
pub fn to_signed(value: u32) -> (r: i32)
    ensures
        r == signed(value),
{
    assert(value > 0x7fff_ffffu32 ==> (value as i32) == value - 0x1_0000_0000) by (bit_vector);
    value as i32
}

/// The same 32 bits as a number without sign.
pub fn to_unsigned(value: i32) -> (r: u32)
    ensures
        r == unsigned(value),
{
    assert(value < 0i32 ==> (value as u32) == value + 0x1_0000_0000) by (bit_vector);
    value as u32
}

} // verus!
