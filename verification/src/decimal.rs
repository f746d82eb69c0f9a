//! Decimal numbers as they stand in a document: a whole number of units of a
//! power of ten.  Amounts, rates and counts are compared exactly, without
//! rounding.

use vstd::prelude::*;

verus! {

/// The largest number of digits after the decimal point that a [`Decimal`]
/// can have.
pub const MAX_SCALE: u8 = 18;

/// Ten to the power `exponent`.
pub open spec fn pow10(exponent: nat) -> int
    decreases exponent,
{
    if exponent == 0 {
        1
    } else {
        10 * pow10((exponent - 1) as nat)
    }
}

/// Powers of ten are positive and grow with the exponent.
proof fn lemma_pow10_grows(lower: nat, upper: nat)
    requires
        lower <= upper,
    ensures
        1 <= pow10(lower) <= pow10(upper),
    decreases upper,
{
    if lower < upper {
        lemma_pow10_grows(lower, (upper - 1) as nat);
    } else if upper > 0 {
        lemma_pow10_grows((lower - 1) as nat, (upper - 1) as nat);
    }
}

/// The largest power of ten that a scale can stand for.
proof fn lemma_pow10_of_max_scale()
    ensures
        pow10(18) == 1_000_000_000_000_000_000,
{
    reveal_with_fuel(pow10, 19);
}

/// The number `mantissa / 10^scale`, with `scale` at most [`MAX_SCALE`].
#[derive(Debug, Default, Clone, Copy, PartialEq, Eq)]
pub struct Decimal {
    mantissa: i64,
    scale: u8,
}

impl Decimal {
    #[verifier::type_invariant]
    spec fn scale_in_range(self) -> bool {
        self.scale <= MAX_SCALE
    }

    /// The digits of the number, as a whole number.
    pub closed spec fn mantissa_spec(self) -> int {
        self.mantissa as int
    }

    /// The number of digits that stand after the decimal point.
    pub closed spec fn scale_spec(self) -> nat {
        self.scale as nat
    }

    /// Whether `self` is at most `other`, as numbers: the mantissas are
    /// compared after both are brought to the sum of the two scales.
    pub open spec fn at_most(self, other: Decimal) -> bool {
        self.mantissa_spec() * pow10(other.scale_spec()) <= other.mantissa_spec() * pow10(
            self.scale_spec(),
        )
    }

    /// The number `mantissa / 10^scale`; none where `scale` exceeds
    /// [`MAX_SCALE`].
    pub fn new(mantissa: i64, scale: u8) -> (res: Option<Decimal>)
        ensures
            res.is_some() == (scale <= MAX_SCALE),
            res matches Some(number) ==> number.mantissa_spec() == mantissa && number.scale_spec()
                == scale,
    {
        if scale <= MAX_SCALE {
            Some(Decimal { mantissa, scale })
        } else {
            None
        }
    }

    /// The whole number `value`.
    pub closed spec fn whole_spec(value: i64) -> Decimal {
        Decimal { mantissa: value, scale: 0 }
    }

    /// The whole number `value`.
    pub fn whole(value: i64) -> (number: Decimal)
        ensures
            number == Decimal::whole_spec(value),
            number.mantissa_spec() == value,
            number.scale_spec() == 0,
    {
        Decimal { mantissa: value, scale: 0 }
    }

    /// The digits of the number, as a whole number.
    pub fn mantissa(&self) -> (digits: i64)
        ensures
            digits == self.mantissa_spec(),
    {
        self.mantissa
    }

    /// The number of digits that stand after the decimal point.
    pub fn scale(&self) -> (places: u8)
        ensures
            places == self.scale_spec(),
            places <= MAX_SCALE,
    {
        proof {
            use_type_invariant(self);
        }
        self.scale
    }

    /// Whether `self` is at most `other`, as numbers.
    pub fn le(&self, other: &Decimal) -> (holds: bool)
        ensures
            holds == self.at_most(*other),
    {
        let left_factor = power_of_ten(other.scale());
        let right_factor = power_of_ten(self.scale());
        let left_digits: i128 = self.mantissa as i128;
        let right_digits: i128 = other.mantissa as i128;
        proof {
            lemma_product_fits(left_digits as int, left_factor as int);
            lemma_product_fits(right_digits as int, right_factor as int);
        }
        left_digits * left_factor <= right_digits * right_factor
    }
}

/// Whole numbers compare as the integers they are.
pub proof fn law_whole_numbers_compare_as_integers(left: i64, right: i64)
    ensures
        Decimal::whole_spec(left).at_most(Decimal::whole_spec(right)) == (left <= right),
        Decimal::whole_spec(left).mantissa_spec() == left,
        Decimal::whole_spec(left).scale_spec() == 0,
{
    assert(pow10(0) == 1);
    assert(left * 1 == left && right * 1 == right);
}

/// A product of a mantissa and a power of ten up to the largest scale stays
/// far inside the range of 128-bit integers.
proof fn lemma_product_fits(digits: int, factor: int)
    requires
        -0x8000_0000_0000_0000 <= digits <= 0x7fff_ffff_ffff_ffff,
        1 <= factor <= 1_000_000_000_000_000_000,
    ensures
        -0x8000_0000_0000_0000 * 1_000_000_000_000_000_000 <= digits * factor
            <= 0x8000_0000_0000_0000 * 1_000_000_000_000_000_000,
{
    assert(-0x8000_0000_0000_0000 * 1_000_000_000_000_000_000 <= digits * factor
        <= 0x8000_0000_0000_0000 * 1_000_000_000_000_000_000) by (nonlinear_arith)
        requires
            -0x8000_0000_0000_0000 <= digits <= 0x7fff_ffff_ffff_ffff,
            1 <= factor <= 1_000_000_000_000_000_000,
    ;
}

/// Ten to the power `scale`.
pub fn power_of_ten(scale: u8) -> (power: i128)
    requires
        scale <= MAX_SCALE,
    ensures
        power == pow10(scale as nat),
        1 <= power <= 1_000_000_000_000_000_000,
{
    let mut power: i128 = 1;
    let mut done: u8 = 0;
    proof {
        lemma_pow10_of_max_scale();
    }
    while done < scale
        invariant
            done <= scale <= MAX_SCALE,
            power == pow10(done as nat),
            pow10(18) == 1_000_000_000_000_000_000,
            1 <= power <= pow10(18),
        decreases scale - done,
    {
        proof {
            lemma_pow10_grows((done + 1) as nat, 18);
        }
        power = power * 10;
        done += 1;
    }
    power
}

} // verus!
