//! Arbitrary-precision decimals.
//!
//! A [`Decimal`] is an integer (`unscaled`) together with a power of ten
//! (`scale`); it stands for `unscaled / 10^scale`. The library holds the
//! integer as sign and magnitude, the magnitude in base 2^32 with the least
//! significant limb first, and leaves the arithmetic itself to the
//! `bigdecimal` crate. Every operation is stated over [`DecimalView`].

use crate::text::characters;
use bigdecimal::num_bigint::{BigInt, Sign};
use bigdecimal::BigDecimal;
use std::str::FromStr;
use vstd::prelude::*;

verus! {

/// The largest distance of a scale from zero that the arithmetic accepts.
///
/// Aligning two operands multiplies one of them by ten to the difference of
/// their scales, a number of as many digits. With both scales inside
/// `-MAX_SCALE ..= MAX_SCALE` that power stays below `10^(2 * MAX_SCALE)`,
/// which is built in a fraction of a second, and no scale computation leaves
/// `i64`. Prices have scales below twenty, and a quotient adds about a
/// hundred.
pub const MAX_SCALE: i64 = 100000;

/// The mathematical content of a [`Decimal`]: the number `unscaled / 10^scale`.
pub struct DecimalView {
    pub unscaled: int,
    pub scale: int,
}

/// A decimal number of arbitrary precision.
#[derive(Debug)]
pub struct Decimal {
    /// Whether the number is below zero. Ignored when the magnitude is zero.
    pub negative: bool,
    /// The absolute value of the unscaled integer, base 2^32, least
    /// significant limb first. Limbs of zero at the end are allowed.
    pub magnitude: Vec<u32>,
    /// The number of decimal places: the value is `unscaled / 10^scale`.
    pub scale: i64,
}

/// The natural number that `limbs` spells in base 2^32, least significant
/// limb first.
pub open spec fn limbs_value(limbs: Seq<u32>) -> nat
    decreases limbs.len(),
{
    if limbs.len() == 0 {
        0
    } else {
        limbs[0] as nat + 4294967296 * limbs_value(limbs.drop_first())
    }
}

/// Ten to the power `n`.
pub open spec fn pow10(n: nat) -> nat
    decreases n,
{
    if n == 0 {
        1
    } else {
        10 * pow10((n - 1) as nat)
    }
}

impl View for Decimal {
    type V = DecimalView;

    open spec fn view(&self) -> DecimalView {
        DecimalView {
            unscaled: if self.negative {
                -(limbs_value(self.magnitude@) as int)
            } else {
                limbs_value(self.magnitude@) as int
            },
            scale: self.scale as int,
        }
    }
}

impl DecimalView {
    /// Whether the scale is one that the arithmetic accepts.
    pub open spec fn in_range(self) -> bool {
        -MAX_SCALE <= self.scale <= MAX_SCALE
    }

    /// The unscaled integer of the same number written with `scale` decimal
    /// places, for a `scale` that is not below the number's own.
    pub open spec fn unscaled_at(self, scale: int) -> int {
        self.unscaled * pow10((scale - self.scale) as nat)
    }

    /// Whether the number is one: `1`, `1.0`, `1.00` and so on.
    pub open spec fn is_one(self) -> bool {
        self.scale >= 0 && self.unscaled == pow10(self.scale as nat)
    }
}

/// The larger of two scales.
pub open spec fn wider_scale(a: DecimalView, b: DecimalView) -> int {
    if a.scale >= b.scale {
        a.scale
    } else {
        b.scale
    }
}

/// The exact sum, written with the larger of the two scales.
pub open spec fn sum_of(a: DecimalView, b: DecimalView) -> DecimalView {
    let scale = wider_scale(a, b);
    DecimalView { unscaled: a.unscaled_at(scale) + b.unscaled_at(scale), scale }
}

/// The exact difference, written with the larger of the two scales.
pub open spec fn difference_of(a: DecimalView, b: DecimalView) -> DecimalView {
    let scale = wider_scale(a, b);
    DecimalView { unscaled: a.unscaled_at(scale) - b.unscaled_at(scale), scale }
}

/// The exact product. A factor that is one hands the other factor back as it
/// is written; otherwise the unscaled integers multiply and the scales add.
pub open spec fn product_of(a: DecimalView, b: DecimalView) -> DecimalView {
    if a.is_one() {
        b
    } else if b.is_one() {
        a
    } else {
        DecimalView { unscaled: a.unscaled * b.unscaled, scale: a.scale + b.scale }
    }
}

/// The quotient that `bigdecimal` computes for `a / b`, for a `b` that is not
/// zero. It is exact where the division ends within one hundred digits and
/// rounded to one hundred digits where it does not.
pub uninterp spec fn quotient_of(a: DecimalView, b: DecimalView) -> DecimalView;

/// The decimal that `bigdecimal` reads from a text, if it reads one. It is
/// asked only for a text that is [`readable`].
pub uninterp spec fn decimal_of_text(text: Seq<char>) -> Option<DecimalView>;

/// The most characters that may follow the letter of an exponent. An
/// exponent of so many characters stays below `10^18`.
pub const MAX_EXPONENT_LENGTH: usize = 18;

/// The most characters of a text with an exponent. The scale is the number
/// of decimal places less the exponent; with both bounds that difference
/// stays inside `i64`.
pub const MAX_LENGTH_WITH_EXPONENT: usize = 4294967295;

/// The position of the first `e` or `E` at or after `from`, or the length of
/// the text where there is none.
pub open spec fn exponent_at(text: Seq<char>, from: int) -> int
    decreases text.len() - from,
{
    if from >= text.len() {
        text.len() as int
    } else if text[from] == 'e' || text[from] == 'E' {
        from
    } else {
        exponent_at(text, from + 1)
    }
}

/// Whether a text can be handed to `bigdecimal`: it has no exponent, or one
/// that is short, in a text that is not overlong.
pub open spec fn readable(text: Seq<char>) -> bool {
    let at = exponent_at(text, 0);
    at >= text.len() || (text.len() - at - 1 <= MAX_EXPONENT_LENGTH && text.len()
        <= MAX_LENGTH_WITH_EXPONENT)
}

/// The decimal that a text spells: what `bigdecimal` reads from it, where it
/// is readable.
pub open spec fn decimal_in(text: Seq<char>) -> Option<DecimalView> {
    if readable(text) {
        decimal_of_text(text)
    } else {
        None
    }
}

/// `bigdecimal::BigDecimal`. The conversions below hand values of it to the
/// arithmetic and take them back; nothing is seen of its inside.
#[verifier::external_type_specification]
#[verifier::external_body]
pub struct ExBigDecimal(BigDecimal);

/// Builds the `BigDecimal` with the same sign, limbs and scale, through
/// `BigInt::new` and `BigDecimal::new`.
#[verifier::external_body]
fn to_big(d: &Decimal) -> BigDecimal {
    let sign = if d.negative { Sign::Minus } else { Sign::Plus };
    BigDecimal::new(BigInt::new(sign, d.magnitude.clone()), d.scale)
}

/// Takes a `BigDecimal` apart into sign, limbs and scale, through
/// `BigDecimal::into_bigint_and_exponent` and `BigInt::to_u32_digits`.
#[verifier::external_body]
fn from_big(value: BigDecimal) -> Decimal {
    let (unscaled, scale) = value.into_bigint_and_exponent();
    let (sign, magnitude) = unscaled.to_u32_digits();
    Decimal { negative: sign == Sign::Minus, magnitude, scale }
}

/// `BigDecimal + BigDecimal`: the smaller scale is raised to the larger one
/// by a multiplication with a power of ten, then the integers are added.
#[verifier::external_body]
fn big_sum(a: &Decimal, b: &Decimal) -> (r: Decimal)
    requires
        a@.in_range(),
        b@.in_range(),
    ensures
        r@ == sum_of(a@, b@),
{
    from_big(to_big(a) + to_big(b))
}

/// `BigDecimal - BigDecimal`: the smaller scale is raised to the larger one
/// by a multiplication with a power of ten, then the integers are subtracted.
#[verifier::external_body]
fn big_difference(a: &Decimal, b: &Decimal) -> (r: Decimal)
    requires
        a@.in_range(),
        b@.in_range(),
    ensures
        r@ == difference_of(a@, b@),
{
    from_big(to_big(a) - to_big(b))
}

/// `BigDecimal * BigDecimal`: a factor equal to one returns the other factor
/// unchanged; otherwise the integers are multiplied and the scales added.
#[verifier::external_body]
fn big_product(a: &Decimal, b: &Decimal) -> (r: Decimal)
    requires
        a@.in_range(),
        b@.in_range(),
    ensures
        r@ == product_of(a@, b@),
{
    from_big(to_big(a) * to_big(b))
}

/// `BigDecimal / BigDecimal`, which panics on a divisor of zero. The result
/// depends on the two operands alone and is only named here.
#[verifier::external_body]
fn big_quotient(a: &Decimal, b: &Decimal) -> (r: Decimal)
    requires
        a@.in_range(),
        b@.in_range(),
        b@.unscaled != 0,
    ensures
        r@ == quotient_of(a@, b@),
{
    from_big(to_big(a) / to_big(b))
}

/// `BigDecimal::from_str`. The scale is the number of digits behind the
/// point less the exponent, a difference of two `i64` that may overflow; so
/// a text with a long exponent is left out. The result depends on the text
/// alone and is only named here.
#[verifier::external_body]
fn big_from_text(text: &str) -> (r: Option<Decimal>)
    requires
        readable(text@),
    ensures
        match r {
            Some(d) => decimal_of_text(text@) == Some(d@),
            None => decimal_of_text(text@) is None,
        },
{
    match BigDecimal::from_str(text) {
        Ok(value) => Some(from_big(value)),
        Err(_) => None,
    }
}

/// A magnitude is zero exactly when all its limbs are.
pub proof fn lemma_limbs_value_zero(limbs: Seq<u32>)
    ensures
        limbs_value(limbs) == 0 <==> (forall|i: int| 0 <= i < limbs.len() ==> limbs[i] == 0),
    decreases limbs.len(),
{
    if limbs.len() > 0 {
        let rest = limbs.drop_first();
        lemma_limbs_value_zero(rest);
        if limbs_value(limbs) == 0 {
            assert(limbs[0] == 0 && limbs_value(rest) == 0) by (nonlinear_arith)
                requires
                    limbs[0] as nat + 4294967296 * limbs_value(rest) == 0,
            ;
            assert forall|i: int| 0 <= i < limbs.len() implies limbs[i] == 0 by {
                if i > 0 {
                    assert(limbs[i] == rest[i - 1]);
                }
            }
        }
        if forall|i: int| 0 <= i < limbs.len() ==> limbs[i] == 0 {
            assert forall|i: int| 0 <= i < rest.len() implies rest[i] == 0 by {
                assert(rest[i] == limbs[i + 1]);
            }
        }
    }
}

impl Decimal {
    /// The number zero, with scale zero.
    pub fn zero() -> (r: Decimal)
        ensures
            r@ == (DecimalView { unscaled: 0, scale: 0 }),
    {
        Decimal { negative: false, magnitude: Vec::new(), scale: 0 }
    }

    /// Whether the number is zero, whatever its scale.
    pub fn is_zero(&self) -> (r: bool)
        ensures
            r == (self@.unscaled == 0),
    {
        let mut i: usize = 0;
        while i < self.magnitude.len()
            invariant
                i <= self.magnitude.len(),
                forall|j: int| 0 <= j < i ==> self.magnitude@[j] == 0,
            decreases self.magnitude.len() - i,
        {
            if self.magnitude[i] != 0 {
                proof {
                    lemma_limbs_value_zero(self.magnitude@);
                }
                return false;
            }
            i += 1;
        }
        proof {
            lemma_limbs_value_zero(self.magnitude@);
        }
        true
    }

    /// Whether the scale is one that the arithmetic accepts.
    pub fn in_range(&self) -> (r: bool)
        ensures
            r == self@.in_range(),
    {
        -MAX_SCALE <= self.scale && self.scale <= MAX_SCALE
    }

    /// The sum of two decimals, exact; `None` where a scale is out of range.
    pub fn checked_add(&self, other: &Decimal) -> (r: Option<Decimal>)
        ensures
            r is Some <==> self@.in_range() && other@.in_range(),
            r matches Some(d) ==> d@ == sum_of(self@, other@),
    {
        if self.in_range() && other.in_range() {
            Some(big_sum(self, other))
        } else {
            None
        }
    }

    /// The difference of two decimals, exact; `None` where a scale is out of
    /// range.
    pub fn checked_sub(&self, other: &Decimal) -> (r: Option<Decimal>)
        ensures
            r is Some <==> self@.in_range() && other@.in_range(),
            r matches Some(d) ==> d@ == difference_of(self@, other@),
    {
        if self.in_range() && other.in_range() {
            Some(big_difference(self, other))
        } else {
            None
        }
    }

    /// The product of two decimals, exact; `None` where a scale is out of
    /// range.
    pub fn checked_mul(&self, other: &Decimal) -> (r: Option<Decimal>)
        ensures
            r is Some <==> self@.in_range() && other@.in_range(),
            r matches Some(d) ==> d@ == product_of(self@, other@),
    {
        if self.in_range() && other.in_range() {
            Some(big_product(self, other))
        } else {
            None
        }
    }

    /// The quotient of two decimals; `None` where the divisor is zero or a
    /// scale is out of range.
    pub fn checked_div(&self, other: &Decimal) -> (r: Option<Decimal>)
        ensures
            r is Some <==> self@.in_range() && other@.in_range() && other@.unscaled != 0,
            r matches Some(d) ==> d@ == quotient_of(self@, other@),
    {
        if self.in_range() && other.in_range() && !other.is_zero() {
            Some(big_quotient(self, other))
        } else {
            None
        }
    }

    /// Reads a decimal such as `-12.50` or `1.25e3` from its text. An
    /// exponent of more than eighteen characters is not read.
    pub fn parse(text: &str) -> (r: Option<Decimal>)
        ensures
            match r {
                Some(d) => decimal_in(text@) == Some(d@),
                None => decimal_in(text@) is None,
            },
    {
        if is_readable(text) {
            big_from_text(text)
        } else {
            None
        }
    }
}

/// Whether the text has no exponent, or a short one.
fn is_readable(text: &str) -> (r: bool)
    ensures
        r == readable(text@),
{
    let chars = characters(text);
    let mut i: usize = 0;
    while i < chars.len()
        invariant
            i <= chars.len(),
            chars@ == text@,
            exponent_at(text@, 0) == exponent_at(text@, i as int),
        decreases chars.len() - i,
    {
        if chars[i] == 'e' || chars[i] == 'E' {
            return chars.len() - i - 1 <= MAX_EXPONENT_LENGTH && chars.len()
                <= MAX_LENGTH_WITH_EXPONENT;
        }
        i += 1;
    }
    true
}

impl Clone for Decimal {
    fn clone(&self) -> (r: Decimal)
        ensures
            r@ == self@,
    {
        Decimal { negative: self.negative, magnitude: self.magnitude.clone(), scale: self.scale }
    }
}

impl Default for Decimal {
    fn default() -> (r: Decimal)
        ensures
            r@ == (DecimalView { unscaled: 0, scale: 0 }),
    {
        Decimal::zero()
    }
}

} // verus!
