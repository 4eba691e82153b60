//! Exact amount arithmetic: floor of a product over a divisor without
//! intermediate overflow, and 18-place fixed-point ratios.

use vstd::prelude::*;

verus! {

/// One whole unit of a [`Decimal`], in atomics (10^18).
pub const DECIMAL_FRACTIONAL: u128 = 1_000_000_000_000_000_000;

/// `floor(a * numerator / denominator)` where that is defined and fits in
/// 128 bits.
pub open spec fn ratio_floor(a: u128, numerator: u128, denominator: u128) -> Option<u128> {
    if denominator == 0 {
        None
    } else if (a * numerator) / (denominator as int) > u128::MAX {
        None
    } else {
        Some(((a * numerator) / (denominator as int)) as u128)
    }
}

/// Calls `cosmwasm_std::Uint128::checked_multiply_ratio`. That method widens
/// the product to 256 bits, divides, and narrows again; it reports a zero
/// denominator and a quotient above `u128::MAX` as errors, which this wrapper
/// folds into `None`.
#[verifier::external_body]
fn checked_multiply_ratio(a: u128, numerator: u128, denominator: u128) -> (r: Option<u128>)
    ensures
        r == ratio_floor(a, numerator, denominator),
{
    match cosmwasm_std::Uint128::new(a).checked_multiply_ratio(numerator, denominator) {
        Ok(v) => Some(v.u128()),
        Err(_) => None,
    }
}

/// `floor(a * numerator / denominator)`, or `None` when the denominator is
/// zero or the quotient does not fit.
pub fn try_multiply_ratio(a: u128, numerator: u128, denominator: u128) -> (r: Option<u128>)
    ensures
        r == ratio_floor(a, numerator, denominator),
{
    checked_multiply_ratio(a, numerator, denominator)
}

/// A quotient of a product by a divisor no smaller than one factor never
/// exceeds the other factor.
pub proof fn lemma_ratio_bounded(a: u128, numerator: u128, denominator: u128)
    requires
        denominator > 0,
        numerator <= denominator,
    ensures
        (a * numerator) / (denominator as int) <= a,
        ratio_floor(a, numerator, denominator) is Some,
        ratio_floor(a, numerator, denominator).unwrap() <= a,
{
    assert(a * numerator <= a * denominator) by (nonlinear_arith)
        requires
            numerator <= denominator,
            a >= 0,
    ;
    assert((a * numerator) / (denominator as int) <= a) by (nonlinear_arith)
        requires
            a * numerator <= a * denominator,
            denominator > 0,
            a >= 0,
            numerator >= 0,
    ;
    assert((a * numerator) / (denominator as int) >= 0) by (nonlinear_arith)
        requires
            denominator > 0,
            a >= 0,
            numerator >= 0,
    ;
}

/// `floor(a * numerator / denominator)` for a proper fraction: always
/// defined, never more than `a`.
pub fn multiply_ratio(a: u128, numerator: u128, denominator: u128) -> (r: u128)
    requires
        denominator > 0,
        (a * numerator) / (denominator as int) <= u128::MAX,
    ensures
        r == (a * numerator) / (denominator as int),
{
    match checked_multiply_ratio(a, numerator, denominator) {
        Some(v) => v,
        None => {
            proof {
                assert(false);
            }
            0
        },
    }
}

/// A non-negative fixed-point number with 18 fractional digits, held as its
/// count of atomics: the value is `atomics / 10^18`.
#[derive(Debug, PartialEq, Eq, Copy, Clone)]
pub struct Decimal {
    pub atomics: u128,
}

/// The decimal text of a [`Decimal`] with the given atomics: the whole part,
/// then, unless the fraction is zero, a point and the fraction without
/// trailing zeros.
pub uninterp spec fn decimal_text(atomics: u128) -> Seq<char>;

/// Calls the `Display` implementation of `cosmwasm_std::Decimal` on the
/// decimal with these atomics. The text depends on the atomics alone.
#[verifier::external_body]
fn render_decimal(atomics: u128) -> (s: String)
    ensures
        s@ == decimal_text(atomics),
{
    cosmwasm_std::Decimal::raw(atomics).to_string()
}

impl Decimal {
    pub fn raw(atomics: u128) -> (d: Decimal)
        ensures
            d.atomics == atomics,
    {
        Decimal { atomics }
    }

    pub fn zero() -> (d: Decimal)
        ensures
            d.atomics == 0,
    {
        Decimal { atomics: 0 }
    }

    pub fn one() -> (d: Decimal)
        ensures
            d.atomics == DECIMAL_FRACTIONAL,
    {
        Decimal { atomics: DECIMAL_FRACTIONAL }
    }

    /// `x` hundredths.
    pub fn percent(x: u64) -> (d: Decimal)
        ensures
            d.atomics == x * 10_000_000_000_000_000,
    {
        let wide: u128 = x as u128;
        Decimal { atomics: wide * 10_000_000_000_000_000u128 }
    }

    /// `x` thousandths.
    pub fn permille(x: u64) -> (d: Decimal)
        ensures
            d.atomics == x * 1_000_000_000_000_000,
    {
        let wide: u128 = x as u128;
        Decimal { atomics: wide * 1_000_000_000_000_000u128 }
    }

    pub open spec fn spec_is_zero(&self) -> bool {
        self.atomics == 0
    }

    #[verifier::when_used_as_spec(spec_is_zero)]
    pub fn is_zero(&self) -> (b: bool)
        ensures
            b == (self.atomics == 0),
    {
        self.atomics == 0
    }

    /// Numerator of the value seen as a fraction over [`DECIMAL_FRACTIONAL`].
    pub fn numerator(&self) -> (n: u128)
        ensures
            n == self.atomics,
    {
        self.atomics
    }

    pub fn denominator(&self) -> (n: u128)
        ensures
            n == DECIMAL_FRACTIONAL,
    {
        DECIMAL_FRACTIONAL
    }

    /// The decimal nearest below `numerator / denominator`, or `None` when
    /// the denominator is zero or the value is out of range.
    pub fn checked_from_ratio(numerator: u128, denominator: u128) -> (r: Option<Decimal>)
        ensures
            r is Some <==> ratio_floor(numerator, DECIMAL_FRACTIONAL, denominator) is Some,
            r is Some ==> r.unwrap().atomics == ratio_floor(
                numerator,
                DECIMAL_FRACTIONAL,
                denominator,
            ).unwrap(),
    {
        match checked_multiply_ratio(numerator, DECIMAL_FRACTIONAL, denominator) {
            Some(atomics) => Some(Decimal { atomics }),
            None => None,
        }
    }

    /// The text form, as the host prints it in event attributes.
    pub fn to_string(&self) -> (s: String)
        ensures
            s@ == decimal_text(self.atomics),
    {
        render_decimal(self.atomics)
    }
}

/// The share `ratio` of `amount`, rounded down.
pub open spec fn decimal_share(amount: u128, ratio: Decimal) -> int {
    (amount * ratio.atomics) / (DECIMAL_FRACTIONAL as int)
}

/// A share at a ratio of at most one never exceeds the amount.
pub proof fn lemma_share_bounded(amount: u128, ratio: Decimal)
    requires
        ratio.atomics <= DECIMAL_FRACTIONAL,
    ensures
        0 <= decimal_share(amount, ratio) <= amount,
{
    lemma_ratio_bounded(amount, ratio.atomics, DECIMAL_FRACTIONAL);
    assert((amount * ratio.atomics) / (DECIMAL_FRACTIONAL as int) >= 0) by (nonlinear_arith)
        requires
            amount >= 0,
            ratio.atomics >= 0,
    ;
}

/// `floor(amount * ratio)`.
pub fn mul_decimal(amount: u128, ratio: Decimal) -> (r: u128)
    requires
        decimal_share(amount, ratio) <= u128::MAX,
    ensures
        r == decimal_share(amount, ratio),
{
    multiply_ratio(amount, ratio.atomics, DECIMAL_FRACTIONAL)
}

/// `floor(amount * ratio)`, or `None` when that does not fit in 128 bits.
pub fn checked_mul_decimal(amount: u128, ratio: Decimal) -> (r: Option<u128>)
    ensures
        r == if decimal_share(amount, ratio) <= u128::MAX {
            Some(decimal_share(amount, ratio) as u128)
        } else {
            None
        },
{
    checked_multiply_ratio(amount, ratio.atomics, DECIMAL_FRACTIONAL)
}

/// The decimal digits of an amount, as the host prints it in event
/// attributes.
pub open spec fn shows_amount(text: String, amount: u128) -> bool {
    vstd::string::to_string_from_display_ensures::<u128>(&amount, text)
}

/// The decimal digits of a count.
pub open spec fn shows_count(text: String, count: u64) -> bool {
    vstd::string::to_string_from_display_ensures::<u64>(&count, text)
}

pub fn amount_to_string(amount: u128) -> (s: String)
    ensures
        shows_amount(s, amount),
{
    amount.to_string()
}

pub fn count_to_string(count: u64) -> (s: String)
    ensures
        shows_count(s, count),
{
    count.to_string()
}

} // verus!
