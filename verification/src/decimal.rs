//! Fixed-point decimals with 18 fractional digits, and the truncating product
//! of an amount with such a decimal.

use vstd::prelude::*;

verus! {

/// The number of atomic units that make up 1.0.
pub const DECIMAL_FRACTIONAL: u128 = 1_000_000_000_000_000_000u128;

/// A non-negative fixed-point number: `atomics / 10^18`.
#[derive(Clone, Copy, Debug, PartialEq, Eq, Structural)]
pub struct Decimal {
    pub atomics: u128,
}

/// `amount * numerator / denominator`, rounded toward zero.
pub open spec fn ratio_floor(amount: int, numerator: int, denominator: int) -> int {
    (amount * numerator) / denominator
}

/// The part of `amount` that the portion `atomics / 10^18` selects, rounded
/// toward zero.
pub open spec fn portion_of(amount: u128, portion: Decimal) -> int {
    ratio_floor(amount as int, portion.atomics as int, DECIMAL_FRACTIONAL as int)
}

/// Two portions make a valid split when they add up to exactly 1.0.
pub open spec fn portions_sum_to_one(a: Decimal, b: Decimal) -> bool {
    a.atomics + b.atomics == DECIMAL_FRACTIONAL
}

/// `cosmwasm_std::Uint128::multiply_ratio`: the product of `amount` and
/// `numerator`, taken at full width, divided by `denominator` and rounded
/// toward zero. The outside function panics on a zero denominator and on a
/// quotient that does not fit 128 bits; both are excluded here.
#[verifier::external_body]
fn multiply_ratio(amount: u128, numerator: u128, denominator: u128) -> (r: u128)
    requires
        denominator != 0,
        ratio_floor(amount as int, numerator as int, denominator as int) <= u128::MAX,
    ensures
        r == ratio_floor(amount as int, numerator as int, denominator as int),
{
    cosmwasm_std::Uint128::new(amount).multiply_ratio(numerator, denominator).u128()
}

/// A portion of at most 1.0 never selects more than the whole amount.
pub proof fn lemma_portion_bounded(amount: u128, portion: Decimal)
    requires
        portion.atomics <= DECIMAL_FRACTIONAL,
    ensures
        0 <= portion_of(amount, portion) <= amount,
{
    let a = amount as int;
    let p = portion.atomics as int;
    let d = DECIMAL_FRACTIONAL as int;
    assert(0 <= a * p <= a * d) by (nonlinear_arith)
        requires
            0 <= a,
            0 <= p <= d,
    ;
    assert(0 <= (a * p) / d <= a) by (nonlinear_arith)
        requires
            0 <= a * p <= a * d,
            d > 0,
    ;
}

/// The two parts of a valid split never add up to more than the amount, and
/// fall short of it by less than two units.
pub proof fn lemma_split_within_amount(amount: u128, a: Decimal, b: Decimal)
    requires
        portions_sum_to_one(a, b),
    ensures
        0 <= portion_of(amount, a),
        0 <= portion_of(amount, b),
        portion_of(amount, a) + portion_of(amount, b) <= amount,
        amount - 1 <= portion_of(amount, a) + portion_of(amount, b),
{
    let n = amount as int;
    let x = a.atomics as int;
    let y = b.atomics as int;
    let d = DECIMAL_FRACTIONAL as int;
    lemma_portion_bounded(amount, a);
    lemma_portion_bounded(amount, b);
    assert(n * x + n * y == n * d) by (nonlinear_arith)
        requires
            x + y == d,
    ;
    let p = n * x;
    let q = n * y;
    assert(p / d + q / d <= n && n - 1 <= p / d + q / d) by (nonlinear_arith)
        requires
            p + q == n * d,
            d > 0,
            0 <= p,
            0 <= q,
    ;
}

impl Decimal {
    /// 1.0
    pub fn one() -> (r: Decimal)
        ensures
            r.atomics == DECIMAL_FRACTIONAL,
    {
        Decimal { atomics: DECIMAL_FRACTIONAL }
    }

    /// 0.0
    pub fn zero() -> (r: Decimal)
        ensures
            r.atomics == 0,
    {
        Decimal { atomics: 0 }
    }

    /// The decimal `numerator / denominator`, rounded toward zero at the 18th
    /// fractional digit.
    pub fn from_ratio(numerator: u128, denominator: u128) -> (r: Decimal)
        requires
            denominator != 0,
            ratio_floor(numerator as int, DECIMAL_FRACTIONAL as int, denominator as int)
                <= u128::MAX,
        ensures
            r.atomics == ratio_floor(
                numerator as int,
                DECIMAL_FRACTIONAL as int,
                denominator as int,
            ),
    {
        Decimal { atomics: multiply_ratio(numerator, DECIMAL_FRACTIONAL, denominator) }
    }

    /// Whether this decimal is 0.0.
    pub fn is_zero(&self) -> (r: bool)
        ensures
            r == (self.atomics == 0),
    {
        self.atomics == 0
    }
}

/// Whether two portions add up to exactly 1.0. The sum is taken without
/// wrapping: a pair whose sum exceeds 128 bits is not a valid split.
pub fn is_unit_split(a: Decimal, b: Decimal) -> (r: bool)
    ensures
        r == portions_sum_to_one(a, b),
{
    a.atomics <= DECIMAL_FRACTIONAL && b.atomics == DECIMAL_FRACTIONAL - a.atomics
}

/// The part of `amount` selected by `portion`, rounded toward zero.
pub fn apply_portion(amount: u128, portion: Decimal) -> (r: u128)
    requires
        portion_of(amount, portion) <= u128::MAX,
    ensures
        r == portion_of(amount, portion),
{
    if amount == 0 || portion.atomics == 0 {
        assert(portion_of(amount, portion) == 0) by (nonlinear_arith)
            requires
                amount == 0 || portion.atomics == 0,
                portion_of(amount, portion) == (amount as int * portion.atomics as int) / (
                DECIMAL_FRACTIONAL as int),
                DECIMAL_FRACTIONAL as int > 0,
        ;
        return 0;
    }
    multiply_ratio(amount, portion.atomics, DECIMAL_FRACTIONAL)
}

} // verus!
