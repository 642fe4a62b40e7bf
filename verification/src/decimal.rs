//! Fixed-point prices.
use vstd::prelude::*;

verus! {

/// A number with eighteen decimal places, held as a count of its last place.
#[derive(Debug, Clone, Copy, PartialEq, Eq)]
pub struct Decimal {
    pub atomics: u128,
}

/// How many units of the last place make one.
pub open spec fn one() -> nat {
    1_000_000_000_000_000_000
}

/// The quotient of two amounts, rounded down to the last place.
pub open spec fn ratio(numerator: nat, denominator: nat) -> nat {
    numerator * one() / denominator
}

/// The product of two numbers, rounded down to the last place.
pub open spec fn product(a: nat, b: nat) -> nat {
    a * b / one()
}

impl View for Decimal {
    type V = nat;

    open spec fn view(&self) -> nat {
        self.atomics as nat
    }
}

impl Decimal {
    pub fn zero() -> (zero: Decimal)
        ensures
            zero@ == 0,
    {
        Decimal { atomics: 0 }
    }

    /// `numerator / denominator`, rounded down; `None` where the denominator is
    /// zero or the quotient does not fit.
    pub fn checked_from_ratio(numerator: u128, denominator: u128) -> (quotient: Option<Decimal>)
        ensures
            denominator == 0 || ratio(numerator as nat, denominator as nat) > u128::MAX
                ==> quotient is None,
            denominator != 0 && ratio(numerator as nat, denominator as nat) <= u128::MAX ==> {
                &&& quotient is Some
                &&& quotient->0@ == ratio(numerator as nat, denominator as nat)
            },
    {
        match ratio_atomics(numerator, denominator) {
            Some(atomics) => Some(Decimal { atomics }),
            None => None,
        }
    }

    /// The product, rounded down; `None` where it does not fit.
    pub fn checked_mul(self, other: Decimal) -> (result: Option<Decimal>)
        ensures
            product(self@, other@) > u128::MAX ==> result is None,
            product(self@, other@) <= u128::MAX ==> result is Some && result->0@ == product(
                self@,
                other@,
            ),
    {
        match product_atomics(self.atomics, other.atomics) {
            Some(atomics) => Some(Decimal { atomics }),
            None => None,
        }
    }

    /// The sum; `None` where it does not fit.
    pub fn checked_add(self, other: Decimal) -> (result: Option<Decimal>)
        ensures
            self@ + other@ > u128::MAX ==> result is None,
            self@ + other@ <= u128::MAX ==> result is Some && result->0@ == self@ + other@,
    {
        match self.atomics.checked_add(other.atomics) {
            Some(atomics) => Some(Decimal { atomics }),
            None => None,
        }
    }
}

/// A quotient is the largest count of the eighteenth place that does not exceed
/// the fraction, and a product the largest that does not exceed what two numbers
/// come to.
pub proof fn quotients_and_products_are_rounded_down(a: nat, b: nat)
    ensures
        b > 0 ==> ratio(a, b) * b <= a * 1_000_000_000_000_000_000 < (ratio(a, b) + 1) * b,
        product(a, b) * 1_000_000_000_000_000_000 <= a * b < (product(a, b) + 1)
            * 1_000_000_000_000_000_000,
{
    let n = a * 1_000_000_000_000_000_000;
    if b > 0 {
        let q = ratio(a, b);
        assert(q * b <= n < (q + 1) * b) by (nonlinear_arith)
            requires
                q == n / b,
                b > 0,
        ;
    }
}

/// `cosmwasm_std::Decimal::checked_from_ratio`, on atomics: the quotient
/// rounded down, or `None` for its errors, a zero denominator or a quotient
/// beyond 128 bits.
#[verifier::external_body]
fn ratio_atomics(numerator: u128, denominator: u128) -> (atomics: Option<u128>)
    ensures
        denominator == 0 || ratio(numerator as nat, denominator as nat) > u128::MAX
            ==> atomics is None,
        denominator != 0 && ratio(numerator as nat, denominator as nat) <= u128::MAX ==> atomics
            == Some(ratio(numerator as nat, denominator as nat) as u128),
{
    let quotient = cosmwasm_std::Decimal::checked_from_ratio(numerator, denominator);
    quotient.ok().map(|quotient| quotient.atomics().u128())
}

/// `cosmwasm_std::Decimal::checked_mul`, on atomics: the product rounded down,
/// or `None` for its error, a product beyond 128 bits.
#[verifier::external_body]
fn product_atomics(a: u128, b: u128) -> (atomics: Option<u128>)
    ensures
        product(a as nat, b as nat) > u128::MAX ==> atomics is None,
        product(a as nat, b as nat) <= u128::MAX ==> atomics == Some(
            product(a as nat, b as nat) as u128,
        ),
{
    let result = cosmwasm_std::Decimal::raw(a).checked_mul(cosmwasm_std::Decimal::raw(b));
    result.ok().map(|result| result.atomics().u128())
}

} // verus!
