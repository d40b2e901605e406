//! Non-negative fixed-point numbers with eighteen decimal places.
//!
//! Multiplication and division are carried out by `sp_arithmetic`'s
//! `FixedU128`; the contracts below state its results exactly.
use sp_arithmetic::traits::Saturating;
use sp_arithmetic::{FixedPointNumber, FixedU128};
use vstd::prelude::*;

verus! {

/// Inner units in one whole unit.
pub const ACCURACY: u128 = 1_000_000_000_000_000_000;

/// A non-negative fixed-point number: `inner / ACCURACY`.
#[derive(Clone, Copy, Debug, PartialEq, Eq, Structural)]
pub struct Fixed {
    pub inner: u128,
}

/// Fee rates and penalty rates.
pub type Rate = Fixed;

/// Collateral ratios, liquidation ratios and slippages.
pub type Ratio = Fixed;

/// Relative prices between two currencies.
pub type Price = Fixed;

/// Conversion rates from debit units to stablecoin value.
pub type ExchangeRate = Fixed;

/// `a * b / c` as `multiply_by_rational` computes it: rounded down, except
/// that a product beyond 128 bits divided by a divisor beyond 32 bits is
/// rounded to the nearest integer, a half going down.
pub open spec fn mul_div(a: int, b: int, c: int) -> int {
    let p = a * b;
    if p > u128::MAX && c > u32::MAX && p % c > c / 2 {
        p / c + 1
    } else {
        p / c
    }
}

/// `x` clamped to the largest `u128`.
pub open spec fn saturate(x: int) -> u128 {
    if x > u128::MAX {
        u128::MAX
    } else {
        x as u128
    }
}

/// `f * n` for a fixed-point `f` (given by its inner value) and an integer `n`.
pub open spec fn mul_int_spec(f: u128, n: u128) -> u128 {
    saturate(mul_div(f as int, n as int, ACCURACY as int))
}

/// Relies on `FixedU128::saturating_mul_int`: `multiply_by_rational(f, n, DIV)`,
/// or the largest value where that does not fit.
#[verifier::external_body]
fn fixed_saturating_mul_int(f: u128, n: u128) -> (r: u128)
    ensures
        r == mul_int_spec(f, n),
{
    FixedU128::from_inner(f).saturating_mul_int(n)
}

/// Relies on `FixedU128::saturating_mul_acc_int`: for an unsigned number,
/// `saturating_mul_int(n)` followed by a saturating addition of `n`.
#[verifier::external_body]
fn fixed_saturating_mul_acc_int(f: u128, n: u128) -> (r: u128)
    ensures
        r == saturate(mul_int_spec(f, n) + n),
{
    FixedU128::from_inner(f).saturating_mul_acc_int(n)
}

/// Relies on `FixedU128::saturating_mul` (`Saturating`): `checked_mul`, that is
/// `multiply_by_rational(a, b, DIV)`, or the largest value where that does not fit.
#[verifier::external_body]
fn fixed_saturating_mul(a: u128, b: u128) -> (r: u128)
    ensures
        r == mul_int_spec(a, b),
{
    FixedU128::from_inner(a).saturating_mul(FixedU128::from_inner(b)).into_inner()
}

/// Relies on `FixedU128::checked_from_rational`: `None` for a zero divisor,
/// else `multiply_by_rational(n, DIV, d)` where that fits.
#[verifier::external_body]
fn fixed_checked_from_rational(n: u128, d: u128) -> (r: Option<u128>)
    ensures
        d == 0 ==> r is None,
        d != 0 ==> (r is Some <==> mul_div(n as int, ACCURACY as int, d as int) <= u128::MAX),
        r matches Some(v) ==> v == mul_div(n as int, ACCURACY as int, d as int),
{
    FixedU128::checked_from_rational(n, d).map(|f: FixedU128| f.into_inner())
}

impl Fixed {
    /// The fixed-point number with the given inner value.
    pub fn from_inner(inner: u128) -> (r: Fixed)
        ensures
            r.inner == inner,
    {
        Fixed { inner }
    }

    /// Zero.
    pub fn zero() -> (r: Fixed)
        ensures
            r.inner == 0,
    {
        Fixed { inner: 0 }
    }

    /// One whole unit.
    pub fn one() -> (r: Fixed)
        ensures
            r.inner == ACCURACY,
    {
        Fixed { inner: ACCURACY }
    }

    /// The largest representable number.
    pub fn max_value() -> (r: Fixed)
        ensures
            r.inner == u128::MAX,
    {
        Fixed { inner: u128::MAX }
    }

    pub fn is_zero(&self) -> (r: bool)
        ensures
            r == (self.inner == 0),
    {
        self.inner == 0
    }

    /// Sum, clamped to the largest representable number.
    pub fn saturating_add(self, other: Fixed) -> (r: Fixed)
        ensures
            r.inner == saturate(self.inner + other.inner),
    {
        Fixed { inner: self.inner.saturating_add(other.inner) }
    }

    /// Product of two fixed-point numbers, clamped to the largest one.
    pub fn saturating_mul(self, other: Fixed) -> (r: Fixed)
        ensures
            r.inner == mul_int_spec(self.inner, other.inner),
    {
        Fixed { inner: fixed_saturating_mul(self.inner, other.inner) }
    }

    /// `self * n` for an integer `n`, clamped to the largest `u128`.
    pub fn saturating_mul_int(self, n: u128) -> (r: u128)
        ensures
            r == mul_int_spec(self.inner, n),
    {
        fixed_saturating_mul_int(self.inner, n)
    }

    /// `self * n + n` for an integer `n`, clamped to the largest `u128`.
    pub fn saturating_mul_acc_int(self, n: u128) -> (r: u128)
        ensures
            r == saturate(mul_int_spec(self.inner, n) + n),
    {
        fixed_saturating_mul_acc_int(self.inner, n)
    }

    /// `n / d`, or `None` where `d` is zero or the quotient does not fit.
    pub fn checked_from_rational(n: u128, d: u128) -> (r: Option<Fixed>)
        ensures
            d == 0 ==> r is None,
            d != 0 ==> (r is Some <==> mul_div(n as int, ACCURACY as int, d as int) <= u128::MAX),
            r matches Some(v) ==> v.inner == mul_div(n as int, ACCURACY as int, d as int),
    {
        match fixed_checked_from_rational(n, d) {
            Some(v) => Some(Fixed { inner: v }),
            None => None,
        }
    }
}

} // verus!
