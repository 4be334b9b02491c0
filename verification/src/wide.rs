//! Multiply-then-divide on `u128` operands through an arbitrary-precision product.

use num_bigint::BigUint;
use num_traits::ToPrimitive;
use vstd::prelude::*;

use crate::error::RateError;
use crate::limits::MAX_RATE;
use crate::rate::PairRate;

verus! {

/// `num_bigint::BigUint`, an unsigned integer of any size, carried through as an
/// opaque value.
#[verifier::external_type_specification]
#[verifier::external_body]
pub struct ExBigUint(num_bigint::BigUint);

/// The natural number that a `BigUint` stands for.
pub uninterp spec fn big_value(n: BigUint) -> nat;

/// Calls `BigUint::from` on a `u128`. Taken on trust: the result stands for the
/// same number.
#[verifier::external_body]
fn big_from_u128(n: u128) -> (r: BigUint)
    ensures
        big_value(r) == n,
{
    BigUint::from(n)
}

/// Calls `BigUint * BigUint`. Taken on trust: the result is the exact product,
/// which no width limits.
#[verifier::external_body]
fn big_mul(a: BigUint, b: BigUint) -> (r: BigUint)
    ensures
        big_value(r) == big_value(a) * big_value(b),
{
    a * b
}

/// Calls `BigUint / BigUint`. Taken on trust: the result is the quotient rounded
/// down. The operator panics on a zero divisor, which the precondition leaves out.
#[verifier::external_body]
fn big_div(a: BigUint, b: BigUint) -> (r: BigUint)
    requires
        big_value(b) != 0,
    ensures
        big_value(r) == big_value(a) / big_value(b),
{
    a / b
}

/// Calls `ToPrimitive::to_u128` on a `BigUint`. Taken on trust: the result is the
/// number itself where it fits in 128 bits, and `None` where it does not.
#[verifier::external_body]
fn big_to_u128(n: &BigUint) -> (r: Option<u128>)
    ensures
        r == (if big_value(*n) <= u128::MAX {
            Some(big_value(*n) as u128)
        } else {
            None
        }),
{
    n.to_u128()
}

/// `amount * multiplier / divisor`, rounded down, as a mathematical integer.
pub open spec fn mul_div(amount: nat, multiplier: nat, divisor: nat) -> nat {
    (amount * multiplier) / divisor
}

/// What `safe_multiply_divide` returns: the first check that fails names the error,
/// and otherwise the floor quotient, provided it fits in `u128`.
pub open spec fn spec_safe_multiply_divide(amount: u128, multiplier: u128, divisor: u128) -> Result<
    u128,
    RateError,
> {
    if divisor == 0 {
        Err(RateError::DivisionByZero)
    } else if amount > MAX_RATE || multiplier > MAX_RATE {
        Err(RateError::OperandTooLarge)
    } else if mul_div(amount as nat, multiplier as nat, divisor as nat) > u128::MAX {
        Err(RateError::ResultOverflowsRange)
    } else {
        Ok(mul_div(amount as nat, multiplier as nat, divisor as nat) as u128)
    }
}

impl PairRate {
    /// Computes `floor(amount * multiplier / divisor)` without overflow of the
    /// intermediate product, which may need up to 254 bits.
    pub fn safe_multiply_divide(amount: u128, multiplier: u128, divisor: u128) -> (r: Result<
        u128,
        RateError,
    >)
        ensures
            r == spec_safe_multiply_divide(amount, multiplier, divisor),
    {
        if divisor == 0 {
            return Err(RateError::DivisionByZero);
        }
        if amount > MAX_RATE || multiplier > MAX_RATE {
            return Err(RateError::OperandTooLarge);
        }
        let product = big_mul(big_from_u128(amount), big_from_u128(multiplier));
        let quotient = big_div(product, big_from_u128(divisor));
        match big_to_u128(&quotient) {
            Some(narrow) => Ok(narrow),
            None => Err(RateError::ResultOverflowsRange),
        }
    }
}

} // verus!
