//! Rescaling of an integer amount between two decimal precisions.

use vstd::prelude::*;

use crate::error::{DecimalsSlot, RateError};
use crate::limits::{MAX_DECIMALS, MAX_DECIMAL_DIFF};
use crate::rate::PairRate;

verus! {

/// Ten to the power of `exponent`.
pub open spec fn pow10(exponent: nat) -> nat
    decreases exponent,
{
    if exponent == 0 {
        1
    } else {
        10 * pow10((exponent - 1) as nat)
    }
}

/// The distance between two decimal counts.
pub open spec fn decimal_gap(from_decimals: u8, to_decimals: u8) -> nat {
    if from_decimals >= to_decimals {
        (from_decimals - to_decimals) as nat
    } else {
        (to_decimals - from_decimals) as nat
    }
}

/// `amount`, written with `from_decimals` fractional digits, rewritten with
/// `to_decimals` of them: divided by a power of ten and rounded down where digits
/// are dropped, multiplied by one where digits are added.
pub open spec fn rescaled(amount: nat, from_decimals: nat, to_decimals: nat) -> nat {
    if from_decimals >= to_decimals {
        amount / pow10((from_decimals - to_decimals) as nat)
    } else {
        amount * pow10((to_decimals - from_decimals) as nat)
    }
}

/// What `decimal_factor` returns: the power of ten where `u128` can hold it.
pub open spec fn spec_decimal_factor(exponent: u32) -> Result<u128, RateError> {
    if pow10(exponent as nat) <= u128::MAX {
        Ok(pow10(exponent as nat) as u128)
    } else {
        Err(RateError::DecimalFactorOverflow)
    }
}

/// What `adjust_decimals` returns: the first check that fails names the error, and
/// otherwise the rescaled amount.
pub open spec fn spec_adjust_decimals(amount: u128, from_decimals: u8, to_decimals: u8) -> Result<
    u128,
    RateError,
> {
    if from_decimals > MAX_DECIMALS {
        Err(RateError::DecimalsExceedMax { slot: DecimalsSlot::Source, count: from_decimals })
    } else if to_decimals > MAX_DECIMALS {
        Err(RateError::DecimalsExceedMax { slot: DecimalsSlot::Target, count: to_decimals })
    } else if decimal_gap(from_decimals, to_decimals) > MAX_DECIMAL_DIFF {
        Err(
            RateError::DecimalDifferenceExceedsMax {
                difference: decimal_gap(from_decimals, to_decimals) as u8,
            },
        )
    } else if rescaled(amount as nat, from_decimals as nat, to_decimals as nat) > u128::MAX {
        Err(RateError::MultiplyOverflow)
    } else {
        Ok(rescaled(amount as nat, from_decimals as nat, to_decimals as nat) as u128)
    }
}

/// A power of ten is at least one.
pub proof fn lemma_pow10_positive(exponent: nat)
    ensures
        pow10(exponent) >= 1,
    decreases exponent,
{
    if exponent > 0 {
        lemma_pow10_positive((exponent - 1) as nat);
    }
}

/// A larger exponent never gives a smaller power of ten.
pub proof fn lemma_pow10_increases(low: nat, high: nat)
    requires
        low <= high,
    ensures
        pow10(low) <= pow10(high),
    decreases high,
{
    if low < high {
        lemma_pow10_increases(low, (high - 1) as nat);
    }
}

/// The powers of ten that fit in `u128` are exactly those up to `10^38`.
pub proof fn lemma_pow10_fits(exponent: nat)
    ensures
        pow10(exponent) <= u128::MAX <==> exponent <= 38,
{
    assert(pow10(38) == 100000000000000000000000000000000000000) by {
        reveal_with_fuel(pow10, 39);
    }
    assert(pow10(39) == 10 * pow10(38));
    if exponent <= 38 {
        lemma_pow10_increases(exponent, 38);
    } else {
        lemma_pow10_increases(39, exponent);
    }
}

/// Dividing by a positive number never gives more than was there.
proof fn lemma_quotient_bounded(amount: nat, divisor: nat)
    by (nonlinear_arith)
    requires
        divisor >= 1,
    ensures
        amount / divisor <= amount,
        divisor == 1 ==> amount / divisor == amount,
{
}

impl PairRate {
    /// Computes `10^exponent`, or reports that it does not fit in `u128`.
    pub fn decimal_factor(exponent: u32) -> (r: Result<u128, RateError>)
        ensures
            r == spec_decimal_factor(exponent),
            r is Ok <==> exponent <= 38,
    {
        let mut factor: u128 = 1;
        let mut done: u32 = 0;
        while done < exponent
            invariant
                done <= exponent,
                factor == pow10(done as nat),
            decreases exponent - done,
        {
            match factor.checked_mul(10) {
                Some(next) => {
                    factor = next;
                },
                None => {
                    proof {
                        lemma_pow10_increases((done + 1) as nat, exponent as nat);
                        lemma_pow10_fits(exponent as nat);
                    }
                    return Err(RateError::DecimalFactorOverflow);
                },
            }
            done = done + 1;
        }
        proof {
            lemma_pow10_fits(exponent as nat);
        }
        Ok(factor)
    }

    /// Rescales `amount` from `from_decimals` fractional digits to `to_decimals`.
    ///
    /// Scaling down divides and drops the remainder; scaling up multiplies and
    /// fails where the product leaves the range of `u128`.
    pub fn adjust_decimals(amount: u128, from_decimals: u8, to_decimals: u8) -> (r: Result<
        u128,
        RateError,
    >)
        ensures
            r == spec_adjust_decimals(amount, from_decimals, to_decimals),
            from_decimals == to_decimals && from_decimals <= MAX_DECIMALS ==> r == Ok::<
                u128,
                RateError,
            >(amount),
            !(r matches Err(RateError::DecimalFactorOverflow)),
    {
        if from_decimals > MAX_DECIMALS {
            return Err(
                RateError::DecimalsExceedMax { slot: DecimalsSlot::Source, count: from_decimals },
            );
        }
        if to_decimals > MAX_DECIMALS {
            return Err(
                RateError::DecimalsExceedMax { slot: DecimalsSlot::Target, count: to_decimals },
            );
        }
        let decimal_diff: u8 = if from_decimals > to_decimals {
            from_decimals - to_decimals
        } else {
            to_decimals - from_decimals
        };
        if decimal_diff > MAX_DECIMAL_DIFF {
            return Err(RateError::DecimalDifferenceExceedsMax { difference: decimal_diff });
        }
        proof {
            lemma_pow10_positive(decimal_diff as nat);
            lemma_quotient_bounded(amount as nat, pow10(decimal_diff as nat));
        }
        if from_decimals == to_decimals {
            return Ok(amount);
        }
        let factor: u128 = match Self::decimal_factor(decimal_diff as u32) {
            Ok(factor) => factor,
            Err(e) => {
                return Err(e);
            },
        };
        if from_decimals > to_decimals {
            Ok(amount / factor)
        } else {
            match amount.checked_mul(factor) {
                Some(scaled) => Ok(scaled),
                None => Err(RateError::MultiplyOverflow),
            }
        }
    }
}

} // verus!
