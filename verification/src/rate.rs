//! The rate descriptor of a trading pair and the conversions it answers.

use vstd::prelude::*;

use crate::decimal::{rescaled, spec_adjust_decimals};
use crate::error::{DecimalsSlot, RateBound, RateError, Side};
use crate::limits::{MAX_DECIMALS, MAX_RATE, MIN_RATE};
use crate::wide::{mul_div, spec_safe_multiply_divide};

verus! {

/// The exchange rate of a trading pair, with the decimals of both tokens.
///
/// A descriptor is made by [`PairRate::new`] or `PairRate::default` and never
/// changes afterwards.
#[derive(Debug, PartialEq)]
pub struct PairRate {
    input_token: String,
    output_token: String,
    rate: (u128, u128),
    decimals: (u8, u8),
}

/// What a descriptor holds, as plain values.
pub struct PairRateView {
    /// The labels of the input and the output token.
    pub token_pair: (Seq<char>, Seq<char>),
    /// `rate.0` raw units of the input token are worth `rate.1` raw units of the
    /// output token.
    pub rate: (u128, u128),
    /// The fractional digits of the input and of the output token.
    pub decimals: (u8, u8),
}

impl View for PairRate {
    type V = PairRateView;

    closed spec fn view(&self) -> PairRateView {
        PairRateView {
            token_pair: (self.input_token@, self.output_token@),
            rate: self.rate,
            decimals: self.decimals,
        }
    }
}

/// Both sides of the rate lie in `MIN_RATE..=MAX_RATE`.
pub open spec fn valid_rate(rate: (u128, u128)) -> bool {
    &&& MIN_RATE <= rate.0 <= MAX_RATE
    &&& MIN_RATE <= rate.1 <= MAX_RATE
}

/// Neither decimal count is above `MAX_DECIMALS`.
pub open spec fn valid_decimals(decimals: (u8, u8)) -> bool {
    &&& decimals.0 <= MAX_DECIMALS
    &&& decimals.1 <= MAX_DECIMALS
}

/// What `validate_rate` returns. The lower bound is tested first on both sides,
/// then the upper bound; the error carries the first component that fails.
pub open spec fn spec_validate_rate(rate: (u128, u128)) -> Result<(), RateError> {
    if rate.0 < MIN_RATE {
        Err(RateError::RateOutOfRange { bound: RateBound::Min, value: rate.0 })
    } else if rate.1 < MIN_RATE {
        Err(RateError::RateOutOfRange { bound: RateBound::Min, value: rate.1 })
    } else if rate.0 > MAX_RATE {
        Err(RateError::RateOutOfRange { bound: RateBound::Max, value: rate.0 })
    } else if rate.1 > MAX_RATE {
        Err(RateError::RateOutOfRange { bound: RateBound::Max, value: rate.1 })
    } else {
        Ok(())
    }
}

/// What `validate_decimals` returns: the input side is tested first.
pub open spec fn spec_validate_decimals(decimals: (u8, u8)) -> Result<(), RateError> {
    if decimals.0 > MAX_DECIMALS {
        Err(RateError::DecimalsExceedMax { slot: DecimalsSlot::Input, count: decimals.0 })
    } else if decimals.1 > MAX_DECIMALS {
        Err(RateError::DecimalsExceedMax { slot: DecimalsSlot::Output, count: decimals.1 })
    } else {
        Ok(())
    }
}

/// What `PairRate::new` returns, over the view of the descriptor: decimals are
/// validated before the rate.
pub open spec fn spec_new(
    token_pair: (Seq<char>, Seq<char>),
    rate: (u128, u128),
    decimals: (u8, u8),
) -> Result<PairRateView, RateError> {
    match spec_validate_decimals(decimals) {
        Err(e) => Err(e),
        Ok(_) => match spec_validate_rate(rate) {
            Err(e) => Err(e),
            Ok(_) => Ok(PairRateView { token_pair, rate, decimals }),
        },
    }
}

/// The part of a conversion that follows validation: `amount` on the `given` side
/// is multiplied by `multiplier`, divided by `divisor` and rescaled from
/// `from_decimals` to `to_decimals`.
///
/// The cheap guard `amount > u128::MAX / multiplier` comes first, and a result of
/// zero is an error on the other side.
pub open spec fn spec_convert(
    amount: u128,
    multiplier: u128,
    divisor: u128,
    from_decimals: u8,
    to_decimals: u8,
    given: Side,
) -> Result<u128, RateError> {
    if amount > u128::MAX / multiplier {
        Err(RateError::PrecheckOverflow { side: given })
    } else {
        match spec_safe_multiply_divide(amount, multiplier, divisor) {
            Err(e) => Err(e),
            Ok(base) => match spec_adjust_decimals(base, from_decimals, to_decimals) {
                Err(e) => Err(e),
                Ok(adjusted) => if adjusted == 0 {
                    Err(RateError::ResultUnderflowedToZero { side: given.opposite() })
                } else {
                    Ok(adjusted)
                },
            },
        }
    }
}

/// What `calculate_output_amount` returns for a descriptor and an input amount.
pub open spec fn spec_calculate_output_amount(price: PairRateView, input_amount: u128) -> Result<
    u128,
    RateError,
> {
    if input_amount == 0 {
        Err(RateError::AmountZero { side: Side::Input })
    } else if spec_validate_rate(price.rate) is Err {
        Err(spec_validate_rate(price.rate)->Err_0)
    } else if spec_validate_decimals(price.decimals) is Err {
        Err(spec_validate_decimals(price.decimals)->Err_0)
    } else {
        spec_convert(
            input_amount,
            price.rate.1,
            price.rate.0,
            price.decimals.0,
            price.decimals.1,
            Side::Input,
        )
    }
}

/// What `calculate_input_amount` returns for a descriptor and an output amount.
pub open spec fn spec_calculate_input_amount(price: PairRateView, output_amount: u128) -> Result<
    u128,
    RateError,
> {
    if output_amount == 0 {
        Err(RateError::AmountZero { side: Side::Output })
    } else if spec_validate_rate(price.rate) is Err {
        Err(spec_validate_rate(price.rate)->Err_0)
    } else if spec_validate_decimals(price.decimals) is Err {
        Err(spec_validate_decimals(price.decimals)->Err_0)
    } else {
        spec_convert(
            output_amount,
            price.rate.0,
            price.rate.1,
            price.decimals.1,
            price.decimals.0,
            Side::Output,
        )
    }
}

impl PairRate {
    /// Checks that both sides of a rate lie in `MIN_RATE..=MAX_RATE`.
    pub fn validate_rate(rate: (u128, u128)) -> (r: Result<(), RateError>)
        ensures
            r == spec_validate_rate(rate),
            r is Ok <==> valid_rate(rate),
    {
        if rate.0 < MIN_RATE {
            return Err(RateError::RateOutOfRange { bound: RateBound::Min, value: rate.0 });
        }
        if rate.1 < MIN_RATE {
            return Err(RateError::RateOutOfRange { bound: RateBound::Min, value: rate.1 });
        }
        if rate.0 > MAX_RATE {
            return Err(RateError::RateOutOfRange { bound: RateBound::Max, value: rate.0 });
        }
        if rate.1 > MAX_RATE {
            return Err(RateError::RateOutOfRange { bound: RateBound::Max, value: rate.1 });
        }
        Ok(())
    }

    /// Checks that neither decimal count is above `MAX_DECIMALS`.
    pub fn validate_decimals(decimals: (u8, u8)) -> (r: Result<(), RateError>)
        ensures
            r == spec_validate_decimals(decimals),
            r is Ok <==> valid_decimals(decimals),
    {
        if decimals.0 > MAX_DECIMALS {
            return Err(
                RateError::DecimalsExceedMax { slot: DecimalsSlot::Input, count: decimals.0 },
            );
        }
        if decimals.1 > MAX_DECIMALS {
            return Err(
                RateError::DecimalsExceedMax { slot: DecimalsSlot::Output, count: decimals.1 },
            );
        }
        Ok(())
    }

    /// Makes a descriptor after validating the decimals and the rate. This is the
    /// only way to a descriptor besides `default`.
    pub fn new(token_pair: (String, String), rate: (u128, u128), decimals: (u8, u8)) -> (r: Result<
        Self,
        RateError,
    >)
        ensures
            match r {
                Ok(price) => spec_new((token_pair.0@, token_pair.1@), rate, decimals) == Ok::<
                    PairRateView,
                    RateError,
                >(price@),
                Err(e) => spec_new((token_pair.0@, token_pair.1@), rate, decimals) == Err::<
                    PairRateView,
                    RateError,
                >(e),
            },
            r is Ok <==> valid_decimals(decimals) && valid_rate(rate),
            r matches Ok(price) ==> price.spec_is_valid(),
    {
        match Self::validate_decimals(decimals) {
            Ok(_) => {},
            Err(e) => {
                return Err(e);
            },
        }
        match Self::validate_rate(rate) {
            Ok(_) => {},
            Err(e) => {
                return Err(e);
            },
        }
        let (input_token, output_token) = token_pair;
        Ok(PairRate { input_token, output_token, rate, decimals })
    }

    /// Given an amount of the input token, computes the amount of the output token
    /// it is worth: `input_amount * rate.1 / rate.0`, rescaled from the input
    /// token's decimals to the output token's.
    pub fn calculate_output_amount(price: &PairRate, input_amount: u128) -> (r: Result<
        u128,
        RateError,
    >)
        ensures
            r == spec_calculate_output_amount(price@, input_amount),
            input_amount == 0 ==> r == Err::<u128, RateError>(
                RateError::AmountZero { side: Side::Input },
            ),
            r matches Ok(output_amount) ==> {
                &&& price.spec_is_valid()
                &&& output_amount > 0
                &&& output_amount == rescaled(
                    mul_div(input_amount as nat, price@.rate.1 as nat, price@.rate.0 as nat),
                    price@.decimals.0 as nat,
                    price@.decimals.1 as nat,
                )
            },
    {
        if input_amount == 0 {
            return Err(RateError::AmountZero { side: Side::Input });
        }
        match Self::validate_rate(price.rate) {
            Ok(_) => {},
            Err(e) => {
                return Err(e);
            },
        }
        match Self::validate_decimals(price.decimals) {
            Ok(_) => {},
            Err(e) => {
                return Err(e);
            },
        }
        let (input_rate, output_rate) = price.rate;
        if input_amount > u128::MAX / output_rate {
            return Err(RateError::PrecheckOverflow { side: Side::Input });
        }
        let base_output = match Self::safe_multiply_divide(input_amount, output_rate, input_rate) {
            Ok(base) => base,
            Err(e) => {
                return Err(e);
            },
        };
        let adjusted_output = match Self::adjust_decimals(
            base_output,
            price.decimals.0,
            price.decimals.1,
        ) {
            Ok(adjusted) => adjusted,
            Err(e) => {
                return Err(e);
            },
        };
        if adjusted_output == 0 {
            return Err(RateError::ResultUnderflowedToZero { side: Side::Output });
        }
        Ok(adjusted_output)
    }

    /// Given an amount of the output token, computes the amount of the input token
    /// it is worth: `output_amount * rate.0 / rate.1`, rescaled from the output
    /// token's decimals to the input token's.
    pub fn calculate_input_amount(price: &PairRate, output_amount: u128) -> (r: Result<
        u128,
        RateError,
    >)
        ensures
            r == spec_calculate_input_amount(price@, output_amount),
            output_amount == 0 ==> r == Err::<u128, RateError>(
                RateError::AmountZero { side: Side::Output },
            ),
            r matches Ok(input_amount) ==> {
                &&& price.spec_is_valid()
                &&& input_amount > 0
                &&& input_amount == rescaled(
                    mul_div(output_amount as nat, price@.rate.0 as nat, price@.rate.1 as nat),
                    price@.decimals.1 as nat,
                    price@.decimals.0 as nat,
                )
            },
    {
        if output_amount == 0 {
            return Err(RateError::AmountZero { side: Side::Output });
        }
        match Self::validate_rate(price.rate) {
            Ok(_) => {},
            Err(e) => {
                return Err(e);
            },
        }
        match Self::validate_decimals(price.decimals) {
            Ok(_) => {},
            Err(e) => {
                return Err(e);
            },
        }
        let (input_rate, output_rate) = price.rate;
        if output_amount > u128::MAX / input_rate {
            return Err(RateError::PrecheckOverflow { side: Side::Output });
        }
        let base_input = match Self::safe_multiply_divide(output_amount, input_rate, output_rate) {
            Ok(base) => base,
            Err(e) => {
                return Err(e);
            },
        };
        let adjusted_input = match Self::adjust_decimals(
            base_input,
            price.decimals.1,
            price.decimals.0,
        ) {
            Ok(adjusted) => adjusted,
            Err(e) => {
                return Err(e);
            },
        };
        if adjusted_input == 0 {
            return Err(RateError::ResultUnderflowedToZero { side: Side::Input });
        }
        Ok(adjusted_input)
    }

    /// The raw rate and the decimals, as they were given to `new`.
    pub fn get_price_rate(&self) -> (r: ((u128, u128), (u8, u8)))
        ensures
            r == (self@.rate, self@.decimals),
    {
        (self.rate, self.decimals)
    }

    /// The labels of the input and the output token.
    pub fn token_pair(&self) -> (r: (&str, &str))
        ensures
            r.0@ == self@.token_pair.0,
            r.1@ == self@.token_pair.1,
    {
        (self.input_token.as_str(), self.output_token.as_str())
    }

    /// The descriptor's rate and decimals are within their bounds.
    pub open spec fn spec_is_valid(&self) -> bool {
        valid_rate(self@.rate) && valid_decimals(self@.decimals)
    }

    /// Whether both validators accept the descriptor's own fields.
    #[verifier::when_used_as_spec(spec_is_valid)]
    pub fn is_valid(&self) -> (valid: bool)
        ensures
            valid == self.spec_is_valid(),
    {
        Self::validate_rate(self.rate).is_ok() && Self::validate_decimals(self.decimals).is_ok()
    }
}

impl Clone for PairRate {
    fn clone(&self) -> (copy: Self)
        ensures
            copy@ == self@,
    {
        PairRate {
            input_token: self.input_token.clone(),
            output_token: self.output_token.clone(),
            rate: self.rate,
            decimals: self.decimals,
        }
    }
}

impl Default for PairRate {
    /// A neutral pair: one to one, eighteen decimals on both sides.
    fn default() -> (price: Self)
        ensures
            price@ == (PairRateView {
                token_pair: ("TOKEN_A"@, "TOKEN_B"@),
                rate: (1, 1),
                decimals: (18, 18),
            }),
            price.spec_is_valid(),
    {
        PairRate {
            input_token: "TOKEN_A".to_string(),
            output_token: "TOKEN_B".to_string(),
            rate: (1, 1),
            decimals: (18, 18),
        }
    }
}

} // verus!
