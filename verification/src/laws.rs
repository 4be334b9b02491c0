//! What holds of every descriptor and every amount, proved from the functions'
//! contracts.

use vstd::prelude::*;

use crate::decimal::{decimal_gap, lemma_pow10_positive, pow10, rescaled, spec_adjust_decimals};
use crate::error::{DecimalsSlot, RateBound, RateError, Side};
use crate::limits::{MAX_DECIMALS, MAX_DECIMAL_DIFF, MAX_RATE};
use crate::rate::{
    spec_calculate_input_amount, spec_calculate_output_amount, spec_convert, spec_new,
    valid_decimals, valid_rate, PairRate, PairRateView,
};
use crate::wide::mul_div;

verus! {

/// An amount of zero is refused in both directions, whatever the descriptor holds,
/// valid or not.
pub proof fn lemma_zero_amount_is_refused(price: PairRate)
    ensures
        spec_calculate_output_amount(price@, 0) == Err::<u128, RateError>(
            RateError::AmountZero { side: Side::Input },
        ),
        spec_calculate_input_amount(price@, 0) == Err::<u128, RateError>(
            RateError::AmountZero { side: Side::Output },
        ),
{
}

/// With decimals that pass, a rate with a zero on either side is refused as below
/// the minimum, and a rate whose input side is one above `MAX_RATE` as above the
/// maximum. (Decimals are validated first, so decimals that fail come out as their
/// own error instead.)
pub proof fn lemma_new_refuses_rate_out_of_range(
    token_pair: (String, String),
    x: u128,
    decimals: (u8, u8),
)
    requires
        valid_decimals(decimals),
    ensures
        spec_new((token_pair.0@, token_pair.1@), (0, x), decimals) == Err::<
            PairRateView,
            RateError,
        >(RateError::RateOutOfRange { bound: RateBound::Min, value: 0 }),
        spec_new((token_pair.0@, token_pair.1@), (x, 0), decimals) == Err::<
            PairRateView,
            RateError,
        >(RateError::RateOutOfRange { bound: RateBound::Min, value: 0 }),
        spec_new((token_pair.0@, token_pair.1@), ((MAX_RATE + 1) as u128, 1), decimals) == Err::<
            PairRateView,
            RateError,
        >(RateError::RateOutOfRange { bound: RateBound::Max, value: (MAX_RATE + 1) as u128 }),
{
}

/// Input decimals one above `MAX_DECIMALS` are refused, whatever the labels and
/// the rate are.
pub proof fn lemma_new_refuses_excessive_decimals(token_pair: (String, String), rate: (u128, u128))
    ensures
        spec_new((token_pair.0@, token_pair.1@), rate, ((MAX_DECIMALS + 1) as u8, 0)) == Err::<
            PairRateView,
            RateError,
        >(
            RateError::DecimalsExceedMax {
                slot: DecimalsSlot::Input,
                count: (MAX_DECIMALS + 1) as u8,
            },
        ),
{
}

/// Rescaling between equal precisions gives the amount back.
pub proof fn lemma_adjust_same_decimals_is_identity(amount: u128, decimals: u8)
    requires
        decimals <= MAX_DECIMALS,
    ensures
        spec_adjust_decimals(amount, decimals, decimals) == Ok::<u128, RateError>(amount),
{
    assert(pow10(0) == 1);
    assert(amount as nat / 1 == amount as nat);
}

/// From 24 to 18 decimals an amount is divided by a million, rounded down. From 18
/// to 24 it is multiplied by a million, or refused where the product leaves `u128`.
pub proof fn lemma_adjust_by_six_decimals(amount: u128)
    ensures
        spec_adjust_decimals(amount, 24, 18) == Ok::<u128, RateError>(amount / 1_000_000),
        amount * 1_000_000 <= u128::MAX ==> spec_adjust_decimals(amount, 18, 24) == Ok::<
            u128,
            RateError,
        >((amount * 1_000_000) as u128),
        amount * 1_000_000 > u128::MAX ==> spec_adjust_decimals(amount, 18, 24) == Err::<
            u128,
            RateError,
        >(RateError::MultiplyOverflow),
{
    assert(pow10(6) == 1_000_000) by {
        reveal_with_fuel(pow10, 7);
    }
}

/// Decimal counts further apart than `MAX_DECIMAL_DIFF` are refused by the
/// rescaling, whatever the amount: from 0 to 38 decimals no power of ten is ever
/// computed.
pub proof fn lemma_adjust_refuses_wide_gap(amount: u128, from_decimals: u8, to_decimals: u8)
    requires
        from_decimals <= MAX_DECIMALS,
        to_decimals <= MAX_DECIMALS,
        decimal_gap(from_decimals, to_decimals) > MAX_DECIMAL_DIFF,
    ensures
        spec_adjust_decimals(amount, from_decimals, to_decimals) == Err::<u128, RateError>(
            RateError::DecimalDifferenceExceedsMax {
                difference: decimal_gap(from_decimals, to_decimals) as u8,
            },
        ),
        spec_adjust_decimals(amount, 0, 38) == Err::<u128, RateError>(
            RateError::DecimalDifferenceExceedsMax { difference: 38 },
        ),
{
}

/// A descriptor whose decimals lie further apart than `MAX_DECIMAL_DIFF` converts
/// no amount in either direction.
pub proof fn lemma_wide_gap_never_converts(price: PairRate, amount: u128)
    requires
        decimal_gap(price@.decimals.0, price@.decimals.1) > MAX_DECIMAL_DIFF,
    ensures
        spec_calculate_output_amount(price@, amount) is Err,
        spec_calculate_input_amount(price@, amount) is Err,
{
}

/// A descriptor whose rate is out of range converts no amount: every non-zero
/// amount comes back as `RateOutOfRange`. So it is for the rate `(1, u128::MAX)`
/// and the amount `u128::MAX`.
pub proof fn lemma_rate_out_of_range_never_converts(price: PairRate, amount: u128)
    requires
        !valid_rate(price@.rate),
        amount != 0,
    ensures
        spec_calculate_output_amount(price@, amount) matches Err(
            RateError::RateOutOfRange { .. },
        ),
        spec_calculate_input_amount(price@, amount) matches Err(RateError::RateOutOfRange { .. }),
        price@.rate == (1u128, u128::MAX) ==> spec_calculate_output_amount(price@, amount) == Err::<
            u128,
            RateError,
        >(RateError::RateOutOfRange { bound: RateBound::Max, value: u128::MAX }),
{
}

/// Where a conversion succeeds, the descriptor is valid and the result is the
/// floor quotient of the rate, rescaled; where it fails, the error is never one of
/// those that validation and the guard rule out beforehand.
pub proof fn lemma_conversion_outcomes(price: PairRate, amount: u128)
    ensures
        match spec_calculate_output_amount(price@, amount) {
            Ok(output_amount) => {
                &&& price.spec_is_valid()
                &&& amount > 0
                &&& output_amount > 0
                &&& output_amount == rescaled(
                    mul_div(amount as nat, price@.rate.1 as nat, price@.rate.0 as nat),
                    price@.decimals.0 as nat,
                    price@.decimals.1 as nat,
                )
            },
            Err(e) => {
                &&& e != RateError::DivisionByZero
                &&& e != RateError::ResultOverflowsRange
                &&& e != RateError::DecimalFactorOverflow
            },
        },
        match spec_calculate_input_amount(price@, amount) {
            Ok(input_amount) => {
                &&& price.spec_is_valid()
                &&& amount > 0
                &&& input_amount > 0
                &&& input_amount == rescaled(
                    mul_div(amount as nat, price@.rate.0 as nat, price@.rate.1 as nat),
                    price@.decimals.1 as nat,
                    price@.decimals.0 as nat,
                )
            },
            Err(e) => {
                &&& e != RateError::DivisionByZero
                &&& e != RateError::ResultOverflowsRange
                &&& e != RateError::DecimalFactorOverflow
            },
        },
{
    let rate = price@.rate;
    if valid_rate(rate) {
        lemma_guarded_product_fits(amount, rate.1, rate.0);
        lemma_guarded_product_fits(amount, rate.0, rate.1);
    }
}

/// An amount passes the guard `amount <= u128::MAX / multiplier` exactly when its
/// product with the multiplier is within `u128`; the quotient of that product by
/// any positive divisor is then within `u128` too.
pub proof fn lemma_guarded_product_fits(amount: u128, multiplier: u128, divisor: u128)
    by (nonlinear_arith)
    requires
        multiplier >= 1,
        divisor >= 1,
    ensures
        amount <= u128::MAX / multiplier <==> amount * multiplier <= u128::MAX,
        amount * multiplier <= u128::MAX ==> mul_div(
            amount as nat,
            multiplier as nat,
            divisor as nat,
        ) <= u128::MAX,
{
}

/// The amounts that the part of a conversion after validation accepts: not zero,
/// within `MAX_RATE`, with a product within `u128`, decimals no further apart than
/// `MAX_DECIMAL_DIFF`, and a rescaled quotient that is neither zero nor beyond
/// `u128`.
pub open spec fn converts(
    amount: u128,
    multiplier: u128,
    divisor: u128,
    from_decimals: u8,
    to_decimals: u8,
) -> bool {
    &&& 1 <= amount <= MAX_RATE
    &&& amount * multiplier <= u128::MAX
    &&& decimal_gap(from_decimals, to_decimals) <= MAX_DECIMAL_DIFF
    &&& 1 <= rescaled(
        mul_div(amount as nat, multiplier as nat, divisor as nat),
        from_decimals as nat,
        to_decimals as nat,
    ) <= u128::MAX
}

/// A conversion succeeds on exactly the valid descriptors and the amounts that
/// `converts` describes, in either direction.
pub proof fn lemma_conversion_succeeds_exactly_when(price: PairRate, amount: u128)
    ensures
        spec_calculate_output_amount(price@, amount) is Ok <==> price.spec_is_valid() && converts(
            amount,
            price@.rate.1,
            price@.rate.0,
            price@.decimals.0,
            price@.decimals.1,
        ),
        spec_calculate_input_amount(price@, amount) is Ok <==> price.spec_is_valid() && converts(
            amount,
            price@.rate.0,
            price@.rate.1,
            price@.decimals.1,
            price@.decimals.0,
        ),
{
    let rate = price@.rate;
    if valid_rate(rate) {
        lemma_guarded_product_fits(amount, rate.1, rate.0);
        lemma_guarded_product_fits(amount, rate.0, rate.1);
    }
}

/// Nothing is cut off when `amount` is multiplied by `multiplier`, divided by
/// `divisor` and rescaled from `from_decimals` to `to_decimals`: the product is a
/// multiple of the divisor, and where digits are dropped they are all zero.
pub open spec fn converts_exactly(
    amount: nat,
    multiplier: nat,
    divisor: nat,
    from_decimals: nat,
    to_decimals: nat,
) -> bool {
    &&& (amount * multiplier) % divisor == 0
    &&& from_decimals > to_decimals ==> mul_div(amount, multiplier, divisor) % pow10(
        (from_decimals - to_decimals) as nat,
    ) == 0
}

/// A quotient without remainder, multiplied by the divisor, gives the dividend.
proof fn lemma_exact_quotient(dividend: nat, divisor: nat)
    by (nonlinear_arith)
    requires
        divisor >= 1,
        dividend % divisor == 0,
    ensures
        (dividend / divisor) * divisor == dividend,
{
}

/// Multiplying by a positive number and dividing by it again changes nothing.
proof fn lemma_product_divided(value: nat, factor: nat)
    by (nonlinear_arith)
    requires
        factor >= 1,
    ensures
        (value * factor) / factor == value,
{
}

/// Equal products with the same positive factor have equal other factors.
proof fn lemma_cancel_factor(left: nat, right: nat, factor: nat)
    by (nonlinear_arith)
    requires
        factor >= 1,
        left * factor == right * factor,
    ensures
        left == right,
{
}

/// The arithmetic of a round trip: `there` is `amount * multiplier / divisor`
/// rescaled, `back` is `there * divisor / multiplier` rescaled the other way, and
/// nothing is cut off on the way there nor in the division on the way back.
proof fn lemma_exact_round_trip(
    amount: nat,
    multiplier: nat,
    divisor: nat,
    from_decimals: nat,
    to_decimals: nat,
    there: nat,
    back: nat,
)
    requires
        multiplier >= 1,
        divisor >= 1,
        there == rescaled(mul_div(amount, multiplier, divisor), from_decimals, to_decimals),
        back == rescaled(mul_div(there, divisor, multiplier), to_decimals, from_decimals),
        converts_exactly(amount, multiplier, divisor, from_decimals, to_decimals),
        (there * divisor) % multiplier == 0,
    ensures
        back == amount,
{
    let product = amount * multiplier;
    let base = mul_div(amount, multiplier, divisor);
    lemma_exact_quotient(product, divisor);
    assert(base * divisor == amount * multiplier);
    let base_back = mul_div(there, divisor, multiplier);
    if from_decimals == to_decimals {
        assert(pow10(0) == 1);
        assert(there == base) by (nonlinear_arith)
            requires
                there == base / 1,
        ;
        lemma_product_divided(amount, multiplier);
        assert(back == base_back) by (nonlinear_arith)
            requires
                back == base_back / 1,
        ;
    } else if from_decimals < to_decimals {
        let factor = pow10((to_decimals - from_decimals) as nat);
        lemma_pow10_positive((to_decimals - from_decimals) as nat);
        assert(there == base * factor);
        assert(there * divisor == (amount * factor) * multiplier) by (nonlinear_arith)
            requires
                there == base * factor,
                base * divisor == amount * multiplier,
        ;
        lemma_product_divided(amount * factor, multiplier);
        assert(base_back == amount * factor);
        lemma_product_divided(amount, factor);
        assert(back == base_back / factor);
    } else {
        let factor = pow10((from_decimals - to_decimals) as nat);
        lemma_pow10_positive((from_decimals - to_decimals) as nat);
        assert(there == base / factor);
        lemma_exact_quotient(base, factor);
        assert(there * factor == base);
        lemma_exact_quotient(there * divisor, multiplier);
        assert(base_back * multiplier == there * divisor);
        assert(back == base_back * factor);
        assert(back * multiplier == amount * multiplier) by (nonlinear_arith)
            requires
                back == base_back * factor,
                base_back * multiplier == there * divisor,
                there * factor == base,
                base * divisor == amount * multiplier,
        ;
        lemma_cancel_factor(back, amount, multiplier);
    }
}

/// A conversion and the conversion back, where both succeed and nothing is cut off
/// on the way there nor in the division on the way back, give the first amount
/// again.
pub proof fn lemma_convert_round_trip(
    amount: u128,
    multiplier: u128,
    divisor: u128,
    from_decimals: u8,
    to_decimals: u8,
    given: Side,
)
    requires
        multiplier >= 1,
        divisor >= 1,
        spec_convert(amount, multiplier, divisor, from_decimals, to_decimals, given) is Ok,
        spec_convert(
            spec_convert(amount, multiplier, divisor, from_decimals, to_decimals, given)->Ok_0,
            divisor,
            multiplier,
            to_decimals,
            from_decimals,
            given.opposite(),
        ) is Ok,
        converts_exactly(
            amount as nat,
            multiplier as nat,
            divisor as nat,
            from_decimals as nat,
            to_decimals as nat,
        ),
        (spec_convert(amount, multiplier, divisor, from_decimals, to_decimals, given)->Ok_0
            * divisor) % (multiplier as int) == 0,
    ensures
        spec_convert(
            spec_convert(amount, multiplier, divisor, from_decimals, to_decimals, given)->Ok_0,
            divisor,
            multiplier,
            to_decimals,
            from_decimals,
            given.opposite(),
        ) == Ok::<u128, RateError>(amount),
{
    let there = spec_convert(amount, multiplier, divisor, from_decimals, to_decimals, given)->Ok_0;
    let back = spec_convert(
        there,
        divisor,
        multiplier,
        to_decimals,
        from_decimals,
        given.opposite(),
    )->Ok_0;
    lemma_exact_round_trip(
        amount as nat,
        multiplier as nat,
        divisor as nat,
        from_decimals as nat,
        to_decimals as nat,
        there as nat,
        back as nat,
    );
}

/// From an input amount to the output amount and back: where both conversions
/// succeed, and nothing is cut off on the way there nor in the division on the way
/// back, the input amount comes out again. The same holds starting from an output
/// amount.
pub proof fn lemma_round_trip_is_exact(price: PairRate, amount: u128)
    ensures
        ({
            let there = spec_calculate_output_amount(price@, amount);
            &&& there is Ok
            &&& spec_calculate_input_amount(price@, there->Ok_0) is Ok
            &&& converts_exactly(
                amount as nat,
                price@.rate.1 as nat,
                price@.rate.0 as nat,
                price@.decimals.0 as nat,
                price@.decimals.1 as nat,
            )
            &&& (there->Ok_0 * price@.rate.0) % (price@.rate.1 as int) == 0
        }) ==> spec_calculate_input_amount(
            price@,
            spec_calculate_output_amount(price@, amount)->Ok_0,
        ) == Ok::<u128, RateError>(amount),
        ({
            let there = spec_calculate_input_amount(price@, amount);
            &&& there is Ok
            &&& spec_calculate_output_amount(price@, there->Ok_0) is Ok
            &&& converts_exactly(
                amount as nat,
                price@.rate.0 as nat,
                price@.rate.1 as nat,
                price@.decimals.1 as nat,
                price@.decimals.0 as nat,
            )
            &&& (there->Ok_0 * price@.rate.1) % (price@.rate.0 as int) == 0
        }) ==> spec_calculate_output_amount(
            price@,
            spec_calculate_input_amount(price@, amount)->Ok_0,
        ) == Ok::<u128, RateError>(amount),
{
    let rate = price@.rate;
    let decimals = price@.decimals;
    let there = spec_calculate_output_amount(price@, amount);
    if there is Ok && spec_calculate_input_amount(price@, there->Ok_0) is Ok && converts_exactly(
        amount as nat,
        rate.1 as nat,
        rate.0 as nat,
        decimals.0 as nat,
        decimals.1 as nat,
    ) && (there->Ok_0 * rate.0) % (rate.1 as int) == 0 {
        lemma_convert_round_trip(amount, rate.1, rate.0, decimals.0, decimals.1, Side::Input);
    }
    let there = spec_calculate_input_amount(price@, amount);
    if there is Ok && spec_calculate_output_amount(price@, there->Ok_0) is Ok && converts_exactly(
        amount as nat,
        rate.0 as nat,
        rate.1 as nat,
        decimals.1 as nat,
        decimals.0 as nat,
    ) && (there->Ok_0 * rate.1) % (rate.0 as int) == 0 {
        lemma_convert_round_trip(amount, rate.0, rate.1, decimals.1, decimals.0, Side::Output);
    }
}

} // verus!
