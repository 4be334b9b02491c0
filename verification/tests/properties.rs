use pair_rate::{
    DecimalsSlot, PairRate, RateBound, RateError, Side, MAX_DECIMALS, MAX_DECIMAL_DIFF, MAX_RATE,
    MIN_RATE,
};

fn labels() -> (String, String) {
    ("TOKEN_A".to_string(), "TOKEN_B".to_string())
}

fn descriptor(rate: (u128, u128), decimals: (u8, u8)) -> PairRate {
    PairRate::new(labels(), rate, decimals).unwrap()
}

#[test]
fn constants_have_their_values() {
    assert_eq!(MAX_DECIMALS, 38);
    assert_eq!(MIN_RATE, 1);
    assert_eq!(MAX_RATE, 170_141_183_460_469_231_731_687_303_715_884_105_727);
    assert_eq!(MAX_RATE, u128::MAX / 2);
    assert_eq!(MAX_DECIMAL_DIFF, 32);
}

#[test]
fn zero_amount_is_refused_in_both_directions() {
    for price in [
        descriptor((1, 1), (18, 18)),
        descriptor((3, 5), (24, 18)),
        descriptor((MAX_RATE, 1), (0, 38)),
        PairRate::default(),
    ] {
        assert_eq!(
            PairRate::calculate_output_amount(&price, 0),
            Err(RateError::AmountZero { side: Side::Input })
        );
        assert_eq!(
            PairRate::calculate_input_amount(&price, 0),
            Err(RateError::AmountZero { side: Side::Output })
        );
    }
}

#[test]
fn new_refuses_a_zero_rate_on_either_side() {
    for x in [0u128, 1, 7, MAX_RATE, MAX_RATE + 1, u128::MAX] {
        assert_eq!(
            PairRate::new(labels(), (0, x), (18, 18)),
            Err(RateError::RateOutOfRange { bound: RateBound::Min, value: 0 })
        );
        assert_eq!(
            PairRate::new(labels(), (x, 0), (18, 18)),
            Err(RateError::RateOutOfRange { bound: RateBound::Min, value: 0 })
        );
    }
}

#[test]
fn new_refuses_a_rate_above_the_maximum() {
    assert_eq!(
        PairRate::new(labels(), (MAX_RATE + 1, 1), (18, 18)),
        Err(RateError::RateOutOfRange { bound: RateBound::Max, value: MAX_RATE + 1 })
    );
    assert_eq!(
        PairRate::new(labels(), (1, u128::MAX), (18, 18)),
        Err(RateError::RateOutOfRange { bound: RateBound::Max, value: u128::MAX })
    );
    assert!(PairRate::new(labels(), (MAX_RATE, MAX_RATE), (18, 18)).is_ok());
    assert!(PairRate::new(labels(), (MIN_RATE, MIN_RATE), (18, 18)).is_ok());
}

#[test]
fn new_refuses_decimals_above_the_maximum() {
    assert_eq!(
        PairRate::new(labels(), (1, 1), (MAX_DECIMALS + 1, 0)),
        Err(RateError::DecimalsExceedMax { slot: DecimalsSlot::Input, count: 39 })
    );
    assert_eq!(
        PairRate::new(labels(), (1, 1), (0, 255)),
        Err(RateError::DecimalsExceedMax { slot: DecimalsSlot::Output, count: 255 })
    );
    assert!(PairRate::new(labels(), (1, 1), (MAX_DECIMALS, MAX_DECIMALS)).is_ok());
}

#[test]
fn new_validates_decimals_before_the_rate() {
    assert_eq!(
        PairRate::new(labels(), (0, 5), (39, 0)),
        Err(RateError::DecimalsExceedMax { slot: DecimalsSlot::Input, count: 39 })
    );
}

#[test]
fn new_keeps_what_it_was_given() {
    let price = PairRate::new(("ETH".to_string(), "USDC".to_string()), (2, 5), (18, 6)).unwrap();
    assert_eq!(price.get_price_rate(), ((2, 5), (18, 6)));
    assert_eq!(price.token_pair(), ("ETH", "USDC"));
    assert!(price.is_valid());
    let copy = price.clone();
    assert_eq!(copy, price);
    assert_eq!(copy.get_price_rate(), ((2, 5), (18, 6)));
    assert_eq!(copy.token_pair(), ("ETH", "USDC"));
}

#[test]
fn validators_report_the_first_offender() {
    assert_eq!(PairRate::validate_rate((1, 1)), Ok(()));
    assert_eq!(PairRate::validate_rate((MAX_RATE, MAX_RATE)), Ok(()));
    assert_eq!(
        PairRate::validate_rate((0, u128::MAX)),
        Err(RateError::RateOutOfRange { bound: RateBound::Min, value: 0 })
    );
    assert_eq!(
        PairRate::validate_rate((u128::MAX, 0)),
        Err(RateError::RateOutOfRange { bound: RateBound::Min, value: 0 })
    );
    assert_eq!(
        PairRate::validate_rate((u128::MAX, MAX_RATE + 1)),
        Err(RateError::RateOutOfRange { bound: RateBound::Max, value: u128::MAX })
    );
    assert_eq!(
        PairRate::validate_rate((5, MAX_RATE + 1)),
        Err(RateError::RateOutOfRange { bound: RateBound::Max, value: MAX_RATE + 1 })
    );
    assert_eq!(PairRate::validate_decimals((0, 38)), Ok(()));
    assert_eq!(
        PairRate::validate_decimals((40, 41)),
        Err(RateError::DecimalsExceedMax { slot: DecimalsSlot::Input, count: 40 })
    );
    assert_eq!(
        PairRate::validate_decimals((38, 41)),
        Err(RateError::DecimalsExceedMax { slot: DecimalsSlot::Output, count: 41 })
    );
}

#[test]
fn adjust_between_equal_decimals_is_identity() {
    for d in [0u8, 1, 18, 38] {
        for x in [0u128, 1, 999, u128::MAX] {
            assert_eq!(PairRate::adjust_decimals(x, d, d), Ok(x));
        }
    }
}

#[test]
fn adjust_scales_down_with_floor_and_up_exactly() {
    assert_eq!(PairRate::adjust_decimals(1_999_999, 24, 18), Ok(1));
    assert_eq!(PairRate::adjust_decimals(999_999, 24, 18), Ok(0));
    assert_eq!(PairRate::adjust_decimals(u128::MAX, 24, 18), Ok(u128::MAX / 1_000_000));
    assert_eq!(PairRate::adjust_decimals(7, 18, 24), Ok(7_000_000));
    assert_eq!(PairRate::adjust_decimals(0, 18, 24), Ok(0));
    assert_eq!(
        PairRate::adjust_decimals(5, 0, 32),
        Ok(500_000_000_000_000_000_000_000_000_000_000)
    );
    assert_eq!(
        PairRate::adjust_decimals(u128::MAX, 32, 0),
        Ok(u128::MAX / 100_000_000_000_000_000_000_000_000_000_000)
    );
}

#[test]
fn adjust_reports_overflow_of_the_product() {
    let limit = u128::MAX / 1_000_000;
    assert_eq!(PairRate::adjust_decimals(limit, 18, 24), Ok(limit * 1_000_000));
    assert_eq!(
        PairRate::adjust_decimals(limit + 1, 18, 24),
        Err(RateError::MultiplyOverflow)
    );
}

#[test]
fn adjust_refuses_excessive_decimals_and_gaps() {
    assert_eq!(
        PairRate::adjust_decimals(1, 39, 40),
        Err(RateError::DecimalsExceedMax { slot: DecimalsSlot::Source, count: 39 })
    );
    assert_eq!(
        PairRate::adjust_decimals(1, 38, 40),
        Err(RateError::DecimalsExceedMax { slot: DecimalsSlot::Target, count: 40 })
    );
    assert_eq!(
        PairRate::adjust_decimals(1, 0, 38),
        Err(RateError::DecimalDifferenceExceedsMax { difference: 38 })
    );
    assert_eq!(
        PairRate::adjust_decimals(1, 33, 0),
        Err(RateError::DecimalDifferenceExceedsMax { difference: 33 })
    );
    assert!(PairRate::adjust_decimals(1, 0, 32).is_ok());
    assert!(PairRate::adjust_decimals(1, 38, 6).is_ok());
}

#[test]
fn decimal_factor_is_a_checked_power_of_ten() {
    assert_eq!(PairRate::decimal_factor(0), Ok(1));
    assert_eq!(PairRate::decimal_factor(1), Ok(10));
    assert_eq!(PairRate::decimal_factor(6), Ok(1_000_000));
    assert_eq!(
        PairRate::decimal_factor(38),
        Ok(100_000_000_000_000_000_000_000_000_000_000_000_000)
    );
    assert_eq!(PairRate::decimal_factor(39), Err(RateError::DecimalFactorOverflow));
    assert_eq!(PairRate::decimal_factor(u32::MAX), Err(RateError::DecimalFactorOverflow));
}

#[test]
fn multiply_divide_floors_the_exact_quotient() {
    assert_eq!(PairRate::safe_multiply_divide(6, 7, 2), Ok(21));
    assert_eq!(PairRate::safe_multiply_divide(7, 7, 2), Ok(24));
    assert_eq!(PairRate::safe_multiply_divide(0, 7, 2), Ok(0));
    assert_eq!(PairRate::safe_multiply_divide(5, 3, 1), Ok(15));
    // the product needs more than 128 bits, the quotient does not
    assert_eq!(PairRate::safe_multiply_divide(MAX_RATE, MAX_RATE, MAX_RATE), Ok(MAX_RATE));
    assert_eq!(
        PairRate::safe_multiply_divide(MAX_RATE, 1_000_000, 1_000_000),
        Ok(MAX_RATE)
    );
    assert_eq!(
        PairRate::safe_multiply_divide(MAX_RATE, 4, 2),
        Ok(u128::MAX - 1)
    );
}

#[test]
fn multiply_divide_reports_each_failure() {
    assert_eq!(PairRate::safe_multiply_divide(1, 1, 0), Err(RateError::DivisionByZero));
    assert_eq!(
        PairRate::safe_multiply_divide(u128::MAX, u128::MAX, 0),
        Err(RateError::DivisionByZero)
    );
    assert_eq!(
        PairRate::safe_multiply_divide(MAX_RATE + 1, 1, 1),
        Err(RateError::OperandTooLarge)
    );
    assert_eq!(
        PairRate::safe_multiply_divide(1, MAX_RATE + 1, 1),
        Err(RateError::OperandTooLarge)
    );
    assert_eq!(
        PairRate::safe_multiply_divide(MAX_RATE, 3, 1),
        Err(RateError::ResultOverflowsRange)
    );
    assert_eq!(
        PairRate::safe_multiply_divide(MAX_RATE, MAX_RATE, 1),
        Err(RateError::ResultOverflowsRange)
    );
}

#[test]
fn conversion_reports_the_guard_and_the_operand_bound() {
    let price = descriptor((1, 2), (18, 18));
    assert_eq!(
        PairRate::calculate_output_amount(&price, u128::MAX / 2 + 1),
        Err(RateError::PrecheckOverflow { side: Side::Input })
    );
    assert_eq!(
        PairRate::calculate_output_amount(&price, u128::MAX / 2),
        Ok(u128::MAX - 1)
    );
    let price = descriptor((2, 1), (18, 18));
    assert_eq!(
        PairRate::calculate_input_amount(&price, u128::MAX / 2 + 1),
        Err(RateError::PrecheckOverflow { side: Side::Output })
    );
    let even = descriptor((1, 1), (18, 18));
    assert_eq!(
        PairRate::calculate_output_amount(&even, MAX_RATE + 1),
        Err(RateError::OperandTooLarge)
    );
    assert_eq!(
        PairRate::calculate_input_amount(&even, u128::MAX),
        Err(RateError::OperandTooLarge)
    );
}

#[test]
fn conversion_reports_a_result_of_zero() {
    let price = descriptor((3, 1), (18, 18));
    assert_eq!(
        PairRate::calculate_output_amount(&price, 2),
        Err(RateError::ResultUnderflowedToZero { side: Side::Output })
    );
    assert_eq!(PairRate::calculate_output_amount(&price, 3), Ok(1));
    let price = descriptor((1, 3), (18, 18));
    assert_eq!(
        PairRate::calculate_input_amount(&price, 2),
        Err(RateError::ResultUnderflowedToZero { side: Side::Input })
    );
    let price = descriptor((1, 1), (24, 18));
    assert_eq!(
        PairRate::calculate_output_amount(&price, 999_999),
        Err(RateError::ResultUnderflowedToZero { side: Side::Output })
    );
    assert_eq!(PairRate::calculate_output_amount(&price, 1_000_000), Ok(1));
}

#[test]
fn conversion_reports_overflow_of_the_scaling() {
    let price = descriptor((1, 1), (0, 32));
    assert_eq!(
        PairRate::calculate_output_amount(&price, MAX_RATE),
        Err(RateError::MultiplyOverflow)
    );
    assert_eq!(
        PairRate::calculate_input_amount(&price, 100_000_000_000_000_000_000_000_000_000_000),
        Ok(1)
    );
}

#[test]
fn conversion_refuses_a_wide_decimal_gap() {
    let price = descriptor((1, 1), (0, 38));
    assert_eq!(
        PairRate::calculate_output_amount(&price, u128::MAX / 2),
        Err(RateError::DecimalDifferenceExceedsMax { difference: 38 })
    );
    assert_eq!(
        PairRate::calculate_input_amount(&price, 1),
        Err(RateError::DecimalDifferenceExceedsMax { difference: 38 })
    );
}

#[test]
fn round_trip_is_exact_where_nothing_is_truncated() {
    let price = descriptor((3, 5), (24, 18));
    let input = 3_000_000_000_000_000_000_000_000u128;
    let output = PairRate::calculate_output_amount(&price, input).unwrap();
    assert_eq!(output, 5_000_000_000_000_000_000);
    assert_eq!(PairRate::calculate_input_amount(&price, output), Ok(input));
}

#[test]
fn round_trip_loses_what_was_truncated() {
    let price = descriptor((3, 5), (18, 18));
    let output = PairRate::calculate_output_amount(&price, 4).unwrap();
    assert_eq!(output, 6);
    assert_eq!(PairRate::calculate_input_amount(&price, output), Ok(3));
}

#[test]
fn default_is_one_to_one_with_eighteen_decimals() {
    let price = PairRate::default();
    assert_eq!(price.get_price_rate(), ((1, 1), (18, 18)));
    assert_eq!(price.token_pair(), ("TOKEN_A", "TOKEN_B"));
    assert!(price.is_valid());
    assert_eq!(PairRate::calculate_output_amount(&price, 12345), Ok(12345));
    assert_eq!(PairRate::calculate_input_amount(&price, 12345), Ok(12345));
}

#[test]
fn messages_name_the_condition() {
    let cases: Vec<(RateError, &str)> = vec![
        (RateError::AmountZero { side: Side::Input }, "Input amount must be greater than 0"),
        (RateError::AmountZero { side: Side::Output }, "Output amount must be greater than 0"),
        (
            RateError::RateOutOfRange { bound: RateBound::Min, value: 0 },
            "Rate components must be greater than 0",
        ),
        (
            RateError::RateOutOfRange { bound: RateBound::Max, value: u128::MAX },
            "Rate components must be less than 170141183460469231731687303715884105727, got 340282366920938463463374607431768211455",
        ),
        (
            RateError::DecimalsExceedMax { slot: DecimalsSlot::Input, count: 39 },
            "Input decimals 39 exceeds maximum allowed 38",
        ),
        (
            RateError::DecimalsExceedMax { slot: DecimalsSlot::Output, count: 255 },
            "Output decimals 255 exceeds maximum allowed 38",
        ),
        (
            RateError::DecimalsExceedMax { slot: DecimalsSlot::Source, count: 100 },
            "Decimals must be less than or equal to 38",
        ),
        (
            RateError::DecimalsExceedMax { slot: DecimalsSlot::Target, count: 40 },
            "Decimals must be less than or equal to 38",
        ),
        (
            RateError::DecimalDifferenceExceedsMax { difference: 33 },
            "Decimal difference 33 exceeds maximum allowed 32",
        ),
        (RateError::DivisionByZero, "Division by zero"),
        (RateError::OperandTooLarge, "Input values too large for safe calculation"),
        (
            RateError::PrecheckOverflow { side: Side::Input },
            "Input amount too large, would cause overflow",
        ),
        (
            RateError::PrecheckOverflow { side: Side::Output },
            "Output amount too large, would cause overflow",
        ),
        (RateError::MultiplyOverflow, "Decimal adjustment caused overflow"),
        (RateError::DecimalFactorOverflow, "Decimal factor overflow"),
        (RateError::ResultOverflowsRange, "Result exceeds u128"),
        (
            RateError::ResultUnderflowedToZero { side: Side::Output },
            "Calculated output amount is zero, increase input amount",
        ),
        (
            RateError::ResultUnderflowedToZero { side: Side::Input },
            "Calculated input amount is zero, increase output amount",
        ),
    ];
    for (error, text) in cases {
        assert_eq!(error.message(), text.to_string());
    }
}

#[test]
fn messages_write_numbers_in_base_ten() {
    assert_eq!(
        RateError::DecimalsExceedMax { slot: DecimalsSlot::Input, count: 100 }.message(),
        "Input decimals 100 exceeds maximum allowed 38".to_string()
    );
    assert_eq!(
        RateError::RateOutOfRange { bound: RateBound::Max, value: MAX_RATE + 1 }.message(),
        format!("Rate components must be less than {}, got {}", MAX_RATE, MAX_RATE + 1)
    );
}
