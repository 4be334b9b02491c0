//! The failures a conversion can report.

use vstd::prelude::*;

use crate::limits::{MAX_DECIMALS, MAX_DECIMAL_DIFF, MAX_RATE};

verus! {

/// One side of a trading pair.
#[derive(Debug, Clone, Copy, PartialEq, Eq, Structural)]
pub enum Side {
    /// The token that is given.
    Input,
    /// The token that is received.
    Output,
}

impl Side {
    /// The other side of the pair.
    pub open spec fn opposite(self) -> Side {
        match self {
            Side::Input => Side::Output,
            Side::Output => Side::Input,
        }
    }
}

/// Which end of the permitted range a rate component fell off.
#[derive(Debug, Clone, Copy, PartialEq, Eq, Structural)]
pub enum RateBound {
    /// The component is below `MIN_RATE`.
    Min,
    /// The component is above `MAX_RATE`.
    Max,
}

/// Where an excessive decimal count was found.
#[derive(Debug, Clone, Copy, PartialEq, Eq, Structural)]
pub enum DecimalsSlot {
    /// The input token's decimals of a descriptor.
    Input,
    /// The output token's decimals of a descriptor.
    Output,
    /// The precision an amount is rescaled from.
    Source,
    /// The precision an amount is rescaled to.
    Target,
}

/// Why a descriptor was rejected or a conversion failed.
#[derive(Debug, Clone, Copy, PartialEq, Eq, Structural)]
pub enum RateError {
    /// The amount on the given side is zero.
    AmountZero { side: Side },
    /// A rate component lies outside `MIN_RATE..=MAX_RATE`.
    RateOutOfRange { bound: RateBound, value: u128 },
    /// A decimal count is above `MAX_DECIMALS`.
    DecimalsExceedMax { slot: DecimalsSlot, count: u8 },
    /// Two decimal counts lie further apart than `MAX_DECIMAL_DIFF`.
    DecimalDifferenceExceedsMax { difference: u8 },
    /// The divisor of a multiply-divide is zero.
    DivisionByZero,
    /// An operand of a multiply-divide is above `MAX_RATE`.
    OperandTooLarge,
    /// The amount on the given side times the rate would leave the range of `u128`.
    PrecheckOverflow { side: Side },
    /// Scaling an amount up left the range of `u128`.
    MultiplyOverflow,
    /// A power of ten does not fit in `u128`.
    DecimalFactorOverflow,
    /// The quotient of a multiply-divide does not fit in `u128`.
    ResultOverflowsRange,
    /// A non-zero amount came out as zero on the given side.
    ResultUnderflowedToZero { side: Side },
}

/// The character that stands for a digit below ten.
pub open spec fn digit_char(digit: nat) -> char {
    if digit == 0 {
        '0'
    } else if digit == 1 {
        '1'
    } else if digit == 2 {
        '2'
    } else if digit == 3 {
        '3'
    } else if digit == 4 {
        '4'
    } else if digit == 5 {
        '5'
    } else if digit == 6 {
        '6'
    } else if digit == 7 {
        '7'
    } else if digit == 8 {
        '8'
    } else {
        '9'
    }
}

/// A number written in base ten, without leading zeros.
pub open spec fn decimal_text(number: nat) -> Seq<char>
    decreases number,
{
    if number < 10 {
        seq![digit_char(number)]
    } else {
        decimal_text(number / 10).push(digit_char(number % 10))
    }
}

/// The one-character string of a digit.
fn digit_str(digit: u8) -> (text: &'static str)
    requires
        digit < 10,
    ensures
        text@ == seq![digit_char(digit as nat)],
{
    proof {
        reveal_strlit("0");
        reveal_strlit("1");
        reveal_strlit("2");
        reveal_strlit("3");
        reveal_strlit("4");
        reveal_strlit("5");
        reveal_strlit("6");
        reveal_strlit("7");
        reveal_strlit("8");
        reveal_strlit("9");
    }
    let text = if digit == 0 {
        "0"
    } else if digit == 1 {
        "1"
    } else if digit == 2 {
        "2"
    } else if digit == 3 {
        "3"
    } else if digit == 4 {
        "4"
    } else if digit == 5 {
        "5"
    } else if digit == 6 {
        "6"
    } else if digit == 7 {
        "7"
    } else if digit == 8 {
        "8"
    } else {
        "9"
    };
    assert(text@ =~= seq![digit_char(digit as nat)]);
    text
}

/// Writes `number` in base ten at the end of `text`.
fn append_decimal(text: &mut String, number: u128)
    ensures
        final(text)@ == old(text)@ + decimal_text(number as nat),
    decreases number,
{
    if number >= 10 {
        append_decimal(text, number / 10);
    }
    text.append(digit_str((number % 10) as u8));
    assert(final(text)@ =~= old(text)@ + decimal_text(number as nat));
}

impl RateError {
    /// The text of `message`.
    pub open spec fn spec_message(self) -> Seq<char> {
        match self {
            RateError::AmountZero { side: Side::Input } => "Input amount must be greater than 0"@,
            RateError::AmountZero { side: Side::Output } => "Output amount must be greater than 0"@,
            RateError::RateOutOfRange { bound: RateBound::Min, .. } => {
                "Rate components must be greater than 0"@
            },
            RateError::RateOutOfRange { bound: RateBound::Max, value } => {
                "Rate components must be less than "@ + decimal_text(MAX_RATE as nat) + ", got "@
                    + decimal_text(value as nat)
            },
            RateError::DecimalsExceedMax { slot: DecimalsSlot::Input, count } => {
                "Input decimals "@ + decimal_text(count as nat) + " exceeds maximum allowed "@
                    + decimal_text(MAX_DECIMALS as nat)
            },
            RateError::DecimalsExceedMax { slot: DecimalsSlot::Output, count } => {
                "Output decimals "@ + decimal_text(count as nat) + " exceeds maximum allowed "@
                    + decimal_text(MAX_DECIMALS as nat)
            },
            RateError::DecimalsExceedMax { .. } => {
                "Decimals must be less than or equal to "@ + decimal_text(MAX_DECIMALS as nat)
            },
            RateError::DecimalDifferenceExceedsMax { difference } => {
                "Decimal difference "@ + decimal_text(difference as nat)
                    + " exceeds maximum allowed "@ + decimal_text(MAX_DECIMAL_DIFF as nat)
            },
            RateError::DivisionByZero => "Division by zero"@,
            RateError::OperandTooLarge => "Input values too large for safe calculation"@,
            RateError::PrecheckOverflow { side: Side::Input } => {
                "Input amount too large, would cause overflow"@
            },
            RateError::PrecheckOverflow { side: Side::Output } => {
                "Output amount too large, would cause overflow"@
            },
            RateError::MultiplyOverflow => "Decimal adjustment caused overflow"@,
            RateError::DecimalFactorOverflow => "Decimal factor overflow"@,
            RateError::ResultOverflowsRange => "Result exceeds u128"@,
            RateError::ResultUnderflowedToZero { side: Side::Output } => {
                "Calculated output amount is zero, increase input amount"@
            },
            RateError::ResultUnderflowedToZero { side: Side::Input } => {
                "Calculated input amount is zero, increase output amount"@
            },
        }
    }

    /// A sentence for the caller that names the bound or the condition that was
    /// violated.
    pub fn message(&self) -> (text: String)
        ensures
            text@ == self.spec_message(),
    {
        match *self {
            RateError::AmountZero { side: Side::Input } => {
                "Input amount must be greater than 0".to_string()
            },
            RateError::AmountZero { side: Side::Output } => {
                "Output amount must be greater than 0".to_string()
            },
            RateError::RateOutOfRange { bound: RateBound::Min, .. } => {
                "Rate components must be greater than 0".to_string()
            },
            RateError::RateOutOfRange { bound: RateBound::Max, value } => {
                let mut text = "Rate components must be less than ".to_string();
                append_decimal(&mut text, MAX_RATE);
                text.append(", got ");
                append_decimal(&mut text, value);
                text
            },
            RateError::DecimalsExceedMax { slot: DecimalsSlot::Input, count } => {
                let mut text = "Input decimals ".to_string();
                append_decimal(&mut text, count as u128);
                text.append(" exceeds maximum allowed ");
                append_decimal(&mut text, MAX_DECIMALS as u128);
                text
            },
            RateError::DecimalsExceedMax { slot: DecimalsSlot::Output, count } => {
                let mut text = "Output decimals ".to_string();
                append_decimal(&mut text, count as u128);
                text.append(" exceeds maximum allowed ");
                append_decimal(&mut text, MAX_DECIMALS as u128);
                text
            },
            RateError::DecimalsExceedMax { .. } => {
                let mut text = "Decimals must be less than or equal to ".to_string();
                append_decimal(&mut text, MAX_DECIMALS as u128);
                text
            },
            RateError::DecimalDifferenceExceedsMax { difference } => {
                let mut text = "Decimal difference ".to_string();
                append_decimal(&mut text, difference as u128);
                text.append(" exceeds maximum allowed ");
                append_decimal(&mut text, MAX_DECIMAL_DIFF as u128);
                text
            },
            RateError::DivisionByZero => "Division by zero".to_string(),
            RateError::OperandTooLarge => "Input values too large for safe calculation".to_string(),
            RateError::PrecheckOverflow { side: Side::Input } => {
                "Input amount too large, would cause overflow".to_string()
            },
            RateError::PrecheckOverflow { side: Side::Output } => {
                "Output amount too large, would cause overflow".to_string()
            },
            RateError::MultiplyOverflow => "Decimal adjustment caused overflow".to_string(),
            RateError::DecimalFactorOverflow => "Decimal factor overflow".to_string(),
            RateError::ResultOverflowsRange => "Result exceeds u128".to_string(),
            RateError::ResultUnderflowedToZero { side: Side::Output } => {
                "Calculated output amount is zero, increase input amount".to_string()
            },
            RateError::ResultUnderflowedToZero { side: Side::Input } => {
                "Calculated input amount is zero, increase output amount".to_string()
            },
        }
    }
}

} // verus!
