//! Conversion of token amounts across a trading pair.
//!
//! A pair's exchange rate is a ratio of two raw integers, and each token has its
//! own number of fractional digits. Every step of a conversion is guarded against
//! overflow, division by zero and results that collapse to zero.

pub mod limits;
pub mod decimal;
pub mod error;
pub mod laws;
pub mod rate;
pub mod wide;

pub use error::{DecimalsSlot, RateBound, RateError, Side};
pub use rate::PairRate;
pub use limits::{MAX_DECIMALS, MAX_DECIMAL_DIFF, MAX_RATE, MIN_RATE};
