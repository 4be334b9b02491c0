//! The bounds that every rate and every decimal count is held to.

use vstd::prelude::*;

verus! {

/// The largest number of fractional digits a token may have.
pub const MAX_DECIMALS: u8 = 38;

/// The smallest value either side of a rate may take.
pub const MIN_RATE: u128 = 1;

/// The largest value either side of a rate may take: half the range of `u128`,
/// which leaves headroom for one multiplication.
pub const MAX_RATE: u128 = u128::MAX / 2;

/// The largest gap between two decimal counts that a rescaling accepts.
pub const MAX_DECIMAL_DIFF: u8 = 32;

} // verus!
