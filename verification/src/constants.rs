//! Fixed parameters of the pool.

use vstd::prelude::*;

verus! {

/// Basis points in a whole: the denominator of the trading fee.
pub const BPS_DENOMINATOR: u16 = 10000;

/// Decimal places of the LP asset.
pub const LP_DECIMALS: u8 = 6;

} // verus!
