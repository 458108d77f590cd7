//! The failure codes of the pool.

use vstd::prelude::*;

verus! {

/// Why an operation was refused. Every refusal is terminal: nothing has been
/// planned, and the caller has to observe the pool again before a new attempt.
#[derive(Clone, Copy, Debug, PartialEq, Eq, Structural)]
pub enum AmmError {
    /// An amount is zero, or lies outside the range the operation allows.
    InvalidAmount,
    /// A swap or a withdrawal was attempted while the pool is locked.
    PoolLocked,
    /// An intermediate value does not fit the arithmetic it is computed in.
    MathOverflow,
    /// The reserves cannot serve the trade.
    InsufficientLiquidity,
    /// A deposit would take more of an asset than the depositor allows.
    SlippageExceeded,
}

} // verus!
