//! Accounting engine of a two-asset constant-product liquidity pool.
//!
//! The crate decides; it never moves a balance. Each operation reads a
//! snapshot of the pool (its configuration, the two vault balances and, where
//! needed, the outstanding LP supply), checks its preconditions, evaluates the
//! curve, and answers with the ledger instructions that the caller has to
//! carry out in order and as one atomic unit. A refused operation answers
//! with an error and no instruction.
//!
//! - [`curve`]: the arithmetic of the constant-product curve.
//! - [`state`]: the configuration of a pool.
//! - [`ledger`]: balances, ledger instructions, and what they do.
//! - [`instructions`]: the four operations.
//! - [`laws`]: what is proved of every pool.

pub mod constants;
pub mod curve;
pub mod error;
pub mod instructions;
pub mod laws;
pub mod ledger;
pub mod state;

use crate::error::AmmError;
use crate::instructions::deposit::Deposit;
use crate::instructions::initialize::{Initialize, InitializeBumps};
use crate::instructions::swap::Swap;
use crate::instructions::withdraw::Withdraw;
use crate::ledger::{plan_view, LedgerOp};
use crate::state::Config;
use anchor_lang::prelude::Pubkey;
use vstd::prelude::*;

verus! {

/// Creates a pool over the two assets of `accounts`: answers with its
/// configuration, unlocked, for the caller to store.
pub fn initialize(
    accounts: &Initialize,
    bumps: &InitializeBumps,
    seed: u64,
    authority: Option<Pubkey>,
    fee: u16,
) -> (r: Result<Config, AmmError>)
    ensures
        r == Ok::<Config, AmmError>(accounts.init_spec(seed, fee, authority, *bumps)),
{
    accounts.init(seed, fee, authority, bumps)
}

/// Plans a deposit that mints `asking_lp_amount` LP units for at most `max_x`
/// and `max_y` of the two assets.
pub fn deposit(accounts: &Deposit, asking_lp_amount: u64, max_x: u64, max_y: u64) -> (r: Result<
    Vec<LedgerOp>,
    AmmError,
>)
    ensures
        plan_view(r) == accounts.deposit_spec(asking_lp_amount, max_x, max_y),
{
    accounts.deposit(asking_lp_amount, max_x, max_y)
}

/// Plans a trade of `deposit_amount` of X (or of Y, where the flag is not
/// set) for the other asset.
pub fn swap(accounts: &Swap, is_deposit_token_x: bool, deposit_amount: u64) -> (r: Result<
    Vec<LedgerOp>,
    AmmError,
>)
    ensures
        plan_view(r) == accounts.swap_spec(is_deposit_token_x, deposit_amount),
{
    accounts.swap(is_deposit_token_x, deposit_amount)
}

/// Plans the redemption of `lp_token_amount` LP units for a share of both
/// reserves.
pub fn withdraw(accounts: &Withdraw, lp_token_amount: u64) -> (r: Result<Vec<LedgerOp>, AmmError>)
    ensures
        plan_view(r) == accounts.withdraw_spec(lp_token_amount),
{
    accounts.withdraw(lp_token_amount)
}

} // verus!
