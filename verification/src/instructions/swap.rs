//! A trade of one asset for the other.

use crate::curve::{swap_quote, swap_quote_spec};
use crate::error::AmmError;
use crate::ledger::{Balances, plan_view, Asset, LedgerOp, PoolSigner, TokenAccount};
use crate::state::Config;
use vstd::prelude::*;

verus! {

/// What a swap reads: the configuration and the two reserves as they stand
/// before the trade.
#[derive(Clone, Copy, Debug)]
pub struct Swap {
    pub config: Config,
    pub token_x_vault: TokenAccount,
    pub token_y_vault: TokenAccount,
}

impl Swap {
    /// The snapshot was taken of `balances`.
    pub open spec fn reads(self, balances: Balances) -> bool {
        &&& self.token_x_vault.amount == balances.vault_x
        &&& self.token_y_vault.amount == balances.vault_y
    }

    /// The reserve of the asset that the trader brings.
    pub open spec fn reserve_in(self, is_deposit_token_x: bool) -> u64 {
        if is_deposit_token_x {
            self.token_x_vault.amount
        } else {
            self.token_y_vault.amount
        }
    }

    /// The reserve of the asset that the trader is paid in.
    pub open spec fn reserve_out(self, is_deposit_token_x: bool) -> u64 {
        if is_deposit_token_x {
            self.token_y_vault.amount
        } else {
            self.token_x_vault.amount
        }
    }

    /// The instruction that [`Swap::deposit_token`] answers with.
    pub open spec fn deposit_token_spec(self, is_deposit_token_x: bool, deposit_amount: u64)
        -> LedgerOp {
        LedgerOp::TransferIn { asset: Asset::pick(is_deposit_token_x), amount: deposit_amount }
    }

    /// The instruction that [`Swap::withdraw_token`] answers with.
    pub open spec fn withdraw_token_spec(self, is_withdraw_token_x: bool, withdraw_amount: u64)
        -> LedgerOp {
        LedgerOp::TransferOut {
            asset: Asset::pick(is_withdraw_token_x),
            amount: withdraw_amount,
            signer: self.config.signer(),
        }
    }

    /// The outcome of [`Swap::swap`]: the lock is looked at first, then the
    /// amount, then the curve.
    pub open spec fn swap_spec(self, is_deposit_token_x: bool, deposit_amount: u64) -> Result<
        Seq<LedgerOp>,
        AmmError,
    > {
        if self.config.locked {
            Err(AmmError::PoolLocked)
        } else if deposit_amount == 0 {
            Err(AmmError::InvalidAmount)
        } else {
            match swap_quote_spec(
                self.reserve_in(is_deposit_token_x),
                self.reserve_out(is_deposit_token_x),
                deposit_amount,
                self.config.fee,
            ) {
                Ok(withdraw_amount) => Ok(
                    seq![
                        self.deposit_token_spec(is_deposit_token_x, deposit_amount),
                        self.withdraw_token_spec(!is_deposit_token_x, withdraw_amount),
                    ],
                ),
                Err(e) => Err(e),
            }
        }
    }

    /// Plans a trade of `deposit_amount` of X (or of Y, where the flag is not
    /// set) for the other asset.
    ///
    /// The quote is taken on the reserves before the trade. The plan moves
    /// the trader's amount into its vault first and pays the trader second.
    pub fn swap(&self, is_deposit_token_x: bool, deposit_amount: u64) -> (r: Result<
        Vec<LedgerOp>,
        AmmError,
    >)
        ensures
            plan_view(r) == self.swap_spec(is_deposit_token_x, deposit_amount),
    {
        if self.config.locked {
            return Err(AmmError::PoolLocked);
        }
        if deposit_amount == 0 {
            return Err(AmmError::InvalidAmount);
        }
        let quote = match is_deposit_token_x {
            true => swap_quote(
                self.token_x_vault.amount,
                self.token_y_vault.amount,
                deposit_amount,
                self.config.fee,
            ),
            false => swap_quote(
                self.token_y_vault.amount,
                self.token_x_vault.amount,
                deposit_amount,
                self.config.fee,
            ),
        };
        match quote {
            Ok(withdraw_amount) => {
                let mut ops: Vec<LedgerOp> = Vec::new();
                ops.push(self.deposit_token(is_deposit_token_x, deposit_amount));
                ops.push(self.withdraw_token(!is_deposit_token_x, withdraw_amount));
                assert(ops@ == seq![
                    self.deposit_token_spec(is_deposit_token_x, deposit_amount),
                    self.withdraw_token_spec(!is_deposit_token_x, withdraw_amount),
                ]);
                Ok(ops)
            },
            Err(e) => Err(e),
        }
    }

    /// The transfer of the trader's amount into the vault of its asset,
    /// authorized by the trader.
    pub fn deposit_token(&self, is_deposit_token_x: bool, deposit_amount: u64) -> (op: LedgerOp)
        ensures
            op == self.deposit_token_spec(is_deposit_token_x, deposit_amount),
    {
        LedgerOp::TransferIn { asset: Asset::select(is_deposit_token_x), amount: deposit_amount }
    }

    /// The transfer that pays the trader from the vault of the other asset,
    /// signed by the pool.
    pub fn withdraw_token(&self, is_withdraw_token_x: bool, withdraw_amount: u64) -> (op: LedgerOp)
        ensures
            op == self.withdraw_token_spec(is_withdraw_token_x, withdraw_amount),
    {
        LedgerOp::TransferOut {
            asset: Asset::select(is_withdraw_token_x),
            amount: withdraw_amount,
            signer: PoolSigner { seed: self.config.seed, bump: self.config.config_bump },
        }
    }
}

} // verus!
