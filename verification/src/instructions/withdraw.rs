//! Redemption of LP units for a share of both reserves.

use crate::constants::LP_DECIMALS;
use crate::curve::{withdraw_split, withdraw_split_spec};
use crate::error::AmmError;
use crate::ledger::{Balances, plan_view, Asset, LedgerOp, Mint, PoolSigner, TokenAccount};
use crate::state::Config;
use vstd::prelude::*;

verus! {

/// What a withdrawal reads: the configuration, the LP supply and the two
/// reserves as they stand before it.
#[derive(Clone, Copy, Debug)]
pub struct Withdraw {
    pub config: Config,
    pub token_mint_lp: Mint,
    pub token_x_vault: TokenAccount,
    pub token_y_vault: TokenAccount,
}

impl Withdraw {
    /// The snapshot was taken of `balances`.
    pub open spec fn reads(self, balances: Balances) -> bool {
        &&& self.token_x_vault.amount == balances.vault_x
        &&& self.token_y_vault.amount == balances.vault_y
        &&& self.token_mint_lp.supply == balances.lp_supply
    }

    /// The instruction that [`Withdraw::burn_lp_token`] answers with.
    pub open spec fn burn_lp_token_spec(self, lp_token_amount: u64) -> LedgerOp {
        LedgerOp::BurnLp { amount: lp_token_amount }
    }

    /// The instruction that [`Withdraw::withdraw_token`] answers with.
    pub open spec fn withdraw_token_spec(self, is_x: bool, withdraw_amount: u64) -> LedgerOp {
        LedgerOp::TransferOut {
            asset: Asset::pick(is_x),
            amount: withdraw_amount,
            signer: self.config.signer(),
        }
    }

    /// The outcome of [`Withdraw::withdraw`]: the lock is looked at first,
    /// then the amount, then the split.
    pub open spec fn withdraw_spec(self, lp_token_amount: u64) -> Result<Seq<LedgerOp>, AmmError> {
        if self.config.locked {
            Err(AmmError::PoolLocked)
        } else if lp_token_amount == 0 {
            Err(AmmError::InvalidAmount)
        } else {
            match withdraw_split_spec(
                self.token_x_vault.amount,
                self.token_y_vault.amount,
                self.token_mint_lp.supply,
                lp_token_amount,
            ) {
                Ok((x_out, y_out)) => Ok(
                    seq![
                        self.burn_lp_token_spec(lp_token_amount),
                        self.withdraw_token_spec(true, x_out),
                        self.withdraw_token_spec(false, y_out),
                    ],
                ),
                Err(e) => Err(e),
            }
        }
    }

    /// Plans the redemption of `lp_token_amount` LP units.
    ///
    /// The plan burns the units first, then pays the share of X, then the
    /// share of Y.
    pub fn withdraw(&self, lp_token_amount: u64) -> (r: Result<Vec<LedgerOp>, AmmError>)
        ensures
            plan_view(r) == self.withdraw_spec(lp_token_amount),
    {
        if self.config.locked {
            return Err(AmmError::PoolLocked);
        }
        if lp_token_amount == 0 {
            return Err(AmmError::InvalidAmount);
        }
        let xy_amounts = withdraw_split(
            self.token_x_vault.amount,
            self.token_y_vault.amount,
            self.token_mint_lp.supply,
            lp_token_amount,
            LP_DECIMALS,
        );
        match xy_amounts {
            Ok((x_out, y_out)) => {
                let mut ops: Vec<LedgerOp> = Vec::new();
                ops.push(self.burn_lp_token(lp_token_amount));
                ops.push(self.withdraw_token(true, x_out));
                ops.push(self.withdraw_token(false, y_out));
                assert(ops@ == seq![
                    self.burn_lp_token_spec(lp_token_amount),
                    self.withdraw_token_spec(true, x_out),
                    self.withdraw_token_spec(false, y_out),
                ]);
                Ok(ops)
            },
            Err(e) => Err(e),
        }
    }

    /// The burn of the redeemed LP units, authorized by their holder.
    pub fn burn_lp_token(&self, lp_token_amount: u64) -> (op: LedgerOp)
        ensures
            op == self.burn_lp_token_spec(lp_token_amount),
    {
        LedgerOp::BurnLp { amount: lp_token_amount }
    }

    /// The transfer that pays the holder from the vault of X (or of Y, where
    /// the flag is not set), signed by the pool.
    pub fn withdraw_token(&self, is_x: bool, withdraw_amount: u64) -> (op: LedgerOp)
        ensures
            op == self.withdraw_token_spec(is_x, withdraw_amount),
    {
        LedgerOp::TransferOut {
            asset: Asset::select(is_x),
            amount: withdraw_amount,
            signer: PoolSigner { seed: self.config.seed, bump: self.config.config_bump },
        }
    }
}

} // verus!
