//! Provision of both assets against newly minted LP units.

use crate::curve::{deposit_quote, deposit_quote_spec};
use crate::error::AmmError;
use crate::ledger::{Balances, plan_view, Asset, LedgerOp, Mint, PoolSigner, TokenAccount};
use crate::state::Config;
use vstd::prelude::*;

verus! {

/// What a deposit reads: the configuration, the LP supply and the two
/// reserves as they stand before it.
#[derive(Clone, Copy, Debug)]
pub struct Deposit {
    pub config: Config,
    pub token_mint_lp: Mint,
    pub token_x_vault: TokenAccount,
    pub token_y_vault: TokenAccount,
}

impl Deposit {
    /// The snapshot was taken of `balances`.
    pub open spec fn reads(self, balances: Balances) -> bool {
        &&& self.token_x_vault.amount == balances.vault_x
        &&& self.token_y_vault.amount == balances.vault_y
        &&& self.token_mint_lp.supply == balances.lp_supply
    }

    /// The instruction that [`Deposit::deposit_tokens`] answers with.
    pub open spec fn deposit_tokens_spec(self, is_x: bool, amount: u64) -> LedgerOp {
        LedgerOp::TransferIn { asset: Asset::pick(is_x), amount }
    }

    /// The instruction that [`Deposit::mint_lp_tokens`] answers with.
    pub open spec fn mint_lp_tokens_spec(self, amount: u64) -> LedgerOp {
        LedgerOp::MintLp { amount, signer: self.config.signer() }
    }

    /// The outcome of [`Deposit::deposit`]: the amount is looked at first,
    /// then the quote. The lock is not consulted.
    pub open spec fn deposit_spec(self, asking_lp_amount: u64, max_x: u64, max_y: u64) -> Result<
        Seq<LedgerOp>,
        AmmError,
    > {
        if asking_lp_amount == 0 {
            Err(AmmError::InvalidAmount)
        } else {
            match deposit_quote_spec(
                self.token_x_vault.amount,
                self.token_y_vault.amount,
                self.token_mint_lp.supply,
                asking_lp_amount,
                max_x,
                max_y,
            ) {
                Ok((x_in, y_in)) => Ok(
                    seq![
                        self.deposit_tokens_spec(true, x_in),
                        self.deposit_tokens_spec(false, y_in),
                        self.mint_lp_tokens_spec(asking_lp_amount),
                    ],
                ),
                Err(e) => Err(e),
            }
        }
    }

    /// Plans a deposit that mints `asking_lp_amount` LP units and takes at
    /// most `max_x` and `max_y` of the two assets.
    ///
    /// The plan moves X into its vault first, then Y, then mints. A locked
    /// pool takes deposits like an unlocked one: the lock stops what leaves
    /// the pool, not what enters it.
    pub fn deposit(&self, asking_lp_amount: u64, max_x: u64, max_y: u64) -> (r: Result<
        Vec<LedgerOp>,
        AmmError,
    >)
        ensures
            plan_view(r) == self.deposit_spec(asking_lp_amount, max_x, max_y),
    {
        if asking_lp_amount == 0 {
            return Err(AmmError::InvalidAmount);
        }
        let amounts = deposit_quote(
            self.token_x_vault.amount,
            self.token_y_vault.amount,
            self.token_mint_lp.supply,
            asking_lp_amount,
            max_x,
            max_y,
        );
        match amounts {
            Ok((x_in, y_in)) => {
                let mut ops: Vec<LedgerOp> = Vec::new();
                ops.push(self.deposit_tokens(true, x_in));
                ops.push(self.deposit_tokens(false, y_in));
                ops.push(self.mint_lp_tokens(asking_lp_amount));
                assert(ops@ == seq![
                    self.deposit_tokens_spec(true, x_in),
                    self.deposit_tokens_spec(false, y_in),
                    self.mint_lp_tokens_spec(asking_lp_amount),
                ]);
                Ok(ops)
            },
            Err(e) => Err(e),
        }
    }

    /// The transfer of the depositor's amount into the vault of X (or of Y,
    /// where the flag is not set), authorized by the depositor.
    pub fn deposit_tokens(&self, is_x: bool, amount: u64) -> (op: LedgerOp)
        ensures
            op == self.deposit_tokens_spec(is_x, amount),
    {
        LedgerOp::TransferIn { asset: Asset::select(is_x), amount }
    }

    /// The mint of the new LP units to the depositor, signed by the pool.
    pub fn mint_lp_tokens(&self, amount: u64) -> (op: LedgerOp)
        ensures
            op == self.mint_lp_tokens_spec(amount),
    {
        LedgerOp::MintLp {
            amount,
            signer: PoolSigner { seed: self.config.seed, bump: self.config.config_bump },
        }
    }
}

} // verus!
