//! The persistent parameters of a pool.

use crate::constants::BPS_DENOMINATOR;
use crate::ledger::PoolSigner;
use anchor_lang::prelude::Pubkey;
use vstd::prelude::*;

verus! {

/// `anchor_lang::prelude::Pubkey` (the `Pubkey` of `solana_pubkey`), the
/// 32-byte identifier of an account. Nothing is claimed of it: the engine
/// only carries such identifiers from its inputs to the configuration and
/// never looks inside one.
#[verifier::external_type_specification]
#[verifier::external_body]
pub struct ExPubkey(anchor_lang::prelude::Pubkey);

/// The parameters of one pool. They are written once, when the pool is
/// created, and only read afterwards.
#[derive(Clone, Copy, Debug, PartialEq, Eq)]
pub struct Config {
    /// Tells apart several pools over the same pair of assets.
    pub seed: u64,
    /// A privileged party, if the pool has one. No operation consults it yet.
    pub authority: Option<Pubkey>,
    /// The first traded asset.
    pub token_mint_x: Pubkey,
    /// The second traded asset.
    pub token_mint_y: Pubkey,
    /// The trading fee in basis points.
    pub fee: u16,
    /// While set, swaps and withdrawals are refused.
    pub locked: bool,
    /// Binds the configuration to its derived address.
    pub config_bump: u8,
    /// Binds the LP asset to its derived address.
    pub lp_bump: u8,
}

impl Config {
    /// The fee is a proper fraction of the traded amount.
    pub open spec fn wf(self) -> bool {
        self.fee < BPS_DENOMINATOR
    }

    /// The capability under which the pool signs for its own vaults.
    pub open spec fn signer(self) -> PoolSigner {
        PoolSigner { seed: self.seed, bump: self.config_bump }
    }
}

} // verus!
