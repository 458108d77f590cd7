//! Creation of a pool.

use crate::error::AmmError;
use crate::state::Config;
use anchor_lang::prelude::Pubkey;
use vstd::prelude::*;

verus! {

/// The markers of the addresses that were derived for a new pool.
#[derive(Clone, Copy, Debug)]
pub struct InitializeBumps {
    /// Marker of the configuration's address.
    pub config: u8,
    /// Marker of the LP asset's address.
    pub token_mint_lp: u8,
}

/// What the creation of a pool reads: the two assets it is to trade.
#[derive(Clone, Copy, Debug)]
pub struct Initialize {
    pub token_mint_x: Pubkey,
    pub token_mint_y: Pubkey,
}

impl Initialize {
    /// The configuration that [`Initialize::init`] answers with.
    pub open spec fn init_spec(
        self,
        seed: u64,
        fee: u16,
        authority: Option<Pubkey>,
        bumps: InitializeBumps,
    ) -> Config {
        Config {
            seed,
            authority,
            token_mint_x: self.token_mint_x,
            token_mint_y: self.token_mint_y,
            fee,
            locked: false,
            config_bump: bumps.config,
            lp_bump: bumps.token_mint_lp,
        }
    }

    /// The configuration of the new pool: unlocked, with the given fee and
    /// authority. The vaults and the LP supply start empty.
    ///
    /// The fee is recorded as given. A configuration is well formed only
    /// with a fee below the whole; a swap on any other is quoted as
    /// [`crate::curve::swap_quote_spec`] says.
    pub fn init(&self, seed: u64, fee: u16, authority: Option<Pubkey>, bumps: &InitializeBumps) -> (r:
        Result<Config, AmmError>)
        ensures
            r == Ok::<Config, AmmError>(self.init_spec(seed, fee, authority, *bumps)),
    {
        Ok(
            Config {
                seed,
                authority,
                token_mint_x: self.token_mint_x,
                token_mint_y: self.token_mint_y,
                fee,
                locked: false,
                config_bump: bumps.config,
                lp_bump: bumps.token_mint_lp,
            },
        )
    }
}

} // verus!
