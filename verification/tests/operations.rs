use amm::constants::{BPS_DENOMINATOR, LP_DECIMALS};
use amm::error::AmmError;
use amm::instructions::deposit::Deposit;
use amm::instructions::initialize::{Initialize, InitializeBumps};
use amm::instructions::swap::Swap;
use amm::instructions::withdraw::Withdraw;
use amm::ledger::{Asset, Balances, LedgerOp, Mint, PoolSigner, TokenAccount};
use amm::state::Config;
use anchor_lang::prelude::Pubkey;

fn mint_x() -> Pubkey {
    Pubkey::new_from_array([1; 32])
}

fn mint_y() -> Pubkey {
    Pubkey::new_from_array([2; 32])
}

fn config(fee: u16, locked: bool) -> Config {
    Config {
        seed: 7,
        authority: None,
        token_mint_x: mint_x(),
        token_mint_y: mint_y(),
        fee,
        locked,
        config_bump: 254,
        lp_bump: 253,
    }
}

fn pool_signer() -> PoolSigner {
    PoolSigner { seed: 7, bump: 254 }
}

fn swap_of(fee: u16, locked: bool, x: u64, y: u64) -> Swap {
    Swap {
        config: config(fee, locked),
        token_x_vault: TokenAccount { amount: x },
        token_y_vault: TokenAccount { amount: y },
    }
}

fn withdraw_of(locked: bool, x: u64, y: u64, supply: u64) -> Withdraw {
    Withdraw {
        config: config(30, locked),
        token_mint_lp: Mint { supply },
        token_x_vault: TokenAccount { amount: x },
        token_y_vault: TokenAccount { amount: y },
    }
}

fn deposit_of(locked: bool, x: u64, y: u64, supply: u64) -> Deposit {
    Deposit {
        config: config(30, locked),
        token_mint_lp: Mint { supply },
        token_x_vault: TokenAccount { amount: x },
        token_y_vault: TokenAccount { amount: y },
    }
}

#[test]
fn constants_have_their_values() {
    assert_eq!(BPS_DENOMINATOR, 10000);
    assert_eq!(LP_DECIMALS, 6);
}

#[test]
fn initialize_records_what_it_is_given() {
    let accounts = Initialize { token_mint_x: mint_x(), token_mint_y: mint_y() };
    let bumps = InitializeBumps { config: 254, token_mint_lp: 253 };
    let authority = Pubkey::new_from_array([9; 32]);
    let made = amm::initialize(&accounts, &bumps, 7, Some(authority), 30).unwrap();
    assert_eq!(
        made,
        Config {
            seed: 7,
            authority: Some(authority),
            token_mint_x: mint_x(),
            token_mint_y: mint_y(),
            fee: 30,
            locked: false,
            config_bump: 254,
            lp_bump: 253,
        }
    );
    assert_eq!(accounts.init(7, 30, Some(authority), &bumps), Ok(made));
}

#[test]
fn initialize_without_authority_and_with_any_fee() {
    let accounts = Initialize { token_mint_x: mint_x(), token_mint_y: mint_y() };
    let bumps = InitializeBumps { config: 1, token_mint_lp: 2 };
    let made = amm::initialize(&accounts, &bumps, u64::MAX, None, u16::MAX).unwrap();
    assert_eq!(made.authority, None);
    assert_eq!(made.seed, u64::MAX);
    assert_eq!(made.fee, u16::MAX);
    assert!(!made.locked);
    assert_eq!(made.config_bump, 1);
    assert_eq!(made.lp_bump, 2);
}

#[test]
fn swap_of_x_moves_x_in_and_pays_y() {
    let accounts = swap_of(30, false, 1000, 2000);
    let plan = amm::swap(&accounts, true, 100).unwrap();
    assert_eq!(
        plan,
        vec![
            LedgerOp::TransferIn { asset: Asset::X, amount: 100 },
            LedgerOp::TransferOut { asset: Asset::Y, amount: 180, signer: pool_signer() },
        ]
    );
    assert_eq!(accounts.swap(true, 100), Ok(plan));
}

#[test]
fn swap_of_y_moves_y_in_and_pays_x() {
    let accounts = swap_of(30, false, 1000, 2000);
    let plan = amm::swap(&accounts, false, 200).unwrap();
    assert_eq!(
        plan,
        vec![
            LedgerOp::TransferIn { asset: Asset::Y, amount: 200 },
            LedgerOp::TransferOut { asset: Asset::X, amount: 90, signer: pool_signer() },
        ]
    );
}

#[test]
fn swap_legs_name_their_asset_and_signer() {
    let accounts = swap_of(30, false, 1000, 2000);
    assert_eq!(
        accounts.deposit_token(true, 5),
        LedgerOp::TransferIn { asset: Asset::X, amount: 5 }
    );
    assert_eq!(
        accounts.deposit_token(false, 5),
        LedgerOp::TransferIn { asset: Asset::Y, amount: 5 }
    );
    assert_eq!(
        accounts.withdraw_token(true, 6),
        LedgerOp::TransferOut { asset: Asset::X, amount: 6, signer: pool_signer() }
    );
    assert_eq!(
        accounts.withdraw_token(false, 6),
        LedgerOp::TransferOut { asset: Asset::Y, amount: 6, signer: pool_signer() }
    );
}

#[test]
fn swap_settles_on_the_ledger_and_never_lowers_the_product() {
    for fee in [0u16, 1, 30, 9999, 10000] {
        for (x, y, amount, is_x) in
            [(1000u64, 2000u64, 100u64, true), (1000, 2000, 100, false), (3, 5, 1, true)]
        {
            let before = Balances { vault_x: x, vault_y: y, lp_supply: 77 };
            let plan = swap_of(fee, false, x, y).swap(is_x, amount).unwrap();
            let after = before.settle(&plan).unwrap();
            let was = x as u128 * y as u128;
            let is = after.vault_x as u128 * after.vault_y as u128;
            assert!(is >= was);
            if fee > 0 {
                assert!(is > was);
            }
            assert_eq!(after.lp_supply, 77);
        }
    }
}

#[test]
fn swap_at_zero_fee_can_keep_the_product() {
    let before = Balances { vault_x: 1000, vault_y: 1000, lp_supply: 1 };
    let plan = swap_of(0, false, 1000, 1000).swap(true, 1000).unwrap();
    let after = before.settle(&plan).unwrap();
    assert_eq!(after, Balances { vault_x: 2000, vault_y: 500, lp_supply: 1 });
}

#[test]
fn swap_of_nothing_is_an_invalid_amount() {
    let accounts = swap_of(30, false, 1000, 2000);
    assert_eq!(amm::swap(&accounts, true, 0), Err(AmmError::InvalidAmount));
    assert_eq!(amm::swap(&accounts, false, 0), Err(AmmError::InvalidAmount));
}

#[test]
fn swap_on_a_locked_pool_is_refused_for_any_amount() {
    let accounts = swap_of(30, true, 1000, 2000);
    for amount in [0u64, 1, 100, u64::MAX] {
        assert_eq!(amm::swap(&accounts, true, amount), Err(AmmError::PoolLocked));
        assert_eq!(amm::swap(&accounts, false, amount), Err(AmmError::PoolLocked));
    }
}

#[test]
fn swap_hands_on_the_refusals_of_the_curve() {
    assert_eq!(swap_of(30, false, 0, 2000).swap(true, 100), Err(AmmError::InsufficientLiquidity));
    assert_eq!(swap_of(30, false, 0, 2000).swap(false, 100), Err(AmmError::InsufficientLiquidity));
    assert_eq!(swap_of(30, false, 0, 0).swap(true, 100), Err(AmmError::InsufficientLiquidity));
    assert_eq!(swap_of(10001, false, 1000, 2000).swap(true, 100), Err(AmmError::MathOverflow));
}

#[test]
fn withdraw_burns_then_pays_both_shares() {
    let accounts = withdraw_of(false, 1000, 2000, 1000);
    let plan = amm::withdraw(&accounts, 100).unwrap();
    assert_eq!(
        plan,
        vec![
            LedgerOp::BurnLp { amount: 100 },
            LedgerOp::TransferOut { asset: Asset::X, amount: 100, signer: pool_signer() },
            LedgerOp::TransferOut { asset: Asset::Y, amount: 200, signer: pool_signer() },
        ]
    );
    assert_eq!(accounts.withdraw(100), Ok(plan.clone()));
    let before = Balances { vault_x: 1000, vault_y: 2000, lp_supply: 1000 };
    assert_eq!(
        before.settle(&plan),
        Some(Balances { vault_x: 900, vault_y: 1800, lp_supply: 900 })
    );
}

#[test]
fn withdraw_legs_name_their_asset_and_signer() {
    let accounts = withdraw_of(false, 1000, 2000, 1000);
    assert_eq!(accounts.burn_lp_token(11), LedgerOp::BurnLp { amount: 11 });
    assert_eq!(
        accounts.withdraw_token(true, 6),
        LedgerOp::TransferOut { asset: Asset::X, amount: 6, signer: pool_signer() }
    );
    assert_eq!(
        accounts.withdraw_token(false, 6),
        LedgerOp::TransferOut { asset: Asset::Y, amount: 6, signer: pool_signer() }
    );
}

#[test]
fn withdraw_of_the_whole_supply_empties_the_pool() {
    let accounts = withdraw_of(false, 1234, 5678, 42);
    let plan = accounts.withdraw(42).unwrap();
    let before = Balances { vault_x: 1234, vault_y: 5678, lp_supply: 42 };
    assert_eq!(before.settle(&plan), Some(Balances { vault_x: 0, vault_y: 0, lp_supply: 0 }));
}

#[test]
fn withdraw_of_nothing_is_an_invalid_amount() {
    assert_eq!(amm::withdraw(&withdraw_of(false, 1000, 2000, 1000), 0), Err(AmmError::InvalidAmount));
}

#[test]
fn withdraw_of_more_than_the_supply_is_an_invalid_amount() {
    let accounts = withdraw_of(false, 1000, 2000, 1000);
    assert_eq!(amm::withdraw(&accounts, 1001), Err(AmmError::InvalidAmount));
    assert_eq!(amm::withdraw(&withdraw_of(false, 0, 0, 0), 1), Err(AmmError::InvalidAmount));
}

#[test]
fn withdraw_on_a_locked_pool_is_refused_for_any_amount() {
    let accounts = withdraw_of(true, 1000, 2000, 1000);
    for amount in [0u64, 1, 1000, 1001, u64::MAX] {
        assert_eq!(amm::withdraw(&accounts, amount), Err(AmmError::PoolLocked));
    }
}

#[test]
fn deposit_moves_both_assets_in_then_mints() {
    let accounts = deposit_of(false, 1000, 2000, 1000);
    let plan = amm::deposit(&accounts, 100, 100, 200).unwrap();
    assert_eq!(
        plan,
        vec![
            LedgerOp::TransferIn { asset: Asset::X, amount: 100 },
            LedgerOp::TransferIn { asset: Asset::Y, amount: 200 },
            LedgerOp::MintLp { amount: 100, signer: pool_signer() },
        ]
    );
    assert_eq!(accounts.deposit(100, 100, 200), Ok(plan.clone()));
    let before = Balances { vault_x: 1000, vault_y: 2000, lp_supply: 1000 };
    assert_eq!(
        before.settle(&plan),
        Some(Balances { vault_x: 1100, vault_y: 2200, lp_supply: 1100 })
    );
}

#[test]
fn deposit_legs_name_their_asset_and_signer() {
    let accounts = deposit_of(false, 1000, 2000, 1000);
    assert_eq!(
        accounts.deposit_tokens(true, 5),
        LedgerOp::TransferIn { asset: Asset::X, amount: 5 }
    );
    assert_eq!(
        accounts.deposit_tokens(false, 5),
        LedgerOp::TransferIn { asset: Asset::Y, amount: 5 }
    );
    assert_eq!(
        accounts.mint_lp_tokens(9),
        LedgerOp::MintLp { amount: 9, signer: pool_signer() }
    );
}

#[test]
fn first_deposit_sets_the_ratio() {
    let accounts = deposit_of(false, 0, 0, 0);
    let plan = amm::deposit(&accounts, 500, 10, 20).unwrap();
    assert_eq!(
        plan,
        vec![
            LedgerOp::TransferIn { asset: Asset::X, amount: 10 },
            LedgerOp::TransferIn { asset: Asset::Y, amount: 20 },
            LedgerOp::MintLp { amount: 500, signer: pool_signer() },
        ]
    );
}

#[test]
fn deposit_of_nothing_is_an_invalid_amount() {
    assert_eq!(
        amm::deposit(&deposit_of(false, 1000, 2000, 1000), 0, 100, 200),
        Err(AmmError::InvalidAmount)
    );
    assert_eq!(amm::deposit(&deposit_of(false, 0, 0, 0), 0, 1, 1), Err(AmmError::InvalidAmount));
    assert_eq!(amm::deposit(&deposit_of(true, 0, 0, 0), 0, 1, 1), Err(AmmError::InvalidAmount));
}

#[test]
fn deposit_above_a_cap_exceeds_slippage() {
    let accounts = deposit_of(false, 1000, 2000, 1000);
    assert_eq!(amm::deposit(&accounts, 100, 99, 200), Err(AmmError::SlippageExceeded));
    assert_eq!(amm::deposit(&accounts, 100, 100, 199), Err(AmmError::SlippageExceeded));
}

#[test]
fn deposit_is_the_same_on_a_locked_pool() {
    for (x, y, supply, asking, max_x, max_y) in [
        (1000u64, 2000u64, 1000u64, 100u64, 100u64, 200u64),
        (1000, 2000, 1000, 100, 99, 200),
        (0, 0, 0, 5, 1, 2),
        (1000, 2000, 1000, 0, 1, 1),
    ] {
        assert_eq!(
            deposit_of(true, x, y, supply).deposit(asking, max_x, max_y),
            deposit_of(false, x, y, supply).deposit(asking, max_x, max_y)
        );
    }
    assert!(deposit_of(true, 1000, 2000, 1000).deposit(100, 100, 200).is_ok());
}

#[test]
fn round_trip_returns_no_more_than_it_brought() {
    for (x, y, supply, asking) in [
        (1000u64, 2000u64, 1000u64, 100u64),
        (1001, 1999, 1000, 7),
        (3, 5, 7, 11),
        (999_999_937, 17, 1_000_003, 999_983),
        (0, 0, 0, 500),
    ] {
        let before = Balances { vault_x: x, vault_y: y, lp_supply: supply };
        let brought = deposit_of(false, x, y, supply).deposit(asking, 1 << 40, 1 << 40).unwrap();
        let between = before.settle(&brought).unwrap();
        let returned = withdraw_of(false, between.vault_x, between.vault_y, between.lp_supply)
            .withdraw(asking)
            .unwrap();
        let after = between.settle(&returned).unwrap();
        assert!(between.vault_x - after.vault_x <= between.vault_x - before.vault_x);
        assert!(between.vault_y - after.vault_y <= between.vault_y - before.vault_y);
        assert_eq!(after.lp_supply, before.lp_supply);
    }
}

#[test]
fn round_trip_with_rounding_costs_the_depositor() {
    let before = Balances { vault_x: 1001, vault_y: 1999, lp_supply: 1000 };
    let brought = deposit_of(false, 1001, 1999, 1000).deposit(7, 8, 14).unwrap();
    let between = before.settle(&brought).unwrap();
    assert_eq!(between, Balances { vault_x: 1009, vault_y: 2013, lp_supply: 1007 });
    let returned = withdraw_of(false, 1009, 2013, 1007).withdraw(7).unwrap();
    assert_eq!(
        returned,
        vec![
            LedgerOp::BurnLp { amount: 7 },
            LedgerOp::TransferOut { asset: Asset::X, amount: 7, signer: pool_signer() },
            LedgerOp::TransferOut { asset: Asset::Y, amount: 13, signer: pool_signer() },
        ]
    );
}

#[test]
fn refused_operations_leave_no_instruction() {
    // a refusal carries no plan; the balances it was asked about are as before
    let balances = Balances { vault_x: 1000, vault_y: 2000, lp_supply: 1000 };
    assert!(swap_of(30, false, 1000, 2000).swap(true, 0).is_err());
    assert!(withdraw_of(false, 1000, 2000, 1000).withdraw(0).is_err());
    assert!(deposit_of(false, 1000, 2000, 1000).deposit(0, 1, 1).is_err());
    assert_eq!(balances.settle(&Vec::new()), Some(balances));
}
