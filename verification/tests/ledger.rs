use amm::ledger::{Asset, Balances, LedgerOp, PoolSigner};

fn signer() -> PoolSigner {
    PoolSigner { seed: 1, bump: 255 }
}

#[test]
fn asset_is_selected_by_flag() {
    assert_eq!(Asset::select(true), Asset::X);
    assert_eq!(Asset::select(false), Asset::Y);
}

#[test]
fn apply_moves_one_balance() {
    let b = Balances { vault_x: 10, vault_y: 20, lp_supply: 30 };
    assert_eq!(
        b.apply(&LedgerOp::TransferIn { asset: Asset::X, amount: 5 }),
        Some(Balances { vault_x: 15, vault_y: 20, lp_supply: 30 })
    );
    assert_eq!(
        b.apply(&LedgerOp::TransferIn { asset: Asset::Y, amount: 5 }),
        Some(Balances { vault_x: 10, vault_y: 25, lp_supply: 30 })
    );
    assert_eq!(
        b.apply(&LedgerOp::TransferOut { asset: Asset::X, amount: 10, signer: signer() }),
        Some(Balances { vault_x: 0, vault_y: 20, lp_supply: 30 })
    );
    assert_eq!(
        b.apply(&LedgerOp::TransferOut { asset: Asset::Y, amount: 1, signer: signer() }),
        Some(Balances { vault_x: 10, vault_y: 19, lp_supply: 30 })
    );
    assert_eq!(
        b.apply(&LedgerOp::MintLp { amount: 4, signer: signer() }),
        Some(Balances { vault_x: 10, vault_y: 20, lp_supply: 34 })
    );
    assert_eq!(
        b.apply(&LedgerOp::BurnLp { amount: 30 }),
        Some(Balances { vault_x: 10, vault_y: 20, lp_supply: 0 })
    );
}

#[test]
fn apply_refuses_what_a_balance_cannot_hold() {
    let b = Balances { vault_x: 10, vault_y: u64::MAX, lp_supply: 30 };
    assert_eq!(b.apply(&LedgerOp::TransferIn { asset: Asset::Y, amount: 1 }), None);
    assert_eq!(b.apply(&LedgerOp::TransferIn { asset: Asset::X, amount: u64::MAX }), None);
    assert_eq!(
        b.apply(&LedgerOp::TransferOut { asset: Asset::X, amount: 11, signer: signer() }),
        None
    );
    assert_eq!(b.apply(&LedgerOp::BurnLp { amount: 31 }), None);
    assert_eq!(b.apply(&LedgerOp::MintLp { amount: u64::MAX, signer: signer() }), None);
}

#[test]
fn settle_is_all_or_nothing() {
    let b = Balances { vault_x: 10, vault_y: 20, lp_supply: 30 };
    let good = vec![
        LedgerOp::TransferIn { asset: Asset::X, amount: 5 },
        LedgerOp::TransferOut { asset: Asset::Y, amount: 20, signer: signer() },
    ];
    assert_eq!(b.settle(&good), Some(Balances { vault_x: 15, vault_y: 0, lp_supply: 30 }));
    let bad = vec![
        LedgerOp::TransferIn { asset: Asset::X, amount: 5 },
        LedgerOp::TransferOut { asset: Asset::Y, amount: 21, signer: signer() },
    ];
    assert_eq!(b.settle(&bad), None);
    assert_eq!(b.settle(&Vec::new()), Some(b));
}

#[test]
fn settle_goes_in_order() {
    let b = Balances { vault_x: 0, vault_y: 0, lp_supply: 0 };
    let out_then_in = vec![
        LedgerOp::TransferOut { asset: Asset::X, amount: 5, signer: signer() },
        LedgerOp::TransferIn { asset: Asset::X, amount: 5 },
    ];
    assert_eq!(b.settle(&out_then_in), None);
    let in_then_out = vec![
        LedgerOp::TransferIn { asset: Asset::X, amount: 5 },
        LedgerOp::TransferOut { asset: Asset::X, amount: 5, signer: signer() },
    ];
    assert_eq!(b.settle(&in_then_out), Some(b));
}

#[test]
fn pool_signs_with_word_seed_and_marker() {
    let seeds = PoolSigner { seed: 0x0102030405060708, bump: 254 }.seeds();
    assert_eq!(
        seeds,
        vec![b"config".to_vec(), vec![8u8, 7, 6, 5, 4, 3, 2, 1], vec![254u8]]
    );
    let zero = PoolSigner { seed: 0, bump: 0 }.seeds();
    assert_eq!(zero, vec![b"config".to_vec(), vec![0u8; 8], vec![0u8]]);
}
