//! What holds of every pool, whatever its balances and whoever calls.

use crate::constants::BPS_DENOMINATOR;
use crate::curve::{
    deposit_quote_spec, effective_in, lemma_ceil_div, lemma_ceil_div_unique,
    lemma_effective_in_le, lemma_floor_div, lemma_floor_div_unique, lemma_reserve_out_after_le,
    lemma_share_floor_le, reserve_out_after, share_ceil, share_floor, swap_out, swap_quote_spec,
    withdraw_split_spec,
};
use crate::error::AmmError;
use crate::instructions::deposit::Deposit;
use crate::instructions::swap::Swap;
use crate::instructions::withdraw::Withdraw;
use crate::ledger::{Balances, LedgerOp};
use crate::state::Config;
use vstd::prelude::*;

verus! {

/// A quote is given exactly where both reserves hold something and the fee
/// is no more than the whole, and it always leaves some of the output
/// reserve behind.
pub proof fn swap_quote_is_solvent(reserve_in: u64, reserve_out: u64, amount_in: u64, fee_bps: u16)
    ensures
        swap_quote_spec(reserve_in, reserve_out, amount_in, fee_bps) is Ok <==> fee_bps
            <= BPS_DENOMINATOR && reserve_in > 0 && reserve_out > 0,
        swap_quote_spec(reserve_in, reserve_out, amount_in, fee_bps) matches Ok(amount_out)
            ==> amount_out < reserve_out && amount_out == swap_out(
            reserve_in as nat,
            reserve_out as nat,
            amount_in as nat,
            fee_bps as nat,
        ),
        swap_quote_spec(reserve_in, reserve_out, amount_in, fee_bps) is Err ==> (swap_quote_spec(
            reserve_in,
            reserve_out,
            amount_in,
            fee_bps,
        ) == Err::<u64, AmmError>(AmmError::MathOverflow) <==> fee_bps > BPS_DENOMINATOR),
{
    if fee_bps <= BPS_DENOMINATOR {
        let e = effective_in(amount_in as nat, fee_bps as nat);
        if reserve_in + e > 0 {
            lemma_reserve_out_after_le(reserve_in as nat, reserve_out as nat, e);
            if reserve_in == 0 {
                assert(reserve_in as nat * reserve_out as nat == 0) by (nonlinear_arith)
                    requires
                        reserve_in == 0,
                ;
                assert(0nat % e == 0 && 0nat / e == 0) by (nonlinear_arith)
                    requires
                        e > 0,
                ;
            }
        }
    }
}

/// A quote is fixed by two roundings, and each can be checked by
/// multiplication alone: `effective` is the amount after the fee, rounded
/// down, and `remaining` is the least output reserve that keeps the product.
/// The quote is what the output reserve holds above `remaining`.
pub proof fn swap_quote_is_determined(
    reserve_in: u64,
    reserve_out: u64,
    amount_in: u64,
    fee_bps: u16,
    effective: int,
    remaining: int,
)
    requires
        fee_bps <= BPS_DENOMINATOR,
        reserve_in > 0,
        reserve_out > 0,
        effective * BPS_DENOMINATOR <= amount_in * (BPS_DENOMINATOR - fee_bps) < (effective + 1)
            * BPS_DENOMINATOR,
        (remaining - 1) * (reserve_in + effective) < reserve_in * reserve_out <= remaining * (
        reserve_in + effective),
    ensures
        effective_in(amount_in as nat, fee_bps as nat) == effective,
        reserve_out_after(reserve_in as nat, reserve_out as nat, effective as nat) == remaining,
        swap_quote_spec(reserve_in, reserve_out, amount_in, fee_bps) == Ok::<u64, AmmError>(
            (reserve_out - remaining) as u64,
        ),
{
    let whole = BPS_DENOMINATOR as nat;
    let kept = amount_in as nat * (BPS_DENOMINATOR - fee_bps) as nat;
    assert((effective + 1) * whole == effective * whole + whole) by (nonlinear_arith);
    lemma_floor_div_unique(kept, whole, effective);
    lemma_ceil_div_unique(
        reserve_in as nat * reserve_out as nat,
        reserve_in as nat + effective as nat,
        remaining,
    );
    swap_quote_is_solvent(reserve_in, reserve_out, amount_in, fee_bps);
}

/// A split is fixed by one rounding for each asset, which can be checked by
/// multiplication alone: each payout is the largest amount whose product
/// with the supply stays within the product of its reserve and the amount
/// redeemed.
pub proof fn withdraw_split_is_determined(
    reserve_x: u64,
    reserve_y: u64,
    lp_supply: u64,
    lp_amount: u64,
    x_out: u64,
    y_out: u64,
)
    requires
        0 < lp_amount <= lp_supply,
        x_out * lp_supply <= reserve_x * lp_amount < (x_out + 1) * lp_supply,
        y_out * lp_supply <= reserve_y * lp_amount < (y_out + 1) * lp_supply,
    ensures
        withdraw_split_spec(reserve_x, reserve_y, lp_supply, lp_amount) == Ok::<
            (u64, u64),
            AmmError,
        >((x_out, y_out)),
{
    assert((x_out + 1) * lp_supply == x_out * lp_supply + lp_supply) by (nonlinear_arith);
    assert((y_out + 1) * lp_supply == y_out * lp_supply + lp_supply) by (nonlinear_arith);
    lemma_floor_div_unique(reserve_x as nat * lp_amount as nat, lp_supply as nat, x_out as int);
    lemma_floor_div_unique(reserve_y as nat * lp_amount as nat, lp_supply as nat, y_out as int);
}

/// On a pool with LP units outstanding, the amounts of a deposit are fixed
/// by one rounding for each asset, which can be checked by multiplication
/// alone: each is the least amount whose product with the supply reaches the
/// product of its reserve and the LP units asked for. The deposit is quoted
/// exactly where both stay within their caps.
pub proof fn deposit_quote_is_determined(
    reserve_x: u64,
    reserve_y: u64,
    lp_supply: u64,
    desired_lp: u64,
    max_x: u64,
    max_y: u64,
    x_in: int,
    y_in: int,
)
    requires
        lp_supply > 0,
        (x_in - 1) * lp_supply < reserve_x * desired_lp <= x_in * lp_supply,
        (y_in - 1) * lp_supply < reserve_y * desired_lp <= y_in * lp_supply,
    ensures
        share_ceil(reserve_x as nat, desired_lp as nat, lp_supply as nat) == x_in,
        share_ceil(reserve_y as nat, desired_lp as nat, lp_supply as nat) == y_in,
        x_in <= max_x && y_in <= max_y ==> deposit_quote_spec(
            reserve_x,
            reserve_y,
            lp_supply,
            desired_lp,
            max_x,
            max_y,
        ) == Ok::<(u64, u64), AmmError>((x_in as u64, y_in as u64)),
        x_in > max_x || y_in > max_y ==> deposit_quote_spec(
            reserve_x,
            reserve_y,
            lp_supply,
            desired_lp,
            max_x,
            max_y,
        ) == Err::<(u64, u64), AmmError>(AmmError::SlippageExceeded),
{
    lemma_ceil_div_unique(reserve_x as nat * desired_lp as nat, lp_supply as nat, x_in);
    lemma_ceil_div_unique(reserve_y as nat * desired_lp as nat, lp_supply as nat, y_in);
}

/// A withdrawal pays the redeemed fraction of each reserve, short of it by
/// less than one unit, and never more than the reserve holds.
pub proof fn withdraw_is_proportional(reserve_x: u64, reserve_y: u64, lp_supply: u64, lp_amount: u64)
    requires
        withdraw_split_spec(reserve_x, reserve_y, lp_supply, lp_amount) is Ok,
    ensures
        ({
            let (x_out, y_out) = withdraw_split_spec(
                reserve_x,
                reserve_y,
                lp_supply,
                lp_amount,
            )->Ok_0;
            &&& x_out * lp_supply <= reserve_x * lp_amount < (x_out + 1) * lp_supply
            &&& y_out * lp_supply <= reserve_y * lp_amount < (y_out + 1) * lp_supply
            &&& x_out <= reserve_x
            &&& y_out <= reserve_y
            &&& lp_amount == lp_supply ==> x_out == reserve_x && y_out == reserve_y
        }),
{
    lemma_share_floor_le(reserve_x as nat, lp_amount as nat, lp_supply as nat);
    lemma_share_floor_le(reserve_y as nat, lp_amount as nat, lp_supply as nat);
    lemma_floor_div(reserve_x as nat * lp_amount as nat, lp_supply as nat);
    lemma_floor_div(reserve_y as nat * lp_amount as nat, lp_supply as nat);
    let x_out = share_floor(reserve_x as nat, lp_amount as nat, lp_supply as nat);
    let y_out = share_floor(reserve_y as nat, lp_amount as nat, lp_supply as nat);
    assert((x_out + 1) * lp_supply == x_out * lp_supply + lp_supply) by (nonlinear_arith);
    assert((y_out + 1) * lp_supply == y_out * lp_supply + lp_supply) by (nonlinear_arith);
}

/// A deposit, a swap and a withdrawal of nothing are refused as invalid
/// amounts, the latter two on a pool that is not locked, and the balances
/// stay as they were.
pub proof fn zero_amounts_are_refused(
    deposit: Deposit,
    swap: Swap,
    withdraw: Withdraw,
    max_x: u64,
    max_y: u64,
    is_deposit_token_x: bool,
    balances: Balances,
)
    ensures
        deposit.deposit_spec(0, max_x, max_y) == Err::<Seq<LedgerOp>, AmmError>(
            AmmError::InvalidAmount,
        ),
        !swap.config.locked ==> swap.swap_spec(is_deposit_token_x, 0) == Err::<
            Seq<LedgerOp>,
            AmmError,
        >(AmmError::InvalidAmount),
        !withdraw.config.locked ==> withdraw.withdraw_spec(0) == Err::<Seq<LedgerOp>, AmmError>(
            AmmError::InvalidAmount,
        ),
        balances.after(deposit.deposit_spec(0, max_x, max_y)) == balances,
        balances.after(swap.swap_spec(is_deposit_token_x, 0)) == balances,
        balances.after(withdraw.withdraw_spec(0)) == balances,
{
}

/// On a locked pool every swap and every withdrawal is refused as locked,
/// whatever the amount.
pub proof fn lock_stops_swaps_and_withdrawals(
    swap: Swap,
    withdraw: Withdraw,
    is_deposit_token_x: bool,
    deposit_amount: u64,
    lp_token_amount: u64,
)
    requires
        swap.config.locked,
        withdraw.config.locked,
    ensures
        swap.swap_spec(is_deposit_token_x, deposit_amount) == Err::<Seq<LedgerOp>, AmmError>(
            AmmError::PoolLocked,
        ),
        withdraw.withdraw_spec(lp_token_amount) == Err::<Seq<LedgerOp>, AmmError>(
            AmmError::PoolLocked,
        ),
{
}

/// The lock has no part in a deposit: locking or unlocking the pool changes
/// nothing of what a deposit answers.
pub proof fn lock_does_not_stop_deposits(
    deposit: Deposit,
    locked: bool,
    asking_lp_amount: u64,
    max_x: u64,
    max_y: u64,
)
    ensures
        (Deposit { config: Config { locked, ..deposit.config }, ..deposit }).deposit_spec(
            asking_lp_amount,
            max_x,
            max_y,
        ) == deposit.deposit_spec(asking_lp_amount, max_x, max_y),
{
}

/// On a pool whose fee is a proper fraction, a swap is planned exactly where
/// the pool is not locked, the trader brings something, and both reserves
/// hold something. No such swap fails on its arithmetic.
pub proof fn swap_succeeds_exactly_when(swap: Swap, is_deposit_token_x: bool, deposit_amount: u64)
    requires
        swap.config.wf(),
    ensures
        swap.swap_spec(is_deposit_token_x, deposit_amount) is Ok <==> !swap.config.locked
            && deposit_amount > 0 && swap.token_x_vault.amount > 0 && swap.token_y_vault.amount
            > 0,
        swap.swap_spec(is_deposit_token_x, deposit_amount) != Err::<Seq<LedgerOp>, AmmError>(
            AmmError::MathOverflow,
        ),
{
    swap_quote_is_solvent(
        swap.reserve_in(is_deposit_token_x),
        swap.reserve_out(is_deposit_token_x),
        deposit_amount,
        swap.config.fee,
    );
}

/// A withdrawal is planned exactly where the pool is not locked and the
/// amount redeemed is more than nothing and no more than the supply.
pub proof fn withdraw_succeeds_exactly_when(withdraw: Withdraw, lp_token_amount: u64)
    ensures
        withdraw.withdraw_spec(lp_token_amount) is Ok <==> !withdraw.config.locked && 0
            < lp_token_amount <= withdraw.token_mint_lp.supply,
{
}

/// The ledger carries out the plan of a swap unless the trader's amount
/// would lift a vault above what a balance can hold: a swap never asks a
/// vault for more than it has.
pub proof fn swap_plan_settles(
    swap: Swap,
    is_deposit_token_x: bool,
    deposit_amount: u64,
    before: Balances,
)
    requires
        swap.reads(before),
        swap.swap_spec(is_deposit_token_x, deposit_amount) is Ok,
    ensures
        before.settle_spec(swap.swap_spec(is_deposit_token_x, deposit_amount)->Ok_0) is Some
            <==> swap.reserve_in(is_deposit_token_x) + deposit_amount <= u64::MAX,
{
    let reserve_in = swap.reserve_in(is_deposit_token_x);
    let reserve_out = swap.reserve_out(is_deposit_token_x);
    swap_quote_is_solvent(reserve_in, reserve_out, deposit_amount, swap.config.fee);
    let amount_out = swap_quote_spec(reserve_in, reserve_out, deposit_amount, swap.config.fee)->Ok_0;
    before.lemma_settle_two(
        swap.deposit_token_spec(is_deposit_token_x, deposit_amount),
        swap.withdraw_token_spec(!is_deposit_token_x, amount_out),
    );
}

/// A swap never lowers the product of the two reserves, and it raises the
/// product wherever a fee is charged. The LP supply stays as it was.
pub proof fn swap_never_lowers_product(
    swap: Swap,
    is_deposit_token_x: bool,
    deposit_amount: u64,
    before: Balances,
)
    requires
        swap.reads(before),
        swap.swap_spec(is_deposit_token_x, deposit_amount) is Ok,
        before.settle_spec(swap.swap_spec(is_deposit_token_x, deposit_amount)->Ok_0) is Some,
    ensures
        ({
            let after = before.after(swap.swap_spec(is_deposit_token_x, deposit_amount));
            &&& after.product() >= before.product()
            &&& after.product() == before.product() ==> swap.config.fee == 0
            &&& after.lp_supply == before.lp_supply
        }),
{
    let fee = swap.config.fee;
    let reserve_in = swap.reserve_in(is_deposit_token_x);
    let reserve_out = swap.reserve_out(is_deposit_token_x);
    swap_quote_is_solvent(reserve_in, reserve_out, deposit_amount, fee);
    let amount_out = swap_quote_spec(reserve_in, reserve_out, deposit_amount, fee)->Ok_0;
    before.lemma_settle_two(
        swap.deposit_token_spec(is_deposit_token_x, deposit_amount),
        swap.withdraw_token_spec(!is_deposit_token_x, amount_out),
    );
    let after = before.after(swap.swap_spec(is_deposit_token_x, deposit_amount));
    let pooled_in: int = reserve_in + deposit_amount;
    let left_out: int = reserve_out - amount_out;
    assert(after.vault_x == if is_deposit_token_x {
        pooled_in
    } else {
        left_out
    });
    assert(after.vault_y == if is_deposit_token_x {
        left_out
    } else {
        pooled_in
    });

    let effective = effective_in(deposit_amount as nat, fee as nat);
    lemma_effective_in_le(deposit_amount as nat, fee as nat);
    lemma_reserve_out_after_le(reserve_in as nat, reserve_out as nat, effective);
    lemma_ceil_div(reserve_in as nat * reserve_out as nat, reserve_in as nat + effective);
    assert(left_out == reserve_out_after(reserve_in as nat, reserve_out as nat, effective));
    assert(pooled_in * left_out >= reserve_in * reserve_out) by (nonlinear_arith)
        requires
            left_out * (reserve_in + effective) >= reserve_in * reserve_out,
            pooled_in >= reserve_in + effective,
            left_out >= 0,
    ;
    if fee > 0 {
        assert(pooled_in * left_out > reserve_in * reserve_out) by (nonlinear_arith)
            requires
                left_out * (reserve_in + effective) >= reserve_in * reserve_out,
                pooled_in > reserve_in + effective,
                left_out > 0,
        ;
    }
    assert(pooled_in * left_out == left_out * pooled_in) by (nonlinear_arith);
    assert(reserve_in * reserve_out == reserve_out * reserve_in) by (nonlinear_arith);
}

/// The ledger always carries out the plan of a withdrawal: it burns no more
/// LP units than are outstanding and asks no vault for more than it has.
pub proof fn withdraw_plan_settles(withdraw: Withdraw, lp_token_amount: u64, before: Balances)
    requires
        withdraw.reads(before),
        withdraw.withdraw_spec(lp_token_amount) is Ok,
    ensures
        before.settle_spec(withdraw.withdraw_spec(lp_token_amount)->Ok_0) is Some,
{
    withdraw_is_proportional(before.vault_x, before.vault_y, before.lp_supply, lp_token_amount);
    let (x_out, y_out) = withdraw_split_spec(
        before.vault_x,
        before.vault_y,
        before.lp_supply,
        lp_token_amount,
    )->Ok_0;
    before.lemma_settle_three(
        withdraw.burn_lp_token_spec(lp_token_amount),
        withdraw.withdraw_token_spec(true, x_out),
        withdraw.withdraw_token_spec(false, y_out),
    );
}

/// A deposit that is withdrawn at once, with no swap in between, returns no
/// more of either asset than it brought: the vaults end no lower than they
/// began, and the LP supply ends where it began. Rounding can cost the
/// depositor; it never pays.
pub proof fn round_trip_never_gains(
    deposit: Deposit,
    asking_lp_amount: u64,
    max_x: u64,
    max_y: u64,
    withdraw: Withdraw,
    before: Balances,
)
    requires
        before.wf(),
        deposit.reads(before),
        deposit.deposit_spec(asking_lp_amount, max_x, max_y) is Ok,
        before.settle_spec(deposit.deposit_spec(asking_lp_amount, max_x, max_y)->Ok_0) is Some,
        withdraw.reads(before.after(deposit.deposit_spec(asking_lp_amount, max_x, max_y))),
        !withdraw.config.locked,
    ensures
        ({
            let between = before.after(deposit.deposit_spec(asking_lp_amount, max_x, max_y));
            let after = between.after(withdraw.withdraw_spec(asking_lp_amount));
            &&& withdraw.withdraw_spec(asking_lp_amount) is Ok
            &&& between.settle_spec(withdraw.withdraw_spec(asking_lp_amount)->Ok_0) is Some
            &&& between.vault_x - after.vault_x <= between.vault_x - before.vault_x
            &&& between.vault_y - after.vault_y <= between.vault_y - before.vault_y
            &&& after.lp_supply == before.lp_supply
        }),
{
    let minted = asking_lp_amount;
    let (x_in, y_in) = deposit_quote_spec(
        before.vault_x,
        before.vault_y,
        before.lp_supply,
        minted,
        max_x,
        max_y,
    )->Ok_0;
    before.lemma_settle_three(
        deposit.deposit_tokens_spec(true, x_in),
        deposit.deposit_tokens_spec(false, y_in),
        deposit.mint_lp_tokens_spec(minted),
    );
    let between = before.after(deposit.deposit_spec(minted, max_x, max_y));
    assert(between.vault_x == before.vault_x + x_in);
    assert(between.vault_y == before.vault_y + y_in);
    assert(between.lp_supply == before.lp_supply + minted);

    withdraw_plan_settles(withdraw, minted, between);
    withdraw_is_proportional(between.vault_x, between.vault_y, between.lp_supply, minted);
    let (x_out, y_out) = withdraw_split_spec(
        between.vault_x,
        between.vault_y,
        between.lp_supply,
        minted,
    )->Ok_0;
    between.lemma_settle_three(
        withdraw.burn_lp_token_spec(minted),
        withdraw.withdraw_token_spec(true, x_out),
        withdraw.withdraw_token_spec(false, y_out),
    );
    if before.lp_supply > 0 {
        lemma_round_trip_leg(before.vault_x, before.lp_supply, minted, x_in, x_out);
        lemma_round_trip_leg(before.vault_y, before.lp_supply, minted, y_in, y_out);
    }
}

/// One asset's leg of a round trip through a pool that already has LP units
/// outstanding: the share rounded up on the way in covers the share rounded
/// down on the way out.
proof fn lemma_round_trip_leg(reserve: u64, lp_supply: u64, minted: u64, brought: u64, returned: u64)
    requires
        lp_supply > 0,
        brought == share_ceil(reserve as nat, minted as nat, lp_supply as nat),
        returned * (lp_supply + minted) <= (reserve + brought) * minted,
    ensures
        returned <= brought,
{
    lemma_ceil_div(reserve as nat * minted as nat, lp_supply as nat);
    assert(returned <= brought) by (nonlinear_arith)
        requires
            lp_supply > 0,
            brought * lp_supply >= reserve * minted,
            returned * (lp_supply + minted) <= (reserve + brought) * minted,
    ;
}

/// A deposit leaves LP units outstanding wherever a vault holds anything.
pub proof fn deposit_keeps_balances_well_formed(
    deposit: Deposit,
    asking_lp_amount: u64,
    max_x: u64,
    max_y: u64,
    before: Balances,
)
    requires
        before.wf(),
        deposit.reads(before),
    ensures
        before.after(deposit.deposit_spec(asking_lp_amount, max_x, max_y)).wf(),
{
    if deposit.deposit_spec(asking_lp_amount, max_x, max_y) is Ok {
        let (x_in, y_in) = deposit_quote_spec(
            before.vault_x,
            before.vault_y,
            before.lp_supply,
            asking_lp_amount,
            max_x,
            max_y,
        )->Ok_0;
        before.lemma_settle_three(
            deposit.deposit_tokens_spec(true, x_in),
            deposit.deposit_tokens_spec(false, y_in),
            deposit.mint_lp_tokens_spec(asking_lp_amount),
        );
    }
}

/// A swap leaves LP units outstanding wherever a vault holds anything.
pub proof fn swap_keeps_balances_well_formed(
    swap: Swap,
    is_deposit_token_x: bool,
    deposit_amount: u64,
    before: Balances,
)
    requires
        before.wf(),
        swap.reads(before),
    ensures
        before.after(swap.swap_spec(is_deposit_token_x, deposit_amount)).wf(),
{
    if swap.swap_spec(is_deposit_token_x, deposit_amount) is Ok {
        let reserve_in = swap.reserve_in(is_deposit_token_x);
        let reserve_out = swap.reserve_out(is_deposit_token_x);
        swap_quote_is_solvent(reserve_in, reserve_out, deposit_amount, swap.config.fee);
        let amount_out = swap_quote_spec(
            reserve_in,
            reserve_out,
            deposit_amount,
            swap.config.fee,
        )->Ok_0;
        before.lemma_settle_two(
            swap.deposit_token_spec(is_deposit_token_x, deposit_amount),
            swap.withdraw_token_spec(!is_deposit_token_x, amount_out),
        );
    }
}

/// A withdrawal leaves LP units outstanding wherever a vault holds anything:
/// redeeming the whole supply empties both vaults.
pub proof fn withdraw_keeps_balances_well_formed(
    withdraw: Withdraw,
    lp_token_amount: u64,
    before: Balances,
)
    requires
        before.wf(),
        withdraw.reads(before),
    ensures
        before.after(withdraw.withdraw_spec(lp_token_amount)).wf(),
{
    if withdraw.withdraw_spec(lp_token_amount) is Ok {
        withdraw_is_proportional(before.vault_x, before.vault_y, before.lp_supply, lp_token_amount);
        let (x_out, y_out) = withdraw_split_spec(
            before.vault_x,
            before.vault_y,
            before.lp_supply,
            lp_token_amount,
        )->Ok_0;
        before.lemma_settle_three(
            withdraw.burn_lp_token_spec(lp_token_amount),
            withdraw.withdraw_token_spec(true, x_out),
            withdraw.withdraw_token_spec(false, y_out),
        );
    }
}

} // verus!
