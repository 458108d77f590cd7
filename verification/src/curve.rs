//! The constant-product curve: pure integer functions that quote a swap,
//! split a withdrawal and size a deposit.
//!
//! Amounts are `u64`; every intermediate product is taken in 128 bits, where
//! the product of two amounts always fits. Each result is rounded in the
//! pool's favour: what the pool pays out is rounded down, what it takes in is
//! rounded up.

use crate::constants::BPS_DENOMINATOR;
use crate::error::AmmError;
use vstd::arithmetic::div_mod::{
    lemma_fundamental_div_mod, lemma_fundamental_div_mod_converse, lemma_mod_pos_bound,
};
use vstd::prelude::*;

verus! {

/// `a / b`, rounded up.
pub open spec fn ceil_div(a: nat, b: nat) -> nat
    recommends
        b > 0,
{
    if a % b == 0 {
        a / b
    } else {
        a / b + 1
    }
}

/// The part of `amount_in` that reaches the curve once the fee has been
/// skimmed off the input leg, rounded down.
pub open spec fn effective_in(amount_in: nat, fee_bps: nat) -> nat
    recommends
        fee_bps <= BPS_DENOMINATOR,
{
    (amount_in * (BPS_DENOMINATOR - fee_bps) / (BPS_DENOMINATOR as int)) as nat
}

/// The output reserve that keeps the product of the reserves from falling
/// when `effective_in` joins the input reserve: the least `r` with
/// `r * (reserve_in + effective_in) >= reserve_in * reserve_out`.
pub open spec fn reserve_out_after(reserve_in: nat, reserve_out: nat, effective_in: nat) -> nat
    recommends
        reserve_in + effective_in > 0,
{
    ceil_div(reserve_in * reserve_out, reserve_in + effective_in)
}

/// What a trade of `amount_in` is paid from the output reserve.
pub open spec fn swap_out(reserve_in: nat, reserve_out: nat, amount_in: nat, fee_bps: nat) -> int
    recommends
        fee_bps <= BPS_DENOMINATOR,
        reserve_in + effective_in(amount_in, fee_bps) > 0,
{
    reserve_out - reserve_out_after(reserve_in, reserve_out, effective_in(amount_in, fee_bps))
}

/// The outcome of [`swap_quote`].
///
/// A fee above the whole cannot be subtracted from it. An empty input side
/// leaves nothing to divide by, and a quote that would drain the output
/// reserve is refused.
pub open spec fn swap_quote_spec(reserve_in: u64, reserve_out: u64, amount_in: u64, fee_bps: u16)
    -> Result<u64, AmmError> {
    if fee_bps > BPS_DENOMINATOR {
        Err(AmmError::MathOverflow)
    } else if reserve_in + effective_in(amount_in as nat, fee_bps as nat) == 0 {
        Err(AmmError::InsufficientLiquidity)
    } else if swap_out(reserve_in as nat, reserve_out as nat, amount_in as nat, fee_bps as nat)
        >= reserve_out {
        Err(AmmError::InsufficientLiquidity)
    } else {
        Ok(swap_out(reserve_in as nat, reserve_out as nat, amount_in as nat, fee_bps as nat) as u64)
    }
}

/// `a / b` lies within one `b` below `a`.
pub proof fn lemma_floor_div(a: nat, b: nat)
    requires
        b > 0,
    ensures
        (a / b) * b <= a < (a / b) * b + b,
{
    lemma_fundamental_div_mod(a as int, b as int);
    lemma_mod_pos_bound(a as int, b as int);
    assert((a / b) * b == b * (a / b)) by (nonlinear_arith);
}

/// `ceil_div(a, b)` is the least multiple count of `b` that reaches `a`.
pub proof fn lemma_ceil_div(a: nat, b: nat)
    requires
        b > 0,
    ensures
        a <= ceil_div(a, b) * b < a + b,
{
    lemma_fundamental_div_mod(a as int, b as int);
    lemma_mod_pos_bound(a as int, b as int);
    assert((a / b) * b == b * (a / b)) by (nonlinear_arith);
    assert((a / b + 1) * b == b * (a / b) + b) by (nonlinear_arith);
}

/// The one `q` with `q * b <= a < q * b + b` is `a / b`.
pub proof fn lemma_floor_div_unique(a: nat, b: nat, q: int)
    requires
        b > 0,
        q * b <= a < q * b + b,
    ensures
        a / b == q,
{
    lemma_fundamental_div_mod_converse(a as int, b as int, q, a - q * b);
}

/// The one `q` with `(q - 1) * b < a <= q * b` is `ceil_div(a, b)`.
pub proof fn lemma_ceil_div_unique(a: nat, b: nat, q: int)
    requires
        b > 0,
        (q - 1) * b < a <= q * b,
    ensures
        ceil_div(a, b) == q,
{
    assert((q - 1) * b == q * b - b) by (nonlinear_arith);
    if a == q * b {
        lemma_fundamental_div_mod_converse(a as int, b as int, q, 0);
    } else {
        lemma_fundamental_div_mod_converse(a as int, b as int, q - 1, a - (q - 1) * b);
    }
}

/// Any count of `b` that reaches `a` is at least `ceil_div(a, b)`.
pub proof fn lemma_ceil_div_least(a: nat, b: nat, q: nat)
    requires
        b > 0,
        q * b >= a,
    ensures
        ceil_div(a, b) <= q,
{
    lemma_ceil_div(a, b);
    let c = ceil_div(a, b);
    assert(c <= q) by (nonlinear_arith)
        requires
            b > 0,
            c * b < a + b,
            q * b >= a,
    ;
}

/// The product of two 64-bit amounts fits in 128 bits.
pub proof fn lemma_product_fits(a: u64, b: u64)
    ensures
        a * b <= u128::MAX,
        a * b <= 0xffff_ffff_ffff_ffff * 0xffff_ffff_ffff_ffff,
{
    assert(a * b <= 0xffff_ffff_ffff_ffff * 0xffff_ffff_ffff_ffff) by (nonlinear_arith)
        requires
            0 <= a <= 0xffff_ffff_ffff_ffff,
            0 <= b <= 0xffff_ffff_ffff_ffff,
    ;
}

/// `a * b / d`, rounded down.
fn mul_div_floor(a: u64, b: u64, d: u128) -> (q: u128)
    requires
        d > 0,
    ensures
        q == (a * b) / (d as int),
{
    proof {
        lemma_product_fits(a, b);
    }
    (a as u128) * (b as u128) / d
}

/// `a * b / d`, rounded up.
fn mul_div_ceil(a: u64, b: u64, d: u128) -> (q: u128)
    requires
        d > 0,
    ensures
        q == ceil_div((a * b) as nat, d as nat),
{
    proof {
        lemma_product_fits(a, b);
    }
    let p: u128 = (a as u128) * (b as u128);
    let q: u128 = p / d;
    if p % d == 0 {
        q
    } else {
        proof {
            lemma_floor_div(p as nat, d as nat);
        }
        q + 1
    }
}

/// Quotes a swap against the reserves as they stand before the trade.
///
/// The fee is taken from the input leg first; the rest moves the pool along
/// the curve. The amount paid out is rounded down, so the product of the
/// reserves never falls.
pub fn swap_quote(reserve_in: u64, reserve_out: u64, amount_in: u64, fee_bps: u16) -> (r: Result<
    u64,
    AmmError,
>)
    ensures
        r == swap_quote_spec(reserve_in, reserve_out, amount_in, fee_bps),
{
    if fee_bps > BPS_DENOMINATOR {
        return Err(AmmError::MathOverflow);
    }
    let keep: u64 = (BPS_DENOMINATOR - fee_bps) as u64;
    let effective: u128 = mul_div_floor(amount_in, keep, BPS_DENOMINATOR as u128);
    proof {
        lemma_effective_in_le(amount_in as nat, fee_bps as nat);
    }
    let pooled: u128 = reserve_in as u128 + effective;
    if pooled == 0 {
        return Err(AmmError::InsufficientLiquidity);
    }
    let remaining: u128 = mul_div_ceil(reserve_in, reserve_out, pooled);
    proof {
        lemma_reserve_out_after_le(reserve_in as nat, reserve_out as nat, effective as nat);
    }
    let amount_out: u128 = reserve_out as u128 - remaining;
    if amount_out >= reserve_out as u128 {
        Err(AmmError::InsufficientLiquidity)
    } else {
        Ok(amount_out as u64)
    }
}

/// The fee never adds to the input.
pub proof fn lemma_effective_in_le(amount_in: nat, fee_bps: nat)
    requires
        fee_bps <= BPS_DENOMINATOR,
    ensures
        effective_in(amount_in, fee_bps) <= amount_in,
        fee_bps == 0 ==> effective_in(amount_in, fee_bps) == amount_in,
        fee_bps > 0 && amount_in > 0 ==> effective_in(amount_in, fee_bps) < amount_in,
{
    let keep = (BPS_DENOMINATOR - fee_bps) as nat;
    let whole = BPS_DENOMINATOR as nat;
    lemma_floor_div(amount_in * keep, whole);
    let e = (amount_in * keep) / whole;
    assert(e <= amount_in) by (nonlinear_arith)
        requires
            e * whole <= amount_in * keep,
            keep <= whole,
            whole > 0,
    ;
    if fee_bps == 0 {
        assert(e >= amount_in) by (nonlinear_arith)
            requires
                amount_in * keep < e * whole + whole,
                keep == whole,
                whole > 0,
        ;
    }
    if fee_bps > 0 && amount_in > 0 {
        assert(e < amount_in) by (nonlinear_arith)
            requires
                e * whole <= amount_in * keep,
                keep < whole,
                amount_in > 0,
                whole > 0,
        ;
    }
}

/// Adding to the input side never asks for a larger output reserve.
pub proof fn lemma_reserve_out_after_le(reserve_in: nat, reserve_out: nat, effective_in: nat)
    requires
        reserve_in + effective_in > 0,
    ensures
        reserve_out_after(reserve_in, reserve_out, effective_in) <= reserve_out,
        reserve_in > 0 && reserve_out > 0 ==> reserve_out_after(
            reserve_in,
            reserve_out,
            effective_in,
        ) > 0,
{
    let pooled = reserve_in + effective_in;
    assert(reserve_out * pooled >= reserve_in * reserve_out) by (nonlinear_arith)
        requires
            pooled >= reserve_in,
    ;
    lemma_ceil_div_least(reserve_in * reserve_out, pooled, reserve_out);
    if reserve_in > 0 && reserve_out > 0 {
        lemma_ceil_div(reserve_in * reserve_out, pooled);
        let r = ceil_div(reserve_in * reserve_out, pooled);
        assert(reserve_in * reserve_out > 0) by (nonlinear_arith)
            requires
                reserve_in > 0,
                reserve_out > 0,
        ;
        assert(r > 0) by (nonlinear_arith)
            requires
                r * pooled >= reserve_in * reserve_out,
                reserve_in * reserve_out > 0,
        ;
    }
}

/// The part of `reserve` that `part` units out of `whole` stand for, rounded
/// down.
pub open spec fn share_floor(reserve: nat, part: nat, whole: nat) -> nat
    recommends
        whole > 0,
{
    reserve * part / whole
}

/// The part of `reserve` that `part` units out of `whole` stand for, rounded
/// up.
pub open spec fn share_ceil(reserve: nat, part: nat, whole: nat) -> nat
    recommends
        whole > 0,
{
    ceil_div(reserve * part, whole)
}

/// The outcome of [`withdraw_split`].
pub open spec fn withdraw_split_spec(
    reserve_x: u64,
    reserve_y: u64,
    lp_supply: u64,
    lp_amount: u64,
) -> Result<(u64, u64), AmmError> {
    if lp_amount == 0 || lp_amount > lp_supply {
        Err(AmmError::InvalidAmount)
    } else {
        Ok(
            (
                share_floor(reserve_x as nat, lp_amount as nat, lp_supply as nat) as u64,
                share_floor(reserve_y as nat, lp_amount as nat, lp_supply as nat) as u64,
            ),
        )
    }
}

/// A share of a reserve never exceeds the reserve.
pub proof fn lemma_share_floor_le(reserve: nat, part: nat, whole: nat)
    requires
        0 < whole,
        part <= whole,
    ensures
        share_floor(reserve, part, whole) <= reserve,
        part == whole ==> share_floor(reserve, part, whole) == reserve,
{
    lemma_floor_div(reserve * part, whole);
    let q = share_floor(reserve, part, whole);
    assert(q <= reserve) by (nonlinear_arith)
        requires
            q * whole <= reserve * part,
            part <= whole,
            whole > 0,
    ;
    if part == whole {
        assert(q >= reserve) by (nonlinear_arith)
            requires
                reserve * part < q * whole + whole,
                part == whole,
                whole > 0,
        ;
    }
}

/// Splits a redemption of `lp_amount` LP units into its two payouts.
///
/// Each payout is the redeemed fraction of its reserve, rounded down.
/// Amounts are counted in base units, so the display precision of the LP
/// asset, `lp_decimals`, has no part in the result.
#[allow(unused_variables)]
pub fn withdraw_split(
    reserve_x: u64,
    reserve_y: u64,
    lp_supply: u64,
    lp_amount: u64,
    lp_decimals: u8,
) -> (r: Result<(u64, u64), AmmError>)
    ensures
        r == withdraw_split_spec(reserve_x, reserve_y, lp_supply, lp_amount),
{
    if lp_amount == 0 || lp_amount > lp_supply {
        return Err(AmmError::InvalidAmount);
    }
    let x_out: u128 = mul_div_floor(reserve_x, lp_amount, lp_supply as u128);
    let y_out: u128 = mul_div_floor(reserve_y, lp_amount, lp_supply as u128);
    proof {
        lemma_share_floor_le(reserve_x as nat, lp_amount as nat, lp_supply as nat);
        lemma_share_floor_le(reserve_y as nat, lp_amount as nat, lp_supply as nat);
    }
    Ok((x_out as u64, y_out as u64))
}

/// The outcome of [`deposit_quote`].
///
/// An empty pool has no ratio to keep: the first deposit brings exactly the
/// amounts that the depositor offers. Afterwards a deposit brings the share
/// of each reserve that the new LP units stand for, rounded up, unless one of
/// them is more than the depositor allows.
pub open spec fn deposit_quote_spec(
    reserve_x: u64,
    reserve_y: u64,
    lp_supply: u64,
    desired_lp: u64,
    max_x: u64,
    max_y: u64,
) -> Result<(u64, u64), AmmError> {
    if lp_supply == 0 {
        Ok((max_x, max_y))
    } else if share_ceil(reserve_x as nat, desired_lp as nat, lp_supply as nat) > max_x
        || share_ceil(reserve_y as nat, desired_lp as nat, lp_supply as nat) > max_y {
        Err(AmmError::SlippageExceeded)
    } else {
        Ok(
            (
                share_ceil(reserve_x as nat, desired_lp as nat, lp_supply as nat) as u64,
                share_ceil(reserve_y as nat, desired_lp as nat, lp_supply as nat) as u64,
            ),
        )
    }
}

/// Sizes a deposit that is to mint `desired_lp` LP units.
///
/// `max_x` and `max_y` cap what the depositor is willing to bring; on an
/// empty pool they are the amounts brought.
pub fn deposit_quote(
    reserve_x: u64,
    reserve_y: u64,
    lp_supply: u64,
    desired_lp: u64,
    max_x: u64,
    max_y: u64,
) -> (r: Result<(u64, u64), AmmError>)
    ensures
        r == deposit_quote_spec(reserve_x, reserve_y, lp_supply, desired_lp, max_x, max_y),
{
    if lp_supply == 0 {
        return Ok((max_x, max_y));
    }
    let x_in: u128 = mul_div_ceil(reserve_x, desired_lp, lp_supply as u128);
    let y_in: u128 = mul_div_ceil(reserve_y, desired_lp, lp_supply as u128);
    if x_in > max_x as u128 || y_in > max_y as u128 {
        return Err(AmmError::SlippageExceeded);
    }
    Ok((x_in as u64, y_in as u64))
}

/// `r` is the geometric mean of `x_in` and `y_in`, rounded down: the
/// largest `r` whose square stays within their product.
pub open spec fn is_seed_lp(x_in: nat, y_in: nat, r: nat) -> bool {
    r * r <= x_in * y_in < (r + 1) * (r + 1)
}

/// At most one amount is the rounded geometric mean of two amounts.
pub proof fn lemma_seed_lp_unique(x_in: nat, y_in: nat, r1: nat, r2: nat)
    requires
        is_seed_lp(x_in, y_in, r1),
        is_seed_lp(x_in, y_in, r2),
    ensures
        r1 == r2,
{
    let n = x_in * y_in;
    assert(r1 == r2) by (nonlinear_arith)
        requires
            r1 * r1 <= n < (r1 + 1) * (r1 + 1),
            r2 * r2 <= n < (r2 + 1) * (r2 + 1),
    ;
}

/// The LP amount that seeds an empty pool on the scale of its reserves: the
/// geometric mean of the two amounts brought, rounded down.
///
/// The pool mints what a depositor asks for; the first depositor who asks
/// for this amount starts the supply where one LP unit stands for about one
/// unit of each asset's weight in the pool.
pub fn seed_lp(x_in: u64, y_in: u64) -> (r: u64)
    ensures
        is_seed_lp(x_in as nat, y_in as nat, r as nat),
{
    proof {
        lemma_product_fits(x_in, y_in);
    }
    let n: u128 = (x_in as u128) * (y_in as u128);
    let mut low: u128 = 0;
    let mut high: u128 = 0x1_0000_0000_0000_0000;
    assert(0x1_0000_0000_0000_0000int * 0x1_0000_0000_0000_0000int > 0xffff_ffff_ffff_ffff
        * 0xffff_ffff_ffff_ffff) by (nonlinear_arith);
    while high - low > 1
        invariant
            low < high <= 0x1_0000_0000_0000_0000,
            low * low <= n < high * high,
        decreases high - low,
    {
        let middle: u128 = low + (high - low) / 2;
        assert(middle * middle <= 0xffff_ffff_ffff_ffff * 0xffff_ffff_ffff_ffff)
            by (nonlinear_arith)
            requires
                0 <= middle <= 0xffff_ffff_ffff_ffff,
        ;
        if middle * middle <= n {
            low = middle;
        } else {
            high = middle;
        }
    }
    assert(high == low + 1);
    low as u64
}

} // verus!
