//! Conversion between bond collateral and minted supply, and fees on both.
//!
//! Prices are scaled by [`PRICE_SCALE`], ratios and rates by [`BPS_SCALE`].
//! Every quotient is rounded down, so that no conversion issues more than the
//! collateral covers, and every product is formed in 128 bits and checked
//! before it is divided.

use vstd::prelude::*;
use vstd::arithmetic::div_mod::lemma_fundamental_div_mod;
use vstd::arithmetic::div_mod::lemma_div_is_ordered;
use vstd::arithmetic::div_mod::lemma_div_multiples_vanish;
use vstd::arithmetic::div_mod::lemma_div_pos_is_pos;
use vstd::arithmetic::div_mod::lemma_mod_bound;
use crate::constants::BPS_SCALE;
use crate::constants::PRICE_SCALE;
use crate::errors::StablecoinError;

verus! {

/// Supply minted for `bond_amount` of collateral at `price` under `ratio_bps`:
/// `floor(floor(bond_amount * price * 10000 / ratio_bps) / 1000000)`.
pub open spec fn mint_amount_of(bond_amount: int, price: int, ratio_bps: int) -> int {
    bond_amount * price * (BPS_SCALE as int) / ratio_bps / (PRICE_SCALE as int)
}

/// Collateral returned for `supply_amount` at `price` under `ratio_bps`:
/// `floor(floor(supply_amount * ratio_bps * 1000000 / price) / 10000)`.
pub open spec fn bond_return_of(supply_amount: int, price: int, ratio_bps: int) -> int {
    supply_amount * ratio_bps * (PRICE_SCALE as int) / price / (BPS_SCALE as int)
}

/// Fee on `amount` at `rate_bps`: `floor(amount * rate_bps / 10000)`.
pub open spec fn fee_of(amount: int, rate_bps: int) -> int {
    amount * rate_bps / (BPS_SCALE as int)
}

/// The absolute value of an integer.
pub open spec fn magnitude(x: int) -> int {
    if x < 0 {
        -x
    } else {
        x
    }
}

/// What minting against `bond_amount` of collateral yields.
///
/// The product `bond_amount * bond_price * 10000` must fit in 128 bits and the
/// ratio must not be zero, else the conversion overflows; the minted amount
/// must fit the supply counter.
pub open spec fn mint_amount_result(bond_amount: u64, bond_price: u64, collateral_ratio: u16) -> Result<
    u64,
    StablecoinError,
> {
    if bond_amount * bond_price * BPS_SCALE > u128::MAX || collateral_ratio == 0 {
        Err(StablecoinError::MathOverflow)
    } else if mint_amount_of(bond_amount as int, bond_price as int, collateral_ratio as int)
        > u64::MAX {
        Err(StablecoinError::ExcessivePriceDeviation)
    } else {
        Ok(mint_amount_of(bond_amount as int, bond_price as int, collateral_ratio as int) as u64)
    }
}

/// What redeeming `stablecoin_amount` of supply returns.
///
/// A zero price cannot be divided by; the returned amount must fit the
/// collateral counter.
pub open spec fn bond_return_result(
    stablecoin_amount: u64,
    bond_price: u64,
    collateral_ratio: u16,
) -> Result<u64, StablecoinError> {
    if bond_price == 0 {
        Err(StablecoinError::MathOverflow)
    } else if bond_return_of(stablecoin_amount as int, bond_price as int, collateral_ratio as int)
        > u64::MAX {
        Err(StablecoinError::ExcessivePriceDeviation)
    } else {
        Ok(
            bond_return_of(stablecoin_amount as int, bond_price as int, collateral_ratio as int) as u64,
        )
    }
}

/// The fee charged on `amount` at `rate_bps`, which must fit in 64 bits.
pub open spec fn fee_result(amount: u64, rate_bps: u16) -> Result<u64, StablecoinError> {
    if fee_of(amount as int, rate_bps as int) > u64::MAX {
        Err(StablecoinError::FeeTooLarge)
    } else {
        Ok(fee_of(amount as int, rate_bps as int) as u64)
    }
}

/// The price that an oracle mantissa stands for: its magnitude scaled by
/// [`PRICE_SCALE`]. A price of zero is invalid, and one that does not fit in
/// 64 bits overflows.
pub open spec fn oracle_price_result(mantissa: i128) -> Result<u64, StablecoinError> {
    if magnitude(mantissa as int) * PRICE_SCALE > u64::MAX {
        Err(StablecoinError::MathOverflow)
    } else if mantissa == 0 {
        Err(StablecoinError::InvalidOraclePrice)
    } else {
        Ok((magnitude(mantissa as int) * PRICE_SCALE) as u64)
    }
}

/// The magnitude of `x` as an unsigned number.
pub fn unsigned_magnitude(x: i128) -> (r: u128)
    ensures
        r == magnitude(x as int),
{
    if x >= 0 {
        x as u128
    } else {
        let above: i128 = x + 1;
        let below: u128 = (-above) as u128;
        below + 1
    }
}

/// Supply to mint for `bond_amount` of collateral at `bond_price`, under
/// `collateral_ratio` basis points of collateral per unit of supply.
pub fn calculate_mint_amount(bond_amount: u64, bond_price: u64, collateral_ratio: u16) -> (r: Result<
    u64,
    StablecoinError,
>)
    ensures
        r == mint_amount_result(bond_amount, bond_price, collateral_ratio),
{
    assert(bond_amount * bond_price <= u128::MAX) by (nonlinear_arith)
        requires
            bond_amount <= u64::MAX,
            bond_price <= u64::MAX,
    ;
    let collateral_value: u128 = match (bond_amount as u128).checked_mul(bond_price as u128) {
        Some(v) => v,
        None => { return Err(StablecoinError::MathOverflow); },
    };
    let scaled: u128 = match collateral_value.checked_mul(BPS_SCALE as u128) {
        Some(v) => v,
        None => { return Err(StablecoinError::MathOverflow); },
    };
    let by_ratio: u128 = match scaled.checked_div(collateral_ratio as u128) {
        Some(v) => v,
        None => { return Err(StablecoinError::MathOverflow); },
    };
    let mint_amount: u128 = by_ratio / PRICE_SCALE;
    if mint_amount > u64::MAX as u128 {
        return Err(StablecoinError::ExcessivePriceDeviation);
    }
    Ok(mint_amount as u64)
}

/// Collateral to return for `stablecoin_amount` of supply at `bond_price`,
/// under `collateral_ratio` basis points of collateral per unit of supply.
pub fn calculate_bond_return(stablecoin_amount: u64, bond_price: u64, collateral_ratio: u16) -> (r:
    Result<u64, StablecoinError>)
    ensures
        r == bond_return_result(stablecoin_amount, bond_price, collateral_ratio),
{
    assert(stablecoin_amount * collateral_ratio <= 0xffff_ffff_ffff_ffff * 0xffff) by (nonlinear_arith)
        requires
            stablecoin_amount <= 0xffff_ffff_ffff_ffff,
            collateral_ratio <= 0xffff,
    ;
    let collateral_needed: u128 = match (stablecoin_amount as u128).checked_mul(
        collateral_ratio as u128,
    ) {
        Some(v) => v,
        None => { return Err(StablecoinError::MathOverflow); },
    };
    let scaled_collateral: u128 = match collateral_needed.checked_mul(PRICE_SCALE) {
        Some(v) => v,
        None => { return Err(StablecoinError::MathOverflow); },
    };
    let by_price: u128 = match scaled_collateral.checked_div(bond_price as u128) {
        Some(v) => v,
        None => { return Err(StablecoinError::MathOverflow); },
    };
    let bond_amount: u128 = by_price / (BPS_SCALE as u128);
    if bond_amount > u64::MAX as u128 {
        return Err(StablecoinError::ExcessivePriceDeviation);
    }
    Ok(bond_amount as u64)
}

/// Fee on `amount` at `rate_bps` basis points.
pub fn calculate_fee(amount: u64, rate_bps: u16) -> (r: Result<u64, StablecoinError>)
    ensures
        r == fee_result(amount, rate_bps),
{
    assert(amount * rate_bps <= 0xffff_ffff_ffff_ffff * 0xffff) by (nonlinear_arith)
        requires
            amount <= 0xffff_ffff_ffff_ffff,
            rate_bps <= 0xffff,
    ;
    let product: u128 = match (amount as u128).checked_mul(rate_bps as u128) {
        Some(v) => v,
        None => { return Err(StablecoinError::MathOverflow); },
    };
    let fee_amount: u128 = product / (BPS_SCALE as u128);
    if fee_amount > u64::MAX as u128 {
        return Err(StablecoinError::FeeTooLarge);
    }
    Ok(fee_amount as u64)
}

/// The price, scaled by [`PRICE_SCALE`], that the mantissa of an oracle round
/// stands for.
pub fn oracle_price(mantissa: i128) -> (r: Result<u64, StablecoinError>)
    ensures
        r == oracle_price_result(mantissa),
{
    let size: u128 = unsigned_magnitude(mantissa);
    let price: u128 = match size.checked_mul(PRICE_SCALE) {
        Some(v) => v,
        None => { return Err(StablecoinError::MathOverflow); },
    };
    if price > u64::MAX as u128 {
        return Err(StablecoinError::MathOverflow);
    }
    if price == 0 {
        return Err(StablecoinError::InvalidOraclePrice);
    }
    Ok(price as u64)
}

/// Minting and then redeeming everything at the same price and ratio never
/// returns more collateral than was deposited: both conversions round down.
pub proof fn lemma_round_trip_never_gains(bond_amount: int, price: int, ratio_bps: int)
    requires
        0 <= bond_amount,
        0 < price,
        0 < ratio_bps,
    ensures
        0 <= mint_amount_of(bond_amount, price, ratio_bps),
        0 <= bond_return_of(mint_amount_of(bond_amount, price, ratio_bps), price, ratio_bps)
            <= bond_amount,
{
    let bps = BPS_SCALE as int;
    let scale = PRICE_SCALE as int;
    let value = bond_amount * price * bps;
    let by_ratio = value / ratio_bps;
    let minted = by_ratio / scale;
    assert(minted == mint_amount_of(bond_amount, price, ratio_bps));
    assert(0 <= bond_amount * price) by (nonlinear_arith)
        requires
            0 <= bond_amount,
            0 < price,
    ;
    lemma_div_pos_is_pos(value, ratio_bps);
    lemma_div_pos_is_pos(by_ratio, scale);
    lemma_fundamental_div_mod(value, ratio_bps);
    lemma_mod_bound(value, ratio_bps);
    lemma_fundamental_div_mod(by_ratio, scale);
    lemma_mod_bound(by_ratio, scale);
    assert(ratio_bps * by_ratio <= value);
    assert(minted * scale <= by_ratio);
    let needed = minted * ratio_bps * scale;
    assert(needed <= value && 0 <= needed) by (nonlinear_arith)
        requires
            needed == minted * ratio_bps * scale,
            0 <= minted,
            minted * scale <= by_ratio,
            ratio_bps * by_ratio <= value,
            0 < ratio_bps,
            0 < scale,
    ;
    let whole = bond_amount * bps;
    assert(value == whole * price) by (nonlinear_arith)
        requires
            value == bond_amount * price * bps,
            whole == bond_amount * bps,
    ;
    lemma_div_is_ordered(needed, value, price);
    lemma_div_multiples_vanish(whole, price);
    lemma_div_pos_is_pos(needed, price);
    let by_price = needed / price;
    assert(by_price <= whole);
    lemma_div_is_ordered(by_price, whole, bps);
    lemma_div_multiples_vanish(bond_amount, bps);
    lemma_div_pos_is_pos(by_price, bps);
    assert(bond_return_of(minted, price, ratio_bps) == by_price / bps);
}

/// Whatever a deposit mints can be redeemed at the same price and ratio, and
/// returns at most the deposit.
pub proof fn lemma_redeeming_a_mint_returns_at_most_the_deposit(
    bond_amount: u64,
    bond_price: u64,
    collateral_ratio: u16,
)
    requires
        bond_price > 0,
        mint_amount_result(bond_amount, bond_price, collateral_ratio).is_ok(),
    ensures
        ({
            let minted = mint_amount_result(bond_amount, bond_price, collateral_ratio).unwrap();
            &&& bond_return_result(minted, bond_price, collateral_ratio).is_ok()
            &&& bond_return_result(minted, bond_price, collateral_ratio).unwrap() <= bond_amount
        }),
{
    lemma_round_trip_never_gains(bond_amount as int, bond_price as int, collateral_ratio as int);
}

/// An amount too small for one whole unit of fee is charged nothing.
pub proof fn lemma_small_amount_pays_no_fee(amount: int, rate_bps: int)
    requires
        0 <= amount,
        0 <= rate_bps,
        amount * rate_bps < BPS_SCALE,
    ensures
        fee_of(amount, rate_bps) == 0,
{
    assert(0 <= amount * rate_bps) by (nonlinear_arith)
        requires
            0 <= amount,
            0 <= rate_bps,
    ;
}

} // verus!
