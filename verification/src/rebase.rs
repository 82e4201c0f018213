//! Yield: what a depositor's supply has earned since the last rebase, and how
//! it is split between the depositor and the protocol.
//!
//! The reference price is the base price of the oracle times the conversion
//! rate of the bond's currency, both scaled by [`PRICE_SCALE`]. The scale of
//! the rate is taken out again when the yield rate is formed, so that a feed
//! that quotes the dollar, whose rate is one, converts by identity.

use vstd::prelude::*;
use vstd::arithmetic::div_mod::lemma_div_denominator;
use vstd::arithmetic::div_mod::lemma_div_multiples_vanish_quotient;
use crate::constants::BPS_SCALE;
use crate::constants::PRICE_SCALE;
use crate::constants::PROTOCOL_FEE_BPS;
use crate::constants::YEAR_IN_SECONDS;
use crate::errors::StablecoinError;

verus! {

/// The reference price: the base price times the conversion rate.
pub open spec fn reference_price_of(base_price: int, conversion_rate: int) -> int {
    base_price * conversion_rate
}

/// The rate of yield over `time_elapsed` seconds at the reference price
/// `price` a year: `floor(floor(price * time_elapsed / seconds per year) /
/// 1000000)`.
pub open spec fn yield_rate_of(price: int, time_elapsed: int) -> int {
    price * time_elapsed / (YEAR_IN_SECONDS as int) / (PRICE_SCALE as int)
}

/// The yield on `mint_amount` of supply at `yield_rate`:
/// `floor(mint_amount * yield_rate / 1000000)`.
pub open spec fn total_yield_of(mint_amount: int, yield_rate: int) -> int {
    mint_amount * yield_rate / (PRICE_SCALE as int)
}

/// The part of `total_yield` that goes to the protocol:
/// `floor(total_yield * 1000 / 10000)`.
pub open spec fn protocol_fee_of(total_yield: int) -> int {
    total_yield * (PROTOCOL_FEE_BPS as int) / (BPS_SCALE as int)
}

/// The reference price, unless the product overflows 128 bits.
pub open spec fn reference_price_result(base_price: u128, conversion_rate: u128) -> Result<
    u128,
    StablecoinError,
> {
    if reference_price_of(base_price as int, conversion_rate as int) > u128::MAX {
        Err(StablecoinError::MathOverflow)
    } else {
        Ok(reference_price_of(base_price as int, conversion_rate as int) as u128)
    }
}

/// The protocol's fee and the depositor's yield on `mint_amount` of supply,
/// at the reference price `price` over `time_elapsed` seconds.
///
/// Every product must fit in 128 bits and both parts in 64 bits. The
/// depositor is paid the whole yield less the protocol's fee.
pub open spec fn yield_split(mint_amount: u64, price: u128, time_elapsed: u128) -> Result<
    (u64, u64),
    StablecoinError,
> {
    let yield_rate = yield_rate_of(price as int, time_elapsed as int);
    let total_yield = total_yield_of(mint_amount as int, yield_rate);
    let protocol_fee = protocol_fee_of(total_yield);
    if price * time_elapsed > u128::MAX {
        Err(StablecoinError::MathOverflow)
    } else if mint_amount * yield_rate > u128::MAX {
        Err(StablecoinError::MathOverflow)
    } else if total_yield * PROTOCOL_FEE_BPS > u128::MAX {
        Err(StablecoinError::MathOverflow)
    } else if protocol_fee > u64::MAX || total_yield - protocol_fee > u64::MAX {
        Err(StablecoinError::MathOverflow)
    } else {
        Ok((protocol_fee as u64, (total_yield - protocol_fee) as u64))
    }
}

/// The reference price for a base price and a conversion rate.
pub fn reference_price(base_price: u128, conversion_rate: u128) -> (r: Result<u128, StablecoinError>)
    ensures
        r == reference_price_result(base_price, conversion_rate),
{
    match base_price.checked_mul(conversion_rate) {
        Some(price) => Ok(price),
        None => Err(StablecoinError::MathOverflow),
    }
}

/// Splits the yield on `mint_amount` of supply, at the reference price
/// `price` over `time_elapsed` seconds, into the protocol's fee and the
/// depositor's yield.
pub fn split_yield(mint_amount: u64, price: u128, time_elapsed: u128) -> (r: Result<
    (u64, u64),
    StablecoinError,
>)
    ensures
        r == yield_split(mint_amount, price, time_elapsed),
{
    let base_amount: u128 = mint_amount as u128;
    let scaled: u128 = match price.checked_mul(time_elapsed) {
        Some(v) => v,
        None => { return Err(StablecoinError::MathOverflow); },
    };
    let yield_rate: u128 = scaled / (YEAR_IN_SECONDS as u128) / PRICE_SCALE;
    let earned: u128 = match base_amount.checked_mul(yield_rate) {
        Some(v) => v,
        None => { return Err(StablecoinError::MathOverflow); },
    };
    let total_yield: u128 = earned / PRICE_SCALE;
    let fee_scaled: u128 = match total_yield.checked_mul(PROTOCOL_FEE_BPS as u128) {
        Some(v) => v,
        None => { return Err(StablecoinError::MathOverflow); },
    };
    let protocol_fee: u128 = fee_scaled / (BPS_SCALE as u128);
    let user_yield: u128 = match total_yield.checked_sub(protocol_fee) {
        Some(v) => v,
        None => { return Err(StablecoinError::MathOverflow); },
    };
    if protocol_fee > u64::MAX as u128 || user_yield > u64::MAX as u128 {
        return Err(StablecoinError::MathOverflow);
    }
    Ok((protocol_fee as u64, user_yield as u64))
}

/// A conversion rate of one, which is what a feed that quotes the dollar has,
/// converts by identity: the yield rate is that of the base price alone,
/// `floor(base_price * time_elapsed / seconds per year)`.
pub proof fn lemma_rate_of_one_converts_by_identity(base_price: int, time_elapsed: int)
    requires
        0 <= base_price,
        0 <= time_elapsed,
    ensures
        yield_rate_of(reference_price_of(base_price, PRICE_SCALE as int), time_elapsed)
            == base_price * time_elapsed / (YEAR_IN_SECONDS as int),
{
    let scale = PRICE_SCALE as int;
    let year = YEAR_IN_SECONDS as int;
    let plain = base_price * time_elapsed;
    assert(0 <= plain) by (nonlinear_arith)
        requires
            0 <= base_price,
            0 <= time_elapsed,
            plain == base_price * time_elapsed,
    ;
    assert(base_price * scale * time_elapsed == scale * plain) by (nonlinear_arith)
        requires
            plain == base_price * time_elapsed,
    ;
    lemma_div_denominator(scale * plain, year, scale);
    assert(year * scale == scale * year) by (nonlinear_arith);
    lemma_div_multiples_vanish_quotient(scale, plain, year);
}

} // verus!
