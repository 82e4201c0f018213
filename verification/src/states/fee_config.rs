//! Fee rates of one stablecoin.

use vstd::prelude::*;
use crate::address::Address;

verus! {

/// Fee rates on minting and redeeming, and who collects them.
#[derive(Clone, Copy, Debug, PartialEq, Eq)]
pub struct FeeConfig {
    pub mint_fee_bps: u16,
    pub redeem_fee_bps: u16,
    pub fee_collector: Address,
}

} // verus!
