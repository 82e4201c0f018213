//! Collateral in use per bond.

use vstd::prelude::*;
use crate::address::Address;

verus! {

/// How much of one bond is locked as collateral, over all stablecoins.
#[derive(Clone, Copy, Debug, PartialEq, Eq)]
pub struct BondCollateralInfo {
    pub bond_mint: Address,
    /// Amount locked across all stablecoins.
    pub total_collateral: u64,
    /// Number of stablecoins that use this bond.
    pub num_stablecoins: u32,
}

} // verus!
