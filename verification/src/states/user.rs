//! What the engine records of one depositor.

use vstd::prelude::*;
use crate::address::Address;

verus! {

/// The yield one depositor has collected from one stablecoin, kept apart from
/// the principal in the ledger.
#[derive(Clone, Copy, Debug, PartialEq, Eq)]
pub struct UserState {
    pub bump: u8,
    pub user: Address,
    /// The stablecoin this record belongs to.
    pub stablecoin: Address,
    pub total_yield_collected: u64,
    pub last_yield_collection: i64,
    pub bond_amount: u64,
    pub stablecoin_amount: u64,
    pub reserved: [u8; 32],
}

/// One entry of the ledger of a stablecoin: the principal of one depositor.
#[derive(Clone, Copy, Debug, PartialEq, Eq)]
pub struct UserShare {
    pub owner: Address,
    /// Collateral deposited.
    pub bond_amount: u64,
    /// Supply minted against it.
    pub mint_amount: u64,
    /// When the entry was last changed.
    pub timestamp: i64,
}

} // verus!
