//! The vault that fees are paid into.

use vstd::prelude::*;
use crate::address::Address;

verus! {

/// Running total of the fees paid into the vault.
#[derive(Clone, Copy, Debug, PartialEq, Eq)]
pub struct SolFeeVault {
    pub total_fees_collected: u64,
    pub last_collection: i64,
    pub admin: Address,
    pub bump: u8,
}

} // verus!
