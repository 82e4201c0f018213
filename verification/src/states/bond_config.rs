//! Parameters of one supported bond.

use vstd::prelude::*;
use crate::address::Address;

verus! {

/// What the registry holds of one supported bond.
#[derive(Clone, Copy, Debug, PartialEq, Eq)]
pub struct StablebondConfig {
    /// Mint of the bond token.
    pub bond_mint: Address,
    /// Mint of the token in which the bond pays.
    pub payment_mint: Address,
    pub admin: Address,
    pub min_creation_amount: u64,
    pub min_redemption_amount: u64,
    pub is_enabled: bool,
    /// Fee rate of this bond in basis points, where it differs from the
    /// protocol's.
    pub custom_fee_rate: Option<u16>,
}

/// What to do with the fee rate of a bond.
#[derive(Clone, Copy, Debug, PartialEq, Eq, Structural)]
pub enum FeeRateUpdate {
    /// Leave it as it is.
    Keep,
    /// Remove the bond's own rate, so that the protocol's applies.
    Clear,
    /// Give the bond this rate, in basis points.
    Replace(u16),
}

/// A change to the parameters of a bond.
#[derive(Clone, Copy, Debug, PartialEq, Eq)]
pub struct BondConfigUpdate {
    /// The new enabled flag, if it changes.
    pub is_enabled: Option<bool>,
    pub custom_fee_rate: FeeRateUpdate,
}

} // verus!
