//! What an accepted instruction reports of itself, for whoever keeps a log.

use vstd::prelude::*;
use crate::address::Address;

verus! {

/// The factory was set up.
#[derive(Clone, Copy, Debug, PartialEq, Eq)]
pub struct FactoryInitialized {
    pub admin: Address,
    pub fee_vault: Address,
    pub min_collateral_ratio: u16,
    pub base_fee_rate: u16,
    pub protocol_version: u16,
    pub timestamp: i64,
}

/// The configuration of the factory changed.
#[derive(Clone, Copy, Debug, PartialEq, Eq)]
pub struct FactoryConfigUpdated {
    pub admin: Address,
    pub fee_vault: Address,
    pub min_collateral_ratio: u16,
    pub base_fee_rate: u16,
    pub protocol_version: u16,
    pub timestamp: i64,
}

/// A stablecoin was created.
#[derive(Clone, Debug, PartialEq, Eq)]
pub struct StablecoinCreated {
    pub creator: Address,
    pub mint: Address,
    pub bond_mint: Address,
    pub name: String,
    pub symbol: String,
    pub target_currency: String,
    pub timestamp: i64,
}

/// Supply was minted against a deposit of collateral.
#[derive(Clone, Copy, Debug, PartialEq, Eq)]
pub struct StablecoinMinted {
    pub user: Address,
    pub mint: Address,
    pub bond_amount: u64,
    pub mint_amount: u64,
    /// Scaled by the price scale.
    pub bond_price: u64,
    pub timestamp: i64,
}

/// The name or the symbol of a stablecoin changed.
#[derive(Clone, Debug, PartialEq, Eq)]
pub struct StablecoinUpdated {
    pub authority: Address,
    pub mint: Address,
    pub name: Option<String>,
    pub symbol: Option<String>,
    pub timestamp: i64,
}

/// Supply was burned and collateral returned.
#[derive(Clone, Copy, Debug, PartialEq, Eq)]
pub struct StablecoinBurned {
    pub user: Address,
    pub mint: Address,
    pub bond_amount: u64,
    pub stablecoin_amount: u64,
    /// Scaled by the price scale.
    pub bond_price: u64,
    pub timestamp: i64,
}

/// Yield was collected.
#[derive(Clone, Copy, Debug, PartialEq, Eq)]
pub struct YieldCollected {
    pub collector: Address,
    pub stablecoin: Address,
    pub amount: u64,
    pub timestamp: i64,
}

/// Yield was distributed to a depositor and to the protocol.
#[derive(Clone, Copy, Debug, PartialEq, Eq)]
pub struct YieldDistributed {
    pub user: Address,
    pub stablecoin: Address,
    pub protocol_fee: u64,
    pub user_yield: u64,
    pub timestamp: i64,
}

/// A bond was registered.
#[derive(Clone, Copy, Debug, PartialEq, Eq)]
pub struct BondAdded {
    pub bond_mint: Address,
    pub payment_mint: Address,
    pub admin: Address,
    pub timestamp: i64,
}

/// The parameters of a bond changed.
#[derive(Clone, Copy, Debug, PartialEq, Eq)]
pub struct BondConfigUpdated {
    pub bond_mint: Address,
    pub is_enabled: bool,
    pub custom_fee_rate: Option<u16>,
    pub admin: Address,
    pub timestamp: i64,
}

/// A bond was taken out of the registry.
#[derive(Clone, Copy, Debug, PartialEq, Eq)]
pub struct BondRemoved {
    pub bond_mint: Address,
    pub admin: Address,
    pub timestamp: i64,
}

/// A stablecoin was paused.
#[derive(Clone, Copy, Debug, PartialEq, Eq)]
pub struct StablecoinPaused {
    pub admin: Address,
    pub stablecoin: Address,
    pub timestamp: i64,
}

/// A stablecoin was resumed.
#[derive(Clone, Copy, Debug, PartialEq, Eq)]
pub struct StablecoinResumed {
    pub admin: Address,
    pub stablecoin: Address,
    pub timestamp: i64,
}

} // verus!
