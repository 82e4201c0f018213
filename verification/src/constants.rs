//! Scales, bounds and intervals of the protocol.

use vstd::prelude::*;

verus! {

/// Scale of prices: six decimals of precision.
pub const PRICE_SCALE: u128 = 1_000_000;

/// Scale of basis points: 10000 basis points are 100%.
pub const BPS_SCALE: u16 = 10_000;

/// Share of a distributed yield that goes to the protocol, in basis points.
pub const PROTOCOL_FEE_BPS: u16 = 1_000;

/// Lowest collateral ratio the protocol accepts, in basis points (120%).
pub const MIN_ALLOWED_COLLATERAL_RATIO: u16 = 12_000;

/// Highest collateral ratio the protocol accepts, in basis points (650%).
pub const MAX_ALLOWED_COLLATERAL_RATIO: u16 = 65_000;

/// Collateral ratio used where none is chosen, in basis points (150%).
pub const DEFAULT_COLLATERAL_RATIO: u16 = 15_000;

/// Lowest fee rate, in basis points.
pub const MIN_FEE_RATE_BPS: u16 = 10;

/// Highest fee rate, in basis points (100%).
pub const MAX_FEE_RATE_BPS: u16 = 10_000;

/// Fee rate used where none is chosen, in basis points (0.3%).
pub const DEFAULT_BASE_FEE_RATE_BPS: u16 = 30;

/// Base interest rate, in basis points (5%).
pub const BASE_INTEREST_RATE: u64 = 500;

/// Longest accepted age of the last rate update, in seconds (one week).
pub const RATE_UPDATE_INTERVAL: i64 = 604_800;

/// Longest accepted age of an oracle round when yield is distributed, in seconds
/// (15 minutes).
pub const RATE_FRESHNESS_THRESHOLD: i64 = 900;

/// Bytes kept free in each record for later versions.
pub const RESERVE_SPACE: usize = 32;

/// Most bonds the registry holds.
pub const MAX_ALLOWED_BONDS: usize = 10;

/// Most authorized yield distributors.
pub const MAX_ALLOWED_COLLECTORS: usize = 5;

/// Most depositors in the ledger of one stablecoin.
pub const MAX_USER_SHARES: usize = 100;

/// Shortest time between two yield collections, in seconds (one week).
pub const MIN_YIELD_COLLECTION_INTERVAL: i64 = 604_800;

/// Shortest time between two rebases of one stablecoin, in seconds (one week).
pub const REBASE_INTERVAL: i64 = 604_800;

/// Seconds in a year of 365 days.
pub const YEAR_IN_SECONDS: i64 = 31_536_000;

/// Decimal places of every stablecoin.
pub const STABLECOIN_DECIMALS: u8 = 6;

/// Longest accepted age of the price used to mint or burn, in seconds (5 minutes).
pub const ORACLE_STALENESS_THRESHOLD: i64 = 300;

/// The bytes of the address of the mint in which yield and fees are paid.
pub const USDC_MINT: [u8; 32] = [
    198, 250, 122, 243, 190, 219, 173, 58, 61, 101, 243, 106, 171, 201, 116, 49,
    177, 187, 228, 194, 210, 246, 224, 228, 124, 166, 2, 3, 69, 47, 93, 97,
];

/// Most bytes in the name of a stablecoin.
pub const MAX_NAME_LEN: usize = 32;

/// Most bytes in the symbol of a stablecoin.
pub const MAX_SYMBOL_LEN: usize = 10;

} // verus!
