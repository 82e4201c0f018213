//! What an instruction reads of the accounts it is handed.

use vstd::prelude::*;
use crate::address::Address;

verus! {

/// An account as an instruction sees it: where it is, which program owns it
/// and the bytes it holds.
#[derive(Clone, Debug, PartialEq, Eq)]
pub struct AccountSnapshot {
    pub key: Address,
    pub owner: Address,
    pub data: Vec<u8>,
}

/// A token account: where it is, whose it is, of which mint, and its balance.
#[derive(Clone, Copy, Debug, PartialEq, Eq)]
pub struct TokenAccount {
    pub key: Address,
    pub owner: Address,
    pub mint: Address,
    pub amount: u64,
}

/// The latest confirmed round of a price feed.
#[derive(Clone, Copy, Debug, PartialEq, Eq)]
pub struct OracleRound {
    /// The significant digits of the median of the round.
    pub mantissa: i128,
    /// When the round was opened.
    pub round_open_timestamp: i64,
}

} // verus!
