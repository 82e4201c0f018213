//! Accounting engine of a factory of bond-backed stablecoins.
//!
//! A stablecoin is minted against deposits of a yield-bearing bond and burned
//! to redeem them, at the price of an oracle and under a collateral ratio.
//! The engine decides every amount and every refusal; it moves no token and
//! stores no record itself. Each instruction takes the records it works on
//! and the current time, and either refuses and leaves everything as it was,
//! or changes the records and says what is to be settled.
//!
//! - [`conversion`] turns collateral into supply and back, and computes fees.
//! - [`rebase`] computes the yield of a depositor and splits it.
//! - [`timing`] decides freshness and intervals.
//! - [`states`] holds the records: the factory with its registry of bonds
//!   and the collateral in use per bond, and each stablecoin with the ledger
//!   of its depositors.
//! - [`stablebond`] names what the bond program's library derives and decodes.
//! - [`contexts`] holds the instructions, and [`program`] offers them behind
//!   the checks of their accounts.

pub mod accounts;
pub mod address;
pub mod constants;
pub mod contexts;
pub mod conversion;
pub mod errors;
pub mod events;
pub mod lookup;
pub mod program;
pub mod rebase;
pub mod stablebond;
pub mod states;
pub mod timing;
