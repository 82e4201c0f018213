//! The records the engine keeps.

pub mod bond_config;
pub mod bond_tracker;
pub mod factory_state;
pub mod fee_config;
pub mod sol_fee_vault;
pub mod stablecoin;
pub mod user;

pub use bond_config::BondConfigUpdate;
pub use bond_config::FeeRateUpdate;
pub use bond_config::StablebondConfig;
pub use bond_tracker::BondCollateralInfo;
pub use factory_state::FactoryState;
pub use fee_config::FeeConfig;
pub use sol_fee_vault::SolFeeVault;
pub use stablecoin::StablecoinState;
pub use user::UserShare;
pub use user::UserState;
