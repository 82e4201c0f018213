//! The instructions of the engine, each with the records it works on.

pub mod add_bond;
pub mod burn_stablecoin;
pub mod distribute_yield;
pub mod init_factory;
pub mod init_stablecoin;
pub mod mint_stablecoin;
pub mod pause_stablecoin;
pub mod remove_bond;
pub mod resume_stablecoin;
pub mod update_bond;
pub mod update_factory;
pub mod update_stablecoin;

pub use add_bond::add_supported_bond;
pub use add_bond::register_bond;
pub use add_bond::AddSupportedBond;
pub use burn_stablecoin::burn_stablecoin;
pub use burn_stablecoin::burn_stablecoin_with;
pub use burn_stablecoin::BurnReceipt;
pub use burn_stablecoin::BurnStablecoin;
pub use distribute_yield::distribute_yield;
pub use distribute_yield::distribute_yield_with;
pub use distribute_yield::mints_requested;
pub use distribute_yield::DistributeYield;
pub use init_factory::initialize_factory;
pub use init_factory::InitializeFactory;
pub use init_stablecoin::create_stablecoin;
pub use init_stablecoin::create_stablecoin_with;
pub use init_stablecoin::CreateStablecoin;
pub use mint_stablecoin::mint_stablecoin;
pub use mint_stablecoin::mint_stablecoin_with;
pub use mint_stablecoin::MintReceipt;
pub use mint_stablecoin::MintStablecoin;
pub use pause_stablecoin::pause_stablecoin;
pub use pause_stablecoin::PauseStablecoin;
pub use remove_bond::remove_bond;
pub use remove_bond::RemoveBond;
pub use resume_stablecoin::resume_stablecoin;
pub use resume_stablecoin::ResumeStablecoin;
pub use update_bond::update_bond_config;
pub use update_bond::UpdateBondConfig;
pub use update_factory::update_factory_config;
pub use update_factory::UpdateFactoryConfig;
pub use update_stablecoin::update_stablecoin;
pub use update_stablecoin::UpdateStablecoin;
