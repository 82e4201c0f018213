//! The instructions as the program offers them: each first checks that the
//! accounts it is handed fit together, and then does its work.
//!
//! An instruction that is refused, at either step, changes nothing.

use vstd::prelude::*;
use crate::address::Address;
use crate::contexts::add_bond::AddSupportedBond;
use crate::contexts::burn_stablecoin::BurnReceipt;
use crate::contexts::burn_stablecoin::BurnStablecoin;
use crate::contexts::distribute_yield::DistributeYield;
use crate::contexts::init_factory::policy_check;
use crate::contexts::init_factory::InitializeFactory;
use crate::contexts::init_stablecoin::CreateStablecoin;
use crate::contexts::mint_stablecoin::MintReceipt;
use crate::contexts::mint_stablecoin::MintStablecoin;
use crate::contexts::pause_stablecoin::PauseStablecoin;
use crate::contexts::remove_bond::RemoveBond;
use crate::contexts::resume_stablecoin::ResumeStablecoin;
use crate::contexts::update_bond::UpdateBondConfig;
use crate::contexts::update_factory::UpdateFactoryConfig;
use crate::contexts::update_stablecoin::renaming_check;
use crate::contexts::update_stablecoin::UpdateStablecoin;
use crate::errors::InstructionError;
use crate::errors::StablecoinError;
use crate::events::BondAdded;
use crate::events::BondConfigUpdated;
use crate::events::BondRemoved;
use crate::events::FactoryConfigUpdated;
use crate::events::FactoryInitialized;
use crate::events::StablecoinCreated;
use crate::events::StablecoinPaused;
use crate::events::StablecoinResumed;
use crate::events::StablecoinUpdated;
use crate::events::YieldDistributed;
use crate::stablebond::bond_pda;
use crate::stablebond::decoded_bond;
use crate::stablebond::kyc_pda;
use crate::states::bond_config::BondConfigUpdate;

verus! {

/// Sets up the factory.
pub fn initialize_factory(
    ctx: &mut InitializeFactory,
    min_collateral_ratio: u16,
    base_fee_rate: u16,
) -> (r:
    Result<FactoryInitialized, StablecoinError>)
    ensures
        match old(ctx).account_check() {
            Err(e) => r == Err::<FactoryInitialized, StablecoinError>(e)
                && *final(ctx) == *old(ctx),
            Ok(_) => match policy_check(min_collateral_ratio, base_fee_rate) {
                Err(e) => r == Err::<FactoryInitialized, StablecoinError>(e)
                    && *final(ctx) == *old(ctx),
                Ok(_) => r == Ok::<FactoryInitialized, StablecoinError>(
                    old(ctx).report(min_collateral_ratio, base_fee_rate),
                ) && final(ctx).is_initialization_of(
                    *old(ctx),
                    min_collateral_ratio,
                    base_fee_rate,
                ),
            },
        },
{
    match ctx.check_accounts() {
        Ok(_) => {},
        Err(e) => { return Err(e); },
    }
    crate::contexts::init_factory::initialize_factory(ctx, min_collateral_ratio, base_fee_rate)
}

/// Changes the configuration of the factory.
pub fn update_factory_config(
    ctx: &mut UpdateFactoryConfig,
    new_admin: Option<Address>,
    new_min_collateral_ratio: Option<u16>,
    new_base_fee_rate: Option<u16>,
    new_fee_recipient: Option<Address>,
) -> (r: Result<FactoryConfigUpdated, StablecoinError>)
    ensures
        match old(ctx).account_check() {
            Err(e) => r == Err::<FactoryConfigUpdated, StablecoinError>(e)
                && *final(ctx) == *old(ctx),
            Ok(_) => match old(ctx).update_outcome(
                new_admin,
                new_min_collateral_ratio,
                new_base_fee_rate,
                new_fee_recipient,
            ) {
                Err(e) => r == Err::<FactoryConfigUpdated, StablecoinError>(e) && *final(ctx)
                    == *old(ctx),
                Ok(event) => r == Ok::<FactoryConfigUpdated, StablecoinError>(event)
                    && final(ctx).is_update_of(*old(ctx), event),
            },
        },
        old(ctx).factory_state.tracker_follows_registry() ==>
            final(ctx).factory_state.tracker_follows_registry(),
        old(ctx).factory_state.registry_is_sound() ==> final(ctx).factory_state.registry_is_sound(),
{
    match ctx.check_accounts() {
        Ok(_) => {},
        Err(e) => { return Err(e); },
    }
    crate::contexts::update_factory::update_factory_config(
        ctx,
        new_admin,
        new_min_collateral_ratio,
        new_base_fee_rate,
        new_fee_recipient,
    )
}

/// Creates a stablecoin against a supported bond.
pub fn create_stablecoin(
    ctx: &mut CreateStablecoin,
    name: String,
    symbol: String,
    target_currency: String,
) -> (r: Result<StablecoinCreated, InstructionError>)
    ensures
        match old(ctx).account_check() {
            Err(e) => r == Err::<StablecoinCreated, InstructionError>(InstructionError::Rule(e))
                && *final(ctx) == *old(ctx),
            Ok(_) => match old(ctx).creation_check(
                name@,
                symbol@,
                bond_pda(old(ctx).bond_mint@),
                decoded_bond(old(ctx).bond_info.data@).is_some(),
            ) {
                Err(e) => r == Err::<StablecoinCreated, InstructionError>(e)
                    && *final(ctx) == *old(ctx),
                Ok(_) => r == Ok::<StablecoinCreated, InstructionError>(
                    StablecoinCreated {
                        creator: old(ctx).creator,
                        mint: old(ctx).mint,
                        bond_mint: old(ctx).bond_mint,
                        name: name,
                        symbol: symbol,
                        target_currency: target_currency,
                        timestamp: old(ctx).unix_timestamp,
                    },
                ) && final(ctx).is_creation_of(*old(ctx), name, symbol, target_currency),
            },
        },
        old(ctx).factory_state.tracker_follows_registry() ==>
            final(ctx).factory_state.tracker_follows_registry(),
        old(ctx).factory_state.registry_is_sound() ==> final(ctx).factory_state.registry_is_sound(),
{
    match ctx.check_accounts() {
        Ok(_) => {},
        Err(e) => { return Err(InstructionError::Rule(e)); },
    }
    crate::contexts::init_stablecoin::create_stablecoin(ctx, name, symbol, target_currency)
}

/// Renames a stablecoin.
pub fn update_stablecoin(
    ctx: &mut UpdateStablecoin,
    name: Option<String>,
    symbol: Option<String>,
) -> (r:
    Result<StablecoinUpdated, StablecoinError>)
    ensures
        match old(ctx).account_check() {
            Err(e) => r == Err::<StablecoinUpdated, StablecoinError>(e) && *final(ctx) == *old(ctx),
            Ok(_) => match renaming_check(name, symbol) {
                Err(e) => r == Err::<StablecoinUpdated, StablecoinError>(e)
                    && *final(ctx) == *old(ctx),
                Ok(_) => r == Ok::<StablecoinUpdated, StablecoinError>(
                    StablecoinUpdated {
                        authority: old(ctx).authority,
                        mint: old(ctx).stablecoin_state.mint,
                        name: name,
                        symbol: symbol,
                        timestamp: old(ctx).unix_timestamp,
                    },
                ) && final(ctx).is_renaming_of(*old(ctx), name, symbol),
            },
        },
        old(ctx).stablecoin_state.is_balanced() ==> final(ctx).stablecoin_state.is_balanced(),
        old(ctx).stablecoin_state.ledger_is_sound() ==>
            final(ctx).stablecoin_state.ledger_is_sound(),
        old(ctx).factory_state.tracker_follows_registry() ==>
            final(ctx).factory_state.tracker_follows_registry(),
        old(ctx).factory_state.registry_is_sound() ==> final(ctx).factory_state.registry_is_sound(),
{
    match ctx.check_accounts() {
        Ok(_) => {},
        Err(e) => { return Err(e); },
    }
    crate::contexts::update_stablecoin::update_stablecoin(ctx, name, symbol)
}

/// Registers a bond.
pub fn add_supported_bond(
    ctx: &mut AddSupportedBond,
    min_creation_amount: u64,
    min_redemption_amount: u64,
) -> (r:
    Result<BondAdded, InstructionError>)
    ensures
        match old(ctx).account_check() {
            Err(e) => r == Err::<BondAdded, InstructionError>(InstructionError::Rule(e))
                && *final(ctx) == *old(ctx),
            Ok(_) => match old(ctx).addition(min_creation_amount, min_redemption_amount) {
                Err(e) => r == Err::<BondAdded, InstructionError>(e) && *final(ctx) == *old(ctx),
                Ok(event) => r == Ok::<BondAdded, InstructionError>(event)
                    && final(ctx).is_addition_of(
                    *old(ctx),
                    min_creation_amount,
                    min_redemption_amount,
                    event,
                ),
            },
        },
        old(ctx).factory_state.tracker_follows_registry() ==>
            final(ctx).factory_state.tracker_follows_registry(),
        old(ctx).factory_state.registry_is_sound() ==> final(ctx).factory_state.registry_is_sound(),
{
    match ctx.check_accounts() {
        Ok(_) => {},
        Err(e) => { return Err(InstructionError::Rule(e)); },
    }
    crate::contexts::add_bond::add_supported_bond(ctx, min_creation_amount, min_redemption_amount)
}

/// Takes a bond out of the registry.
pub fn remove_bond(ctx: &mut RemoveBond) -> (r: Result<BondRemoved, StablecoinError>)
    ensures
        match old(ctx).account_check() {
            Err(e) => r == Err::<BondRemoved, StablecoinError>(e) && *final(ctx) == *old(ctx),
            Ok(_) => match old(ctx).removal() {
                Err(e) => r == Err::<BondRemoved, StablecoinError>(e) && *final(ctx) == *old(ctx),
                Ok(event) => r == Ok::<BondRemoved, StablecoinError>(event)
                    && final(ctx).is_removal_of(*old(ctx)),
            },
        },
        forall|i: int|
            old(ctx).account_check().is_ok() && old(ctx).entry_holds_collateral(i) ==> r == Err::<
                BondRemoved,
                StablecoinError,
            >(StablecoinError::ActiveCollateralExists) && *final(ctx) == *old(ctx),
        old(ctx).factory_state.tracker_follows_registry() ==>
            final(ctx).factory_state.tracker_follows_registry(),
        old(ctx).factory_state.registry_is_sound() ==> final(ctx).factory_state.registry_is_sound(),
{
    match ctx.check_accounts() {
        Ok(_) => {},
        Err(e) => { return Err(e); },
    }
    crate::contexts::remove_bond::remove_bond(ctx)
}

/// Changes the parameters of a registered bond.
pub fn update_bond_config(ctx: &mut UpdateBondConfig, updates: BondConfigUpdate) -> (r: Result<
    BondConfigUpdated,
    StablecoinError,
>)
    ensures
        match old(ctx).account_check() {
            Err(e) => r == Err::<BondConfigUpdated, StablecoinError>(e) && *final(ctx) == *old(ctx),
            Ok(_) => match old(ctx).update_outcome(updates) {
                Err(e) => r == Err::<BondConfigUpdated, StablecoinError>(e)
                    && *final(ctx) == *old(ctx),
                Ok(event) => r == Ok::<BondConfigUpdated, StablecoinError>(event)
                    && final(ctx).is_update_of(*old(ctx), updates),
            },
        },
        old(ctx).factory_state.tracker_follows_registry() ==>
            final(ctx).factory_state.tracker_follows_registry(),
        old(ctx).factory_state.registry_is_sound() ==> final(ctx).factory_state.registry_is_sound(),
{
    match ctx.check_accounts() {
        Ok(_) => {},
        Err(e) => { return Err(e); },
    }
    crate::contexts::update_bond::update_bond_config(ctx, updates)
}

/// Mints supply against a deposit of `bond_amount` of bonds.
pub fn mint_tokens(ctx: &mut MintStablecoin, bond_amount: u64) -> (r: Result<
    MintReceipt,
    StablecoinError,
>)
    ensures
        match old(ctx).account_check() {
            Err(e) => r == Err::<MintReceipt, StablecoinError>(e) && *final(ctx) == *old(ctx),
            Ok(_) => match old(ctx).mint_outcome(bond_amount, kyc_pda(old(ctx).user@)) {
                Err(e) => r == Err::<MintReceipt, StablecoinError>(e) && *final(ctx) == *old(ctx),
                Ok(receipt) => r == Ok::<MintReceipt, StablecoinError>(receipt)
                    && final(ctx).is_mint_of(*old(ctx), receipt),
            },
        },
        old(ctx).stablecoin_state.is_balanced() ==> final(ctx).stablecoin_state.is_balanced(),
        old(ctx).stablecoin_state.ledger_is_sound() ==>
            final(ctx).stablecoin_state.ledger_is_sound(),
        old(ctx).factory_state.tracker_follows_registry() ==>
            final(ctx).factory_state.tracker_follows_registry(),
        old(ctx).factory_state.registry_is_sound() ==> final(ctx).factory_state.registry_is_sound(),
        r.is_ok() ==>
            final(ctx).factory_state.collateral_in_use(old(ctx).stablecoin_state.bond_mint)
            == old(ctx).factory_state.collateral_in_use(old(ctx).stablecoin_state.bond_mint)
            + bond_amount,
{
    match ctx.check_accounts() {
        Ok(_) => {},
        Err(e) => { return Err(e); },
    }
    crate::contexts::mint_stablecoin::mint_stablecoin(ctx, bond_amount)
}

/// Burns `stablecoin_amount` of supply and returns bonds for it.
pub fn burn_tokens(ctx: &mut BurnStablecoin, stablecoin_amount: u64) -> (r: Result<
    BurnReceipt,
    StablecoinError,
>)
    ensures
        match old(ctx).account_check() {
            Err(e) => r == Err::<BurnReceipt, StablecoinError>(e) && *final(ctx) == *old(ctx),
            Ok(_) => match old(ctx).burn_outcome(stablecoin_amount, kyc_pda(old(ctx).user@)) {
                Err(e) => r == Err::<BurnReceipt, StablecoinError>(e) && *final(ctx) == *old(ctx),
                Ok(receipt) => r == Ok::<BurnReceipt, StablecoinError>(receipt)
                    && final(ctx).is_burn_of(*old(ctx), receipt),
            },
        },
        old(ctx).stablecoin_state.is_balanced() ==> final(ctx).stablecoin_state.is_balanced(),
        old(ctx).stablecoin_state.ledger_is_sound() ==>
            final(ctx).stablecoin_state.ledger_is_sound(),
        old(ctx).factory_state.tracker_follows_registry() ==>
            final(ctx).factory_state.tracker_follows_registry(),
        old(ctx).factory_state.registry_is_sound() ==> final(ctx).factory_state.registry_is_sound(),
        r matches Ok(receipt) ==> final(ctx).factory_state.collateral_in_use(
            old(ctx).stablecoin_state.bond_mint,
        ) == old(ctx).factory_state.collateral_in_use(old(ctx).stablecoin_state.bond_mint)
            - receipt.event.bond_amount,
{
    match ctx.check_accounts() {
        Ok(_) => {},
        Err(e) => { return Err(e); },
    }
    crate::contexts::burn_stablecoin::burn_stablecoin(ctx, stablecoin_amount)
}

/// Distributes the yield of one depositor.
pub fn distribute_yield(ctx: &mut DistributeYield) -> (r: Result<YieldDistributed, InstructionError>)
    ensures
        match old(ctx).account_check() {
            Err(e) => r == Err::<YieldDistributed, InstructionError>(InstructionError::Rule(e))
                && *final(ctx) == *old(ctx),
            Ok(_) => match old(ctx).distribution(
                bond_pda(old(ctx).bond_mint@),
                decoded_bond(old(ctx).bond_info.data@),
            ) {
                Err(e) => r == Err::<YieldDistributed, InstructionError>(e)
                    && *final(ctx) == *old(ctx),
                Ok(event) => r == Ok::<YieldDistributed, InstructionError>(event)
                    && final(ctx).is_distribution_of(*old(ctx), event),
            },
        },
        old(ctx).stablecoin_state.is_balanced() ==> final(ctx).stablecoin_state.is_balanced(),
        old(ctx).stablecoin_state.ledger_is_sound() ==>
            final(ctx).stablecoin_state.ledger_is_sound(),
        old(ctx).factory_state.tracker_follows_registry() ==>
            final(ctx).factory_state.tracker_follows_registry(),
        old(ctx).factory_state.registry_is_sound() ==> final(ctx).factory_state.registry_is_sound(),
{
    match ctx.check_accounts() {
        Ok(_) => {},
        Err(e) => { return Err(InstructionError::Rule(e)); },
    }
    crate::contexts::distribute_yield::distribute_yield(ctx)
}

/// Pauses a stablecoin.
pub fn pause_stablecoin(ctx: &mut PauseStablecoin) -> (r: Result<StablecoinPaused, StablecoinError>)
    ensures
        match old(ctx).account_check() {
            Err(e) => r == Err::<StablecoinPaused, StablecoinError>(e) && *final(ctx) == *old(ctx),
            Ok(_) => if old(ctx).stablecoin_state.is_paused {
                r == Err::<StablecoinPaused, StablecoinError>(StablecoinError::AlreadyPaused)
                    && *final(ctx) == *old(ctx)
            } else {
                r == Ok::<StablecoinPaused, StablecoinError>(
                    StablecoinPaused {
                        admin: old(ctx).admin,
                        stablecoin: old(ctx).stablecoin,
                        timestamp: old(ctx).unix_timestamp,
                    },
                ) && final(ctx).is_pause_of(*old(ctx))
            },
        },
        old(ctx).stablecoin_state.is_balanced() ==> final(ctx).stablecoin_state.is_balanced(),
        old(ctx).stablecoin_state.ledger_is_sound() ==>
            final(ctx).stablecoin_state.ledger_is_sound(),
        old(ctx).factory_state.tracker_follows_registry() ==>
            final(ctx).factory_state.tracker_follows_registry(),
        old(ctx).factory_state.registry_is_sound() ==> final(ctx).factory_state.registry_is_sound(),
{
    match ctx.check_accounts() {
        Ok(_) => {},
        Err(e) => { return Err(e); },
    }
    crate::contexts::pause_stablecoin::pause_stablecoin(ctx)
}

/// Resumes a paused stablecoin.
pub fn resume_stablecoin(ctx: &mut ResumeStablecoin) -> (r: Result<
    StablecoinResumed,
    StablecoinError,
>)
    ensures
        match old(ctx).account_check() {
            Err(e) => r == Err::<StablecoinResumed, StablecoinError>(e) && *final(ctx) == *old(ctx),
            Ok(_) => if !old(ctx).stablecoin_state.is_paused {
                r == Err::<StablecoinResumed, StablecoinError>(StablecoinError::NotPaused)
                    && *final(ctx) == *old(ctx)
            } else {
                r == Ok::<StablecoinResumed, StablecoinError>(
                    StablecoinResumed {
                        admin: old(ctx).admin,
                        stablecoin: old(ctx).stablecoin,
                        timestamp: old(ctx).unix_timestamp,
                    },
                ) && final(ctx).is_resumption_of(*old(ctx))
            },
        },
        old(ctx).stablecoin_state.is_balanced() ==> final(ctx).stablecoin_state.is_balanced(),
        old(ctx).stablecoin_state.ledger_is_sound() ==>
            final(ctx).stablecoin_state.ledger_is_sound(),
        old(ctx).factory_state.tracker_follows_registry() ==>
            final(ctx).factory_state.tracker_follows_registry(),
        old(ctx).factory_state.registry_is_sound() ==> final(ctx).factory_state.registry_is_sound(),
{
    match ctx.check_accounts() {
        Ok(_) => {},
        Err(e) => { return Err(e); },
    }
    crate::contexts::resume_stablecoin::resume_stablecoin(ctx)
}

} // verus!
