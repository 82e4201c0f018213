//! Setting up the factory.

use vstd::prelude::*;
use crate::address::Address;
use crate::constants::MAX_ALLOWED_COLLATERAL_RATIO;
use crate::constants::MAX_FEE_RATE_BPS;
use crate::constants::MIN_ALLOWED_COLLATERAL_RATIO;
use crate::constants::USDC_MINT;
use crate::errors::StablecoinError;
use crate::events::FactoryInitialized;
use crate::lookup::lemma_first_index;
use crate::states::bond_config::StablebondConfig;
use crate::states::bond_tracker::BondCollateralInfo;
use crate::states::factory_state::config_mints;
use crate::states::factory_state::tracked_mints;
use crate::states::factory_state::FactoryState;
use crate::states::sol_fee_vault::SolFeeVault;

verus! {

/// What setting up the factory works on.
#[derive(Clone, Debug, PartialEq, Eq)]
pub struct InitializeFactory {
    /// Who will have authority over the factory, and signs.
    pub admin: Address,
    /// The record of the factory, newly made.
    pub factory_state: FactoryState,
    /// The mint in which fees are held.
    pub fee_mint: Address,
    /// The record of the fee vault, newly made.
    pub sol_fee_vault: SolFeeVault,
    /// The address of the account that holds the fees.
    pub fee_vault: Address,
    /// The bump seed of the address of the factory's record.
    pub factory_state_bump: u8,
    /// The bump seed of the address of the fee vault's record.
    pub sol_fee_vault_bump: u8,
    /// The current time.
    pub unix_timestamp: i64,
}

/// Whether a collateral ratio and a fee rate are within what the protocol
/// allows.
pub open spec fn policy_check(min_collateral_ratio: u16, base_fee_rate: u16) -> Result<
    (),
    StablecoinError,
> {
    if min_collateral_ratio < MIN_ALLOWED_COLLATERAL_RATIO || min_collateral_ratio
        > MAX_ALLOWED_COLLATERAL_RATIO {
        Err(StablecoinError::InvalidCollateralRatio)
    } else if base_fee_rate > MAX_FEE_RATE_BPS {
        Err(StablecoinError::InvalidFeeRate)
    } else {
        Ok(())
    }
}

impl InitializeFactory {
    /// Whether the accounts fit together: fees are held in the expected mint.
    pub open spec fn account_check(&self) -> Result<(), StablecoinError> {
        if self.fee_mint.bytes != USDC_MINT {
            Err(StablecoinError::InvalidUSDCMint)
        } else {
            Ok(())
        }
    }

    /// The event that reports the set-up.
    pub open spec fn report(&self, min_collateral_ratio: u16, base_fee_rate: u16) -> FactoryInitialized {
        FactoryInitialized {
            admin: self.admin,
            fee_vault: self.fee_vault,
            min_collateral_ratio,
            base_fee_rate,
            protocol_version: 1,
            timestamp: self.unix_timestamp,
        }
    }

    /// These records are `before` after the set-up: the factory starts
    /// unpaused at version one, with no bond, no tracked collateral and the
    /// admin as its only distributor; the fee vault starts empty.
    pub open spec fn is_initialization_of(
        &self,
        before: InitializeFactory,
        min_collateral_ratio: u16,
        base_fee_rate: u16,
    ) -> bool {
        &&& self.factory_state.allowed_bond_configs@ == Seq::<StablebondConfig>::empty()
        &&& self.factory_state.bond_collateral_tracking@ == Seq::<BondCollateralInfo>::empty()
        &&& self.factory_state.authorized_collectors@ == seq![before.admin]
        &&& forall|i: int| 0 <= i < 32 ==> self.factory_state.reserved[i] == 0
        &&& self.factory_state == (FactoryState {
            admin: before.admin,
            fee_vault: before.fee_vault,
            is_paused: false,
            min_collateral_ratio,
            base_fee_rate,
            stablecoin_count: 0,
            last_update: before.unix_timestamp,
            allowed_bond_configs: self.factory_state.allowed_bond_configs,
            bond_collateral_tracking: self.factory_state.bond_collateral_tracking,
            authorized_collectors: self.factory_state.authorized_collectors,
            protocol_version: 1,
            bump: before.factory_state_bump,
            reserved: self.factory_state.reserved,
        })
        &&& self.sol_fee_vault == (SolFeeVault {
            total_fees_collected: 0,
            last_collection: before.unix_timestamp,
            admin: before.admin,
            bump: before.sol_fee_vault_bump,
        })
        &&& *self == (InitializeFactory {
            factory_state: self.factory_state,
            sol_fee_vault: self.sol_fee_vault,
            ..before
        })
    }

    /// Checks that the accounts fit together.
    pub fn check_accounts(&self) -> (r: Result<(), StablecoinError>)
        ensures
            r == self.account_check(),
    {
        if self.fee_mint != Address::new(USDC_MINT) {
            return Err(StablecoinError::InvalidUSDCMint);
        }
        Ok(())
    }

    /// Accepts a collateral ratio and a fee rate that are within what the
    /// protocol allows.
    pub fn validate(&self, min_collateral_ratio: u16, base_fee_rate: u16) -> (r: Result<
        (),
        StablecoinError,
    >)
        ensures
            r == policy_check(min_collateral_ratio, base_fee_rate),
    {
        if !(min_collateral_ratio >= MIN_ALLOWED_COLLATERAL_RATIO && min_collateral_ratio
            <= MAX_ALLOWED_COLLATERAL_RATIO) {
            return Err(StablecoinError::InvalidCollateralRatio);
        }
        if base_fee_rate > MAX_FEE_RATE_BPS {
            return Err(StablecoinError::InvalidFeeRate);
        }
        Ok(())
    }
}

/// Sets up the factory under the signing admin, with the given lowest
/// collateral ratio and base fee rate, or refuses and changes nothing.
pub fn initialize_factory(
    ctx: &mut InitializeFactory,
    min_collateral_ratio: u16,
    base_fee_rate: u16,
) -> (r:
    Result<FactoryInitialized, StablecoinError>)
    ensures
        match policy_check(min_collateral_ratio, base_fee_rate) {
            Err(e) => r == Err::<FactoryInitialized, StablecoinError>(e)
                && *final(ctx) == *old(ctx),
            Ok(_) => r == Ok::<FactoryInitialized, StablecoinError>(
                old(ctx).report(min_collateral_ratio, base_fee_rate),
            ) && final(ctx).is_initialization_of(*old(ctx), min_collateral_ratio, base_fee_rate),
        },
        r.is_ok() ==> final(ctx).factory_state.tracker_follows_registry(),
        r.is_ok() ==> final(ctx).factory_state.registry_is_sound()
            && final(ctx).factory_state.authorizes(old(ctx).admin),
{
    match ctx.validate(min_collateral_ratio, base_fee_rate) {
        Ok(_) => {},
        Err(e) => { return Err(e); },
    }
    let admin = ctx.admin;
    let mut collectors: Vec<Address> = Vec::new();
    collectors.push(admin);
    ctx.factory_state = FactoryState {
        admin,
        fee_vault: ctx.fee_vault,
        is_paused: false,
        min_collateral_ratio,
        base_fee_rate,
        stablecoin_count: 0,
        last_update: ctx.unix_timestamp,
        allowed_bond_configs: Vec::new(),
        bond_collateral_tracking: Vec::new(),
        authorized_collectors: collectors,
        protocol_version: 1,
        bump: ctx.factory_state_bump,
        reserved: [0u8; 32],
    };
    ctx.sol_fee_vault = SolFeeVault {
        total_fees_collected: 0,
        last_collection: ctx.unix_timestamp,
        admin,
        bump: ctx.sol_fee_vault_bump,
    };
    proof {
        assert(ctx.factory_state.authorized_collectors@ =~= seq![admin]);
        assert(tracked_mints(ctx.factory_state.bond_collateral_tracking@) =~= config_mints(
            ctx.factory_state.allowed_bond_configs@,
        ));
        lemma_first_index(ctx.factory_state.authorized_collectors@, admin);
        assert(ctx.factory_state.authorized_collectors@[0] == admin);
    }
    Ok(
        FactoryInitialized {
            admin,
            fee_vault: ctx.fee_vault,
            min_collateral_ratio,
            base_fee_rate,
            protocol_version: 1,
            timestamp: ctx.unix_timestamp,
        },
    )
}

} // verus!
