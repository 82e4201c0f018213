//! Changing the parameters of a registered bond.

use vstd::prelude::*;
use crate::address::Address;
use crate::errors::StablecoinError;
use crate::events::BondConfigUpdated;
use crate::states::bond_config::BondConfigUpdate;
use crate::states::factory_state::updated_config;
use crate::states::factory_state::FactoryState;

verus! {

/// What a change of a bond's parameters works on.
#[derive(Clone, Debug, PartialEq, Eq)]
pub struct UpdateBondConfig {
    /// The admin, who signs.
    pub admin: Address,
    pub factory_state: FactoryState,
    /// The mint of the bond.
    pub bond_mint: Address,
    /// The current time.
    pub unix_timestamp: i64,
}

impl UpdateBondConfig {
    /// Whether the accounts fit together: the signer is the admin.
    pub open spec fn account_check(&self) -> Result<(), StablecoinError> {
        if self.admin != self.factory_state.admin {
            Err(StablecoinError::UnauthorizedAdmin)
        } else {
            Ok(())
        }
    }

    /// What the change comes to: the event that reports the parameters the
    /// bond is left with, or the reason to refuse it.
    pub open spec fn update_outcome(&self, updates: BondConfigUpdate) -> Result<
        BondConfigUpdated,
        StablecoinError,
    > {
        match self.factory_state.bond_updated(self.bond_mint, updates) {
            Err(e) => Err(e),
            Ok(_) => {
                let config = updated_config(
                    self.factory_state.bond_config(self.bond_mint).unwrap(),
                    updates,
                );
                Ok(
                    BondConfigUpdated {
                        bond_mint: self.bond_mint,
                        is_enabled: config.is_enabled,
                        custom_fee_rate: config.custom_fee_rate,
                        admin: self.admin,
                        timestamp: self.unix_timestamp,
                    },
                )
            },
        }
    }

    /// These records are `before` after the change `updates`: the first
    /// registry entry of the bond is updated, and nothing else changed.
    pub open spec fn is_update_of(&self, before: UpdateBondConfig, updates: BondConfigUpdate) -> bool {
        &&& before.factory_state.bond_updated(before.bond_mint, updates) matches Ok(configs)
            && self.factory_state.is_registry_change_of(before.factory_state, configs)
        &&& *self == (UpdateBondConfig { factory_state: self.factory_state, ..before })
    }

    /// Checks that the accounts fit together.
    pub fn check_accounts(&self) -> (r: Result<(), StablecoinError>)
        ensures
            r == self.account_check(),
    {
        if self.admin != self.factory_state.admin {
            return Err(StablecoinError::UnauthorizedAdmin);
        }
        Ok(())
    }
}

/// Changes the enabled flag and the fee rate of the bond of the context as
/// `updates` says, or refuses and changes nothing.
pub fn update_bond_config(ctx: &mut UpdateBondConfig, updates: BondConfigUpdate) -> (r: Result<
    BondConfigUpdated,
    StablecoinError,
>)
    ensures
        match old(ctx).update_outcome(updates) {
            Err(e) => r == Err::<BondConfigUpdated, StablecoinError>(e) && *final(ctx) == *old(ctx),
            Ok(event) => r == Ok::<BondConfigUpdated, StablecoinError>(event)
                && final(ctx).is_update_of(*old(ctx), updates),
        },
        old(ctx).factory_state.registry_is_sound() ==> final(ctx).factory_state.registry_is_sound(),
        old(ctx).factory_state.tracker_follows_registry() ==>
            final(ctx).factory_state.tracker_follows_registry(),
{
    let bond_mint = ctx.bond_mint;
    let config = match ctx.factory_state.update_bond(&bond_mint, updates) {
        Ok(config) => config,
        Err(e) => { return Err(e); },
    };
    Ok(
        BondConfigUpdated {
            bond_mint,
            is_enabled: config.is_enabled,
            custom_fee_rate: config.custom_fee_rate,
            admin: ctx.admin,
            timestamp: ctx.unix_timestamp,
        },
    )
}

} // verus!
