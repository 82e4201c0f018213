//! Taking a bond out of the registry.

use vstd::prelude::*;
use crate::address::Address;
use crate::errors::StablecoinError;
use crate::events::BondRemoved;
use crate::states::factory_state::lemma_any_entry_with_collateral_is_in_use;
use crate::states::factory_state::tracking_without;
use crate::states::factory_state::FactoryState;

verus! {

/// What removing a bond works on.
#[derive(Clone, Debug, PartialEq, Eq)]
pub struct RemoveBond {
    /// The admin, who signs.
    pub admin: Address,
    pub factory_state: FactoryState,
    /// The mint of the bond.
    pub bond_mint: Address,
    /// The current time.
    pub unix_timestamp: i64,
}

impl RemoveBond {
    /// Whether the accounts fit together: the signer is the admin.
    pub open spec fn account_check(&self) -> Result<(), StablecoinError> {
        if self.admin != self.factory_state.admin {
            Err(StablecoinError::UnauthorizedAdmin)
        } else {
            Ok(())
        }
    }

    /// Whether the entry at place `i` of the collateral tracker is for the bond
    /// and holds collateral.
    pub open spec fn entry_holds_collateral(&self, i: int) -> bool {
        &&& 0 <= i < self.factory_state.bond_collateral_tracking@.len()
        &&& self.factory_state.bond_collateral_tracking@[i].bond_mint == self.bond_mint
        &&& self.factory_state.bond_collateral_tracking@[i].total_collateral > 0
    }

    /// What the removal comes to: the event that reports it, or the reason to
    /// refuse it.
    pub open spec fn removal(&self) -> Result<BondRemoved, StablecoinError> {
        match self.factory_state.bond_removed(self.bond_mint) {
            Err(e) => Err(e),
            Ok(_) => Ok(
                BondRemoved {
                    bond_mint: self.bond_mint,
                    admin: self.admin,
                    timestamp: self.unix_timestamp,
                },
            ),
        }
    }

    /// These records are `before` after the removal: the first registry entry
    /// of the bond is gone, and so is its first entry in the collateral
    /// tracker, and nothing else changed.
    pub open spec fn is_removal_of(&self, before: RemoveBond) -> bool {
        &&& before.factory_state.bond_removed(before.bond_mint) matches Ok(configs)
            && self.factory_state.is_listing_change_of(
            before.factory_state,
            configs,
            tracking_without(before.factory_state.bond_collateral_tracking@, before.bond_mint),
        )
        &&& *self == (RemoveBond { factory_state: self.factory_state, ..before })
    }

    /// Checks that the accounts fit together.
    pub fn check_accounts(&self) -> (r: Result<(), StablecoinError>)
        ensures
            r == self.account_check(),
    {
        if self.admin != self.factory_state.admin {
            return Err(StablecoinError::UnauthorizedAdmin);
        }
        Ok(())
    }
}

/// A bond of which any entry of the tracker holds collateral is not removed:
/// the removal is refused because collateral is in use.
pub proof fn lemma_collateral_keeps_the_bond(ctx: RemoveBond, i: int)
    requires
        ctx.entry_holds_collateral(i),
    ensures
        ctx.factory_state.collateral_in_use(ctx.bond_mint) > 0,
        ctx.removal() == Err::<BondRemoved, StablecoinError>(
            StablecoinError::ActiveCollateralExists,
        ),
{
    lemma_any_entry_with_collateral_is_in_use(
        ctx.factory_state.bond_collateral_tracking@,
        i,
        ctx.bond_mint,
    );
}

/// Takes the bond of the context out of the registry, unless collateral of it
/// is in use or it is not registered; a refusal changes nothing.
pub fn remove_bond(ctx: &mut RemoveBond) -> (r: Result<BondRemoved, StablecoinError>)
    ensures
        match old(ctx).removal() {
            Err(e) => r == Err::<BondRemoved, StablecoinError>(e) && *final(ctx) == *old(ctx),
            Ok(event) => r == Ok::<BondRemoved, StablecoinError>(event) && final(ctx).is_removal_of(
                *old(ctx),
            ),
        },
        old(ctx).factory_state.registry_is_sound() ==> final(ctx).factory_state.registry_is_sound(),
        old(ctx).factory_state.tracker_follows_registry() ==>
            final(ctx).factory_state.tracker_follows_registry(),
        old(ctx).factory_state.collateral_in_use(old(ctx).bond_mint) > 0 ==> r == Err::<
            BondRemoved,
            StablecoinError,
        >(StablecoinError::ActiveCollateralExists),
        forall|i: int|
            old(ctx).entry_holds_collateral(i) ==> r == Err::<BondRemoved, StablecoinError>(
                StablecoinError::ActiveCollateralExists,
            ) && *final(ctx) == *old(ctx),
{
    let bond_mint = ctx.bond_mint;
    match ctx.factory_state.remove_supported_bond(&bond_mint) {
        Ok(_) => {},
        Err(e) => { return Err(e); },
    }
    Ok(BondRemoved { bond_mint, admin: ctx.admin, timestamp: ctx.unix_timestamp })
}

} // verus!
