//! Pausing a stablecoin.

use vstd::prelude::*;
use crate::address::Address;
use crate::errors::StablecoinError;
use crate::events::StablecoinPaused;
use crate::states::factory_state::FactoryState;
use crate::states::stablecoin::StablecoinState;

verus! {

/// What pausing a stablecoin works on.
#[derive(Clone, Debug, PartialEq, Eq)]
pub struct PauseStablecoin {
    /// The admin, who signs.
    pub admin: Address,
    pub factory_state: FactoryState,
    pub stablecoin_state: StablecoinState,
    /// The address of the record of the stablecoin.
    pub stablecoin: Address,
    /// The current time.
    pub unix_timestamp: i64,
}

impl PauseStablecoin {
    /// Whether the accounts fit together: the factory is not paused, and the
    /// signer is both the admin of the factory and the creator of the
    /// stablecoin.
    pub open spec fn account_check(&self) -> Result<(), StablecoinError> {
        if self.factory_state.is_paused {
            Err(StablecoinError::FactoryPaused)
        } else if self.factory_state.admin != self.admin {
            Err(StablecoinError::Unauthorized)
        } else if self.stablecoin_state.creator != self.admin {
            Err(StablecoinError::Unauthorized)
        } else {
            Ok(())
        }
    }

    /// These records are `before` with the stablecoin paused at the current
    /// time, and nothing else changed.
    pub open spec fn is_pause_of(&self, before: PauseStablecoin) -> bool {
        &&& self.stablecoin_state == (StablecoinState {
            is_paused: true,
            last_updated: before.unix_timestamp,
            ..before.stablecoin_state
        })
        &&& *self == (PauseStablecoin { stablecoin_state: self.stablecoin_state, ..before })
    }

    /// Checks that the accounts fit together.
    pub fn check_accounts(&self) -> (r: Result<(), StablecoinError>)
        ensures
            r == self.account_check(),
    {
        if self.factory_state.is_paused {
            return Err(StablecoinError::FactoryPaused);
        }
        if self.factory_state.admin != self.admin {
            return Err(StablecoinError::Unauthorized);
        }
        if self.stablecoin_state.creator != self.admin {
            return Err(StablecoinError::Unauthorized);
        }
        Ok(())
    }
}

/// Pauses the stablecoin, unless it is paused already.
pub fn pause_stablecoin(ctx: &mut PauseStablecoin) -> (r: Result<StablecoinPaused, StablecoinError>)
    ensures
        old(ctx).stablecoin_state.is_paused ==> r == Err::<StablecoinPaused, StablecoinError>(
            StablecoinError::AlreadyPaused,
        ) && *final(ctx) == *old(ctx),
        !old(ctx).stablecoin_state.is_paused ==> r == Ok::<StablecoinPaused, StablecoinError>(
            StablecoinPaused {
                admin: old(ctx).admin,
                stablecoin: old(ctx).stablecoin,
                timestamp: old(ctx).unix_timestamp,
            },
        ) && final(ctx).is_pause_of(*old(ctx)),
        old(ctx).stablecoin_state.is_balanced() ==> final(ctx).stablecoin_state.is_balanced(),
        old(ctx).stablecoin_state.ledger_is_sound() ==>
            final(ctx).stablecoin_state.ledger_is_sound(),
        old(ctx).factory_state.tracker_follows_registry() ==>
            final(ctx).factory_state.tracker_follows_registry(),
        old(ctx).factory_state.registry_is_sound() ==> final(ctx).factory_state.registry_is_sound(),
{
    if ctx.stablecoin_state.is_paused {
        return Err(StablecoinError::AlreadyPaused);
    }
    ctx.stablecoin_state.is_paused = true;
    ctx.stablecoin_state.last_updated = ctx.unix_timestamp;
    Ok(StablecoinPaused { admin: ctx.admin, stablecoin: ctx.stablecoin, timestamp: ctx.unix_timestamp })
}

} // verus!
