//! Resuming a paused stablecoin.

use vstd::prelude::*;
use crate::address::Address;
use crate::errors::StablecoinError;
use crate::events::StablecoinResumed;
use crate::states::factory_state::FactoryState;
use crate::states::stablecoin::StablecoinState;

verus! {

/// What resuming a stablecoin works on.
#[derive(Clone, Debug, PartialEq, Eq)]
pub struct ResumeStablecoin {
    /// The admin, who signs.
    pub admin: Address,
    pub factory_state: FactoryState,
    pub stablecoin_state: StablecoinState,
    /// The address of the record of the stablecoin.
    pub stablecoin: Address,
    /// The current time.
    pub unix_timestamp: i64,
}

impl ResumeStablecoin {
    /// Whether the accounts fit together: the factory is not paused, and the
    /// signer is both the admin of the factory and the creator of the
    /// stablecoin.
    pub open spec fn account_check(&self) -> Result<(), StablecoinError> {
        if self.factory_state.is_paused {
            Err(StablecoinError::FactoryPaused)
        } else if self.factory_state.admin != self.admin {
            Err(StablecoinError::Unauthorized)
        } else if self.stablecoin_state.creator != self.admin {
            Err(StablecoinError::Unauthorized)
        } else {
            Ok(())
        }
    }

    /// These records are `before` with the stablecoin resumed at the current
    /// time, and nothing else changed.
    pub open spec fn is_resumption_of(&self, before: ResumeStablecoin) -> bool {
        &&& self.stablecoin_state == (StablecoinState {
            is_paused: false,
            last_updated: before.unix_timestamp,
            ..before.stablecoin_state
        })
        &&& *self == (ResumeStablecoin { stablecoin_state: self.stablecoin_state, ..before })
    }

    /// Checks that the accounts fit together.
    pub fn check_accounts(&self) -> (r: Result<(), StablecoinError>)
        ensures
            r == self.account_check(),
    {
        if self.factory_state.is_paused {
            return Err(StablecoinError::FactoryPaused);
        }
        if self.factory_state.admin != self.admin {
            return Err(StablecoinError::Unauthorized);
        }
        if self.stablecoin_state.creator != self.admin {
            return Err(StablecoinError::Unauthorized);
        }
        Ok(())
    }
}

/// Resumes the stablecoin, unless it is not paused.
pub fn resume_stablecoin(ctx: &mut ResumeStablecoin) -> (r: Result<StablecoinResumed, StablecoinError>)
    ensures
        !old(ctx).stablecoin_state.is_paused ==> r == Err::<StablecoinResumed, StablecoinError>(
            StablecoinError::NotPaused,
        ) && *final(ctx) == *old(ctx),
        old(ctx).stablecoin_state.is_paused ==> r == Ok::<StablecoinResumed, StablecoinError>(
            StablecoinResumed {
                admin: old(ctx).admin,
                stablecoin: old(ctx).stablecoin,
                timestamp: old(ctx).unix_timestamp,
            },
        ) && final(ctx).is_resumption_of(*old(ctx)),
        old(ctx).stablecoin_state.is_balanced() ==> final(ctx).stablecoin_state.is_balanced(),
        old(ctx).stablecoin_state.ledger_is_sound() ==>
            final(ctx).stablecoin_state.ledger_is_sound(),
        old(ctx).factory_state.tracker_follows_registry() ==>
            final(ctx).factory_state.tracker_follows_registry(),
        old(ctx).factory_state.registry_is_sound() ==> final(ctx).factory_state.registry_is_sound(),
{
    if !ctx.stablecoin_state.is_paused {
        return Err(StablecoinError::NotPaused);
    }
    ctx.stablecoin_state.is_paused = false;
    ctx.stablecoin_state.last_updated = ctx.unix_timestamp;
    Ok(StablecoinResumed { admin: ctx.admin, stablecoin: ctx.stablecoin, timestamp: ctx.unix_timestamp })
}

} // verus!
