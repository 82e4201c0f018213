//! Renaming a stablecoin.

use vstd::prelude::*;
use crate::address::Address;
use crate::constants::MAX_NAME_LEN;
use crate::constants::MAX_SYMBOL_LEN;
use crate::contexts::init_stablecoin::fits;
use crate::contexts::init_stablecoin::text_fits;
use crate::errors::StablecoinError;
use crate::events::StablecoinUpdated;
use crate::states::factory_state::FactoryState;
use crate::states::stablecoin::StablecoinState;

verus! {

/// What renaming a stablecoin works on.
#[derive(Clone, Debug, PartialEq, Eq)]
pub struct UpdateStablecoin {
    /// The creator of the stablecoin, who signs.
    pub authority: Address,
    pub factory_state: FactoryState,
    pub stablecoin_state: StablecoinState,
    /// The current time.
    pub unix_timestamp: i64,
}

/// Whether a new name and a new symbol, where given, are acceptable.
pub open spec fn renaming_check(name: Option<String>, symbol: Option<String>) -> Result<
    (),
    StablecoinError,
> {
    if name matches Some(text) && !fits(text@, MAX_NAME_LEN) {
        Err(StablecoinError::InvalidName)
    } else if symbol matches Some(text) && !fits(text@, MAX_SYMBOL_LEN) {
        Err(StablecoinError::InvalidSymbol)
    } else {
        Ok(())
    }
}

impl UpdateStablecoin {
    /// Whether the accounts fit together: the factory is not paused, and the
    /// signer is the creator of the stablecoin.
    pub open spec fn account_check(&self) -> Result<(), StablecoinError> {
        if self.factory_state.is_paused {
            Err(StablecoinError::FactoryPaused)
        } else if self.stablecoin_state.creator != self.authority {
            Err(StablecoinError::UnauthorizedAccess)
        } else {
            Ok(())
        }
    }

    /// These records are `before` after the renaming: the name and the symbol
    /// are the new ones where given, the time of last change is the current
    /// time, and nothing else changed.
    pub open spec fn is_renaming_of(
        &self,
        before: UpdateStablecoin,
        name: Option<String>,
        symbol: Option<String>,
    ) -> bool {
        &&& self.stablecoin_state == (StablecoinState {
            name: match name {
                Some(text) => text,
                None => before.stablecoin_state.name,
            },
            symbol: match symbol {
                Some(text) => text,
                None => before.stablecoin_state.symbol,
            },
            last_updated: before.unix_timestamp,
            ..before.stablecoin_state
        })
        &&& *self == (UpdateStablecoin { stablecoin_state: self.stablecoin_state, ..before })
    }

    /// Checks that the accounts fit together.
    pub fn check_accounts(&self) -> (r: Result<(), StablecoinError>)
        ensures
            r == self.account_check(),
    {
        if self.factory_state.is_paused {
            return Err(StablecoinError::FactoryPaused);
        }
        if self.stablecoin_state.creator != self.authority {
            return Err(StablecoinError::UnauthorizedAccess);
        }
        Ok(())
    }

    /// Accepts a new name of at most 32 bytes and a new symbol of at most 10,
    /// neither empty, where they are given.
    pub fn validate(&self, name: &Option<String>, symbol: &Option<String>) -> (r: Result<
        (),
        StablecoinError,
    >)
        ensures
            r == renaming_check(*name, *symbol),
    {
        if let Some(text) = name {
            if !text_fits(text.as_str(), MAX_NAME_LEN) {
                return Err(StablecoinError::InvalidName);
            }
        }
        if let Some(text) = symbol {
            if !text_fits(text.as_str(), MAX_SYMBOL_LEN) {
                return Err(StablecoinError::InvalidSymbol);
            }
        }
        Ok(())
    }
}

/// Gives the stablecoin the new name and the new symbol, where given, or
/// refuses and changes nothing.
pub fn update_stablecoin(
    ctx: &mut UpdateStablecoin,
    name: Option<String>,
    symbol: Option<String>,
) -> (r:
    Result<StablecoinUpdated, StablecoinError>)
    ensures
        match renaming_check(name, symbol) {
            Err(e) => r == Err::<StablecoinUpdated, StablecoinError>(e) && *final(ctx) == *old(ctx),
            Ok(_) => r == Ok::<StablecoinUpdated, StablecoinError>(
                StablecoinUpdated {
                    authority: old(ctx).authority,
                    mint: old(ctx).stablecoin_state.mint,
                    name: name,
                    symbol: symbol,
                    timestamp: old(ctx).unix_timestamp,
                },
            ) && final(ctx).is_renaming_of(*old(ctx), name, symbol),
        },
        old(ctx).stablecoin_state.is_balanced() ==> final(ctx).stablecoin_state.is_balanced(),
        old(ctx).stablecoin_state.ledger_is_sound() ==>
            final(ctx).stablecoin_state.ledger_is_sound(),
        old(ctx).factory_state.tracker_follows_registry() ==>
            final(ctx).factory_state.tracker_follows_registry(),
        old(ctx).factory_state.registry_is_sound() ==> final(ctx).factory_state.registry_is_sound(),
{
    match ctx.validate(&name, &symbol) {
        Ok(_) => {},
        Err(e) => { return Err(e); },
    }
    let now = ctx.unix_timestamp;
    if let Some(text) = &name {
        ctx.stablecoin_state.name = text.clone();
    }
    if let Some(text) = &symbol {
        ctx.stablecoin_state.symbol = text.clone();
    }
    ctx.stablecoin_state.last_updated = now;
    Ok(
        StablecoinUpdated {
            authority: ctx.authority,
            mint: ctx.stablecoin_state.mint,
            name,
            symbol,
            timestamp: now,
        },
    )
}

} // verus!
