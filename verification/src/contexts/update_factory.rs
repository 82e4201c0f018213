//! Changing the configuration of the factory.

use vstd::prelude::*;
use crate::address::Address;
use crate::constants::MAX_ALLOWED_COLLATERAL_RATIO;
use crate::constants::MAX_ALLOWED_COLLECTORS;
use crate::constants::MAX_FEE_RATE_BPS;
use crate::constants::MIN_ALLOWED_COLLATERAL_RATIO;
use crate::constants::USDC_MINT;
use crate::errors::StablecoinError;
use crate::events::FactoryConfigUpdated;
use crate::states::factory_state::FactoryState;

verus! {

/// What a change of the factory's configuration works on.
#[derive(Clone, Debug, PartialEq, Eq)]
pub struct UpdateFactoryConfig {
    /// The current admin, who signs.
    pub admin: Address,
    pub factory_state: FactoryState,
    /// The mint in which fees are held.
    pub fee_mint: Address,
    /// A distributor to authorize, if any.
    pub new_collector: Option<Address>,
    /// The current time.
    pub unix_timestamp: i64,
}

/// Whether a new collateral ratio and a new fee rate, where given, are within
/// what the protocol allows.
pub open spec fn policy_update_check(
    new_min_collateral_ratio: Option<u16>,
    new_base_fee_rate: Option<u16>,
) -> Result<(), StablecoinError> {
    if new_min_collateral_ratio matches Some(ratio) && (ratio < MIN_ALLOWED_COLLATERAL_RATIO
        || ratio > MAX_ALLOWED_COLLATERAL_RATIO) {
        Err(StablecoinError::InvalidCollateralRatio)
    } else if new_base_fee_rate matches Some(fee) && fee > MAX_FEE_RATE_BPS {
        Err(StablecoinError::InvalidFeeRate)
    } else {
        Ok(())
    }
}

/// The new value where one is given, else the current one.
pub open spec fn replaced<T>(current: T, new_value: Option<T>) -> T {
    match new_value {
        Some(value) => value,
        None => current,
    }
}

impl UpdateFactoryConfig {
    /// Whether the accounts fit together: the signer is the admin, and fees
    /// are held in the expected mint.
    pub open spec fn account_check(&self) -> Result<(), StablecoinError> {
        if self.factory_state.admin != self.admin {
            Err(StablecoinError::Unauthorized)
        } else if self.fee_mint.bytes != USDC_MINT {
            Err(StablecoinError::InvalidUSDCMint)
        } else {
            Ok(())
        }
    }

    /// The distributors after the change: the new one is added at the end
    /// where one is given, is not yet authorized and the list has room.
    pub open spec fn collectors_after(&self) -> Seq<Address> {
        match self.new_collector {
            Some(collector) => if !self.factory_state.authorizes(collector)
                && self.factory_state.authorized_collectors@.len() < MAX_ALLOWED_COLLECTORS {
                self.factory_state.authorized_collectors@.push(collector)
            } else {
                self.factory_state.authorized_collectors@
            },
            None => self.factory_state.authorized_collectors@,
        }
    }

    /// What the change comes to: the event that reports the new
    /// configuration, or the reason to refuse it.
    pub open spec fn update_outcome(
        &self,
        new_admin: Option<Address>,
        new_min_collateral_ratio: Option<u16>,
        new_base_fee_rate: Option<u16>,
        new_fee_vault: Option<Address>,
    ) -> Result<FactoryConfigUpdated, StablecoinError> {
        match policy_update_check(new_min_collateral_ratio, new_base_fee_rate) {
            Err(e) => Err(e),
            Ok(_) => if self.factory_state.protocol_version == u16::MAX {
                Err(StablecoinError::MathOverflow)
            } else {
                Ok(
                    FactoryConfigUpdated {
                        admin: replaced(self.factory_state.admin, new_admin),
                        fee_vault: replaced(self.factory_state.fee_vault, new_fee_vault),
                        min_collateral_ratio: replaced(
                            self.factory_state.min_collateral_ratio,
                            new_min_collateral_ratio,
                        ),
                        base_fee_rate: replaced(self.factory_state.base_fee_rate, new_base_fee_rate),
                        protocol_version: (self.factory_state.protocol_version + 1) as u16,
                        timestamp: self.unix_timestamp,
                    },
                )
            },
        }
    }

    /// These records are `before` after the change that `event` reports: the
    /// factory has the configuration in the event and the distributors
    /// after the change, and nothing else changed.
    pub open spec fn is_update_of(&self, before: UpdateFactoryConfig, event: FactoryConfigUpdated) -> bool {
        &&& self.factory_state.authorized_collectors@ == before.collectors_after()
        &&& self.factory_state == (FactoryState {
            admin: event.admin,
            fee_vault: event.fee_vault,
            min_collateral_ratio: event.min_collateral_ratio,
            base_fee_rate: event.base_fee_rate,
            protocol_version: event.protocol_version,
            authorized_collectors: self.factory_state.authorized_collectors,
            ..before.factory_state
        })
        &&& *self == (UpdateFactoryConfig { factory_state: self.factory_state, ..before })
    }

    /// Checks that the accounts fit together.
    pub fn check_accounts(&self) -> (r: Result<(), StablecoinError>)
        ensures
            r == self.account_check(),
    {
        if self.factory_state.admin != self.admin {
            return Err(StablecoinError::Unauthorized);
        }
        if self.fee_mint != Address::new(USDC_MINT) {
            return Err(StablecoinError::InvalidUSDCMint);
        }
        Ok(())
    }

    /// Accepts a new collateral ratio and a new fee rate that, where given,
    /// are within what the protocol allows.
    pub fn validate(&self, new_min_collateral_ratio: Option<u16>, new_base_fee_rate: Option<u16>) -> (r:
        Result<(), StablecoinError>)
        ensures
            r == policy_update_check(new_min_collateral_ratio, new_base_fee_rate),
    {
        if let Some(ratio) = new_min_collateral_ratio {
            if !(ratio >= MIN_ALLOWED_COLLATERAL_RATIO && ratio <= MAX_ALLOWED_COLLATERAL_RATIO) {
                return Err(StablecoinError::InvalidCollateralRatio);
            }
        }
        if let Some(fee) = new_base_fee_rate {
            if fee > MAX_FEE_RATE_BPS {
                return Err(StablecoinError::InvalidFeeRate);
            }
        }
        Ok(())
    }
}

/// Changes what is given of the admin, the lowest collateral ratio, the base
/// fee rate and the fee vault, authorizes the new distributor if there is one
/// and room for it, and raises the version; or refuses and changes nothing.
pub fn update_factory_config(
    ctx: &mut UpdateFactoryConfig,
    new_admin: Option<Address>,
    new_min_collateral_ratio: Option<u16>,
    new_base_fee_rate: Option<u16>,
    new_fee_vault: Option<Address>,
) -> (r: Result<FactoryConfigUpdated, StablecoinError>)
    ensures
        match old(ctx).update_outcome(
            new_admin,
            new_min_collateral_ratio,
            new_base_fee_rate,
            new_fee_vault,
        ) {
            Err(e) => r == Err::<FactoryConfigUpdated, StablecoinError>(e)
                && *final(ctx) == *old(ctx),
            Ok(event) => r == Ok::<FactoryConfigUpdated, StablecoinError>(event)
                && final(ctx).is_update_of(*old(ctx), event),
        },
        old(ctx).factory_state.tracker_follows_registry() ==>
            final(ctx).factory_state.tracker_follows_registry(),
        old(ctx).factory_state.registry_is_sound() ==> final(ctx).factory_state.registry_is_sound(),
{
    match ctx.validate(new_min_collateral_ratio, new_base_fee_rate) {
        Ok(_) => {},
        Err(e) => { return Err(e); },
    }
    let protocol_version: u16 = match ctx.factory_state.protocol_version.checked_add(1) {
        Some(version) => version,
        None => { return Err(StablecoinError::MathOverflow); },
    };
    if let Some(collector) = ctx.new_collector {
        if !ctx.factory_state.is_authorized_collector(collector)
            && ctx.factory_state.authorized_collectors.len() < MAX_ALLOWED_COLLECTORS {
            ctx.factory_state.authorized_collectors.push(collector);
        }
    }
    if let Some(admin) = new_admin {
        ctx.factory_state.admin = admin;
    }
    if let Some(ratio) = new_min_collateral_ratio {
        ctx.factory_state.min_collateral_ratio = ratio;
    }
    if let Some(fee) = new_base_fee_rate {
        ctx.factory_state.base_fee_rate = fee;
    }
    if let Some(vault) = new_fee_vault {
        ctx.factory_state.fee_vault = vault;
    }
    ctx.factory_state.protocol_version = protocol_version;
    Ok(
        FactoryConfigUpdated {
            admin: ctx.factory_state.admin,
            fee_vault: ctx.factory_state.fee_vault,
            min_collateral_ratio: ctx.factory_state.min_collateral_ratio,
            base_fee_rate: ctx.factory_state.base_fee_rate,
            protocol_version: ctx.factory_state.protocol_version,
            timestamp: ctx.unix_timestamp,
        },
    )
}

} // verus!
