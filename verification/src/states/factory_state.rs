//! The factory: protocol policy, the registry of supported bonds, the
//! collateral in use per bond and the authorized yield distributors.
//!
//! A bond gets its entry in the collateral tracker when it is registered and
//! loses it when it is taken out of the registry. Every deposit adds to the
//! entry and every withdrawal takes from it, and a bond of which collateral
//! is in use cannot be taken out.

use vstd::prelude::*;
use crate::accounts::AccountSnapshot;
use crate::address::Address;
use crate::constants::MAX_ALLOWED_BONDS;
use crate::constants::MAX_ALLOWED_COLLECTORS;
use crate::constants::MAX_FEE_RATE_BPS;
use crate::errors::InstructionError;
use crate::errors::StablecoinError;
use crate::lookup::all_distinct;
use crate::lookup::find_address;
use crate::lookup::first_index;
use crate::lookup::lemma_first_index;
use crate::lookup::lemma_first_index_absent;
use crate::lookup::lemma_first_index_found;
use crate::stablebond::bond_address;
use crate::stablebond::bond_pda;
use crate::stablebond::feed_type_read;
use crate::stablebond::interpret_bond;
use crate::stablebond::decode_payment_feed;
use crate::stablebond::decoded_bond;
use crate::stablebond::decoded_payment_mint;
use crate::stablebond::payment_feed_address;
use crate::stablebond::payment_feed_pda;
use crate::stablebond::decode_bond;
use crate::states::bond_config::BondConfigUpdate;
use crate::states::bond_config::FeeRateUpdate;
use crate::states::bond_config::StablebondConfig;
use crate::states::bond_tracker::BondCollateralInfo;

verus! {

/// The state of the factory.
#[derive(Clone, Debug, PartialEq, Eq)]
pub struct FactoryState {
    /// Who may change the configuration of the factory.
    pub admin: Address,
    /// Where fees are held.
    pub fee_vault: Address,
    pub is_paused: bool,
    /// Lowest collateral ratio of a stablecoin, in basis points.
    pub min_collateral_ratio: u16,
    /// Fee rate of bonds without a rate of their own, in basis points.
    pub base_fee_rate: u16,
    /// How many stablecoins have been created.
    pub stablecoin_count: u32,
    pub last_update: i64,
    /// The registry of supported bonds.
    pub allowed_bond_configs: Vec<StablebondConfig>,
    /// Collateral in use, per bond.
    pub bond_collateral_tracking: Vec<BondCollateralInfo>,
    /// Who may distribute yield.
    pub authorized_collectors: Vec<Address>,
    pub protocol_version: u16,
    pub bump: u8,
    pub reserved: [u8; 32],
}

/// The bond mints of the entries of a registry, in order.
pub open spec fn config_mints(configs: Seq<StablebondConfig>) -> Seq<Address> {
    configs.map_values(|c: StablebondConfig| c.bond_mint)
}

/// The bond mints of the entries of a collateral tracker, in order.
pub open spec fn tracked_mints(tracking: Seq<BondCollateralInfo>) -> Seq<Address> {
    tracking.map_values(|t: BondCollateralInfo| t.bond_mint)
}

/// The collateral tracked for the bond with mint `bond_mint`, over all the
/// entries of the tracker that are for that bond.
pub open spec fn tracked_collateral(tracking: Seq<BondCollateralInfo>, bond_mint: Address) -> int
    decreases tracking.len(),
{
    if tracking.len() == 0 {
        0
    } else {
        tracked_collateral(tracking.drop_last(), bond_mint) + (if tracking.last().bond_mint
            == bond_mint {
            tracking.last().total_collateral as int
        } else {
            0
        })
    }
}

/// The tracker after a bond has been registered: the bond has an entry, a
/// new one at the end without collateral where it had none.
pub open spec fn tracking_with(tracking: Seq<BondCollateralInfo>, bond_mint: Address) -> Seq<
    BondCollateralInfo,
> {
    match first_index(tracked_mints(tracking), bond_mint) {
        Some(_) => tracking,
        None => tracking.push(
            BondCollateralInfo { bond_mint, total_collateral: 0, num_stablecoins: 0 },
        ),
    }
}

/// The tracker after a bond has been taken out of the registry: the first
/// entry of the bond is gone.
pub open spec fn tracking_without(tracking: Seq<BondCollateralInfo>, bond_mint: Address) -> Seq<
    BondCollateralInfo,
> {
    match first_index(tracked_mints(tracking), bond_mint) {
        Some(i) => tracking.remove(i),
        None => tracking,
    }
}

/// No entry of the tracker holds more than is tracked for its bond, and
/// nothing tracked is negative.
pub proof fn lemma_tracked_bounds_entries(tracking: Seq<BondCollateralInfo>, bond_mint: Address)
    ensures
        0 <= tracked_collateral(tracking, bond_mint),
        forall|i: int|
            0 <= i < tracking.len() && tracking[i].bond_mint == bond_mint
                ==> tracking[i].total_collateral <= tracked_collateral(tracking, bond_mint),
    decreases tracking.len(),
{
    if tracking.len() > 0 {
        let front = tracking.drop_last();
        lemma_tracked_bounds_entries(front, bond_mint);
        assert forall|i: int|
            0 <= i < tracking.len() && tracking[i].bond_mint
                == bond_mint implies tracking[i].total_collateral <= tracked_collateral(
            tracking,
            bond_mint,
        ) by {
            if i < tracking.len() - 1 {
                assert(front[i] == tracking[i]);
            }
        }
    }
}

/// Replacing an entry by one for the same bond changes what is tracked for
/// that bond by the difference of the two, and nothing for any other bond.
pub proof fn lemma_tracked_after_update(
    tracking: Seq<BondCollateralInfo>,
    i: int,
    entry: BondCollateralInfo,
    bond_mint: Address,
)
    requires
        0 <= i < tracking.len(),
        entry.bond_mint == tracking[i].bond_mint,
    ensures
        tracked_collateral(tracking.update(i, entry), bond_mint) == tracked_collateral(
            tracking,
            bond_mint,
        ) + (if entry.bond_mint == bond_mint {
            entry.total_collateral - tracking[i].total_collateral
        } else {
            0
        }),
    decreases tracking.len(),
{
    let after = tracking.update(i, entry);
    if i == tracking.len() - 1 {
        assert(after.drop_last() =~= tracking.drop_last());
    } else {
        assert(after.drop_last() =~= tracking.drop_last().update(i, entry));
        lemma_tracked_after_update(tracking.drop_last(), i, entry, bond_mint);
    }
}

/// Adding an entry adds its collateral to what is tracked for its bond.
pub proof fn lemma_tracked_after_push(
    tracking: Seq<BondCollateralInfo>,
    entry: BondCollateralInfo,
    bond_mint: Address,
)
    ensures
        tracked_collateral(tracking.push(entry), bond_mint) == tracked_collateral(
            tracking,
            bond_mint,
        ) + (if entry.bond_mint == bond_mint {
            entry.total_collateral as int
        } else {
            0
        }),
{
    assert(tracking.push(entry).drop_last() =~= tracking);
}

/// Removing an entry takes its collateral from what is tracked for its bond.
pub proof fn lemma_tracked_after_remove(tracking: Seq<BondCollateralInfo>, i: int, bond_mint: Address)
    requires
        0 <= i < tracking.len(),
    ensures
        tracked_collateral(tracking.remove(i), bond_mint) == tracked_collateral(tracking, bond_mint)
            - (if tracking[i].bond_mint == bond_mint {
            tracking[i].total_collateral as int
        } else {
            0
        }),
    decreases tracking.len(),
{
    let after = tracking.remove(i);
    if i == tracking.len() - 1 {
        assert(after =~= tracking.drop_last());
    } else {
        assert(after.drop_last() =~= tracking.drop_last().remove(i));
        assert(after.last() == tracking.last());
        lemma_tracked_after_remove(tracking.drop_last(), i, bond_mint);
    }
}

/// A bond of which any entry of the tracker holds collateral has collateral
/// in use.
pub proof fn lemma_any_entry_with_collateral_is_in_use(
    tracking: Seq<BondCollateralInfo>,
    i: int,
    bond_mint: Address,
)
    requires
        0 <= i < tracking.len(),
        tracking[i].bond_mint == bond_mint,
        tracking[i].total_collateral > 0,
    ensures
        tracked_collateral(tracking, bond_mint) > 0,
{
    lemma_tracked_bounds_entries(tracking, bond_mint);
}

/// Where the tracker follows the registry, every registered bond is tracked:
/// a deposit against a registered bond is never refused for want of an entry
/// in the tracker.
pub proof fn lemma_registered_bond_is_tracked(factory: FactoryState, bond_mint: Address)
    requires
        factory.tracker_follows_registry(),
        factory.bond_config(bond_mint).is_some(),
    ensures
        factory.tracks(bond_mint),
        factory.collateral_updated(bond_mint, 0, true).is_ok(),
        factory.stablecoin_counted(bond_mint) != Err::<Seq<BondCollateralInfo>, StablecoinError>(
            StablecoinError::BondNotFound,
        ),
{
}

/// The fee rate a bond is left with by an update.
pub open spec fn updated_fee_rate(current: Option<u16>, update: FeeRateUpdate) -> Option<u16> {
    match update {
        FeeRateUpdate::Keep => current,
        FeeRateUpdate::Clear => None,
        FeeRateUpdate::Replace(rate) => Some(rate),
    }
}

/// The parameters a bond is left with by an update.
pub open spec fn updated_config(config: StablebondConfig, updates: BondConfigUpdate) -> StablebondConfig {
    StablebondConfig {
        is_enabled: match updates.is_enabled {
            Some(flag) => flag,
            None => config.is_enabled,
        },
        custom_fee_rate: updated_fee_rate(config.custom_fee_rate, updates.custom_fee_rate),
        ..config
    }
}

/// Whether an update asks for a fee rate above the highest allowed.
pub open spec fn asks_excessive_fee(updates: BondConfigUpdate) -> bool {
    updates.custom_fee_rate matches FeeRateUpdate::Replace(rate) && rate > MAX_FEE_RATE_BPS
}

impl FactoryState {
    /// Whether `collector` may distribute yield.
    pub open spec fn authorizes(&self, collector: Address) -> bool {
        first_index(self.authorized_collectors@, collector).is_some()
    }

    /// The registry entry of the bond with mint `bond_mint`, if it has one.
    pub open spec fn bond_config(&self, bond_mint: Address) -> Option<StablebondConfig> {
        match first_index(config_mints(self.allowed_bond_configs@), bond_mint) {
            Some(i) => Some(self.allowed_bond_configs@[i]),
            None => None,
        }
    }

    /// The fee rate that applies to the bond with mint `bond_mint`: its own if
    /// it has one, else the protocol's.
    pub open spec fn fee_rate_of(&self, bond_mint: Address) -> Result<u16, StablecoinError> {
        match self.bond_config(bond_mint) {
            Some(config) => match config.custom_fee_rate {
                Some(rate) => Ok(rate),
                None => Ok(self.base_fee_rate),
            },
            None => Err(StablecoinError::BondNotFound),
        }
    }

    /// The collateral tracked for the bond with mint `bond_mint`: zero where
    /// the bond is not tracked.
    pub open spec fn collateral_in_use(&self, bond_mint: Address) -> int {
        tracked_collateral(self.bond_collateral_tracking@, bond_mint)
    }

    /// The tracker has one entry for each entry of the registry, for the same
    /// bond and at the same place. It holds of a new factory, and every
    /// instruction keeps it, so that every registered bond is tracked.
    pub open spec fn tracker_follows_registry(&self) -> bool {
        tracked_mints(self.bond_collateral_tracking@) == config_mints(self.allowed_bond_configs@)
    }

    /// Whether the tracker has an entry for the bond with mint `bond_mint`.
    pub open spec fn tracks(&self, bond_mint: Address) -> bool {
        first_index(tracked_mints(self.bond_collateral_tracking@), bond_mint).is_some()
    }

    /// No bond is registered twice, and the registry is within its bound.
    pub open spec fn registry_is_sound(&self) -> bool {
        &&& all_distinct(config_mints(self.allowed_bond_configs@))
        &&& self.allowed_bond_configs@.len() <= MAX_ALLOWED_BONDS
    }

    /// This state is `before` with another registry and another tracker, and
    /// nothing else changed.
    pub open spec fn is_listing_change_of(
        &self,
        before: FactoryState,
        configs: Seq<StablebondConfig>,
        tracking: Seq<BondCollateralInfo>,
    ) -> bool {
        &&& self.allowed_bond_configs@ == configs
        &&& self.bond_collateral_tracking@ == tracking
        &&& *self == (FactoryState {
            allowed_bond_configs: self.allowed_bond_configs,
            bond_collateral_tracking: self.bond_collateral_tracking,
            ..before
        })
    }

    /// This state is `before` with another tracker, and nothing else changed.
    pub open spec fn is_tracking_change_of(
        &self,
        before: FactoryState,
        tracking: Seq<BondCollateralInfo>,
    ) -> bool {
        &&& self.bond_collateral_tracking@ == tracking
        &&& *self == (FactoryState {
            bond_collateral_tracking: self.bond_collateral_tracking,
            ..before
        })
    }

    /// What counting one more stablecoin against a bond does to the tracker.
    pub open spec fn stablecoin_counted(&self, bond_mint: Address) -> Result<
        Seq<BondCollateralInfo>,
        StablecoinError,
    > {
        let tracking = self.bond_collateral_tracking@;
        match first_index(tracked_mints(tracking), bond_mint) {
            None => Err(StablecoinError::BondNotFound),
            Some(i) => if tracking[i].num_stablecoins == u32::MAX {
                Err(StablecoinError::MathOverflow)
            } else {
                Ok(
                    tracking.update(
                        i,
                        BondCollateralInfo {
                            num_stablecoins: (tracking[i].num_stablecoins + 1) as u32,
                            ..tracking[i]
                        },
                    ),
                )
            },
        }
    }

    /// This state is `before` with another registry, and nothing else changed.
    pub open spec fn is_registry_change_of(
        &self,
        before: FactoryState,
        configs: Seq<StablebondConfig>,
    ) -> bool {
        &&& self.allowed_bond_configs@ == configs
        &&& *self == (FactoryState { allowed_bond_configs: self.allowed_bond_configs, ..before })
    }

    /// What adding a distributor does to the list of distributors.
    pub open spec fn collector_added(&self, collector: Address) -> Result<
        Seq<Address>,
        StablecoinError,
    > {
        if self.authorizes(collector) {
            Err(StablecoinError::CollectorAlreadyExists)
        } else if self.authorized_collectors@.len() >= MAX_ALLOWED_COLLECTORS {
            Err(StablecoinError::MaxCollectorsReached)
        } else {
            Ok(self.authorized_collectors@.push(collector))
        }
    }

    /// What a deposit or a withdrawal of `amount` does to the collateral
    /// tracker: the first entry of the bond grows or shrinks by the amount.
    /// A bond without an entry is not found, a deposit must fit the entry and
    /// a withdrawal must not take more than the entry holds.
    pub open spec fn collateral_updated(&self, bond_mint: Address, amount: u64, is_deposit: bool) -> Result<
        Seq<BondCollateralInfo>,
        StablecoinError,
    > {
        let tracking = self.bond_collateral_tracking@;
        match first_index(tracked_mints(tracking), bond_mint) {
            None => Err(StablecoinError::BondNotFound),
            Some(i) => if is_deposit {
                if tracking[i].total_collateral + amount > u64::MAX {
                    Err(StablecoinError::MathOverflow)
                } else {
                    Ok(
                        tracking.update(
                            i,
                            BondCollateralInfo {
                                total_collateral: (tracking[i].total_collateral + amount) as u64,
                                ..tracking[i]
                            },
                        ),
                    )
                }
            } else {
                if tracking[i].total_collateral < amount {
                    Err(StablecoinError::InsufficientCollateral)
                } else {
                    Ok(
                        tracking.update(
                            i,
                            BondCollateralInfo {
                                total_collateral: (tracking[i].total_collateral - amount) as u64,
                                ..tracking[i]
                            },
                        ),
                    )
                }
            },
        }
    }

    /// What registering a bond does to the registry.
    pub open spec fn bond_added(
        &self,
        bond_mint: Address,
        payment_mint: Address,
        min_creation_amount: u64,
        min_redemption_amount: u64,
    ) -> Result<Seq<StablebondConfig>, StablecoinError> {
        if self.allowed_bond_configs@.len() >= MAX_ALLOWED_BONDS {
            Err(StablecoinError::TooManyBonds)
        } else if self.bond_config(bond_mint).is_some() {
            Err(StablecoinError::BondAlreadyExists)
        } else {
            Ok(
                self.allowed_bond_configs@.push(
                    StablebondConfig {
                        bond_mint,
                        payment_mint,
                        admin: self.admin,
                        min_creation_amount,
                        min_redemption_amount,
                        is_enabled: true,
                        custom_fee_rate: None,
                    },
                ),
            )
        }
    }

    /// What updating the parameters of a bond does to the registry.
    pub open spec fn bond_updated(&self, bond_mint: Address, updates: BondConfigUpdate) -> Result<
        Seq<StablebondConfig>,
        StablecoinError,
    > {
        let configs = self.allowed_bond_configs@;
        match first_index(config_mints(configs), bond_mint) {
            None => Err(StablecoinError::BondNotFound),
            Some(i) => if asks_excessive_fee(updates) {
                Err(StablecoinError::InvalidFeeRate)
            } else {
                Ok(configs.update(i, updated_config(configs[i], updates)))
            },
        }
    }

    /// What removing a bond does to the registry. A bond with collateral in
    /// use stays.
    pub open spec fn bond_removed(&self, bond_mint: Address) -> Result<
        Seq<StablebondConfig>,
        StablecoinError,
    > {
        let configs = self.allowed_bond_configs@;
        if self.collateral_in_use(bond_mint) > 0 {
            Err(StablecoinError::ActiveCollateralExists)
        } else {
            match first_index(config_mints(configs), bond_mint) {
                None => Err(StablecoinError::BondNotFound),
                Some(i) => Ok(configs.remove(i)),
            }
        }
    }

    /// Whether the bond with mint `bond_mint` is registered and enabled, given
    /// the address to expect its record at and whether that record decodes.
    pub open spec fn bond_support(
        &self,
        bond_mint: Address,
        bond_account: Address,
        expected_account: Seq<u8>,
        record_decodes: bool,
    ) -> Result<bool, InstructionError> {
        match self.bond_config(bond_mint) {
            None => Ok(false),
            Some(config) => if !config.is_enabled {
                Ok(false)
            } else if bond_account@ != expected_account {
                Err(InstructionError::Rule(StablecoinError::InvalidBondAccount))
            } else if !record_decodes {
                Err(InstructionError::AccountData)
            } else {
                Ok(true)
            },
        }
    }

    /// Whether the bond with mint `bond_mint` is registered and enabled.
    pub open spec fn bond_listing(&self, bond_mint: Address) -> Result<(), StablecoinError> {
        match self.bond_config(bond_mint) {
            None => Err(StablecoinError::UnsupportedBond),
            Some(config) => if !config.is_enabled {
                Err(StablecoinError::BondDisabled)
            } else {
                Ok(())
            },
        }
    }

    /// Whether the bond with mint `bond_mint` can be used: it is registered
    /// and enabled, its record decodes, the payment feed account is the one of
    /// the record's kind of feed, and the payment feed decodes.
    pub open spec fn bond_validation(
        &self,
        bond_mint: Address,
        bond_data: Seq<u8>,
        payment_feed_account: Address,
        payment_feed_data: Seq<u8>,
    ) -> Result<(), InstructionError> {
        match self.bond_listing(bond_mint) {
            Err(e) => Err(InstructionError::Rule(e)),
            Ok(_) => match feed_type_read(decoded_bond(bond_data)) {
                Err(e) => Err(e),
                Ok(feed_type) => if payment_feed_account@ != payment_feed_pda(
                    feed_type.index_of(),
                ) {
                    Err(InstructionError::Rule(StablecoinError::InvalidPaymentFeed))
                } else if decoded_payment_mint(payment_feed_data).is_none() {
                    Err(InstructionError::AccountData)
                } else {
                    Ok(())
                },
            },
        }
    }

    /// Whether `collector` may distribute yield.
    pub fn is_authorized_collector(&self, collector: Address) -> (r: bool)
        ensures
            r == self.authorizes(collector),
    {
        find_address(&self.authorized_collectors, &collector).is_some()
    }

    /// Authorizes `collector` to distribute yield, unless it already is or the
    /// list is full.
    pub fn add_collector(&mut self, collector: Address) -> (r: Result<(), StablecoinError>)
        ensures
            match old(self).collector_added(collector) {
                Err(e) => r == Err::<(), StablecoinError>(e) && *final(self) == *old(self),
                Ok(collectors) => {
                    &&& r.is_ok()
                    &&& final(self).authorized_collectors@ == collectors
                    &&& *final(self) == (FactoryState {
                        authorized_collectors: final(self).authorized_collectors,
                        ..*old(self)
                    })
                },
            },
            r.is_ok() ==> final(self).authorizes(collector),
    {
        if self.is_authorized_collector(collector) {
            return Err(StablecoinError::CollectorAlreadyExists);
        }
        if self.authorized_collectors.len() >= MAX_ALLOWED_COLLECTORS {
            return Err(StablecoinError::MaxCollectorsReached);
        }
        self.authorized_collectors.push(collector);
        proof {
            let after = self.authorized_collectors@;
            lemma_first_index(after, collector);
            assert(after[after.len() - 1] == collector);
        }
        Ok(())
    }

    /// The position of the tracker entry of the bond with mint `bond_mint`.
    pub fn find_tracking(&self, bond_mint: &Address) -> (r: Option<usize>)
        ensures
            r.is_some() == first_index(
                tracked_mints(self.bond_collateral_tracking@),
                *bond_mint,
            ).is_some(),
            r matches Some(i) ==> i < self.bond_collateral_tracking@.len() && first_index(
                tracked_mints(self.bond_collateral_tracking@),
                *bond_mint,
            ) == Some(i as int),
    {
        let mut i: usize = 0;
        while i < self.bond_collateral_tracking.len()
            invariant
                0 <= i <= self.bond_collateral_tracking.len(),
                forall|j: int| 0 <= j < i ==>
                    self.bond_collateral_tracking@[j].bond_mint != *bond_mint,
            decreases self.bond_collateral_tracking.len() - i,
        {
            if self.bond_collateral_tracking[i].bond_mint == *bond_mint {
                proof {
                    lemma_first_index_found(
                        tracked_mints(self.bond_collateral_tracking@),
                        *bond_mint,
                        i as int,
                    );
                }
                return Some(i);
            }
            i += 1;
        }
        proof {
            lemma_first_index_absent(tracked_mints(self.bond_collateral_tracking@), *bond_mint);
        }
        None
    }

    /// The position of the registry entry of the bond with mint `bond_mint`.
    pub fn find_bond_config(&self, bond_mint: &Address) -> (r: Option<usize>)
        ensures
            r.is_some() == self.bond_config(*bond_mint).is_some(),
            r matches Some(i) ==> i < self.allowed_bond_configs@.len() && first_index(
                config_mints(self.allowed_bond_configs@),
                *bond_mint,
            ) == Some(i as int),
    {
        let mut i: usize = 0;
        while i < self.allowed_bond_configs.len()
            invariant
                0 <= i <= self.allowed_bond_configs.len(),
                forall|j: int| 0 <= j < i ==> self.allowed_bond_configs@[j].bond_mint != *bond_mint,
            decreases self.allowed_bond_configs.len() - i,
        {
            if self.allowed_bond_configs[i].bond_mint == *bond_mint {
                proof {
                    lemma_first_index_found(
                        config_mints(self.allowed_bond_configs@),
                        *bond_mint,
                        i as int,
                    );
                }
                return Some(i);
            }
            i += 1;
        }
        proof {
            lemma_first_index_absent(config_mints(self.allowed_bond_configs@), *bond_mint);
        }
        None
    }

    /// Whether collateral of the bond with mint `bond_mint` is in use: whether
    /// any entry of the tracker for that bond holds collateral.
    pub fn has_active_collateral(&self, bond_mint: &Address) -> (r: Result<bool, StablecoinError>)
        ensures
            r == Ok::<bool, StablecoinError>(self.collateral_in_use(*bond_mint) > 0),
    {
        let mut active: bool = false;
        let mut i: usize = 0;
        while i < self.bond_collateral_tracking.len()
            invariant
                0 <= i <= self.bond_collateral_tracking.len(),
                active == (tracked_collateral(
                    self.bond_collateral_tracking@.take(i as int),
                    *bond_mint,
                ) > 0),
            decreases self.bond_collateral_tracking.len() - i,
        {
            proof {
                let seen = self.bond_collateral_tracking@.take(i as int);
                let next = self.bond_collateral_tracking@.take(i + 1);
                assert(next.drop_last() =~= seen);
                assert(next.last() == self.bond_collateral_tracking@[i as int]);
                lemma_tracked_bounds_entries(seen, *bond_mint);
            }
            if self.bond_collateral_tracking[i].bond_mint == *bond_mint
                && self.bond_collateral_tracking[i].total_collateral > 0 {
                active = true;
            }
            i += 1;
        }
        proof {
            assert(self.bond_collateral_tracking@.take(i as int) =~= self.bond_collateral_tracking@);
        }
        Ok(active)
    }

    /// Counts one more stablecoin against the bond with mint `bond_mint`.
    pub fn count_stablecoin(&mut self, bond_mint: &Address) -> (r: Result<(), StablecoinError>)
        ensures
            match old(self).stablecoin_counted(*bond_mint) {
                Err(e) => r == Err::<(), StablecoinError>(e) && *final(self) == *old(self),
                Ok(tracking) => r.is_ok() && final(self).is_tracking_change_of(*old(self), tracking),
            },
            final(self).collateral_in_use(*bond_mint) == old(self).collateral_in_use(*bond_mint),
            old(self).tracker_follows_registry() ==> final(self).tracker_follows_registry(),
    {
        let i: usize = match self.find_tracking(bond_mint) {
            Some(i) => i,
            None => { return Err(StablecoinError::BondNotFound); },
        };
        let current: BondCollateralInfo = self.bond_collateral_tracking[i];
        let count: u32 = match current.num_stablecoins.checked_add(1) {
            Some(v) => v,
            None => { return Err(StablecoinError::MathOverflow); },
        };
        let entry = BondCollateralInfo {
            bond_mint: current.bond_mint,
            total_collateral: current.total_collateral,
            num_stablecoins: count,
        };
        self.bond_collateral_tracking[i] = entry;
        proof {
            let before = old(self).bond_collateral_tracking@;
            lemma_tracked_after_update(before, i as int, entry, *bond_mint);
            assert(tracked_mints(self.bond_collateral_tracking@) =~= tracked_mints(before));
        }
        Ok(())
    }

    /// Adds `amount` to the collateral tracked for a bond on a deposit, and
    /// takes it away on a withdrawal.
    pub fn update_bond_collateral(&mut self, bond_mint: &Address, amount: u64, is_deposit: bool) -> (r:
        Result<(), StablecoinError>)
        ensures
            match old(self).collateral_updated(*bond_mint, amount, is_deposit) {
                Err(e) => r == Err::<(), StablecoinError>(e) && *final(self) == *old(self),
                Ok(tracking) => {
                    &&& r.is_ok()
                    &&& final(self).bond_collateral_tracking@ == tracking
                    &&& *final(self) == (FactoryState {
                        bond_collateral_tracking: final(self).bond_collateral_tracking,
                        ..*old(self)
                    })
                },
            },
            r.is_ok() ==> final(self).collateral_in_use(*bond_mint) == old(self).collateral_in_use(
                *bond_mint,
            ) + (if is_deposit {
                amount as int
            } else {
                -(amount as int)
            }),
            forall|other: Address|
                other != *bond_mint ==> final(self).collateral_in_use(other) == old(
                    self,
                ).collateral_in_use(other),
            old(self).tracker_follows_registry() ==> final(self).tracker_follows_registry(),
            old(self).registry_is_sound() ==> final(self).registry_is_sound(),
    {
        let i: usize = match self.find_tracking(bond_mint) {
            Some(i) => i,
            None => { return Err(StablecoinError::BondNotFound); },
        };
        let current: BondCollateralInfo = self.bond_collateral_tracking[i];
        let total: u64 = if is_deposit {
            match current.total_collateral.checked_add(amount) {
                Some(v) => v,
                None => { return Err(StablecoinError::MathOverflow); },
            }
        } else {
            match current.total_collateral.checked_sub(amount) {
                Some(v) => v,
                None => { return Err(StablecoinError::InsufficientCollateral); },
            }
        };
        let entry = BondCollateralInfo {
            bond_mint: current.bond_mint,
            total_collateral: total,
            num_stablecoins: current.num_stablecoins,
        };
        self.bond_collateral_tracking[i] = entry;
        proof {
            let before = old(self).bond_collateral_tracking@;
            assert(tracked_mints(self.bond_collateral_tracking@) =~= tracked_mints(before));
            lemma_first_index(tracked_mints(before), *bond_mint);
            lemma_tracked_after_update(before, i as int, entry, *bond_mint);
            assert forall|other: Address| other != *bond_mint implies self.collateral_in_use(other)
                == old(self).collateral_in_use(other) by {
                lemma_tracked_after_update(before, i as int, entry, other);
            }
        }
        Ok(())
    }

    /// Registers a bond, enabled and without a fee rate of its own.
    pub fn add_supported_bond(
        &mut self,
        bond_mint: Address,
        payment_mint: Address,
        min_creation_amount: u64,
        min_redemption_amount: u64,
    ) -> (r: Result<(), StablecoinError>)
        ensures
            match old(self).bond_added(
                bond_mint,
                payment_mint,
                min_creation_amount,
                min_redemption_amount,
            ) {
                Err(e) => r == Err::<(), StablecoinError>(e) && *final(self) == *old(self),
                Ok(configs) => r.is_ok() && final(self).is_listing_change_of(
                    *old(self),
                    configs,
                    tracking_with(old(self).bond_collateral_tracking@, bond_mint),
                ),
            },
            old(self).registry_is_sound() ==> final(self).registry_is_sound(),
            old(self).tracker_follows_registry() ==> final(self).tracker_follows_registry(),
            r.is_ok() ==> final(self).bond_config(bond_mint).is_some() && final(self).tracks(
                bond_mint,
            ),
            forall|any: Address|
                final(self).collateral_in_use(any) == old(self).collateral_in_use(any),
            old(self).allowed_bond_configs@.len() >= MAX_ALLOWED_BONDS ==> r == Err::<
                (),
                StablecoinError,
            >(StablecoinError::TooManyBonds),
    {
        if self.allowed_bond_configs.len() >= MAX_ALLOWED_BONDS {
            return Err(StablecoinError::TooManyBonds);
        }
        if self.find_bond_config(&bond_mint).is_some() {
            return Err(StablecoinError::BondAlreadyExists);
        }
        let config = StablebondConfig {
            bond_mint,
            payment_mint,
            admin: self.admin,
            min_creation_amount,
            min_redemption_amount,
            is_enabled: true,
            custom_fee_rate: None,
        };
        self.allowed_bond_configs.push(config);
        let entry = BondCollateralInfo { bond_mint, total_collateral: 0, num_stablecoins: 0 };
        let listed = self.find_tracking(&bond_mint);
        if listed.is_none() {
            self.bond_collateral_tracking.push(entry);
        }
        proof {
            let before = config_mints(old(self).allowed_bond_configs@);
            let after = config_mints(self.allowed_bond_configs@);
            lemma_first_index(before, bond_mint);
            assert(after =~= before.push(bond_mint));
            assert(after[after.len() - 1] == bond_mint);
            lemma_first_index(after, bond_mint);
            let tracked_before = old(self).bond_collateral_tracking@;
            let tracked_after = self.bond_collateral_tracking@;
            if listed.is_none() {
                assert(tracked_mints(tracked_after) =~= tracked_mints(tracked_before).push(
                    bond_mint,
                ));
                assert(tracked_mints(tracked_after)[tracked_after.len() - 1] == bond_mint);
                lemma_first_index(tracked_mints(tracked_after), bond_mint);
                assert forall|any: Address|
                    self.collateral_in_use(any) == old(self).collateral_in_use(any) by {
                    lemma_tracked_after_push(tracked_before, entry, any);
                }
            }
        }
        Ok(())
    }

    /// Changes the enabled flag and the fee rate of a registered bond as
    /// `updates` says, and returns the parameters the bond is left with.
    pub fn update_bond(&mut self, bond_mint: &Address, updates: BondConfigUpdate) -> (r: Result<
        StablebondConfig,
        StablecoinError,
    >)
        ensures
            match old(self).bond_updated(*bond_mint, updates) {
                Err(e) => r == Err::<StablebondConfig, StablecoinError>(e) && *final(self) == *old(
                    self,
                ),
                Ok(configs) => {
                    &&& r.is_ok()
                    &&& final(self).is_registry_change_of(*old(self), configs)
                    &&& Some(r.unwrap()) == final(self).bond_config(*bond_mint)
                    &&& r.unwrap() == updated_config(
                        old(self).bond_config(*bond_mint).unwrap(),
                        updates,
                    )
                },
            },
            old(self).registry_is_sound() ==> final(self).registry_is_sound(),
            old(self).tracker_follows_registry() ==> final(self).tracker_follows_registry(),
    {
        let i: usize = match self.find_bond_config(bond_mint) {
            Some(i) => i,
            None => { return Err(StablecoinError::BondNotFound); },
        };
        let current: StablebondConfig = self.allowed_bond_configs[i];
        let custom_fee_rate: Option<u16> = match updates.custom_fee_rate {
            FeeRateUpdate::Keep => current.custom_fee_rate,
            FeeRateUpdate::Clear => None,
            FeeRateUpdate::Replace(rate) => {
                if rate > MAX_FEE_RATE_BPS {
                    return Err(StablecoinError::InvalidFeeRate);
                }
                Some(rate)
            },
        };
        let is_enabled: bool = match updates.is_enabled {
            Some(flag) => flag,
            None => current.is_enabled,
        };
        let config = StablebondConfig {
            bond_mint: current.bond_mint,
            payment_mint: current.payment_mint,
            admin: current.admin,
            min_creation_amount: current.min_creation_amount,
            min_redemption_amount: current.min_redemption_amount,
            is_enabled,
            custom_fee_rate,
        };
        self.allowed_bond_configs[i] = config;
        proof {
            let before = config_mints(old(self).allowed_bond_configs@);
            let after = config_mints(self.allowed_bond_configs@);
            assert(after =~= before);
        }
        Ok(config)
    }

    /// Takes a bond out of the registry, unless collateral of it is in use.
    pub fn remove_supported_bond(&mut self, bond_mint: &Address) -> (r: Result<(), StablecoinError>)
        ensures
            match old(self).bond_removed(*bond_mint) {
                Err(e) => r == Err::<(), StablecoinError>(e) && *final(self) == *old(self),
                Ok(configs) => r.is_ok() && final(self).is_listing_change_of(
                    *old(self),
                    configs,
                    tracking_without(old(self).bond_collateral_tracking@, *bond_mint),
                ),
            },
            old(self).registry_is_sound() ==> final(self).registry_is_sound(),
            old(self).tracker_follows_registry() ==> final(self).tracker_follows_registry(),
            r.is_ok() && old(self).registry_is_sound() ==> final(self).bond_config(
                *bond_mint,
            ).is_none(),
            forall|any: Address|
                final(self).collateral_in_use(any) == old(self).collateral_in_use(any),
            forall|i: int|
                0 <= i < old(self).bond_collateral_tracking@.len() && old(
                    self,
                ).bond_collateral_tracking@[i].bond_mint == *bond_mint && old(
                    self,
                ).bond_collateral_tracking@[i].total_collateral > 0 ==> r == Err::<
                    (),
                    StablecoinError,
                >(StablecoinError::ActiveCollateralExists),
            old(self).collateral_in_use(*bond_mint) > 0 ==> r == Err::<(), StablecoinError>(
                StablecoinError::ActiveCollateralExists,
            ),
    {
        proof {
            lemma_tracked_bounds_entries(self.bond_collateral_tracking@, *bond_mint);
        }
        match self.has_active_collateral(bond_mint) {
            Ok(active) => {
                if active {
                    return Err(StablecoinError::ActiveCollateralExists);
                }
            },
            Err(e) => { return Err(e); },
        }
        let i: usize = match self.find_bond_config(bond_mint) {
            Some(i) => i,
            None => { return Err(StablecoinError::BondNotFound); },
        };
        self.allowed_bond_configs.remove(i);
        let listed = self.find_tracking(bond_mint);
        if let Some(j) = listed {
            self.bond_collateral_tracking.remove(j);
        }
        proof {
            let tracked_before = old(self).bond_collateral_tracking@;
            let tracked_after = self.bond_collateral_tracking@;
            lemma_tracked_bounds_entries(tracked_before, *bond_mint);
            if let Some(j) = listed {
                assert(tracked_mints(tracked_after) =~= tracked_mints(tracked_before).remove(
                    j as int,
                ));
                lemma_first_index(tracked_mints(tracked_before), *bond_mint);
                assert forall|any: Address|
                    self.collateral_in_use(any) == old(self).collateral_in_use(any) by {
                    lemma_tracked_after_remove(tracked_before, j as int, any);
                }
            }
            let before = config_mints(old(self).allowed_bond_configs@);
            let after = config_mints(self.allowed_bond_configs@);
            assert(after =~= before.remove(i as int));
            if all_distinct(before) {
                lemma_first_index(before, *bond_mint);
                assert forall|j: int| 0 <= j < after.len() implies after[j] != *bond_mint by {
                    if j < i {
                        assert(after[j] == before[j]);
                    } else {
                        assert(after[j] == before[j + 1]);
                    }
                }
                lemma_first_index_absent(after, *bond_mint);
            }
        }
        Ok(())
    }

    /// The registry entry of the bond with mint `bond_mint`.
    pub fn get_bond_config(&self, bond_mint: &Address) -> (r: Option<&StablebondConfig>)
        ensures
            r.is_some() == self.bond_config(*bond_mint).is_some(),
            r matches Some(config) ==> self.bond_config(*bond_mint) == Some(*config),
    {
        match self.find_bond_config(bond_mint) {
            Some(i) => Some(&self.allowed_bond_configs[i]),
            None => None,
        }
    }

    /// The fee rate that applies to the bond with mint `bond_mint`, in basis
    /// points.
    pub fn get_fee_rate(&self, bond_mint: &Address) -> (r: Result<u16, StablecoinError>)
        ensures
            r == self.fee_rate_of(*bond_mint),
    {
        match self.get_bond_config(bond_mint) {
            Some(config) => match config.custom_fee_rate {
                Some(rate) => Ok(rate),
                None => Ok(self.base_fee_rate),
            },
            None => Err(StablecoinError::BondNotFound),
        }
    }

    /// Whether the bond with mint `bond_mint` is registered and enabled, given
    /// the address at which its record is expected and what was decoded from
    /// the account handed in.
    pub fn is_bond_supported_with(
        &self,
        bond_mint: &Address,
        bond_account: &Address,
        expected_account: &Address,
        record_decodes: bool,
    ) -> (r: Result<bool, InstructionError>)
        ensures
            r == self.bond_support(*bond_mint, *bond_account, expected_account@, record_decodes),
    {
        match self.get_bond_config(bond_mint) {
            None => Ok(false),
            Some(config) => {
                if !config.is_enabled {
                    return Ok(false);
                }
                proof {
                    Address::lemma_view_injective(*bond_account, *expected_account);
                }
                if *bond_account != *expected_account {
                    return Err(InstructionError::Rule(StablecoinError::InvalidBondAccount));
                }
                if !record_decodes {
                    return Err(InstructionError::AccountData);
                }
                Ok(true)
            },
        }
    }

    /// Whether the bond with mint `bond_mint` is registered and enabled, and
    /// `bond_info` is the account in which the bond program keeps its record.
    pub fn is_bond_supported(&self, bond_mint: &Address, bond_info: &AccountSnapshot) -> (r: Result<
        bool,
        InstructionError,
    >)
        ensures
            r == self.bond_support(
                *bond_mint,
                bond_info.key,
                bond_pda(bond_mint@),
                decoded_bond(bond_info.data@).is_some(),
            ),
    {
        let expected = bond_address(bond_mint);
        let record = decode_bond(&bond_info.data);
        self.is_bond_supported_with(bond_mint, &bond_info.key, &expected, record.is_some())
    }

    /// Whether the bond with mint `bond_mint` is registered and enabled.
    pub fn check_bond_listed(&self, bond_mint: &Address) -> (r: Result<(), StablecoinError>)
        ensures
            r == self.bond_listing(*bond_mint),
    {
        match self.get_bond_config(bond_mint) {
            None => Err(StablecoinError::UnsupportedBond),
            Some(config) => {
                if !config.is_enabled {
                    return Err(StablecoinError::BondDisabled);
                }
                Ok(())
            },
        }
    }

    /// Whether the bond with mint `bond_mint` can be used with the two
    /// accounts handed in: the bond's record and its payment feed.
    pub fn validate_bond(
        &self,
        bond_mint: &Address,
        bond_info: &AccountSnapshot,
        payment_feed_info: &AccountSnapshot,
    ) -> (r: Result<(), InstructionError>)
        ensures
            r == self.bond_validation(
                *bond_mint,
                bond_info.data@,
                payment_feed_info.key,
                payment_feed_info.data@,
            ),
    {
        match self.check_bond_listed(bond_mint) {
            Err(e) => { return Err(InstructionError::Rule(e)); },
            Ok(_) => {},
        }
        let bond = decode_bond(&bond_info.data);
        let feed_type = match interpret_bond(&bond) {
            Err(e) => { return Err(e); },
            Ok(feed_type) => feed_type,
        };
        let expected = payment_feed_address(feed_type);
        let payment_mint = decode_payment_feed(&payment_feed_info.data);
        check_payment_feed(&payment_feed_info.key, &expected, payment_mint.is_some())
    }
}

/// Whether the payment feed account handed in is the expected one and holds
/// a payment feed.
pub open spec fn payment_feed_check(
    payment_feed_account: Address,
    expected_account: Seq<u8>,
    record_decodes: bool,
) -> Result<(), InstructionError> {
    if payment_feed_account@ != expected_account {
        Err(InstructionError::Rule(StablecoinError::InvalidPaymentFeed))
    } else if !record_decodes {
        Err(InstructionError::AccountData)
    } else {
        Ok(())
    }
}

/// Accepts a payment feed account that is the expected one and whose record
/// decodes.
pub fn check_payment_feed(
    payment_feed_account: &Address,
    expected_account: &Address,
    record_decodes: bool,
) -> (r: Result<(), InstructionError>)
    ensures
        r == payment_feed_check(*payment_feed_account, expected_account@, record_decodes),
{
    proof {
        Address::lemma_view_injective(*payment_feed_account, *expected_account);
    }
    if *payment_feed_account != *expected_account {
        return Err(InstructionError::Rule(StablecoinError::InvalidPaymentFeed));
    }
    if !record_decodes {
        return Err(InstructionError::AccountData);
    }
    Ok(())
}

} // verus!
