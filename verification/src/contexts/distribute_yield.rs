//! Rebase: an authorized distributor pays a depositor the yield that the
//! depositor's supply has earned since the stablecoin was last rebased.
//!
//! The interval is shared by all depositors of a stablecoin: the first
//! distribution of an interval is paid and restarts the interval for every
//! depositor.

use vstd::prelude::*;
use crate::accounts::AccountSnapshot;
use crate::accounts::OracleRound;
use crate::accounts::TokenAccount;
use crate::address::Address;
use crate::constants::PRICE_SCALE;
use crate::constants::RATE_FRESHNESS_THRESHOLD;
use crate::constants::RATE_UPDATE_INTERVAL;
use crate::constants::REBASE_INTERVAL;
use crate::constants::USDC_MINT;
use crate::conversion::magnitude;
use crate::conversion::unsigned_magnitude;
use crate::errors::InstructionError;
use crate::errors::StablecoinError;
use crate::events::YieldDistributed;
use crate::lookup::first_index;
use crate::rebase::reference_price;
use crate::rebase::reference_price_result;
use crate::rebase::split_yield;
use crate::rebase::yield_split;
use crate::stablebond::bond_address;
use crate::stablebond::bond_pda;
use crate::stablebond::feed_type_read;
use crate::stablebond::record_view;
use crate::stablebond::decode_bond;
use crate::stablebond::decoded_bond;
use crate::stablebond::interpret_bond;
use crate::stablebond::BondRecord;
use crate::stablebond::PaymentFeedType;
use crate::states::factory_state::FactoryState;
use crate::states::stablecoin::share_owners;
use crate::states::stablecoin::StablecoinState;
use crate::states::user::UserState;
use crate::timing::has_interval_elapsed;
use crate::timing::interval_elapsed;
use crate::timing::is_within_window;
use crate::timing::seconds_between;
use crate::timing::within_window;

verus! {

/// What a distribution of yield works on.
#[derive(Clone, Debug, PartialEq, Eq)]
pub struct DistributeYield {
    /// Who distributes, and signs.
    pub distributor: Address,
    pub factory_state: FactoryState,
    pub stablecoin_state: StablecoinState,
    /// The address of the record of the stablecoin.
    pub stablecoin: Address,
    /// The record of the depositor who is paid.
    pub user_state: UserState,
    /// The latest round of the oracle that quotes the bond.
    pub oracle: OracleRound,
    /// The account said to hold the record of the bond.
    pub bond_info: AccountSnapshot,
    pub bond_mint: Address,
    /// Where the protocol's fee goes.
    pub usdc_fee_vault: TokenAccount,
    /// The mint in which yield is paid.
    pub yield_mint: Address,
    /// Where the depositor's yield goes.
    pub user_yield_account: TokenAccount,
    /// The current time.
    pub unix_timestamp: i64,
}

impl DistributeYield {
    /// Whether the accounts fit together: neither the factory nor the
    /// stablecoin is paused, the distributor is authorized, and yield is paid
    /// in the expected mint.
    pub open spec fn account_check(&self) -> Result<(), StablecoinError> {
        if self.factory_state.is_paused {
            Err(StablecoinError::FactoryPaused)
        } else if !self.factory_state.authorizes(self.distributor) {
            Err(StablecoinError::Unauthorized)
        } else if self.stablecoin_state.is_paused {
            Err(StablecoinError::StablecoinPaused)
        } else if self.yield_mint.bytes != USDC_MINT {
            Err(StablecoinError::InvalidUSDCMint)
        } else {
            Ok(())
        }
    }

    /// Whether a distribution is admitted, given the address at which the bond
    /// program keeps the record of the bond and what the bond account decodes
    /// to.
    pub open spec fn validation(&self, bond_account: Seq<u8>, bond: Option<(Seq<u8>, u8)>) -> Result<
        (),
        InstructionError,
    > {
        if self.bond_info.key@ != bond_account {
            Err(InstructionError::Rule(StablecoinError::InvalidBondAccount))
        } else {
            match bond {
                None => Err(InstructionError::AccountData),
                Some((mint, _)) => if mint != self.bond_mint@ {
                    Err(InstructionError::Rule(StablecoinError::BondMintMismatch))
                } else if !interval_elapsed(
                    self.unix_timestamp,
                    self.stablecoin_state.last_rebase,
                    REBASE_INTERVAL,
                ) {
                    Err(InstructionError::Rule(StablecoinError::RebaseTooEarly))
                } else if !self.stablecoin_state.holds_position(self.user_state.user) {
                    Err(InstructionError::Rule(StablecoinError::NoUserPosition))
                } else if !within_window(
                    self.unix_timestamp,
                    self.stablecoin_state.last_rate_update,
                    RATE_UPDATE_INTERVAL,
                ) {
                    Err(InstructionError::Rule(StablecoinError::StaleError))
                } else {
                    Ok(())
                },
            }
        }
    }

    /// The rate that converts the price of a bond quoted by a feed of kind
    /// `feed_type`: one for a feed that quotes the dollar, else the magnitude
    /// of the oracle's mantissa. The round of the oracle must be fresh.
    pub open spec fn conversion_rate(&self, feed_type: PaymentFeedType) -> Result<
        u128,
        StablecoinError,
    > {
        if !within_window(
            self.unix_timestamp,
            self.oracle.round_open_timestamp,
            RATE_FRESHNESS_THRESHOLD,
        ) {
            Err(StablecoinError::StaleError)
        } else if feed_type.quotes_usd() {
            Ok(PRICE_SCALE)
        } else {
            Ok(magnitude(self.oracle.mantissa as int) as u128)
        }
    }

    /// The protocol's fee and the depositor's yield at the reference price
    /// `current_price`, over the time since the last rebase. A current time
    /// before the last rebase is no valid time, and a depositor without an
    /// entry in the ledger has no position to earn on.
    pub open spec fn yield_from_price(&self, current_price: u128) -> Result<
        (u64, u64),
        StablecoinError,
    > {
        if self.unix_timestamp < self.stablecoin_state.last_rebase {
            Err(StablecoinError::InvalidTimestamp)
        } else {
            match first_index(
                share_owners(self.stablecoin_state.user_shares@),
                self.user_state.user,
            ) {
                None => Err(StablecoinError::NoUserPosition),
                Some(i) => yield_split(
                    self.stablecoin_state.user_shares@[i].mint_amount,
                    current_price,
                    (self.unix_timestamp - self.stablecoin_state.last_rebase) as u128,
                ),
            }
        }
    }

    /// The protocol's fee and the depositor's yield, given what the bond
    /// account decodes to.
    pub open spec fn rebase_yield(&self, bond: Option<(Seq<u8>, u8)>) -> Result<
        (u64, u64),
        InstructionError,
    > {
        match feed_type_read(bond) {
            Err(e) => Err(e),
            Ok(feed_type) => match self.conversion_rate(feed_type) {
                Err(e) => Err(InstructionError::Rule(e)),
                Ok(rate) => match reference_price_result(
                    magnitude(self.oracle.mantissa as int) as u128,
                    rate,
                ) {
                    Err(e) => Err(InstructionError::Rule(e)),
                    Ok(current_price) => match self.yield_from_price(current_price) {
                        Err(e) => Err(InstructionError::Rule(e)),
                        Ok(parts) => Ok(parts),
                    },
                },
            },
        }
    }

    /// What a distribution comes to: the event that says what to pay, or the
    /// first reason to refuse it.
    pub open spec fn distribution(&self, bond_account: Seq<u8>, bond: Option<(Seq<u8>, u8)>) -> Result<
        YieldDistributed,
        InstructionError,
    > {
        match self.validation(bond_account, bond) {
            Err(e) => Err(e),
            Ok(_) => match self.rebase_yield(bond) {
                Err(e) => Err(e),
                Ok((protocol_fee, user_yield)) => if user_yield > 0
                    && self.user_state.total_yield_collected + user_yield > u64::MAX {
                    Err(InstructionError::Rule(StablecoinError::MathOverflow))
                } else if self.stablecoin_state.total_rebase_amount + protocol_fee + user_yield
                    > u64::MAX {
                    Err(InstructionError::Rule(StablecoinError::MathOverflow))
                } else {
                    Ok(
                        YieldDistributed {
                            user: self.user_state.user,
                            stablecoin: self.stablecoin,
                            protocol_fee,
                            user_yield,
                            timestamp: self.unix_timestamp,
                        },
                    )
                },
            },
        }
    }

    /// These records are `before` after the distribution that `event`
    /// reports: the depositor's collected yield has grown if any was paid, the
    /// stablecoin's interval has restarted and its total has grown, and
    /// nothing else changed.
    pub open spec fn is_distribution_of(&self, before: DistributeYield, event: YieldDistributed) -> bool {
        &&& self.user_state == (if event.user_yield > 0 {
            UserState {
                total_yield_collected: (before.user_state.total_yield_collected
                    + event.user_yield) as u64,
                last_yield_collection: before.unix_timestamp,
                ..before.user_state
            }
        } else {
            before.user_state
        })
        &&& self.stablecoin_state == (StablecoinState {
            last_rebase: before.unix_timestamp,
            total_rebase_amount: (before.stablecoin_state.total_rebase_amount + event.protocol_fee
                + event.user_yield) as u64,
            ..before.stablecoin_state
        })
        &&& *self == (DistributeYield {
            user_state: self.user_state,
            stablecoin_state: self.stablecoin_state,
            ..before
        })
    }

    /// Checks that the accounts fit together.
    pub fn check_accounts(&self) -> (r: Result<(), StablecoinError>)
        ensures
            r == self.account_check(),
    {
        if self.factory_state.is_paused {
            return Err(StablecoinError::FactoryPaused);
        }
        if !self.factory_state.is_authorized_collector(self.distributor) {
            return Err(StablecoinError::Unauthorized);
        }
        if self.stablecoin_state.is_paused {
            return Err(StablecoinError::StablecoinPaused);
        }
        if self.yield_mint != Address::new(USDC_MINT) {
            return Err(StablecoinError::InvalidUSDCMint);
        }
        Ok(())
    }

    /// Admits a distribution, given the address at which the bond program
    /// keeps the record of the bond and what the bond account decodes to.
    pub fn validate_with(&self, bond_account: &Address, bond: &Option<BondRecord>) -> (r: Result<
        (),
        InstructionError,
    >)
        ensures
            r == self.validation(bond_account@, record_view(*bond)),
    {
        proof {
            Address::lemma_view_injective(self.bond_info.key, *bond_account);
            if let Some(record) = *bond {
                Address::lemma_view_injective(record.mint, self.bond_mint);
            }
        }
        if self.bond_info.key != *bond_account {
            return Err(InstructionError::Rule(StablecoinError::InvalidBondAccount));
        }
        let record = match bond {
            Some(record) => record,
            None => { return Err(InstructionError::AccountData); },
        };
        if record.mint != self.bond_mint {
            return Err(InstructionError::Rule(StablecoinError::BondMintMismatch));
        }
        if !has_interval_elapsed(
            self.unix_timestamp,
            self.stablecoin_state.last_rebase,
            REBASE_INTERVAL,
        ) {
            return Err(InstructionError::Rule(StablecoinError::RebaseTooEarly));
        }
        if !self.stablecoin_state.has_position(&self.user_state.user) {
            return Err(InstructionError::Rule(StablecoinError::NoUserPosition));
        }
        if !is_within_window(
            self.unix_timestamp,
            self.stablecoin_state.last_rate_update,
            RATE_UPDATE_INTERVAL,
        ) {
            return Err(InstructionError::Rule(StablecoinError::StaleError));
        }
        Ok(())
    }

    /// Admits a distribution: the bond account is the one of the bond, the
    /// interval since the last rebase has passed, the depositor has a position
    /// and the rate was updated within the last week.
    pub fn validate(&self) -> (r: Result<(), InstructionError>)
        ensures
            r == self.validation(bond_pda(self.bond_mint@), decoded_bond(self.bond_info.data@)),
    {
        let expected = bond_address(&self.bond_mint);
        let bond = decode_bond(&self.bond_info.data);
        self.validate_with(&expected, &bond)
    }

    /// The rate that converts the price of a bond quoted by a feed of kind
    /// `feed_type`.
    pub fn get_conversion_rate(&self, feed_type: PaymentFeedType) -> (r: Result<
        u128,
        StablecoinError,
    >)
        ensures
            r == self.conversion_rate(feed_type),
    {
        if !is_within_window(
            self.unix_timestamp,
            self.oracle.round_open_timestamp,
            RATE_FRESHNESS_THRESHOLD,
        ) {
            return Err(StablecoinError::StaleError);
        }
        if feed_type.is_usd_quoted() {
            Ok(PRICE_SCALE)
        } else {
            Ok(unsigned_magnitude(self.oracle.mantissa))
        }
    }

    /// The protocol's fee and the depositor's yield at the reference price
    /// `current_price`, over the time since the last rebase.
    pub fn calculate_yield_from_price(&self, current_price: u128) -> (r: Result<
        (u64, u64),
        StablecoinError,
    >)
        ensures
            r == self.yield_from_price(current_price),
    {
        let elapsed: i128 = seconds_between(self.unix_timestamp, self.stablecoin_state.last_rebase);
        if elapsed < 0 {
            return Err(StablecoinError::InvalidTimestamp);
        }
        let time_elapsed: u128 = elapsed as u128;
        let i: usize = match self.stablecoin_state.find_share(&self.user_state.user) {
            Some(i) => i,
            None => { return Err(StablecoinError::NoUserPosition); },
        };
        split_yield(self.stablecoin_state.user_shares[i].mint_amount, current_price, time_elapsed)
    }

    /// The protocol's fee and the depositor's yield, given what the bond
    /// account decodes to.
    pub fn calculate_rebase_yield_with(&self, bond: &Option<BondRecord>) -> (r: Result<
        (u64, u64),
        InstructionError,
    >)
        ensures
            r == self.rebase_yield(record_view(*bond)),
    {
        let feed_type = match interpret_bond(bond) {
            Ok(feed_type) => feed_type,
            Err(e) => { return Err(e); },
        };
        let base_price: u128 = unsigned_magnitude(self.oracle.mantissa);
        let rate: u128 = match self.get_conversion_rate(feed_type) {
            Ok(rate) => rate,
            Err(e) => { return Err(InstructionError::Rule(e)); },
        };
        let current_price: u128 = match reference_price(base_price, rate) {
            Ok(price) => price,
            Err(e) => { return Err(InstructionError::Rule(e)); },
        };
        match self.calculate_yield_from_price(current_price) {
            Ok(parts) => Ok(parts),
            Err(e) => Err(InstructionError::Rule(e)),
        }
    }

    /// The protocol's fee and the depositor's yield since the last rebase.
    pub fn calculate_rebase_yield(&self) -> (r: Result<(u64, u64), InstructionError>)
        ensures
            r == self.rebase_yield(decoded_bond(self.bond_info.data@)),
    {
        let bond = decode_bond(&self.bond_info.data);
        self.calculate_rebase_yield_with(&bond)
    }
}

/// The mints that a distribution asks for: of the protocol's fee into the fee
/// vault, and of the depositor's yield into the depositor's account. An amount
/// of zero is not minted.
pub fn mints_requested(event: &YieldDistributed) -> (r: (Option<u64>, Option<u64>))
    ensures
        r.0 == (if event.protocol_fee > 0 {
            Some(event.protocol_fee)
        } else {
            None
        }),
        r.1 == (if event.user_yield > 0 {
            Some(event.user_yield)
        } else {
            None
        }),
{
    let to_protocol = if event.protocol_fee > 0 {
        Some(event.protocol_fee)
    } else {
        None
    };
    let to_depositor = if event.user_yield > 0 {
        Some(event.user_yield)
    } else {
        None
    };
    (to_protocol, to_depositor)
}

/// Distributes the yield of one depositor, given the address at which the
/// bond program keeps the record of the bond and what the bond account decodes
/// to.
///
/// Either the distribution is refused and nothing changes, or the event says
/// what to mint to the protocol and to the depositor, the depositor's
/// collected yield and the stablecoin's total grow, and the interval
/// restarts.
pub fn distribute_yield_with(
    ctx: &mut DistributeYield,
    bond_account: &Address,
    bond: &Option<BondRecord>,
) -> (r: Result<YieldDistributed, InstructionError>)
    ensures
        match old(ctx).distribution(bond_account@, record_view(*bond)) {
            Err(e) => r == Err::<YieldDistributed, InstructionError>(e) && *final(ctx) == *old(ctx),
            Ok(event) => r == Ok::<YieldDistributed, InstructionError>(event)
                && final(ctx).is_distribution_of(*old(ctx), event),
        },
        old(ctx).stablecoin_state.is_balanced() ==> final(ctx).stablecoin_state.is_balanced(),
        old(ctx).stablecoin_state.ledger_is_sound() ==>
            final(ctx).stablecoin_state.ledger_is_sound(),
        old(ctx).factory_state.tracker_follows_registry() ==>
            final(ctx).factory_state.tracker_follows_registry(),
        old(ctx).factory_state.registry_is_sound() ==> final(ctx).factory_state.registry_is_sound(),
{
    match ctx.validate_with(bond_account, bond) {
        Ok(_) => {},
        Err(e) => { return Err(e); },
    }
    let (protocol_fee, user_yield) = match ctx.calculate_rebase_yield_with(bond) {
        Ok(parts) => parts,
        Err(e) => { return Err(e); },
    };
    let collected: u64 = if user_yield > 0 {
        match ctx.user_state.total_yield_collected.checked_add(user_yield) {
            Some(total) => total,
            None => { return Err(InstructionError::Rule(StablecoinError::MathOverflow)); },
        }
    } else {
        ctx.user_state.total_yield_collected
    };
    let distributed: u64 = match protocol_fee.checked_add(user_yield) {
        Some(total) => total,
        None => { return Err(InstructionError::Rule(StablecoinError::MathOverflow)); },
    };
    let rebased: u64 = match ctx.stablecoin_state.total_rebase_amount.checked_add(distributed) {
        Some(total) => total,
        None => { return Err(InstructionError::Rule(StablecoinError::MathOverflow)); },
    };
    if user_yield > 0 {
        ctx.user_state.total_yield_collected = collected;
        ctx.user_state.last_yield_collection = ctx.unix_timestamp;
    }
    ctx.stablecoin_state.last_rebase = ctx.unix_timestamp;
    ctx.stablecoin_state.total_rebase_amount = rebased;
    Ok(
        YieldDistributed {
            user: ctx.user_state.user,
            stablecoin: ctx.stablecoin,
            protocol_fee,
            user_yield,
            timestamp: ctx.unix_timestamp,
        },
    )
}

/// Distributes the yield of one depositor.
pub fn distribute_yield(ctx: &mut DistributeYield) -> (r: Result<YieldDistributed, InstructionError>)
    ensures
        match old(ctx).distribution(
            bond_pda(old(ctx).bond_mint@),
            decoded_bond(old(ctx).bond_info.data@),
        ) {
            Err(e) => r == Err::<YieldDistributed, InstructionError>(e) && *final(ctx) == *old(ctx),
            Ok(event) => r == Ok::<YieldDistributed, InstructionError>(event)
                && final(ctx).is_distribution_of(
                *old(ctx),
                event,
            ),
        },
        old(ctx).stablecoin_state.is_balanced() ==> final(ctx).stablecoin_state.is_balanced(),
        old(ctx).stablecoin_state.ledger_is_sound() ==>
            final(ctx).stablecoin_state.ledger_is_sound(),
        old(ctx).factory_state.tracker_follows_registry() ==>
            final(ctx).factory_state.tracker_follows_registry(),
        old(ctx).factory_state.registry_is_sound() ==> final(ctx).factory_state.registry_is_sound(),
{
    let expected = bond_address(&ctx.bond_mint);
    let bond = decode_bond(&ctx.bond_info.data);
    distribute_yield_with(ctx, &expected, &bond)
}

/// After a distribution at one time, a second one for the same stablecoin is
/// refused as too early at every time less than the rebase interval later,
/// whoever the depositor; from the interval on, it is no longer refused for
/// that reason, and is admitted where the depositor has a position and the
/// rate update is fresh.
pub proof fn lemma_second_rebase_waits_for_interval(
    first: DistributeYield,
    after_first: DistributeYield,
    event: YieldDistributed,
    second: DistributeYield,
    bond_account: Seq<u8>,
    bond: (Seq<u8>, u8),
)
    requires
        after_first.is_distribution_of(first, event),
        second.stablecoin_state == after_first.stablecoin_state,
        second.bond_info.key@ == bond_account,
        bond.0 == second.bond_mint@,
    ensures
        second.unix_timestamp - first.unix_timestamp < REBASE_INTERVAL ==> second.validation(
            bond_account,
            Some(bond),
        ) == Err::<(), InstructionError>(InstructionError::Rule(StablecoinError::RebaseTooEarly))
            && second.distribution(bond_account, Some(bond)) == Err::<
            YieldDistributed,
            InstructionError,
        >(InstructionError::Rule(StablecoinError::RebaseTooEarly)),
        second.unix_timestamp - first.unix_timestamp >= REBASE_INTERVAL ==> second.validation(
            bond_account,
            Some(bond),
        ) != Err::<(), InstructionError>(InstructionError::Rule(StablecoinError::RebaseTooEarly))
            && second.distribution(bond_account, Some(bond)) != Err::<
            YieldDistributed,
            InstructionError,
        >(InstructionError::Rule(StablecoinError::RebaseTooEarly)),
        second.unix_timestamp - first.unix_timestamp >= REBASE_INTERVAL
            && second.stablecoin_state.holds_position(second.user_state.user) && within_window(
            second.unix_timestamp,
            second.stablecoin_state.last_rate_update,
            RATE_UPDATE_INTERVAL,
        ) ==> second.validation(bond_account, Some(bond)).is_ok(),
{
}

} // verus!
